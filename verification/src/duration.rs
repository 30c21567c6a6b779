//! Duration and timestamp values carried in machine configuration, held
//! as plain seconds/nanoseconds pairs.

use vstd::prelude::*;

verus! {

pub const NANOS_PER_SEC: u32 = 1_000_000_000;

/// A span of time rendered on the wire as text such as "72h3m0.5s".
#[derive(Debug, Clone, Copy, PartialEq, Eq, Structural, Hash)]
pub struct FlyctlDuration {
    pub secs: u64,
    pub nanos: u32,
}

impl FlyctlDuration {
    /// A duration value is well formed when the nanosecond part does not
    /// reach a whole second.
    pub open spec fn wf(&self) -> bool {
        self.nanos < NANOS_PER_SEC
    }

    /// The whole span in nanoseconds.
    pub open spec fn spec_nanos(&self) -> int {
        self.secs * (NANOS_PER_SEC as int) + self.nanos
    }

    pub fn new(secs: u64, nanos: u32) -> (r: FlyctlDuration)
        requires
            nanos < NANOS_PER_SEC,
        ensures
            r == (FlyctlDuration { secs, nanos }),
            r.wf(),
    {
        FlyctlDuration { secs, nanos }
    }

    /// The whole span in nanoseconds.
    pub fn as_nanos(&self) -> (r: u128)
        requires
            self.wf(),
        ensures
            r == self.spec_nanos(),
    {
        proof {
            assert((self.secs as int) * (NANOS_PER_SEC as int) <= 0xffff_ffff_ffff_ffff
                * 1_000_000_000) by (nonlinear_arith)
                requires
                    self.secs <= 0xffff_ffff_ffff_ffffu64,
            ;
        }
        (self.secs as u128) * (NANOS_PER_SEC as u128) + (self.nanos as u128)
    }

    /// Builds the duration holding exactly `nanos` nanoseconds.
    pub fn from_nanos(nanos: u64) -> (r: FlyctlDuration)
        ensures
            r.wf(),
            r.spec_nanos() == nanos,
    {
        proof {
            vstd::arithmetic::div_mod::lemma_fundamental_div_mod(
                nanos as int,
                NANOS_PER_SEC as int,
            );
        }
        FlyctlDuration { secs: nanos / (NANOS_PER_SEC as u64), nanos: (nanos % (NANOS_PER_SEC as u64)) as u32 }
    }

    /// Builds the duration of exactly `secs` whole seconds.
    pub fn from_secs(secs: u64) -> (r: FlyctlDuration)
        ensures
            r.wf(),
            r == (FlyctlDuration { secs, nanos: 0u32 }),
    {
        FlyctlDuration { secs, nanos: 0 }
    }
}

/// A span of time rendered on the wire as whole nanoseconds.
#[derive(Debug, Clone, Copy, PartialEq, Eq, Structural, Hash)]
pub struct GoDuration {
    pub secs: u64,
    pub nanos: u32,
}

/// A point in time rendered on the wire as whole seconds since the unix
/// epoch.
#[derive(Debug, Clone, Copy, PartialEq, Eq, Structural, Hash)]
pub struct UnixTime {
    pub seconds: u64,
}

/// A point in time rendered on the wire as RFC 3339 text, held as an
/// instant (seconds and nanoseconds since the unix epoch) and a local
/// offset.
#[derive(Debug, Clone, Copy, PartialEq, Eq, Structural, Hash)]
pub struct GoTime {
    pub unix_seconds: i64,
    pub subsec_nanos: u32,
    pub offset_seconds: i32,
}

} // verus!
