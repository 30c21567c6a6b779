//! Inputs and outputs of the machine lifecycle operations, and the
//! capability of naming a machine by id.

use vstd::prelude::*;

use crate::config::Config;
use crate::duration::FlyctlDuration;
use crate::machine::Machine;

verus! {

/// Anything that names a machine by its id string: a bare id or a full
/// machine snapshot.
pub trait AsMachineId {
    /// The id this value names.
    spec fn spec_machine_id(&self) -> Seq<char>;

    fn as_machine_id(&self) -> (r: &str)
        ensures
            r@ == self.spec_machine_id(),
    ;
}

impl AsMachineId for String {
    open spec fn spec_machine_id(&self) -> Seq<char> {
        self@
    }

    fn as_machine_id(&self) -> (r: &str)
        ensures
            r@ == self.spec_machine_id(),
    {
        self.as_str()
    }
}

impl AsMachineId for Machine {
    open spec fn spec_machine_id(&self) -> Seq<char> {
        self.id@
    }

    fn as_machine_id(&self) -> (r: &str)
        ensures
            r@ == self.spec_machine_id(),
    {
        self.id.as_str()
    }
}

/// Request to launch a machine, or to update one when `id` names it.
#[derive(Debug, Clone)]
pub struct LaunchMachineInput {
    pub config: Option<Config>,
    pub region: Option<String>,
    pub name: Option<String>,
    pub skip_launch: bool,
    pub lease_ttl: Option<i32>,
    /// Client side only: the machine to update; never sent on the wire.
    pub id: Option<String>,
}

/// The control plane's acknowledgement of a start request.
#[derive(Debug, Clone)]
pub struct MachineStartResponse {
    pub message: String,
    pub status: String,
    pub previous_state: String,
}

/// Request to stop a machine with a signal and a grace timeout.
#[derive(Debug, Clone)]
pub struct StopMachineInput {
    pub id: String,
    pub signal: String,
    pub timeout: FlyctlDuration,
}

/// Request to restart a machine.
#[derive(Debug, Clone)]
pub struct RestartMachineInput {
    pub id: String,
    pub signal: Option<String>,
    pub timeout: Option<FlyctlDuration>,
    pub force_stop: bool,
}

/// The app's machines with the release-command machine, if any, set
/// apart.
#[derive(Debug, Clone)]
pub struct FlyAppsMachines {
    pub machines: Vec<Machine>,
    pub release_cmd_machine: Option<Machine>,
}

/// Request to destroy a machine, forcibly when `kill` is set.
#[derive(Debug, Clone)]
pub struct RemoveMachineInput {
    pub id: String,
    pub kill: bool,
}

/// A unix signal number sent to a machine.
#[derive(Debug, Clone, Copy, PartialEq, Eq, Structural)]
pub struct Signal {
    pub signal: i32,
}

impl From<i32> for Signal {
    fn from(signal: i32) -> (r: Signal) {
        Signal { signal }
    }
}

impl vstd::std_specs::convert::FromSpecImpl<i32> for Signal {
    open spec fn obeys_from_spec() -> bool {
        true
    }

    open spec fn from_spec(signal: i32) -> Signal {
        Signal { signal }
    }
}

/// A lease as the control plane reports it.
#[derive(Debug, Clone)]
pub struct MachineLease {
    pub status: String,
    pub data: MachineLeaseData,
    pub message: String,
    pub code: String,
}

/// The lease proper: the nonce proving ownership, who holds it and when
/// it lapses (unix seconds). Server-authoritative; the client only
/// requests acquire, refresh and release.
#[derive(Debug, Clone)]
pub struct MachineLeaseData {
    pub nonce: String,
    pub expires_at: i64,
    pub owner: String,
}

/// Request to run a command in a machine.
#[derive(Debug, Clone)]
pub struct MachineExecRequest {
    pub cmd: String,
    pub timeout: i32,
}

/// What a command run in a machine produced.
#[derive(Debug, Clone)]
pub struct MachineExecResponse {
    pub exit_code: i32,
    pub stdout: String,
    pub stderr: String,
}

} // verus!
