//! The machine data model: lifecycle states and the machine snapshot
//! returned by the control plane.

use vstd::prelude::*;

use crate::config::{Config, ImageRef};
use crate::duration::GoTime;
use crate::strmap::StringMap;
use crate::strutil::str_eq;

verus! {

/// Lifecycle state of a machine, as reported by the control plane.
#[derive(Debug, Clone, PartialEq, Eq, Structural)]
pub enum State {
    Destroyed,
    Destroying,
    Started,
    Stopped,
    Created,
}

/// The canonical wire string of each state.
pub open spec fn spec_state_name(s: State) -> Seq<char> {
    match s {
        State::Destroyed => "destroyed"@,
        State::Destroying => "destroying"@,
        State::Started => "started"@,
        State::Stopped => "stopped"@,
        State::Created => "created"@,
    }
}

impl State {
    /// The canonical wire string for this state.
    pub fn name(&self) -> (r: String)
        ensures
            r@ == spec_state_name(*self),
    {
        match self {
            State::Destroyed => String::from_str("destroyed"),
            State::Destroying => String::from_str("destroying"),
            State::Stopped => String::from_str("stopped"),
            State::Started => String::from_str("started"),
            State::Created => String::from_str("created"),
        }
    }

    /// The state whose canonical wire string is `name`, if any.
    pub fn from_name(name: &str) -> (r: Option<State>)
        ensures
            match r {
                Some(s) => spec_state_name(s) == name@,
                None => forall|s: State| spec_state_name(s) != name@,
            },
    {
        if str_eq(name, "destroyed") {
            Some(State::Destroyed)
        } else if str_eq(name, "destroying") {
            Some(State::Destroying)
        } else if str_eq(name, "started") {
            Some(State::Started)
        } else if str_eq(name, "stopped") {
            Some(State::Stopped)
        } else if str_eq(name, "created") {
            Some(State::Created)
        } else {
            assert forall|s: State| spec_state_name(s) != name@ by {
                match s {
                    State::Destroyed => assert(spec_state_name(s) == "destroyed"@),
                    State::Destroying => assert(spec_state_name(s) == "destroying"@),
                    State::Started => assert(spec_state_name(s) == "started"@),
                    State::Stopped => assert(spec_state_name(s) == "stopped"@),
                    State::Created => assert(spec_state_name(s) == "created"@),
                }
            }
            None
        }
    }
}

/// Result status of a consul health check.
#[derive(Debug, Clone, Copy, PartialEq, Eq, Structural)]
pub enum ConsulCheckStatus {
    Critical,
    Warning,
    Passing,
}

/// Latest result of one named health check.
#[derive(Debug, Clone)]
pub struct CheckStatus {
    pub name: String,
    pub status: ConsulCheckStatus,
    pub output: String,
    pub updated_at: Option<GoTime>,
}

/// The exit of the machine's workload.
#[derive(Debug, Clone)]
pub struct MachineExitEvent {
    pub exit_code: i32,
    pub guest_exit_code: i32,
    pub guest_signal: i32,
    pub oom_killed: bool,
    pub requested_stop: bool,
    pub restarting: bool,
    pub signal: i32,
    pub exited_at: Option<GoTime>,
}

#[derive(Debug, Clone)]
pub struct MachineMonitorEvent {
    pub exit_event: Option<MachineExitEvent>,
}

/// Reported when a lifecycle event carries no exit code.
#[derive(Debug, Clone)]
pub struct NoExitCodeError;

/// The request that caused a lifecycle event.
#[derive(Debug, Clone)]
pub struct MachineRequest {
    pub exit_event: Option<MachineExitEvent>,
    pub monitor_event: Option<MachineMonitorEvent>,
    pub restart_count: i32,
}

/// The exit code a request carries: the monitor event's when present,
/// else the request's own exit event's.
pub open spec fn spec_exit_code(r: MachineRequest) -> Option<i32> {
    match r.monitor_event {
        Some(me) if me.exit_event is Some => Some(me.exit_event->Some_0.exit_code),
        _ => match r.exit_event {
            Some(ee) => Some(ee.exit_code),
            None => None,
        },
    }
}

impl MachineRequest {
    /// The exit code this request carries, preferring the monitor
    /// event's; an error when neither event holds one.
    pub fn get_exit_code(&self) -> (r: Result<i32, NoExitCodeError>)
        ensures
            match r {
                Ok(code) => spec_exit_code(*self) == Some(code),
                Err(_) => spec_exit_code(*self) is None,
            },
    {
        if let Some(me) = &self.monitor_event {
            if let Some(ee) = &me.exit_event {
                return Ok(ee.exit_code);
            }
        }
        if let Some(ee) = &self.exit_event {
            Ok(ee.exit_code)
        } else {
            Err(NoExitCodeError)
        }
    }
}

/// One lifecycle event of a machine.
#[derive(Debug, Clone)]
pub struct MachineEvent {
    pub type_: String,
    pub status: String,
    pub request: Option<MachineRequest>,
    pub source: String,
    pub timestamp: i64,
}

/// A snapshot of one machine as the control plane reports it.
#[derive(Debug, Clone)]
pub struct Machine {
    pub id: String,
    pub name: String,
    pub state: State,
    pub region: String,
    pub image_ref: ImageRef,
    /// Unique for each version of the machine.
    pub instance_id: String,
    pub version: Option<String>,
    /// The internal network address of the machine.
    pub private_ip: String,
    pub created_at: GoTime,
    pub updated_at: GoTime,
    pub config: Option<Config>,
    pub events: Vec<MachineEvent>,
    pub checks: Vec<CheckStatus>,
    pub lease_nonce: String,
}

/// The machine's process group: the modern metadata key when present,
/// else the legacy one.
pub open spec fn spec_process_group(m: Machine) -> Option<Seq<char>> {
    match m.config {
        Some(c) => match c.metadata {
            Some(md) => match md.spec_get("fly_process_group"@) {
                Some(g) => Some(g),
                None => md.spec_get("process_group"@),
            },
            None => None,
        },
        None => None,
    }
}

/// Whether the machine runs a release command, under the modern or the
/// legacy group name.
pub open spec fn spec_is_release_command_machine(m: Machine) -> bool {
    spec_process_group(m) == Some("fly_app_release_command"@) || spec_process_group(m) == Some(
        "release_command"@,
    )
}

/// Whether the machine's metadata marks the second platform version.
pub open spec fn spec_is_apps_v2(m: Machine) -> bool {
    match m.config {
        Some(c) => match c.metadata {
            Some(md) => md.spec_get("fly_platform_version"@) == Some("v2"@),
            None => false,
        },
        None => false,
    }
}

/// Whether the machine is neither destroyed nor being destroyed.
pub open spec fn spec_is_active(m: Machine) -> bool {
    m.state != State::Destroyed && m.state != State::Destroying
}

pub open spec fn spec_is_fly_apps_platform(m: Machine) -> bool {
    spec_is_apps_v2(m) && spec_is_active(m)
}

/// Whether the machine is a platform console machine.
pub open spec fn spec_is_fly_apps_console(m: Machine) -> bool {
    spec_is_fly_apps_platform(m) && spec_process_group(m) == Some("fly_app_console"@)
}

impl Machine {
    /// The machine's process group, read from its config metadata: the
    /// modern key first, then the legacy key.
    pub fn process_group(&self) -> (r: Option<&String>)
        ensures
            match r {
                Some(g) => spec_process_group(*self) == Some(g@),
                None => spec_process_group(*self) is None,
            },
    {
        let md = match &self.config {
            Some(c) => match &c.metadata {
                Some(md) => md,
                None => {
                    return None;
                },
            },
            None => {
                return None;
            },
        };
        match md.get("fly_process_group") {
            Some(g) => Some(g),
            None => md.get("process_group"),
        }
    }

    /// Whether the machine's process group is exactly `group`.
    pub fn has_process_group(&self, group: &str) -> (r: bool)
        ensures
            r == (spec_process_group(*self) == Some(group@)),
    {
        match self.process_group() {
            Some(g) => str_eq(g.as_str(), group),
            None => false,
        }
    }

    /// Whether the machine's process group is one of `groups`.
    pub fn has_any_process_group(&self, groups: &[&str]) -> (r: bool)
        ensures
            r == exists|i: int|
                0 <= i < groups@.len() && spec_process_group(*self) == Some(groups@[i]@),
    {
        let g = match self.process_group() {
            Some(g) => g,
            None => {
                return false;
            },
        };
        let n = groups.len();
        let mut i: usize = 0;
        while i < n
            invariant
                n == groups@.len(),
                i <= n,
                spec_process_group(*self) == Some(g@),
                forall|j: int| 0 <= j < i ==> spec_process_group(*self) != Some(groups@[j]@),
            decreases n - i,
        {
            let candidate: &str = groups[i];
            if str_eq(g.as_str(), candidate) {
                return true;
            }
            i += 1;
        }
        false
    }

    /// Whether the machine runs a release command (modern or legacy
    /// group name).
    pub fn is_release_command_machine(&self) -> (r: bool)
        ensures
            r == spec_is_release_command_machine(*self),
    {
        self.has_any_process_group(&["fly_app_release_command", "release_command"])
    }

    /// Whether the machine's metadata marks the second platform version.
    pub fn is_apps_v2(&self) -> (r: bool)
        ensures
            r == spec_is_apps_v2(*self),
    {
        let md = match &self.config {
            Some(c) => match &c.metadata {
                Some(md) => md,
                None => {
                    return false;
                },
            },
            None => {
                return false;
            },
        };
        match md.get("fly_platform_version") {
            Some(fpv) => str_eq(fpv.as_str(), "v2"),
            None => false,
        }
    }

    /// Whether the machine is neither destroyed nor being destroyed.
    pub fn is_active(&self) -> (r: bool)
        ensures
            r == spec_is_active(*self),
    {
        self.state != State::Destroyed && self.state != State::Destroying
    }

    pub fn is_fly_apps_platform(&self) -> (r: bool)
        ensures
            r == spec_is_fly_apps_platform(*self),
    {
        self.is_apps_v2() && self.is_active()
    }

    /// Whether the machine is a platform console machine.
    pub fn is_fly_apps_console(&self) -> (r: bool)
        ensures
            r == spec_is_fly_apps_console(*self),
    {
        self.is_fly_apps_platform() && self.has_process_group("fly_app_console")
    }
}

/// One process running in a machine.
#[derive(Debug, Clone)]
pub struct ProcessStat {
    pub pid: i32,
    pub stime: u64,
    pub rtime: u64,
    pub command: String,
    pub directory: String,
    pub cpu: u64,
    pub rss: u64,
    pub listen_sockets: Vec<ListenSocket>,
}

/// A socket a process listens on.
#[derive(Debug, Clone)]
pub struct ListenSocket {
    pub proto: String,
    pub address: String,
}

} // verus!
