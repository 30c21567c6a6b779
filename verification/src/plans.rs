//! One plan per lifecycle operation: the method, relative path, headers,
//! body and classification context each request is sent with, and the
//! success-path check applied to what comes back.

use vstd::prelude::*;

use crate::classify::{map_flaps_error, spec_classified, ApiEndpoint};
use crate::convergence::{effective_wait_timeout_secs, spec_clamp, WAIT_TIMEOUT_MAX_MS, WAIT_TIMEOUT_MIN_MS};
use crate::error::FlapsError;
use crate::machine::{spec_state_name, Machine, State};
use crate::request::{add_lease_nonce, encode_url_params, spec_params_view, spec_query, HeaderPair};
use crate::strutil::{spec_dec, spec_opt_str, u128_to_string, u64_to_string};
use crate::types::{
    AsMachineId, LaunchMachineInput, MachineExecRequest, RemoveMachineInput, RestartMachineInput,
    Signal, StopMachineInput,
};

verus! {

/// The verbs the control plane is spoken to with.
#[derive(Debug, Clone, Copy, PartialEq, Eq, Structural)]
pub enum HttpMethod {
    Get,
    Post,
    Delete,
}

/// The JSON payload a plan sends: the empty payload for verbs without
/// one, else the typed input of the operation.
#[derive(Debug, Clone)]
pub enum PlanBody {
    Empty,
    Launch(LaunchMachineInput),
    Stop(StopMachineInput),
    Signal(Signal),
    Exec(MachineExecRequest),
}

/// Everything one request needs besides the transport: verb, path
/// relative to the app's machines collection, extra headers, payload
/// and the classification context for a failure.
#[derive(Debug, Clone)]
pub struct RequestPlan {
    pub method: HttpMethod,
    pub path: String,
    pub headers: Vec<HeaderPair>,
    pub body: PlanBody,
    pub endpoint: ApiEndpoint,
}

/// Whether `headers` carries exactly the lease nonce `nonce` asks for:
/// nothing, or the one nonce header.
pub open spec fn spec_lease_headers(headers: Seq<HeaderPair>, nonce: Option<String>) -> bool {
    match nonce {
        Some(n) => headers.len() == 1 && headers[0].name@ == "fly-machine-lease-nonce"@
            && headers[0].value == n,
        None => headers.len() == 0,
    }
}

fn lease_headers(nonce: Option<String>) -> (r: Vec<HeaderPair>)
    ensures
        spec_lease_headers(r@, nonce),
{
    let mut headers: Vec<HeaderPair> = Vec::new();
    add_lease_nonce(&mut headers, nonce);
    proof {
        if headers@.len() == 1 {
            assert(headers@.drop_last() =~= Seq::<HeaderPair>::empty());
            assert(headers@[0] == headers@.last());
        }
    }
    headers
}

/// The outcome of one dispatched request: a success body is handed back
/// for decoding, any other status is classified into a typed error.
pub fn check_response(
    body: Vec<u8>,
    request_id: Option<String>,
    status: u16,
    endpoint: ApiEndpoint,
) -> (r: Result<Vec<u8>, FlapsError>)
    ensures
        status <= 299 ==> (r matches Ok(b) && b == body),
        status > 299 ==> (r matches Err(e) && spec_classified(
            body@,
            spec_opt_str(request_id),
            status,
            endpoint,
            e,
        )),
{
    if status > 299 {
        Err(map_flaps_error(&body, request_id, status, endpoint))
    } else {
        Ok(body)
    }
}

/// Launch a machine: a bodied post to the collection itself.
pub fn launch_plan(req: LaunchMachineInput) -> (p: RequestPlan)
    ensures
        p.method == HttpMethod::Post,
        p.path@ == Seq::<char>::empty(),
        p.headers@.len() == 0,
        p.body == PlanBody::Launch(req),
        p.endpoint matches ApiEndpoint::Other,
{
    RequestPlan {
        method: HttpMethod::Post,
        path: String::new(),
        headers: Vec::new(),
        body: PlanBody::Launch(req),
        endpoint: ApiEndpoint::Other,
    }
}

/// Update a machine: the launch body posted to the machine's id, under
/// the lease nonce when one is held; without an id there is nothing to
/// update.
pub fn update_plan(req: LaunchMachineInput, nonce: Option<String>) -> (r: Result<
    RequestPlan,
    FlapsError,
>)
    ensures
        match r {
            Ok(p) => (req.id matches Some(id) && p.path@ == id@) && p.method == HttpMethod::Post
                && spec_lease_headers(p.headers@, nonce) && p.body == PlanBody::Launch(req) && (
            p.endpoint matches ApiEndpoint::Other),
            Err(e) => req.id is None && e matches FlapsError::NoMachineId,
        },
{
    let path = match &req.id {
        Some(id) => id.clone(),
        None => {
            return Err(FlapsError::NoMachineId);
        },
    };
    Ok(
        RequestPlan {
            method: HttpMethod::Post,
            path,
            headers: lease_headers(nonce),
            body: PlanBody::Launch(req),
            endpoint: ApiEndpoint::Other,
        },
    )
}

/// Start a machine, under the lease nonce when one is held.
pub fn start_plan<M: AsMachineId>(machine: &M, nonce: Option<String>) -> (p: RequestPlan)
    ensures
        p.method == HttpMethod::Post,
        p.path@ == machine.spec_machine_id() + "/start"@,
        spec_lease_headers(p.headers@, nonce),
        p.body == PlanBody::Empty,
        p.endpoint matches ApiEndpoint::Other,
{
    proof {
        reveal_strlit("/start");
    }
    let mut path = String::from_str(machine.as_machine_id());
    path.append("/start");
    RequestPlan {
        method: HttpMethod::Post,
        path,
        headers: lease_headers(nonce),
        body: PlanBody::Empty,
        endpoint: ApiEndpoint::Other,
    }
}

/// The state a wait converges on when the caller names none.
pub open spec fn spec_wait_state(state: Option<State>) -> State {
    match state {
        Some(s) => s,
        None => State::Started,
    }
}

/// The instance version a wait is pinned to: the machine's version when
/// present, else its instance id.
pub open spec fn spec_wait_version(m: Machine) -> Seq<char> {
    match m.version {
        Some(v) => v@,
        None => m.instance_id@,
    }
}

/// One long poll against the machine's wait endpoint: the window sent
/// to the remote is the requested span clamped between one second and
/// the proxy threshold, in whole seconds, and the failure context is
/// the wait tag carrying the desired state (defaulting to started).
pub fn wait_plan(machine: &Machine, state: Option<State>, timeout_ms: u64) -> (p: RequestPlan)
    ensures
        p.method == HttpMethod::Get,
        p.path@ == machine.id@ + "/wait"@ + spec_query(
            seq![
                ("instance_id"@, spec_wait_version(*machine)),
                ("state"@, spec_state_name(spec_wait_state(state))),
                (
                    "timeout"@,
                    spec_dec(
                        (spec_clamp(
                            timeout_ms as int,
                            WAIT_TIMEOUT_MIN_MS as int,
                            WAIT_TIMEOUT_MAX_MS as int,
                        ) / 1000) as nat,
                    ),
                ),
            ],
        ),
        p.headers@.len() == 0,
        p.body == PlanBody::Empty,
        p.endpoint == ApiEndpoint::Wait(spec_wait_state(state)),
{
    proof {
        reveal_strlit("/wait");
    }
    let desired = match state {
        Some(s) => s,
        None => State::Started,
    };
    let version: String = match &machine.version {
        Some(v) => v.clone(),
        None => machine.instance_id.clone(),
    };
    let timeout_secs = effective_wait_timeout_secs(timeout_ms);
    let mut params: Vec<(String, String)> = Vec::new();
    params.push((String::from_str("instance_id"), version));
    params.push((String::from_str("state"), desired.name()));
    params.push((String::from_str("timeout"), u64_to_string(timeout_secs)));
    let query = encode_url_params(&params);
    proof {
        assert(spec_params_view(params@) =~= seq![
            ("instance_id"@, spec_wait_version(*machine)),
            ("state"@, spec_state_name(spec_wait_state(state))),
            (
                "timeout"@,
                spec_dec(
                    (spec_clamp(
                        timeout_ms as int,
                        WAIT_TIMEOUT_MIN_MS as int,
                        WAIT_TIMEOUT_MAX_MS as int,
                    ) / 1000) as nat,
                ),
            ),
        ]);
    }
    let mut path = machine.id.clone();
    path.append("/wait");
    path.append(query.as_str());
    RequestPlan {
        method: HttpMethod::Get,
        path,
        headers: Vec::new(),
        body: PlanBody::Empty,
        endpoint: ApiEndpoint::Wait(desired),
    }
}

/// Stop a machine with its signal and grace timeout, under the lease
/// nonce when one is held.
pub fn stop_plan(stop_input: StopMachineInput, nonce: Option<String>) -> (p: RequestPlan)
    ensures
        p.method == HttpMethod::Post,
        p.path@ == stop_input.id@ + "/stop"@,
        spec_lease_headers(p.headers@, nonce),
        p.body == PlanBody::Stop(stop_input),
        p.endpoint matches ApiEndpoint::Other,
{
    proof {
        reveal_strlit("/stop");
    }
    let mut path = stop_input.id.clone();
    path.append("/stop");
    RequestPlan {
        method: HttpMethod::Post,
        path,
        headers: lease_headers(nonce),
        body: PlanBody::Stop(stop_input),
        endpoint: ApiEndpoint::Other,
    }
}

/// The query a restart carries: whether to force the stop, then the
/// grace timeout in nanoseconds when one is set, then the signal when
/// one is named.
pub open spec fn spec_restart_params(input: RestartMachineInput) -> Seq<(Seq<char>, Seq<char>)> {
    let base = seq![("force_stop"@, if input.force_stop { "true"@ } else { "false"@ })];
    let with_timeout = match input.timeout {
        Some(t) => base.push(("timeout"@, spec_dec(t.spec_nanos() as nat))),
        None => base,
    };
    match input.signal {
        Some(sig) => with_timeout.push(("signal"@, sig@)),
        None => with_timeout,
    }
}

/// Restart a machine, under the lease nonce when one is held.
pub fn restart_plan(restart_input: RestartMachineInput, nonce: Option<String>) -> (p: RequestPlan)
    requires
        restart_input.timeout matches Some(t) ==> t.wf(),
    ensures
        p.method == HttpMethod::Post,
        p.path@ == restart_input.id@ + "/restart"@ + spec_query(spec_restart_params(restart_input)),
        spec_lease_headers(p.headers@, nonce),
        p.body == PlanBody::Empty,
        p.endpoint matches ApiEndpoint::Other,
{
    proof {
        reveal_strlit("/restart");
        reveal_strlit("true");
        reveal_strlit("false");
    }
    let mut params: Vec<(String, String)> = Vec::new();
    let force_stop_str = if restart_input.force_stop {
        String::from_str("true")
    } else {
        String::from_str("false")
    };
    params.push((String::from_str("force_stop"), force_stop_str));
    if let Some(t) = &restart_input.timeout {
        params.push((String::from_str("timeout"), u128_to_string(t.as_nanos())));
    }
    if let Some(sig) = &restart_input.signal {
        params.push((String::from_str("signal"), sig.clone()));
    }
    let query = encode_url_params(&params);
    proof {
        assert(spec_params_view(params@) =~= spec_restart_params(restart_input));
    }
    let mut path = restart_input.id.clone();
    path.append("/restart");
    path.append(query.as_str());
    RequestPlan {
        method: HttpMethod::Post,
        path,
        headers: lease_headers(nonce),
        body: PlanBody::Empty,
        endpoint: ApiEndpoint::Other,
    }
}

/// Fetch one machine by id.
pub fn get_plan<M: AsMachineId>(machine: &M) -> (p: RequestPlan)
    ensures
        p.method == HttpMethod::Get,
        p.path@ == machine.spec_machine_id(),
        p.headers@.len() == 0,
        p.body == PlanBody::Empty,
        p.endpoint matches ApiEndpoint::Other,
{
    RequestPlan {
        method: HttpMethod::Get,
        path: String::from_str(machine.as_machine_id()),
        headers: Vec::new(),
        body: PlanBody::Empty,
        endpoint: ApiEndpoint::Other,
    }
}

/// List the app's machines, optionally under a raw query filter, which
/// is passed through unencoded.
pub fn list_plan(state: Option<&str>) -> (p: RequestPlan)
    ensures
        p.method == HttpMethod::Get,
        match state {
            Some(s) => p.path@ == "?"@ + s@,
            None => p.path@ == Seq::<char>::empty(),
        },
        p.headers@.len() == 0,
        p.body == PlanBody::Empty,
        p.endpoint matches ApiEndpoint::Other,
{
    let path = match state {
        Some(s) => {
            proof {
                reveal_strlit("?");
            }
            let mut path = String::from_str("?");
            path.append(s);
            path
        },
        None => String::new(),
    };
    RequestPlan {
        method: HttpMethod::Get,
        path,
        headers: Vec::new(),
        body: PlanBody::Empty,
        endpoint: ApiEndpoint::Other,
    }
}

/// Destroy a machine, forcibly when the input says to kill it, under
/// the lease nonce when one is held.
pub fn destroy_plan(input: RemoveMachineInput, nonce: Option<String>) -> (p: RequestPlan)
    ensures
        p.method == HttpMethod::Delete,
        p.path@ == input.id@ + "/destroy?kill="@ + (if input.kill {
            "true"@
        } else {
            "false"@
        }),
        spec_lease_headers(p.headers@, nonce),
        p.body == PlanBody::Empty,
        p.endpoint matches ApiEndpoint::Other,
{
    proof {
        reveal_strlit("/destroy?kill=");
    }
    let mut path = input.id.clone();
    path.append("/destroy?kill=");
    path.append(if input.kill {
        "true"
    } else {
        "false"
    });
    RequestPlan {
        method: HttpMethod::Delete,
        path,
        headers: lease_headers(nonce),
        body: PlanBody::Empty,
        endpoint: ApiEndpoint::Other,
    }
}

/// Kill a machine: the kill signal posted to its signal endpoint.
pub fn kill_plan<M: AsMachineId>(machine: &M) -> (p: RequestPlan)
    ensures
        p.method == HttpMethod::Post,
        p.path@ == machine.spec_machine_id() + "/signal"@,
        p.headers@.len() == 0,
        p.body == PlanBody::Signal(Signal { signal: 9i32 }),
        p.endpoint matches ApiEndpoint::Other,
{
    proof {
        reveal_strlit("/signal");
    }
    let mut path = String::from_str(machine.as_machine_id());
    path.append("/signal");
    RequestPlan {
        method: HttpMethod::Post,
        path,
        headers: Vec::new(),
        body: PlanBody::Signal(Signal::from(9)),
        endpoint: ApiEndpoint::Other,
    }
}

/// Read the machine's current lease, if any.
pub fn find_lease_plan<M: AsMachineId>(machine: &M) -> (p: RequestPlan)
    ensures
        p.method == HttpMethod::Get,
        p.path@ == machine.spec_machine_id() + "/lease"@,
        p.headers@.len() == 0,
        p.body == PlanBody::Empty,
        p.endpoint matches ApiEndpoint::Other,
{
    proof {
        reveal_strlit("/lease");
    }
    let mut path = String::from_str(machine.as_machine_id());
    path.append("/lease");
    RequestPlan {
        method: HttpMethod::Get,
        path,
        headers: Vec::new(),
        body: PlanBody::Empty,
        endpoint: ApiEndpoint::Other,
    }
}

/// The query a lease request carries: the time to live, when given.
pub open spec fn spec_ttl_params(ttl: Option<i32>) -> Seq<(Seq<char>, Seq<char>)> {
    match ttl {
        Some(t) => seq![("ttl"@, crate::strutil::spec_dec_signed(t as int))],
        None => Seq::empty(),
    }
}

fn ttl_params(ttl: Option<i32>) -> (r: Vec<(String, String)>)
    ensures
        spec_params_view(r@) =~= spec_ttl_params(ttl),
{
    let mut params: Vec<(String, String)> = Vec::new();
    if let Some(t) = ttl {
        params.push((String::from_str("ttl"), crate::strutil::i32_to_string(t)));
    }
    proof {
        assert(spec_params_view(params@) =~= spec_ttl_params(ttl));
    }
    params
}

/// Acquire a lease on the machine, for `ttl` seconds when given.
pub fn acquire_lease_plan<M: AsMachineId>(machine: &M, ttl: Option<i32>) -> (p: RequestPlan)
    ensures
        p.method == HttpMethod::Post,
        p.path@ == machine.spec_machine_id() + "/lease"@ + spec_query(spec_ttl_params(ttl)),
        p.headers@.len() == 0,
        p.body == PlanBody::Empty,
        p.endpoint matches ApiEndpoint::Other,
{
    proof {
        reveal_strlit("/lease");
    }
    let params = ttl_params(ttl);
    let query = encode_url_params(&params);
    let mut path = String::from_str(machine.as_machine_id());
    path.append("/lease");
    path.append(query.as_str());
    RequestPlan {
        method: HttpMethod::Post,
        path,
        headers: Vec::new(),
        body: PlanBody::Empty,
        endpoint: ApiEndpoint::Other,
    }
}

/// Refresh the lease proven by `nonce`, for `ttl` seconds when given;
/// the nonce always rides along as the lease header.
pub fn refresh_lease_plan<M: AsMachineId>(machine: &M, ttl: Option<i32>, nonce: String) -> (p:
    RequestPlan)
    ensures
        p.method == HttpMethod::Post,
        p.path@ == machine.spec_machine_id() + "/lease/refresh"@ + spec_query(spec_ttl_params(ttl)),
        spec_lease_headers(p.headers@, Some(nonce)),
        p.body == PlanBody::Empty,
        p.endpoint matches ApiEndpoint::Other,
{
    proof {
        reveal_strlit("/lease/refresh");
    }
    let params = ttl_params(ttl);
    let query = encode_url_params(&params);
    let mut path = String::from_str(machine.as_machine_id());
    path.append("/lease/refresh");
    path.append(query.as_str());
    let headers = lease_headers(Some(nonce));
    RequestPlan {
        method: HttpMethod::Post,
        path,
        headers,
        body: PlanBody::Empty,
        endpoint: ApiEndpoint::Other,
    }
}

/// Release the machine's lease, proving ownership when a nonce is held.
pub fn release_lease_plan<M: AsMachineId>(machine: &M, nonce: Option<String>) -> (p: RequestPlan)
    ensures
        p.method == HttpMethod::Delete,
        p.path@ == machine.spec_machine_id() + "/lease"@,
        spec_lease_headers(p.headers@, nonce),
        p.body == PlanBody::Empty,
        p.endpoint matches ApiEndpoint::Other,
{
    proof {
        reveal_strlit("/lease");
    }
    let mut path = String::from_str(machine.as_machine_id());
    path.append("/lease");
    RequestPlan {
        method: HttpMethod::Delete,
        path,
        headers: lease_headers(nonce),
        body: PlanBody::Empty,
        endpoint: ApiEndpoint::Other,
    }
}

/// Run a command in the machine.
pub fn exec_plan<M: AsMachineId>(machine: &M, input: MachineExecRequest) -> (p: RequestPlan)
    ensures
        p.method == HttpMethod::Post,
        p.path@ == machine.spec_machine_id() + "/exec"@,
        p.headers@.len() == 0,
        p.body == PlanBody::Exec(input),
        p.endpoint matches ApiEndpoint::Other,
{
    proof {
        reveal_strlit("/exec");
    }
    let mut path = String::from_str(machine.as_machine_id());
    path.append("/exec");
    RequestPlan {
        method: HttpMethod::Post,
        path,
        headers: Vec::new(),
        body: PlanBody::Exec(input),
        endpoint: ApiEndpoint::Other,
    }
}

/// List the processes running in the machine.
pub fn get_processes_plan<M: AsMachineId>(machine: &M) -> (p: RequestPlan)
    ensures
        p.method == HttpMethod::Get,
        p.path@ == machine.spec_machine_id() + "/ps"@,
        p.headers@.len() == 0,
        p.body == PlanBody::Empty,
        p.endpoint matches ApiEndpoint::Other,
{
    proof {
        reveal_strlit("/ps");
    }
    let mut path = String::from_str(machine.as_machine_id());
    path.append("/ps");
    RequestPlan {
        method: HttpMethod::Get,
        path,
        headers: Vec::new(),
        body: PlanBody::Empty,
        endpoint: ApiEndpoint::Other,
    }
}

} // verus!
