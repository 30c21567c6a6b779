use flaps_client::classify::ApiEndpoint;
use flaps_client::config::{ImageRef, Restart};
use flaps_client::duration::{FlyctlDuration, GoTime};
use flaps_client::error::{FlapsClientCreationError, FlapsError};
use flaps_client::machine::{Machine, State};
use flaps_client::plans::{
    acquire_lease_plan, check_response, destroy_plan, exec_plan, find_lease_plan, get_plan,
    get_processes_plan, kill_plan, launch_plan, list_plan, refresh_lease_plan, release_lease_plan,
    restart_plan, start_plan, stop_plan, update_plan, wait_plan, HttpMethod, PlanBody,
};
use flaps_client::request::{
    auth_header_value, encode_url_params, machines_base_path, resolve_app_name, resolve_base_url,
    validate_app_name,
};
use flaps_client::strmap::StringMap;
use flaps_client::types::{
    LaunchMachineInput, MachineExecRequest, RemoveMachineInput, RestartMachineInput,
    StopMachineInput,
};

fn machine(id: &str, instance_id: &str, version: Option<&str>) -> Machine {
    Machine {
        id: id.to_string(),
        name: "m".to_string(),
        state: State::Started,
        region: "iad".to_string(),
        image_ref: ImageRef {
            registry: "registry".to_string(),
            repository: "app".to_string(),
            tag: None,
            digest: None,
            labels: StringMap::new(),
        },
        instance_id: instance_id.to_string(),
        version: version.map(str::to_string),
        private_ip: "fdaa::1".to_string(),
        created_at: GoTime { unix_seconds: 0, subsec_nanos: 0, offset_seconds: 0 },
        updated_at: GoTime { unix_seconds: 0, subsec_nanos: 0, offset_seconds: 0 },
        config: None,
        events: Vec::new(),
        checks: Vec::new(),
        lease_nonce: String::new(),
    }
}

#[test]
fn app_name_rules() {
    assert!(!validate_app_name("my/app"));
    assert!(!validate_app_name("my:app"));
    assert!(!validate_app_name("my\\app"));
    assert!(validate_app_name("my-app"));
}

#[test]
fn machines_base_path_checks_the_name() {
    assert_eq!(machines_base_path("my-app".to_string()).unwrap(), "v1/apps/my-app/machines/");
    match machines_base_path("my/app".to_string()) {
        Err(FlapsClientCreationError::InvalidAppName(name)) => assert_eq!(name, "my/app"),
        other => panic!("expected InvalidAppName, got {:?}", other),
    }
}

#[test]
fn app_name_resolution() {
    assert_eq!(
        resolve_app_name(Some("a".to_string()), Some("b".to_string())).unwrap(),
        "a"
    );
    assert_eq!(resolve_app_name(None, Some("b".to_string())).unwrap(), "b");
    assert!(matches!(
        resolve_app_name(None, None),
        Err(FlapsClientCreationError::MissingAppName)
    ));
}

#[test]
fn base_url_resolution() {
    assert_eq!(
        resolve_base_url(Some("http://localhost:1234".to_string()), true),
        "http://localhost:1234"
    );
    assert_eq!(resolve_base_url(None, true), "http://_api.internal:4280");
    assert_eq!(resolve_base_url(None, false), "https://api.machines.dev");
}

#[test]
fn auth_header_keeps_structured_tokens() {
    assert_eq!(auth_header_value("FlyV1 tok".to_string()), "FlyV1 tok");
    assert_eq!(auth_header_value("tok".to_string()), "Bearer tok");
}

#[test]
fn wait_plan_clamps_timeout_and_defaults_state() {
    let m = machine("m1", "inst-1", None);
    let p = wait_plan(&m, None, 90_000);
    assert_eq!(p.method, HttpMethod::Get);
    assert_eq!(p.path, "m1/wait?instance_id=inst-1&state=started&timeout=60");
    assert!(matches!(p.endpoint, ApiEndpoint::Wait(State::Started)));

    let p = wait_plan(&m, Some(State::Stopped), 1);
    assert_eq!(p.path, "m1/wait?instance_id=inst-1&state=stopped&timeout=1");
}

#[test]
fn wait_plan_prefers_version_and_percent_encodes_it() {
    let m = machine("m1", "inst-1", Some("v 2"));
    let p = wait_plan(&m, None, 30_000);
    assert_eq!(p.path, "m1/wait?instance_id=v%202&state=started&timeout=30");
}

#[test]
fn query_encoding_escapes_reserved_characters() {
    let params = vec![("q".to_string(), "a/b&c=d".to_string())];
    assert_eq!(encode_url_params(&params), "?q=a%2Fb%26c%3Dd");
    assert_eq!(encode_url_params(&Vec::new()), "");
}

#[test]
fn start_plan_carries_lease_nonce() {
    let p = start_plan(&"m1".to_string(), Some("nonce-1".to_string()));
    assert_eq!(p.method, HttpMethod::Post);
    assert_eq!(p.path, "m1/start");
    assert_eq!(p.headers.len(), 1);
    assert_eq!(p.headers[0].name, "fly-machine-lease-nonce");
    assert_eq!(p.headers[0].value, "nonce-1");

    let p = start_plan(&"m1".to_string(), None);
    assert!(p.headers.is_empty());
}

#[test]
fn update_plan_requires_an_id() {
    let req = LaunchMachineInput {
        config: None,
        region: None,
        name: None,
        skip_launch: false,
        lease_ttl: None,
        id: None,
    };
    assert!(matches!(update_plan(req, None), Err(FlapsError::NoMachineId)));

    let req = LaunchMachineInput {
        config: None,
        region: None,
        name: None,
        skip_launch: false,
        lease_ttl: None,
        id: Some("m7".to_string()),
    };
    let p = update_plan(req, Some("n".to_string())).unwrap();
    assert_eq!(p.path, "m7");
    assert!(matches!(p.body, PlanBody::Launch(_)));
}

#[test]
fn launch_plan_posts_to_the_collection() {
    let req = LaunchMachineInput {
        config: None,
        region: Some("iad".to_string()),
        name: None,
        skip_launch: false,
        lease_ttl: None,
        id: None,
    };
    let p = launch_plan(req);
    assert_eq!(p.method, HttpMethod::Post);
    assert_eq!(p.path, "");
}

#[test]
fn stop_and_destroy_plans() {
    let p = stop_plan(
        StopMachineInput {
            id: "m1".to_string(),
            signal: "SIGTERM".to_string(),
            timeout: FlyctlDuration::from_secs(5),
        },
        None,
    );
    assert_eq!(p.path, "m1/stop");
    assert!(matches!(p.body, PlanBody::Stop(_)));

    let p = destroy_plan(RemoveMachineInput { id: "m1".to_string(), kill: true }, None);
    assert_eq!(p.method, HttpMethod::Delete);
    assert_eq!(p.path, "m1/destroy?kill=true");
    let p = destroy_plan(RemoveMachineInput { id: "m1".to_string(), kill: false }, None);
    assert_eq!(p.path, "m1/destroy?kill=false");
}

#[test]
fn restart_plan_query() {
    let p = restart_plan(
        RestartMachineInput {
            id: "m1".to_string(),
            signal: Some("SIGINT".to_string()),
            timeout: Some(FlyctlDuration::new(1, 500_000_000)),
            force_stop: true,
        },
        None,
    );
    assert_eq!(p.path, "m1/restart?force_stop=true&timeout=1500000000&signal=SIGINT");

    let p = restart_plan(
        RestartMachineInput { id: "m1".to_string(), signal: None, timeout: None, force_stop: false },
        None,
    );
    assert_eq!(p.path, "m1/restart?force_stop=false");
}

#[test]
fn get_kill_exec_and_ps_plans() {
    let p = get_plan(&"m1".to_string());
    assert_eq!(p.method, HttpMethod::Get);
    assert_eq!(p.path, "m1");

    let p = kill_plan(&"m1".to_string());
    assert_eq!(p.path, "m1/signal");
    match p.body {
        PlanBody::Signal(sig) => assert_eq!(sig.signal, 9),
        other => panic!("expected a signal body, got {:?}", other),
    }

    let p = exec_plan(&"m1".to_string(), MachineExecRequest { cmd: "uname".to_string(), timeout: 5 });
    assert_eq!(p.path, "m1/exec");

    let p = get_processes_plan(&"m1".to_string());
    assert_eq!(p.path, "m1/ps");
}

#[test]
fn list_plan_filter_is_raw() {
    let p = list_plan(None);
    assert_eq!(p.path, "");
    let p = list_plan(Some("state=started"));
    assert_eq!(p.path, "?state=started");
}

#[test]
fn lease_plans() {
    let p = find_lease_plan(&"m1".to_string());
    assert_eq!(p.method, HttpMethod::Get);
    assert_eq!(p.path, "m1/lease");

    let p = acquire_lease_plan(&"m1".to_string(), Some(30));
    assert_eq!(p.method, HttpMethod::Post);
    assert_eq!(p.path, "m1/lease?ttl=30");
    let p = acquire_lease_plan(&"m1".to_string(), None);
    assert_eq!(p.path, "m1/lease");

    let p = refresh_lease_plan(&"m1".to_string(), Some(30), "nonce-1".to_string());
    assert_eq!(p.path, "m1/lease/refresh?ttl=30");
    assert_eq!(p.headers[0].value, "nonce-1");

    let p = release_lease_plan(&"m1".to_string(), Some("nonce-1".to_string()));
    assert_eq!(p.method, HttpMethod::Delete);
    assert_eq!(p.path, "m1/lease");
    assert_eq!(p.headers.len(), 1);
}

#[test]
fn check_response_hands_back_success_bodies() {
    let r = check_response(b"[]".to_vec(), None, 200, ApiEndpoint::Other);
    assert_eq!(r.unwrap(), b"[]".to_vec());
    let r = check_response(b"{}".to_vec(), None, 404, ApiEndpoint::Other);
    assert!(matches!(r, Err(FlapsError::NotFound(_))));
}
