use flaps_client::config::{Config, ImageRef, Restart};
use flaps_client::duration::GoTime;
use flaps_client::error::{FlapsError, RawApiError};
use flaps_client::listing::{
    interpret_find_lease, join_machine_results, list_active_filter, split_fly_apps_machines,
};
use flaps_client::machine::{Machine, State};
use flaps_client::strmap::StringMap;
use flaps_client::types::{MachineLease, MachineLeaseData};

fn metadata(pairs: &[(&str, &str)]) -> StringMap {
    let mut md = StringMap::new();
    for (k, v) in pairs {
        md.push(k.to_string(), v.to_string());
    }
    md
}

fn machine(id: &str, state: State, meta: Option<&[(&str, &str)]>) -> Machine {
    let config = meta.map(|pairs| Config {
        env: None,
        init: None,
        metadata: Some(metadata(pairs)),
        mounts: Vec::new(),
        services: Vec::new(),
        metrics: None,
        checks: None,
        statics: Vec::new(),
        image: "registry/app:latest".to_string(),
        schedule: None,
        auto_destroy: false,
        restart: Restart { policy: None, max_retries: 0 },
        guest: None,
        dns: None,
        processes: Vec::new(),
        standbys: Vec::new(),
        stop_config: None,
    });
    Machine {
        id: id.to_string(),
        name: format!("name-{id}"),
        state,
        region: "iad".to_string(),
        image_ref: ImageRef {
            registry: "registry".to_string(),
            repository: "app".to_string(),
            tag: Some("latest".to_string()),
            digest: None,
            labels: StringMap::new(),
        },
        instance_id: format!("inst-{id}"),
        version: None,
        private_ip: "fdaa::1".to_string(),
        created_at: GoTime { unix_seconds: 0, subsec_nanos: 0, offset_seconds: 0 },
        updated_at: GoTime { unix_seconds: 0, subsec_nanos: 0, offset_seconds: 0 },
        config,
        events: Vec::new(),
        checks: Vec::new(),
        lease_nonce: String::new(),
    }
}

#[test]
fn list_active_keeps_only_plain_running_machines() {
    let machines = vec![
        machine("destroyed", State::Destroyed, None),
        machine(
            "release",
            State::Started,
            Some(&[("fly_process_group", "fly_app_release_command")]),
        ),
        machine("app1", State::Started, Some(&[("fly_process_group", "app")])),
        machine("app2", State::Started, None),
    ];
    let active = list_active_filter(machines);
    let ids: Vec<&str> = active.iter().map(|m| m.id.as_str()).collect();
    assert_eq!(ids, vec!["app1", "app2"]);
}

#[test]
fn list_active_drops_legacy_release_group_and_console() {
    let machines = vec![
        machine("legacy", State::Started, Some(&[("process_group", "release_command")])),
        machine(
            "console",
            State::Started,
            Some(&[
                ("fly_platform_version", "v2"),
                ("fly_process_group", "fly_app_console"),
            ]),
        ),
        machine("plain", State::Created, None),
    ];
    let active = list_active_filter(machines);
    let ids: Vec<&str> = active.iter().map(|m| m.id.as_str()).collect();
    assert_eq!(ids, vec!["plain"]);
}

#[test]
fn modern_group_key_takes_precedence_over_legacy() {
    let m = machine(
        "m",
        State::Started,
        Some(&[("process_group", "app"), ("fly_process_group", "fly_app_release_command")]),
    );
    assert!(m.is_release_command_machine());
    assert_eq!(m.process_group().unwrap(), "fly_app_release_command");
}

#[test]
fn fly_apps_split_sets_release_machine_apart() {
    let machines = vec![
        machine("app1", State::Started, None),
        machine(
            "release",
            State::Stopped,
            Some(&[("fly_process_group", "fly_app_release_command")]),
        ),
        machine("app2", State::Destroyed, None),
    ];
    let split = split_fly_apps_machines(machines);
    assert_eq!(split.release_cmd_machine.as_ref().map(|m| m.id.as_str()), Some("release"));
    let ids: Vec<&str> = split.machines.iter().map(|m| m.id.as_str()).collect();
    assert_eq!(ids, vec!["app1", "app2"]);
}

fn lease() -> MachineLease {
    MachineLease {
        status: "success".to_string(),
        data: MachineLeaseData {
            nonce: "abc123".to_string(),
            expires_at: 1_700_000_000,
            owner: "me@example.com".to_string(),
        },
        message: String::new(),
        code: String::new(),
    }
}

fn not_found(message: Option<&str>) -> FlapsError {
    FlapsError::NotFound(RawApiError {
        status_code: 404,
        fly_request_id: None,
        error: "not found".to_string(),
        message: message.map(str::to_string),
    })
}

#[test]
fn find_lease_sentinel_means_no_lease() {
    let r = interpret_find_lease(Err(not_found(Some("lease not found"))));
    assert!(matches!(r, Ok(None)));
}

#[test]
fn find_lease_other_not_found_propagates() {
    let r = interpret_find_lease(Err(not_found(Some("something else"))));
    assert!(matches!(r, Err(FlapsError::NotFound(_))));
    let r = interpret_find_lease(Err(not_found(None)));
    assert!(matches!(r, Err(FlapsError::NotFound(_))));
}

#[test]
fn find_lease_success_wraps_lease() {
    let r = interpret_find_lease(Ok(lease()));
    match r {
        Ok(Some(l)) => assert_eq!(l.data.nonce, "abc123"),
        other => panic!("expected the lease, got {:?}", other),
    }
}

#[test]
fn join_all_ok_returns_machines_in_order() {
    let results = vec![
        Ok(machine("a", State::Started, None)),
        Ok(machine("b", State::Started, None)),
        Ok(machine("c", State::Started, None)),
    ];
    let machines = join_machine_results(results).unwrap();
    let ids: Vec<&str> = machines.iter().map(|m| m.id.as_str()).collect();
    assert_eq!(ids, vec!["a", "b", "c"]);
}

#[test]
fn join_surfaces_first_failure_not_a_partial_list() {
    let results = vec![
        Ok(machine("a", State::Started, None)),
        Err(not_found(None)),
        Ok(machine("c", State::Started, None)),
    ];
    let r = join_machine_results(results);
    assert!(matches!(r, Err(FlapsError::NotFound(_))));
}
