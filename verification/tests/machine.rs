use flaps_client::config::{Guest, ImageRef, Mount, SetSizeError};
use flaps_client::machine::{
    MachineExitEvent, MachineMonitorEvent, MachineRequest, State,
};
use flaps_client::strmap::StringMap;

#[test]
fn state_names_round_trip() {
    let states = [
        State::Destroyed,
        State::Destroying,
        State::Started,
        State::Stopped,
        State::Created,
    ];
    for s in states {
        let name = s.name();
        assert_eq!(State::from_name(&name), Some(s.clone()));
    }
    assert_eq!(State::Started.name(), "started");
    assert_eq!(State::from_name("running"), None);
}

fn image() -> ImageRef {
    let mut labels = StringMap::new();
    labels.push("fly.version".to_string(), "v42".to_string());
    ImageRef {
        registry: "registry.example".to_string(),
        repository: "acme/app".to_string(),
        tag: Some("latest".to_string()),
        digest: Some("sha256:abcd".to_string()),
        labels,
    }
}

#[test]
fn image_full_ref() {
    assert_eq!(image().full_ref(), "registry.example/acme/app:latest@sha256:abcd");
    let mut img = image();
    img.tag = None;
    img.digest = None;
    assert_eq!(img.full_ref(), "registry.example/acme/app");
}

#[test]
fn image_str_with_version() {
    assert_eq!(image().str_with_version(), "acme/app:latest (v42)");
    let mut img = image();
    img.labels = StringMap::new();
    img.tag = None;
    assert_eq!(img.str_with_version(), "acme/app:");
}

#[test]
fn image_matches_str() {
    let img = image();
    assert!(img.matches_str("acme/app:latest@sha256:abcd"));
    assert!(img.matches_str("acme/app:latest"));
    assert!(img.matches_str("acme/app"));
    assert!(img.matches_str("registry.example/acme/app"));
    assert!(!img.matches_str("acme/app:stale"));
    assert!(!img.matches_str("other/app:latest"));
    assert!(!img.matches_str("acme/app:latest@sha256:ffff"));

    let mut img = image();
    img.tag = None;
    assert!(!img.matches_str("acme/app:latest"));
}

#[test]
fn guest_presets() {
    let g = Guest::from_size("shared-cpu-2x").unwrap();
    assert_eq!(g.cpu_kind, "shared");
    assert_eq!(g.cpus, 2);
    assert_eq!(g.memory_mb, 512);

    let g = Guest::from_size("performance-16x").unwrap();
    assert_eq!(g.cpu_kind, "performance");
    assert_eq!(g.cpus, 16);
    assert_eq!(g.memory_mb, 32768);
}

#[test]
fn guest_set_size_errors() {
    let mut g = Guest::default();
    match g.set_size("shared-cpu-3x") {
        Err(SetSizeError::InvalidSize { size, valid_sizes }) => {
            assert_eq!(size, "shared-cpu-3x");
            assert_eq!(valid_sizes, "shared-cpu-1x, shared-cpu-2x, shared-cpu-4x, shared-cpu-8x");
        },
        other => panic!("expected InvalidSize, got {:?}", other),
    }
    match g.set_size("tiny") {
        Err(SetSizeError::InvalidPreset { size }) => assert_eq!(size, "tiny"),
        other => panic!("expected InvalidPreset, got {:?}", other),
    }
    assert_eq!(g.cpus, 0);
}

#[test]
fn guest_size_type() {
    let g = Guest::from_size("shared-cpu-4x").unwrap();
    assert_eq!(g.to_size_type(), "shared-cpu-4x");
    let mut g = Guest::from_size("performance-1x").unwrap();
    assert_eq!(g.to_size_type(), "unknown");
    g.cpu_kind = "dedicated".to_string();
    assert_eq!(g.to_size_type(), "dedicated-cpu-1x");
}

#[test]
fn mount_constructors() {
    let m = Mount::from_vol_id("vol_123".to_string(), "/data".to_string());
    assert_eq!(m.vol_id().map(String::as_str), Some("vol_123"));
    assert!(m.vol_name().is_none());
    let m = Mount::from_vol_name("data".to_string(), "/data".to_string());
    assert_eq!(m.vol_name().map(String::as_str), Some("data"));
    assert!(m.vol_id().is_none());
}

fn exit_event(code: i32) -> MachineExitEvent {
    MachineExitEvent {
        exit_code: code,
        guest_exit_code: code,
        guest_signal: 0,
        oom_killed: false,
        requested_stop: false,
        restarting: false,
        signal: 0,
        exited_at: None,
    }
}

#[test]
fn exit_code_prefers_the_monitor_event() {
    let req = MachineRequest {
        exit_event: Some(exit_event(2)),
        monitor_event: Some(MachineMonitorEvent { exit_event: Some(exit_event(7)) }),
        restart_count: 0,
    };
    assert_eq!(req.get_exit_code().unwrap(), 7);

    let req = MachineRequest {
        exit_event: Some(exit_event(2)),
        monitor_event: Some(MachineMonitorEvent { exit_event: None }),
        restart_count: 0,
    };
    assert_eq!(req.get_exit_code().unwrap(), 2);

    let req = MachineRequest { exit_event: None, monitor_event: None, restart_count: 0 };
    assert!(req.get_exit_code().is_err());
}

#[test]
fn string_map_takes_the_first_binding() {
    let mut md = StringMap::new();
    md.push("k".to_string(), "one".to_string());
    md.push("k".to_string(), "two".to_string());
    assert_eq!(md.get("k").unwrap(), "one");
    assert!(md.get("missing").is_none());
}
