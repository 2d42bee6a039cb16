use hyprland_monitor_attached::bridge::{step, Received, Step, EXIT_STATUS};
use hyprland_monitor_attached::event::Event;
use hyprland_monitor_attached::script::{judge, Bindings, Launch, ScriptStatus, Verdict};

fn attach_only() -> Bindings {
    Bindings { attached: "/home/u/attached.sh".to_string(), detached: None }
}

fn both() -> Bindings {
    Bindings {
        attached: "/home/u/attached.sh".to_string(),
        detached: Some("/home/u/detached.sh".to_string()),
    }
}

fn line(s: &str) -> Received {
    Received::Bytes(s.as_bytes().to_vec())
}

fn attach_launch() -> Launch {
    Launch { program: "/home/u/attached.sh".to_string(), argument: "eDP-1".to_string() }
}

#[test]
fn other_tags_start_nothing() {
    for text in ["workspace>>2\n", "focusedmon>>eDP-1,1\n", "openwindow>>a,b,c,d\n", "\n"] {
        assert_eq!(step(&both(), &line(text)), Step::Skip);
    }
}

#[test]
fn attach_event_inspects_attach_script() {
    assert_eq!(step(&attach_only(), &line("monitoradded>>eDP-1\n")), Step::Inspect(attach_launch()));
}

#[test]
fn missing_attach_script_is_reported() {
    let Step::Inspect(l) = step(&attach_only(), &line("monitoradded>>eDP-1\n")) else {
        panic!("expected a script to inspect");
    };
    let v = judge(l, ScriptStatus::Missing);
    assert_eq!(v, Verdict::Report("Error: '/home/u/attached.sh' file not found.".to_string()));
}

#[test]
fn non_executable_attach_script_is_reported() {
    let Step::Inspect(l) = step(&attach_only(), &line("monitoradded>>eDP-1\n")) else {
        panic!("expected a script to inspect");
    };
    let v = judge(l, ScriptStatus::Present { mode: 0o100644 });
    assert_eq!(
        v,
        Verdict::Report("Error: '/home/u/attached.sh' file is not executable.".to_string())
    );
}

#[test]
fn executable_attach_script_is_spawned_with_monitor_name() {
    let Step::Inspect(l) = step(&attach_only(), &line("monitoradded>>eDP-1\n")) else {
        panic!("expected a script to inspect");
    };
    let v = judge(l, ScriptStatus::Present { mode: 0o100755 });
    assert_eq!(v, Verdict::Spawn(attach_launch()));
}

#[test]
fn only_owner_execute_bit_counts() {
    assert!(matches!(judge(attach_launch(), ScriptStatus::Present { mode: 0o100 }), Verdict::Spawn(_)));
    assert!(matches!(judge(attach_launch(), ScriptStatus::Present { mode: 0o011 }), Verdict::Report(_)));
    assert!(matches!(judge(attach_launch(), ScriptStatus::Present { mode: 0 }), Verdict::Report(_)));
}

#[test]
fn detach_without_detach_script_does_nothing() {
    assert_eq!(step(&attach_only(), &line("monitorremoved>>eDP-1\n")), Step::Skip);
    assert_eq!(attach_only().request_for(&Event::Detached("eDP-1".to_string())), None);
}

#[test]
fn detach_with_detach_script_inspects_it() {
    assert_eq!(
        step(&both(), &line("monitorremoved>>eDP-1\n")),
        Step::Inspect(Launch {
            program: "/home/u/detached.sh".to_string(),
            argument: "eDP-1".to_string()
        })
    );
}

#[test]
fn request_for_attach_event() {
    assert_eq!(
        both().request_for(&Event::Attached("HDMI-A-1".to_string())),
        Some(Launch {
            program: "/home/u/attached.sh".to_string(),
            argument: "HDMI-A-1".to_string()
        })
    );
    assert_eq!(both().request_for(&Event::Ignored), None);
}

#[test]
fn end_of_stream_stops_with_status_one() {
    assert_eq!(EXIT_STATUS, 1);
    assert_eq!(step(&both(), &Received::Bytes(Vec::new())), Step::Stop(1));
}

#[test]
fn read_error_stops_with_status_one() {
    assert_eq!(step(&both(), &Received::Failed), Step::Stop(1));
}
