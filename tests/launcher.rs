use sidecar_host::decimal::decimal_string;
use sidecar_host::guard::{CloseGuard, GuardAction, GuardEvent, GuardPhase, KillCommand};
use sidecar_host::launch::{
    group_setup, launch_args, plan_launch, platform_of, same_text, sidecar_path, BaseDir, GroupSetup, LaunchError,
    Platform, CREATE_NEW_PROCESS_GROUP,
};
use sidecar_host::relay::{relay_step, tag_line, ReadOutcome, RelayAction, StreamKind};
use sidecar_host::state::{get_backend_log, get_backend_port, BackendLog, BackendPort};

#[test]
fn decimal_matches_display() {
    for n in [0u32, 7, 10, 443, 65535, 4294967295] {
        assert_eq!(decimal_string(n), n.to_string());
    }
}

#[test]
fn accessors_before_startup() {
    assert_eq!(get_backend_port(&BackendPort::new()), 0);
    assert_eq!(get_backend_log(&BackendLog::new()), "unknown");
}

#[test]
fn accessors_after_startup() {
    let mut port = BackendPort::new();
    let mut log = BackendLog::new();
    port.record(50123);
    log.record("/var/log/app/backend.log".to_string());
    assert_eq!(get_backend_port(&port), 50123);
    assert_eq!(get_backend_port(&port), 50123);
    assert_eq!(get_backend_log(&log), "/var/log/app/backend.log");
    assert_eq!(get_backend_log(&log), "/var/log/app/backend.log");
}

#[test]
fn platform_names() {
    assert_eq!(platform_of("macos"), Ok(Platform::MacOs));
    assert_eq!(platform_of("windows"), Ok(Platform::Windows));
    assert_eq!(platform_of("linux"), Err(LaunchError::UnsupportedPlatform));
    assert_eq!(platform_of(""), Err(LaunchError::UnsupportedPlatform));
    assert!(same_text("ab", "ab"));
    assert!(!same_text("ab", "abc"));
}

#[test]
fn sidecar_paths_and_groups() {
    assert_eq!(sidecar_path(Platform::MacOs), "sidecar/backend-sidecar-aarch64-apple-darwin");
    assert_eq!(sidecar_path(Platform::Windows), "sidecar\\backend-windows.exe");
    assert_eq!(group_setup(Platform::MacOs), GroupSetup::SetOwnGroup);
    assert_eq!(group_setup(Platform::Windows), GroupSetup::CreationFlags(0x200));
    assert_eq!(CREATE_NEW_PROCESS_GROUP, 0x0000_0200);
}

#[test]
fn arguments_in_fixed_order() {
    assert_eq!(
        launch_args("/logs/backend.log", 8080, "/data"),
        vec!["/logs/backend.log".to_string(), "8080".to_string(), "/data".to_string()]
    );
}

#[test]
fn plan_for_release_build() {
    let plan = plan_launch("macos", false, "/l/backend.log", 1, "/d").unwrap();
    assert_eq!(plan.platform, Platform::MacOs);
    assert_eq!(plan.base, BaseDir::ResourceDir);
    assert_eq!(plan.program, "sidecar/backend-sidecar-aarch64-apple-darwin");
    assert_eq!(plan.args, vec!["/l/backend.log".to_string(), "1".to_string(), "/d".to_string()]);
    assert_eq!(plan.group, GroupSetup::SetOwnGroup);
}

#[test]
fn plan_for_debug_build() {
    let plan = plan_launch("windows", true, "C:\\l", 65535, "C:\\d").unwrap();
    assert_eq!(plan.base, BaseDir::ProjectDir);
    assert_eq!(plan.program, "sidecar\\backend-windows.exe");
    assert_eq!(plan.args[1], "65535");
    assert_eq!(plan.group, GroupSetup::CreationFlags(CREATE_NEW_PROCESS_GROUP));
}

#[test]
fn plan_on_unsupported_platform() {
    assert!(matches!(plan_launch("linux", false, "/l", 1, "/d"), Err(LaunchError::UnsupportedPlatform)));
}

#[test]
fn close_kills_then_exits_with_success() {
    for succeeded in [true, false] {
        let mut g = CloseGuard::new(Platform::MacOs, 4821);
        assert_eq!(g.step(GuardEvent::KillFinished { succeeded }), GuardAction::Nothing);
        assert_eq!(g.step(GuardEvent::CloseRequested), GuardAction::PreventCloseAndKill);
        assert_eq!(g.phase, GuardPhase::Closing);
        assert_eq!(g.step(GuardEvent::CloseRequested), GuardAction::PreventClose);
        assert_eq!(g.step(GuardEvent::KillFinished { succeeded }), GuardAction::ExitHost(0));
        assert_eq!(g.phase, GuardPhase::Done);
        assert_eq!(g.step(GuardEvent::CloseRequested), GuardAction::Nothing);
    }
}

#[test]
fn kill_commands() {
    match CloseGuard::new(Platform::MacOs, 4821).kill_command() {
        KillCommand::KillGroup { group } => assert_eq!(group, 4821),
        _ => panic!("expected a group kill"),
    }
    match CloseGuard::new(Platform::Windows, 4294967295).kill_command() {
        KillCommand::RunProgram { program, args } => {
            assert_eq!(program, "taskkill");
            assert_eq!(args, vec!["/PID", "4294967295", "/T", "/F"]);
        }
        _ => panic!("expected taskkill"),
    }
}

#[test]
fn relayed_lines_are_tagged() {
    assert_eq!(tag_line(StreamKind::Stdout, "ready"), "[backend stdout] ready");
    assert_eq!(tag_line(StreamKind::Stderr, "oops"), "[backend stderr] oops");
    assert_eq!(tag_line(StreamKind::Stdout, ""), "[backend stdout] ");
}

#[test]
fn relay_steps_follow_reads() {
    assert_eq!(
        relay_step(StreamKind::Stdout, ReadOutcome::Line("ready".to_string())),
        RelayAction::Log("[backend stdout] ready".to_string())
    );
    assert_eq!(
        relay_step(StreamKind::Stderr, ReadOutcome::Line("oops".to_string())),
        RelayAction::Log("[backend stderr] oops".to_string())
    );
    assert_eq!(relay_step(StreamKind::Stdout, ReadOutcome::Unreadable), RelayAction::Skip);
    assert_eq!(relay_step(StreamKind::Stderr, ReadOutcome::Closed), RelayAction::Stop);
}

#[test]
fn relay_of_a_stream_keeps_each_line_once_in_order() {
    let reads = vec![
        ReadOutcome::Line("a".to_string()),
        ReadOutcome::Unreadable,
        ReadOutcome::Line("b".to_string()),
        ReadOutcome::Line("a".to_string()),
        ReadOutcome::Closed,
        ReadOutcome::Line("late".to_string()),
    ];
    let mut log = Vec::new();
    for read in reads {
        match relay_step(StreamKind::Stdout, read) {
            RelayAction::Log(e) => log.push(e),
            RelayAction::Skip => {}
            RelayAction::Stop => break,
        }
    }
    assert_eq!(log, vec!["[backend stdout] a", "[backend stdout] b", "[backend stdout] a"]);
}
