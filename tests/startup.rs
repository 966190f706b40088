use test_pilot::bootstrap::{FatalCause, InfoRecord, Phase, Startup, StartupAction, StartupEvent};
use test_pilot::diagnostics::{diagnostic_entries, diagnostic_filter, diagnostic_key, render_filter, FilterEntry};
use test_pilot::registry::{capability_registry, Capability};
use test_pilot::threshold::{logging_threshold, LogThreshold};

fn success_sequence() -> Vec<StartupAction> {
    vec![
        StartupAction::Attach(Capability::Http),
        StartupAction::Attach(Capability::Logging(LogThreshold::Debug)),
        StartupAction::InstallSetupHook,
        StartupAction::EnterRunLoop,
        StartupAction::PublishFilter,
        StartupAction::EmitInfo(InfoRecord::Started),
        StartupAction::EmitInfo(InfoRecord::FilterHint),
    ]
}

fn drive(startup: &mut Startup, events: &[StartupEvent]) -> Vec<StartupAction> {
    let mut all = Vec::new();
    for e in events {
        all.extend(startup.step(*e));
    }
    all
}

const SUCCESS: [StartupEvent; 4] = [
    StartupEvent::Begin,
    StartupEvent::CapabilityAttached,
    StartupEvent::CapabilityAttached,
    StartupEvent::SetupInvoked,
];

#[test]
fn configurator_always_debug() {
    for _ in 0..5 {
        assert_eq!(logging_threshold(), LogThreshold::Debug);
    }
}

#[test]
fn threshold_admits_at_or_above() {
    let t = LogThreshold::Debug;
    assert!(t.admits(LogThreshold::Error));
    assert!(t.admits(LogThreshold::Info));
    assert!(t.admits(LogThreshold::Debug));
    assert!(!t.admits(LogThreshold::Trace));
    assert!(!LogThreshold::Error.admits(LogThreshold::Warn));
    assert_eq!(LogThreshold::Error.verbosity(), 1);
    assert_eq!(LogThreshold::Trace.verbosity(), 5);
}

#[test]
fn threshold_names() {
    assert_eq!(LogThreshold::Error.name(), "error");
    assert_eq!(LogThreshold::Warn.name(), "warn");
    assert_eq!(LogThreshold::Info.name(), "info");
    assert_eq!(LogThreshold::Debug.name(), "debug");
    assert_eq!(LogThreshold::Trace.name(), "trace");
}

#[test]
fn registry_http_then_logging() {
    let reg = capability_registry(LogThreshold::Debug);
    assert_eq!(reg, vec![Capability::Http, Capability::Logging(LogThreshold::Debug)]);
    assert_eq!(reg[0].name(), "http");
    assert_eq!(reg[1].name(), "log");
}

#[test]
fn render_empty_filter() {
    assert_eq!(render_filter(&Vec::new()), "");
}

#[test]
fn render_single_and_many_entries() {
    let one = vec![FilterEntry { subsystem: "hyper".to_string(), level: LogThreshold::Warn }];
    assert_eq!(render_filter(&one), "hyper=warn");
    let three = vec![
        FilterEntry { subsystem: "a".to_string(), level: LogThreshold::Error },
        FilterEntry { subsystem: "b".to_string(), level: LogThreshold::Trace },
        FilterEntry { subsystem: "c".to_string(), level: LogThreshold::Info },
    ];
    assert_eq!(render_filter(&three), "a=error,b=trace,c=info");
}

#[test]
fn diagnostic_filter_is_fixed() {
    assert_eq!(diagnostic_key(), "RUST_LOG");
    assert_eq!(diagnostic_filter(), "tauri=debug,tauri_plugin_http=debug");
    assert_eq!(diagnostic_filter(), diagnostic_filter());
    assert_eq!(render_filter(&diagnostic_entries()), diagnostic_filter());
}

#[test]
fn successful_startup_in_order() {
    let mut s = Startup::new(logging_threshold());
    assert_eq!(s.phase, Phase::Idle);
    let acts = drive(&mut s, &SUCCESS);
    assert_eq!(acts, success_sequence());
    assert_eq!(s.phase, Phase::Running);
}

#[test]
fn step_by_step_actions() {
    let mut s = Startup::new(LogThreshold::Debug);
    assert_eq!(s.step(StartupEvent::Begin), vec![StartupAction::Attach(Capability::Http)]);
    assert_eq!(s.phase, Phase::Attaching);
    assert_eq!(s.attached, 0);
    assert_eq!(
        s.step(StartupEvent::CapabilityAttached),
        vec![StartupAction::Attach(Capability::Logging(LogThreshold::Debug))]
    );
    assert_eq!(
        s.step(StartupEvent::CapabilityAttached),
        vec![StartupAction::InstallSetupHook, StartupAction::EnterRunLoop]
    );
    assert_eq!(s.phase, Phase::AwaitingSetup);
}

#[test]
fn setup_hook_runs_once() {
    let mut s = Startup::new(LogThreshold::Debug);
    let mut acts = drive(&mut s, &SUCCESS);
    acts.extend(s.step(StartupEvent::SetupInvoked));
    acts.extend(s.step(StartupEvent::Begin));
    let published = acts.iter().filter(|a| **a == StartupAction::PublishFilter).count();
    assert_eq!(published, 1);
}

#[test]
fn two_info_records_even_after_run_loop_failure() {
    let mut s = Startup::new(LogThreshold::Debug);
    let mut acts = drive(&mut s, &SUCCESS);
    acts.extend(s.step(StartupEvent::RunFailed));
    let infos: Vec<usize> = acts
        .iter()
        .enumerate()
        .filter(|(_, a)| matches!(a, StartupAction::EmitInfo(_)))
        .map(|(i, _)| i)
        .collect();
    assert_eq!(infos, vec![5, 6]);
    assert_eq!(acts.last(), Some(&StartupAction::Fatal(FatalCause::RunLoop)));
    assert_eq!(s.phase, Phase::Failed);
}

#[test]
fn http_capability_failure_is_fatal() {
    let mut s = Startup::new(LogThreshold::Debug);
    let acts = drive(
        &mut s,
        &[
            StartupEvent::Begin,
            StartupEvent::CapabilityFailed,
            StartupEvent::CapabilityAttached,
            StartupEvent::SetupInvoked,
        ],
    );
    assert_eq!(
        acts,
        vec![
            StartupAction::Attach(Capability::Http),
            StartupAction::Fatal(FatalCause::CapabilityConstruction(Capability::Http)),
        ]
    );
    assert_eq!(s.phase, Phase::Failed);
}

#[test]
fn logging_capability_failure_is_fatal() {
    let mut s = Startup::new(LogThreshold::Debug);
    let acts = drive(
        &mut s,
        &[StartupEvent::Begin, StartupEvent::CapabilityAttached, StartupEvent::CapabilityFailed],
    );
    assert_eq!(
        acts.last(),
        Some(&StartupAction::Fatal(FatalCause::CapabilityConstruction(Capability::Logging(
            LogThreshold::Debug
        ))))
    );
    assert!(!acts.contains(&StartupAction::InstallSetupHook));
    assert!(!acts.contains(&StartupAction::PublishFilter));
    assert!(drive(&mut s, &SUCCESS).is_empty());
}

#[test]
fn shell_failure_before_setup() {
    let mut s = Startup::new(LogThreshold::Debug);
    let acts = drive(
        &mut s,
        &[
            StartupEvent::Begin,
            StartupEvent::CapabilityAttached,
            StartupEvent::CapabilityAttached,
            StartupEvent::RunFailed,
        ],
    );
    assert_eq!(acts.last(), Some(&StartupAction::Fatal(FatalCause::ShellConstruction)));
    assert!(!acts.contains(&StartupAction::PublishFilter));
}

#[test]
fn out_of_order_events_are_ignored() {
    let mut s = Startup::new(LogThreshold::Debug);
    assert!(s.step(StartupEvent::SetupInvoked).is_empty());
    assert!(s.step(StartupEvent::CapabilityAttached).is_empty());
    assert!(s.step(StartupEvent::RunFailed).is_empty());
    assert_eq!(s.phase, Phase::Idle);
}

#[test]
fn info_messages() {
    assert_eq!(
        InfoRecord::Started.message(),
        "Test-Pilot application started with HTTP logging enabled"
    );
    assert_eq!(
        InfoRecord::FilterHint.message(),
        "Set RUST_LOG=tauri=debug,tauri_plugin_http=debug for HTTP request logging"
    );
}

#[test]
fn fatal_messages() {
    assert_eq!(
        FatalCause::CapabilityConstruction(Capability::Http).message(),
        "failed to construct capability http"
    );
    assert_eq!(FatalCause::ShellConstruction.message(), "error while running tauri application");
    assert_eq!(FatalCause::RunLoop.message(), "error while running tauri application");
}
