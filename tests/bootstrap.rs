use app_shell::lifecycle::{fatal_diagnostic, step, Action, Event, Stage, Transition};
use app_shell::plan::{launch_steps, BuildConfig, LogLevel, Plugin, Step};

fn os_info() -> Step {
    Step::Register { plugin: Plugin::OsInfo, in_setup_hook: false }
}

fn logging_info() -> Step {
    Step::Register { plugin: Plugin::Logging(LogLevel::Info), in_setup_hook: true }
}

fn media_control() -> Step {
    Step::Register { plugin: Plugin::MediaControl, in_setup_hook: false }
}

fn all_configs() -> Vec<BuildConfig> {
    vec![
        BuildConfig::new(false, false),
        BuildConfig::new(false, true),
        BuildConfig::new(true, false),
        BuildConfig::new(true, true),
    ]
}

fn drive(events: &[Event]) -> (Stage, Vec<Action>) {
    let mut stage = Stage::Unconfigured;
    let mut actions = Vec::new();
    for e in events {
        let t = step(stage, *e);
        stage = t.stage;
        actions.push(t.action);
    }
    (stage, actions)
}

#[test]
fn build_config_keeps_its_flags() {
    let cfg = BuildConfig::new(true, false);
    assert!(cfg.debug_assertions);
    assert!(!cfg.target_linux);
}

#[test]
fn debug_linux_launch_sequence() {
    let steps = launch_steps(BuildConfig::new(true, true));
    assert_eq!(steps, vec![os_info(), logging_info(), media_control(), Step::Run]);
}

#[test]
fn debug_other_platform_launch_sequence() {
    let steps = launch_steps(BuildConfig::new(true, false));
    assert_eq!(steps, vec![os_info(), logging_info(), Step::Run]);
}

#[test]
fn release_linux_launch_sequence() {
    let steps = launch_steps(BuildConfig::new(false, true));
    assert_eq!(steps, vec![os_info(), media_control(), Step::Run]);
}

#[test]
fn release_other_platform_launch_sequence() {
    let steps = launch_steps(BuildConfig::new(false, false));
    assert_eq!(steps, vec![os_info(), Step::Run]);
}

#[test]
fn logging_registered_only_in_debug_builds() {
    for cfg in all_configs() {
        let steps = launch_steps(cfg);
        let logging: Vec<&Step> = steps
            .iter()
            .filter(|s| matches!(s, Step::Register { plugin: Plugin::Logging(_), .. }))
            .collect();
        if cfg.debug_assertions {
            assert_eq!(logging, vec![&logging_info()]);
        } else {
            assert!(logging.is_empty());
        }
    }
}

#[test]
fn media_control_registered_only_on_linux() {
    for cfg in all_configs() {
        let steps = launch_steps(cfg);
        let media: Vec<&Step> = steps
            .iter()
            .filter(|s| matches!(s, Step::Register { plugin: Plugin::MediaControl, .. }))
            .collect();
        if cfg.target_linux {
            assert_eq!(media, vec![&media_control()]);
        } else {
            assert!(media.is_empty());
        }
    }
}

#[test]
fn os_info_registered_first_in_every_configuration() {
    for cfg in all_configs() {
        let steps = launch_steps(cfg);
        assert_eq!(steps[0], os_info());
        assert_eq!(steps.iter().filter(|s| **s == os_info()).count(), 1);
    }
}

#[test]
fn registrations_precede_the_single_run_step() {
    for cfg in all_configs() {
        let steps = launch_steps(cfg);
        assert_eq!(steps.last(), Some(&Step::Run));
        assert_eq!(steps.iter().filter(|s| **s == Step::Run).count(), 1);
        let os = steps.iter().position(|s| *s == os_info()).unwrap();
        if let Some(log) = steps.iter().position(|s| *s == logging_info()) {
            assert!(os < log);
        }
    }
}

#[test]
fn successful_lifecycle_runs_then_exits() {
    let (stage, actions) = drive(&[
        Event::PluginsAttached,
        Event::HookAttached,
        Event::SetupSucceeded,
        Event::RunFinished,
    ]);
    assert_eq!(stage, Stage::Terminated);
    assert_eq!(
        actions,
        vec![Action::Proceed, Action::Proceed, Action::EnterEventLoop, Action::Exit]
    );
}

#[test]
fn setup_failure_aborts_before_event_loop() {
    let (stage, actions) = drive(&[
        Event::PluginsAttached,
        Event::HookAttached,
        Event::SetupFailed,
        Event::SetupSucceeded,
        Event::RunFinished,
    ]);
    assert_eq!(stage, Stage::Aborted);
    assert_eq!(
        actions,
        vec![Action::Proceed, Action::Proceed, Action::Abort, Action::Ignore, Action::Ignore]
    );
    assert!(!actions.contains(&Action::EnterEventLoop));
}

#[test]
fn run_failure_while_running_aborts() {
    let t = step(Stage::Running, Event::RunFailed);
    assert_eq!(t, Transition { stage: Stage::Aborted, action: Action::Abort });
    let later = step(t.stage, Event::RunFinished);
    assert_eq!(later, Transition { stage: Stage::Aborted, action: Action::Ignore });
}

#[test]
fn run_failure_at_startup_aborts() {
    let t = step(Stage::SetupHookPending, Event::RunFailed);
    assert_eq!(t, Transition { stage: Stage::Aborted, action: Action::Abort });
}

#[test]
fn out_of_order_events_are_ignored() {
    let t = step(Stage::Unconfigured, Event::SetupSucceeded);
    assert_eq!(t, Transition { stage: Stage::Unconfigured, action: Action::Ignore });
    let t = step(Stage::PluginsRegistered, Event::RunFinished);
    assert_eq!(t, Transition { stage: Stage::PluginsRegistered, action: Action::Ignore });
    let t = step(Stage::Terminated, Event::RunFailed);
    assert_eq!(t, Transition { stage: Stage::Terminated, action: Action::Ignore });
}

#[test]
fn fatal_diagnostic_text() {
    assert_eq!(fatal_diagnostic(), "error while running tauri application");
}
