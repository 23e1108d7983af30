//! The launch plan: the ordered registrations that a build performs before the
//! runtime's event loop takes over.
use vstd::prelude::*;

verus! {

/// The compile-time facts that select plugins. They are read once, when the
/// process starts, and never re-evaluated afterwards.
#[derive(Clone, Copy, Debug, PartialEq, Eq, Structural)]
pub struct BuildConfig {
    /// Whether the binary was built with debug assertions enabled.
    pub debug_assertions: bool,
    /// Whether the binary targets the Linux platform.
    pub target_linux: bool,
}

impl BuildConfig {
    pub fn new(debug_assertions: bool, target_linux: bool) -> (r: BuildConfig)
        ensures
            r.debug_assertions == debug_assertions,
            r.target_linux == target_linux,
    {
        BuildConfig { debug_assertions, target_linux }
    }
}

/// Minimum severity that the logging plugin lets through, from most
/// restrictive to most verbose.
#[derive(Clone, Copy, Debug, PartialEq, Eq, Structural)]
pub enum LogLevel {
    Off,
    Error,
    Warn,
    Info,
    Debug,
    Trace,
}

/// The platform plugins that the shell knows how to register.
#[derive(Clone, Copy, Debug, PartialEq, Eq, Structural)]
pub enum Plugin {
    /// Operating-system information queries; no configuration.
    OsInfo,
    /// Log capture, emitting records at the given level and above.
    Logging(LogLevel),
    /// Media-session remote control (play, pause, next) for the desktop.
    MediaControl,
}

/// One step of the launch sequence.
#[derive(Clone, Copy, Debug, PartialEq, Eq, Structural)]
pub enum Step {
    /// Register a plugin, either directly on the builder or from inside the
    /// setup hook, which runs once the runtime's core services exist.
    Register { plugin: Plugin, in_setup_hook: bool },
    /// Hand the builder to the blocking run loop.
    Run,
}

/// The severity at which debug builds log.
pub open spec fn debug_log_level() -> LogLevel {
    LogLevel::Info
}

/// The launch sequence of a build, in the order in which it attaches things:
/// OS information on the builder, then logging from the setup hook in debug
/// builds, then media control on the builder for Linux targets, then run.
pub open spec fn launch_spec(cfg: BuildConfig) -> Seq<Step> {
    let os = seq![Step::Register { plugin: Plugin::OsInfo, in_setup_hook: false }];
    let logging = if cfg.debug_assertions {
        seq![Step::Register { plugin: Plugin::Logging(debug_log_level()), in_setup_hook: true }]
    } else {
        Seq::<Step>::empty()
    };
    let media = if cfg.target_linux {
        seq![Step::Register { plugin: Plugin::MediaControl, in_setup_hook: false }]
    } else {
        Seq::<Step>::empty()
    };
    os + logging + media + seq![Step::Run]
}

/// Builds the launch sequence for a build configuration.
pub fn launch_steps(cfg: BuildConfig) -> (r: Vec<Step>)
    ensures
        r@ == launch_spec(cfg),
{
    let mut steps: Vec<Step> = Vec::new();
    steps.push(Step::Register { plugin: Plugin::OsInfo, in_setup_hook: false });
    if cfg.debug_assertions {
        steps.push(Step::Register { plugin: Plugin::Logging(LogLevel::Info), in_setup_hook: true });
    }
    if cfg.target_linux {
        steps.push(Step::Register { plugin: Plugin::MediaControl, in_setup_hook: false });
    }
    steps.push(Step::Run);
    assert(steps@ =~= launch_spec(cfg));
    steps
}

/// Whether `steps` registers plugin `p` at the given attachment point.
pub open spec fn registers_at(steps: Seq<Step>, p: Plugin, in_setup_hook: bool) -> bool {
    exists|i: int|
        0 <= i < steps.len() && #[trigger] steps[i] == (Step::Register { plugin: p, in_setup_hook })
}

/// Whether step `s` registers a logging plugin, at any level.
pub open spec fn is_logging_step(s: Step) -> bool {
    s matches Step::Register { plugin, .. } && plugin is Logging
}

/// Whether step `s` registers the OS-information plugin.
pub open spec fn is_os_info_step(s: Step) -> bool {
    s matches Step::Register { plugin, .. } && plugin is OsInfo
}

/// Whether step `s` registers the media-control plugin.
pub open spec fn is_media_step(s: Step) -> bool {
    s matches Step::Register { plugin, .. } && plugin is MediaControl
}

/// The logging plugin is registered, from the setup hook and at the Info
/// level, exactly in debug builds, whatever the platform; release builds
/// register no logging plugin at any level or attachment point.
pub proof fn lemma_logging_iff_debug(cfg: BuildConfig)
    ensures
        registers_at(launch_spec(cfg), Plugin::Logging(LogLevel::Info), true)
            <==> cfg.debug_assertions,
        forall|i: int|
            0 <= i < launch_spec(cfg).len() && #[trigger] is_logging_step(launch_spec(cfg)[i])
                ==> cfg.debug_assertions && launch_spec(cfg)[i] == (Step::Register {
                plugin: Plugin::Logging(LogLevel::Info),
                in_setup_hook: true,
            }),
{
    let s = launch_spec(cfg);
    if cfg.debug_assertions {
        assert(s[1] == (Step::Register { plugin: Plugin::Logging(LogLevel::Info), in_setup_hook: true }));
    }
}

/// The media-control plugin is registered on the builder exactly for Linux
/// targets, in debug and release builds alike, and never for other targets.
pub proof fn lemma_media_control_iff_linux(cfg: BuildConfig)
    ensures
        registers_at(launch_spec(cfg), Plugin::MediaControl, false) <==> cfg.target_linux,
        forall|i: int|
            0 <= i < launch_spec(cfg).len() && #[trigger] is_media_step(launch_spec(cfg)[i])
                ==> cfg.target_linux && launch_spec(cfg)[i] == (Step::Register {
                plugin: Plugin::MediaControl,
                in_setup_hook: false,
            }),
{
    let s = launch_spec(cfg);
    if cfg.target_linux {
        assert(s[s.len() - 2] == (Step::Register { plugin: Plugin::MediaControl, in_setup_hook: false }));
    }
}

/// Every build configuration registers the OS-information plugin on the
/// builder, as the very first step.
pub proof fn lemma_os_info_always(cfg: BuildConfig)
    ensures
        registers_at(launch_spec(cfg), Plugin::OsInfo, false),
        launch_spec(cfg)[0] == (Step::Register { plugin: Plugin::OsInfo, in_setup_hook: false }),
{
    assert(launch_spec(cfg)[0] == (Step::Register { plugin: Plugin::OsInfo, in_setup_hook: false }));
}

/// The launch order is fixed: OS information comes before logging (where
/// present), every registration, media control included, comes before the
/// run step, and the run step is the last one and occurs once.
pub proof fn lemma_launch_order(cfg: BuildConfig)
    ensures
        forall|i: int, j: int|
            0 <= i < launch_spec(cfg).len() && 0 <= j < launch_spec(cfg).len()
                && #[trigger] is_os_info_step(launch_spec(cfg)[i])
                && #[trigger] is_logging_step(launch_spec(cfg)[j]) ==> i < j,
        launch_spec(cfg).last() == Step::Run,
        forall|i: int|
            0 <= i < launch_spec(cfg).len() - 1 ==> #[trigger] launch_spec(cfg)[i] is Register,
{
}

} // verus!
