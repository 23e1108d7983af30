//! The startup lifecycle: a linear sequence of stages driven by what the
//! runtime reports, with fail-fast handling of every failure.
use vstd::prelude::*;

verus! {

/// Where the bootstrap stands.
#[derive(Clone, Copy, Debug, PartialEq, Eq, Structural)]
pub enum Stage {
    /// Nothing has been registered yet.
    Unconfigured,
    /// The builder carries its directly attached plugins.
    PluginsRegistered,
    /// The setup hook is attached and has not yet completed.
    SetupHookPending,
    /// The event loop runs.
    Running,
    /// The event loop returned normally.
    Terminated,
    /// Startup or the run loop failed; the process ends with a diagnostic.
    Aborted,
}

/// What the runtime reports back to the bootstrap.
#[derive(Clone, Copy, Debug, PartialEq, Eq, Structural)]
pub enum Event {
    /// The builder's direct plugin registrations are done.
    PluginsAttached,
    /// The setup hook has been attached to the builder.
    HookAttached,
    /// Every registration inside the setup hook succeeded.
    SetupSucceeded,
    /// A registration inside the setup hook failed.
    SetupFailed,
    /// The run loop returned without error.
    RunFinished,
    /// The run loop failed to start or ended with an error.
    RunFailed,
}

/// What the bootstrap asks the runtime to do next.
#[derive(Clone, Copy, Debug, PartialEq, Eq, Structural)]
pub enum Action {
    /// Go on with the launch sequence.
    Proceed,
    /// Enter the blocking event loop.
    EnterEventLoop,
    /// End the process normally.
    Exit,
    /// End the process at once, unsuccessfully, with the fatal diagnostic.
    Abort,
    /// The event does not apply to the current stage; nothing to do.
    Ignore,
}

/// The result of one lifecycle step.
#[derive(Clone, Copy, Debug, PartialEq, Eq, Structural)]
pub struct Transition {
    pub stage: Stage,
    pub action: Action,
}

/// Whether `stage` is final: no event leads out of it.
pub open spec fn is_final(stage: Stage) -> bool {
    stage is Terminated || stage is Aborted
}

/// The lifecycle's transition relation.
pub open spec fn step_spec(stage: Stage, event: Event) -> Transition {
    match (stage, event) {
        (Stage::Unconfigured, Event::PluginsAttached) => Transition {
            stage: Stage::PluginsRegistered,
            action: Action::Proceed,
        },
        (Stage::PluginsRegistered, Event::HookAttached) => Transition {
            stage: Stage::SetupHookPending,
            action: Action::Proceed,
        },
        (Stage::SetupHookPending, Event::SetupSucceeded) => Transition {
            stage: Stage::Running,
            action: Action::EnterEventLoop,
        },
        (Stage::SetupHookPending, Event::SetupFailed) => Transition {
            stage: Stage::Aborted,
            action: Action::Abort,
        },
        (Stage::SetupHookPending, Event::RunFailed) => Transition {
            stage: Stage::Aborted,
            action: Action::Abort,
        },
        (Stage::Running, Event::RunFinished) => Transition {
            stage: Stage::Terminated,
            action: Action::Exit,
        },
        (Stage::Running, Event::RunFailed) => Transition {
            stage: Stage::Aborted,
            action: Action::Abort,
        },
        _ => Transition { stage, action: Action::Ignore },
    }
}

/// Advances the lifecycle by one event.
pub fn step(stage: Stage, event: Event) -> (t: Transition)
    ensures
        t == step_spec(stage, event),
{
    match (stage, event) {
        (Stage::Unconfigured, Event::PluginsAttached) => Transition {
            stage: Stage::PluginsRegistered,
            action: Action::Proceed,
        },
        (Stage::PluginsRegistered, Event::HookAttached) => Transition {
            stage: Stage::SetupHookPending,
            action: Action::Proceed,
        },
        (Stage::SetupHookPending, Event::SetupSucceeded) => Transition {
            stage: Stage::Running,
            action: Action::EnterEventLoop,
        },
        (Stage::SetupHookPending, Event::SetupFailed) | (Stage::SetupHookPending, Event::RunFailed)
        | (Stage::Running, Event::RunFailed) => Transition {
            stage: Stage::Aborted,
            action: Action::Abort,
        },
        (Stage::Running, Event::RunFinished) => Transition {
            stage: Stage::Terminated,
            action: Action::Exit,
        },
        _ => Transition { stage, action: Action::Ignore },
    }
}

/// The message with which the process aborts when startup or the run loop
/// fails.
pub open spec fn fatal_diagnostic_spec() -> Seq<char> {
    "error while running tauri application"@
}

/// Returns the fatal diagnostic, to be written to standard error on abort.
pub fn fatal_diagnostic() -> (r: &'static str)
    ensures
        r@ == fatal_diagnostic_spec(),
{
    "error while running tauri application"
}

/// The stage reached from `stage` once `events` have been handled in order.
pub open spec fn stage_after(stage: Stage, events: Seq<Event>) -> Stage
    decreases events.len(),
{
    if events.len() == 0 {
        stage
    } else {
        stage_after(step_spec(stage, events[0]).stage, events.drop_first())
    }
}

/// The actions asked for, in order, while `events` are handled from `stage`.
pub open spec fn actions_of(stage: Stage, events: Seq<Event>) -> Seq<Action>
    decreases events.len(),
{
    if events.len() == 0 {
        Seq::<Action>::empty()
    } else {
        let t = step_spec(stage, events[0]);
        seq![t.action] + actions_of(t.stage, events.drop_first())
    }
}

/// How far along the linear lifecycle a stage is.
pub open spec fn progress(stage: Stage) -> int {
    match stage {
        Stage::Unconfigured => 0,
        Stage::PluginsRegistered => 1,
        Stage::SetupHookPending => 2,
        Stage::Running => 3,
        Stage::Terminated => 4,
        Stage::Aborted => 4,
    }
}

/// Handling two runs of events one after the other is handling their
/// concatenation.
pub proof fn lemma_events_concat(stage: Stage, a: Seq<Event>, b: Seq<Event>)
    ensures
        stage_after(stage, a + b) == stage_after(stage_after(stage, a), b),
        actions_of(stage, a + b) == actions_of(stage, a) + actions_of(stage_after(stage, a), b),
    decreases a.len(),
{
    if a.len() == 0 {
        assert(a + b =~= b);
        assert(actions_of(stage, a) + actions_of(stage, b) =~= actions_of(stage, b));
    } else {
        let t = step_spec(stage, a[0]);
        assert((a + b)[0] == a[0]);
        assert((a + b).drop_first() =~= a.drop_first() + b);
        lemma_events_concat(t.stage, a.drop_first(), b);
        assert(actions_of(stage, a + b) =~= actions_of(stage, a) + actions_of(
            stage_after(stage, a),
            b,
        ));
    }
}

/// The lifecycle never moves backwards, and the event loop is entered only on
/// the way to a stage at or past `Running`.
pub proof fn lemma_progress_monotone(stage: Stage, events: Seq<Event>)
    ensures
        progress(stage_after(stage, events)) >= progress(stage),
        actions_of(stage, events).contains(Action::EnterEventLoop) ==> progress(
            stage_after(stage, events),
        ) >= 3,
    decreases events.len(),
{
    if events.len() > 0 {
        let t = step_spec(stage, events[0]);
        lemma_progress_monotone(t.stage, events.drop_first());
        let rest = actions_of(t.stage, events.drop_first());
        if actions_of(stage, events).contains(Action::EnterEventLoop) {
            let k = choose|k: int|
                0 <= k < actions_of(stage, events).len() && actions_of(stage, events)[k]
                    == Action::EnterEventLoop;
            if k > 0 {
                assert(rest[k - 1] == Action::EnterEventLoop);
            }
        }
    }
}

/// A final stage stays as it is, whatever happens next, and asks for nothing.
pub proof fn lemma_final_stage_absorbs(stage: Stage, events: Seq<Event>)
    requires
        is_final(stage),
    ensures
        stage_after(stage, events) == stage,
        forall|k: int|
            0 <= k < actions_of(stage, events).len() ==> #[trigger] actions_of(stage, events)[k]
                == Action::Ignore,
    decreases events.len(),
{
    if events.len() > 0 {
        lemma_final_stage_absorbs(stage, events.drop_first());
        let rest = actions_of(stage, events.drop_first());
        assert forall|k: int| 0 <= k < actions_of(stage, events).len() implies #[trigger] actions_of(
            stage,
            events,
        )[k] == Action::Ignore by {
            if k > 0 {
                assert(actions_of(stage, events)[k] == rest[k - 1]);
            }
        }
    }
}

/// If a registration in the setup hook fails, the event loop is never
/// entered: whatever happened before the hook ran and whatever the runtime
/// reports afterwards, the bootstrap aborts and asks for no run.
pub proof fn lemma_setup_failure_never_runs(before: Seq<Event>, after: Seq<Event>)
    requires
        stage_after(Stage::Unconfigured, before) == Stage::SetupHookPending,
    ensures
        stage_after(Stage::Unconfigured, before + seq![Event::SetupFailed] + after)
            == Stage::Aborted,
        actions_of(Stage::Unconfigured, before + seq![Event::SetupFailed] + after).contains(
            Action::Abort,
        ),
        !actions_of(Stage::Unconfigured, before + seq![Event::SetupFailed] + after).contains(
            Action::EnterEventLoop,
        ),
{
    let fail = seq![Event::SetupFailed];
    lemma_progress_monotone(Stage::Unconfigured, before);
    lemma_events_concat(Stage::Unconfigured, before, fail);
    lemma_events_concat(Stage::Unconfigured, before + fail, after);
    assert(fail[0] == Event::SetupFailed);
    assert(fail.drop_first() =~= Seq::<Event>::empty());
    assert(actions_of(Stage::Aborted, fail.drop_first()) =~= Seq::<Action>::empty());
    assert(stage_after(Stage::Aborted, fail.drop_first()) == Stage::Aborted);
    assert(actions_of(Stage::SetupHookPending, fail) =~= seq![Action::Abort]);
    lemma_final_stage_absorbs(Stage::Aborted, after);
    let all = actions_of(Stage::Unconfigured, before + fail + after);
    let pre = actions_of(Stage::Unconfigured, before);
    let tail = actions_of(Stage::Aborted, after);
    assert(all == pre + seq![Action::Abort] + tail);
    assert(all[pre.len() as int] == Action::Abort);
    if all.contains(Action::EnterEventLoop) {
        let k = choose|k: int| 0 <= k < all.len() && all[k] == Action::EnterEventLoop;
        if k < pre.len() {
            assert(pre[k] == Action::EnterEventLoop);
        } else if k > pre.len() {
            assert(tail[k - pre.len() - 1] == Action::Ignore);
        }
    }
}

/// A failure of the run loop, whether at startup or while running, aborts the
/// process at once, and no later report turns it into a normal exit.
pub proof fn lemma_run_failure_aborts(stage: Stage, after: Seq<Event>)
    requires
        stage == Stage::SetupHookPending || stage == Stage::Running,
    ensures
        step_spec(stage, Event::RunFailed) == (Transition {
            stage: Stage::Aborted,
            action: Action::Abort,
        }),
        stage_after(stage, seq![Event::RunFailed] + after) == Stage::Aborted,
        actions_of(stage, seq![Event::RunFailed] + after)[0] == Action::Abort,
        !actions_of(stage, seq![Event::RunFailed] + after).contains(Action::Exit),
{
    let fail = seq![Event::RunFailed];
    lemma_events_concat(stage, fail, after);
    assert(fail[0] == Event::RunFailed);
    assert(fail.drop_first() =~= Seq::<Event>::empty());
    assert(actions_of(Stage::Aborted, fail.drop_first()) =~= Seq::<Action>::empty());
    assert(stage_after(Stage::Aborted, fail.drop_first()) == Stage::Aborted);
    assert(actions_of(stage, fail) =~= seq![Action::Abort]);
    lemma_final_stage_absorbs(Stage::Aborted, after);
    let all = actions_of(stage, fail + after);
    let tail = actions_of(Stage::Aborted, after);
    assert(all == seq![Action::Abort] + tail);
    if all.contains(Action::Exit) {
        let k = choose|k: int| 0 <= k < all.len() && all[k] == Action::Exit;
        if k > 0 {
            assert(tail[k - 1] == Action::Ignore);
        }
    }
}

} // verus!
