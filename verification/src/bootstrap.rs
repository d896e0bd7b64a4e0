//! The startup plan and the life cycle of the host.
//!
//! Starting the shell is a fixed sequence: attach the plugins, bind the
//! greeting command, open the inspector when running in debug mode, and hand
//! control to the host's run loop. This module decides that sequence and what
//! follows from each thing the host reports; carrying the steps out is left to
//! the caller, which owns the windowing host.

use vstd::prelude::*;

verus! {

/// A capability that is attached to the host before it starts.
#[derive(Clone, Copy, Debug, PartialEq, Eq, Structural)]
pub enum Plugin {
    /// The media playback backend.
    Playback,
    /// The HTTP client.
    Http,
    /// The persistent key-value store.
    Store,
}

/// One thing to do while starting, in the order the plan gives.
#[derive(Clone, Copy, Debug, PartialEq, Eq, Structural)]
pub enum Step {
    /// Attach a plugin to the host.
    Register(Plugin),
    /// Make the greeting command callable from the frontend.
    BindGreet,
    /// Find the main window and open its inspector panel.
    OpenInspector,
    /// Build the host and hand control to its run loop.
    RunLoop,
}

/// The order in which the plugins are attached.
pub open spec fn registration_order() -> Seq<Plugin> {
    seq![Plugin::Playback, Plugin::Http, Plugin::Store]
}

/// One `Register` step for each plugin of `order`, in the same order.
pub open spec fn registrations(order: Seq<Plugin>) -> Seq<Step> {
    Seq::new(order.len(), |i: int| Step::Register(order[i]))
}

/// The steps that follow the registrations: bind the command, open the
/// inspector in debug mode only, then run.
pub open spec fn closing_steps(debug_mode: bool) -> Seq<Step> {
    if debug_mode {
        seq![Step::BindGreet, Step::OpenInspector, Step::RunLoop]
    } else {
        seq![Step::BindGreet, Step::RunLoop]
    }
}

/// The whole startup plan for the given mode.
pub open spec fn plan_for(debug_mode: bool) -> Seq<Step> {
    registrations(registration_order()) + closing_steps(debug_mode)
}

/// The plugins in the order in which they are attached: playback, HTTP, store.
pub fn plugin_order() -> (order: Vec<Plugin>)
    ensures
        order@ == registration_order(),
{
    let mut order: Vec<Plugin> = Vec::new();
    order.push(Plugin::Playback);
    order.push(Plugin::Http);
    order.push(Plugin::Store);
    order
}

/// The startup plan: every plugin of [`plugin_order`] is registered, the
/// greeting command is bound, the inspector is opened if and only if
/// `debug_mode` is set, and the run loop comes last.
pub fn startup_plan(debug_mode: bool) -> (plan: Vec<Step>)
    ensures
        plan@ == plan_for(debug_mode),
{
    let order = plugin_order();
    let mut plan: Vec<Step> = Vec::new();
    let mut next: usize = 0;
    while next < order.len()
        invariant
            next <= order.len(),
            plan@ == registrations(order@.take(next as int)),
        decreases order.len() - next,
    {
        plan.push(Step::Register(order[next]));
        next += 1;
    }
    assert(order@.take(next as int) == order@);
    plan.push(Step::BindGreet);
    if debug_mode {
        plan.push(Step::OpenInspector);
    }
    plan.push(Step::RunLoop);
    plan
}

/// Where the host stands in its life. A host begins as `NotStarted`, may
/// become `Running`, and ends as `Terminated`; it never goes back.
#[derive(Clone, Copy, Debug, PartialEq, Eq, Structural)]
pub enum Phase {
    /// Nothing has been built yet.
    NotStarted,
    /// The host was built and has control.
    Running,
    /// The host has ended, by failure or by leaving its run loop.
    Terminated,
}

/// Why startup could not go on.
#[derive(Clone, Copy, Debug, PartialEq, Eq, Structural)]
pub enum StartupError {
    /// The host could not be built or started.
    HostFailed,
    /// The main window could not be found when the inspector was to be opened.
    WindowNotFound,
}

/// What the host reports back to the startup logic.
#[derive(Clone, Copy, Debug, PartialEq, Eq, Structural)]
pub enum Event {
    /// The host was built and is about to run.
    Started,
    /// Startup failed.
    Failed(StartupError),
    /// The run loop has returned.
    Exited,
}

/// What the caller is to do after an event.
#[derive(Clone, Copy, Debug, PartialEq, Eq, Structural)]
pub enum Action {
    /// Nothing: carry on.
    Proceed,
    /// End the process at once with a fatal message for this error.
    Abort(StartupError),
    /// Leave in the ordinary way.
    Exit,
}

/// The outcome of one event: the phase that follows and what to do.
#[derive(Clone, Copy, Debug, PartialEq, Eq, Structural)]
pub struct Transition {
    /// The phase of the host after the event.
    pub phase: Phase,
    /// What the caller is to do now.
    pub action: Action,
}

/// The phase that follows `phase` on `event`. A terminated host stays
/// terminated; otherwise a start leads to `Running`, and a failure or an exit
/// to `Terminated`.
pub open spec fn next_phase(phase: Phase, event: Event) -> Phase {
    match (phase, event) {
        (Phase::Terminated, _) => Phase::Terminated,
        (_, Event::Started) => Phase::Running,
        (_, Event::Failed(_)) => Phase::Terminated,
        (_, Event::Exited) => Phase::Terminated,
    }
}

/// What is to be done on `event` in `phase`. A terminated host asks for
/// nothing more; otherwise a failure aborts with its error, an exit leaves,
/// and a start carries on.
pub open spec fn action_for(phase: Phase, event: Event) -> Action {
    match (phase, event) {
        (Phase::Terminated, _) => Action::Proceed,
        (_, Event::Started) => Action::Proceed,
        (_, Event::Failed(error)) => Action::Abort(error),
        (_, Event::Exited) => Action::Exit,
    }
}

/// Takes one event in `phase` and says which phase follows and what the
/// caller is to do.
pub fn advance(phase: Phase, event: Event) -> (next: Transition)
    ensures
        next.phase == next_phase(phase, event),
        next.action == action_for(phase, event),
{
    match phase {
        Phase::Terminated => Transition { phase: Phase::Terminated, action: Action::Proceed },
        _ => match event {
            Event::Started => Transition { phase: Phase::Running, action: Action::Proceed },
            Event::Failed(error) => Transition {
                phase: Phase::Terminated,
                action: Action::Abort(error),
            },
            Event::Exited => Transition { phase: Phase::Terminated, action: Action::Exit },
        },
    }
}

/// The plugins that `plan` registers, in the order in which it does.
pub open spec fn registered_plugins(plan: Seq<Step>) -> Seq<Plugin>
    decreases plan.len(),
{
    if plan.len() == 0 {
        Seq::empty()
    } else {
        let earlier = registered_plugins(plan.drop_last());
        match plan.last() {
            Step::Register(plugin) => earlier.push(plugin),
            _ => earlier,
        }
    }
}

/// The order of the phases in a host's life.
pub open spec fn phase_rank(phase: Phase) -> nat {
    match phase {
        Phase::NotStarted => 0,
        Phase::Running => 1,
        Phase::Terminated => 2,
    }
}

/// The phase reached from `phase` once `events` have been taken in turn.
pub open spec fn phase_after(phase: Phase, events: Seq<Event>) -> Phase
    decreases events.len(),
{
    if events.len() == 0 {
        phase
    } else {
        next_phase(phase_after(phase, events.drop_last()), events.last())
    }
}

/// The plan written out, step by step, for each mode.
pub proof fn lemma_plan_written_out(debug_mode: bool)
    ensures
        debug_mode ==> plan_for(debug_mode) == seq![
            Step::Register(Plugin::Playback),
            Step::Register(Plugin::Http),
            Step::Register(Plugin::Store),
            Step::BindGreet,
            Step::OpenInspector,
            Step::RunLoop,
        ],
        !debug_mode ==> plan_for(debug_mode) == seq![
            Step::Register(Plugin::Playback),
            Step::Register(Plugin::Http),
            Step::Register(Plugin::Store),
            Step::BindGreet,
            Step::RunLoop,
        ],
{
}

/// Adding a step to a plan adds its plugin to the registered ones if the
/// step registers one, and changes nothing otherwise.
proof fn lemma_registered_plugins_push(plan: Seq<Step>, step: Step)
    ensures
        registered_plugins(plan.push(step)) == match step {
            Step::Register(plugin) => registered_plugins(plan).push(plugin),
            _ => registered_plugins(plan),
        },
{
    assert(plan.push(step).drop_last() == plan);
}

/// In either mode the plan registers playback, HTTP and store, in that order,
/// and registers nothing else.
pub proof fn lemma_plugins_registered_in_order(debug_mode: bool)
    ensures
        registered_plugins(plan_for(debug_mode)) == registration_order(),
        registration_order() == seq![Plugin::Playback, Plugin::Http, Plugin::Store],
{
    let none = Seq::<Step>::empty();
    let one = none.push(Step::Register(Plugin::Playback));
    let two = one.push(Step::Register(Plugin::Http));
    let three = two.push(Step::Register(Plugin::Store));
    let bound = three.push(Step::BindGreet);
    lemma_registered_plugins_push(none, Step::Register(Plugin::Playback));
    lemma_registered_plugins_push(one, Step::Register(Plugin::Http));
    lemma_registered_plugins_push(two, Step::Register(Plugin::Store));
    lemma_registered_plugins_push(three, Step::BindGreet);
    if debug_mode {
        let inspected = bound.push(Step::OpenInspector);
        lemma_registered_plugins_push(bound, Step::OpenInspector);
        lemma_registered_plugins_push(inspected, Step::RunLoop);
        assert(plan_for(debug_mode) == inspected.push(Step::RunLoop));
    } else {
        lemma_registered_plugins_push(bound, Step::RunLoop);
        assert(plan_for(debug_mode) == bound.push(Step::RunLoop));
    }
}

/// The inspector is opened exactly once in debug mode and never otherwise.
pub proof fn lemma_inspector_opened_once_in_debug_only(debug_mode: bool)
    ensures
        plan_for(debug_mode).to_multiset().count(Step::OpenInspector) == if debug_mode {
            1nat
        } else {
            0nat
        },
{
    broadcast use vstd::seq_lib::to_multiset_build;

    let none = Seq::<Step>::empty();
    let bound = none.push(Step::Register(Plugin::Playback)).push(
        Step::Register(Plugin::Http),
    ).push(Step::Register(Plugin::Store)).push(Step::BindGreet);
    none.to_multiset_ensures();
    assert(!none.contains(Step::OpenInspector));
    assert(bound.to_multiset().count(Step::OpenInspector) == 0);
    if debug_mode {
        assert(plan_for(debug_mode) == bound.push(Step::OpenInspector).push(Step::RunLoop));
    } else {
        assert(plan_for(debug_mode) == bound.push(Step::RunLoop));
    }
}

/// The run loop is entered once, as the last step of the plan: everything
/// else, the inspector included, is done before the host takes control.
pub proof fn lemma_run_loop_comes_last(debug_mode: bool)
    ensures
        plan_for(debug_mode).last() == Step::RunLoop,
        forall|i: int|
            0 <= i < plan_for(debug_mode).len() - 1 ==> plan_for(debug_mode)[i] != Step::RunLoop,
{
}

/// A host never goes back to an earlier phase.
pub proof fn lemma_phase_never_goes_back(phase: Phase, event: Event)
    ensures
        phase_rank(phase) <= phase_rank(next_phase(phase, event)),
{
}

/// A failure ends the host: whatever the phase, the next one is `Terminated`,
/// a host that had not yet ended is told to abort with that error, and no
/// later event brings the host back to life.
pub proof fn lemma_failure_terminates(phase: Phase, error: StartupError, later: Seq<Event>)
    ensures
        next_phase(phase, Event::Failed(error)) == Phase::Terminated,
        phase != Phase::Terminated ==> action_for(phase, Event::Failed(error)) == Action::Abort(
            error,
        ),
        phase_after(next_phase(phase, Event::Failed(error)), later) == Phase::Terminated,
    decreases later.len(),
{
    if later.len() > 0 {
        lemma_failure_terminates(phase, error, later.drop_last());
    }
}

} // verus!
