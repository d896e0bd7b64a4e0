use streamio::bootstrap::{
    advance, plugin_order, startup_plan, Action, Event, Phase, Plugin, StartupError, Step,
    Transition,
};

fn all_phases() -> Vec<Phase> {
    vec![Phase::NotStarted, Phase::Running, Phase::Terminated]
}

fn all_events() -> Vec<Event> {
    vec![
        Event::Started,
        Event::Failed(StartupError::HostFailed),
        Event::Failed(StartupError::WindowNotFound),
        Event::Exited,
    ]
}

fn rank(phase: Phase) -> u8 {
    match phase {
        Phase::NotStarted => 0,
        Phase::Running => 1,
        Phase::Terminated => 2,
    }
}

#[test]
fn plugins_come_in_fixed_order() {
    assert_eq!(plugin_order(), vec![Plugin::Playback, Plugin::Http, Plugin::Store]);
}

#[test]
fn plugin_order_is_the_same_on_every_call() {
    let first = plugin_order();
    for _ in 0..10 {
        assert_eq!(plugin_order(), first);
    }
}

#[test]
fn debug_plan_step_by_step() {
    assert_eq!(
        startup_plan(true),
        vec![
            Step::Register(Plugin::Playback),
            Step::Register(Plugin::Http),
            Step::Register(Plugin::Store),
            Step::BindGreet,
            Step::OpenInspector,
            Step::RunLoop,
        ]
    );
}

#[test]
fn release_plan_step_by_step() {
    assert_eq!(
        startup_plan(false),
        vec![
            Step::Register(Plugin::Playback),
            Step::Register(Plugin::Http),
            Step::Register(Plugin::Store),
            Step::BindGreet,
            Step::RunLoop,
        ]
    );
}

#[test]
fn plan_registers_the_plugins_of_plugin_order() {
    for debug_mode in [false, true] {
        let mut registered = Vec::new();
        for step in startup_plan(debug_mode) {
            if let Step::Register(plugin) = step {
                registered.push(plugin);
            }
        }
        assert_eq!(registered, plugin_order());
    }
}

#[test]
fn inspector_is_opened_once_in_debug_mode() {
    let plan = startup_plan(true);
    let openings = plan.iter().filter(|step| **step == Step::OpenInspector).count();
    assert_eq!(openings, 1);
}

#[test]
fn inspector_is_never_opened_in_release_mode() {
    let plan = startup_plan(false);
    let openings = plan.iter().filter(|step| **step == Step::OpenInspector).count();
    assert_eq!(openings, 0);
}

#[test]
fn inspector_is_opened_before_the_run_loop() {
    let plan = startup_plan(true);
    let inspector = plan.iter().position(|step| *step == Step::OpenInspector);
    let run_loop = plan.iter().position(|step| *step == Step::RunLoop);
    assert_eq!(inspector, Some(4));
    assert_eq!(run_loop, Some(5));
}

#[test]
fn run_loop_is_last_and_entered_once() {
    for debug_mode in [false, true] {
        let plan = startup_plan(debug_mode);
        assert_eq!(plan.last(), Some(&Step::RunLoop));
        assert_eq!(plan.iter().filter(|step| **step == Step::RunLoop).count(), 1);
    }
}

#[test]
fn greeting_is_bound_once_after_the_plugins() {
    for debug_mode in [false, true] {
        let plan = startup_plan(debug_mode);
        assert_eq!(plan.iter().position(|step| *step == Step::BindGreet), Some(3));
        assert_eq!(plan.iter().filter(|step| **step == Step::BindGreet).count(), 1);
    }
}

#[test]
fn plan_is_the_same_on_every_call() {
    for debug_mode in [false, true] {
        let first = startup_plan(debug_mode);
        for _ in 0..10 {
            assert_eq!(startup_plan(debug_mode), first);
        }
    }
}

#[test]
fn start_leads_to_running() {
    assert_eq!(
        advance(Phase::NotStarted, Event::Started),
        Transition { phase: Phase::Running, action: Action::Proceed }
    );
    assert_eq!(
        advance(Phase::Running, Event::Started),
        Transition { phase: Phase::Running, action: Action::Proceed }
    );
}

#[test]
fn host_failure_aborts() {
    assert_eq!(
        advance(Phase::NotStarted, Event::Failed(StartupError::HostFailed)),
        Transition { phase: Phase::Terminated, action: Action::Abort(StartupError::HostFailed) }
    );
    assert_eq!(
        advance(Phase::Running, Event::Failed(StartupError::HostFailed)),
        Transition { phase: Phase::Terminated, action: Action::Abort(StartupError::HostFailed) }
    );
}

#[test]
fn missing_window_aborts() {
    assert_eq!(
        advance(Phase::NotStarted, Event::Failed(StartupError::WindowNotFound)),
        Transition {
            phase: Phase::Terminated,
            action: Action::Abort(StartupError::WindowNotFound)
        }
    );
    assert_eq!(
        advance(Phase::Running, Event::Failed(StartupError::WindowNotFound)),
        Transition {
            phase: Phase::Terminated,
            action: Action::Abort(StartupError::WindowNotFound)
        }
    );
}

#[test]
fn exit_leaves_in_the_ordinary_way() {
    assert_eq!(
        advance(Phase::Running, Event::Exited),
        Transition { phase: Phase::Terminated, action: Action::Exit }
    );
    assert_eq!(
        advance(Phase::NotStarted, Event::Exited),
        Transition { phase: Phase::Terminated, action: Action::Exit }
    );
}

#[test]
fn terminated_host_stays_terminated() {
    for event in all_events() {
        assert_eq!(
            advance(Phase::Terminated, event),
            Transition { phase: Phase::Terminated, action: Action::Proceed }
        );
    }
}

#[test]
fn failure_never_leaves_the_host_running() {
    for phase in all_phases() {
        for error in [StartupError::HostFailed, StartupError::WindowNotFound] {
            let next = advance(phase, Event::Failed(error));
            assert_eq!(next.phase, Phase::Terminated);
            assert_ne!(next.action, Action::Exit);
            if phase != Phase::Terminated {
                assert_eq!(next.action, Action::Abort(error));
            }
        }
    }
}

#[test]
fn phases_never_go_back() {
    for phase in all_phases() {
        for event in all_events() {
            assert!(rank(advance(phase, event).phase) >= rank(phase));
        }
    }
}

#[test]
fn nothing_revives_a_failed_host() {
    let mut phase = advance(Phase::NotStarted, Event::Failed(StartupError::HostFailed)).phase;
    for event in [Event::Started, Event::Exited, Event::Started, Event::Started] {
        let next = advance(phase, event);
        assert_eq!(next.action, Action::Proceed);
        phase = next.phase;
        assert_eq!(phase, Phase::Terminated);
    }
}

#[test]
fn ordinary_life_of_a_host() {
    let started = advance(Phase::NotStarted, Event::Started);
    assert_eq!(started.phase, Phase::Running);
    let ended = advance(started.phase, Event::Exited);
    assert_eq!(ended.phase, Phase::Terminated);
    assert_eq!(ended.action, Action::Exit);
}
