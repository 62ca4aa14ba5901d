use m_browser::coordinator::{signal_result, Action, Coordinator, Event, Phase, Status};
use m_browser::error::SessionError;
use m_browser::pump::{pump_step, PumpStep};
use m_browser::wasm::{Outcome, Progress, Wasm, Work};

fn stop_sequence(window: u64) -> Vec<Action> {
    vec![
        Action::SignalPump,
        Action::SignalHelpers,
        Action::HideWindow { window },
        Action::RebuildSession,
    ]
}

fn running(window: u64) -> Coordinator {
    let mut coordinator = Coordinator::new();
    assert_eq!(coordinator.handle(Event::SpawnRequested), vec![Action::OpenWindow]);
    let session = coordinator.session();
    assert_eq!(
        coordinator.handle(Event::WindowOpened { window }),
        vec![Action::StartGuest { session }, Action::StartPump { session }]
    );
    coordinator
}

#[test]
fn coordinator_starts_idle() {
    let coordinator = Coordinator::new();
    assert_eq!(coordinator.phase(), Phase::Idle);
    assert_eq!(coordinator.session(), 0);
    assert_eq!(coordinator.status(), Status::Idle);
    assert_eq!(coordinator.active_window(), None);
    assert!(!coordinator.is_active());
}

#[test]
fn spawn_opens_the_window_then_starts_both_threads() {
    let mut coordinator = Coordinator::new();
    assert_eq!(coordinator.handle(Event::SpawnRequested), vec![Action::OpenWindow]);
    assert_eq!(coordinator.phase(), Phase::Spawning);
    assert!(!coordinator.is_active());
    assert_eq!(
        coordinator.handle(Event::WindowOpened { window: 7 }),
        vec![Action::StartGuest { session: 0 }, Action::StartPump { session: 0 }]
    );
    assert_eq!(coordinator.phase(), Phase::Running);
    assert_eq!(coordinator.status(), Status::Running);
    assert_eq!(coordinator.active_window(), Some(7));
    assert!(coordinator.is_active());
}

#[test]
fn stop_signals_both_channels_hides_the_window_and_rebuilds() {
    let mut coordinator = running(7);
    assert_eq!(coordinator.handle(Event::StopRequested), stop_sequence(7));
    assert_eq!(coordinator.phase(), Phase::StopRequested);
    assert_eq!(coordinator.active_window(), None);
    assert_eq!(coordinator.session(), 1);
    assert_eq!(coordinator.status(), Status::Idle);
    assert_eq!(coordinator.handle(Event::SessionRebuilt), vec![]);
    assert_eq!(coordinator.phase(), Phase::Idle);
    assert_eq!(coordinator.session(), 1);
}

#[test]
fn stop_while_idle_does_nothing() {
    let mut coordinator = Coordinator::new();
    assert_eq!(coordinator.handle(Event::StopRequested), vec![]);
    assert_eq!(coordinator.phase(), Phase::Idle);
    assert_eq!(coordinator.session(), 0);
}

#[test]
fn stop_while_spawning_cancels_and_hides_the_late_window() {
    let mut coordinator = Coordinator::new();
    coordinator.handle(Event::SpawnRequested);
    assert_eq!(coordinator.handle(Event::StopRequested), vec![]);
    assert_eq!(coordinator.phase(), Phase::Idle);
    assert_eq!(
        coordinator.handle(Event::WindowOpened { window: 3 }),
        vec![Action::HideWindow { window: 3 }]
    );
    assert_eq!(coordinator.phase(), Phase::Idle);
    assert_eq!(coordinator.session(), 0);
    assert_eq!(coordinator.handle(Event::SpawnRequested), vec![Action::OpenWindow]);
}

#[test]
fn repeated_spawn_while_spawning_is_one_spawn() {
    let mut coordinator = Coordinator::new();
    assert_eq!(coordinator.handle(Event::SpawnRequested), vec![Action::OpenWindow]);
    assert_eq!(coordinator.handle(Event::SpawnRequested), vec![]);
    assert_eq!(coordinator.phase(), Phase::Spawning);
}

#[test]
fn spawn_while_running_goes_through_a_full_stop() {
    let mut coordinator = running(7);
    assert_eq!(coordinator.handle(Event::SpawnRequested), stop_sequence(7));
    assert_eq!(coordinator.phase(), Phase::StopRequested);
    assert!(!coordinator.is_active());
    assert_eq!(coordinator.session(), 1);
    assert_eq!(coordinator.handle(Event::SessionRebuilt), vec![Action::OpenWindow]);
    assert_eq!(coordinator.phase(), Phase::Spawning);
    assert_eq!(
        coordinator.handle(Event::WindowOpened { window: 8 }),
        vec![Action::StartGuest { session: 1 }, Action::StartPump { session: 1 }]
    );
    assert_eq!(coordinator.phase(), Phase::Running);
    assert_eq!(coordinator.active_window(), Some(8));
}

#[test]
fn stop_cancels_a_queued_spawn() {
    let mut coordinator = running(7);
    coordinator.handle(Event::SpawnRequested);
    assert_eq!(coordinator.handle(Event::StopRequested), vec![]);
    assert_eq!(coordinator.handle(Event::SessionRebuilt), vec![]);
    assert_eq!(coordinator.phase(), Phase::Idle);
}

#[test]
fn spawn_during_a_stop_is_queued() {
    let mut coordinator = running(7);
    coordinator.handle(Event::StopRequested);
    assert_eq!(coordinator.handle(Event::SpawnRequested), vec![]);
    assert_eq!(coordinator.phase(), Phase::StopRequested);
    assert_eq!(coordinator.handle(Event::SessionRebuilt), vec![Action::OpenWindow]);
    assert_eq!(coordinator.phase(), Phase::Spawning);
}

#[test]
fn failed_rebuild_is_a_configuration_error_and_spawn_retries() {
    let mut coordinator = running(7);
    coordinator.handle(Event::SpawnRequested);
    assert_eq!(coordinator.handle(Event::RebuildFailed), vec![]);
    assert_eq!(coordinator.phase(), Phase::Idle);
    assert_eq!(coordinator.status(), Status::Failed(SessionError::ConfigurationError));
    assert_eq!(coordinator.handle(Event::SpawnRequested), vec![Action::RebuildSession]);
    assert_eq!(coordinator.phase(), Phase::StopRequested);
    assert_eq!(coordinator.status(), Status::Idle);
    assert_eq!(coordinator.session(), 1);
    assert_eq!(coordinator.handle(Event::SessionRebuilt), vec![Action::OpenWindow]);
    assert_eq!(
        coordinator.handle(Event::WindowOpened { window: 9 }),
        vec![Action::StartGuest { session: 1 }, Action::StartPump { session: 1 }]
    );
    assert_eq!(coordinator.status(), Status::Running);
}

#[test]
fn spawn_clears_the_error_of_the_session_before() {
    let mut coordinator = running(7);
    let report = Event::GuestFinished { session: 0, result: Err(SessionError::GuestTrap) };
    coordinator.handle(report);
    coordinator.handle(Event::SessionRebuilt);
    assert_eq!(coordinator.status(), Status::Failed(SessionError::GuestTrap));
    assert_eq!(coordinator.handle(Event::SpawnRequested), vec![Action::OpenWindow]);
    assert_eq!(coordinator.status(), Status::Idle);
    let state = coordinator.snapshot();
    assert_eq!(state.phase, Phase::Spawning);
    assert_eq!(state.session, 1);
    assert!(state.ready);
    assert!(!state.queued);
    assert_eq!(state.window, None);
}

#[test]
fn stale_report_is_ignored() {
    let mut coordinator = running(7);
    coordinator.handle(Event::SpawnRequested);
    coordinator.handle(Event::SessionRebuilt);
    coordinator.handle(Event::WindowOpened { window: 8 });
    let stale = Event::GuestFinished { session: 0, result: Err(SessionError::GuestTrap) };
    assert_eq!(coordinator.handle(stale), vec![]);
    assert_eq!(coordinator.phase(), Phase::Running);
    assert_eq!(coordinator.status(), Status::Running);
    assert_eq!(coordinator.session(), 1);
    assert_eq!(coordinator.active_window(), Some(8));
}

#[test]
fn report_while_stopping_or_idle_is_ignored() {
    let mut coordinator = running(7);
    coordinator.handle(Event::StopRequested);
    let late = Event::GuestFinished { session: 0, result: Err(SessionError::GuestTrap) };
    assert_eq!(coordinator.handle(late), vec![]);
    assert_eq!(coordinator.status(), Status::Idle);
    coordinator.handle(Event::SessionRebuilt);
    assert_eq!(coordinator.handle(late), vec![]);
    assert_eq!(coordinator.status(), Status::Idle);
    assert_eq!(coordinator.phase(), Phase::Idle);
}

#[test]
fn guest_trap_is_reported_and_the_session_torn_down() {
    let mut coordinator = running(7);
    let report = Event::GuestFinished { session: 0, result: Err(SessionError::GuestTrap) };
    assert_eq!(coordinator.handle(report), stop_sequence(7));
    assert_eq!(coordinator.status(), Status::Failed(SessionError::GuestTrap));
    assert_eq!(coordinator.phase(), Phase::StopRequested);
    coordinator.handle(Event::SessionRebuilt);
    assert_eq!(coordinator.phase(), Phase::Idle);
    assert_eq!(coordinator.status(), Status::Failed(SessionError::GuestTrap));
}

#[test]
fn guest_returning_successfully_ends_the_session() {
    let mut coordinator = running(7);
    let report = Event::GuestFinished { session: 0, result: Ok(()) };
    assert_eq!(coordinator.handle(report), stop_sequence(7));
    assert_eq!(coordinator.status(), Status::Idle);
    assert_eq!(coordinator.handle(Event::SessionRebuilt), vec![]);
    assert_eq!(coordinator.phase(), Phase::Idle);
}

#[test]
fn window_nobody_waits_for_is_hidden() {
    let mut coordinator = running(7);
    assert_eq!(
        coordinator.handle(Event::WindowOpened { window: 12 }),
        vec![Action::HideWindow { window: 12 }]
    );
    assert_eq!(coordinator.active_window(), Some(7));
    assert_eq!(coordinator.phase(), Phase::Running);
}

#[test]
fn undelivered_signal_changes_nothing() {
    let mut idle = Coordinator::new();
    assert_eq!(idle.handle(Event::SignalUndelivered), vec![]);
    assert_eq!(idle.phase(), Phase::Idle);
    let mut active = running(7);
    assert_eq!(active.handle(Event::SignalUndelivered), vec![]);
    assert_eq!(active.phase(), Phase::Running);
    assert_eq!(active.session(), 0);
    active.handle(Event::StopRequested);
    assert_eq!(active.handle(Event::SignalUndelivered), vec![]);
    assert_eq!(active.phase(), Phase::StopRequested);
}

#[test]
fn signal_without_receiver_is_a_closed_channel() {
    assert_eq!(signal_result(true), Ok(()));
    assert_eq!(signal_result(false), Err(SessionError::ChannelClosed));
}

#[test]
fn rebuild_reports_nobody_asked_for_are_ignored() {
    let mut coordinator = running(7);
    assert_eq!(coordinator.handle(Event::SessionRebuilt), vec![]);
    assert_eq!(coordinator.handle(Event::RebuildFailed), vec![]);
    assert_eq!(coordinator.phase(), Phase::Running);
    assert_eq!(coordinator.status(), Status::Running);
    let mut idle = Coordinator::new();
    assert_eq!(idle.handle(Event::RebuildFailed), vec![]);
    assert_eq!(idle.status(), Status::Idle);
    assert_eq!(idle.handle(Event::SpawnRequested), vec![Action::OpenWindow]);
}

#[test]
fn status_as_text() {
    assert_eq!(Status::Idle.describe(), "idle");
    assert_eq!(Status::Running.describe(), "running");
    assert_eq!(
        Status::Failed(SessionError::ModuleNotFound).describe(),
        "Component file not found"
    );
}

#[test]
fn scenario_module_file_does_not_exist() {
    let mut coordinator = running(7);
    let mut session: Wasm<u32> = Wasm::new();
    assert_eq!(session.run_wasm("no-such-file.wasm".to_string(), 1), Ok(Work::LoadComponent));
    let finished = session.advance(Outcome::Failed);
    assert_eq!(finished, Progress::Finished(Err(SessionError::ModuleNotFound)));
    let result = match finished {
        Progress::Finished(result) => result,
        _ => unreachable!(),
    };
    let actions = coordinator.handle(Event::GuestFinished { session: 0, result });
    assert_eq!(actions, stop_sequence(7));
    assert_eq!(coordinator.status(), Status::Failed(SessionError::ModuleNotFound));
    assert_eq!(pump_step(actions.contains(&Action::SignalPump)), PumpStep::Exit);
    assert_eq!(coordinator.handle(Event::SessionRebuilt), vec![]);
    assert_eq!(coordinator.phase(), Phase::Idle);
    assert!(!coordinator.is_active());
    assert_eq!(coordinator.active_window(), None);
}

#[test]
fn scenario_guest_never_returns() {
    let mut coordinator = running(7);
    let mut session: Wasm<u32> = Wasm::new();
    session.run_wasm("forever.wasm".to_string(), 1).unwrap();
    session.advance(Outcome::Succeeded);
    assert_eq!(session.advance(Outcome::Succeeded), Progress::Next(Work::InvokeEntry));
    assert_eq!(coordinator.phase(), Phase::Running);
    assert_eq!(pump_step(false), PumpStep::Tick { sleep_ms: 16 });
    assert_eq!(coordinator.phase(), Phase::Running);
    let actions = coordinator.handle(Event::StopRequested);
    assert_eq!(actions, stop_sequence(7));
    assert_eq!(pump_step(true), PumpStep::Exit);
    assert_eq!(coordinator.handle(Event::SessionRebuilt), vec![]);
    assert_eq!(coordinator.phase(), Phase::Idle);
    assert_eq!(session.progress(), Progress::Next(Work::InvokeEntry));
}

/// Performs `pending` and whatever the coordinator asks for in answer,
/// until nothing is left to do. Returns the sessions started and the
/// number of stops signalled.
fn settle(coordinator: &mut Coordinator, mut pending: Vec<Action>, window: &mut u64) -> (Vec<u64>, u32) {
    let mut started = Vec::new();
    let mut stopped = 0;
    while !pending.is_empty() {
        match pending.remove(0) {
            Action::OpenWindow => {
                *window += 1;
                pending.extend(coordinator.handle(Event::WindowOpened { window: *window }));
            }
            Action::RebuildSession => pending.extend(coordinator.handle(Event::SessionRebuilt)),
            Action::StartGuest { session } => started.push(session),
            Action::SignalPump => stopped += 1,
            _ => {}
        }
    }
    (started, stopped)
}

#[test]
fn scenario_rapid_double_spawn() {
    let mut coordinator = Coordinator::new();
    let mut window = 0;
    let first = coordinator.handle(Event::SpawnRequested);
    assert_eq!(settle(&mut coordinator, first, &mut window), (vec![0], 0));
    assert_eq!(coordinator.phase(), Phase::Running);
    let second = coordinator.handle(Event::SpawnRequested);
    assert!(!coordinator.is_active());
    assert_eq!(settle(&mut coordinator, second, &mut window), (vec![1], 1));
    assert_eq!(coordinator.phase(), Phase::Running);
    assert_eq!(coordinator.session(), 1);
    assert_eq!(coordinator.active_window(), Some(2));
}

#[test]
fn double_spawn_before_the_window_exists_starts_one_session() {
    let mut coordinator = Coordinator::new();
    let mut window = 0;
    let mut pending = coordinator.handle(Event::SpawnRequested);
    pending.extend(coordinator.handle(Event::SpawnRequested));
    assert_eq!(settle(&mut coordinator, pending, &mut window), (vec![0], 0));
    assert_eq!(coordinator.phase(), Phase::Running);
    assert_eq!(coordinator.session(), 0);
    assert_eq!(coordinator.active_window(), Some(1));
}

/// Drives a coordinator with real sessions behind it and counts, after
/// every step, the sessions that were not abandoned and hold a surface.
#[test]
fn one_live_session_holds_a_surface_at_a_time() {
    let events = [
        Event::SpawnRequested,
        Event::StopRequested,
        Event::SpawnRequested,
        Event::SpawnRequested,
        Event::SpawnRequested,
        Event::StopRequested,
        Event::StopRequested,
        Event::SpawnRequested,
        Event::GuestFinished { session: 3, result: Ok(()) },
        Event::SpawnRequested,
    ];
    let mut coordinator = Coordinator::new();
    let mut sessions: Vec<Wasm<u64>> = vec![Wasm::new()];
    let mut window = 100;
    for (round, event) in events.iter().enumerate() {
        let mut pending = coordinator.handle(*event);
        while !pending.is_empty() {
            match pending.remove(0) {
                Action::OpenWindow => {
                    window += 1;
                    pending.extend(coordinator.handle(Event::WindowOpened { window }));
                }
                Action::RebuildSession => {
                    sessions.push(Wasm::new());
                    pending.extend(coordinator.handle(Event::SessionRebuilt));
                }
                Action::StartGuest { session } => {
                    let started = sessions[session as usize].run_wasm("m.wasm".to_string(), window);
                    assert_eq!(started, Ok(Work::LoadComponent));
                }
                _ => {}
            }
        }
        assert_eq!(sessions.len() as u64, coordinator.session() + 1);
        let live_holders = sessions
            .iter()
            .enumerate()
            .filter(|(id, session)| *id as u64 >= coordinator.session() && session.holds_surface())
            .count();
        assert!(live_holders <= 1);
        if round % 2 == 1 {
            let current = coordinator.session() as usize;
            let _ = sessions[current].create_surface();
        }
    }
    assert_eq!(coordinator.phase(), Phase::Running);
}
