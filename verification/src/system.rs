//! The coordinator together with the sessions it starts.
//!
//! A [`World`] records, beside the coordinator's own state, which sessions
//! have a guest thread that was started and not stopped, and which sessions
//! hold a surface in their handoff slot. The host moves the world by
//! reporting events; a guest moves it by exercising its surface capability.
//! This is the setting in which the laws about several sessions are stated.

use crate::coordinator::{initial_state, lemma_step_preserves_wf, step, Action, CoordinatorState, Event, Phase};
use vstd::prelude::*;

verus! {

pub struct World {
    pub coordinator: CoordinatorState,
    /// Sessions whose guest thread was started and which were not stopped
    /// since.
    pub running: Set<u64>,
    /// Sessions whose handoff slot holds a surface.
    pub holding: Set<u64>,
}

pub enum Move {
    /// The host reports an event and performs the coordinator's answer.
    Host(Event),
    /// The guest of `session` asks for its surface, which empties the slot.
    GuestTakesSurface { session: u64 },
}

pub open spec fn initial_world() -> World {
    World { coordinator: initial_state(), running: Set::empty(), holding: Set::empty() }
}

/// The sessions that `actions` start. Starting a session deposits its
/// surface before the guest runs.
pub open spec fn started(actions: Seq<Action>) -> Set<u64> {
    Set::new(|session: u64| actions.contains(Action::StartGuest { session }))
}

/// Whether `actions` stop the session that was current before them.
pub open spec fn stops(actions: Seq<Action>) -> bool {
    actions.contains(Action::SignalPump)
}

pub open spec fn world_step(w: World, m: Move) -> World {
    match m {
        Move::Host(event) => {
            let (next, actions) = step(w.coordinator, event);
            let still_running = if stops(actions) {
                w.running.remove(w.coordinator.session)
            } else {
                w.running
            };
            World {
                coordinator: next,
                running: still_running.union(started(actions)),
                holding: w.holding.union(started(actions)),
            }
        },
        Move::GuestTakesSurface { session } => World { holding: w.holding.remove(session), ..w },
    }
}

pub open spec fn world_run(w: World, moves: Seq<Move>) -> World
    decreases moves.len(),
{
    if moves.len() == 0 {
        w
    } else {
        world_step(world_run(w, moves.drop_last()), moves.last())
    }
}

/// A session is abandoned once the coordinator has moved on to a later one.
pub open spec fn abandoned(w: World, session: u64) -> bool {
    session < w.coordinator.session
}

/// What the coordinator's answers start and stop, read off the state and
/// the event.
proof fn lemma_effects(s: CoordinatorState, event: Event)
    requires
        s.wf(),
    ensures
        started(step(s, event).1) == if s.phase == Phase::Spawning && event is WindowOpened {
            set![s.session]
        } else {
            Set::<u64>::empty()
        },
        stops(step(s, event).1) ==> s.phase == Phase::Running && step(s, event).0.session
            > s.session,
        step(s, event).0.session != s.session ==> stops(step(s, event).1),
        step(s, event).0.session >= s.session,
{
    let actions = step(s, event).1;
    let expected = if s.phase == Phase::Spawning && event is WindowOpened {
        set![s.session]
    } else {
        Set::<u64>::empty()
    };
    assert forall|session: u64| started(actions).contains(session) <==> expected.contains(
        session,
    ) by {
        if s.phase == Phase::Spawning && event is WindowOpened {
            assert(actions[0] == Action::StartGuest { session: s.session });
        }
    }
    assert(started(actions) =~= expected);
    if s.phase == Phase::Running && step(s, event).0.session != s.session {
        assert(actions[0] == Action::SignalPump);
    }
}

pub open spec fn world_inv(w: World) -> bool {
    &&& w.coordinator.wf()
    &&& forall|session: u64| w.running.contains(session) ==> session == w.coordinator.session
    &&& !w.running.is_empty() ==> w.coordinator.phase == Phase::Running
    &&& forall|session: u64| w.holding.contains(session) ==> session <= w.coordinator.session
    &&& w.holding.contains(w.coordinator.session) ==> w.coordinator.phase == Phase::Running
}

proof fn lemma_world_inv_holds(moves: Seq<Move>)
    ensures
        world_inv(world_run(initial_world(), moves)),
    decreases moves.len(),
{
    if moves.len() > 0 {
        let before = world_run(initial_world(), moves.drop_last());
        lemma_world_inv_holds(moves.drop_last());
        match moves.last() {
            Move::Host(event) => {
                lemma_effects(before.coordinator, event);
                lemma_step_preserves_wf(before.coordinator, event);
            },
            Move::GuestTakesSurface { session } => {},
        }
    } else {
        assert(initial_world().running.is_empty());
    }
}

/// Whatever the host reports and whatever the guests do, at most one
/// session has a running guest thread, it is the current one, and the
/// coordinator is then in its running phase.
pub proof fn lemma_at_most_one_session_runs(moves: Seq<Move>)
    ensures
        ({
            let w = world_run(initial_world(), moves);
            &&& forall|a: u64, b: u64| w.running.contains(a) && w.running.contains(b) ==> a == b
            &&& forall|a: u64| w.running.contains(a) ==> a == w.coordinator.session
                && w.coordinator.phase == Phase::Running
        }),
{
    lemma_world_inv_holds(moves);
    let w = world_run(initial_world(), moves);
    assert forall|a: u64| w.running.contains(a) implies a == w.coordinator.session
        && w.coordinator.phase == Phase::Running by {
        assert(!w.running.is_empty());
    }
}

/// Among the sessions that were not abandoned, at most one holds a surface
/// in its handoff slot, whatever the host reports and whatever the guests
/// do.
pub proof fn lemma_one_live_session_holds_a_surface(moves: Seq<Move>)
    ensures
        ({
            let w = world_run(initial_world(), moves);
            forall|a: u64, b: u64|
                w.holding.contains(a) && w.holding.contains(b) && !abandoned(w, a) && !abandoned(
                    w,
                    b,
                ) ==> a == b
        }),
{
    lemma_world_inv_holds(moves);
}

/// Whether, all along `moves`, each session that was stopped had already
/// given its surface to its guest.
pub open spec fn surfaces_taken_before_stop(moves: Seq<Move>) -> bool {
    forall|i: int|
        0 <= i < moves.len() ==> {
            let before = world_run(initial_world(), #[trigger] moves.take(i));
            moves[i] matches Move::Host(event) ==> (stops(step(before.coordinator, event).1)
                ==> !before.holding.contains(before.coordinator.session))
        }
}

proof fn lemma_only_current_holds(moves: Seq<Move>)
    requires
        surfaces_taken_before_stop(moves),
    ensures
        ({
            let w = world_run(initial_world(), moves);
            forall|session: u64| w.holding.contains(session) ==> session == w.coordinator.session
        }),
    decreases moves.len(),
{
    if moves.len() > 0 {
        let shorter = moves.drop_last();
        let before = world_run(initial_world(), shorter);
        assert forall|i: int| 0 <= i < shorter.len() implies {
            let w = world_run(initial_world(), #[trigger] shorter.take(i));
            shorter[i] matches Move::Host(event) ==> (stops(step(w.coordinator, event).1)
                ==> !w.holding.contains(w.coordinator.session))
        } by {
            assert(shorter.take(i) == moves.take(i));
        }
        lemma_only_current_holds(shorter);
        lemma_world_inv_holds(shorter);
        assert(moves.take(moves.len() - 1) == shorter);
        match moves.last() {
            Move::Host(event) => {
                lemma_effects(before.coordinator, event);
            },
            Move::GuestTakesSurface { session } => {},
        }
    }
}

/// If every session that is stopped has handed its surface to its guest by
/// then, at most one session in all holds a surface in its handoff slot.
pub proof fn lemma_one_session_holds_a_surface(moves: Seq<Move>)
    requires
        surfaces_taken_before_stop(moves),
    ensures
        ({
            let w = world_run(initial_world(), moves);
            forall|a: u64, b: u64| w.holding.contains(a) && w.holding.contains(b) ==> a == b
        }),
{
    lemma_only_current_holds(moves);
}

proof fn lemma_world_run_push(w: World, moves: Seq<Move>, m: Move)
    ensures
        world_run(w, moves.push(m)) == world_step(world_run(w, moves), m),
{
    assert(moves.push(m).drop_last() =~= moves);
}

/// The condition of [`lemma_one_session_holds_a_surface`] cannot be dropped:
/// a session that is stopped before its guest asked for the surface keeps
/// it, and the session spawned next then holds one as well.
pub proof fn lemma_abandoned_session_may_keep_its_surface()
    ensures
        ({
            let w = world_run(
                initial_world(),
                seq![
                    Move::Host(Event::SpawnRequested),
                    Move::Host(Event::WindowOpened { window: 1 }),
                    Move::Host(Event::StopRequested),
                    Move::Host(Event::SessionRebuilt),
                    Move::Host(Event::SpawnRequested),
                    Move::Host(Event::WindowOpened { window: 2 }),
                ],
            );
            w.holding.contains(0) && w.holding.contains(1) && w.running.contains(1)
                && !w.running.contains(0)
        }),
{
    let m1 = Move::Host(Event::SpawnRequested);
    let m2 = Move::Host(Event::WindowOpened { window: 1 });
    let m3 = Move::Host(Event::StopRequested);
    let m4 = Move::Host(Event::SessionRebuilt);
    let m5 = Move::Host(Event::SpawnRequested);
    let m6 = Move::Host(Event::WindowOpened { window: 2 });
    let none = Seq::<Move>::empty();
    let w0 = initial_world();
    assert(world_run(w0, none) == w0);
    lemma_world_run_push(w0, none, m1);
    let w1 = world_run(w0, none.push(m1));
    assert(w1.coordinator.phase == Phase::Spawning && w1.coordinator.session == 0);
    lemma_effects(w0.coordinator, Event::SpawnRequested);
    assert(w1.coordinator.wf());
    lemma_world_run_push(w0, none.push(m1), m2);
    let w2 = world_run(w0, none.push(m1).push(m2));
    lemma_effects(w1.coordinator, Event::WindowOpened { window: 1 });
    assert(w2.holding.contains(0));
    assert(w2.coordinator.phase == Phase::Running && w2.coordinator.wf());
    lemma_world_run_push(w0, none.push(m1).push(m2), m3);
    let w3 = world_run(w0, none.push(m1).push(m2).push(m3));
    lemma_effects(w2.coordinator, Event::StopRequested);
    assert(w3.holding.contains(0));
    assert(!w3.running.contains(0));
    assert(w3.coordinator.phase == Phase::StopRequested && w3.coordinator.session == 1
        && !w3.coordinator.queued && w3.coordinator.wf());
    lemma_world_run_push(w0, none.push(m1).push(m2).push(m3), m4);
    let w4 = world_run(w0, none.push(m1).push(m2).push(m3).push(m4));
    lemma_effects(w3.coordinator, Event::SessionRebuilt);
    assert(w4.coordinator.phase == Phase::Idle && w4.coordinator.ready && w4.coordinator.wf());
    assert(w4.holding.contains(0) && !w4.running.contains(0));
    lemma_world_run_push(w0, none.push(m1).push(m2).push(m3).push(m4), m5);
    let w5 = world_run(w0, none.push(m1).push(m2).push(m3).push(m4).push(m5));
    lemma_effects(w4.coordinator, Event::SpawnRequested);
    assert(w5.coordinator.phase == Phase::Spawning && w5.coordinator.session == 1
        && w5.coordinator.wf());
    assert(w5.holding.contains(0) && !w5.running.contains(0));
    lemma_world_run_push(w0, none.push(m1).push(m2).push(m3).push(m4).push(m5), m6);
    let w6 = world_run(w0, none.push(m1).push(m2).push(m3).push(m4).push(m5).push(m6));
    lemma_effects(w5.coordinator, Event::WindowOpened { window: 2 });
    assert(w6.holding.contains(0) && w6.holding.contains(1));
    assert(w6.running.contains(1) && !w6.running.contains(0));
    assert(seq![m1, m2, m3, m4, m5, m6] =~= none.push(m1).push(m2).push(m3).push(m4).push(
        m5,
    ).push(m6));
}

} // verus!
