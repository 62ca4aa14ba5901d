//! The animation pump: a thread of its own that tells the guest, at a fixed
//! interval, that a frame may be drawn, until it is told to stop.
//!
//! The thread itself belongs to the host. What it does in each round is
//! decided here.

use vstd::prelude::*;

verus! {

/// Milliseconds the pump sleeps after each tick.
pub const TICK_INTERVAL_MS: u64 = 16;

/// What the pump does after it has looked at its stop channel.
#[derive(Clone, Copy, Debug, PartialEq, Eq, Structural)]
pub enum PumpStep {
    /// Signal one animation frame, then sleep for `sleep_ms` milliseconds.
    Tick { sleep_ms: u64 },
    /// Leave the loop; the thread ends.
    Exit,
}

pub open spec fn pump_decision(stop_signalled: bool) -> PumpStep {
    if stop_signalled {
        PumpStep::Exit
    } else {
        PumpStep::Tick { sleep_ms: TICK_INTERVAL_MS }
    }
}

/// One round of the pump. `stop_signalled` says whether the non-blocking
/// look at the stop channel found a signal.
pub fn pump_step(stop_signalled: bool) -> (step: PumpStep)
    ensures
        step == pump_decision(stop_signalled),
{
    if stop_signalled {
        PumpStep::Exit
    } else {
        PumpStep::Tick { sleep_ms: TICK_INTERVAL_MS }
    }
}

/// Where the pump thread stands.
pub enum PumpPhase {
    /// About to look at the stop channel.
    Polling,
    /// Found no signal; about to tick and to sleep for `sleep_ms`
    /// milliseconds.
    Ticking { sleep_ms: u64 },
    Exited,
}

/// A pump thread next to the coordinator that may stop it.
pub struct PumpRun {
    pub phase: PumpPhase,
    /// The coordinator has notified the pump's stop channel.
    pub stop_sent: bool,
    /// Ticks signalled so far.
    pub ticks: nat,
    /// Ticks signalled after the stop was sent.
    pub late_ticks: nat,
    /// Milliseconds of sleep begun after the stop was sent.
    pub late_sleep_ms: nat,
}

/// The two threads take turns in any order.
pub enum PumpMove {
    /// The coordinator notifies the stop channel.
    StopSent,
    /// The pump thread performs its next operation.
    PumpAdvances,
}

pub open spec fn pump_start() -> PumpRun {
    PumpRun {
        phase: PumpPhase::Polling,
        stop_sent: false,
        ticks: 0,
        late_ticks: 0,
        late_sleep_ms: 0,
    }
}

pub open spec fn pump_move(r: PumpRun, m: PumpMove) -> PumpRun {
    match m {
        PumpMove::StopSent => PumpRun { stop_sent: true, ..r },
        PumpMove::PumpAdvances => match r.phase {
            PumpPhase::Polling => match pump_decision(r.stop_sent) {
                PumpStep::Exit => PumpRun { phase: PumpPhase::Exited, ..r },
                PumpStep::Tick { sleep_ms } => PumpRun {
                    phase: PumpPhase::Ticking { sleep_ms },
                    ..r
                },
            },
            PumpPhase::Ticking { sleep_ms } => PumpRun {
                phase: PumpPhase::Polling,
                ticks: r.ticks + 1,
                late_ticks: if r.stop_sent {
                    r.late_ticks + 1
                } else {
                    r.late_ticks
                },
                late_sleep_ms: if r.stop_sent {
                    (r.late_sleep_ms + sleep_ms) as nat
                } else {
                    r.late_sleep_ms
                },
                ..r
            },
            PumpPhase::Exited => r,
        },
    }
}

pub open spec fn pump_run(r: PumpRun, moves: Seq<PumpMove>) -> PumpRun
    decreases moves.len(),
{
    if moves.len() == 0 {
        r
    } else {
        pump_move(pump_run(r, moves.drop_last()), moves.last())
    }
}

/// How many operations the pump thread performs in `moves`.
pub open spec fn pump_operations(moves: Seq<PumpMove>) -> nat
    decreases moves.len(),
{
    if moves.len() == 0 {
        0
    } else {
        pump_operations(moves.drop_last()) + if moves.last() is PumpAdvances {
            1nat
        } else {
            0nat
        }
    }
}

/// What holds of a pump at every moment: no tick counts as late before the
/// stop was sent, a late tick is followed by nothing but the look that
/// ends the thread, and every tick is followed by one interval of sleep.
pub open spec fn pump_inv(r: PumpRun) -> bool {
    &&& r.late_ticks <= 1
    &&& !r.stop_sent ==> r.late_ticks == 0
    &&& r.late_ticks == 1 ==> !(r.phase is Ticking)
    &&& r.late_sleep_ms == r.late_ticks * TICK_INTERVAL_MS
    &&& r.phase matches PumpPhase::Ticking { sleep_ms } ==> sleep_ms == TICK_INTERVAL_MS
}

proof fn lemma_pump_inv_holds(moves: Seq<PumpMove>)
    ensures
        pump_inv(pump_run(pump_start(), moves)),
    decreases moves.len(),
{
    if moves.len() > 0 {
        lemma_pump_inv_holds(moves.drop_last());
    }
}

/// However the two threads interleave, the pump ticks at most once more
/// after the stop signal was sent, and sleeps at most one interval.
pub proof fn lemma_at_most_one_tick_after_stop(moves: Seq<PumpMove>)
    ensures
        pump_run(pump_start(), moves).late_ticks <= 1,
        pump_run(pump_start(), moves).late_sleep_ms <= TICK_INTERVAL_MS,
{
    lemma_pump_inv_holds(moves);
}

/// Once the stop signal is out, two operations of the pump thread are
/// enough for it to have exited: at most the tick already decided on, then
/// the look that finds the signal.
pub proof fn lemma_pump_exits_after_stop(r: PumpRun, moves: Seq<PumpMove>)
    requires
        r.stop_sent,
        pump_operations(moves) >= 2,
    ensures
        pump_run(r, moves).phase is Exited,
{
    lemma_pump_winds_down(r, moves);
}

proof fn lemma_pump_winds_down(r: PumpRun, moves: Seq<PumpMove>)
    requires
        r.stop_sent,
    ensures
        pump_run(r, moves).stop_sent,
        pump_operations(moves) >= 1 ==> !(pump_run(r, moves).phase is Ticking),
        pump_operations(moves) >= 2 ==> pump_run(r, moves).phase is Exited,
        r.phase is Exited ==> pump_run(r, moves).phase is Exited,
        !(r.phase is Ticking) ==> !(pump_run(r, moves).phase is Ticking),
    decreases moves.len(),
{
    if moves.len() > 0 {
        lemma_pump_winds_down(r, moves.drop_last());
    }
}

} // verus!
