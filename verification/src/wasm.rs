//! One runtime session: the handoff slot of its guest and the stages its run
//! goes through.
//!
//! Loading, instantiating and invoking a component are done by the host,
//! one piece of [`Work`] at a time. The session says which piece is next,
//! takes the [`Outcome`] in, and names the error a failure amounts to.

use crate::capability::HandoffSlot;
use crate::error::SessionError;
use vstd::prelude::*;

verus! {

/// How far the run of a session has come.
#[derive(Clone, Copy, Debug, PartialEq, Eq, Structural)]
pub enum Stage {
    /// Built and never run.
    Fresh,
    /// The surface is deposited; the component is being loaded.
    Loading,
    Instantiating,
    /// The entry point runs.
    Invoking,
    /// The entry point returned successfully.
    Completed,
    Failed(SessionError),
}

/// What the host has to do next for a running session.
#[derive(Clone, Copy, Debug, PartialEq, Eq, Structural)]
pub enum Work {
    /// Load the component from the session's module path.
    LoadComponent,
    /// Instantiate the component against the linker.
    Instantiate,
    /// Call the entry point and wait for it to return.
    InvokeEntry,
}

/// How a piece of work ended.
#[derive(Clone, Copy, Debug, PartialEq, Eq, Structural)]
pub enum Outcome {
    Succeeded,
    /// The call returned an error.
    Failed,
    /// Guest code trapped.
    Trapped,
}

/// Where a session stands after an outcome was taken in.
#[derive(Clone, Copy, Debug, PartialEq, Eq)]
pub enum Progress {
    Next(Work),
    Finished(Result<(), SessionError>),
    /// The session was never started.
    NotRunning,
}

/// The stage that follows `stage` when the work pending there ends in
/// `outcome`. A stage without pending work stays as it is.
pub open spec fn next_stage(stage: Stage, outcome: Outcome) -> Stage {
    match stage {
        Stage::Loading => match outcome {
            Outcome::Succeeded => Stage::Instantiating,
            _ => Stage::Failed(SessionError::ModuleNotFound),
        },
        Stage::Instantiating => match outcome {
            Outcome::Succeeded => Stage::Invoking,
            _ => Stage::Failed(SessionError::InstantiationError),
        },
        Stage::Invoking => match outcome {
            Outcome::Succeeded => Stage::Completed,
            Outcome::Failed => Stage::Failed(SessionError::EntryPointFailure),
            Outcome::Trapped => Stage::Failed(SessionError::GuestTrap),
        },
        _ => stage,
    }
}

/// What a session at `stage` tells the host.
pub open spec fn progress_at(stage: Stage) -> Progress {
    match stage {
        Stage::Fresh => Progress::NotRunning,
        Stage::Loading => Progress::Next(Work::LoadComponent),
        Stage::Instantiating => Progress::Next(Work::Instantiate),
        Stage::Invoking => Progress::Next(Work::InvokeEntry),
        Stage::Completed => Progress::Finished(Ok(())),
        Stage::Failed(error) => Progress::Finished(Err(error)),
    }
}

/// The stage reached from `stage` after all of `outcomes`, oldest first.
pub open spec fn stage_after(stage: Stage, outcomes: Seq<Outcome>) -> Stage
    decreases outcomes.len(),
{
    if outcomes.len() == 0 {
        stage
    } else {
        next_stage(stage_after(stage, outcomes.drop_last()), outcomes.last())
    }
}

/// A session as contracts see it.
pub struct SessionView<S> {
    pub stage: Stage,
    /// What the handoff slot holds.
    pub slot: Option<S>,
    /// The module the session was started on.
    pub path: Seq<char>,
}

/// What can be asked of a session.
pub enum Call<S> {
    /// [`Wasm::run_wasm`] with this surface.
    Run { path: Seq<char>, surface: S },
    /// [`Wasm::advance`] with this outcome.
    Advance(Outcome),
    /// [`Wasm::create_surface`].
    CreateSurface,
}

/// The session after `call`.
pub open spec fn after_call<S>(v: SessionView<S>, call: Call<S>) -> SessionView<S> {
    match call {
        Call::Run { path, surface } => if v.stage == Stage::Fresh {
            SessionView { stage: Stage::Loading, slot: Some(surface), path }
        } else {
            v
        },
        Call::Advance(outcome) => SessionView { stage: next_stage(v.stage, outcome), ..v },
        Call::CreateSurface => SessionView { slot: None, ..v },
    }
}

/// The state of a session that was just built.
pub open spec fn fresh_session<S>() -> SessionView<S> {
    SessionView { stage: Stage::Fresh, slot: None, path: Seq::<char>::empty() }
}

/// One guest's execution environment, as far as the host decides about it.
pub struct Wasm<S> {
    slot: HandoffSlot<S>,
    stage: Stage,
    path: String,
}

impl<S> View for Wasm<S> {
    type V = SessionView<S>;

    closed spec fn view(&self) -> SessionView<S> {
        SessionView { stage: self.stage, slot: self.slot@, path: self.path@ }
    }
}

impl<S> Wasm<S> {
    /// A session that has not run: its slot is empty and it has no module.
    pub fn new() -> (session: Self)
        ensures
            session@ == fresh_session::<S>(),
    {
        Wasm { slot: HandoffSlot::new(), stage: Stage::Fresh, path: String::new() }
    }

    /// Starts the run: deposits `surface` in the handoff slot, remembers
    /// the module, and asks for the component to be loaded. A session runs
    /// once; one that was started before refuses and hands the surface
    /// back.
    pub fn run_wasm(&mut self, wasm_path: String, surface: S) -> (started: Result<Work, S>)
        ensures
            final(self)@ == after_call(old(self)@, Call::Run { path: wasm_path@, surface }),
            started == if old(self)@.stage == Stage::Fresh {
                Ok::<Work, S>(Work::LoadComponent)
            } else {
                Err::<Work, S>(surface)
            },
    {
        if self.stage == Stage::Fresh {
            let _ = self.slot.deposit(surface);
            self.path = wasm_path;
            self.stage = Stage::Loading;
            Ok(Work::LoadComponent)
        } else {
            Err(surface)
        }
    }

    /// Takes in how the pending work ended and says what follows.
    pub fn advance(&mut self, outcome: Outcome) -> (progress: Progress)
        ensures
            final(self)@ == after_call(old(self)@, Call::Advance(outcome)),
            progress == progress_at(final(self)@.stage),
    {
        let next = match self.stage {
            Stage::Loading => match outcome {
                Outcome::Succeeded => Stage::Instantiating,
                _ => Stage::Failed(SessionError::ModuleNotFound),
            },
            Stage::Instantiating => match outcome {
                Outcome::Succeeded => Stage::Invoking,
                _ => Stage::Failed(SessionError::InstantiationError),
            },
            Stage::Invoking => match outcome {
                Outcome::Succeeded => Stage::Completed,
                Outcome::Failed => Stage::Failed(SessionError::EntryPointFailure),
                Outcome::Trapped => Stage::Failed(SessionError::GuestTrap),
            },
            stage => stage,
        };
        self.stage = next;
        self.progress()
    }

    /// What the session waits for, or how it ended.
    pub fn progress(&self) -> (progress: Progress)
        ensures
            progress == progress_at(self@.stage),
    {
        match self.stage {
            Stage::Fresh => Progress::NotRunning,
            Stage::Loading => Progress::Next(Work::LoadComponent),
            Stage::Instantiating => Progress::Next(Work::Instantiate),
            Stage::Invoking => Progress::Next(Work::InvokeEntry),
            Stage::Completed => Progress::Finished(Ok(())),
            Stage::Failed(error) => Progress::Finished(Err(error)),
        }
    }

    /// The surface capability of the guest: hands out the deposited
    /// surface and leaves the slot empty. Asked of an empty slot it reports
    /// a handoff violation.
    pub fn create_surface(&mut self) -> (surface: Result<S, SessionError>)
        ensures
            final(self)@ == after_call(old(self)@, Call::CreateSurface),
            surface == match old(self)@.slot {
                Some(deposited) => Ok::<S, SessionError>(deposited),
                None => Err::<S, SessionError>(SessionError::HandoffViolation),
            },
    {
        self.slot.take()
    }

    pub fn stage(&self) -> (stage: Stage)
        ensures
            stage == self@.stage,
    {
        self.stage
    }

    pub fn holds_surface(&self) -> (held: bool)
        ensures
            held == (self@.slot is Some),
    {
        !self.slot.is_empty()
    }

    /// The module the session was started on.
    pub fn wasm_path(&self) -> (path: &str)
        ensures
            path@ == self@.path,
    {
        self.path.as_str()
    }
}

/// The session after all of `calls`, oldest first.
pub open spec fn after_calls<S>(v: SessionView<S>, calls: Seq<Call<S>>) -> SessionView<S>
    decreases calls.len(),
{
    if calls.len() == 0 {
        v
    } else {
        after_call(after_calls(v, calls.drop_last()), calls.last())
    }
}

/// The surfaces that `calls` hand to the guest, in order: one for each
/// request for the surface that finds the slot filled.
pub open spec fn handed_out<S>(v: SessionView<S>, calls: Seq<Call<S>>) -> Seq<S>
    decreases calls.len(),
{
    if calls.len() == 0 {
        Seq::<S>::empty()
    } else {
        let before = after_calls(v, calls.drop_last());
        match (calls.last(), before.slot) {
            (Call::CreateSurface, Some(surface)) => handed_out(v, calls.drop_last()).push(
                surface,
            ),
            _ => handed_out(v, calls.drop_last()),
        }
    }
}

/// The surface accepted by the first run of the session, if it has run.
pub open spec fn accepted<S>(v: SessionView<S>, calls: Seq<Call<S>>) -> Option<S>
    decreases calls.len(),
{
    if calls.len() == 0 {
        None
    } else {
        match accepted(v, calls.drop_last()) {
            Some(surface) => Some(surface),
            None => match calls.last() {
                Call::Run { path, surface } => if after_calls(v, calls.drop_last()).stage
                    == Stage::Fresh {
                    Some(surface)
                } else {
                    None
                },
                _ => None,
            },
        }
    }
}

proof fn lemma_handoff_inv<S>(calls: Seq<Call<S>>)
    ensures
        ({
            let v = after_calls(fresh_session::<S>(), calls);
            let given = handed_out(fresh_session::<S>(), calls);
            let taken_in = accepted(fresh_session::<S>(), calls);
            &&& (v.stage == Stage::Fresh) == (taken_in is None)
            &&& taken_in is None ==> v.slot is None && given.len() == 0
            &&& taken_in matches Some(surface) ==> (v.slot == Some(surface) && given.len() == 0)
                || (v.slot is None && given == seq![surface])
        }),
    decreases calls.len(),
{
    if calls.len() > 0 {
        lemma_handoff_inv(calls.drop_last());
    }
}

/// A session hands its surface over exactly once: whatever is asked of it
/// and in whatever order, the guest is given at most one surface, and it is
/// the one the session accepted when its run began. A session that never
/// ran gives none.
pub proof fn lemma_surface_is_handed_out_once<S>(calls: Seq<Call<S>>)
    ensures
        handed_out(fresh_session::<S>(), calls).len() <= 1,
        handed_out(fresh_session::<S>(), calls).len() == 1 ==> accepted(
            fresh_session::<S>(),
            calls,
        ) == Some(handed_out(fresh_session::<S>(), calls)[0]),
        accepted(fresh_session::<S>(), calls) is None ==> handed_out(
            fresh_session::<S>(),
            calls,
        ).len() == 0,
{
    lemma_handoff_inv(calls);
}

/// A session that has finished stays finished, with the same result.
pub proof fn lemma_finished_is_final(stage: Stage, outcomes: Seq<Outcome>)
    requires
        stage is Completed || stage is Failed,
    ensures
        stage_after(stage, outcomes) == stage,
    decreases outcomes.len(),
{
    if outcomes.len() > 0 {
        lemma_finished_is_final(stage, outcomes.drop_last());
    }
}

/// A session that was never started is not moved by any outcome.
pub proof fn lemma_fresh_stays_fresh(outcomes: Seq<Outcome>)
    ensures
        stage_after(Stage::Fresh, outcomes) == Stage::Fresh,
    decreases outcomes.len(),
{
    if outcomes.len() > 0 {
        lemma_fresh_stays_fresh(outcomes.drop_last());
    }
}

/// A run completes exactly when loading, instantiating and invoking all
/// succeed, and each failure is named after the stage it happened in.
pub proof fn lemma_run_results(first: Outcome, second: Outcome, third: Outcome)
    ensures
        stage_after(Stage::Loading, seq![first]) == if first is Succeeded {
            Stage::Instantiating
        } else {
            Stage::Failed(SessionError::ModuleNotFound)
        },
        first is Succeeded ==> stage_after(Stage::Loading, seq![first, second])
            == if second is Succeeded {
            Stage::Invoking
        } else {
            Stage::Failed(SessionError::InstantiationError)
        },
        first is Succeeded && second is Succeeded ==> stage_after(
            Stage::Loading,
            seq![first, second, third],
        ) == match third {
            Outcome::Succeeded => Stage::Completed,
            Outcome::Failed => Stage::Failed(SessionError::EntryPointFailure),
            Outcome::Trapped => Stage::Failed(SessionError::GuestTrap),
        },
{
    let one = seq![first];
    let two = seq![first, second];
    let three = seq![first, second, third];
    assert(one.drop_last() =~= Seq::<Outcome>::empty());
    assert(two.drop_last() =~= one);
    assert(three.drop_last() =~= two);
    reveal_with_fuel(stage_after, 4);
}

} // verus!
