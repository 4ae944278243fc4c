//! The window shell: the window's title, and when its event loop stops.
//!
//! The loop waits for events. A request to close the window ends it, with
//! exit code zero; nothing else that happens to the window is acted on.

use vstd::prelude::*;

verus! {

/// Title of the one window that is opened.
pub const WINDOW_TITLE: &'static str = "my window";

/// Exit code of a process whose window was closed.
pub const EXIT_ON_CLOSE: i32 = 0;

/// What an event of the window means to the loop.
#[derive(Clone, Copy, Debug, PartialEq, Eq, Structural)]
pub enum Signal {
    /// The user asked for the window to be closed.
    CloseRequested,
    /// Anything else: resizes, redraws, input. None of it is acted on; a
    /// resize in particular leaves the surface as it was configured.
    Other,
}

/// What the event loop does when the current iteration is over.
#[derive(Clone, Copy, Debug, PartialEq, Eq, Structural)]
pub enum ControlFlow {
    /// Start the next iteration at once.
    Poll,
    /// Sleep until the next event arrives.
    Wait,
    /// Stop the loop and end the process with this code.
    ExitWithCode(i32),
}

/// Whether the loop is still running.
#[derive(Clone, Copy, Debug, PartialEq, Eq, Structural)]
pub enum LoopState {
    Running,
    Exiting,
}

impl LoopState {
    /// The state after one more event. Only a close request moves a running
    /// loop, and nothing moves a loop that is exiting.
    pub open spec fn after(self, signal: Signal) -> LoopState {
        if self == LoopState::Running && signal == Signal::Other {
            LoopState::Running
        } else {
            LoopState::Exiting
        }
    }

    /// The state after `signals`, taken one after the other.
    pub open spec fn after_all(self, signals: Seq<Signal>) -> LoopState
        decreases signals.len(),
    {
        if signals.len() == 0 {
            self
        } else {
            self.after_all(signals.drop_last()).after(signals.last())
        }
    }

    /// What a loop in this state does at the end of an iteration.
    pub open spec fn control_flow(self) -> ControlFlow {
        match self {
            LoopState::Running => ControlFlow::Wait,
            LoopState::Exiting => ControlFlow::ExitWithCode(EXIT_ON_CLOSE),
        }
    }
}

/// Title to give the window when it is opened.
pub fn window_title() -> (title: &'static str)
    ensures
        title@ == WINDOW_TITLE@,
        title@.len() == 9,
{
    proof {
        reveal_strlit("my window");
    }
    WINDOW_TITLE
}

/// The state a loop starts in.
pub fn initial_state() -> (state: LoopState)
    ensures
        state == LoopState::Running,
        state == LoopState::Running.after_all(Seq::empty()),
{
    LoopState::Running
}

/// Handles one event of the window: gives the state the loop is in from now
/// on, and what the loop does when this iteration is over.
pub fn on_event(state: LoopState, signal: Signal) -> (next: (LoopState, ControlFlow))
    ensures
        next.0 == state.after(signal),
        next.1 == next.0.control_flow(),
        signal == Signal::CloseRequested ==> next.1 == ControlFlow::ExitWithCode(0),
{
    match (state, signal) {
        (LoopState::Running, Signal::Other) => (LoopState::Running, ControlFlow::Wait),
        _ => (LoopState::Exiting, ControlFlow::ExitWithCode(EXIT_ON_CLOSE)),
    }
}

/// A close request stops the loop within the iteration that receives it,
/// whatever state the loop was in, and the process then ends with code zero.
pub proof fn lemma_close_request_exits(state: LoopState)
    ensures
        state.after(Signal::CloseRequested) == LoopState::Exiting,
        state.after(Signal::CloseRequested).control_flow() == ControlFlow::ExitWithCode(0),
{
}

/// A loop that is exiting never runs again.
pub proof fn lemma_exiting_is_final(signals: Seq<Signal>)
    ensures
        LoopState::Exiting.after_all(signals) == LoopState::Exiting,
    decreases signals.len(),
{
    if signals.len() > 0 {
        lemma_exiting_is_final(signals.drop_last());
    }
}

/// A loop runs exactly as long as nobody has asked to close the window: after
/// any events it is still running if none of them was a close request, and
/// exiting if one was.
pub proof fn lemma_runs_until_close_request(signals: Seq<Signal>)
    ensures
        LoopState::Running.after_all(signals) == LoopState::Running <==> forall|i: int|
            0 <= i < signals.len() ==> signals[i] == Signal::Other,
        LoopState::Running.after_all(signals) == LoopState::Exiting <==> exists|i: int|
            0 <= i < signals.len() && signals[i] == Signal::CloseRequested,
    decreases signals.len(),
{
    if signals.len() > 0 {
        let earlier = signals.drop_last();
        lemma_runs_until_close_request(earlier);
        assert(forall|i: int| 0 <= i < earlier.len() ==> earlier[i] == signals[i]);
    }
}

} // verus!
