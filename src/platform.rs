//! The run loop shared by both clients, and the capability interface that
//! each client offers the application.

use vstd::prelude::*;

verus! {

/// The capabilities that both native clients offer. One of them is chosen at
/// startup; the application never asks which.
pub trait Client {
    type Display;
    type Window;
    type WindowHandle;
    type WindowOptions;

    /// Calls `on_finish_launching` once, then runs the event loop until quit
    /// is requested.
    fn run<F: FnOnce()>(&self, on_finish_launching: F);

    /// The displays of the live connection, enumerated anew on every call.
    fn displays(&self) -> Vec<Self::Display>;

    /// The display with native id `id`, if the connection has one.
    fn display(&self, id: u32) -> Option<Self::Display>;

    /// Allocates a native window, registers its state, and returns the
    /// application-facing window.
    fn open_window(&self, handle: Self::WindowHandle, options: Self::WindowOptions) -> Self::Window;
}

/// The ids of the displays of a connection with `screen_count` screens: one
/// per screen, numbered from zero in the connection's order.
pub fn display_ids(screen_count: u32) -> (r: Vec<u32>)
    ensures
        r@ == Seq::new(screen_count as nat, |i: int| i as u32),
{
    let mut ids: Vec<u32> = Vec::new();
    let mut i: u32 = 0;
    while i < screen_count
        invariant
            i <= screen_count,
            ids@ == Seq::new(i as nat, |k: int| k as u32),
        decreases screen_count - i,
    {
        ids.push(i);
        i = i + 1;
        assert(ids@ =~= Seq::new(i as nat, |k: int| k as u32));
    }
    ids
}

/// The screen that display `id` stands for, if the connection has it.
pub fn display_screen(id: u32, screen_count: u32) -> (r: Option<u32>)
    ensures
        r == if id < screen_count {
            Some(id)
        } else {
            None::<u32>
        },
{
    if id < screen_count {
        Some(id)
    } else {
        None
    }
}

/// Where the run loop stands.
#[derive(Clone, Copy, Debug, PartialEq, Eq, Structural)]
pub enum LoopPhase {
    /// `run` has not started.
    Idle,
    /// At the top of an iteration, where the quit flag is read.
    Top,
    /// An event was handled; the pending-task queue is next.
    EventHandled,
    /// Quit was observed; the loop has returned.
    Finished,
}

/// What the loop does next.
#[derive(Clone, Copy, Debug, PartialEq, Eq, Structural)]
pub enum LoopStep {
    /// Call the finish-launching continuation.
    Launch,
    /// Block for the next native event, then translate and route it.
    WaitForEvent,
    /// Run at most one pending main-thread task.
    DrainOneTask,
    /// Return from `run`.
    Exit,
}

pub open spec fn loop_step(phase: LoopPhase, quit_requested: bool) -> (LoopPhase, LoopStep) {
    match phase {
        LoopPhase::Idle => (LoopPhase::Top, LoopStep::Launch),
        LoopPhase::Top => if quit_requested {
            (LoopPhase::Finished, LoopStep::Exit)
        } else {
            (LoopPhase::EventHandled, LoopStep::WaitForEvent)
        },
        LoopPhase::EventHandled => (LoopPhase::Top, LoopStep::DrainOneTask),
        LoopPhase::Finished => (LoopPhase::Finished, LoopStep::Exit),
    }
}

/// The steps taken when the quit flag reads `quits[i]` at the i-th decision.
#[verifier::opaque]
pub open spec fn loop_steps(phase: LoopPhase, quits: Seq<bool>) -> Seq<LoopStep>
    decreases quits.len(),
{
    if quits.len() == 0 {
        Seq::empty()
    } else {
        let (next, step) = loop_step(phase, quits[0]);
        seq![step] + loop_steps(next, quits.drop_first())
    }
}

/// The decisions of the event loop: launch once, then, until the quit flag is
/// seen at the top of an iteration, wait for one event and drain at most one
/// task in turn. Quit is only ever observed at the top of an iteration; it
/// never interrupts a wait.
pub struct RunLoop {
    pub phase: LoopPhase,
}

impl RunLoop {
    pub fn new() -> (r: RunLoop)
        ensures
            r.phase == LoopPhase::Idle,
    {
        RunLoop { phase: LoopPhase::Idle }
    }

    /// The next step, given the quit flag as it reads now.
    pub fn next(&mut self, quit_requested: bool) -> (r: LoopStep)
        ensures
            (final(self).phase, r) == loop_step(old(self).phase, quit_requested),
    {
        match self.phase {
            LoopPhase::Idle => {
                self.phase = LoopPhase::Top;
                LoopStep::Launch
            },
            LoopPhase::Top => {
                if quit_requested {
                    self.phase = LoopPhase::Finished;
                    LoopStep::Exit
                } else {
                    self.phase = LoopPhase::EventHandled;
                    LoopStep::WaitForEvent
                }
            },
            LoopPhase::EventHandled => {
                self.phase = LoopPhase::Top;
                LoopStep::DrainOneTask
            },
            LoopPhase::Finished => LoopStep::Exit,
        }
    }

    /// Whether the loop has returned.
    pub fn is_finished(&self) -> (r: bool)
        ensures
            r == (self.phase == LoopPhase::Finished),
    {
        match self.phase {
            LoopPhase::Finished => true,
            _ => false,
        }
    }
}

proof fn lemma_unfold(phase: LoopPhase, quits: Seq<bool>, i: int)
    requires
        0 <= i < quits.len(),
    ensures
        loop_steps(phase, quits).len() == quits.len(),
        loop_steps(phase, quits)[0] == loop_step(phase, quits[0]).1,
        i > 0 ==> loop_steps(phase, quits)[i] == loop_steps(
            loop_step(phase, quits[0]).0,
            quits.drop_first(),
        )[i - 1],
{
    reveal(loop_steps);
    lemma_steps_len(loop_step(phase, quits[0]).0, quits.drop_first());
}

proof fn lemma_steps_len(phase: LoopPhase, quits: Seq<bool>)
    ensures
        loop_steps(phase, quits).len() == quits.len(),
    decreases quits.len(),
{
    reveal(loop_steps);
    if quits.len() > 0 {
        lemma_steps_len(loop_step(phase, quits[0]).0, quits.drop_first());
    }
}

/// Past `Idle`, no step is a launch, and a drain comes only right after an
/// event is handled.
proof fn lemma_step_at(phase: LoopPhase, quits: Seq<bool>, i: int)
    requires
        phase != LoopPhase::Idle,
        0 <= i < quits.len(),
    ensures
        loop_steps(phase, quits)[i] != LoopStep::Launch,
        loop_steps(phase, quits)[i] == LoopStep::DrainOneTask ==> (i == 0 && phase
            == LoopPhase::EventHandled) || (i > 0 && loop_steps(phase, quits)[i - 1]
            == LoopStep::WaitForEvent),
    decreases i,
{
    let next = loop_step(phase, quits[0]).0;
    lemma_unfold(phase, quits, i);
    if i > 0 {
        lemma_step_at(next, quits.drop_first(), i - 1);
        if i > 1 {
            lemma_unfold(phase, quits, i - 1);
        }
    }
}

/// From `Finished`, every step is an exit.
proof fn lemma_finished(quits: Seq<bool>, i: int)
    requires
        0 <= i < quits.len(),
    ensures
        loop_steps(LoopPhase::Finished, quits)[i] == LoopStep::Exit,
    decreases i,
{
    lemma_unfold(LoopPhase::Finished, quits, i);
    if i > 0 {
        lemma_finished(quits.drop_first(), i - 1);
    }
}

/// After an exit, every later step is an exit.
proof fn lemma_exit_stays(phase: LoopPhase, quits: Seq<bool>, i: int, j: int)
    requires
        0 <= i < j < quits.len(),
        loop_steps(phase, quits)[i] == LoopStep::Exit,
    ensures
        loop_steps(phase, quits)[j] == LoopStep::Exit,
    decreases i,
{
    let next = loop_step(phase, quits[0]).0;
    lemma_unfold(phase, quits, j);
    lemma_unfold(phase, quits, i);
    if i == 0 {
        lemma_finished(quits.drop_first(), j - 1);
    } else {
        lemma_exit_stays(next, quits.drop_first(), i - 1, j - 1);
    }
}

/// From the start of `run`, whatever the quit flag reads: the continuation is
/// called first and never again, every task drain directly follows the
/// handling of one event, and once the loop exits it takes no other step.
pub proof fn lemma_loop_discipline(quits: Seq<bool>)
    ensures
        quits.len() > 0 ==> loop_steps(LoopPhase::Idle, quits)[0] == LoopStep::Launch,
        forall|i: int|
            0 < i < quits.len() ==> #[trigger] loop_steps(LoopPhase::Idle, quits)[i]
                != LoopStep::Launch,
        forall|i: int, j: int|
            0 <= i && j == i + 1 && j < quits.len() && #[trigger] loop_steps(LoopPhase::Idle, quits)[j]
                == LoopStep::DrainOneTask ==> #[trigger] loop_steps(LoopPhase::Idle, quits)[i]
                == LoopStep::WaitForEvent,
        forall|i: int, j: int|
            0 <= i < j < quits.len() && #[trigger] loop_steps(LoopPhase::Idle, quits)[i]
                == LoopStep::Exit ==> #[trigger] loop_steps(LoopPhase::Idle, quits)[j]
                == LoopStep::Exit,
{
    let steps = loop_steps(LoopPhase::Idle, quits);
    if quits.len() > 0 {
        lemma_unfold(LoopPhase::Idle, quits, 0);
    }
    assert forall|i: int| 0 < i < quits.len() implies #[trigger] steps[i] != LoopStep::Launch by {
        lemma_unfold(LoopPhase::Idle, quits, i);
        lemma_step_at(LoopPhase::Top, quits.drop_first(), i - 1);
    }
    assert forall|i: int, j: int|
        0 <= i && j == i + 1 && j < quits.len() && #[trigger] steps[j] == LoopStep::DrainOneTask implies #[trigger] steps[i]
        == LoopStep::WaitForEvent by {
        lemma_unfold(LoopPhase::Idle, quits, j);
        lemma_step_at(LoopPhase::Top, quits.drop_first(), j - 1);
        lemma_unfold(LoopPhase::Idle, quits, i);
    }
    assert forall|i: int, j: int|
        0 <= i < j < quits.len() && #[trigger] steps[i] == LoopStep::Exit implies #[trigger] steps[j]
        == LoopStep::Exit by {
        lemma_exit_stays(LoopPhase::Idle, quits, i, j);
    }
}

} // verus!
