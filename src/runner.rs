use vstd::prelude::*;

verus! {

/// Where a loop runner is in one run.
#[derive(PartialEq, Eq, Structural, Clone, Copy, Debug)]
pub enum RunnerPhase {
    Idle,
    ContextPushed,
    Running,
    ContextPopped,
    Finished,
}

/// The outside work a loop runner asks for, one step at a time.
#[derive(PartialEq, Eq, Structural, Clone, Copy, Debug)]
pub enum RunnerAction {
    /// Make the runner's context the calling thread's default.
    PushThreadDefault,
    /// Call the setup closure with a reference to the loop.
    CallSetup,
    /// Run the loop; this returns once the loop is quit.
    RunLoop,
    /// Restore the thread's previous default context.
    PopThreadDefault,
}

/// The decisions of a loop runner's run: which outside step comes next.
#[derive(PartialEq, Eq, Structural, Clone, Copy, Debug)]
pub struct RunnerState {
    pub phase: RunnerPhase,
    pub setup_called: bool,
}

impl RunnerState {
    /// The state after one step, and the step's outside work.
    pub open spec fn advance_spec(self) -> (Self, Option<RunnerAction>) {
        match self.phase {
            RunnerPhase::Idle => (
                RunnerState { phase: RunnerPhase::ContextPushed, setup_called: false },
                Some(RunnerAction::PushThreadDefault),
            ),
            RunnerPhase::ContextPushed => if self.setup_called {
                (
                    RunnerState { phase: RunnerPhase::Running, ..self },
                    Some(RunnerAction::RunLoop),
                )
            } else {
                (RunnerState { setup_called: true, ..self }, Some(RunnerAction::CallSetup))
            },
            RunnerPhase::Running => (
                RunnerState { phase: RunnerPhase::ContextPopped, ..self },
                Some(RunnerAction::PopThreadDefault),
            ),
            RunnerPhase::ContextPopped => (
                RunnerState { phase: RunnerPhase::Finished, ..self },
                None,
            ),
            RunnerPhase::Finished => (self, None),
        }
    }

    /// The outside work of `n` steps from this state, in order.
    pub open spec fn actions(self, n: nat) -> Seq<RunnerAction>
        decreases n,
    {
        if n == 0 {
            Seq::empty()
        } else {
            let (next, action) = self.advance_spec();
            match action {
                Some(a) => seq![a] + next.actions((n - 1) as nat),
                None => next.actions((n - 1) as nat),
            }
        }
    }

    /// The state after `n` steps.
    pub open spec fn after(self, n: nat) -> Self
        decreases n,
    {
        if n == 0 {
            self
        } else {
            self.advance_spec().0.after((n - 1) as nat)
        }
    }

    /// A runner that has not started.
    pub fn new() -> (s: Self)
        ensures
            s.phase == RunnerPhase::Idle,
            !s.setup_called,
    {
        RunnerState { phase: RunnerPhase::Idle, setup_called: false }
    }

    /// Takes one step: returns the outside work to do now, or `None` once the
    /// run is over.
    pub fn advance(&mut self) -> (a: Option<RunnerAction>)
        ensures
            (*final(self), a) == old(self).advance_spec(),
    {
        match self.phase {
            RunnerPhase::Idle => {
                self.phase = RunnerPhase::ContextPushed;
                self.setup_called = false;
                Some(RunnerAction::PushThreadDefault)
            },
            RunnerPhase::ContextPushed => {
                if self.setup_called {
                    self.phase = RunnerPhase::Running;
                    Some(RunnerAction::RunLoop)
                } else {
                    self.setup_called = true;
                    Some(RunnerAction::CallSetup)
                }
            },
            RunnerPhase::Running => {
                self.phase = RunnerPhase::ContextPopped;
                Some(RunnerAction::PopThreadDefault)
            },
            RunnerPhase::ContextPopped => {
                self.phase = RunnerPhase::Finished;
                None
            },
            RunnerPhase::Finished => None,
        }
    }

    /// Whether the run is over.
    pub fn is_finished(&self) -> (b: bool)
        ensures
            b == (self.phase == RunnerPhase::Finished),
    {
        match self.phase {
            RunnerPhase::Finished => true,
            _ => false,
        }
    }
}

/// A run from the start pushes the context, calls setup, runs the loop and
/// pops the context, in that order and each once, and then stays finished:
/// setup always sees the runner's context as the thread default, and the
/// thread's default is always restored.
pub proof fn lemma_run_order(extra: nat)
    ensures
        ({
            let s = RunnerState { phase: RunnerPhase::Idle, setup_called: false };
            &&& s.actions(5 + extra) == seq![
                RunnerAction::PushThreadDefault,
                RunnerAction::CallSetup,
                RunnerAction::RunLoop,
                RunnerAction::PopThreadDefault,
            ]
            &&& s.after(5 + extra).phase == RunnerPhase::Finished
        }),
{
    let s0 = RunnerState { phase: RunnerPhase::Idle, setup_called: false };
    let s1 = s0.advance_spec().0;
    let s2 = s1.advance_spec().0;
    let s3 = s2.advance_spec().0;
    let s4 = s3.advance_spec().0;
    let s5 = s4.advance_spec().0;
    lemma_finished_stays(s5, extra);
    assert(s4.after((1 + extra) as nat) == s5);
    assert(s3.after((2 + extra) as nat) == s5);
    assert(s2.after((3 + extra) as nat) == s5);
    assert(s1.after((4 + extra) as nat) == s5);
    assert(s0.after(5 + extra) == s5);
    assert(s4.actions((1 + extra) as nat) =~= Seq::<RunnerAction>::empty());
    assert(s3.actions((2 + extra) as nat) =~= seq![RunnerAction::PopThreadDefault]);
    assert(s2.actions((3 + extra) as nat) =~= seq![
        RunnerAction::RunLoop,
        RunnerAction::PopThreadDefault,
    ]);
    assert(s1.actions((4 + extra) as nat) =~= seq![
        RunnerAction::CallSetup,
        RunnerAction::RunLoop,
        RunnerAction::PopThreadDefault,
    ]);
    assert(s0.actions(5 + extra) =~= seq![
        RunnerAction::PushThreadDefault,
        RunnerAction::CallSetup,
        RunnerAction::RunLoop,
        RunnerAction::PopThreadDefault,
    ]);
}

/// A finished run asks for no more work.
proof fn lemma_finished_stays(s: RunnerState, n: nat)
    requires
        s.phase == RunnerPhase::Finished,
    ensures
        s.actions(n) == Seq::<RunnerAction>::empty(),
        s.after(n) == s,
    decreases n,
{
    if n > 0 {
        lemma_finished_stays(s, (n - 1) as nat);
    }
}

} // verus!
