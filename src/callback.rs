use vstd::prelude::*;

use crate::types::{Gboolean, FALSE, TRUE};

verus! {

/// What a repeatable callback asks of the loop after it has run.
#[derive(PartialEq, Eq, Structural, Clone, Copy, Debug)]
pub enum CallbackResult {
    Remove,
    Continue,
}

/// The foreign boolean that tells the loop to keep (`TRUE`) or drop (`FALSE`)
/// a source after its callback returned `r`.
pub open spec fn result_flag(r: CallbackResult) -> Gboolean {
    match r {
        CallbackResult::Remove => FALSE,
        CallbackResult::Continue => TRUE,
    }
}

/// Translates a callback's result into the foreign boolean convention.
pub fn callback_result_flag(r: CallbackResult) -> (b: Gboolean)
    ensures
        b == result_flag(r),
{
    match r {
        CallbackResult::Remove => FALSE,
        CallbackResult::Continue => TRUE,
    }
}

/// Runs a repeatable callback once, in place, and reports to the loop whether
/// the source stays scheduled. The closure stays where it is, owned by the
/// caller, for the next dispatch.
pub fn dispatch_repeatable<F: FnMut() -> CallbackResult>(callback: &mut F) -> (b: Gboolean)
    requires
        call_requires(*old(callback), ()),
    ensures
        exists|r: CallbackResult|
            call_ensures(*old(callback), (), r) && b == result_flag(r),
{
    let r = callback();
    callback_result_flag(r)
}

} // verus!

verus! {

/// The state behind a one-shot callback: the closure until it has run, then
/// nothing. Taking it out is what keeps its body from running twice.
pub struct OnceCallback<F> {
    holder: Option<F>,
}

impl<F: FnOnce()> OnceCallback<F> {
    /// The closure that has not run yet, if any.
    pub closed spec fn pending(&self) -> Option<F> {
        self.holder
    }

    /// Holds `closure` until its first dispatch.
    pub fn new(closure: F) -> (s: Self)
        ensures
            s.pending() == Some(closure),
    {
        OnceCallback { holder: Some(closure) }
    }

    /// Whether the closure is still waiting to run.
    pub fn is_pending(&self) -> (b: bool)
        ensures
            b == (self.pending() is Some),
    {
        self.holder.is_some()
    }

    /// Takes the closure out, runs it, and tells the loop to drop the source.
    /// A second dispatch has nothing to run: the caller rules it out.
    pub fn fire(&mut self) -> (b: Gboolean)
        requires
            old(self).pending() is Some,
            call_requires(old(self).pending()->0, ()),
        ensures
            final(self).pending() is None,
            call_ensures(old(self).pending()->0, (), ()),
            b == FALSE,
    {
        let callback = self.holder.take();
        match callback {
            Some(f) => f(),
            None => {},
        }
        FALSE
    }
}

/// The two shapes of boxed callback: run on every dispatch until it asks to be
/// removed, or run once.
#[derive(PartialEq, Eq, Structural, Clone, Copy, Debug)]
pub enum CallbackShape {
    Repeatable,
    OneShot,
}

/// What happens to a source's callback from outside: the loop dispatches it
/// (and, for a repeatable one, it answers with a result), or the source is
/// destroyed.
#[derive(PartialEq, Eq, Structural, Clone, Copy, Debug)]
pub enum CallbackEvent {
    Dispatch(CallbackResult),
    Destroy,
}

/// What the layer does in answer to an event.
#[derive(PartialEq, Eq, Structural, Clone, Copy, Debug)]
pub enum CallbackAction {
    /// The closure ran and the source stays scheduled.
    Keep,
    /// The closure's memory is freed: its destructor runs.
    Release,
    /// Nothing runs.
    Ignore,
}

/// The life of one boxed callback on a source: how often its body has run,
/// whether it is still scheduled, and whether its destructor has run.
#[derive(PartialEq, Eq, Structural, Clone, Copy, Debug)]
pub struct CallbackLifecycle {
    pub shape: CallbackShape,
    pub runs: u64,
    pub released: bool,
}

impl CallbackLifecycle {
    /// A one-shot callback has run at most once, and once it has run it is
    /// released.
    pub open spec fn wf(self) -> bool {
        self.shape == CallbackShape::OneShot ==> (self.runs <= 1 && (self.runs == 1 ==> self.released))
    }

    pub open spec fn fresh(shape: CallbackShape) -> Self {
        CallbackLifecycle { shape, runs: 0, released: false }
    }

    /// The next state and the action for `e`.
    pub open spec fn step_spec(self, e: CallbackEvent) -> (Self, CallbackAction) {
        match e {
            CallbackEvent::Dispatch(r) => if self.released {
                (self, CallbackAction::Ignore)
            } else {
                let ran = CallbackLifecycle { runs: (self.runs + 1) as u64, ..self };
                if self.shape == CallbackShape::OneShot || r == CallbackResult::Remove {
                    (CallbackLifecycle { released: true, ..ran }, CallbackAction::Release)
                } else {
                    (ran, CallbackAction::Keep)
                }
            },
            CallbackEvent::Destroy => if self.released {
                (self, CallbackAction::Ignore)
            } else {
                (CallbackLifecycle { released: true, ..self }, CallbackAction::Release)
            },
        }
    }

    /// The state after a run of events.
    pub open spec fn run(self, events: Seq<CallbackEvent>) -> Self
        decreases events.len(),
    {
        if events.len() == 0 {
            self
        } else {
            self.step_spec(events[0]).0.run(events.drop_first())
        }
    }

    /// How many times the destructor runs over a run of events.
    pub open spec fn releases(self, events: Seq<CallbackEvent>) -> nat
        decreases events.len(),
    {
        if events.len() == 0 {
            0
        } else {
            let (next, action) = self.step_spec(events[0]);
            (if action == CallbackAction::Release { 1nat } else { 0nat }) + next.releases(
                events.drop_first(),
            )
        }
    }

    /// A callback just boxed: not run, not released.
    pub fn new(shape: CallbackShape) -> (s: Self)
        ensures
            s == Self::fresh(shape),
            s.wf(),
    {
        CallbackLifecycle { shape, runs: 0, released: false }
    }

    /// Whether the loop still holds the callback.
    pub fn is_scheduled(&self) -> (b: bool)
        ensures
            b == !self.released,
    {
        !self.released
    }

    /// Answers one event.
    pub fn step(&mut self, e: CallbackEvent) -> (a: CallbackAction)
        requires
            old(self).runs < u64::MAX,
        ensures
            (*final(self), a) == old(self).step_spec(e),
            old(self).wf() ==> final(self).wf(),
    {
        match e {
            CallbackEvent::Dispatch(r) => {
                if self.released {
                    CallbackAction::Ignore
                } else {
                    self.runs = self.runs + 1;
                    if self.shape == CallbackShape::OneShot || r == CallbackResult::Remove {
                        self.released = true;
                        CallbackAction::Release
                    } else {
                        CallbackAction::Keep
                    }
                }
            },
            CallbackEvent::Destroy => {
                if self.released {
                    CallbackAction::Ignore
                } else {
                    self.released = true;
                    CallbackAction::Release
                }
            },
        }
    }
}

/// `n` dispatches whose callback asks to stay scheduled.
pub open spec fn continues(n: nat) -> Seq<CallbackEvent> {
    Seq::new(n, |i: int| CallbackEvent::Dispatch(CallbackResult::Continue))
}

/// A step keeps a callback well formed.
pub proof fn lemma_step_wf(s: CallbackLifecycle, e: CallbackEvent)
    requires
        s.wf(),
    ensures
        s.step_spec(e).0.wf(),
        s.step_spec(e).0.shape == s.shape,
{
}

/// Every run of events keeps a callback well formed.
pub proof fn lemma_run_wf(s: CallbackLifecycle, events: Seq<CallbackEvent>)
    requires
        s.wf(),
    ensures
        s.run(events).wf(),
        s.run(events).shape == s.shape,
    decreases events.len(),
{
    if events.len() > 0 {
        lemma_step_wf(s, events[0]);
        lemma_run_wf(s.step_spec(events[0]).0, events.drop_first());
    }
}

/// The destructor of a boxed callback runs at most once, whatever the loop
/// and its users do: it has run once by the end of a run of events exactly
/// when the callback is released by then, and never twice.
pub proof fn lemma_release_exactly_once(s: CallbackLifecycle, events: Seq<CallbackEvent>)
    ensures
        (if s.released { 1nat } else { 0nat }) + s.releases(events) == (if s.run(events).released {
            1nat
        } else {
            0nat
        }),
    decreases events.len(),
{
    if events.len() > 0 {
        lemma_release_exactly_once(s.step_spec(events[0]).0, events.drop_first());
    }
}

/// A one-shot callback's body runs at most once, however many times the loop
/// dispatches it; it has run once as soon as it was dispatched before being
/// destroyed.
pub proof fn lemma_one_shot_runs_once(events: Seq<CallbackEvent>)
    ensures
        CallbackLifecycle::fresh(CallbackShape::OneShot).run(events).runs <= 1,
        events.len() > 0 && events[0] is Dispatch ==> CallbackLifecycle::fresh(
            CallbackShape::OneShot,
        ).run(events).runs == 1,
{
    let s = CallbackLifecycle::fresh(CallbackShape::OneShot);
    lemma_run_wf(s, events);
    if events.len() > 0 && events[0] is Dispatch {
        let next = s.step_spec(events[0]).0;
        assert(next.released && next.runs == 1);
        lemma_released_stays(next, events.drop_first());
    }
}

/// Once released, a callback neither runs nor is released again.
pub proof fn lemma_released_stays(s: CallbackLifecycle, events: Seq<CallbackEvent>)
    requires
        s.released,
    ensures
        s.run(events) == s,
        s.releases(events) == 0,
    decreases events.len(),
{
    if events.len() > 0 {
        lemma_released_stays(s, events.drop_first());
    }
}

/// Dispatches that answer "continue" each run the body once and keep the
/// callback scheduled, with no destructor run.
pub proof fn lemma_continues(s: CallbackLifecycle, n: nat)
    requires
        s.shape == CallbackShape::Repeatable,
        !s.released,
        s.runs + n <= u64::MAX,
    ensures
        s.run(continues(n)) == (CallbackLifecycle { runs: (s.runs + n) as u64, ..s }),
        s.releases(continues(n)) == 0,
    decreases n,
{
    if n > 0 {
        let next = s.step_spec(continues(n)[0]).0;
        assert(continues(n).drop_first() =~= continues((n - 1) as nat));
        lemma_continues(next, (n - 1) as nat);
    }
}

/// A repeatable callback that answers "continue" `n` times and then "remove"
/// runs exactly `n + 1` times, and its destructor runs exactly once, at the
/// last dispatch and not before.
pub proof fn lemma_continue_then_remove(n: nat)
    requires
        n < u64::MAX,
    ensures
        ({
            let s = CallbackLifecycle::fresh(CallbackShape::Repeatable);
            let events = continues(n).push(CallbackEvent::Dispatch(CallbackResult::Remove));
            &&& s.run(continues(n)).runs == n
            &&& !s.run(continues(n)).released
            &&& s.releases(continues(n)) == 0
            &&& s.run(events).runs == n + 1
            &&& s.run(events).released
            &&& s.releases(events) == 1
        }),
{
    let s = CallbackLifecycle::fresh(CallbackShape::Repeatable);
    let last = seq![CallbackEvent::Dispatch(CallbackResult::Remove)];
    lemma_continues(s, n);
    lemma_run_append(s, continues(n), last);
    assert(continues(n).push(CallbackEvent::Dispatch(CallbackResult::Remove)) =~= continues(n)
        + last);
    let mid = s.run(continues(n));
    assert(last.drop_first() =~= Seq::<CallbackEvent>::empty());
    let after = mid.step_spec(last[0]).0;
    assert(after.run(last.drop_first()) == after);
    assert(after.releases(last.drop_first()) == 0);
    assert(mid.run(last) == after);
    assert(after.runs == n + 1);
}

/// Running two runs of events one after the other is running their
/// concatenation.
pub proof fn lemma_run_append(
    s: CallbackLifecycle,
    a: Seq<CallbackEvent>,
    b: Seq<CallbackEvent>,
)
    ensures
        s.run(a + b) == s.run(a).run(b),
        s.releases(a + b) == s.releases(a) + s.run(a).releases(b),
    decreases a.len(),
{
    if a.len() > 0 {
        assert((a + b).drop_first() =~= a.drop_first() + b);
        assert((a + b)[0] == a[0]);
        lemma_run_append(s.step_spec(a[0]).0, a.drop_first(), b);
    } else {
        assert(a + b =~= b);
    }
}

} // verus!
