use vstd::prelude::*;

use crate::types::PRIORITY_DEFAULT;

verus! {

/// Who holds the strong reference of a source.
#[derive(PartialEq, Eq, Structural, Clone, Copy, Debug)]
pub enum SourceOwner {
    /// The local owned handle, before attach.
    Local,
    /// The context's own table, after attach; the local handle only borrows.
    Context,
}

/// One schedulable source as this layer arranges it: its priority, whether a
/// callback is installed, who owns it, and whether it was destroyed.
#[derive(PartialEq, Eq, Structural, Clone, Copy, Debug)]
pub struct SourceState {
    pub priority: i32,
    pub has_callback: bool,
    pub owner: SourceOwner,
    pub destroyed: bool,
}

impl SourceState {
    /// A source is destroyed only once attached.
    pub open spec fn wf(self) -> bool {
        self.destroyed ==> self.owner == SourceOwner::Context
    }

    /// A fresh source from a constructor (idle or timeout): owned locally, at
    /// the default priority, with no callback yet.
    pub fn new() -> (s: Self)
        ensures
            s.priority == PRIORITY_DEFAULT,
            !s.has_callback,
            s.owner == SourceOwner::Local,
            !s.destroyed,
            s.wf(),
    {
        SourceState {
            priority: PRIORITY_DEFAULT,
            has_callback: false,
            owner: SourceOwner::Local,
            destroyed: false,
        }
    }

    /// Installs a callback before attach; returns whether one was installed
    /// already, whose destructor the runtime then runs.
    pub fn set_callback(&mut self) -> (replaced: bool)
        requires
            old(self).owner == SourceOwner::Local,
        ensures
            replaced == old(self).has_callback,
            *final(self) == (SourceState { has_callback: true, ..*old(self) }),
    {
        let replaced = self.has_callback;
        self.has_callback = true;
        replaced
    }

    /// Sets the scheduling priority before attach.
    pub fn set_priority(&mut self, priority: i32)
        requires
            old(self).owner == SourceOwner::Local,
        ensures
            *final(self) == (SourceState { priority, ..*old(self) }),
    {
        self.priority = priority;
    }

    /// Hands the source to a context: the context takes over the reference
    /// that the local handle held, so no count moves.
    pub fn attach(&mut self)
        requires
            old(self).owner == SourceOwner::Local,
        ensures
            *final(self) == (SourceState { owner: SourceOwner::Context, ..*old(self) }),
    {
        self.owner = SourceOwner::Context;
    }

    /// Removes an attached source from its context; returns whether this call
    /// did it. Destroying it again does nothing.
    pub fn destroy(&mut self) -> (removed: bool)
        requires
            old(self).owner == SourceOwner::Context,
        ensures
            removed == !old(self).destroyed,
            *final(self) == (SourceState { destroyed: true, ..*old(self) }),
            final(self).wf(),
    {
        let removed = !self.destroyed;
        self.destroyed = true;
        removed
    }
}

} // verus!
