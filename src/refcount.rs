use vstd::prelude::*;

verus! {

/// The reference count of one foreign object, as this layer moves it: each
/// owned reference holds one unit, taken on clone and given back on drop.
pub struct RefCount {
    count: u64,
}

impl View for RefCount {
    type V = nat;

    closed spec fn view(&self) -> nat {
        self.count as nat
    }
}

/// The count after an owned reference is cloned.
pub open spec fn after_clone(count: nat) -> nat {
    count + 1
}

/// The count after an owned reference is dropped.
pub open spec fn after_drop(count: nat) -> nat {
    (count - 1) as nat
}

impl RefCount {
    /// Adopts the one reference that a foreign constructor hands back, with no
    /// increment of its own.
    pub fn adopt() -> (r: Self)
        ensures
            r@ == 1,
    {
        RefCount { count: 1 }
    }

    /// The number of live references.
    pub fn count(&self) -> (r: u64)
        ensures
            r == self@,
    {
        self.count
    }

    /// Takes a new reference for a clone of an owned reference.
    pub fn inc_ref(&mut self)
        requires
            old(self)@ > 0,
            old(self)@ < u64::MAX,
        ensures
            final(self)@ == after_clone(old(self)@),
    {
        self.count = self.count + 1;
    }

    /// Gives back the reference of an owned reference that goes out of scope;
    /// returns whether that was the last one, so that the object is freed.
    pub fn dec_ref(&mut self) -> (freed: bool)
        requires
            old(self)@ > 0,
        ensures
            final(self)@ == after_drop(old(self)@),
            freed == (final(self)@ == 0),
    {
        self.count = self.count - 1;
        self.count == 0
    }
}

/// Cloning an owned reference and then dropping both the clone and the
/// original leaves the count one below where it was before the clone, and
/// dropping the clone alone gives it back exactly: a clone owns exactly one
/// unit of the count.
pub proof fn lemma_clone_drop_round_trip(count: nat)
    requires
        count > 0,
    ensures
        after_drop(after_clone(count)) == count,
        after_drop(after_drop(after_clone(count))) == count - 1,
{
}

} // verus!
