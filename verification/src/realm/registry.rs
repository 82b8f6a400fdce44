//! The identifiers of the realms that exist.

use crate::rmi::error::Error;
use std::collections::BTreeSet;
use vstd::prelude::*;

verus! {

/// The set of allocated realm identifiers. An identifier is a member at most
/// once.
#[derive(Debug)]
pub struct VmidSet {
    ids: BTreeSet<usize>,
}

impl View for VmidSet {
    type V = Set<usize>;

    closed spec fn view(&self) -> Set<usize> {
        self.ids@
    }
}

/// What removing `id` from `ids` reports: the identifier must be a member.
pub open spec fn removal(ids: Set<usize>, id: usize) -> Result<(), Error> {
    if ids.contains(id) {
        Ok(())
    } else {
        Err(Error::RmiErrorInput)
    }
}

impl VmidSet {
    /// No realm exists.
    pub fn new() -> (set: VmidSet)
        ensures
            set@ == Set::<usize>::empty(),
    {
        VmidSet { ids: BTreeSet::new() }
    }

    /// Allocates `id`. Says whether it was free; an identifier that is
    /// already allocated stays allocated once.
    pub fn insert(&mut self, id: usize) -> (fresh: bool)
        ensures
            fresh == !old(self)@.contains(id),
            final(self)@ == old(self)@.insert(id),
    {
        self.ids.insert(id)
    }

    /// Whether `id` is allocated.
    pub fn contains(&self, id: usize) -> (member: bool)
        ensures
            member == self@.contains(id),
    {
        self.ids.contains(&id)
    }

    /// Frees `id`. An identifier that is not allocated is refused as invalid
    /// input, and the set stays as it was.
    pub fn remove(&mut self, id: usize) -> (r: Result<(), Error>)
        ensures
            r == removal(old(self)@, id),
            final(self)@ == old(self)@.remove(id),
    {
        if self.ids.remove(&id) {
            Ok(())
        } else {
            Err(Error::RmiErrorInput)
        }
    }
}

/// An identifier that has just been allocated can be removed once: the
/// second removal is refused, as is the removal of an identifier that was
/// never allocated, which leaves the set unchanged.
pub proof fn lemma_remove_once(ids: Set<usize>, id: usize)
    ensures
        removal(ids.insert(id), id) is Ok,
        removal(ids.insert(id).remove(id), id) == Err::<(), Error>(Error::RmiErrorInput),
        !ids.contains(id) ==> removal(ids, id) == Err::<(), Error>(Error::RmiErrorInput)
            && ids.remove(id) == ids,
{
}

} // verus!
