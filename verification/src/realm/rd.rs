//! The realm descriptor.

use vstd::prelude::*;

verus! {

/// What the monitor keeps of one realm.
#[derive(Debug)]
pub struct Rd {
    /// The identifier of the realm.
    pub id: usize,
    /// The base address of the realm's stage-2 translation table.
    pub s2_table: u64,
    /// The handles of the realm's virtual CPUs, in the order they were
    /// created.
    pub vcpus: Vec<usize>,
}

impl Rd {
    /// A realm without virtual CPUs.
    pub fn new(id: usize, s2_table: u64) -> (rd: Rd)
        ensures
            rd.id == id,
            rd.s2_table == s2_table,
            rd.vcpus@ == Seq::<usize>::empty(),
    {
        Rd { id, s2_table, vcpus: Vec::new() }
    }

    /// The identifier of the realm.
    pub fn id(&self) -> (id: usize)
        ensures
            id == self.id,
    {
        self.id
    }

    /// The base address of the realm's stage-2 translation table.
    pub fn s2_table(&self) -> (base: u64)
        ensures
            base == self.s2_table,
    {
        self.s2_table
    }
}

} // verus!
