//! The list of quota groups that a new subvolume or snapshot inherits from.

use vstd::prelude::*;
use crate::error::Error;
use crate::error::NO_MEMORY;

verus! {

/// The most identifiers a list can hold: one word less than a buffer can,
/// since the buffer opens with their count.
pub open spec fn max_qgroups() -> int {
    usize::MAX - 1
}

/// What a list of identifiers looks like in one buffer: their count, then the
/// identifiers in their order.
pub open spec fn serialized(ids: Seq<u64>) -> Seq<u64> {
    seq![ids.len() as u64] + ids
}

/// The identifiers of the quota groups to inherit from, in the order in which
/// they were added. An identifier added twice stands twice.
#[derive(Debug)]
pub struct QgroupInherit {
    ids: Vec<u64>,
}

/// A list of quota groups in the form in which one creating call takes it.
#[derive(Debug)]
pub struct QgroupBuffer {
    words: Vec<u64>,
}

impl View for QgroupInherit {
    type V = Seq<u64>;

    closed spec fn view(&self) -> Seq<u64> {
        self.ids@
    }
}

impl View for QgroupBuffer {
    type V = Seq<u64>;

    closed spec fn view(&self) -> Seq<u64> {
        self.words@
    }
}

impl QgroupInherit {
    /// A list is well formed while its buffer would still fit in memory.
    pub closed spec fn wf(&self) -> bool {
        self.ids@.len() <= max_qgroups()
    }

    /// The empty list.
    pub fn new() -> (q: QgroupInherit)
        ensures
            q.wf(),
            q@ == Seq::<u64>::empty(),
    {
        QgroupInherit { ids: Vec::new() }
    }

    /// How many identifiers the list holds.
    pub fn len(&self) -> (n: usize)
        ensures
            n == self@.len(),
    {
        self.ids.len()
    }

    /// Appends `qgroup_id`. Fails with `NO_MEMORY`, and leaves the list as it
    /// was, exactly when the list is already as long as a list can be.
    pub fn add(&mut self, qgroup_id: u64) -> (r: Result<(), Error>)
        requires
            old(self).wf(),
        ensures
            final(self).wf(),
            old(self)@.len() < max_qgroups() ==> r == Ok::<(), Error>(()) && final(self)@ == old(self)@.push(qgroup_id),
            old(self)@.len() >= max_qgroups() ==> r == Err::<(), Error>(Error(NO_MEMORY))
                && final(self)@ == old(self)@,
    {
        if self.ids.len() >= usize::MAX - 1 {
            return Err(Error(NO_MEMORY));
        }
        self.ids.push(qgroup_id);
        Ok(())
    }

    /// Gives the list up for its buffer: the count, then the identifiers as
    /// they were added.
    pub fn serialize(self) -> (buf: QgroupBuffer)
        requires
            self.wf(),
        ensures
            buf@ == serialized(self@),
            buf.wf(),
            buf.spec_ids() == self@,
    {
        let n: usize = self.ids.len();
        let mut words: Vec<u64> = Vec::new();
        words.push(n as u64);
        let mut ids = self.ids;
        words.append(&mut ids);
        assert(words@ =~= serialized(self@));
        assert(words@.subrange(1, words@.len() as int) =~= self@);
        QgroupBuffer { words }
    }
}

impl QgroupBuffer {
    /// A buffer opens with the count of the identifiers that follow it.
    pub open spec fn wf(&self) -> bool {
        self@.len() >= 1 && self@[0] == self@.len() - 1
    }

    /// The identifiers in the buffer.
    pub open spec fn spec_ids(&self) -> Seq<u64> {
        self@.subrange(1, self@.len() as int)
    }

    /// The number of identifiers in the buffer.
    pub fn count(&self) -> (n: u64)
        requires
            self.wf(),
        ensures
            n == self.spec_ids().len(),
    {
        self.words[0]
    }

    /// The identifier at place `i`.
    pub fn id(&self, i: usize) -> (id: u64)
        requires
            self.wf(),
            i < self.spec_ids().len(),
        ensures
            id == self.spec_ids()[i as int],
    {
        let n: usize = self.words.len();
        assert(self.spec_ids().len() == n - 1);
        self.words[i + 1]
    }

    /// The whole buffer, word by word.
    pub fn as_words(&self) -> (w: &Vec<u64>)
        ensures
            w@ == self@,
    {
        &self.words
    }
}

/// A buffer holds exactly the identifiers that were added, as many and in
/// the same order, whatever they are.
pub proof fn lemma_serialized_keeps_order(ids: Seq<u64>)
    requires
        ids.len() <= max_qgroups(),
    ensures
        serialized(ids).len() == ids.len() + 1,
        serialized(ids)[0] == ids.len(),
        forall|i: int| 0 <= i < ids.len() ==> serialized(ids)[i + 1] == ids[i],
{
}

} // verus!
