//! Sizes of the per-frame vertex and index storage.

use vstd::prelude::*;

verus! {

/// What a write into a slot asks of the caller.
#[derive(Clone, Copy, Debug, PartialEq, Eq, Structural)]
pub enum WriteAction {
    /// The slot's storage is large enough: upload into it.
    Reuse,
    /// The slot's storage is too small: replace it by storage for this many
    /// elements, then upload.
    Grow(u64),
}

/// The storage of one kind of buffer, one slot for each frame in flight. A
/// slot has a capacity, which only grows, and the number of elements that
/// the last write put there.
#[derive(Debug)]
pub struct DynamicBuffer {
    capacities: Vec<u64>,
    lengths: Vec<u64>,
}

/// The slots `s` with empty slots added at the end until there are `n`;
/// unchanged where there are `n` already.
pub open spec fn extended(s: Seq<u64>, n: int) -> Seq<u64> {
    if n <= s.len() {
        s
    } else {
        s + Seq::new((n - s.len()) as nat, |i: int| 0u64)
    }
}

impl DynamicBuffer {
    /// The capacity of each slot, in elements.
    pub closed spec fn capacities(&self) -> Seq<u64> {
        self.capacities@
    }

    /// The number of elements last written to each slot.
    pub closed spec fn lengths(&self) -> Seq<u64> {
        self.lengths@
    }

    /// Each slot has a capacity and a length, and what it holds fits in it.
    pub open spec fn wf(&self) -> bool {
        &&& self.capacities().len() == self.lengths().len()
        &&& forall|i: int|
            0 <= i < self.lengths().len() ==> #[trigger] self.lengths()[i] <= self.capacities()[i]
    }

    /// Storage of `slots` empty slots.
    pub fn new(slots: usize) -> (out: Self)
        ensures
            out.wf(),
            out.capacities() == Seq::new(slots as nat, |i: int| 0u64),
            out.lengths() == Seq::new(slots as nat, |i: int| 0u64),
    {
        let mut capacities: Vec<u64> = Vec::new();
        let mut lengths: Vec<u64> = Vec::new();
        let mut i: usize = 0;
        while i < slots
            invariant
                i <= slots,
                capacities@ == Seq::new(i as nat, |i: int| 0u64),
                lengths@ == Seq::new(i as nat, |i: int| 0u64),
            decreases slots - i,
        {
            capacities.push(0);
            lengths.push(0);
            i += 1;
            assert(capacities@ =~= Seq::new(i as nat, |i: int| 0u64));
            assert(lengths@ =~= Seq::new(i as nat, |i: int| 0u64));
        }
        DynamicBuffer { capacities, lengths }
    }

    /// Number of slots.
    pub fn slots(&self) -> (n: usize)
        ensures
            n == self.capacities().len(),
    {
        self.capacities.len()
    }

    /// Makes sure that there are at least `slots` slots: empty slots are
    /// added at the end, and the slots that exist are kept.
    pub fn ensure_slots(&mut self, slots: usize)
        requires
            old(self).wf(),
        ensures
            final(self).wf(),
            final(self).capacities() == extended(old(self).capacities(), slots as int),
            final(self).lengths() == extended(old(self).lengths(), slots as int),
    {
        while self.capacities.len() < slots
            invariant
                self.wf(),
                old(self).wf(),
                old(self).capacities().len() <= self.capacities@.len(),
                self.capacities@.len() <= slots || self.capacities@.len() == old(
                    self,
                ).capacities().len(),
                self.capacities@ == extended(old(self).capacities(), self.capacities@.len() as int),
                self.lengths@ == extended(old(self).lengths(), self.capacities@.len() as int),
            decreases slots - self.capacities.len(),
        {
            self.capacities.push(0);
            self.lengths.push(0);
            assert(self.capacities@ =~= extended(
                old(self).capacities(),
                self.capacities@.len() as int,
            ));
            assert(self.lengths@ =~= extended(old(self).lengths(), self.capacities@.len() as int));
        }
        assert(self.capacities@ =~= extended(old(self).capacities(), slots as int));
        assert(self.lengths@ =~= extended(old(self).lengths(), slots as int));
    }

    /// Capacity of slot `index`, in elements.
    pub fn capacity(&self, index: usize) -> (out: u64)
        requires
            self.wf(),
            index < self.capacities().len(),
        ensures
            out == self.capacities()[index as int],
    {
        self.capacities[index]
    }

    /// Number of elements last written to slot `index`.
    pub fn len(&self, index: usize) -> (out: u64)
        requires
            self.wf(),
            index < self.capacities().len(),
        ensures
            out == self.lengths()[index as int],
    {
        self.lengths[index]
    }

    /// Prepares slot `index` for `count` elements. The slot's capacity grows
    /// to `count` if it was smaller and is kept otherwise; the other slots
    /// are not touched.
    pub fn write(&mut self, index: usize, count: u64) -> (action: WriteAction)
        requires
            old(self).wf(),
            index < old(self).capacities().len(),
        ensures
            final(self).wf(),
            final(self).lengths() == old(self).lengths().update(index as int, count),
            final(self).capacities() == old(self).capacities().update(
                index as int,
                if count > old(self).capacities()[index as int] {
                    count
                } else {
                    old(self).capacities()[index as int]
                },
            ),
            action == if count > old(self).capacities()[index as int] {
                WriteAction::Grow(count)
            } else {
                WriteAction::Reuse
            },
    {
        let action = if count > self.capacities[index] {
            self.capacities.set(index, count);
            WriteAction::Grow(count)
        } else {
            WriteAction::Reuse
        };
        self.lengths.set(index, count);
        action
    }
}

/// Capacities only grow: after a write no slot is smaller than before, and
/// the slot written holds what was asked for.
pub proof fn lemma_write_grows_only(before: Seq<u64>, index: int, count: u64, i: int)
    requires
        0 <= index < before.len(),
        0 <= i < before.len(),
    ensures
        before.update(index, if count > before[index] { count } else { before[index] })[i]
            >= before[i],
        before.update(index, if count > before[index] { count } else { before[index] })[index]
            >= count,
{
}

} // verus!
