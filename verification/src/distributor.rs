//! The order in which a snapshot goes out to the workers.
//!
//! Every worker is registered once and gets a slot; slots are numbered in the
//! order of registration. A snapshot is handed to one worker at a time, in
//! that order, and to each worker once. A worker whose delivery failed has
//! ended: its slot is closed, and it gets nothing from then on.
//!
//! The distributor hands out slot numbers only. Whoever drives it owns the
//! channels and waits on them.

use vstd::prelude::*;

verus! {

/// The open slots at or after `from`, in rising order.
pub open spec fn open_from(closed: Seq<bool>, from: int) -> Seq<int>
    decreases closed.len() - from,
{
    if from < 0 || from >= closed.len() {
        Seq::empty()
    } else if closed[from] {
        open_from(closed, from + 1)
    } else {
        seq![from] + open_from(closed, from + 1)
    }
}

/// The distributor as a mathematical value: for each slot whether it is
/// closed, and the slot at which the running cycle goes on.
pub ghost struct DistributorView {
    pub closed: Seq<bool>,
    pub cursor: int,
}

impl DistributorView {
    /// The slots that the running cycle has yet to serve, in order.
    pub open spec fn remaining(self) -> Seq<int> {
        open_from(self.closed, self.cursor)
    }
}

/// Hands out, cycle by cycle, the slots to deliver a snapshot to.
pub struct Distributor {
    closed: Vec<bool>,
    cursor: usize,
}

impl View for Distributor {
    type V = DistributorView;

    closed spec fn view(&self) -> DistributorView {
        DistributorView { closed: self.closed@, cursor: self.cursor as int }
    }
}

impl Distributor {
    /// A distributor without workers, before its first cycle.
    pub fn new() -> (distributor: Distributor)
        ensures
            distributor@ == (DistributorView { closed: Seq::empty(), cursor: 0 }),
    {
        Distributor { closed: Vec::new(), cursor: 0 }
    }

    /// Registers one more worker and hands back its slot, which is the number
    /// of workers registered before it.
    pub fn register(&mut self) -> (slot: usize)
        ensures
            slot == old(self)@.closed.len(),
            final(self)@ == (DistributorView {
                closed: old(self)@.closed.push(false),
                ..old(self)@
            }),
    {
        let slot = self.closed.len();
        self.closed.push(false);
        slot
    }

    /// The number of workers registered so far, ended ones included.
    pub fn len(&self) -> (n: usize)
        ensures
            n == self@.closed.len(),
    {
        self.closed.len()
    }

    /// Begins the cycle of a new snapshot: every open slot is to be served.
    pub fn begin_cycle(&mut self)
        ensures
            final(self)@ == (DistributorView { cursor: 0, ..old(self)@ }),
            final(self)@.remaining() == open_from(old(self)@.closed, 0),
    {
        self.cursor = 0;
    }

    /// Hands out the slot to deliver to next, or `None` when the cycle has
    /// served every open slot.
    pub fn next(&mut self) -> (slot: Option<usize>)
        ensures
            final(self)@.closed == old(self)@.closed,
            match slot {
                Some(i) => old(self)@.remaining().len() > 0 && i == old(self)@.remaining()[0]
                    && final(self)@.remaining() == old(self)@.remaining().drop_first()
                    && final(self)@.cursor == i + 1,
                None => old(self)@.remaining().len() == 0 && final(self)@.remaining().len() == 0,
            },
    {
        while self.cursor < self.closed.len() && self.closed[self.cursor]
            invariant
                self.closed == old(self).closed,
                self@.remaining() == old(self)@.remaining(),
            decreases self.closed.len() - self.cursor,
        {
            self.cursor += 1;
        }
        if self.cursor < self.closed.len() {
            let slot = self.cursor;
            self.cursor += 1;
            Some(slot)
        } else {
            None
        }
    }

    /// Closes the slot of a worker that has ended. A slot that was never
    /// handed out is no slot, and closing it changes nothing.
    pub fn close(&mut self, slot: usize)
        ensures
            final(self)@.cursor == old(self)@.cursor,
            final(self)@.closed == if slot < old(self)@.closed.len() {
                old(self)@.closed.update(slot as int, true)
            } else {
                old(self)@.closed
            },
    {
        if slot < self.closed.len() {
            self.closed[slot] = true;
        }
    }

    /// Whether the slot is closed. A slot that was never handed out counts as closed.
    pub fn is_closed(&self, slot: usize) -> (closed: bool)
        ensures
            closed == (slot >= self@.closed.len() || self@.closed[slot as int]),
    {
        slot >= self.closed.len() || self.closed[slot]
    }
}

/// A cycle serves exactly the open slots at or after its starting point, in
/// rising order and therefore each once.
pub proof fn law_open_slots_in_order(closed: Seq<bool>, from: int)
    requires
        0 <= from,
    ensures
        forall|i: int|
            #[trigger] open_from(closed, from).contains(i) <==> from <= i < closed.len()
                && !closed[i],
        forall|a: int, b: int|
            0 <= a < b < open_from(closed, from).len() ==> open_from(closed, from)[a]
                < open_from(closed, from)[b],
    decreases closed.len() - from,
{
    let slots = open_from(closed, from);
    if from < closed.len() {
        let rest = open_from(closed, from + 1);
        law_open_slots_in_order(closed, from + 1);
        if !closed[from] {
            assert(slots.len() == rest.len() + 1);
            assert(slots[0] == from);
            assert(forall|k: int| 0 < k < slots.len() ==> slots[k] == rest[k - 1]);
            assert forall|i: int| slots.contains(i) implies from <= i < closed.len()
                && !closed[i] by {
                let k = choose|k: int| 0 <= k < slots.len() && slots[k] == i;
                if k > 0 {
                    assert(rest[k - 1] == i);
                    assert(rest.contains(i));
                }
            }
            assert forall|i: int| from <= i < closed.len() && !closed[i] implies slots.contains(
                i,
            ) by {
                if i == from {
                    assert(slots[0] == i);
                } else {
                    assert(rest.contains(i));
                    let k = choose|k: int| 0 <= k < rest.len() && rest[k] == i;
                    assert(slots[k + 1] == i);
                }
            }
            assert forall|a: int, b: int| 0 <= a < b < slots.len() implies slots[a]
                < slots[b] by {
                assert(slots[b] == rest[b - 1]);
                assert(rest.contains(rest[b - 1]));
                if a > 0 {
                    assert(slots[a] == rest[a - 1]);
                }
            }
        }
    }
}

/// Closing a slot that the cycle has passed leaves what remains of the cycle as it was.
pub proof fn law_closing_a_served_slot_keeps_the_rest(distributor: DistributorView, slot: int)
    requires
        0 <= slot < distributor.cursor,
        slot < distributor.closed.len(),
    ensures
        (DistributorView {
            closed: distributor.closed.update(slot, true),
            ..distributor
        }).remaining() == distributor.remaining(),
{
    lemma_open_from_ignores_earlier_slots(distributor.closed, slot, distributor.cursor);
}

proof fn lemma_open_from_ignores_earlier_slots(closed: Seq<bool>, slot: int, from: int)
    requires
        0 <= slot < from,
        slot < closed.len(),
    ensures
        open_from(closed.update(slot, true), from) == open_from(closed, from),
    decreases closed.len() - from,
{
    if from < closed.len() {
        lemma_open_from_ignores_earlier_slots(closed, slot, from + 1);
    }
}

} // verus!
