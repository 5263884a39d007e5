//! A single-slot rendezvous between two tasks: one pushes, the other pops,
//! and a value that has not been popped holds the next push back.
//!
//! The slot is a plain value owned by whoever runs the two tasks. Each task
//! owns one capability for the program's lifetime and presents it, with the
//! slot, at every poll. All of this happens in task context with no
//! suspension between the check of the slot and its update, so plain reads
//! and writes suffice.

use vstd::prelude::*;

verus! {

/// A channel that has been built and not split yet.
pub struct Handoff<T> {
    slot: Slot<T>,
}

/// The slot of a split channel: empty, or full with one value, and who is
/// suspended on it.
pub struct Slot<T> {
    value: Option<T>,
    producer_suspended: bool,
    consumer_suspended: bool,
}

/// The capability to push. There is one per channel and it cannot be
/// copied.
pub struct Push {
    _unique: (),
}

/// The capability to pop. There is one per channel and it cannot be copied.
pub struct Pop {
    _unique: (),
}

/// What a poll of a push came to.
#[derive(Debug, PartialEq, Eq)]
pub enum Pushed<T> {
    /// The slot is full: the value comes back, to be pushed again at the
    /// next poll.
    Suspended(T),
    /// The value is in the slot.
    Completed {
        /// The consumer was suspended on the empty slot and is to be made
        /// runnable.
        wake_consumer: bool,
    },
}

/// What a poll of a pop came to.
#[derive(Debug, PartialEq, Eq)]
pub enum Popped<T> {
    /// The slot is empty.
    Suspended,
    /// The value that was in the slot.
    Completed {
        value: T,
        /// The producer was suspended on the full slot and is to be made
        /// runnable.
        wake_producer: bool,
    },
}

/// A slot as a value.
pub struct SlotView<T> {
    pub value: Option<T>,
    pub producer_suspended: bool,
    pub consumer_suspended: bool,
}

impl<T> SlotView<T> {
    /// The slot of a channel that has just been split.
    pub open spec fn empty() -> SlotView<T> {
        SlotView { value: None, producer_suspended: false, consumer_suspended: false }
    }

    /// What a poll of a push of `value` comes to: it resolves exactly when
    /// the slot is empty.
    pub open spec fn pushed(self, value: T) -> Pushed<T> {
        if self.value is Some {
            Pushed::Suspended(value)
        } else {
            Pushed::Completed { wake_consumer: self.consumer_suspended }
        }
    }

    /// The slot after a poll of a push of `value`.
    pub open spec fn after_push(self, value: T) -> SlotView<T> {
        if self.value is Some {
            SlotView { producer_suspended: true, ..self }
        } else {
            SlotView { value: Some(value), producer_suspended: false, consumer_suspended: false }
        }
    }

    /// What a poll of a pop comes to: it resolves exactly when the slot is
    /// full.
    pub open spec fn popped(self) -> Popped<T> {
        match self.value {
            Some(value) => Popped::Completed { value, wake_producer: self.producer_suspended },
            None => Popped::Suspended,
        }
    }

    /// The slot after a poll of a pop.
    pub open spec fn after_pop(self) -> SlotView<T> {
        if self.value is Some {
            SlotView { value: None, producer_suspended: false, consumer_suspended: false }
        } else {
            SlotView { consumer_suspended: true, ..self }
        }
    }

    /// What the pops observe when each of `values` is pushed and then
    /// popped before the next is pushed: every poll that resolved, in
    /// order.
    pub open spec fn alternate(self, values: Seq<T>) -> Seq<T>
        decreases values.len(),
    {
        if values.len() == 0 {
            Seq::empty()
        } else {
            let filled = self.after_push(values[0]);
            let observed = match filled.popped() {
                Popped::Completed { value, .. } => seq![value],
                Popped::Suspended => Seq::empty(),
            };
            observed + filled.after_pop().alternate(values.drop_first())
        }
    }
}

impl<T> View for Slot<T> {
    type V = SlotView<T>;

    closed spec fn view(&self) -> SlotView<T> {
        SlotView {
            value: self.value,
            producer_suspended: self.producer_suspended,
            consumer_suspended: self.consumer_suspended,
        }
    }
}

impl<T> Handoff<T> {
    /// The slot the channel will be split into.
    pub closed spec fn slot(&self) -> SlotView<T> {
        self.slot@
    }

    /// Builds a channel with an empty slot.
    pub fn new() -> (handoff: Self)
        ensures
            handoff.slot() == SlotView::<T>::empty(),
    {
        Handoff { slot: Slot { value: None, producer_suspended: false, consumer_suspended: false } }
    }

    /// Splits the channel into its slot and the two capabilities. The
    /// channel is used up, so there is one producer and one consumer and
    /// there will never be another.
    pub fn split(self) -> (parts: (Slot<T>, Push, Pop))
        ensures
            parts.0@ == self.slot(),
    {
        (self.slot, Push { _unique: () }, Pop { _unique: () })
    }
}

impl<T> Slot<T> {
    /// Whether the slot holds a value.
    pub fn is_full(&self) -> (full: bool)
        ensures
            full == (self@.value is Some),
    {
        self.value.is_some()
    }
}

impl Push {
    /// One poll of a push of `value`. While the slot is full the push stays
    /// suspended and the slot keeps the value it has: nothing is ever
    /// overwritten. Once the slot is empty the value goes in and the push
    /// resolves, saying whether a suspended consumer is to be woken.
    pub fn push<T>(&mut self, slot: &mut Slot<T>, value: T) -> (pushed: Pushed<T>)
        ensures
            pushed == old(slot)@.pushed(value),
            final(slot)@ == old(slot)@.after_push(value),
    {
        if slot.value.is_some() {
            slot.producer_suspended = true;
            Pushed::Suspended(value)
        } else {
            let wake_consumer = slot.consumer_suspended;
            slot.value = Some(value);
            slot.producer_suspended = false;
            slot.consumer_suspended = false;
            Pushed::Completed { wake_consumer }
        }
    }
}

impl Pop {
    /// One poll of a pop. While the slot is empty the pop stays suspended.
    /// Once it is full the value is taken, the slot is empty again and the
    /// pop resolves with the value, saying whether a suspended producer is
    /// to be woken.
    pub fn pop<T>(&mut self, slot: &mut Slot<T>) -> (popped: Popped<T>)
        ensures
            popped == old(slot)@.popped(),
            final(slot)@ == old(slot)@.after_pop(),
    {
        match slot.value.take() {
            Some(value) => {
                let wake_producer = slot.producer_suspended;
                slot.producer_suspended = false;
                slot.consumer_suspended = false;
                Popped::Completed { value, wake_producer }
            },
            None => {
                slot.consumer_suspended = true;
                Popped::Suspended
            },
        }
    }
}

/// When every push is followed by its pop before the next push, the pops
/// observe exactly the values pushed, in order, and the slot is empty at
/// the end.
pub proof fn lemma_values_arrive_in_order<T>(slot: SlotView<T>, values: Seq<T>)
    requires
        slot.value is None,
    ensures
        slot.alternate(values) == values,
    decreases values.len(),
{
    if values.len() > 0 {
        let filled = slot.after_push(values[0]);
        lemma_values_arrive_in_order(filled.after_pop(), values.drop_first());
        assert(seq![values[0]] + values.drop_first() =~= values);
    } else {
        assert(slot.alternate(values) =~= values);
    }
}

/// Backpressure: once a push has resolved, a second push does not resolve
/// and leaves the first value in the slot, however often it is polled,
/// until a pop has taken that value. The pop yields the first value, asks
/// for the suspended producer to be woken, and the second push resolves at
/// its next poll.
pub proof fn lemma_second_push_waits_for_pop<T>(slot: SlotView<T>, first: T, second: T)
    requires
        slot.value is None,
    ensures
        slot.pushed(first) is Completed,
        slot.after_push(first).pushed(second) == Pushed::Suspended(second),
        slot.after_push(first).after_push(second).value == Some(first),
        slot.after_push(first).after_push(second).after_push(second).value == Some(first),
        slot.after_push(first).after_push(second).popped() == (Popped::Completed {
            value: first,
            wake_producer: true,
        }),
        slot.after_push(first).after_push(second).after_pop().pushed(second) is Completed,
        slot.after_push(first).after_push(second).after_pop().after_push(second).value == Some(
            second,
        ),
{
}

/// The slot after `polls` polls of a push of `value` in a row.
pub open spec fn after_pushes<T>(slot: SlotView<T>, value: T, polls: nat) -> SlotView<T>
    decreases polls,
{
    if polls == 0 {
        slot
    } else {
        after_pushes(slot.after_push(value), value, (polls - 1) as nat)
    }
}

/// However often a push is polled on a full slot, it stays suspended and
/// the slot keeps the value it has: nothing is overwritten and nothing is
/// lost while the consumer has not popped.
pub proof fn lemma_push_suspends_while_full<T>(slot: SlotView<T>, value: T, polls: nat)
    requires
        slot.value is Some,
    ensures
        after_pushes(slot, value, polls).value == slot.value,
        after_pushes(slot, value, polls).pushed(value) == Pushed::Suspended(value),
        polls > 0 ==> after_pushes(slot, value, polls).producer_suspended,
    decreases polls,
{
    if polls > 0 {
        lemma_push_suspends_while_full(slot.after_push(value), value, (polls - 1) as nat);
    }
}

/// Whatever the slot holds, a push and a pop never both stay suspended: the
/// slot is either full, so the pop resolves, or empty, so the push does.
pub proof fn lemma_one_side_can_go<T>(slot: SlotView<T>, value: T)
    ensures
        slot.pushed(value) is Completed <==> slot.value is None,
        slot.popped() is Completed <==> slot.value is Some,
        slot.pushed(value) is Completed || slot.popped() is Completed,
{
}

} // verus!
