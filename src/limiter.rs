//! Counting limiter on the number of pipeline runs in progress at once.
use vstd::prelude::*;

verus! {

/// Abstract state of a limiter: its capacity and the slots held.
pub ghost struct LimiterModel {
    pub capacity: nat,
    pub in_flight: nat,
}

/// A counting limiter of fixed capacity; every run holds one slot from
/// before it starts until it ends.
pub struct ConcurrencyLimiter {
    capacity: usize,
    in_flight: usize,
}

impl View for ConcurrencyLimiter {
    type V = LimiterModel;

    closed spec fn view(&self) -> LimiterModel {
        LimiterModel { capacity: self.capacity as nat, in_flight: self.in_flight as nat }
    }
}

impl ConcurrencyLimiter {
    #[verifier::type_invariant]
    spec fn inv(&self) -> bool {
        1 <= self.capacity && self.in_flight <= self.capacity
    }

    /// A limiter with `capacity` free slots.
    pub fn new(capacity: usize) -> (r: ConcurrencyLimiter)
        requires
            capacity >= 1,
        ensures
            r@.capacity == capacity,
            r@.in_flight == 0,
    {
        ConcurrencyLimiter { capacity, in_flight: 0 }
    }

    /// Takes a slot if one is free, and reports whether it did.
    pub fn try_acquire(&mut self) -> (granted: bool)
        ensures
            granted == (old(self)@.in_flight < old(self)@.capacity),
            final(self)@.capacity == old(self)@.capacity,
            final(self)@.in_flight == old(self)@.in_flight + (if granted { 1int } else { 0int }),
            final(self)@.in_flight <= final(self)@.capacity,
    {
        proof {
            use_type_invariant(&*self);
        }
        if self.in_flight < self.capacity {
            self.in_flight = self.in_flight + 1;
            true
        } else {
            false
        }
    }

    /// Gives back a slot taken by `try_acquire`.
    pub fn release(&mut self)
        requires
            old(self)@.in_flight >= 1,
        ensures
            final(self)@.capacity == old(self)@.capacity,
            final(self)@.in_flight == old(self)@.in_flight - 1,
    {
        proof {
            use_type_invariant(&*self);
        }
        self.in_flight = self.in_flight - 1;
    }

    /// The number of slots the limiter was made with.
    pub fn capacity(&self) -> (r: usize)
        ensures
            r == self@.capacity,
    {
        self.capacity
    }

    /// The number of free slots; the limiter never holds more slots than it
    /// has.
    pub fn available(&self) -> (r: usize)
        ensures
            1 <= self@.capacity,
            self@.in_flight <= self@.capacity,
            r == self@.capacity - self@.in_flight,
    {
        proof {
            use_type_invariant(self);
        }
        self.capacity - self.in_flight
    }

    /// The number of slots held.
    pub fn in_flight(&self) -> (r: usize)
        ensures
            r == self@.in_flight,
    {
        self.in_flight
    }
}

/// A request on a limiter: take a slot if one is free, or give one back.
pub enum SlotEvent {
    Acquire,
    Release,
}

/// The slots held after `events`, in order, from `held` slots of `capacity`;
/// an acquire with no free slot and a release with none held change nothing.
pub open spec fn slots_after(capacity: nat, held: nat, events: Seq<SlotEvent>) -> nat
    decreases events.len(),
{
    if events.len() == 0 {
        held
    } else {
        let next = match events.last() {
            SlotEvent::Acquire => if slots_after(capacity, held, events.drop_last()) < capacity {
                slots_after(capacity, held, events.drop_last()) + 1
            } else {
                slots_after(capacity, held, events.drop_last())
            },
            SlotEvent::Release => if slots_after(capacity, held, events.drop_last()) > 0 {
                (slots_after(capacity, held, events.drop_last()) - 1) as nat
            } else {
                0
            },
        };
        next
    }
}

/// Whatever the order of acquires and releases, a limiter never has more
/// runs in progress than its capacity.
pub proof fn lemma_never_over_capacity(capacity: nat, held: nat, events: Seq<SlotEvent>)
    requires
        capacity >= 1,
        held <= capacity,
    ensures
        slots_after(capacity, held, events) <= capacity,
    decreases events.len(),
{
    if events.len() > 0 {
        lemma_never_over_capacity(capacity, held, events.drop_last());
    }
}

} // verus!
