//! Bounded mailbox from the interrupt context to a task.
//!
//! The producer never waits: `try_send` fails fast with `Full` when the
//! mailbox holds `capacity` messages.  The consumer takes messages out in the
//! order they were accepted.  Storage is reserved once, at construction, and
//! the number of held messages never exceeds it.

use std::collections::VecDeque;
use vstd::prelude::*;

verus! {

/// The queue after offering `m` to a mailbox of capacity `cap` holding `q`.
pub open spec fn send_step<T>(q: Seq<T>, cap: nat, m: T) -> Seq<T> {
    if q.len() < cap {
        q.push(m)
    } else {
        q
    }
}

/// The queue after offering each of `msgs`, in order.
pub open spec fn send_all<T>(q: Seq<T>, cap: nat, msgs: Seq<T>) -> Seq<T>
    decreases msgs.len(),
{
    if msgs.len() == 0 {
        q
    } else {
        send_step(send_all(q, cap, msgs.drop_last()), cap, msgs.last())
    }
}

/// Whether each of `msgs`, offered in order, was accepted.
pub open spec fn send_outcomes<T>(q: Seq<T>, cap: nat, msgs: Seq<T>) -> Seq<bool> {
    Seq::new(msgs.len(), |i: int| send_all(q, cap, msgs.take(i)).len() < cap)
}

/// The messages that `k` successive receives hand out of a mailbox holding
/// `q`; a receive on an empty mailbox hands out nothing.
pub open spec fn received<T>(q: Seq<T>, k: nat) -> Seq<T>
    decreases k,
{
    if k == 0 || q.len() == 0 {
        Seq::empty()
    } else {
        seq![q[0]].add(received(q.drop_first(), (k - 1) as nat))
    }
}

/// While a mailbox is not over its capacity, offering `msgs` keeps the held
/// messages and appends the offered ones until the capacity is reached; the
/// rest are discarded.
pub proof fn lemma_send_all_keeps_prefix<T>(q: Seq<T>, cap: nat, msgs: Seq<T>)
    requires
        q.len() <= cap,
    ensures
        send_all(q, cap, msgs) == (q + msgs).take(
            if q.len() + msgs.len() <= cap {
                q.len() + msgs.len() as int
            } else {
                cap as int
            },
        ),
    decreases msgs.len(),
{
    if msgs.len() == 0 {
        assert((q + msgs).take(q.len() as int) =~= q);
    } else {
        let init = msgs.drop_last();
        lemma_send_all_keeps_prefix(q, cap, init);
        assert(q + init =~= (q + msgs).take(q.len() + init.len() as int));
        if q.len() + msgs.len() <= cap {
            assert((q + init).push(msgs.last()) =~= (q + msgs).take(q.len() + msgs.len() as int));
        } else {
            assert((q + init).take(cap as int) =~= (q + msgs).take(cap as int));
        }
    }
}

/// A message offered to a mailbox that starts with `q` is accepted exactly
/// when fewer than `cap` messages were held or accepted before it.
pub proof fn lemma_send_outcomes<T>(q: Seq<T>, cap: nat, msgs: Seq<T>)
    requires
        q.len() <= cap,
    ensures
        forall|i: int|
            0 <= i < msgs.len() ==> #[trigger] send_outcomes(q, cap, msgs)[i] == (q.len() + i
                < cap),
{
    assert forall|i: int| 0 <= i < msgs.len() implies #[trigger] send_outcomes(q, cap, msgs)[i]
        == (q.len() + i < cap) by {
        lemma_send_all_keeps_prefix(q, cap, msgs.take(i));
    }
}

/// Successive receives hand out the held messages oldest first, and nothing
/// once the mailbox is empty.
pub proof fn lemma_received_in_order<T>(q: Seq<T>, k: nat)
    ensures
        received(q, k) == q.take(
            if k <= q.len() {
                k as int
            } else {
                q.len() as int
            },
        ),
    decreases k,
{
    if k == 0 || q.len() == 0 {
        assert(q.take(0) =~= Seq::<T>::empty());
    } else {
        lemma_received_in_order(q.drop_first(), (k - 1) as nat);
        let n = if k <= q.len() {
            k as int
        } else {
            q.len() as int
        };
        assert(seq![q[0]].add(q.drop_first().take(n - 1)) =~= q.take(n));
    }
}

/// Offering `cap + 1` messages to an empty mailbox of capacity `cap`: the
/// first `cap` are accepted, the last one is refused as full, and `cap`
/// receives then hand out the accepted ones in the order they were offered.
pub proof fn lemma_overflow_then_fifo<T>(cap: nat, msgs: Seq<T>)
    requires
        cap > 0,
        msgs.len() == cap + 1,
    ensures
        forall|i: int| 0 <= i < cap ==> #[trigger] send_outcomes(Seq::empty(), cap, msgs)[i],
        !send_outcomes(Seq::<T>::empty(), cap, msgs)[cap as int],
        send_all(Seq::empty(), cap, msgs) == msgs.take(cap as int),
        received(send_all(Seq::empty(), cap, msgs), cap) == msgs.take(cap as int),
{
    let e = Seq::<T>::empty();
    lemma_send_outcomes(e, cap, msgs);
    lemma_send_all_keeps_prefix(e, cap, msgs);
    assert(e + msgs =~= msgs);
    lemma_received_in_order(msgs.take(cap as int), cap);
    assert(msgs.take(cap as int).take(cap as int) =~= msgs.take(cap as int));
}

/// The error of a send into a mailbox that has no free slot; the message is
/// discarded.
#[derive(Clone, Copy, Debug, PartialEq, Eq, Structural)]
pub struct Full;

/// A mailbox of fixed capacity with first-in, first-out delivery.
pub struct Channel<T> {
    items: VecDeque<T>,
    capacity: usize,
}

impl<T> View for Channel<T> {
    type V = Seq<T>;

    /// The held messages, oldest first.
    closed spec fn view(&self) -> Seq<T> {
        self.items@
    }
}

impl<T> Channel<T> {
    /// The number of messages the mailbox can hold.
    pub closed spec fn capacity_spec(&self) -> nat {
        self.capacity as nat
    }

    /// The mailbox has room for at least one message and holds no more than
    /// its capacity.
    pub closed spec fn wf(&self) -> bool {
        &&& self.capacity > 0
        &&& self.items@.len() <= self.capacity
    }

    /// An empty mailbox for `capacity` messages.
    pub fn new(capacity: usize) -> (r: Self)
        requires
            capacity > 0,
        ensures
            r.wf(),
            r@ == Seq::<T>::empty(),
            r.capacity_spec() == capacity,
    {
        Channel { items: VecDeque::with_capacity(capacity), capacity }
    }

    pub fn capacity(&self) -> (r: usize)
        ensures
            r == self.capacity_spec(),
    {
        self.capacity
    }

    pub fn len(&self) -> (r: usize)
        requires
            self.wf(),
        ensures
            r == self@.len(),
    {
        self.items.len()
    }

    pub fn is_empty(&self) -> (r: bool)
        requires
            self.wf(),
        ensures
            r == (self@.len() == 0),
    {
        self.items.len() == 0
    }

    pub fn is_full(&self) -> (r: bool)
        requires
            self.wf(),
        ensures
            r == (self@.len() == self.capacity_spec()),
    {
        self.items.len() == self.capacity
    }

    /// Offers `msg` without waiting.  It is accepted when a slot is free;
    /// otherwise it is discarded and `Full` is returned.
    pub fn try_send(&mut self, msg: T) -> (r: Result<(), Full>)
        requires
            old(self).wf(),
        ensures
            final(self).wf(),
            final(self).capacity_spec() == old(self).capacity_spec(),
            r is Ok <==> old(self)@.len() < old(self).capacity_spec(),
            final(self)@ == send_step(old(self)@, old(self).capacity_spec(), msg),
    {
        if self.items.len() < self.capacity {
            self.items.push_back(msg);
            Ok(())
        } else {
            Err(Full)
        }
    }

    /// Takes the oldest message out, or `None` when the mailbox is empty.
    pub fn try_recv(&mut self) -> (r: Option<T>)
        requires
            old(self).wf(),
        ensures
            final(self).wf(),
            final(self).capacity_spec() == old(self).capacity_spec(),
            old(self)@.len() == 0 ==> r is None && final(self)@ == old(self)@,
            old(self)@.len() > 0 ==> r == Some(old(self)@[0]) && final(self)@ == old(
                self,
            )@.drop_first(),
    {
        self.items.pop_front()
    }
}

} // verus!
