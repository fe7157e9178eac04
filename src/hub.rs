//! The fan-out hub: one producer publishes text messages, any number of
//! subscribers each read their own bounded queue. Publishing never waits: a
//! full queue drops its oldest message to make room, so a subscriber that
//! falls behind loses the stalest messages and no one else is affected.

use vstd::prelude::*;
use std::collections::VecDeque;

verus! {

/// A subscriber's handle on a hub; it cannot be copied, and `unsubscribe`
/// consumes it.
pub struct Subscription {
    slot: usize,
}

impl Subscription {
    /// The hub slot that this handle reads.
    pub closed spec fn slot(&self) -> int {
        self.slot as int
    }
}

/// A queue of at most `cap` messages after `m` is added: when it is full the
/// oldest message makes room.
pub open spec fn enqueue(q: Seq<Seq<char>>, m: Seq<char>, cap: nat) -> Seq<Seq<char>> {
    if q.len() < cap {
        q.push(m)
    } else {
        q.drop_first().push(m)
    }
}

/// Every live queue after `m` is published.
pub open spec fn publish_view(
    v: Seq<Option<Seq<Seq<char>>>>,
    m: Seq<char>,
    cap: nat,
) -> Seq<Option<Seq<Seq<char>>>> {
    v.map_values(
        |q: Option<Seq<Seq<char>>>|
            match q {
                Some(q) => Some(enqueue(q, m, cap)),
                None => None,
            },
    )
}

/// The number of live subscribers.
pub open spec fn live_count(v: Seq<Option<Seq<Seq<char>>>>) -> nat
    decreases v.len(),
{
    if v.len() == 0 {
        0
    } else {
        live_count(v.drop_last()) + if v.last() is Some {
            1nat
        } else {
            0nat
        }
    }
}

/// Every live queue holds at most `cap` messages.
pub open spec fn bounded(v: Seq<Option<Seq<Seq<char>>>>, cap: nat) -> bool {
    forall|i: int| 0 <= i < v.len() && #[trigger] v[i] is Some ==> v[i]->0.len() <= cap
}

/// The texts of a queue of messages.
pub open spec fn texts(q: Seq<String>) -> Seq<Seq<char>> {
    q.map_values(|m: String| m@)
}

/// A broadcast point with one bounded queue per subscriber.
pub struct FanOutHub {
    cap: usize,
    live: Vec<bool>,
    queues: Vec<VecDeque<String>>,
}

impl View for FanOutHub {
    type V = Seq<Option<Seq<Seq<char>>>>;

    /// Slot by slot: the queued messages of a live subscriber, oldest first,
    /// or `None` for a free slot.
    closed spec fn view(&self) -> Seq<Option<Seq<Seq<char>>>> {
        Seq::new(
            self.live@.len(),
            |i: int|
                if self.live@[i] {
                    Some(texts(self.queues@[i]@))
                } else {
                    None
                },
        )
    }
}

impl FanOutHub {
    /// How many messages each subscriber's queue can hold.
    pub closed spec fn capacity(&self) -> nat {
        self.cap as nat
    }

    pub closed spec fn wf(&self) -> bool {
        &&& self.cap > 0
        &&& self.live@.len() == self.queues@.len()
        &&& forall|i: int|
            0 <= i < self.queues@.len() ==> (#[trigger] self.queues@[i])@.len() <= self.cap
        &&& forall|i: int|
            0 <= i < self.queues@.len() && !self.live@[i] ==> (#[trigger] self.queues@[i])@.len()
                == 0
    }

    /// A hub with no subscribers whose queues hold `capacity` messages each.
    pub fn new(capacity: usize) -> (r: Self)
        requires
            capacity > 0,
        ensures
            r.wf(),
            r@ == Seq::<Option<Seq<Seq<char>>>>::empty(),
            r.capacity() == capacity,
    {
        let r = FanOutHub { cap: capacity, live: Vec::new(), queues: Vec::new() };
        assert(r@ =~= Seq::<Option<Seq<Seq<char>>>>::empty());
        r
    }

    proof fn lemma_bounded(&self)
        requires
            self.wf(),
        ensures
            bounded(self@, self.capacity()),
            self@.len() == self.live@.len(),
    {
        assert forall|i: int| 0 <= i < self@.len() && #[trigger] self@[i] is Some implies self@[
            i
        ]->0.len() <= self.capacity() by {
            assert(self.queues@[i]@.len() <= self.cap);
        }
    }

    /// The number of live subscribers.
    pub fn subscriber_count(&self) -> (r: usize)
        requires
            self.wf(),
        ensures
            r == live_count(self@),
    {
        let mut count: usize = 0;
        let mut i: usize = 0;
        assert(self@.subrange(0, 0) =~= Seq::<Option<Seq<Seq<char>>>>::empty());
        while i < self.live.len()
            invariant
                self.wf(),
                i <= self.live@.len(),
                count == live_count(self@.subrange(0, i as int)),
                count <= i,
            decreases self.live@.len() - i,
        {
            assert(self@.subrange(0, i + 1).drop_last() =~= self@.subrange(0, i as int));
            if self.live[i] {
                count = count + 1;
            }
            i = i + 1;
        }
        assert(self@.subrange(0, i as int) =~= self@);
        count
    }

    /// Attaches a new subscriber with an empty queue: it receives what is
    /// published from now on, nothing from before. A free slot is reused.
    pub fn subscribe(&mut self) -> (r: Subscription)
        requires
            old(self).wf(),
        ensures
            final(self).wf(),
            final(self).capacity() == old(self).capacity(),
            0 <= r.slot() < final(self)@.len(),
            r.slot() < old(self)@.len() ==> old(self)@[r.slot()] is None,
            final(self)@ == if r.slot() < old(self)@.len() {
                old(self)@.update(r.slot(), Some(Seq::empty()))
            } else {
                old(self)@.push(Some(Seq::empty()))
            },
    {
        let ghost before = self@;
        let mut i: usize = 0;
        while i < self.live.len()
            invariant
                self.wf(),
                self@ == before,
                before == old(self)@,
                self.cap == old(self).cap,
                i <= self.live@.len(),
                forall|j: int| 0 <= j < i ==> #[trigger] self.live@[j],
            decreases self.live@.len() - i,
        {
            if !self.live[i] {
                assert(self@[i as int] is None);
                self.live.set(i, true);
                proof {
                    assert(texts(self.queues@[i as int]@) =~= Seq::empty());
                    assert(self@ =~= before.update(i as int, Some(Seq::empty())));
                }
                return Subscription { slot: i };
            }
            i = i + 1;
        }
        let slot = self.live.len();
        self.live.push(true);
        self.queues.push(VecDeque::new());
        assert(texts(self.queues@[slot as int]@) =~= Seq::empty());
        assert(self@ =~= before.push(Some(Seq::empty())));
        Subscription { slot }
    }

    /// Detaches a subscriber: its queue is dropped and its slot freed.
    pub fn unsubscribe(&mut self, sub: Subscription)
        requires
            old(self).wf(),
        ensures
            final(self).wf(),
            final(self).capacity() == old(self).capacity(),
            final(self)@ == if 0 <= sub.slot() < old(self)@.len() {
                old(self)@.update(sub.slot(), None)
            } else {
                old(self)@
            },
    {
        let ghost before = self@;
        if sub.slot < self.live.len() {
            self.live.set(sub.slot, false);
            self.queues[sub.slot].clear();
            assert(self@ =~= before.update(sub.slot as int, None));
        }
    }

    /// Queues `msg` for every live subscriber, dropping the oldest message of
    /// a full queue; never waits. Returns how many subscribers it reached.
    pub fn publish(&mut self, msg: String) -> (r: usize)
        requires
            old(self).wf(),
        ensures
            final(self).wf(),
            final(self).capacity() == old(self).capacity(),
            final(self)@ == publish_view(old(self)@, msg@, old(self).capacity()),
            bounded(final(self)@, final(self).capacity()),
            r == live_count(old(self)@),
    {
        let ghost before = self@;
        let ghost cap = self.capacity();
        let ghost q0 = self.queues@;
        let ghost live0 = self.live@;
        let mut count: usize = 0;
        let mut i: usize = 0;
        assert(before.subrange(0, 0) =~= Seq::<Option<Seq<Seq<char>>>>::empty());
        while i < self.live.len()
            invariant
                self.wf(),
                self.cap == old(self).cap,
                cap == self.cap,
                self.live@ == live0,
                self.queues@.len() == q0.len(),
                live0.len() == q0.len(),
                before == old(self)@,
                before.len() == live0.len(),
                forall|j: int|
                    0 <= j < live0.len() ==> #[trigger] before[j] == if live0[j] {
                        Some(texts(q0[j]@))
                    } else {
                        None
                    },
                i <= live0.len(),
                forall|j: int|
                    0 <= j < i && live0[j] ==> texts(#[trigger] self.queues@[j]@) == enqueue(
                        texts(q0[j]@),
                        msg@,
                        cap,
                    ),
                forall|j: int|
                    0 <= j < live0.len() && (i <= j || !live0[j]) ==> #[trigger] self.queues@[j]
                        == q0[j],
                count == live_count(before.subrange(0, i as int)),
                count <= i,
            decreases live0.len() - i,
        {
            assert(before.subrange(0, i + 1).drop_last() =~= before.subrange(0, i as int));
            if self.live[i] {
                let ghost q = self.queues@[i as int]@;
                if self.queues[i].len() >= self.cap {
                    self.queues[i].pop_front();
                }
                self.queues[i].push_back(msg.clone());
                count = count + 1;
                assert(texts(self.queues@[i as int]@) =~= enqueue(texts(q), msg@, cap));
            }
            i = i + 1;
        }
        proof {
            let after = publish_view(before, msg@, cap);
            assert forall|j: int| 0 <= j < before.len() implies #[trigger] self@[j] == after[j] by {
                assert(before[j] == if live0[j] {
                    Some(texts(q0[j]@))
                } else {
                    None
                });
            }
            assert(self@ =~= after);
            assert(before.subrange(0, i as int) =~= before);
            self.lemma_bounded();
        }
        count
    }

    /// Takes the oldest message queued for `sub`, if any.
    pub fn try_recv(&mut self, sub: &Subscription) -> (r: Option<String>)
        requires
            old(self).wf(),
        ensures
            final(self).wf(),
            final(self).capacity() == old(self).capacity(),
            ({
                let s = sub.slot();
                if 0 <= s < old(self)@.len() && old(self)@[s] is Some && old(self)@[s]->0.len() > 0 {
                    &&& r is Some
                    &&& r->0@ == old(self)@[s]->0[0]
                    &&& final(self)@ == old(self)@.update(s, Some(old(self)@[s]->0.drop_first()))
                } else {
                    r is None && final(self)@ == old(self)@
                }
            }),
    {
        let ghost before = self@;
        if sub.slot < self.live.len() && self.live[sub.slot] {
            let ghost q = self.queues@[sub.slot as int]@;
            let r = self.queues[sub.slot].pop_front();
            proof {
                if q.len() > 0 {
                    assert(texts(self.queues@[sub.slot as int]@) =~= texts(q).drop_first());
                    assert(self@ =~= before.update(
                        sub.slot as int,
                        Some(before[sub.slot as int]->0.drop_first()),
                    ));
                } else {
                    assert(self@ =~= before);
                }
            }
            r
        } else {
            None
        }
    }
}

/// The queues after `msgs` are published in order.
pub open spec fn publish_all(
    v: Seq<Option<Seq<Seq<char>>>>,
    msgs: Seq<Seq<char>>,
    cap: nat,
) -> Seq<Option<Seq<Seq<char>>>>
    decreases msgs.len(),
{
    if msgs.len() == 0 {
        v
    } else {
        publish_view(publish_all(v, msgs.drop_last(), cap), msgs.last(), cap)
    }
}

/// The newest `cap` messages of `s`.
pub open spec fn newest(s: Seq<Seq<char>>, cap: nat) -> Seq<Seq<char>> {
    if s.len() > cap {
        s.subrange(s.len() - cap, s.len() as int)
    } else {
        s
    }
}

proof fn lemma_live_count_zero(v: Seq<Option<Seq<Seq<char>>>>)
    requires
        live_count(v) == 0,
    ensures
        forall|i: int| 0 <= i < v.len() ==> #[trigger] v[i] is None,
    decreases v.len(),
{
    if v.len() > 0 {
        lemma_live_count_zero(v.drop_last());
        assert forall|i: int| 0 <= i < v.len() implies #[trigger] v[i] is None by {
            if i < v.len() - 1 {
                assert(v.drop_last()[i] == v[i]);
            }
        }
    }
}

proof fn lemma_enqueue_newest(s: Seq<Seq<char>>, m: Seq<char>, cap: nat)
    requires
        cap > 0,
    ensures
        enqueue(newest(s, cap), m, cap) == newest(s.push(m), cap),
{
    if s.len() >= cap {
        assert(enqueue(newest(s, cap), m, cap) =~= newest(s.push(m), cap));
    }
}

/// Publishing any number of messages while no subscriber is attached
/// leaves every queue as it was: nothing is kept, and nothing grows.
pub proof fn lemma_publish_without_subscribers(
    v: Seq<Option<Seq<Seq<char>>>>,
    msgs: Seq<Seq<char>>,
    cap: nat,
)
    requires
        live_count(v) == 0,
    ensures
        publish_all(v, msgs, cap) == v,
    decreases msgs.len(),
{
    if msgs.len() > 0 {
        lemma_publish_without_subscribers(v, msgs.drop_last(), cap);
        lemma_live_count_zero(v);
        assert(publish_view(v, msgs.last(), cap) =~= v);
    }
}

/// Each subscriber's queue after a run of publishes depends on its own
/// queue and the messages alone, whatever the other subscribers do: it holds
/// the newest `cap` of its old messages followed by the new ones. So it never
/// exceeds `cap`, and a subscriber that keeps up (its backlog and the new
/// messages fit in `cap`) receives every message, in order.
pub proof fn lemma_queue_isolation(
    v: Seq<Option<Seq<Seq<char>>>>,
    msgs: Seq<Seq<char>>,
    cap: nat,
    i: int,
)
    requires
        cap > 0,
        0 <= i < v.len(),
        v[i] is Some,
        v[i]->0.len() <= cap,
    ensures
        publish_all(v, msgs, cap).len() == v.len(),
        publish_all(v, msgs, cap)[i] == Some(newest(v[i]->0 + msgs, cap)),
        publish_all(v, msgs, cap)[i]->0.len() <= cap,
        v[i]->0.len() + msgs.len() <= cap ==> publish_all(v, msgs, cap)[i] == Some(v[i]->0 + msgs),
    decreases msgs.len(),
{
    let q = v[i]->0;
    if msgs.len() == 0 {
        assert(q + msgs =~= q);
    } else {
        let init = msgs.drop_last();
        lemma_queue_isolation(v, init, cap, i);
        lemma_enqueue_newest(q + init, msgs.last(), cap);
        assert((q + init).push(msgs.last()) =~= q + msgs);
    }
}

} // verus!
