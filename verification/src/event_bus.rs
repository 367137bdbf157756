//! Best-effort broadcast of lifecycle events to any number of subscribers.
//!
//! Each subscriber owns an independent bounded queue.  Publishing never
//! blocks: on a full queue the oldest undelivered event is dropped.
//! Subscribers are created on demand and independently closeable; closing
//! one affects neither the others nor the publisher.

use vstd::prelude::*;
use crate::events::HanzoNodeManagerEvent;

verus! {

/// One delivery queue after one event is pushed with drop-oldest overflow.
pub open spec fn push_bounded(
    q: Seq<HanzoNodeManagerEvent>,
    e: HanzoNodeManagerEvent,
    cap: nat,
) -> Seq<HanzoNodeManagerEvent> {
    if q.len() < cap {
        q.push(e)
    } else {
        q.skip(1).push(e)
    }
}

/// One delivery queue after a whole sequence of events is pushed in order.
pub open spec fn publish_all(
    q: Seq<HanzoNodeManagerEvent>,
    evs: Seq<HanzoNodeManagerEvent>,
    cap: nat,
) -> Seq<HanzoNodeManagerEvent>
    decreases evs.len(),
{
    if evs.len() == 0 {
        q
    } else {
        push_bounded(publish_all(q, evs.drop_last(), cap), evs.last(), cap)
    }
}

/// A subscriber slot (`None` when closed) after one published event.
pub open spec fn slot_after_one(
    s: Option<Seq<HanzoNodeManagerEvent>>,
    e: HanzoNodeManagerEvent,
    cap: nat,
) -> Option<Seq<HanzoNodeManagerEvent>> {
    match s {
        None => None,
        Some(q) => Some(push_bounded(q, e, cap)),
    }
}

/// A subscriber slot after a whole sequence of published events.
pub open spec fn slot_after(
    s: Option<Seq<HanzoNodeManagerEvent>>,
    evs: Seq<HanzoNodeManagerEvent>,
    cap: nat,
) -> Option<Seq<HanzoNodeManagerEvent>> {
    match s {
        None => None,
        Some(q) => Some(publish_all(q, evs, cap)),
    }
}

/// The whole bus `b1` is exactly the bus `b0` after the events `evs` were
/// published to every subscriber, in order.
pub open spec fn bus_updated(
    b0: Seq<Option<Seq<HanzoNodeManagerEvent>>>,
    b1: Seq<Option<Seq<HanzoNodeManagerEvent>>>,
    evs: Seq<HanzoNodeManagerEvent>,
    cap: nat,
) -> bool {
    &&& b1.len() == b0.len()
    &&& forall|i: int| 0 <= i < b0.len() ==> b1[i] == slot_after(#[trigger] b0[i], evs, cap)
}

/// Publishing a sequence and then one more event is publishing the
/// sequence extended by that event.
pub proof fn lemma_publish_all_snoc(
    q: Seq<HanzoNodeManagerEvent>,
    evs: Seq<HanzoNodeManagerEvent>,
    e: HanzoNodeManagerEvent,
    cap: nat,
)
    ensures
        publish_all(q, evs.push(e), cap) == push_bounded(publish_all(q, evs, cap), e, cap),
{
    assert(evs.push(e).drop_last() =~= evs);
    assert(evs.push(e).last() == e);
}

/// Publishing `e1` and then `e2` is publishing `e1 + e2`.
pub proof fn lemma_publish_all_append(
    q: Seq<HanzoNodeManagerEvent>,
    e1: Seq<HanzoNodeManagerEvent>,
    e2: Seq<HanzoNodeManagerEvent>,
    cap: nat,
)
    ensures
        publish_all(q, e1 + e2, cap) == publish_all(publish_all(q, e1, cap), e2, cap),
    decreases e2.len(),
{
    if e2.len() == 0 {
        assert(e1 + e2 =~= e1);
    } else {
        lemma_publish_all_append(q, e1, e2.drop_last(), cap);
        assert((e1 + e2).drop_last() =~= e1 + e2.drop_last());
        assert((e1 + e2).last() == e2.last());
    }
}

/// `bus_updated` composes: one batch of events after another is the
/// concatenated batch.
pub proof fn lemma_bus_updated_compose(
    b0: Seq<Option<Seq<HanzoNodeManagerEvent>>>,
    b1: Seq<Option<Seq<HanzoNodeManagerEvent>>>,
    b2: Seq<Option<Seq<HanzoNodeManagerEvent>>>,
    e1: Seq<HanzoNodeManagerEvent>,
    e2: Seq<HanzoNodeManagerEvent>,
    cap: nat,
)
    requires
        bus_updated(b0, b1, e1, cap),
        bus_updated(b1, b2, e2, cap),
    ensures
        bus_updated(b0, b2, e1 + e2, cap),
{
    assert forall|i: int| 0 <= i < b0.len() implies b2[i] == slot_after(#[trigger] b0[i], e1 + e2, cap) by {
        match b0[i] {
            None => {},
            Some(q) => {
                lemma_publish_all_append(q, e1, e2, cap);
            },
        }
    }
}

/// Publishing no events leaves every queue as it is.
pub proof fn lemma_bus_updated_refl(b: Seq<Option<Seq<HanzoNodeManagerEvent>>>, cap: nat)
    ensures
        bus_updated(b, b, Seq::<HanzoNodeManagerEvent>::empty(), cap),
{
    assert forall|i: int| 0 <= i < b.len() implies b[i] == slot_after(
        #[trigger] b[i],
        Seq::<HanzoNodeManagerEvent>::empty(),
        cap,
    ) by {
        match b[i] {
            None => {},
            Some(q) => {
                assert(publish_all(q, Seq::<HanzoNodeManagerEvent>::empty(), cap) == q);
            },
        }
    }
}

/// A single published event, as a batch of one.
pub proof fn lemma_bus_updated_one(
    b0: Seq<Option<Seq<HanzoNodeManagerEvent>>>,
    b1: Seq<Option<Seq<HanzoNodeManagerEvent>>>,
    e: HanzoNodeManagerEvent,
    cap: nat,
)
    requires
        b1.len() == b0.len(),
        forall|i: int| 0 <= i < b0.len() ==> b1[i] == slot_after_one(#[trigger] b0[i], e, cap),
    ensures
        bus_updated(b0, b1, seq![e], cap),
{
    assert forall|i: int| 0 <= i < b0.len() implies b1[i] == slot_after(#[trigger] b0[i], seq![e], cap) by {
        match b0[i] {
            None => {},
            Some(q) => {
                assert(seq![e].len() == 1);
                assert(seq![e].drop_last() =~= Seq::<HanzoNodeManagerEvent>::empty());
                assert(seq![e].last() == e);
                assert(publish_all(q, seq![e].drop_last(), cap) == q);
                assert(publish_all(q, seq![e], cap) == push_bounded(q, e, cap));
            },
        }
    }
}

/// Multi-subscriber, fire-and-forget notification channel with bounded
/// per-subscriber buffering.
pub struct EventBus {
    pub capacity: usize,
    pub active: Vec<bool>,
    pub queues: Vec<Vec<HanzoNodeManagerEvent>>,
}

impl View for EventBus {
    type V = Seq<Option<Seq<HanzoNodeManagerEvent>>>;

    open spec fn view(&self) -> Self::V {
        Seq::new(
            self.queues@.len(),
            |i: int|
                if i < self.active@.len() && self.active@[i] {
                    Some(self.queues@[i]@)
                } else {
                    None
                },
        )
    }
}

impl EventBus {
    /// The bus invariant: a positive capacity, one activity flag per
    /// queue, and no queue over capacity.
    pub open spec fn well_formed(&self) -> bool {
        &&& self.capacity >= 1
        &&& self.active@.len() == self.queues@.len()
        &&& forall|i: int|
            0 <= i < self.queues@.len() ==> (#[trigger] self.queues@[i])@.len() <= self.capacity
    }

    /// A fresh bus with no subscribers.
    pub fn new(capacity: usize) -> (r: Self)
        requires
            capacity >= 1,
        ensures
            r.well_formed(),
            r.capacity == capacity,
            r@ =~= Seq::<Option<Seq<HanzoNodeManagerEvent>>>::empty(),
    {
        EventBus { capacity, active: Vec::new(), queues: Vec::new() }
    }

    /// Creates a fresh, independent subscriber and returns its id.  Its
    /// queue starts empty: events published before this call are never
    /// replayed to it.
    pub fn subscribe(&mut self) -> (r: usize)
        requires
            old(self).well_formed(),
        ensures
            final(self).well_formed(),
            final(self).capacity == old(self).capacity,
            r == old(self)@.len(),
            final(self)@ =~= old(self)@.push(Some(Seq::<HanzoNodeManagerEvent>::empty())),
    {
        let id = self.queues.len();
        self.active.push(true);
        self.queues.push(Vec::new());
        id
    }

    /// Closes one subscriber; the others and the publisher are unaffected.
    pub fn close(&mut self, id: usize)
        requires
            old(self).well_formed(),
        ensures
            final(self).well_formed(),
            final(self).capacity == old(self).capacity,
            final(self)@.len() == old(self)@.len(),
            forall|i: int| 0 <= i < old(self)@.len() && i != id ==> final(self)@[i] == old(self)@[i],
            id < old(self)@.len() ==> final(self)@[id as int] is None,
    {
        if id < self.active.len() {
            self.active[id] = false;
        }
    }

    /// Delivers one event to every active subscriber, dropping the oldest
    /// undelivered event of any queue that is full.  Never blocks the
    /// publisher and never touches closed slots.
    pub fn publish(&mut self, event: &HanzoNodeManagerEvent)
        requires
            old(self).well_formed(),
        ensures
            final(self).well_formed(),
            final(self).capacity == old(self).capacity,
            final(self)@.len() == old(self)@.len(),
            forall|i: int|
                0 <= i < old(self)@.len() ==> final(self)@[i] == slot_after_one(
                    #[trigger] old(self)@[i],
                    *event,
                    old(self).capacity as nat,
                ),
    {
        let ghost pre = *self;
        let ghost cap = self.capacity as nat;
        let n = self.queues.len();
        let mut i: usize = 0;
        while i < n
            invariant
                n == self.queues@.len(),
                i <= n,
                cap == pre.capacity as nat,
                self.capacity == pre.capacity,
                self.active == pre.active,
                self.well_formed(),
                pre.well_formed(),
                self@.len() == pre@.len(),
                forall|j: int| 0 <= j < i ==> self@[j] == slot_after_one(#[trigger] pre@[j], *event, cap),
                forall|j: int| i <= j < n ==> #[trigger] self.queues@[j] == pre.queues@[j],
            decreases n - i,
        {
            proof {
                assert(self.queues@[i as int] == pre.queues@[i as int]);
            }
            if self.active[i] {
                if self.queues[i].len() >= self.capacity {
                    let _dropped = self.queues[i].remove(0);
                    proof {
                        assert(self.queues@[i as int]@ =~= pre.queues@[i as int]@.skip(1));
                    }
                }
                self.queues[i].push(event.clone());
                proof {
                    let preq = pre.queues@[i as int]@;
                    let nowq = self.queues@[i as int]@;
                    if preq.len() >= cap {
                        assert(nowq =~= preq.skip(1).push(*event));
                    } else {
                        assert(nowq =~= preq.push(*event));
                    }
                    assert(nowq =~= push_bounded(preq, *event, cap));
                }
            }
            proof {
                assert forall|j: int| 0 <= j < i + 1 implies self@[j] == slot_after_one(
                    #[trigger] pre@[j],
                    *event,
                    cap,
                ) by {
                    if j == i {
                        if pre.active@[j] {
                            assert(self@[j] == Some(self.queues@[j]@));
                            assert(pre@[j] == Some(pre.queues@[j]@));
                        } else {
                            assert(pre@[j] is None);
                            assert(self@[j] is None);
                        }
                    }
                }
            }
            i = i + 1;
        }
    }

    /// Hands out the oldest undelivered event of one subscriber, if any.
    /// An unknown or closed id yields nothing.
    pub fn poll(&mut self, id: usize) -> (r: Option<HanzoNodeManagerEvent>)
        requires
            old(self).well_formed(),
        ensures
            final(self).well_formed(),
            final(self).capacity == old(self).capacity,
            final(self)@.len() == old(self)@.len(),
            forall|i: int| 0 <= i < old(self)@.len() && i != id ==> final(self)@[i] == old(self)@[i],
            id >= old(self)@.len() ==> r is None && final(self)@ == old(self)@,
            id < old(self)@.len() ==> match old(self)@[id as int] {
                None => r is None && final(self)@[id as int] == old(self)@[id as int],
                Some(q) => if q.len() == 0 {
                    r is None && final(self)@[id as int] == old(self)@[id as int]
                } else {
                    r == Some(q[0]) && final(self)@[id as int] == Some(q.skip(1))
                },
            },
    {
        if id >= self.queues.len() {
            return None;
        }
        if !self.active[id] {
            return None;
        }
        if self.queues[id].len() == 0 {
            None
        } else {
            let e = self.queues[id].remove(0);
            proof {
                assert(self.queues@[id as int]@ =~= old(self).queues@[id as int]@.skip(1));
            }
            Some(e)
        }
    }
}

} // verus!
