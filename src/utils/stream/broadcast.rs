//! Fan-out of one upstream sequence to many subscribers. Items are kept in
//! one log; each subscriber reads it through its own cursor. The upstream is
//! read only while every subscriber has room, so the slowest one holds the
//! rest back and no item is dropped.
use vstd::prelude::*;

use std::collections::VecDeque;

verus! {

pub struct Broadcast<I> {
    /// The log from sequence number `base` on.
    items: VecDeque<I>,
    base: usize,
    /// Next sequence number each subscriber reads.
    cursors: Vec<usize>,
    /// Most items a subscriber may have waiting.
    depth: usize,
    /// Every item taken from upstream, oldest first.
    log: Ghost<Seq<I>>,
    /// Length of the log when each subscriber registered.
    joined: Ghost<Seq<int>>,
}

impl<I> Broadcast<I> {
    pub closed spec fn log(&self) -> Seq<I> {
        self.log@
    }

    pub closed spec fn joined(&self) -> Seq<int> {
        self.joined@
    }

    pub closed spec fn cursors(&self) -> Seq<int> {
        self.cursors@.map_values(|c: usize| c as int)
    }

    pub closed spec fn depth(&self) -> int {
        self.depth as int
    }

    pub closed spec fn wf(&self) -> bool {
        &&& self.depth >= 1
        &&& self.joined@.len() == self.cursors@.len()
        &&& self.base <= self.log@.len()
        &&& self.items@ == self.log@.subrange(self.base as int, self.log@.len() as int)
        &&& self.log@.len() <= usize::MAX
        &&& forall|i: int|
            0 <= i < self.cursors@.len() ==> {
                &&& self.joined@[i] <= self.cursors@[i] <= self.log@.len()
                &&& self.base <= #[trigger] self.cursors@[i]
                &&& self.log@.len() - self.cursors@[i] <= self.depth
            }
    }

    /// Whether every subscriber has room for one more item.
    pub open spec fn ready(&self) -> bool {
        forall|i: int|
            0 <= i < self.cursors().len() ==> self.log().len() - #[trigger] self.cursors()[i]
                < self.depth()
    }

    /// A fan-out in which each subscriber may have up to `depth` items waiting.
    pub fn new(depth: usize) -> (r: Self)
        requires
            depth >= 1,
        ensures
            r.wf(),
            r.log().len() == 0,
            r.cursors().len() == 0,
            r.joined().len() == 0,
            r.depth() == depth,
    {
        let r = Broadcast {
            items: VecDeque::new(),
            base: 0,
            cursors: Vec::new(),
            depth,
            log: Ghost(Seq::empty()),
            joined: Ghost(Seq::empty()),
        };
        assert(r.items@ =~= r.log@.subrange(0, 0));
        r
    }

    /// Registers a subscriber, which receives the items taken from upstream
    /// from now on; returns its number.
    pub fn receive(&mut self) -> (id: usize)
        requires
            old(self).wf(),
            old(self).cursors().len() < usize::MAX,
        ensures
            final(self).wf(),
            id == old(self).cursors().len(),
            final(self).log() == old(self).log(),
            final(self).cursors() == old(self).cursors().push(old(self).log().len() as int),
            final(self).joined() == old(self).joined().push(old(self).log().len() as int),
            final(self).depth() == old(self).depth(),
    {
        let id = self.cursors.len();
        let next = self.base + self.items.len();
        self.cursors.push(next);
        self.joined = Ghost(self.joined@.push(self.log@.len() as int));
        assert(self.cursors() =~= old(self).cursors().push(old(self).log().len() as int));
        id
    }

    pub fn is_ready(&self) -> (r: bool)
        requires
            self.wf(),
        ensures
            r == self.ready(),
    {
        let next = self.base + self.items.len();
        let mut i: usize = 0;
        while i < self.cursors.len()
            invariant
                self.wf(),
                next == self.log@.len(),
                i <= self.cursors@.len(),
                forall|j: int| 0 <= j < i ==> self.log@.len() - self.cursors@[j] < self.depth,
            decreases self.cursors@.len() - i,
        {
            if next - self.cursors[i] >= self.depth {
                assert(self.cursors()[i as int] == self.cursors@[i as int]);
                return false;
            }
            i = i + 1;
        }
        assert forall|j: int| 0 <= j < self.cursors().len() implies self.log().len()
            - #[trigger] self.cursors()[j] < self.depth() by {
            assert(self.cursors()[j] == self.cursors@[j]);
        }
        true
    }

    /// Adds the next upstream item for every subscriber.
    pub fn push(&mut self, item: I)
        requires
            old(self).wf(),
            old(self).ready(),
            old(self).log().len() < usize::MAX,
        ensures
            final(self).wf(),
            final(self).log() == old(self).log().push(item),
            final(self).cursors() == old(self).cursors(),
            final(self).joined() == old(self).joined(),
            final(self).depth() == old(self).depth(),
    {
        let ghost old_log = self.log@;
        proof {
            assert forall|i: int| 0 <= i < self.cursors@.len() implies old_log.len()
                - self.cursors@[i] < self.depth by {
                assert(self.cursors()[i] == self.cursors@[i]);
            }
        }
        self.items.push_back(item);
        self.log = Ghost(old_log.push(item));
        assert(self.items@ =~= self.log@.subrange(self.base as int, self.log@.len() as int));
    }

    /// The next item waiting for subscriber `id`, if any.
    pub fn peek(&self, id: usize) -> (r: Option<&I>)
        requires
            self.wf(),
            id < self.cursors().len(),
        ensures
            self.cursors()[id as int] < self.log().len() ==> r == Some(
                &self.log()[self.cursors()[id as int]],
            ),
            self.cursors()[id as int] == self.log().len() ==> r is None,
    {
        let c = self.cursors[id];
        assert(self.cursors()[id as int] == c);
        if c - self.base < self.items.len() {
            Some(&self.items[c - self.base])
        } else {
            None
        }
    }

    /// Marks the item waiting for subscriber `id` as delivered.
    pub fn advance(&mut self, id: usize)
        requires
            old(self).wf(),
            id < old(self).cursors().len(),
            old(self).cursors()[id as int] < old(self).log().len(),
        ensures
            final(self).wf(),
            final(self).log() == old(self).log(),
            final(self).joined() == old(self).joined(),
            final(self).depth() == old(self).depth(),
            final(self).cursors() == old(self).cursors().update(
                id as int,
                old(self).cursors()[id as int] + 1,
            ),
    {
        let c = self.cursors[id];
        assert(old(self).cursors()[id as int] == c);
        self.cursors.set(id, c + 1);
        assert(self.cursors() =~= old(self).cursors().update(id as int, c + 1));
        self.prune();
    }

    /// Drops the items that every subscriber has read.
    fn prune(&mut self)
        requires
            old(self).wf(),
        ensures
            final(self).wf(),
            final(self).log() == old(self).log(),
            final(self).joined() == old(self).joined(),
            final(self).cursors() == old(self).cursors(),
            final(self).depth() == old(self).depth(),
    {
        let mut low = self.base + self.items.len();
        let mut i: usize = 0;
        while i < self.cursors.len()
            invariant
                self.wf(),
                i <= self.cursors@.len(),
                self.base <= low <= self.log@.len(),
                forall|j: int| 0 <= j < i ==> low <= self.cursors@[j],
            decreases self.cursors@.len() - i,
        {
            if self.cursors[i] < low {
                low = self.cursors[i];
            }
            i = i + 1;
        }
        while self.base < low
            invariant
                self.wf(),
                self.base <= low <= self.log@.len(),
                forall|j: int| 0 <= j < self.cursors@.len() ==> low <= self.cursors@[j],
                self.log@ == old(self).log@,
                self.joined@ == old(self).joined@,
                self.cursors@ == old(self).cursors@,
                self.depth == old(self).depth,
            decreases low - self.base,
        {
            self.items.pop_front();
            self.base = self.base + 1;
            assert(self.items@ =~= self.log@.subrange(self.base as int, self.log@.len() as int));
        }
    }
}

/// One step of a fan-out session.
pub enum Step<I> {
    /// The next upstream item arrives.
    Item(I),
    /// A subscriber registers.
    Subscribe,
    /// Subscriber `id` takes the item waiting for it, if any.
    Take(int),
}

/// Log, registration points, cursors and what each subscriber has taken,
/// after `steps`, each performed as `push`, `receive`, `peek` and `advance` do.
pub open spec fn replay<I>(
    log: Seq<I>,
    joined: Seq<int>,
    cursors: Seq<int>,
    taken: Seq<Seq<I>>,
    steps: Seq<Step<I>>,
) -> (Seq<I>, Seq<int>, Seq<int>, Seq<Seq<I>>)
    decreases steps.len(),
{
    if steps.len() == 0 {
        (log, joined, cursors, taken)
    } else {
        let (l, j, c, t) = replay(log, joined, cursors, taken, steps.drop_last());
        match steps.last() {
            Step::Item(x) => (l.push(x), j, c, t),
            Step::Subscribe => (l, j.push(l.len() as int), c.push(l.len() as int), t.push(
                Seq::empty(),
            )),
            Step::Take(id) => if 0 <= id < c.len() && c[id] < l.len() {
                (l, j, c.update(id, c[id] + 1), t.update(id, t[id].push(l[c[id]])))
            } else {
                (l, j, c, t)
            },
        }
    }
}

/// Each subscriber has taken exactly the upstream items since it registered,
/// each once and in upstream order.
pub open spec fn delivered_in_order<I>(
    log: Seq<I>,
    joined: Seq<int>,
    cursors: Seq<int>,
    taken: Seq<Seq<I>>,
) -> bool {
    &&& joined.len() == cursors.len()
    &&& cursors.len() == taken.len()
    &&& forall|i: int|
        0 <= i < cursors.len() ==> 0 <= #[trigger] joined[i] && joined[i] <= cursors[i]
            && cursors[i] <= log.len()
    &&& forall|i: int|
        0 <= i < cursors.len() ==> #[trigger] taken[i] == log.subrange(joined[i], cursors[i])
}

/// Whatever items arrive, subscribers register and take items, every
/// subscriber receives each upstream item from its registration on exactly
/// once, in upstream order.
pub proof fn lemma_delivery_in_order<I>(
    log: Seq<I>,
    joined: Seq<int>,
    cursors: Seq<int>,
    taken: Seq<Seq<I>>,
    steps: Seq<Step<I>>,
)
    requires
        delivered_in_order(log, joined, cursors, taken),
    ensures
        ({
            let (l, j, c, t) = replay(log, joined, cursors, taken, steps);
            delivered_in_order(l, j, c, t) && log.is_prefix_of(l)
        }),
    decreases steps.len(),
{
    if steps.len() == 0 {
        assert(log.subrange(0, log.len() as int) =~= log);
    } else {
        lemma_delivery_in_order(log, joined, cursors, taken, steps.drop_last());
        let (l, j, c, t) = replay(log, joined, cursors, taken, steps.drop_last());
        assert(delivered_in_order(l, j, c, t));
        match steps.last() {
            Step::Item(x) => {
                let l2 = l.push(x);
                assert forall|i: int| 0 <= i < c.len() implies #[trigger] t[i] == l2.subrange(
                    j[i],
                    c[i],
                ) by {
                    assert(0 <= j[i] && j[i] <= c[i] && c[i] <= l.len());
                    assert(l2.subrange(j[i], c[i]) =~= l.subrange(j[i], c[i]));
                }
                assert(log.is_prefix_of(l2));
                assert(delivered_in_order(l2, j, c, t));
            },
            Step::Subscribe => {
                let n = l.len() as int;
                let j2 = j.push(n);
                let c2 = c.push(n);
                let t2 = t.push(Seq::<I>::empty());
                assert forall|i: int| 0 <= i < c2.len() implies 0 <= #[trigger] j2[i] && j2[i]
                    <= c2[i] && c2[i] <= l.len() by {
                    if i < c.len() {
                        assert(0 <= j[i] && j[i] <= c[i] && c[i] <= l.len());
                    }
                }
                assert forall|i: int| 0 <= i < c2.len() implies #[trigger] t2[i] == l.subrange(
                    j2[i],
                    c2[i],
                ) by {
                    if i == c.len() {
                        assert(l.subrange(n, n) =~= Seq::<I>::empty());
                    } else {
                        assert(t[i] == l.subrange(j[i], c[i]));
                    }
                }
                assert(delivered_in_order(l, j2, c2, t2));
            },
            Step::Take(id) => {
                if 0 <= id < c.len() && c[id] < l.len() {
                    let c2 = c.update(id, c[id] + 1);
                    let t2 = t.update(id, t[id].push(l[c[id]]));
                    assert forall|i: int| 0 <= i < c2.len() implies 0 <= #[trigger] j[i] && j[i]
                        <= c2[i] && c2[i] <= l.len() by {
                        assert(0 <= j[i] && j[i] <= c[i] && c[i] <= l.len());
                    }
                    assert forall|i: int| 0 <= i < c2.len() implies #[trigger] t2[i]
                        == l.subrange(j[i], c2[i]) by {
                        assert(0 <= j[i] && j[i] <= c[i] && c[i] <= l.len());
                        assert(t[i] == l.subrange(j[i], c[i]));
                        if i == id {
                            assert(l.subrange(j[i], c2[i]) =~= l.subrange(j[i], c[i]).push(
                                l[c[i]],
                            ));
                        }
                    }
                    assert(delivered_in_order(l, j, c2, t2));
                }
            },
        }
    }
}

} // verus!
