//! A bounded queue ordered by tick, first in first out within one tick.

use vstd::prelude::*;

verus! {

/// No entry holds a later tick than an entry behind it.
pub open spec fn sorted_by_tick<T>(s: Seq<(usize, T)>) -> bool {
    forall|i: int, j: int| 0 <= i <= j < s.len() ==> s[i].0 <= s[j].0
}

/// The place where an entry for `tick` goes: behind every entry whose tick
/// is not later, so that entries of one tick keep their order of arrival.
pub open spec fn insert_pos<T>(s: Seq<(usize, T)>, tick: usize) -> int
    decreases s.len(),
{
    if s.len() == 0 || s.last().0 <= tick {
        s.len() as int
    } else {
        insert_pos(s.drop_last(), tick)
    }
}

/// The queue after an entry for `tick` arrived.
pub open spec fn enqueued<T>(s: Seq<(usize, T)>, tick: usize, item: T) -> Seq<(usize, T)> {
    s.insert(insert_pos(s, tick), (tick, item))
}

/// Whether the earliest entry is due before `end`.
pub open spec fn has_due<T>(s: Seq<(usize, T)>, end: usize) -> bool {
    s.len() > 0 && s[0].0 < end
}

/// The insertion place lies within the queue or just behind it; every
/// entry from it on is later than `tick`, and the entry in front of it is not.
pub proof fn lemma_insert_pos_bounds<T>(s: Seq<(usize, T)>, tick: usize)
    ensures
        0 <= insert_pos(s, tick) <= s.len(),
        forall|i: int| insert_pos(s, tick) <= i < s.len() ==> s[i].0 > tick,
        insert_pos(s, tick) > 0 ==> s[insert_pos(s, tick) - 1].0 <= tick,
    decreases s.len(),
{
    if s.len() == 0 || s.last().0 <= tick {
    } else {
        let d = s.drop_last();
        lemma_insert_pos_bounds(d, tick);
        let p = insert_pos(s, tick);
        assert forall|i: int| p <= i < s.len() implies s[i].0 > tick by {
            if i < d.len() {
                assert(d[i] == s[i]);
            }
        }
        if p > 0 {
            assert(d[p - 1] == s[p - 1]);
        }
    }
}

/// In a sorted queue every entry in front of the insertion place is not later than `tick`.
pub proof fn lemma_insert_pos_prefix<T>(s: Seq<(usize, T)>, tick: usize)
    requires
        sorted_by_tick(s),
    ensures
        forall|i: int| 0 <= i < insert_pos(s, tick) ==> s[i].0 <= tick,
{
    lemma_insert_pos_bounds(s, tick);
}

/// Arrival keeps the queue sorted.
pub proof fn lemma_enqueued_sorted<T>(s: Seq<(usize, T)>, tick: usize, item: T)
    requires
        sorted_by_tick(s),
    ensures
        sorted_by_tick(enqueued(s, tick, item)),
        enqueued(s, tick, item).len() == s.len() + 1,
{
    lemma_insert_pos_bounds(s, tick);
    lemma_insert_pos_prefix(s, tick);
    let p = insert_pos(s, tick);
    let r = enqueued(s, tick, item);
    assert forall|i: int, j: int| 0 <= i <= j < r.len() implies r[i].0 <= r[j].0 by {
        if i < p && j < p {
        } else if i < p && j == p {
        } else if i < p && j > p {
            assert(r[j] == s[j - 1]);
        } else if i == p && j > p {
            assert(r[j] == s[j - 1]);
        } else if i > p {
            assert(r[i] == s[i - 1]);
            assert(r[j] == s[j - 1]);
        }
    }
}

/// A queue of items, each with the tick at which it is due.
pub struct TickQueue<T> {
    entries: Vec<(usize, T)>,
    capacity: usize,
}

impl<T> TickQueue<T> {
    /// The entries, earliest first.
    pub closed spec fn view(&self) -> Seq<(usize, T)> {
        self.entries@
    }

    /// The number of entries the queue can hold.
    pub closed spec fn spec_capacity(&self) -> nat {
        self.capacity as nat
    }

    /// The queue is sorted and within its capacity.
    pub open spec fn wf(&self) -> bool {
        &&& sorted_by_tick(self@)
        &&& self@.len() <= self.spec_capacity()
    }

    /// An empty queue that holds up to `capacity` entries.
    pub fn with_capacity(capacity: usize) -> (q: Self)
        ensures
            q.wf(),
            q@ == Seq::<(usize, T)>::empty(),
            q.spec_capacity() == capacity,
    {
        TickQueue { entries: Vec::new(), capacity }
    }

    #[verifier::when_used_as_spec(spec_capacity_usize)]
    pub fn capacity(&self) -> (c: usize)
        ensures
            c == self.spec_capacity(),
    {
        self.capacity
    }

    pub closed spec fn spec_capacity_usize(&self) -> usize {
        self.capacity
    }

    pub fn len(&self) -> (n: usize)
        ensures
            n == self@.len(),
    {
        self.entries.len()
    }

    pub fn is_empty(&self) -> (b: bool)
        ensures
            b == (self@.len() == 0),
    {
        self.entries.len() == 0
    }

    /// The tick of the earliest entry.
    pub fn peek_tick(&self) -> (t: Option<usize>)
        ensures
            t == (if self@.len() > 0 {
                Some(self@[0].0)
            } else {
                None
            }),
    {
        if self.entries.len() > 0 {
            Some(self.entries[0].0)
        } else {
            None
        }
    }

    /// Adds `item` at `tick`, behind everything already queued for that tick.
    /// A full queue hands the item back.
    pub fn enqueue(&mut self, tick: usize, item: T) -> (r: Result<(), T>)
        requires
            old(self).wf(),
        ensures
            final(self).wf(),
            final(self).spec_capacity() == old(self).spec_capacity(),
            old(self)@.len() < old(self).spec_capacity() ==> r.is_ok()
                && final(self)@ == enqueued(old(self)@, tick, item),
            old(self)@.len() >= old(self).spec_capacity() ==> r == Err::<(), T>(item)
                && final(self)@ == old(self)@,
    {
        if self.entries.len() >= self.capacity {
            return Err(item);
        }
        let mut i: usize = self.entries.len();
        assert(self.entries@.take(i as int) == self.entries@);
        while i > 0 && self.entries[i - 1].0 > tick
            invariant
                i <= self.entries.len(),
                insert_pos(self.entries@, tick) == insert_pos(self.entries@.take(i as int), tick),
            decreases i,
        {
            proof {
                let s = self.entries@.take(i as int);
                assert(s.drop_last() == self.entries@.take(i - 1));
            }
            i -= 1;
        }
        proof {
            let s = self.entries@.take(i as int);
            if i > 0 {
                assert(s.last() == self.entries@[i - 1]);
            }
            assert(insert_pos(s, tick) == i);
            lemma_enqueued_sorted(self.entries@, tick, item);
        }
        self.entries.insert(i, (tick, item));
        Ok(())
    }

    /// Takes the earliest entry if it is due before `end`.
    pub fn dequeue_lt(&mut self, end: usize) -> (r: Option<(usize, T)>)
        requires
            old(self).wf(),
        ensures
            final(self).wf(),
            final(self).spec_capacity() == old(self).spec_capacity(),
            has_due(old(self)@, end) ==> r == Some(old(self)@[0])
                && final(self)@ == old(self)@.remove(0),
            !has_due(old(self)@, end) ==> r.is_none() && final(self)@ == old(self)@,
    {
        if self.entries.len() > 0 && self.entries[0].0 < end {
            let e = self.entries.remove(0);
            Some(e)
        } else {
            None
        }
    }
}

} // verus!
