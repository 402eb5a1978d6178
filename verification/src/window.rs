//! A rolling window over a stream of samples.
use std::collections::VecDeque;
use vstd::prelude::*;

verus! {

/// The newest samples of a stream, at most `capacity` of them.
pub struct RollingWindow<S> {
    items: VecDeque<S>,
    capacity: usize,
}

/// The last `n` items of a sequence, or all of them if there are fewer.
pub open spec fn last_n<S>(s: Seq<S>, n: nat) -> Seq<S> {
    if s.len() <= n {
        s
    } else {
        s.skip(s.len() - n)
    }
}

impl<S> View for RollingWindow<S> {
    type V = Seq<S>;

    /// The samples, oldest first.
    closed spec fn view(&self) -> Seq<S> {
        self.items@
    }
}

impl<S> RollingWindow<S> {
    /// How many samples the window keeps.
    pub closed spec fn limit(self) -> nat {
        self.capacity as nat
    }

    /// A window never holds more than it is meant to keep.
    pub open spec fn wf(self) -> bool {
        self@.len() <= self.limit()
    }

    /// An empty window.
    pub fn new(capacity: usize) -> (r: Self)
        ensures
            r.wf(),
            r.limit() == capacity,
            r@ == Seq::<S>::empty(),
    {
        RollingWindow { items: VecDeque::new(), capacity }
    }

    /// Takes in a sample and lets the oldest go where there is no room for it.
    pub fn push(&mut self, sample: S)
        requires
            old(self).wf(),
        ensures
            final(self).wf(),
            final(self).limit() == old(self).limit(),
            final(self)@ == last_n(old(self)@.push(sample), old(self).limit()),
    {
        self.items.push_back(sample);
        let ghost all = self.items@;
        assert(all.skip(0) =~= all);
        while self.items.len() > self.capacity
            invariant
                self.capacity == old(self).capacity,
                self.items@.len() <= all.len(),
                self.items@ == all.skip(all.len() - self.items@.len()),
                all.len() > self.capacity ==> self.items@.len() >= self.capacity,
                all.len() <= self.capacity ==> self.items@ == all,
            decreases self.items@.len(),
        {
            let _ = self.items.pop_front();
            assert(self.items@ =~= all.skip(all.len() - self.items@.len()));
        }
    }

    /// The number of samples in the window.
    pub fn len(&self) -> (r: usize)
        ensures
            r == self@.len(),
    {
        self.items.len()
    }
}

impl<S: Copy> RollingWindow<S> {
    /// The samples, oldest first.
    pub fn to_series(&self) -> (r: Vec<S>)
        ensures
            r@ == self@,
    {
        let mut series: Vec<S> = Vec::new();
        let mut i: usize = 0;
        while i < self.items.len()
            invariant
                i <= self.items@.len(),
                series@ == self.items@.take(i as int),
            decreases self.items@.len() - i,
        {
            series.push(self.items[i]);
            assert(self.items@.take(i + 1) =~= self.items@.take(i as int).push(
                self.items@[i as int],
            ));
            i = i + 1;
        }
        assert(self.items@.take(i as int) =~= self.items@);
        series
    }
}

/// What a window of `limit` samples holds after a stream went through it.
pub open spec fn streamed<S>(limit: nat, stream: Seq<S>) -> Seq<S>
    decreases stream.len(),
{
    if stream.len() == 0 {
        Seq::empty()
    } else {
        last_n(streamed(limit, stream.drop_last()).push(stream.last()), limit)
    }
}

/// A window always holds the newest samples of the stream, in their order, as many as it keeps.
pub proof fn law_window_holds_the_newest<S>(limit: nat, stream: Seq<S>)
    ensures
        streamed(limit, stream) == last_n(stream, limit),
    decreases stream.len(),
{
    if stream.len() > 0 {
        law_window_holds_the_newest(limit, stream.drop_last());
        assert(streamed(limit, stream) =~= last_n(stream, limit));
    }
}

/// The last items of a sequence are as many as there are, up to `n`, and each stands as far from
/// the end as it does in the sequence.
pub proof fn law_last_items_count_from_the_end<S>(s: Seq<S>, n: nat)
    ensures
        last_n(s, n).len() == if s.len() < n {
            s.len()
        } else {
            n
        },
        forall|back: int|
            1 <= back <= last_n(s, n).len() ==> #[trigger] last_n(s, n)[last_n(s, n).len() - back]
                == s[s.len() - back],
{
}

/// A full window lets exactly its oldest sample go for a new one, a window with room lets none go,
/// and a window that keeps nothing stays empty.
pub proof fn law_new_sample_replaces_the_oldest<S>(window: Seq<S>, limit: nat, sample: S)
    requires
        window.len() <= limit,
    ensures
        limit == 0 ==> last_n(window.push(sample), limit).len() == 0,
        limit > 0 ==> last_n(window.push(sample), limit).last() == sample,
        window.len() < limit ==> last_n(window.push(sample), limit).drop_last() == window,
        window.len() == limit && limit > 0 ==> last_n(window.push(sample), limit).drop_last()
            == window.skip(1),
{
    if limit > 0 {
        assert(last_n(window.push(sample), limit).drop_last() =~= if window.len() < limit {
            window
        } else {
            window.skip(1)
        });
    }
}

} // verus!
