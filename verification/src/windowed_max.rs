//! The maximum over the most recent samples of a stream.
use vstd::prelude::*;

verus! {

/// The greatest of `samples`, or 0 where there is none.
pub open spec fn max_of(samples: Seq<usize>) -> usize
    decreases samples.len(),
{
    if samples.len() == 0 {
        0
    } else {
        let rest = max_of(samples.drop_last());
        if samples.last() >= rest {
            samples.last()
        } else {
            rest
        }
    }
}

/// `max_of` is an upper bound of the samples, and one of them unless there
/// is none.
pub proof fn lemma_max_of(samples: Seq<usize>)
    ensures
        forall|i: int| 0 <= i < samples.len() ==> samples[i] <= max_of(samples),
        samples.len() > 0 ==> samples.contains(max_of(samples)),
        samples.len() == 0 ==> max_of(samples) == 0,
    decreases samples.len(),
{
    if samples.len() > 0 {
        let front = samples.drop_last();
        lemma_max_of(front);
        assert forall|i: int| 0 <= i < samples.len() implies samples[i] <= max_of(samples) by {
            if i < front.len() {
                assert(front[i] == samples[i]);
            }
        }
        if max_of(samples) == samples.last() {
            assert(samples[samples.len() - 1] == max_of(samples));
        } else {
            let i = choose|i: int| 0 <= i < front.len() && front[i] == max_of(front);
            assert(samples[i] == max_of(samples));
        }
    }
}

/// The least of `samples`, or 0 where there is none.
pub open spec fn min_of(samples: Seq<usize>) -> usize
    decreases samples.len(),
{
    if samples.len() == 0 {
        0
    } else if samples.len() == 1 {
        samples[0]
    } else {
        let rest = min_of(samples.drop_last());
        if samples.last() <= rest {
            samples.last()
        } else {
            rest
        }
    }
}

/// `min_of` is a lower bound of the samples, and one of them unless there is
/// none.
pub proof fn lemma_min_of(samples: Seq<usize>)
    ensures
        forall|i: int| 0 <= i < samples.len() ==> min_of(samples) <= samples[i],
        samples.len() > 0 ==> samples.contains(min_of(samples)),
    decreases samples.len(),
{
    if samples.len() > 1 {
        let front = samples.drop_last();
        lemma_min_of(front);
        assert forall|i: int| 0 <= i < samples.len() implies min_of(samples) <= samples[i] by {
            if i < front.len() {
                assert(front[i] == samples[i]);
            }
        }
        if min_of(samples) == samples.last() {
            assert(samples[samples.len() - 1] == min_of(samples));
        } else {
            let i = choose|i: int| 0 <= i < front.len() && front[i] == min_of(front);
            assert(samples[i] == min_of(samples));
        }
    } else if samples.len() == 1 {
        assert(samples[0] == min_of(samples));
    }
}

/// What a window of `capacity` samples holds after `sample` has come in:
/// the sample joins at the end, and the oldest leaves if the window was full.
pub open spec fn pushed(window: Seq<usize>, capacity: usize, sample: usize) -> Seq<usize> {
    if window.len() < capacity {
        window.push(sample)
    } else {
        window.subrange(1, window.len() as int).push(sample)
    }
}

/// A ring of the last `capacity` samples.
pub struct WindowedMax {
    ring: Vec<usize>,
    oldest: usize,
    capacity: usize,
}

impl View for WindowedMax {
    type V = Seq<usize>;

    /// The samples in the window, oldest first.
    closed spec fn view(&self) -> Seq<usize> {
        Seq::new(self.ring.len() as nat, |i: int| self.ring[self.slot(i)])
    }
}

impl WindowedMax {
    spec fn slot(&self, i: int) -> int {
        if self.oldest + i < self.ring.len() {
            self.oldest + i
        } else {
            self.oldest + i - self.ring.len()
        }
    }

    /// The ring holds at most `capacity` samples, and it starts at slot 0
    /// until it is full. Every window that this module hands out is well
    /// formed.
    pub closed spec fn wf(&self) -> bool {
        &&& self.capacity > 0
        &&& self.ring.len() <= self.capacity
        &&& self.oldest < self.capacity
        &&& self.ring.len() < self.capacity ==> self.oldest == 0
        &&& self.oldest <= self.ring.len()
    }

    /// How many samples the window can hold.
    pub closed spec fn capacity(&self) -> usize {
        self.capacity
    }

    /// An empty window for `capacity` samples.
    pub fn new(capacity: usize) -> (res: WindowedMax)
        requires
            capacity > 0,
        ensures
            res.wf(),
            res.capacity() == capacity,
            res@ == Seq::<usize>::empty(),
    {
        let res = WindowedMax { ring: Vec::new(), oldest: 0, capacity };
        assert(res@ =~= Seq::<usize>::empty());
        res
    }

    /// How many samples the window holds.
    pub fn len(&self) -> (res: usize)
        requires
            self.wf(),
        ensures
            res == self@.len(),
            res <= self.capacity(),
    {
        self.ring.len()
    }

    /// Whether the window holds as many samples as it can.
    pub fn is_full(&self) -> (res: bool)
        requires
            self.wf(),
        ensures
            res == (self@.len() == self.capacity()),
    {
        self.ring.len() == self.capacity
    }

    /// Takes `sample` in, and drops the oldest sample if the window is full.
    pub fn push(&mut self, sample: usize)
        requires
            old(self).wf(),
        ensures
            final(self).wf(),
            final(self).capacity() == old(self).capacity(),
            final(self)@ == pushed(old(self)@, old(self).capacity(), sample),
    {
        let ghost before = *self;
        if self.ring.len() < self.capacity {
            self.ring.push(sample);
            assert(self@ =~= before@.push(sample));
        } else {
            self.ring.set(self.oldest, sample);
            self.oldest = if self.oldest + 1 == self.capacity {
                0
            } else {
                self.oldest + 1
            };
            proof {
                let expected = before@.subrange(1, before@.len() as int).push(sample);
                assert(self@.len() == expected.len());
                assert forall|i: int| 0 <= i < expected.len() implies self@[i] == expected[i] by {
                    if i < expected.len() - 1 {
                        assert(expected[i] == before@[i + 1]);
                        assert(self.slot(i) == before.slot(i + 1));
                    } else {
                        assert(self.slot(i) == before.oldest);
                    }
                }
                assert(self@ =~= expected);
            }
        }
    }

    fn sample(&self, i: usize) -> (res: usize)
        requires
            self.wf(),
            i < self@.len(),
        ensures
            res == self@[i as int],
    {
        let n = self.ring.len();
        let at = if i < n - self.oldest {
            self.oldest + i
        } else {
            i - (n - self.oldest)
        };
        self.ring[at]
    }

    /// The least sample in the window, or 0 where it is empty.
    pub fn min(&self) -> (res: usize)
        requires
            self.wf(),
        ensures
            res == min_of(self@),
    {
        let n = self.ring.len();
        if n == 0 {
            return 0;
        }
        let mut best: usize = self.sample(0);
        let mut i: usize = 1;
        assert(self@.subrange(0, 1)[0] == self@[0]);
        while i < n
            invariant
                self.wf(),
                n == self.ring.len(),
                1 <= i <= n,
                best == min_of(self@.subrange(0, i as int)),
            decreases n - i,
        {
            let sample = self.sample(i);
            proof {
                let upto = self@.subrange(0, i + 1);
                assert(upto.drop_last() =~= self@.subrange(0, i as int));
                assert(upto.last() == sample);
            }
            if sample <= best {
                best = sample;
            }
            i += 1;
        }
        assert(self@.subrange(0, n as int) =~= self@);
        best
    }

    /// The greatest sample in the window, or 0 where it is empty.
    pub fn max(&self) -> (res: usize)
        requires
            self.wf(),
        ensures
            res == max_of(self@),
    {
        let n = self.ring.len();
        let mut best: usize = 0;
        let mut i: usize = 0;
        while i < n
            invariant
                self.wf(),
                n == self.ring.len(),
                i <= n,
                best == max_of(self@.subrange(0, i as int)),
            decreases n - i,
        {
            let sample = self.sample(i);
            proof {
                let upto = self@.subrange(0, i + 1);
                assert(upto.drop_last() =~= self@.subrange(0, i as int));
                assert(upto.last() == sample);
            }
            if sample >= best {
                best = sample;
            }
            i += 1;
        }
        assert(self@.subrange(0, n as int) =~= self@);
        best
    }
}

} // verus!
