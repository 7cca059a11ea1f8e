//! Smoothing: the mean of the most recent temperature samples.

use vstd::prelude::*;
use arraydeque::{ArrayDeque, Wrapping};

verus! {

/// The most samples a filter can hold: the size of the ring behind it.
pub const MAX_WINDOW: usize = 50;

/// A ring of at most fifty samples, oldest first: an `ArrayDeque` of fifty
/// slots that overwrites its front when full. Verus cannot look into it;
/// what it holds is `ring_items`.
#[verifier::external_body]
pub struct SampleRing {
    inner: ArrayDeque<u8, 50, Wrapping>,
}

/// The samples in a ring, oldest first.
pub uninterp spec fn ring_items(ring: SampleRing) -> Seq<u8>;

/// `ArrayDeque::new`: a ring that holds nothing.
#[verifier::external_body]
fn ring_new() -> (ring: SampleRing)
    ensures
        ring_items(ring) == Seq::<u8>::empty(),
{
    SampleRing { inner: ArrayDeque::new() }
}

/// `ArrayDeque::len`: the number of samples held.
#[verifier::external_body]
fn ring_len(ring: &SampleRing) -> (len: usize)
    ensures
        len == ring_items(*ring).len(),
{
    ring.inner.len()
}

/// `ArrayDeque::get`: the sample at a place counted from the oldest, or
/// nothing past the end.
#[verifier::external_body]
fn ring_get(ring: &SampleRing, index: usize) -> (sample: Option<u8>)
    ensures
        index < ring_items(*ring).len() ==> sample == Some(ring_items(*ring)[index as int]),
        index >= ring_items(*ring).len() ==> sample is None,
{
    ring.inner.get(index).copied()
}

/// `ArrayDeque::pop_front`: takes the oldest sample out and returns it, or
/// returns nothing and changes nothing where the ring is empty.
#[verifier::external_body]
fn ring_pop_front(ring: &mut SampleRing) -> (oldest: Option<u8>)
    ensures
        ring_items(*old(ring)).len() == 0 ==> oldest is None && ring_items(*final(ring))
            == ring_items(*old(ring)),
        ring_items(*old(ring)).len() > 0 ==> oldest == Some(ring_items(*old(ring))[0])
            && ring_items(*final(ring)) == ring_items(*old(ring)).drop_first(),
{
    ring.inner.pop_front()
}

/// `push_back` of a wrapping `ArrayDeque`: appends the sample as the newest.
/// A ring that already holds fifty first gives up its oldest, which is
/// returned; otherwise nothing is returned.
#[verifier::external_body]
fn ring_push_back(ring: &mut SampleRing, sample: u8) -> (evicted: Option<u8>)
    requires
        ring_items(*old(ring)).len() <= 50,
    ensures
        ring_items(*old(ring)).len() < 50 ==> evicted is None && ring_items(*final(ring))
            == ring_items(*old(ring)).push(sample),
        ring_items(*old(ring)).len() == 50 ==> evicted == Some(ring_items(*old(ring))[0])
            && ring_items(*final(ring)) == ring_items(*old(ring)).drop_first().push(sample),
{
    ring.inner.push_back(sample)
}

/// The sum of a run of samples.
pub open spec fn sum(samples: Seq<u8>) -> nat
    decreases samples.len(),
{
    if samples.len() == 0 {
        0
    } else {
        sum(samples.drop_last()) + samples.last() as nat
    }
}

/// The mean of a run of samples, rounded down; of no samples, nothing.
pub open spec fn spec_mean(samples: Seq<u8>) -> Option<u8> {
    if samples.len() == 0 {
        None
    } else {
        Some((sum(samples) / samples.len()) as u8)
    }
}

/// What a window of `capacity` samples holds once one more has arrived: the
/// new sample last, and the oldest gone if the window was full.
pub open spec fn pushed(samples: Seq<u8>, capacity: nat, sample: u8) -> Seq<u8> {
    if samples.len() >= capacity {
        samples.drop_first().push(sample)
    } else {
        samples.push(sample)
    }
}

/// No sample is above 255, so neither is the sum above 255 times their number.
pub proof fn lemma_sum_bound(samples: Seq<u8>)
    ensures
        sum(samples) <= 255 * samples.len(),
    decreases samples.len(),
{
    if samples.len() > 0 {
        lemma_sum_bound(samples.drop_last());
    }
}

/// A mean of samples is a sample's size: it lies within 0..=255.
pub proof fn lemma_mean_bound(samples: Seq<u8>)
    requires
        samples.len() > 0,
    ensures
        sum(samples) / samples.len() <= 255,
{
    lemma_sum_bound(samples);
    let n = samples.len() as int;
    let total = sum(samples) as int;
    assert(total / n <= 255) by (nonlinear_arith)
        requires
            n > 0,
            0 <= total <= 255 * n,
    ;
}

/// A window over the most recent samples of a temperature, and their mean.
pub struct MovingAverageFilter {
    ring: SampleRing,
    capacity: usize,
}

impl MovingAverageFilter {
    /// The samples held, oldest first.
    pub closed spec fn samples(&self) -> Seq<u8> {
        ring_items(self.ring)
    }

    /// The most samples the window holds.
    pub closed spec fn capacity(&self) -> nat {
        self.capacity as nat
    }

    /// What every filter satisfies, from `new` on: a capacity from one to `MAX_WINDOW`, and
    /// no more samples than that.
    pub open spec fn wf(&self) -> bool {
        &&& 1 <= self.capacity() <= MAX_WINDOW
        &&& self.samples().len() <= self.capacity()
    }

    /// An empty window for `capacity` samples; none where `capacity` is zero
    /// or above `MAX_WINDOW`.
    pub fn new(capacity: usize) -> (filter: Option<MovingAverageFilter>)
        ensures
            filter is Some <==> 1 <= capacity <= MAX_WINDOW,
            filter matches Some(f) ==> f.wf() && f.capacity() == capacity && f.samples()
                == Seq::<u8>::empty(),
    {
        if capacity == 0 || capacity > MAX_WINDOW {
            None
        } else {
            Some(MovingAverageFilter { ring: ring_new(), capacity })
        }
    }

    /// The most samples the window holds.
    pub fn max_len(&self) -> (capacity: usize)
        requires
            self.wf(),
        ensures
            capacity == self.capacity(),
            1 <= capacity <= MAX_WINDOW,
    {
        self.capacity
    }

    /// The number of samples held.
    pub fn len(&self) -> (len: usize)
        requires
            self.wf(),
        ensures
            len == self.samples().len(),
            len <= self.capacity(),
    {
        ring_len(&self.ring)
    }

    /// Takes in a sample as the newest. A full window first drops its oldest,
    /// so that it never holds more than its capacity.
    pub fn push(&mut self, sample: u8)
        requires
            old(self).wf(),
        ensures
            final(self).samples() == pushed(old(self).samples(), old(self).capacity(), sample),
            final(self).capacity() == old(self).capacity(),
            final(self).wf(),
    {
        if self.capacity < MAX_WINDOW && ring_len(&self.ring) == self.capacity {
            let _ = ring_pop_front(&mut self.ring);
        }
        let _ = ring_push_back(&mut self.ring, sample);
    }

    /// The mean of the samples held, rounded down; nothing while the window
    /// is empty.
    pub fn mean(&self) -> (mean: Option<u8>)
        requires
            self.wf(),
        ensures
            mean == spec_mean(self.samples()),
            mean is Some <==> self.samples().len() > 0,
    {
        let len = ring_len(&self.ring);
        if len == 0 {
            return None;
        }
        let mut total: u16 = 0;
        let mut at: usize = 0;
        while at < len
            invariant
                at <= len == ring_items(self.ring).len() <= MAX_WINDOW,
                total == sum(ring_items(self.ring).take(at as int)),
            decreases len - at,
        {
            let sample = match ring_get(&self.ring, at) {
                Some(s) => s,
                None => 0,
            };
            proof {
                let upto = ring_items(self.ring).take(at + 1);
                assert(upto.drop_last() =~= ring_items(self.ring).take(at as int));
                assert(upto.last() == sample);
                lemma_sum_bound(ring_items(self.ring).take(at as int));
            }
            total = total + sample as u16;
            at = at + 1;
        }
        proof {
            assert(ring_items(self.ring).take(len as int) =~= ring_items(self.ring));
            lemma_mean_bound(ring_items(self.ring));
        }
        Some((total / len as u16) as u8)
    }
}

} // verus!
