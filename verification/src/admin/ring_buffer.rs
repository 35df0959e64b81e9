//! In-memory ring buffer for metric samples.

use std::collections::VecDeque;
use vstd::prelude::*;
use crate::admin::constants::METRICS_RING_BUFFER_CAPACITY;
use crate::admin::types::MetricSample;
use crate::text::{le, seq_le};

verus! {

broadcast use vstd::std_specs::vecdeque::group_vec_dequeue_axioms;

/// The last `cap` items of `s` (all of `s` when it is no longer than `cap`).
pub open spec fn keep_latest<T>(s: Seq<T>, cap: nat) -> Seq<T> {
    if s.len() <= cap {
        s
    } else {
        s.subrange(s.len() - cap, s.len() as int)
    }
}

/// Whether a timestamp lies in the inclusive range `[from, to]`, compared
/// as text.
pub open spec fn in_window(ts: Seq<char>, from: Seq<char>, to: Seq<char>) -> bool {
    seq_le(from, ts) && seq_le(ts, to)
}

/// The samples of `s` whose timestamp lies in `[from, to]`, in order.
pub open spec fn window(s: Seq<MetricSample>, from: Seq<char>, to: Seq<char>) -> Seq<MetricSample>
    decreases s.len(),
{
    if s.len() == 0 {
        Seq::empty()
    } else {
        let rest = window(s.drop_last(), from, to);
        if in_window(s.last().timestamp@, from, to) {
            rest.push(s.last())
        } else {
            rest
        }
    }
}

/// The samples that a sequence of references points to.
pub open spec fn derefs(s: Seq<&MetricSample>) -> Seq<MetricSample> {
    s.map_values(|p: &MetricSample| *p)
}

/// A fixed-capacity ring buffer that stores the most recent metric samples.
///
/// When the buffer is full, inserting a new sample discards the oldest entry.
/// The default capacity is 720 entries (one hour at 5-second intervals).
#[derive(Debug)]
pub struct MetricRingBuffer {
    buffer: VecDeque<MetricSample>,
    capacity: usize,
}

impl View for MetricRingBuffer {
    type V = Seq<MetricSample>;

    /// The stored samples, oldest first.
    closed spec fn view(&self) -> Seq<MetricSample> {
        self.buffer@
    }
}

impl MetricRingBuffer {
    #[verifier::type_invariant]
    spec fn well_formed(self) -> bool {
        &&& self.capacity > 0
        &&& self.buffer@.len() <= self.capacity
    }

    /// The capacity the buffer was made with.
    pub closed spec fn cap(&self) -> nat {
        self.capacity as nat
    }

    /// Create a new, empty ring buffer with the given capacity.
    pub fn new(capacity: usize) -> (r: Self)
        requires
            capacity > 0,
        ensures
            r@ == Seq::<MetricSample>::empty(),
            r.cap() == capacity,
    {
        MetricRingBuffer { buffer: VecDeque::with_capacity(capacity), capacity }
    }

    /// Create a ring buffer with the default capacity (720 entries).
    pub fn with_default_capacity() -> (r: Self)
        ensures
            r@ == Seq::<MetricSample>::empty(),
            r.cap() == METRICS_RING_BUFFER_CAPACITY,
    {
        Self::new(METRICS_RING_BUFFER_CAPACITY)
    }

    /// Push a new sample into the buffer. If the buffer is full, the oldest
    /// sample is discarded first.
    pub fn push(&mut self, sample: MetricSample)
        ensures
            final(self).cap() == old(self).cap(),
            old(self)@.len() == old(self).cap() ==> final(self)@ == old(self)@.drop_first().push(
                sample,
            ),
            old(self)@.len() < old(self).cap() ==> final(self)@ == old(self)@.push(sample),
            final(self)@ == keep_latest(old(self)@.push(sample), old(self).cap()),
            final(self)@.len() <= final(self).cap(),
    {
        proof {
            use_type_invariant(&*self);
        }
        let mut buf: VecDeque<MetricSample> = VecDeque::new();
        std::mem::swap(&mut buf, &mut self.buffer);
        if buf.len() == self.capacity {
            let _ = buf.pop_front();
        }
        buf.push_back(sample);
        self.buffer = buf;
        proof {
            let s = old(self).buffer@.push(sample);
            if old(self).buffer@.len() == old(self).capacity {
                assert(self.buffer@ =~= s.subrange(s.len() - self.capacity, s.len() as int));
            }
        }
    }

    /// The most recent sample, if any.
    pub fn latest(&self) -> (r: Option<&MetricSample>)
        ensures
            r is None <==> self@.len() == 0,
            r matches Some(x) ==> *x == self@.last(),
    {
        let n = self.buffer.len();
        if n == 0 {
            None
        } else {
            Some(&self.buffer[n - 1])
        }
    }

    /// All samples whose timestamp lies within `[from, to]` (inclusive,
    /// compared as text), oldest first.
    pub fn range(&self, from: &str, to: &str) -> (r: Vec<&MetricSample>)
        ensures
            derefs(r@) == window(self@, from@, to@),
    {
        let n = self.buffer.len();
        let mut out: Vec<&MetricSample> = Vec::new();
        let mut i: usize = 0;
        while i < n
            invariant
                n == self.buffer@.len(),
                i <= n,
                derefs(out@) == window(self.buffer@.subrange(0, i as int), from@, to@),
            decreases n - i,
        {
            let s = &self.buffer[i];
            proof {
                let pre = self.buffer@.subrange(0, i + 1);
                assert(pre.drop_last() =~= self.buffer@.subrange(0, i as int));
                assert(pre.last() == self.buffer@[i as int]);
            }
            if le(from, s.timestamp.as_str()) && le(s.timestamp.as_str(), to) {
                let ghost before = out@;
                out.push(s);
                proof {
                    assert(derefs(out@) =~= derefs(before).push(*s));
                }
            }
            i = i + 1;
        }
        proof {
            assert(self.buffer@.subrange(0, n as int) =~= self.buffer@);
        }
        out
    }

    /// All stored samples, oldest first.
    pub fn samples(&self) -> (r: Vec<&MetricSample>)
        ensures
            derefs(r@) == self@,
    {
        let n = self.buffer.len();
        let mut out: Vec<&MetricSample> = Vec::new();
        let mut i: usize = 0;
        while i < n
            invariant
                n == self.buffer@.len(),
                i <= n,
                derefs(out@) =~= self.buffer@.subrange(0, i as int),
            decreases n - i,
        {
            let ghost before = out@;
            out.push(&self.buffer[i]);
            proof {
                assert(derefs(out@) =~= derefs(before).push(self.buffer@[i as int]));
                assert(self.buffer@.subrange(0, i + 1) =~= self.buffer@.subrange(0, i as int).push(
                    self.buffer@[i as int],
                ));
            }
            i = i + 1;
        }
        out
    }

    /// The number of samples currently in the buffer.
    pub fn len(&self) -> (r: usize)
        ensures
            r == self@.len(),
            r <= self.cap(),
    {
        proof {
            use_type_invariant(self);
        }
        self.buffer.len()
    }

    /// Whether the buffer holds no samples.
    pub fn is_empty(&self) -> (r: bool)
        ensures
            r == (self@.len() == 0),
    {
        self.buffer.len() == 0
    }

    /// The buffer's capacity.
    pub fn capacity(&self) -> (r: usize)
        ensures
            r == self.cap(),
            r > 0,
    {
        proof {
            use_type_invariant(self);
        }
        self.capacity
    }

    /// Remove all samples from the buffer and return them, oldest first.
    pub fn drain_all(&mut self) -> (r: VecDeque<MetricSample>)
        ensures
            r@ == old(self)@,
            final(self)@ == Seq::<MetricSample>::empty(),
            final(self).cap() == old(self).cap(),
    {
        proof {
            use_type_invariant(&*self);
        }
        let mut out: VecDeque<MetricSample> = VecDeque::new();
        std::mem::swap(&mut out, &mut self.buffer);
        out
    }

    /// Remove all samples from the buffer.
    pub fn clear(&mut self)
        ensures
            final(self)@ == Seq::<MetricSample>::empty(),
            final(self).cap() == old(self).cap(),
    {
        proof {
            use_type_invariant(&*self);
        }
        self.buffer = VecDeque::new();
    }
}

/// Pushing into a buffer that already holds the latest `cap` samples keeps
/// the latest `cap` samples of everything pushed: after any sequence of
/// pushes the buffer holds exactly the most recent `cap` samples, in order.
pub proof fn lemma_keep_latest_push<T>(s: Seq<T>, x: T, cap: nat)
    requires
        cap > 0,
    ensures
        keep_latest(keep_latest(s, cap).push(x), cap) == keep_latest(s.push(x), cap),
{
    let k = keep_latest(s, cap);
    let t = s.push(x);
    if s.len() <= cap {
        assert(k =~= s);
    } else {
        assert(keep_latest(k.push(x), cap) =~= t.subrange(t.len() - cap, t.len() as int));
    }
}

} // verus!
