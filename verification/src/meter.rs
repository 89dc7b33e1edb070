use vstd::prelude::*;
use vstd::arithmetic::mul::{lemma_mul_is_distributive_sub_other_way, lemma_mul_strict_inequality};
use vstd::arithmetic::div_mod::lemma_multiply_divide_lt;

verus! {

/// Sum of the magnitudes held in a meter buffer.
pub open spec fn sum_of(s: Seq<u32>) -> int
    decreases s.len(),
{
    if s.len() == 0 {
        0
    } else {
        sum_of(s.drop_last()) + s.last()
    }
}

/// A meter buffer after one magnitude is inserted at the front: the newest
/// entry comes first, and once the configured capacity is exceeded the
/// oldest entry is evicted from the back.
pub open spec fn spec_update(s: Seq<u32>, cap: nat, m: u32) -> Seq<u32> {
    let grown = s.insert(0, m);
    if grown.len() <= cap {
        grown
    } else {
        grown.drop_last()
    }
}

/// A fixed-capacity, newest-first record of the last few absolute sample
/// magnitudes for one monitored point, from which a moving average is read.
///
/// The view is the sequence of stored magnitudes, newest first; its length
/// never exceeds the configured capacity. Magnitudes are linear amplitudes
/// in millionths.
pub struct MeterBuffer {
    entries: Vec<u32>,
    capacity: usize,
}

impl View for MeterBuffer {
    type V = Seq<u32>;

    closed spec fn view(&self) -> Seq<u32> {
        self.entries@
    }
}

impl MeterBuffer {
    /// The configured capacity: the divisor of every average this buffer
    /// reports, whether or not it is full yet.
    pub closed spec fn cap(self) -> nat {
        self.capacity as nat
    }

    /// Well-formedness: a usable capacity, and no more entries than it.
    pub open spec fn wf(self) -> bool {
        &&& 1 <= self.cap() <= 1_000_000
        &&& self@.len() <= self.cap()
    }

    /// An empty buffer with the given capacity.
    pub fn new(capacity: usize) -> (r: MeterBuffer)
        requires
            1 <= capacity <= 1_000_000,
        ensures
            r.wf(),
            r@ == Seq::<u32>::empty(),
            r.cap() == capacity,
    {
        MeterBuffer { entries: Vec::new(), capacity }
    }

    /// Records one absolute sample magnitude at the front, evicting the
    /// oldest entry if the configured capacity would be exceeded.
    pub fn update(&mut self, magnitude: u32)
        requires
            old(self).wf(),
        ensures
            final(self).wf(),
            final(self).cap() == old(self).cap(),
            final(self)@ == spec_update(old(self)@, old(self).cap(), magnitude),
            final(self)@.len() > 0,
            final(self)@[0] == magnitude,
    {
        self.entries.insert(0, magnitude);
        if self.entries.len() > self.capacity {
            self.entries.pop();
        }
        proof {
            assert(self@ =~= spec_update(old(self)@, old(self).cap(), magnitude));
        }
    }

    /// The moving average of the stored magnitudes, divided by the
    /// configured capacity even while the buffer is still filling. Early
    /// readings are therefore biased toward zero until the buffer is full:
    /// a deliberate warm-up behavior, not a defect.
    pub fn average(&self) -> (a: u64)
        requires
            self.wf(),
        ensures
            a == sum_of(self@) / (self.cap() as int),
    {
        let n = self.entries.len();
        let mut acc: u64 = 0;
        let mut idx: usize = 0;
        while idx < n
            invariant
                idx <= n,
                n == self@.len(),
                self.wf(),
                acc == sum_of(self@.take(idx as int)),
                acc <= (idx as int) * 0xFFFF_FFFF,
            decreases n - idx,
        {
            proof {
                lemma_sum_take_step(self@, idx as int);
            }
            acc = acc + (self.entries[idx] as u64);
            idx = idx + 1;
        }
        proof {
            assert(self@.take(n as int) =~= self@);
        }
        acc / (self.capacity as u64)
    }
}

/// Taking one more entry adds exactly that entry to the sum.
proof fn lemma_sum_take_step(s: Seq<u32>, i: int)
    requires
        0 <= i < s.len(),
    ensures
        sum_of(s.take(i + 1)) == sum_of(s.take(i)) + s[i],
{
    assert(s.take(i + 1).drop_last() =~= s.take(i));
    assert(s.take(i + 1).last() == s[i]);
}

/// `k` identical magnitudes, as a buffer's contents.
pub open spec fn constant_feed(k: nat, m: u32) -> Seq<u32> {
    Seq::new(k, |i| m)
}

/// A buffer's contents after `k` successive insertions of the same
/// magnitude.
pub open spec fn feed_n(s: Seq<u32>, cap: nat, m: u32, k: nat) -> Seq<u32>
    decreases k,
{
    if k == 0 {
        s
    } else {
        spec_update(feed_n(s, cap, m, (k - 1) as nat), cap, m)
    }
}

/// Meter warm-up: a buffer of capacity `cap` fed a constant positive
/// magnitude `m` for `k <= cap` updates holds exactly `k` copies of `m`,
/// its sum is `k * m`, and while the buffer is not yet full the average
/// `(k * m) / cap` stays strictly below `m`.
pub proof fn lemma_meter_warm_up(cap: nat, m: u32, k: nat)
    requires
        1 <= cap,
        k <= cap,
        m > 0,
    ensures
        feed_n(Seq::<u32>::empty(), cap, m, k) == constant_feed(k, m),
        sum_of(constant_feed(k, m)) == k * m,
        k < cap ==> sum_of(constant_feed(k, m)) / (cap as int) < m,
    decreases k,
{
    if k == 0 {
        assert(constant_feed(0, m) =~= Seq::<u32>::empty());
    } else {
        lemma_meter_warm_up(cap, m, (k - 1) as nat);
        assert(constant_feed((k - 1) as nat, m).insert(0, m) =~= constant_feed(k, m));
        assert(constant_feed(k, m).drop_last() =~= constant_feed((k - 1) as nat, m));
        lemma_mul_is_distributive_sub_other_way(m as int, k as int, 1);
    }
    if k < cap {
        lemma_mul_strict_inequality(k as int, cap as int, m as int);
        lemma_multiply_divide_lt((k as int) * (m as int), cap as int, m as int);
    }
}

} // verus!
