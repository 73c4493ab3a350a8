//! The peak-hold window of the brickwall limiter: the loudest level over
//! the last `hold` samples, kept with a monotonic queue.
//!
//! Levels are unsigned integers. The limiter hands in the bit patterns of
//! its (non-negative) `f32` peaks, which order exactly as the peaks do.
use vstd::prelude::*;
use std::collections::VecDeque;

verus! {

broadcast use vstd::std_specs::vecdeque::group_vec_dequeue_axioms;

/// A level in the queue, with the sample count at which it drops out.
#[derive(Debug, Clone, Copy)]
pub struct PeakEntry {
    pub value: u32,
    pub expires_at: u64,
}

/// The pushes that the result of the push at time `n` covers: the last
/// `hold` of them, and at least the current one.
pub open spec fn in_window(n: int, hold: int, c: int) -> bool {
    0 <= c <= n && (c + hold > n || c == n)
}

/// The time at which an entry was pushed.
pub open spec fn pushed_at(e: PeakEntry, hold: int) -> int {
    e.expires_at - hold
}

/// Each entry is the level pushed at its time, before `n`.
pub open spec fn entries_match(q: Seq<PeakEntry>, hist: Seq<u32>, n: int, hold: int) -> bool {
    forall|i: int|
        0 <= i < q.len() ==> {
            &&& 0 <= #[trigger] pushed_at(q[i], hold) < n
            &&& hist[pushed_at(q[i], hold)] == q[i].value
        }
}

/// Times increase and levels strictly decrease from front to back.
pub open spec fn monotone(q: Seq<PeakEntry>, hold: int) -> bool {
    forall|i: int, j: int|
        0 <= i < j < q.len() ==> pushed_at(#[trigger] q[i], hold) < pushed_at(#[trigger] q[j], hold)
            && q[i].value > q[j].value
}

/// The level pushed at `c` is at most an entry pushed at or after `c`.
pub open spec fn covered(q: Seq<PeakEntry>, hist: Seq<u32>, hold: int, c: int) -> bool {
    exists|i: int| 0 <= i < q.len() && pushed_at(q[i], hold) >= c && hist[c] <= #[trigger] q[i].value
}

/// Sliding-window maximum over the last `hold` levels pushed.
pub struct PeakHoldBuffer {
    /// Monotonic deque: values are decreasing from front to back
    /// Front always contains the current maximum
    deque: VecDeque<PeakEntry>,
    /// Hold time in samples
    hold_samples: usize,
    /// Current sample counter
    sample_counter: u64,
    /// Every level pushed so far, oldest first
    history: Ghost<Seq<u32>>,
}

/// Dropping expired entries from the front keeps the queue describing the
/// window of the push at `n`.
proof fn lemma_drop_expired(q: Seq<PeakEntry>, hist: Seq<u32>, n: int, h: int)
    requires
        q.len() > 0,
        q[0].expires_at <= n,
        entries_match(q, hist, n, h),
        monotone(q, h),
        forall|c: int| 0 <= c < n && c + h > n ==> #[trigger] covered(q, hist, h, c),
    ensures
        entries_match(q.drop_first(), hist, n, h),
        monotone(q.drop_first(), h),
        forall|c: int| 0 <= c < n && c + h > n ==> #[trigger] covered(q.drop_first(), hist, h, c),
{
    let r = q.drop_first();
    assert forall|i: int| 0 <= i < r.len() implies r[i] == q[i + 1] by {}
    assert forall|c: int| 0 <= c < n && c + h > n implies #[trigger] covered(r, hist, h, c) by {
        assert(covered(q, hist, h, c));
        let i = choose|i: int| 0 <= i < q.len() && pushed_at(q[i], h) >= c && hist[c] <= #[trigger] q[i].value;
        assert(i != 0);
        assert(r[i - 1] == q[i]);
    }
    assert forall|i: int, j: int| 0 <= i < j < r.len() implies pushed_at(#[trigger] r[i], h)
        < pushed_at(#[trigger] r[j], h) && r[i].value > r[j].value by {
        assert(r[i] == q[i + 1] && r[j] == q[j + 1]);
    }
    assert forall|i: int| 0 <= i < r.len() implies {
        &&& 0 <= #[trigger] pushed_at(r[i], h) < n
        &&& hist[pushed_at(r[i], h)] == r[i].value
    } by {
        assert(r[i] == q[i + 1]);
    }
}

/// Dropping a back entry no louder than `peak` keeps every level of the
/// window covered, by the queue or by `peak`.
proof fn lemma_drop_quieter(q: Seq<PeakEntry>, hist: Seq<u32>, n: int, h: int, peak: u32)
    requires
        q.len() > 0,
        q.last().value <= peak,
        entries_match(q, hist, n, h),
        monotone(q, h),
        forall|c: int| 0 <= c < n && c + h > n ==> hist[c] <= peak || #[trigger] covered(q, hist, h, c),
    ensures
        entries_match(q.drop_last(), hist, n, h),
        monotone(q.drop_last(), h),
        forall|c: int| 0 <= c < n && c + h > n ==> hist[c] <= peak || #[trigger] covered(q.drop_last(), hist, h, c),
{
    let r = q.drop_last();
    assert forall|c: int| 0 <= c < n && c + h > n implies hist[c] <= peak || #[trigger] covered(r, hist, h, c) by {
        if hist[c] > peak {
            assert(covered(q, hist, h, c));
            let i = choose|i: int| 0 <= i < q.len() && pushed_at(q[i], h) >= c && hist[c] <= #[trigger] q[i].value;
            assert(i != q.len() - 1);
            assert(r[i] == q[i]);
        }
    }
    assert forall|i: int, j: int| 0 <= i < j < r.len() implies pushed_at(#[trigger] r[i], h)
        < pushed_at(#[trigger] r[j], h) && r[i].value > r[j].value by {
        assert(r[i] == q[i] && r[j] == q[j]);
    }
    assert forall|i: int| 0 <= i < r.len() implies {
        &&& 0 <= #[trigger] pushed_at(r[i], h) < n
        &&& hist[pushed_at(r[i], h)] == r[i].value
    } by {
        assert(r[i] == q[i]);
    }
}

impl PeakHoldBuffer {
    /// The levels pushed so far, oldest first.
    pub closed spec fn held(self) -> Seq<u32> {
        self.history@
    }

    /// The hold time in samples.
    pub closed spec fn hold(self) -> nat {
        self.hold_samples as nat
    }

    /// The queue describes the levels pushed: each entry is the level
    /// pushed at its time, times increase and levels strictly decrease from
    /// front to back, every entry is still in the window, and every level in
    /// the window is at most some entry pushed at or after it.
    pub closed spec fn wf(self) -> bool {
        let n = self.sample_counter as int;
        let h = self.hold_samples as int;
        let q = self.deque@;
        &&& self.history@.len() == n
        &&& entries_match(q, self.history@, n, h)
        &&& monotone(q, h)
        &&& forall|i: int| 0 <= i < q.len() ==> #[trigger] pushed_at(q[i], h) + h >= n || pushed_at(q[i], h) + 1 == n
        &&& forall|c: int| 0 <= c < n && (c + h >= n || c + 1 == n) ==> #[trigger] covered(q, self.history@, h, c)
    }

    /// An empty window of `hold_samples` samples.
    pub fn new(hold_samples: usize) -> (r: Self)
        requires
            hold_samples < usize::MAX,
        ensures
            r.wf(),
            r.held() == Seq::<u32>::empty(),
            r.hold() == hold_samples,
    {
        PeakHoldBuffer {
            // Pre-allocate capacity to avoid runtime allocation
            deque: VecDeque::with_capacity(hold_samples + 1),
            hold_samples,
            sample_counter: 0,
            history: Ghost(Seq::empty()),
        }
    }

    /// Push a new peak level and return the loudest level of the window:
    /// the last `hold` levels pushed, this one included.
    pub fn push(&mut self, peak: u32) -> (r: u32)
        requires
            old(self).wf(),
            old(self).held().len() + old(self).hold() <= u64::MAX,
            old(self).held().len() < u64::MAX,
        ensures
            final(self).wf(),
            final(self).hold() == old(self).hold(),
            final(self).held() == old(self).held().push(peak),
            exists|c: int|
                in_window(old(self).held().len() as int, old(self).hold() as int, c)
                    && #[trigger] final(self).held()[c] == r,
            forall|c: int|
                in_window(old(self).held().len() as int, old(self).hold() as int, c)
                    ==> #[trigger] final(self).held()[c] <= r,
    {
        let n = self.sample_counter;
        let h = self.hold_samples;
        let expires_at = n + h as u64;
        let ghost hist = self.history@;
        let ghost nn = n as int;
        let ghost hh = h as int;
        proof {
            assert forall|c: int| 0 <= c < nn && c + hh > nn implies #[trigger] covered(self.deque@, hist, hh, c) by {
                assert(covered(self.deque@, self.history@, hh, c));
            }
        }

        // Remove expired entries from front
        loop
            invariant
                self.hold_samples == h,
                self.sample_counter == n,
                nn == n,
                hh == h,
                self.history@ == hist,
                hist.len() == n,
                n + h <= u64::MAX,
                entries_match(self.deque@, hist, nn, hh),
                monotone(self.deque@, hh),
                forall|c: int| 0 <= c < nn && c + hh > nn ==> #[trigger] covered(self.deque@, hist, hh, c),
            ensures
                self.deque@.len() > 0 ==> self.deque@[0].expires_at > n,
            decreases self.deque@.len(),
        {
            if self.deque.len() == 0 {
                break;
            }
            let front_expiry = self.deque[0].expires_at;
            if front_expiry <= n {
                let ghost before = self.deque@;
                proof {
                    lemma_drop_expired(self.deque@, hist, nn, hh);
                }
                self.deque.pop_front();
                assert(self.deque@ =~= before.drop_first());
            } else {
                break;
            }
        }
        proof {
            // Everything left is alive after the push at `n`.
            assert forall|i: int| 0 <= i < self.deque@.len() implies #[trigger] pushed_at(self.deque@[i], hh) + hh > nn by {
                if i > 0 {
                    assert(pushed_at(self.deque@[0], hh) < pushed_at(self.deque@[i], hh));
                }
            }
        }

        // Remove entries smaller than new peak from back (maintain monotonic decreasing)
        loop
            invariant
                self.hold_samples == h,
                self.sample_counter == n,
                nn == n,
                hh == h,
                self.history@ == hist,
                hist.len() == n,
                n + h <= u64::MAX,
                entries_match(self.deque@, hist, nn, hh),
                monotone(self.deque@, hh),
                forall|i: int| 0 <= i < self.deque@.len() ==> #[trigger] pushed_at(self.deque@[i], hh) + hh > nn,
                forall|c: int| 0 <= c < nn && c + hh > nn ==> hist[c] <= peak || #[trigger] covered(self.deque@, hist, hh, c),
            ensures
                self.deque@.len() > 0 ==> self.deque@.last().value > peak,
            decreases self.deque@.len(),
        {
            let len = self.deque.len();
            if len == 0 {
                break;
            }
            let back_value = self.deque[len - 1].value;
            if back_value <= peak {
                let ghost before = self.deque@;
                proof {
                    lemma_drop_quieter(self.deque@, hist, nn, hh, peak);
                }
                self.deque.pop_back();
                assert(self.deque@ =~= before.drop_last());
                assert forall|i: int| 0 <= i < self.deque@.len() implies #[trigger] pushed_at(self.deque@[i], hh) + hh > nn by {
                    assert(self.deque@[i] == before[i]);
                }
            } else {
                break;
            }
        }

        // Push new entry
        let ghost mid = self.deque@;
        self.deque.push_back(PeakEntry { value: peak, expires_at });
        self.sample_counter = n + 1;
        self.history = Ghost(hist.push(peak));

        let r = self.deque[0].value;
        proof {
            let q = self.deque@;
            let hs = self.history@;
            let last = q.len() - 1;
            assert(q.len() == mid.len() + 1);
            assert(q[last].value == peak && pushed_at(q[last], hh) == nn);
            assert forall|i: int| 0 <= i < mid.len() implies q[i] == mid[i] by {}
            assert forall|i: int| 0 <= i < q.len() implies {
                &&& 0 <= #[trigger] pushed_at(q[i], hh) < nn + 1
                &&& hs[pushed_at(q[i], hh)] == q[i].value
            } by {
                if i < mid.len() {
                    assert(q[i] == mid[i]);
                }
            }
            assert forall|i: int, j: int| 0 <= i < j < q.len() implies pushed_at(#[trigger] q[i], hh)
                < pushed_at(#[trigger] q[j], hh) && q[i].value > q[j].value by {
                assert(q[i] == mid[i]);
                if j < mid.len() {
                    assert(q[j] == mid[j]);
                } else if i < mid.len() - 1 {
                    assert(mid[i].value > mid[mid.len() - 1].value);
                }
            }
            assert forall|i: int| 0 <= i < q.len() implies #[trigger] pushed_at(q[i], hh) + hh >= nn + 1
                || pushed_at(q[i], hh) + 1 == nn + 1 by {
                if i < mid.len() {
                    assert(q[i] == mid[i]);
                }
            }
            assert forall|c: int| 0 <= c < nn + 1 && (c + hh >= nn + 1 || c + 1 == nn + 1) implies #[trigger] covered(q, hs, hh, c) by {
                if c == nn || hs[c] <= peak {
                    assert(pushed_at(q[last], hh) >= c && hs[c] <= q[last].value);
                } else {
                    assert(hs[c] == hist[c]);
                    assert(covered(mid, hist, hh, c));
                    let i = choose|i: int| 0 <= i < mid.len() && pushed_at(mid[i], hh) >= c && hist[c] <= #[trigger] mid[i].value;
                    assert(q[i] == mid[i]);
                }
            }
            assert forall|c: int| in_window(nn, hh, c) implies #[trigger] hs[c] <= r by {
                assert(covered(q, hs, hh, c));
                let i = choose|i: int| 0 <= i < q.len() && pushed_at(q[i], hh) >= c && hs[c] <= #[trigger] q[i].value;
                if i > 0 {
                    assert(q[0].value > q[i].value);
                }
            }
            assert(in_window(nn, hh, pushed_at(q[0], hh)) && self.held()[pushed_at(q[0], hh)] == r);
        }
        r
    }

    /// The number of levels pushed since the window was made or reset.
    pub fn sample_count(&self) -> (r: u64)
        requires
            self.wf(),
        ensures
            r == self.held().len(),
    {
        self.sample_counter
    }

    /// The hold time in samples.
    pub fn hold_samples(&self) -> (r: usize)
        ensures
            r == self.hold(),
    {
        self.hold_samples
    }

    /// Empty the window.
    pub fn reset(&mut self)
        requires
            old(self).wf(),
        ensures
            final(self).wf(),
            final(self).held() == Seq::<u32>::empty(),
            final(self).hold() == old(self).hold(),
    {
        self.deque.clear();
        self.sample_counter = 0;
        self.history = Ghost(Seq::empty());
    }
}

} // verus!
