//! Rolling time-series store: a bounded-by-age buffer of percentage
//! samples, newest-first, pruned on every insert.

use vstd::prelude::*;
use std::collections::VecDeque;
use crate::render::{Frame, spec_is_frame_for};

verus! {

/// History window retained per series, in milliseconds.
pub const WINDOW_MS: u64 = 60 * 1000;

/// One observation of a metric: a wall-clock timestamp in milliseconds
/// and an integer percentage in [0, 100].
#[derive(Clone, Copy, Debug, PartialEq, Eq, Structural)]
pub struct Sample {
    pub time_ms: u64,
    pub value: i32,
}

/// A chart color, passed through from the host theme.
#[derive(Clone, Copy, Debug, PartialEq, Eq, Structural)]
pub struct Rgb {
    pub r: u8,
    pub g: u8,
    pub b: u8,
}

/// The clamping policy: readings outside [0, 100] are clamped, not rejected.
pub open spec fn spec_clamp_percent(v: int) -> int {
    if v < 0 {
        0
    } else if v > 100 {
        100
    } else {
        v
    }
}

/// Clamps a raw percentage reading into the stored domain [0, 100].
pub fn clamp_percent(v: i32) -> (r: i32)
    ensures
        r == spec_clamp_percent(v as int),
{
    if v < 0 {
        0
    } else if v > 100 {
        100
    } else {
        v
    }
}

/// Whether the oldest (back) entry is evicted when a sample with
/// timestamp `cur` has just been inserted: the entry is older than the
/// window, or (wrapping a negative difference) newer than `cur` itself.
pub open spec fn spec_evict(back: Sample, cur: u64, limit: u64) -> bool {
    back.time_ms > cur || cur - back.time_ms > limit
}

/// Repeatedly drops the back entry while it is evicted, stopping at the
/// first entry that stays.
pub open spec fn spec_prune(s: Seq<Sample>, cur: u64, limit: u64) -> Seq<Sample>
    decreases s.len(),
{
    if s.len() == 0 {
        s
    } else if spec_evict(s.last(), cur, limit) {
        spec_prune(s.drop_last(), cur, limit)
    } else {
        s
    }
}

/// The effect of one push: insert at the newest-first front, then prune
/// by age, with the just-inserted timestamp as the reference "now".
pub open spec fn spec_push(s: Seq<Sample>, t: u64, v: i32, limit: u64) -> Seq<Sample> {
    spec_prune(seq![Sample { time_ms: t, value: v }] + s, t, limit)
}

/// Timestamps are ordered newest-first (non-strictly).
pub open spec fn sorted_newest_first(s: Seq<Sample>) -> bool {
    forall|i: int, j: int| 0 <= i <= j < s.len() ==> s[i].time_ms >= s[j].time_ms
}

/// All stored values lie in the percentage domain [0, 100].
pub open spec fn values_in_range(s: Seq<Sample>) -> bool {
    forall|i: int| 0 <= i < s.len() ==> 0 <= #[trigger] s[i].value <= 100
}

/// Pruning only ever removes entries from the back: the result is a
/// prefix of the input.
pub proof fn lemma_prune_prefix(s: Seq<Sample>, cur: u64, limit: u64)
    ensures
        spec_prune(s, cur, limit).len() <= s.len(),
        spec_prune(s, cur, limit) == s.subrange(0, spec_prune(s, cur, limit).len() as int),
    decreases s.len(),
{
    let r = spec_prune(s, cur, limit);
    if s.len() == 0 {
        assert(r == s.subrange(0, r.len() as int));
    } else if spec_evict(s.last(), cur, limit) {
        lemma_prune_prefix(s.drop_last(), cur, limit);
        assert(s.drop_last() == s.subrange(0, s.len() - 1));
        assert(r == s.drop_last().subrange(0, r.len() as int));
        assert(r == s.subrange(0, r.len() as int));
    } else {
        assert(r == s.subrange(0, r.len() as int));
    }
}

/// The entry at the front is never pruned, provided it lies within the
/// window of the reference time; in particular a push never evicts the
/// sample it just inserted.
pub proof fn lemma_prune_keeps_front(s: Seq<Sample>, cur: u64, limit: u64)
    requires
        s.len() > 0,
        s[0].time_ms <= cur,
        cur - s[0].time_ms <= limit,
    ensures
        spec_prune(s, cur, limit).len() >= 1,
        spec_prune(s, cur, limit)[0] == s[0],
    decreases s.len(),
{
    if spec_evict(s.last(), cur, limit) {
        assert(s.len() > 1) by {
            if s.len() == 1 {
                assert(s.last() == s[0]);
            }
        }
        lemma_prune_keeps_front(s.drop_last(), cur, limit);
    }
}

/// Pushing a sample never evicts itself: the pushed sample is always at
/// the front afterwards, and a series that receives its first push has
/// exactly one sample afterwards.
pub proof fn lemma_push_never_evicts_self(s: Seq<Sample>, t: u64, v: i32, limit: u64)
    ensures
        spec_push(s, t, v, limit).len() >= 1,
        spec_push(s, t, v, limit)[0] == (Sample { time_ms: t, value: v }),
        s.len() == 0 ==> spec_push(s, t, v, limit) == seq![Sample { time_ms: t, value: v }],
{
    let n = Sample { time_ms: t, value: v };
    let full = seq![n] + s;
    assert(full[0] == n);
    lemma_prune_keeps_front(full, t, limit);
    if s.len() == 0 {
        assert(full =~= seq![n]);
        assert(!spec_evict(full.last(), t, limit));
    }
}

proof fn lemma_prune_window(s: Seq<Sample>, cur: u64, limit: u64)
    requires
        sorted_newest_first(s),
        forall|i: int| 0 <= i < s.len() ==> #[trigger] s[i].time_ms <= cur,
    ensures
        forall|i: int| 0 <= i < spec_prune(s, cur, limit).len()
            ==> cur - #[trigger] spec_prune(s, cur, limit)[i].time_ms <= limit,
    decreases s.len(),
{
    let r = spec_prune(s, cur, limit);
    if s.len() == 0 {
    } else if spec_evict(s.last(), cur, limit) {
        let d = s.drop_last();
        assert(d == s.subrange(0, s.len() - 1));
        assert forall|i: int, j: int| 0 <= i <= j < d.len() implies d[i].time_ms >= d[j].time_ms by {
            assert(d[i] == s[i]);
            assert(d[j] == s[j]);
        }
        assert forall|i: int| 0 <= i < d.len() implies #[trigger] d[i].time_ms <= cur by {
            assert(d[i] == s[i]);
        }
        lemma_prune_window(d, cur, limit);
        assert(r == spec_prune(d, cur, limit));
        assert forall|i: int| 0 <= i < r.len() implies cur - #[trigger] r[i].time_ms <= limit by {
            assert(r[i] == spec_prune(d, cur, limit)[i]);
        }
    } else {
        assert forall|i: int| 0 <= i < r.len() implies cur - #[trigger] r[i].time_ms <= limit by {
            assert(r[i].time_ms >= s.last().time_ms);
        }
    }
}

/// The bounded-window law: for pushes whose timestamp is no older than
/// everything already stored (as under strictly increasing push times),
/// every sample retained after the push lies within the window measured
/// from the just-pushed, newest sample, and the newest-first order is
/// preserved.
pub proof fn lemma_push_window(s: Seq<Sample>, t: u64, v: i32, limit: u64)
    requires
        sorted_newest_first(s),
        forall|i: int| 0 <= i < s.len() ==> #[trigger] s[i].time_ms <= t,
    ensures
        spec_push(s, t, v, limit).len() >= 1,
        spec_push(s, t, v, limit)[0] == (Sample { time_ms: t, value: v }),
        forall|i: int| 0 <= i < spec_push(s, t, v, limit).len()
            ==> t - #[trigger] spec_push(s, t, v, limit)[i].time_ms <= limit,
        sorted_newest_first(spec_push(s, t, v, limit)),
{
    let n = Sample { time_ms: t, value: v };
    let full = seq![n] + s;
    let r = spec_push(s, t, v, limit);
    assert(sorted_newest_first(full));
    assert(forall|i: int| 0 <= i < full.len() ==> #[trigger] full[i].time_ms <= t);
    lemma_prune_window(full, t, limit);
    lemma_prune_keeps_front(full, t, limit);
    lemma_prune_prefix(full, t, limit);
    assert(r == full.subrange(0, r.len() as int));
    assert forall|i: int, j: int| 0 <= i <= j < r.len() implies r[i].time_ms >= r[j].time_ms by {
        assert(r[i] == full[i]);
        assert(r[j] == full[j]);
    }
}

/// Pruning preserves the value-range invariant, since it only keeps a
/// prefix of what was stored.
pub proof fn lemma_push_values_in_range(s: Seq<Sample>, t: u64, v: i32, limit: u64)
    requires
        values_in_range(s),
        0 <= v <= 100,
    ensures
        values_in_range(spec_push(s, t, v, limit)),
{
    let n = Sample { time_ms: t, value: v };
    let full = seq![n] + s;
    let r = spec_push(s, t, v, limit);
    assert(values_in_range(full));
    lemma_prune_prefix(full, t, limit);
    assert forall|i: int| 0 <= i < r.len() implies 0 <= #[trigger] r[i].value <= 100 by {
        assert(r[i] == full[i]);
    }
}

/// One tracked metric: the bounded history buffer together with its
/// memoized drawable frame and cosmetic parameters.
pub struct PercentualUsageChart {
    /// Retained samples, newest first.
    pub data_points: VecDeque<Sample>,
    /// Window length in milliseconds; samples older than this (relative
    /// to the newest) are evicted on insert.
    pub limit_ms: u64,
    /// Fill/stroke color for this series.
    pub color: Rgb,
    /// Memoized frame; `None` means a rebuild is needed. Valid if and
    /// only if no insert has occurred since it was last rebuilt.
    pub cache: Option<Frame>,
}

impl PercentualUsageChart {
    /// Internal consistency: a positive window, stored values in the
    /// percentage domain, and the cache, when present, matching the
    /// current data.
    pub open spec fn wf(self) -> bool {
        &&& self.limit_ms > 0
        &&& values_in_range(self.data_points@)
        &&& match self.cache {
            Some(f) => spec_is_frame_for(f, self.data_points@, self.limit_ms, self.color),
            None => true,
        }
    }

    /// Builds a series over the given initial samples, with the default
    /// window and an invalid (empty) render cache.
    pub fn new(data: Vec<Sample>, color: Rgb) -> (r: Self)
        requires
            values_in_range(data@),
        ensures
            r.wf(),
            r.data_points@ == data@,
            r.limit_ms == WINDOW_MS,
            r.color == color,
            r.cache is None,
    {
        let mut dq: VecDeque<Sample> = VecDeque::new();
        let mut i: usize = 0;
        while i < data.len()
            invariant
                i <= data.len(),
                dq@ == data@.subrange(0, i as int),
            decreases data.len() - i,
        {
            dq.push_back(data[i]);
            i = i + 1;
            assert(dq@ =~= data@.subrange(0, i as int));
        }
        assert(dq@ =~= data@);
        PercentualUsageChart { data_points: dq, limit_ms: WINDOW_MS, color, cache: None }
    }

    /// Inserts a sample at the newest-first front, evicts every back
    /// entry outside the window measured from the inserted timestamp,
    /// and invalidates the render cache.
    pub fn push_data(&mut self, time: u64, value: i32)
        requires
            old(self).wf(),
            0 <= value <= 100,
        ensures
            final(self).wf(),
            final(self).data_points@
                == spec_push(old(self).data_points@, time, value, old(self).limit_ms),
            final(self).data_points@.len() >= 1,
            final(self).data_points@[0] == (Sample { time_ms: time, value }),
            final(self).limit_ms == old(self).limit_ms,
            final(self).color == old(self).color,
            final(self).cache is None,
    {
        let s = Sample { time_ms: time, value };
        self.data_points.push_front(s);
        let ghost full = self.data_points@;
        let ghost limit0 = self.limit_ms;
        let ghost color0 = self.color;
        let ghost cache0 = self.cache;
        assert(full =~= full.subrange(0, full.len() as int));
        loop
            invariant
                self.limit_ms == limit0,
                self.color == color0,
                self.cache == cache0,
                self.data_points@.len() <= full.len(),
                self.data_points@ == full.subrange(0, self.data_points@.len() as int),
                spec_prune(self.data_points@, time, limit0) == spec_prune(full, time, limit0),
            ensures
                self.limit_ms == limit0,
                self.color == color0,
                self.cache == cache0,
                self.data_points@ == spec_prune(full, time, limit0),
            decreases self.data_points@.len(),
        {
            let n = self.data_points.len();
            if n == 0 {
                assert(spec_prune(self.data_points@, time, limit0) == self.data_points@);
                break;
            }
            let back = self.data_points[n - 1];
            let ghost cur = self.data_points@;
            assert(back == cur.last());
            if back.time_ms > time || time - back.time_ms > self.limit_ms {
                assert(spec_prune(cur, time, limit0) == spec_prune(cur.drop_last(), time, limit0));
                self.data_points.pop_back();
                assert(self.data_points@ =~= cur.drop_last());
                assert(self.data_points@ =~= full.subrange(0, self.data_points@.len() as int));
            } else {
                assert(spec_prune(cur, time, limit0) == cur);
                break;
            }
        }
        proof {
            assert(full == seq![s] + old(self).data_points@);
            lemma_prune_keeps_front(full, time, limit0);
            lemma_push_values_in_range(old(self).data_points@, time, value, limit0);
        }
        self.cache = None;
    }

    /// Number of retained samples.
    pub fn len(&self) -> (n: usize)
        ensures
            n == self.data_points@.len(),
    {
        self.data_points.len()
    }

    /// The sample at position `i`, newest first.
    pub fn sample_at(&self, i: usize) -> (s: Sample)
        requires
            i < self.data_points@.len(),
        ensures
            s == self.data_points@[i as int],
    {
        self.data_points[i]
    }

    /// The newest stored timestamp, used as the end of the plot's
    /// visible time domain, or the zero-era sentinel when empty.
    pub fn newest_time_ms(&self) -> (t: u64)
        ensures
            t == crate::render::spec_newest_ms(self.data_points@),
    {
        if self.data_points.len() == 0 {
            0
        } else {
            self.data_points[0].time_ms
        }
    }
}

} // verus!
