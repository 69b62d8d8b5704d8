//! Sampler/controller: owns the metric source and the two rolling
//! series, decides when a timer tick takes a fresh reading, and fans the
//! reading out to both series.

use vstd::prelude::*;
use sysinfo::System;
use crate::render::Frame;
use crate::render::spec_is_frame_for;
use crate::series::{PercentualUsageChart, Rgb, Sample, WINDOW_MS};
use crate::series::{clamp_percent, spec_clamp_percent, spec_push};
use crate::sys::{cpu_percent_raw, new_system, now_ms, refresh_system, total_memory, used_memory};

verus! {

/// Minimum spacing between accepted samples, in milliseconds.
pub const SAMPLE_EVERY_MS: u64 = 1000;

/// Default pixel height of one chart.
pub const CHART_HEIGHT_PX: u32 = 180;

/// The logical state of one series: its samples, whether its render
/// cache currently holds a frame, and its cosmetic parameters.
pub ghost struct SeriesModel {
    pub data: Seq<Sample>,
    pub cached: bool,
    pub limit: u64,
    pub color: Rgb,
}

/// The logical state of the controller, excluding the opaque metric
/// source: the instant of the last accepted sample and the two series
/// (`None` while uninitialized).
pub ghost struct ChartModel {
    pub last_ms: u64,
    pub cpu: Option<SeriesModel>,
    pub memory: Option<SeriesModel>,
    pub color: Rgb,
}

impl PercentualUsageChart {
    /// The logical state of this series.
    pub open spec fn model(self) -> SeriesModel {
        SeriesModel {
            data: self.data_points@,
            cached: self.cache is Some,
            limit: self.limit_ms,
            color: self.color,
        }
    }
}

/// Whether a timer tick at instant `now` takes a fresh reading: always
/// on the very first tick, and afterwards only once the sampling
/// interval has elapsed since the last accepted sample.
pub open spec fn spec_should_update(m: ChartModel, now: u64) -> bool {
    m.cpu is None || now > m.last_ms + SAMPLE_EVERY_MS
}

/// The stored memory percentage: `floor(used / total * 100)`, clamped
/// into [0, 100], with 0 when the reported total is zero.
pub open spec fn spec_mem_percent(used: int, total: int) -> int {
    if total <= 0 {
        0
    } else {
        spec_clamp_percent(used * 100 / total)
    }
}

/// The effect of one timer tick on the logical state, given the instant
/// and the raw readings: a no-op when the interval gate is closed;
/// otherwise both series are seeded (first sample) or pushed, with the
/// CPU reading clamped and the memory percentage computed from the raw
/// used/total pair, and the last-sample instant moves to `now`.
pub open spec fn spec_tick(m: ChartModel, now: u64, cpu_raw: i32, used: u64, total: u64) -> ChartModel {
    if !spec_should_update(m, now) {
        m
    } else {
        let cpu_s = Sample { time_ms: now, value: spec_clamp_percent(cpu_raw as int) as i32 };
        let mem_s = Sample {
            time_ms: now,
            value: spec_mem_percent(used as int, total as int) as i32,
        };
        match (m.cpu, m.memory) {
            (Some(cs), Some(ms)) => ChartModel {
                last_ms: now,
                cpu: Some(
                    SeriesModel {
                        data: spec_push(cs.data, now, cpu_s.value, cs.limit),
                        cached: false,
                        limit: cs.limit,
                        color: cs.color,
                    },
                ),
                memory: Some(
                    SeriesModel {
                        data: spec_push(ms.data, now, mem_s.value, ms.limit),
                        cached: false,
                        limit: ms.limit,
                        color: ms.color,
                    },
                ),
                color: m.color,
            },
            _ => ChartModel {
                last_ms: now,
                cpu: Some(
                    SeriesModel { data: seq![cpu_s], cached: false, limit: WINDOW_MS, color: m.color },
                ),
                memory: Some(
                    SeriesModel { data: seq![mem_s], cached: false, limit: WINDOW_MS, color: m.color },
                ),
                color: m.color,
            },
        }
    }
}

/// Sampling is idempotent within one interval window: once a tick at
/// `n1` has taken a reading, any further tick up to one sampling
/// interval later leaves the state exactly as it was, whatever that
/// second tick would have read.
pub proof fn lemma_update_idempotent(
    m: ChartModel,
    n1: u64,
    c1: i32,
    u1: u64,
    t1: u64,
    n2: u64,
    c2: i32,
    u2: u64,
    t2: u64,
)
    requires
        spec_should_update(m, n1),
        n2 <= n1 + SAMPLE_EVERY_MS,
    ensures
        spec_tick(spec_tick(m, n1, c1, u1, t1), n2, c2, u2, t2) == spec_tick(m, n1, c1, u1, t1),
{
    let m1 = spec_tick(m, n1, c1, u1, t1);
    assert(m1.last_ms == n1);
    assert(m1.cpu is Some);
    assert(!spec_should_update(m1, n2));
}

/// Computes the memory percentage stored for a raw (used, total) pair
/// of byte counts.
pub fn mem_percent(used: u64, total: u64) -> (r: i32)
    ensures
        r == spec_mem_percent(used as int, total as int),
        0 <= r <= 100,
{
    if total == 0 {
        0
    } else {
        let q: u128 = (used as u128) * 100 / (total as u128);
        if q > 100 {
            100
        } else {
            q as i32
        }
    }
}

/// The applet's chart state: the metric source, the interval gate, and
/// one rolling series each for CPU and memory utilization. The two
/// series are `None` until the first sample seeds them both.
pub struct SystemChart {
    pub sys: System,
    pub last_sample_ms: u64,
    pub cpu: Option<PercentualUsageChart>,
    pub memory: Option<PercentualUsageChart>,
    pub chart_height: u32,
    pub color: Rgb,
}

impl SystemChart {
    /// The logical state of the controller (the metric source is
    /// opaque and not part of it).
    pub open spec fn model(self) -> ChartModel {
        ChartModel {
            last_ms: self.last_sample_ms,
            cpu: match self.cpu {
                Some(c) => Some(c.model()),
                None => None,
            },
            memory: match self.memory {
                Some(c) => Some(c.model()),
                None => None,
            },
            color: self.color,
        }
    }

    /// Internal consistency: the two series are seeded together, and
    /// each is itself well formed.
    pub open spec fn wf(self) -> bool {
        &&& (self.cpu is Some <==> self.memory is Some)
        &&& match self.cpu {
            Some(c) => c.wf(),
            None => true,
        }
        &&& match self.memory {
            Some(c) => c.wf(),
            None => true,
        }
    }

    /// Builds an uninitialized controller over a fresh metric source,
    /// in the given theme color. No series exist until the first tick.
    pub fn new(color: Rgb) -> (r: Self)
        ensures
            r.wf(),
            r.cpu is None,
            r.memory is None,
            r.last_sample_ms == 0,
            r.color == color,
            r.chart_height == CHART_HEIGHT_PX,
    {
        SystemChart {
            sys: new_system(),
            last_sample_ms: 0,
            cpu: None,
            memory: None,
            chart_height: CHART_HEIGHT_PX,
            color,
        }
    }

    /// Whether the controller has received its first sample.
    pub fn is_initialized(&self) -> (r: bool)
        ensures
            r == (self.cpu is Some),
    {
        self.cpu.is_some()
    }

    /// Whether a tick at instant `now` would take a fresh reading.
    pub fn should_update(&self, now: u64) -> (r: bool)
        ensures
            r == spec_should_update(self.model(), now),
    {
        !self.is_initialized() || now.saturating_sub(self.last_sample_ms) > SAMPLE_EVERY_MS
    }

    /// Applies one timer tick given the instant and the raw readings:
    /// exactly the `spec_tick` transition. A tick inside the sampling
    /// interval changes nothing at all; an accepted tick clamps the CPU
    /// reading, computes the memory percentage, and pushes one sample
    /// into each series (seeding both on the very first tick).
    pub fn tick(&mut self, now: u64, cpu_raw: i32, mem_used: u64, mem_total: u64)
        requires
            old(self).wf(),
        ensures
            final(self).wf(),
            final(self).model() == spec_tick(old(self).model(), now, cpu_raw, mem_used, mem_total),
            final(self).sys == old(self).sys,
            final(self).chart_height == old(self).chart_height,
            !old(self).spec_should_update_now(now) ==> *final(self) == *old(self),
    {
        if !self.should_update(now) {
            return;
        }
        self.last_sample_ms = now;
        let cpu_v = clamp_percent(cpu_raw);
        let mem_v = mem_percent(mem_used, mem_total);
        if self.cpu.is_none() {
            let mut v1: Vec<Sample> = Vec::new();
            v1.push(Sample { time_ms: now, value: cpu_v });
            self.cpu = Some(PercentualUsageChart::new(v1, self.color));
            let mut v2: Vec<Sample> = Vec::new();
            v2.push(Sample { time_ms: now, value: mem_v });
            self.memory = Some(PercentualUsageChart::new(v2, self.color));
        } else {
            let mut c = self.cpu.take().unwrap();
            c.push_data(now, cpu_v);
            self.cpu = Some(c);
            let mut mch = self.memory.take().unwrap();
            mch.push_data(now, mem_v);
            self.memory = Some(mch);
        }
    }

    /// Whether a tick at `now` would sample, phrased on the state
    /// itself.
    pub open spec fn spec_should_update_now(self, now: u64) -> bool {
        spec_should_update(self.model(), now)
    }

    /// One timer tick: reads the clock, and if and only if the interval
    /// gate is open, refreshes the metric source, reads the current CPU
    /// and memory utilization, and pushes one timestamped sample into
    /// each series. Whatever instant and readings came back, the state
    /// moves by exactly one `spec_tick` transition.
    pub fn update(&mut self)
        requires
            old(self).wf(),
        ensures
            final(self).wf(),
            exists|now: u64, cpu_raw: i32, used: u64, total: u64|
                final(self).model() == spec_tick(old(self).model(), now, cpu_raw, used, total),
    {
        let now = now_ms();
        if !self.should_update(now) {
            proof {
                let m = self.model();
                assert(m == spec_tick(m, now, 0i32, 0u64, 0u64));
            }
            return;
        }
        refresh_system(&mut self.sys);
        let cpu_raw = cpu_percent_raw(&self.sys);
        let total = total_memory(&self.sys);
        let used = used_memory(&self.sys);
        self.tick(now, cpu_raw, used, total);
        proof {
            assert(self.model() == spec_tick(old(self).model(), now, cpu_raw, used, total));
        }
    }

    /// The display refresh: `None` (a loading placeholder) while
    /// uninitialized; otherwise the memoized frames for the CPU and
    /// memory series, exactly the geometry of the current data, which
    /// itself is left unchanged.
    pub fn view(&mut self) -> (r: Option<(Frame, Frame)>)
        requires
            old(self).wf(),
        ensures
            final(self).wf(),
            old(self).cpu is None ==> r is None && *final(self) == *old(self),
            old(self).cpu is Some ==> match r {
                Some(frames) => {
                    &&& spec_is_frame_for(
                        frames.0,
                        old(self).model().cpu.unwrap().data,
                        old(self).model().cpu.unwrap().limit,
                        old(self).model().cpu.unwrap().color,
                    )
                    &&& spec_is_frame_for(
                        frames.1,
                        old(self).model().memory.unwrap().data,
                        old(self).model().memory.unwrap().limit,
                        old(self).model().memory.unwrap().color,
                    )
                    &&& final(self).model().cpu.unwrap().data == old(self).model().cpu.unwrap().data
                    &&& final(self).model().memory.unwrap().data == old(
                        self,
                    ).model().memory.unwrap().data
                    &&& final(self).last_sample_ms == old(self).last_sample_ms
                },
                None => false,
            },
    {
        if self.cpu.is_none() {
            return None;
        }
        let mut c = self.cpu.take().unwrap();
        let fc = c.draw();
        self.cpu = Some(c);
        let mut m = self.memory.take().unwrap();
        let fm = m.draw();
        self.memory = Some(m);
        Some((fc, fm))
    }
}

} // verus!
