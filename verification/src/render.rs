//! Chart renderer: maps a series onto drawable frame geometry (a time
//! domain, a fixed percentage domain, and the points to connect), with
//! the result memoized in the series' render cache.

use vstd::prelude::*;
use vstd::string::*;
use crate::series::{PercentualUsageChart, Rgb, Sample};

verus! {

/// Drawable geometry for one series: the visible time domain (in
/// milliseconds, signed so it may reach before the epoch), the fixed
/// percentage domain, and the retained samples in chronological order.
#[derive(Clone, Debug, PartialEq)]
pub struct Frame {
    pub x_min: i128,
    pub x_max: i128,
    pub y_min: i32,
    pub y_max: i32,
    pub points: Vec<Sample>,
    pub color: Rgb,
}

/// The newest stored timestamp, or the zero-era sentinel when empty.
pub open spec fn spec_newest_ms(data: Seq<Sample>) -> u64 {
    if data.len() == 0 {
        0
    } else {
        data[0].time_ms
    }
}

/// Lower end of the visible time domain: exactly one window before the
/// newest sample, which may lie before the epoch.
pub open spec fn spec_x_min(data: Seq<Sample>, limit: u64) -> i128 {
    (spec_newest_ms(data) - limit) as i128
}

/// Upper end of the visible time domain: the newest sample (the zero
/// era when empty, making the placeholder domain `[-window, 0]`).
pub open spec fn spec_x_max(data: Seq<Sample>, limit: u64) -> i128 {
    spec_newest_ms(data) as i128
}

/// The stored samples in chronological (oldest-first) order.
pub open spec fn spec_points(data: Seq<Sample>) -> Seq<Sample> {
    Seq::new(data.len(), |i: int| data[data.len() - 1 - i])
}

/// What it means for a frame to be the geometry of the given data: the
/// time domain ends at the newest sample and spans one window, the value
/// domain is fixed to [0, 100], and the points are the samples in
/// chronological order. This pins every field of the frame.
pub open spec fn spec_is_frame_for(f: Frame, data: Seq<Sample>, limit: u64, color: Rgb) -> bool {
    &&& f.x_min == spec_x_min(data, limit)
    &&& f.x_max == spec_x_max(data, limit)
    &&& f.y_min == 0
    &&& f.y_max == 100
    &&& f.points@ == spec_points(data)
    &&& f.color == color
}

/// Observational equality of frames: same domains, points and color.
pub open spec fn frame_eq(a: Frame, b: Frame) -> bool {
    &&& a.x_min == b.x_min
    &&& a.x_max == b.x_max
    &&& a.y_min == b.y_min
    &&& a.y_max == b.y_max
    &&& a.points@ == b.points@
    &&& a.color == b.color
}

/// The visible domains are never degenerate: with a positive window the
/// time domain spans exactly that window, so its ends never coincide and
/// building a chart over it cannot fail on an empty range, whatever the
/// series holds.
pub proof fn lemma_frame_domain_nondegenerate(f: Frame, data: Seq<Sample>, limit: u64, color: Rgb)
    requires
        spec_is_frame_for(f, data, limit, color),
        limit > 0,
    ensures
        f.x_min < f.x_max,
        f.x_max - f.x_min == limit,
        f.y_min < f.y_max,
{
}

/// Frame geometry is a function of the data alone: two frames built for
/// the same data, window and color are indistinguishable. Together with
/// `PercentualUsageChart::draw`, two consecutive draws with no
/// intervening push return identical geometry.
pub proof fn lemma_frame_deterministic(f1: Frame, f2: Frame, data: Seq<Sample>, limit: u64, color: Rgb)
    requires
        spec_is_frame_for(f1, data, limit, color),
        spec_is_frame_for(f2, data, limit, color),
    ensures
        frame_eq(f1, f2),
{
}

/// An exact copy of a frame (the points are duplicated element by
/// element, so nothing is claimed of a derived clone).
fn copy_frame(f: &Frame) -> (r: Frame)
    ensures
        frame_eq(r, *f),
{
    let mut pts: Vec<Sample> = Vec::new();
    let mut i: usize = 0;
    while i < f.points.len()
        invariant
            i <= f.points@.len(),
            pts@ == f.points@.subrange(0, i as int),
        decreases f.points@.len() - i,
    {
        pts.push(f.points[i]);
        i = i + 1;
        assert(pts@ =~= f.points@.subrange(0, i as int));
    }
    assert(pts@ =~= f.points@);
    Frame {
        x_min: f.x_min,
        x_max: f.x_max,
        y_min: f.y_min,
        y_max: f.y_max,
        points: pts,
        color: f.color,
    }
}

impl PercentualUsageChart {
    /// Rebuilds the frame geometry from the current data: the visible
    /// time domain spans exactly one window and ends at the newest
    /// sample (a zero-era placeholder domain when empty), the value
    /// domain is [0, 100], and the points are the samples in
    /// chronological order. An empty series yields a valid placeholder
    /// frame with no points, and with a positive window the domain is
    /// never degenerate.
    pub fn build_frame(&self) -> (f: Frame)
        requires
            self.limit_ms > 0,
        ensures
            spec_is_frame_for(f, self.data_points@, self.limit_ms, self.color),
            f.x_min < f.x_max,
    {
        let n = self.data_points.len();
        let newest: u64 = self.newest_time_ms();
        let x_min: i128 = newest as i128 - self.limit_ms as i128;
        let x_max: i128 = newest as i128;
        let mut pts: Vec<Sample> = Vec::new();
        let mut i: usize = n;
        while i > 0
            invariant
                i <= n,
                n == self.data_points@.len(),
                pts@.len() == n - i,
                forall|k: int| 0 <= k < pts@.len() ==> pts@[k] == self.data_points@[n - 1 - k],
            decreases i,
        {
            i = i - 1;
            pts.push(self.data_points[i]);
        }
        assert(pts@ =~= spec_points(self.data_points@));
        Frame { x_min, x_max, y_min: 0, y_max: 100, points: pts, color: self.color }
    }

    /// Returns the drawable frame for the current data, memoized: when
    /// the cache is valid it is returned unchanged without recomputing;
    /// otherwise the geometry is rebuilt and cached. Either way the
    /// returned frame is exactly the geometry of the current data, and
    /// the data itself is untouched, so two consecutive draws with no
    /// intervening push return identical geometry.
    pub fn draw(&mut self) -> (f: Frame)
        requires
            old(self).wf(),
        ensures
            final(self).wf(),
            spec_is_frame_for(f, old(self).data_points@, old(self).limit_ms, old(self).color),
            final(self).data_points@ == old(self).data_points@,
            final(self).limit_ms == old(self).limit_ms,
            final(self).color == old(self).color,
            final(self).cache is Some,
            old(self).cache is Some ==> *final(self) == *old(self),
            f.x_min < f.x_max,
    {
        if let Some(c) = &self.cache {
            return copy_frame(c);
        }
        let f = self.build_frame();
        let c = copy_frame(&f);
        self.cache = Some(c);
        f
    }
}

/// The decimal digit character for `d`.
pub open spec fn spec_digit(d: int) -> char {
    if d == 0 {
        '0'
    } else if d == 1 {
        '1'
    } else if d == 2 {
        '2'
    } else if d == 3 {
        '3'
    } else if d == 4 {
        '4'
    } else if d == 5 {
        '5'
    } else if d == 6 {
        '6'
    } else if d == 7 {
        '7'
    } else if d == 8 {
        '8'
    } else {
        '9'
    }
}

/// The decimal representation of a non-negative integer.
pub open spec fn spec_decimal(n: int) -> Seq<char>
    decreases n,
{
    if n < 10 {
        seq![spec_digit(n)]
    } else {
        spec_decimal(n / 10) + seq![spec_digit(n % 10)]
    }
}

/// The value-axis label text for `v`: its decimal representation
/// followed by a percent sign.
pub open spec fn spec_percent_label(v: int) -> Seq<char> {
    if v < 0 {
        seq!['-'] + spec_decimal(-v) + seq!['%']
    } else {
        spec_decimal(v) + seq!['%']
    }
}

fn digit_str(d: u32) -> (s: &'static str)
    requires
        d < 10,
    ensures
        s@ == seq![spec_digit(d as int)],
{
    proof {
        reveal_strlit("0");
        reveal_strlit("1");
        reveal_strlit("2");
        reveal_strlit("3");
        reveal_strlit("4");
        reveal_strlit("5");
        reveal_strlit("6");
        reveal_strlit("7");
        reveal_strlit("8");
        reveal_strlit("9");
    }
    if d == 0 {
        let s = "0";
        assert(s@ =~= seq![spec_digit(0)]);
        s
    } else if d == 1 {
        let s = "1";
        assert(s@ =~= seq![spec_digit(1)]);
        s
    } else if d == 2 {
        let s = "2";
        assert(s@ =~= seq![spec_digit(2)]);
        s
    } else if d == 3 {
        let s = "3";
        assert(s@ =~= seq![spec_digit(3)]);
        s
    } else if d == 4 {
        let s = "4";
        assert(s@ =~= seq![spec_digit(4)]);
        s
    } else if d == 5 {
        let s = "5";
        assert(s@ =~= seq![spec_digit(5)]);
        s
    } else if d == 6 {
        let s = "6";
        assert(s@ =~= seq![spec_digit(6)]);
        s
    } else if d == 7 {
        let s = "7";
        assert(s@ =~= seq![spec_digit(7)]);
        s
    } else if d == 8 {
        let s = "8";
        assert(s@ =~= seq![spec_digit(8)]);
        s
    } else {
        let s = "9";
        assert(s@ =~= seq![spec_digit(9)]);
        s
    }
}

fn decimal_string(n: u32) -> (s: String)
    ensures
        s@ == spec_decimal(n as int),
    decreases n,
{
    if n < 10 {
        String::from_str(digit_str(n))
    } else {
        let mut s = decimal_string(n / 10);
        s.append(digit_str(n % 10));
        s
    }
}

/// Renders an integer percentage as the axis label `"<n>%"`.
pub fn y_label_formatter(v: &i32) -> (r: String)
    ensures
        r@ == spec_percent_label(*v as int),
{
    let mut s: String;
    if *v < 0 {
        let mag: u32 = (-(*v as i64)) as u32;
        s = String::from_str("-");
        proof {
            reveal_strlit("-");
        }
        assert(s@ =~= seq!['-']);
        let d = decimal_string(mag);
        s.append(d.as_str());
    } else {
        s = decimal_string(*v as u32);
    }
    s.append("%");
    proof {
        reveal_strlit("%");
    }
    assert("%"@ =~= seq!['%']);
    s
}

} // verus!
