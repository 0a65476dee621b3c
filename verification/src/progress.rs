//! The progress bar's live position: re-based from what a source reports,
//! integrated while it plays, frozen while it does not. Positions are
//! microseconds, rates thousandths, clock readings milliseconds.
use crate::config::{elapsed, since};
use crate::events::TrackInfo;
use vstd::prelude::*;

verus! {

/// How far behind the displayed position a report may lie and still count as
/// report latency.
pub const LATENCY_TOLERANCE_US: i64 = 3_000_000;

/// A full bar, in the units of a bar fraction.
pub const FULL_BAR: u64 = 1_000_000_000;

/// The least movement of the bar worth a repaint, whatever the width.
pub const MIN_BAR_STEP: u64 = 100_000;

/// A position at a moment.
#[derive(Clone, Copy, Debug, PartialEq, Eq, Structural)]
pub struct Anchor {
    pub at: u64,
    pub position_us: i64,
}

/// The progress estimate of the shown content.
#[derive(Clone, Copy, Debug, PartialEq, Eq, Structural)]
pub struct Progress {
    /// The live position; `None` where the source reports none.
    pub estimated_us: Option<i64>,
    pub duration_secs: Option<u64>,
    pub rate_milli: Option<i64>,
    /// What the estimate integrates from.
    pub anchor: Option<Anchor>,
    /// Whether the content was playing at the last tick.
    pub playing: bool,
    /// The last reported position, to tell a stale report from a fresh one.
    pub last_position_us: Option<i64>,
    /// The bar fraction painted on the last frame, in billionths.
    pub last_bar: Option<u64>,
}

/// The position after `elapsed_ms` at the given rate, never negative.
pub open spec fn integrated(base_us: i64, rate_milli: i64, elapsed_ms: int) -> int {
    let p = base_us + elapsed_ms * rate_milli;
    if p < 0 {
        0
    } else if p > i64::MAX {
        i64::MAX as int
    } else {
        p
    }
}

/// The position at the anchor plus the elapsed time at the given rate: a
/// millisecond at a thousandth of the rate is a microsecond. Never negative.
pub fn estimate_position(base_us: i64, rate_milli: i64, elapsed_ms: i64) -> (r: i64)
    ensures
        r == integrated(base_us, rate_milli, elapsed_ms as int),
{
    let (e, m) = (elapsed_ms as i128, rate_milli as i128);
    assert(-0x4000_0000_0000_0000_0000_0000_0000_0000 <= e * m <= 0x4000_0000_0000_0000_0000_0000_0000_0000)
        by (nonlinear_arith)
        requires
            -0x8000_0000_0000_0000 <= e <= 0x7fff_ffff_ffff_ffff,
            -0x8000_0000_0000_0000 <= m <= 0x7fff_ffff_ffff_ffff,
    ;
    assert(e * m == elapsed_ms * rate_milli);
    let p: i128 = base_us as i128 + e * m;
    if p < 0 {
        0
    } else if p > i64::MAX as i128 {
        i64::MAX
    } else {
        p as i64
    }
}

/// The elapsed milliseconds as a signed count.
pub open spec fn signed_since(at: u64, now: u64) -> int {
    if since(at, now) > i64::MAX {
        i64::MAX as int
    } else {
        since(at, now) as int
    }
}

fn signed_elapsed(at: u64, now: u64) -> (r: i64)
    ensures
        r == signed_since(at, now),
{
    let ms: u64 = elapsed(at, now);
    if ms > i64::MAX as u64 {
        i64::MAX
    } else {
        ms as i64
    }
}

/// The part of the duration that has passed, in billionths.
pub open spec fn bar_fraction(position_us: i64, duration_secs: u64) -> int {
    let f = position_us * 1000 / (duration_secs as int);
    if f < 0 {
        0
    } else if f > FULL_BAR {
        FULL_BAR as int
    } else {
        f
    }
}

fn fraction_of(position_us: i64, duration_secs: u64) -> (r: u64)
    requires
        duration_secs > 0,
    ensures
        r == bar_fraction(position_us, duration_secs),
        r <= FULL_BAR,
{
    if position_us <= 0 {
        assert(position_us * 1000 / (duration_secs as int) <= 0) by (nonlinear_arith)
            requires
                position_us <= 0,
                duration_secs > 0,
        ;
        return 0;
    }
    let f: u128 = (position_us as u128) * 1000 / (duration_secs as u128);
    if f > FULL_BAR as u128 {
        FULL_BAR
    } else {
        f as u64
    }
}

/// Whether the bar moved by at least one pixel of a bar `width` wide.
pub open spec fn moved_a_pixel(from: u64, to: u64, width: u32) -> bool {
    let d = if from < to {
        to - from
    } else {
        from - to
    };
    d >= MIN_BAR_STEP && d * width >= FULL_BAR
}

fn bar_stepped(from: u64, to: u64, width: u32) -> (r: bool)
    ensures
        r == moved_a_pixel(from, to, width),
{
    let d: u64 = if from < to {
        to - from
    } else {
        from - to
    };
    assert(0 <= d * width <= u64::MAX * 0x1_0000_0000) by (nonlinear_arith)
        requires
            0 <= d <= u64::MAX,
            0 <= width <= 0x1_0000_0000,
    ;
    d >= MIN_BAR_STEP && (d as u128) * (width as u128) >= FULL_BAR as u128
}

impl Progress {
    /// No content, no progress.
    pub open spec fn none() -> Progress {
        Progress {
            estimated_us: None,
            duration_secs: None,
            rate_milli: None,
            anchor: None,
            playing: false,
            last_position_us: None,
            last_bar: None,
        }
    }

    /// No content, no progress.
    pub fn new() -> (r: Self)
        ensures
            r == Progress::none(),
    {
        Progress {
            estimated_us: None,
            duration_secs: None,
            rate_milli: None,
            anchor: None,
            playing: false,
            last_position_us: None,
            last_bar: None,
        }
    }

    /// The estimate after a track became the content.
    pub open spec fn rebased(self, track: TrackInfo, now: u64) -> Progress {
        Progress {
            estimated_us: track.position_us,
            duration_secs: track.duration_secs,
            rate_milli: track.playback_rate_milli,
            anchor: match track.position_us {
                Some(position_us) => Some(
                    Anchor {
                        at: match track.position_updated_at {
                            Some(at) => at,
                            None => now,
                        },
                        position_us,
                    },
                ),
                None => None,
            },
            playing: true,
            last_position_us: None,
            last_bar: self.last_bar,
        }
    }

    /// Re-bases the estimate from a track that became the content. A track
    /// without a position gets no anchor: the bar holds.
    pub fn apply_track(&mut self, track: &TrackInfo, now: u64)
        ensures
            *final(self) == old(self).rebased(*track, now),
    {
        self.duration_secs = track.duration_secs;
        self.rate_milli = track.playback_rate_milli;
        self.last_position_us = None;
        self.estimated_us = track.position_us;
        self.anchor = match track.position_us {
            Some(position_us) => Some(
                Anchor {
                    at: match track.position_updated_at {
                        Some(at) => at,
                        None => now,
                    },
                    position_us,
                },
            ),
            None => None,
        };
        self.playing = true;
    }

    /// Whether a report repeats the last one.
    pub open spec fn is_stale(self, position_us: i64) -> bool {
        self.last_position_us == Some(position_us)
    }

    /// The position displayed after a report: the report where it is ahead of
    /// the display, or far behind it and fresh; the display where the report
    /// is stale or within the latency tolerance.
    pub open spec fn reconciled(self, position_us: i64) -> i64 {
        match self.estimated_us {
            Some(cur) => if position_us >= cur {
                position_us
            } else if self.is_stale(position_us) || position_us >= cur - LATENCY_TOLERANCE_US {
                cur
            } else {
                position_us
            },
            None => position_us,
        }
    }

    /// The estimate after a live report.
    pub open spec fn reported(
        self,
        position_us: Option<i64>,
        duration_secs: Option<u64>,
        rate_milli: Option<i64>,
        now: u64,
    ) -> Progress {
        match position_us {
            Some(pos) => Progress {
                estimated_us: Some(self.reconciled(pos)),
                duration_secs,
                rate_milli,
                anchor: if self.is_stale(pos) {
                    self.anchor
                } else {
                    Some(Anchor { at: now, position_us: self.reconciled(pos) })
                },
                last_position_us: Some(pos),
                ..self
            },
            None => Progress {
                estimated_us: None,
                duration_secs,
                rate_milli,
                anchor: None,
                last_position_us: None,
                ..self
            },
        }
    }

    /// Re-bases the estimate from a live report. Whether the bar advances is
    /// not touched; a missing position clears the estimate.
    pub fn apply_progress(
        &mut self,
        position_us: Option<i64>,
        duration_secs: Option<u64>,
        rate_milli: Option<i64>,
        now: u64,
    )
        ensures
            *final(self) == old(self).reported(position_us, duration_secs, rate_milli, now),
    {
        self.duration_secs = duration_secs;
        self.rate_milli = rate_milli;
        let pos: i64 = match position_us {
            Some(p) => p,
            None => {
                self.estimated_us = None;
                self.anchor = None;
                self.last_position_us = None;
                return;
            },
        };
        let stale = match self.last_position_us {
            Some(last) => last == pos,
            None => false,
        };
        let base: i64 = match self.estimated_us {
            Some(cur) => if pos >= cur {
                pos
            } else if stale || pos as i128 >= cur as i128 - LATENCY_TOLERANCE_US as i128 {
                cur
            } else {
                pos
            },
            None => pos,
        };
        self.estimated_us = Some(base);
        if !stale {
            self.anchor = Some(Anchor { at: now, position_us: base });
        }
        self.last_position_us = Some(pos);
    }

    /// The anchor used at a tick: moved to the frozen position on resume.
    pub open spec fn tick_anchor(self, playing: bool, now: u64) -> Option<Anchor> {
        if playing && !self.playing && self.estimated_us is Some {
            Some(Anchor { at: now, position_us: self.estimated_us->0 })
        } else {
            self.anchor
        }
    }

    /// The live position after a tick: integrated while playing, frozen
    /// otherwise.
    pub open spec fn tick_estimate(self, playing: bool, now: u64) -> Option<i64> {
        match (self.tick_anchor(playing, now), self.rate_milli) {
            (Some(a), Some(rate)) => if playing {
                Some(integrated(a.position_us, rate, signed_since(a.at, now)) as i64)
            } else {
                self.estimated_us
            },
            _ => self.estimated_us,
        }
    }

    /// The bar fraction at a tick; `None` where no moving bar is drawn.
    pub open spec fn tick_bar(self, playing: bool, now: u64, width: u32) -> Option<u64> {
        let est = self.tick_estimate(playing, now);
        if playing && self.rate_milli is Some && self.tick_anchor(playing, now) is Some && est is Some
            && self.duration_secs is Some && self.duration_secs->0 > 0 && width > 0 {
            Some(bar_fraction(est->0, self.duration_secs->0) as u64)
        } else {
            None
        }
    }

    /// The estimate after a tick. A bar that moved by a pixel is painted anew;
    /// a smaller step waits until it adds up to one.
    pub open spec fn ticked(self, playing: bool, now: u64, width: u32) -> Progress {
        Progress {
            estimated_us: self.tick_estimate(playing, now),
            anchor: self.tick_anchor(playing, now),
            playing,
            last_bar: match self.tick_bar(playing, now, width) {
                Some(to) => if self.tick_moves(playing, now, width) {
                    Some(to)
                } else {
                    self.last_bar
                },
                None => None,
            },
            ..self
        }
    }

    /// The estimate after a frame was painted with it.
    pub open spec fn painted(self) -> Progress {
        Progress {
            last_bar: match (self.estimated_us, self.duration_secs) {
                (Some(est), Some(duration)) => if duration > 0 {
                    Some(bar_fraction(est, duration) as u64)
                } else {
                    None
                },
                _ => None,
            },
            ..self
        }
    }

    /// Takes note of a painted frame.
    pub fn note_painted(&mut self)
        ensures
            *final(self) == old(self).painted(),
    {
        self.last_bar = match (self.estimated_us, self.duration_secs) {
            (Some(est), Some(duration)) => if duration > 0 {
                Some(fraction_of(est, duration))
            } else {
                None
            },
            _ => None,
        };
    }

    /// Whether a tick finds the bar at least a pixel away from where it was
    /// last painted.
    pub open spec fn tick_moves(self, playing: bool, now: u64, width: u32) -> bool {
        match self.tick_bar(playing, now, width) {
            Some(to) => match self.last_bar {
                Some(from) => moved_a_pixel(from, to, width),
                None => true,
            },
            None => false,
        }
    }

    /// Advances the estimate at a tick. Answers whether the bar moved by at
    /// least a pixel of the `width` since it was last painted.
    pub fn tick(&mut self, playing: bool, now: u64, width: u32) -> (moved: bool)
        ensures
            *final(self) == old(self).ticked(playing, now, width),
            moved == old(self).tick_moves(playing, now, width),
    {
        if playing && !self.playing {
            if let Some(est) = self.estimated_us {
                self.anchor = Some(Anchor { at: now, position_us: est });
            }
        }
        self.playing = playing;
        if playing {
            if let (Some(a), Some(rate)) = (self.anchor, self.rate_milli) {
                self.estimated_us = Some(estimate_position(a.position_us, rate, signed_elapsed(a.at, now)));
            }
        }
        if playing && self.rate_milli.is_some() && self.anchor.is_some() && width > 0 {
            if let (Some(est), Some(duration)) = (self.estimated_us, self.duration_secs) {
                if duration > 0 {
                    let to: u64 = fraction_of(est, duration);
                    let moved = match self.last_bar {
                        Some(from) => bar_stepped(from, to, width),
                        None => true,
                    };
                    if moved {
                        self.last_bar = Some(to);
                    }
                    return moved;
                }
            }
        }
        self.last_bar = None;
        false
    }
}

/// The bar's width in whole pixels: the passed part of the duration, rounded
/// to the nearest pixel. No bar without a position or a duration.
pub open spec fn bar_pixels(estimated_us: Option<i64>, duration_secs: Option<u64>, pill_w: u32) -> Option<int> {
    match (estimated_us, duration_secs) {
        (Some(est), Some(duration)) => if duration > 0 {
            let total = duration * 1_000_000;
            let done = if est < 0 {
                0
            } else if est > total {
                total
            } else {
                est as int
            };
            Some((2 * (pill_w * done) + total) / (2 * total))
        } else {
            None
        },
        _ => None,
    }
}

/// The bar's width in whole pixels, as it is drawn.
pub fn bar_pixel_w(estimated_us: Option<i64>, duration_secs: Option<u64>, pill_w: u32) -> (r: Option<u32>)
    ensures
        match r {
            Some(w) => bar_pixels(estimated_us, duration_secs, pill_w) == Some(w as int),
            None => bar_pixels(estimated_us, duration_secs, pill_w) is None,
        },
        r matches Some(w) ==> w <= pill_w,
{
    let (est, duration) = match (estimated_us, duration_secs) {
        (Some(e), Some(d)) => (e, d),
        _ => {
            return None;
        },
    };
    if duration == 0 {
        return None;
    }
    let total: u128 = (duration as u128) * 1_000_000;
    let done: u128 = if est < 0 {
        0
    } else if (est as u128) > total {
        total
    } else {
        est as u128
    };
    let w: u128 = pill_w as u128;
    assert(0 <= w * done <= 0x1_0000_0000 * (0x1_0000_0000_0000_0000 * 1_000_000)) by (nonlinear_arith)
        requires
            0 <= w <= 0x1_0000_0000,
            0 <= done <= 0x1_0000_0000_0000_0000 * 1_000_000,
    ;
    let px: u128 = (2 * (w * done) + total) / (2 * total);
    assert(w * done == pill_w * done);
    proof {
        lemma_rounded_part(w as int, done as int, total as int);
    }
    Some(px as u32)
}

pub(crate) proof fn lemma_bar_fits(estimated_us: Option<i64>, duration_secs: Option<u64>, pill_w: u32)
    ensures
        bar_pixels(estimated_us, duration_secs, pill_w) matches Some(w) ==> 0 <= w <= pill_w,
{
    if let (Some(est), Some(duration)) = (estimated_us, duration_secs) {
        if duration > 0 {
            let total = duration * 1_000_000;
            let done = if est < 0 {
                0
            } else if est > total {
                total
            } else {
                est as int
            };
            lemma_rounded_part(pill_w as int, done, total);
        }
    }
}

proof fn lemma_rounded_part(w: int, done: int, total: int)
    by (nonlinear_arith)
    requires
        total > 0,
        0 <= done <= total,
        w >= 0,
    ensures
        0 <= (2 * (w * done) + total) / (2 * total) <= w,
{
    assert(0 <= w * done <= w * total);
    assert((2 * (w * total) + total) / (2 * total) == w);
    assert(2 * (w * done) + total <= 2 * (w * total) + total);
}

/// The painted bar is never a pixel behind: what a tick does not repaint lies
/// less than a pixel from the live position.
pub proof fn law_painted_bar_is_never_a_pixel_behind(p: Progress, playing: bool, now: u64, width: u32)
    ensures
        p.tick_bar(playing, now, width) matches Some(to) ==> {
            &&& p.ticked(playing, now, width).last_bar is Some
            &&& !moved_a_pixel(p.ticked(playing, now, width).last_bar->0, to, width)
        },
{
}

/// While nothing plays a tick leaves the displayed position as it is.
pub proof fn law_paused_bar_is_frozen(p: Progress, now: u64, width: u32)
    ensures
        p.ticked(false, now, width).estimated_us == p.estimated_us,
        !p.tick_moves(false, now, width),
{
}

/// On resume the bar goes on from where it was frozen: it neither jumps nor
/// falls back.
pub proof fn law_resume_continues_from_the_frozen_position(p: Progress, now: u64, width: u32)
    requires
        !p.playing,
        p.estimated_us is Some,
        p.estimated_us->0 >= 0,
    ensures
        p.ticked(true, now, width).estimated_us == p.estimated_us,
{
    if let Some(rate) = p.rate_milli {
        assert(signed_since(now, now) * rate == 0) by (nonlinear_arith)
            requires
                signed_since(now, now) == 0,
        ;
    }
}

/// A small backward jitter or a repeated report never moves the bar backward.
pub proof fn law_jitter_never_snaps_the_bar_backward(
    p: Progress,
    position_us: i64,
    duration_secs: Option<u64>,
    rate_milli: Option<i64>,
    now: u64,
)
    requires
        p.estimated_us is Some,
        p.is_stale(position_us) || position_us >= p.estimated_us->0 - LATENCY_TOLERANCE_US,
    ensures
        p.reported(Some(position_us), duration_secs, rate_milli, now).estimated_us is Some,
        p.reported(Some(position_us), duration_secs, rate_milli, now).estimated_us->0 >= p.estimated_us->0,
{
}

/// A fresh report far behind the display, or one ahead of it, re-bases the
/// bar on the reported position at once.
pub proof fn law_seek_rebases_the_bar(
    p: Progress,
    position_us: i64,
    duration_secs: Option<u64>,
    rate_milli: Option<i64>,
    now: u64,
)
    requires
        !p.is_stale(position_us),
        p.estimated_us matches Some(cur) ==> position_us >= cur || position_us < cur - LATENCY_TOLERANCE_US,
    ensures
        p.reported(Some(position_us), duration_secs, rate_milli, now).estimated_us == Some(position_us),
        p.reported(Some(position_us), duration_secs, rate_milli, now).anchor == Some(Anchor { at: now, position_us }),
{
}

/// Playing forward, the live position never falls as time passes.
pub proof fn law_playing_bar_advances(base_us: i64, rate_milli: i64, earlier: int, later_ms: int)
    requires
        rate_milli >= 0,
        earlier <= later_ms,
    ensures
        integrated(base_us, rate_milli, earlier) <= integrated(base_us, rate_milli, later_ms),
{
    assert(earlier * rate_milli <= later_ms * rate_milli) by (nonlinear_arith)
        requires
            rate_milli >= 0,
            earlier <= later_ms,
    ;
}

/// The live position is the one at the anchor plus the time passed at its
/// rate, exactly, and never before the start.
pub proof fn law_live_position_is_linear(base_us: i64, rate_milli: i64, elapsed_ms: int)
    ensures
        0 <= base_us + elapsed_ms * rate_milli <= i64::MAX ==> integrated(base_us, rate_milli, elapsed_ms) == base_us
            + elapsed_ms * rate_milli,
        base_us + elapsed_ms * rate_milli < 0 ==> integrated(base_us, rate_milli, elapsed_ms) == 0,
        base_us + elapsed_ms * rate_milli > i64::MAX ==> integrated(base_us, rate_milli, elapsed_ms) == i64::MAX,
{
}

/// The bar fills evenly over the duration, in billionths rounded down, and
/// neither runs over nor below.
pub proof fn law_bar_fills_evenly(position_us: i64, duration_secs: u64)
    requires
        duration_secs > 0,
    ensures
        position_us <= 0 ==> bar_fraction(position_us, duration_secs) == 0,
        position_us >= duration_secs * 1_000_000 ==> bar_fraction(position_us, duration_secs) == 1_000_000_000,
        0 <= position_us < duration_secs * 1_000_000 ==> {
            let f = bar_fraction(position_us, duration_secs);
            f * duration_secs <= position_us * 1000 < (f + 1) * duration_secs
        },
{
    let (n, d) = (position_us * 1000, duration_secs as int);
    let q = n / d;
    assert(q * d <= n < (q + 1) * d) by (nonlinear_arith)
        requires
            q == n / d,
            d > 0,
    ;
    if position_us <= 0 {
        assert(q <= 0) by (nonlinear_arith)
            requires
                q * d <= n,
                n <= 0,
                d > 0,
        ;
    } else {
        assert(q >= 0) by (nonlinear_arith)
            requires
                n < (q + 1) * d,
                n >= 0,
                d > 0,
        ;
    }
    if position_us >= duration_secs * 1_000_000 {
        assert(q >= 1_000_000_000) by (nonlinear_arith)
            requires
                n < (q + 1) * d,
                n >= d * 1_000_000_000,
                d > 0,
        ;
    } else if position_us >= 0 {
        assert(q < 1_000_000_000) by (nonlinear_arith)
            requires
                q * d <= n,
                n < d * 1_000_000_000,
                d > 0,
        ;
    }
}

/// Whether the bar moved does not depend on the direction. It did where the
/// way is at least a pixel of the width and at least a ten-thousandth of the
/// bar, and a bar that stands has not.
pub proof fn law_bar_moves_by_whole_pixels(from: u64, to: u64, width: u32)
    ensures
        moved_a_pixel(from, to, width) == moved_a_pixel(to, from, width),
        !moved_a_pixel(from, from, width),
        from <= to && to - from >= 100_000 && (to - from) * width >= 1_000_000_000 ==> moved_a_pixel(from, to, width),
        from <= to && (to - from < 100_000 || (to - from) * width < 1_000_000_000) ==> !moved_a_pixel(from, to, width),
{
}

/// A track that becomes the content sets the bar to its own position,
/// duration and rate, whatever was there before, and anchors it at that
/// position exactly where it has one.
pub proof fn law_track_sets_the_bar(p: Progress, track: TrackInfo, now: u64)
    ensures
        ({
            let s = p.rebased(track, now);
            &&& s.estimated_us == track.position_us
            &&& s.duration_secs == track.duration_secs
            &&& s.rate_milli == track.playback_rate_milli
            &&& s.anchor is Some <==> track.position_us is Some
            &&& s.anchor matches Some(a) ==> a.position_us == track.position_us->0
            &&& s.anchor matches Some(a) ==> (track.position_updated_at is Some ==> a.at
                == track.position_updated_at->0)
            &&& s.anchor matches Some(a) ==> (track.position_updated_at is None ==> a.at == now)
            &&& s.playing && s.last_position_us is None && s.last_bar == p.last_bar
        }),
{
}

/// A report takes over duration and rate. One without a position clears the
/// bar; one that repeats the last position keeps the anchor; any other sets it
/// to the displayed position, now. Whether the bar plays and what was painted
/// is not touched.
pub proof fn law_report_sets_the_bar(
    p: Progress,
    position_us: Option<i64>,
    duration_secs: Option<u64>,
    rate_milli: Option<i64>,
    now: u64,
)
    ensures
        ({
            let s = p.reported(position_us, duration_secs, rate_milli, now);
            &&& s.duration_secs == duration_secs && s.rate_milli == rate_milli
            &&& s.playing == p.playing && s.last_bar == p.last_bar
            &&& s.last_position_us == position_us
            &&& position_us is None ==> s.estimated_us is None && s.anchor is None
            &&& position_us matches Some(pos) ==> {
                &&& p.last_position_us == Some(pos) ==> s.anchor == p.anchor
                &&& p.last_position_us != Some(pos) ==> s.anchor is Some && s.anchor->0.at == now && Some(
                    s.anchor->0.position_us,
                ) == s.estimated_us
                &&& p.estimated_us is None ==> s.estimated_us == Some(pos)
                &&& p.estimated_us matches Some(cur) ==> {
                    &&& pos >= cur ==> s.estimated_us == Some(pos)
                    &&& pos < cur && pos >= cur - 3_000_000 ==> s.estimated_us == Some(cur)
                    &&& pos < cur && p.last_position_us == Some(pos) ==> s.estimated_us == Some(cur)
                    &&& pos < cur - 3_000_000 && p.last_position_us != Some(pos) ==> s.estimated_us == Some(pos)
                }
            }
        }),
{
}

/// A tick while playing integrates from the anchor; a bar without an anchor
/// or a rate stands. On resume the anchor moves to where the bar stood.
pub proof fn law_tick_integrates_from_the_anchor(p: Progress, now: u64, width: u32)
    ensures
        ({
            let s = p.ticked(true, now, width);
            &&& s.playing
            &&& s.duration_secs == p.duration_secs && s.rate_milli == p.rate_milli
            &&& s.last_position_us == p.last_position_us
            &&& p.playing || p.estimated_us is None ==> s.anchor == p.anchor
            &&& !p.playing && p.estimated_us is Some ==> s.anchor == Some(
                Anchor { at: now, position_us: p.estimated_us->0 },
            )
            &&& p.rate_milli is None ==> s.estimated_us == p.estimated_us
            &&& s.anchor is None ==> s.estimated_us == p.estimated_us
            &&& s.anchor matches Some(a) ==> p.rate_milli matches Some(rate) ==> since(a.at, now) <= i64::MAX
                ==> s.estimated_us == Some(integrated(a.position_us, rate, since(a.at, now) as int) as i64)
        }),
        ({
            let s = p.ticked(false, now, width);
            &&& !s.playing
            &&& s.anchor == p.anchor && s.estimated_us == p.estimated_us
            &&& s.last_bar is None
            &&& s.duration_secs == p.duration_secs && s.rate_milli == p.rate_milli
        }),
{
}

/// A playing bar asks for a repaint where it was not painted yet or has moved
/// by a pixel since, and is remembered as painted there; otherwise what was
/// painted stays. A bar that is not drawn asks for none.
pub proof fn law_tick_repaints_a_moved_bar(p: Progress, now: u64, width: u32)
    ensures
        ({
            let s = p.ticked(true, now, width);
            let drawn = p.rate_milli is Some && s.anchor is Some && s.estimated_us is Some && p.duration_secs is Some
                && p.duration_secs->0 > 0 && width > 0;
            let at = bar_fraction(s.estimated_us->0, p.duration_secs->0);
            &&& !drawn ==> !p.tick_moves(true, now, width) && s.last_bar is None
            &&& drawn && p.last_bar is None ==> p.tick_moves(true, now, width)
            &&& drawn && p.last_bar is Some ==> (p.tick_moves(true, now, width) <==> moved_a_pixel(
                p.last_bar->0,
                at as u64,
                width,
            ))
            &&& drawn && p.tick_moves(true, now, width) ==> s.last_bar == Some(at as u64)
            &&& drawn && !p.tick_moves(true, now, width) ==> s.last_bar == p.last_bar
        }),
{
}

/// A painted bar is remembered where it stands, and only that changes.
pub proof fn law_painted_bar_is_remembered(p: Progress)
    ensures
        ({
            let s = p.painted();
            &&& p.estimated_us is Some && p.duration_secs is Some && p.duration_secs->0 > 0 ==> s.last_bar == Some(
                bar_fraction(p.estimated_us->0, p.duration_secs->0) as u64,
            )
            &&& p.estimated_us is None || p.duration_secs is None || p.duration_secs == Some(0u64) ==> s.last_bar
                is None
            &&& s == (Progress { last_bar: s.last_bar, ..p })
        }),
{
}

/// The drawn bar covers the passed part of the duration, to the nearest
/// pixel: none of it at the start, all of it at the end. Without a position or
/// a duration there is no bar.
pub proof fn law_drawn_bar_covers_the_passed_part(est: i64, duration_secs: u64, pill_w: u32)
    requires
        duration_secs > 0,
    ensures
        bar_pixels(Some(est), Some(duration_secs), pill_w) is Some,
        est <= 0 ==> bar_pixels(Some(est), Some(duration_secs), pill_w) == Some(0int),
        est >= duration_secs * 1_000_000 ==> bar_pixels(Some(est), Some(duration_secs), pill_w) == Some(pill_w as int),
        0 <= est <= duration_secs * 1_000_000 ==> {
            let w = bar_pixels(Some(est), Some(duration_secs), pill_w)->0;
            let total = duration_secs * 1_000_000;
            (2 * w - 1) * total <= 2 * (pill_w * est) < (2 * w + 1) * total
        },
        bar_pixels(None, Some(duration_secs), pill_w) is None,
        bar_pixels(Some(est), None, pill_w) is None,
        bar_pixels(Some(est), Some(0), pill_w) is None,
{
    let total = duration_secs * 1_000_000;
    let done = if est < 0 {
        0
    } else if est > total {
        total
    } else {
        est as int
    };
    let x = pill_w * done;
    let w = (2 * x + total) / (2 * total);
    assert(bar_pixels(Some(est), Some(duration_secs), pill_w) == Some(w));
    assert(w * (2 * total) <= 2 * x + total < (w + 1) * (2 * total)) by (nonlinear_arith)
        requires
            w == (2 * x + total) / (2 * total),
            total > 0,
    ;
    assert((2 * w - 1) * total == w * (2 * total) - total) by (nonlinear_arith);
    assert((2 * w + 1) * total == (w + 1) * (2 * total) - total) by (nonlinear_arith);
    if est <= 0 {
        assert(x == 0) by (nonlinear_arith)
            requires
                x == pill_w * done,
                done == 0,
        ;
        assert(w == 0) by (nonlinear_arith)
            requires
                w * (2 * total) <= total,
                total < (w + 1) * (2 * total),
                total > 0,
        ;
    }
    if est >= total {
        assert(w == pill_w) by (nonlinear_arith)
            requires
                w * (2 * total) <= 2 * x + total,
                2 * x + total < (w + 1) * (2 * total),
                x == pill_w * total,
                total > 0,
        ;
    }
}

/// The time since a moment is counted as it is, up to what a signed count
/// holds.
pub proof fn law_passed_time_is_counted_as_it_is(at: u64, now: u64)
    requires
        at <= now,
    ensures
        now - at <= i64::MAX ==> signed_since(at, now) == now - at,
        now - at > i64::MAX ==> signed_since(at, now) == i64::MAX,
        signed_since(now, at) == 0,
{
}

} // verus!
