//! The pill's geometry: sizes, the morph between its two shapes, and the
//! fades that go with it. Logical lengths are thousandths of a pixel;
//! progress, scales and opacities are millionths.
use crate::config::Config;
use crate::events::MediaEvent;
use crate::fullscreen::{clamped, half};
use crate::hover::MorphDirection;
use vstd::prelude::*;

verus! {

/// One whole, in millionths.
pub const ONE: i64 = 1_000_000;

/// How far a bouncing pill grows past its size.
pub const BOUNCE_OVER: i64 = 50_000;

/// How far a bouncing pill shrinks below its size.
pub const BOUNCE_UNDER: i64 = 50_000;

/// The expand spring's peak above one whole.
pub const EXPAND_EXCESS: i64 = 45_988;

/// The collapse spring's dip below nothing.
pub const COLLAPSE_DIP: i64 = 94_780;

/// Narrowest pill.
pub const MIN_PILL_WIDTH: u64 = 180_000;

/// The app icon's size.
pub const ICON_SIZE: u64 = 16_000;

/// The playback symbol's size in the compact row.
pub const SYMBOL_SIZE: u64 = 16_000;

/// The gap between the title band and the app icon.
pub const ICON_GAP: u64 = 6_000;

/// The gap before the playback symbol.
pub const SYMBOL_GAP: u64 = 16_000;

/// The gap between the art tile and the text.
pub const ART_GAP: u64 = 12_000;

/// Slack below the text rows of the expanded pill.
pub const ROW_SLACK: u64 = 8_000;

/// The two axes of a shape morph.
#[derive(Clone, Copy, Debug, PartialEq, Eq, Structural)]
pub struct MorphProgress {
    pub width: i64,
    pub height: i64,
}

/// A logical size.
#[derive(Clone, Copy, Debug, PartialEq, Eq, Structural)]
pub struct Size {
    pub w: u64,
    pub h: u64,
}

/// The elements of the compact row.
#[derive(Clone, Copy, Debug, PartialEq, Eq, Structural)]
pub struct CompactMetrics {
    pub art: u64,
    pub icon: u64,
    pub symbol: u64,
}

/// The band height of a text row: 1.35 times its font size.
pub open spec fn band(font: u32) -> int {
    font * 135 / 100
}

/// The band height of a small text row: 0.85 of the artist font.
pub open spec fn small_band(font: u32) -> int {
    font * 11475 / 10000
}

/// The band height of a text row.
pub fn row_height(font: u32) -> (r: u64)
    ensures
        r == band(font),
{
    (font as u64) * 135 / 100
}

/// The elements of the compact row: art tile and symbol fit the title band.
pub open spec fn metrics(config: Config) -> CompactMetrics {
    let row = band(config.appearance.font_size_title);
    CompactMetrics {
        art: if config.appearance.art_size * 1000 < row {
            (config.appearance.art_size * 1000) as u64
        } else {
            row as u64
        },
        icon: ICON_SIZE,
        symbol: if SYMBOL_SIZE < row {
            SYMBOL_SIZE
        } else {
            row as u64
        },
    }
}

/// The elements of the compact row.
pub fn compact_metrics(config: &Config) -> (r: CompactMetrics)
    ensures
        r == metrics(*config),
        r.art <= band(config.appearance.font_size_title),
        r.symbol <= band(config.appearance.font_size_title),
        r.art <= 0x1_0000_0000 * 1000,
{
    let row: u64 = row_height(config.appearance.font_size_title);
    let art: u64 = (config.appearance.art_size as u64) * 1000;
    CompactMetrics {
        art: if art < row {
            art
        } else {
            row
        },
        icon: ICON_SIZE,
        symbol: if SYMBOL_SIZE < row {
            SYMBOL_SIZE
        } else {
            row
        },
    }
}

/// The expanded pill: the configured width, and room for all four text rows
/// whatever the content.
pub open spec fn expanded_size(config: Config) -> Size {
    Size {
        w: (config.overlay.max_width * 1000) as u64,
        h: (band(config.appearance.font_size_title) + band(config.appearance.font_size_artist) + 2 * small_band(
            config.appearance.font_size_artist,
        ) + 2 * config.appearance.padding + ROW_SLACK) as u64,
    }
}

/// The expanded pill's size.
pub fn content_size(config: &Config) -> (r: Size)
    ensures
        r == expanded_size(*config),
        r.w <= 0x1_0000_0000 * 1000,
        r.h <= 0x8_0000_0000,
{
    let a = &config.appearance;
    let small: u64 = (a.font_size_artist as u64) * 11475 / 10000;
    Size {
        w: (config.overlay.max_width as u64) * 1000,
        h: row_height(a.font_size_title) + row_height(a.font_size_artist) + 2 * small + 2 * (a.padding as u64)
            + ROW_SLACK,
    }
}

/// The compact pill: one title row and padding, and most of the configured
/// width, never below the narrowest pill nor above the configured width.
pub open spec fn compact_extent(config: Config) -> Size {
    let max = config.overlay.max_width * 1000;
    let wish = config.overlay.max_width * 880;
    let wide = if wish < MIN_PILL_WIDTH {
        MIN_PILL_WIDTH as int
    } else {
        wish
    };
    Size {
        w: (if wide < max {
            wide
        } else {
            max
        }) as u64,
        h: (band(config.appearance.font_size_title) + 2 * config.appearance.padding) as u64,
    }
}

/// The compact pill's size.
pub fn compact_size(config: &Config) -> (r: Size)
    ensures
        r == compact_extent(*config),
        r.w <= config.overlay.max_width * 1000,
        r.h == band(config.appearance.font_size_title) + 2 * config.appearance.padding,
        r.w <= 0x1_0000_0000 * 1000,
        r.h <= 0x8_0000_0000,
{
    let max: u64 = (config.overlay.max_width as u64) * 1000;
    let wish: u64 = (config.overlay.max_width as u64) * 880;
    let wide: u64 = if wish < MIN_PILL_WIDTH {
        MIN_PILL_WIDTH
    } else {
        wish
    };
    Size {
        w: if wide < max {
            wide
        } else {
            max
        },
        h: row_height(config.appearance.font_size_title) + 2 * (config.appearance.padding as u64),
    }
}

/// The size of a pill in the given layout.
pub open spec fn layout_size(config: Config, compact: bool) -> Size {
    if compact {
        compact_extent(config)
    } else {
        expanded_size(config)
    }
}

/// The size of a pill with the given content: a layout's size does not depend
/// on which rows the content fills.
pub fn content_size_of(config: &Config, _content: &MediaEvent, compact: bool) -> (r: Size)
    ensures
        r == layout_size(*config, compact),
        r.w <= 0x1_0000_0000 * 1000,
        r.h <= 0x8_0000_0000,
{
    if compact {
        compact_size(config)
    } else {
        content_size(config)
    }
}

/// The title band of the compact row, between the art tile and the trailing
/// icon and symbol.
pub fn compact_title_viewport(config: &Config) -> (r: (i64, i64))
    ensures
        r.0 == config.appearance.padding + metrics(*config).art + ART_GAP,
        r.1 == compact_extent(*config).w - config.appearance.padding - metrics(*config).symbol - SYMBOL_GAP
            - metrics(*config).icon - ICON_GAP,
{
    let m = compact_metrics(config);
    let pill = compact_size(config);
    let padding: i64 = config.appearance.padding as i64;
    (
        padding + m.art as i64 + ART_GAP as i64,
        pill.w as i64 - padding - m.symbol as i64 - SYMBOL_GAP as i64 - m.icon as i64 - ICON_GAP as i64,
    )
}

/// `progress` brought into the whole.
pub open spec fn unit(progress: i64) -> int {
    clamped(progress as int, 0, ONE as int)
}

fn to_unit(progress: i64) -> (r: i64)
    ensures
        r == unit(progress),
        0 <= r <= ONE,
{
    if progress < 0 {
        0
    } else if progress > ONE {
        ONE
    } else {
        progress
    }
}

/// The way from `a` to `b` at `progress`, clamped to both ends.
pub open spec fn between(a: int, b: int, progress: i64) -> int {
    if a <= b {
        a + (b - a) * unit(progress) / (ONE as int)
    } else {
        a - (a - b) * unit(progress) / (ONE as int)
    }
}

/// The way between two values starts at the first, ends at the second and
/// never leaves the interval between them.
pub proof fn law_between_stays_between(a: int, b: int, progress: i64)
    ensures
        between(a, b, 0) == a,
        between(a, b, ONE) == b,
        a <= b ==> a <= between(a, b, progress) <= b,
        b <= a ==> b <= between(a, b, progress) <= a,
{
    let u = unit(progress);
    let d = if a <= b {
        b - a
    } else {
        a - b
    };
    assert(d * 0 / 1_000_000 == 0);
    assert(d * 1_000_000 / 1_000_000 == d);
    assert(0 <= d * u / 1_000_000 <= d) by (nonlinear_arith)
        requires
            0 <= u <= 1_000_000,
            0 <= d,
    ;
}

/// More progress never moves back.
pub proof fn law_between_is_monotonic(a: int, b: int, p: i64, q: i64)
    requires
        p <= q,
        a <= b,
    ensures
        between(a, b, p) <= between(a, b, q),
{
    let (u, v, d) = (unit(p), unit(q), b - a);
    assert(d * u / 1_000_000 <= d * v / 1_000_000) by (nonlinear_arith)
        requires
            u <= v,
            0 <= d,
    ;
}

/// The way from `a` to `b` at `progress`.
pub fn lerp(a: i64, b: i64, progress: i64) -> (r: i64)
    ensures
        r == between(a as int, b as int, progress),
        a <= b ==> a <= r <= b,
        b <= a ==> b <= r <= a,
{
    let part: i128 = to_unit(progress) as i128;
    let (from, to) = (a as i128, b as i128);
    let wide: i128 = if a <= b {
        to - from
    } else {
        from - to
    };
    assert(0 <= wide * part <= 0x1_0000_0000_0000_0000 * 1_000_000) by (nonlinear_arith)
        requires
            0 <= wide <= 0x1_0000_0000_0000_0000,
            0 <= part <= 1_000_000,
    ;
    assert(wide * part == wide * unit(progress));
    proof {
        law_between_stays_between(a as int, b as int, progress);
    }
    let way: i128 = wide * part / 1_000_000;
    if a <= b {
        (from + way) as i64
    } else {
        (from - way) as i64
    }
}

/// The morphing pill's size: each axis goes its own way between the compact
/// and the expanded size.
pub open spec fn morphed_size(config: Config, progress: MorphProgress) -> Size {
    let c = compact_extent(config);
    let e = expanded_size(config);
    Size {
        w: between(c.w as int, e.w as int, progress.width) as u64,
        h: between(c.h as int, e.h as int, progress.height) as u64,
    }
}

/// The morphing pill's size.
pub fn morph_size(config: &Config, _content: &MediaEvent, progress: MorphProgress) -> (r: Size)
    ensures
        r == morphed_size(*config, progress),
        r.w <= 0x1_0000_0000 * 1000,
        r.h <= 0x8_0000_0000,
{
    let c = compact_size(config);
    let e = content_size(config);
    Size {
        w: lerp(c.w as i64, e.w as i64, progress.width) as u64,
        h: lerp(c.h as i64, e.h as i64, progress.height) as u64,
    }
}

/// A morphing pill never leaves the interval between its two sizes, however
/// far the springs overshoot, and meets them exactly at both ends.
pub proof fn law_morph_never_overshoots(config: Config, progress: MorphProgress)
    ensures
        morphed_size(config, MorphProgress { width: 0, height: 0 }) == compact_extent(config),
        morphed_size(config, MorphProgress { width: ONE, height: ONE }) == expanded_size(config),
        compact_extent(config).w <= morphed_size(config, progress).w <= expanded_size(config).w,
        compact_extent(config).h <= expanded_size(config).h ==> compact_extent(config).h <= morphed_size(
            config,
            progress,
        ).h <= expanded_size(config).h,
{
    let c = compact_extent(config);
    let e = expanded_size(config);
    law_between_stays_between(c.w as int, e.w as int, progress.width);
    law_between_stays_between(c.h as int, e.h as int, progress.height);
}

/// The corner radius of a morphing pill, on the leading width axis.
pub fn morph_radius(compact_r: u32, expanded_r: u32, progress: MorphProgress) -> (r: u32)
    ensures
        r == between(compact_r as int, expanded_r as int, progress.width),
        compact_r <= expanded_r ==> compact_r <= r <= expanded_r,
        expanded_r <= compact_r ==> expanded_r <= r <= compact_r,
{
    lerp(compact_r as i64, expanded_r as i64, progress.width) as u32
}

/// The settle-bounce of a pill whose width spring is at `width`.
pub open spec fn bounce(width: i64, direction: MorphDirection) -> int {
    match direction {
        MorphDirection::Expand => ONE + BOUNCE_OVER * clamped(width - ONE, 0, EXPAND_EXCESS as int) / (
        EXPAND_EXCESS as int),
        MorphDirection::Collapse => ONE - BOUNCE_UNDER * clamped(-width, 0, COLLAPSE_DIP as int) / (
        COLLAPSE_DIP as int),
    }
}

/// The whole-pill scale of the settle-bounce: one inside the spring's
/// endpoints, up to a twentieth larger past the end of an expand, down to a
/// twentieth smaller below the end of a collapse.
pub fn bounce_scale(progress: MorphProgress, direction: MorphDirection) -> (r: i64)
    ensures
        r == bounce(progress.width, direction),
        ONE - BOUNCE_UNDER <= r <= ONE + BOUNCE_OVER,
{
    match direction {
        MorphDirection::Expand => {
            let excess: i64 = if progress.width <= ONE {
                0
            } else if progress.width - ONE > EXPAND_EXCESS {
                EXPAND_EXCESS
            } else {
                progress.width - ONE
            };
            ONE + BOUNCE_OVER * excess / EXPAND_EXCESS
        },
        MorphDirection::Collapse => {
            let dip: i64 = if progress.width >= 0 {
                0
            } else if progress.width < -COLLAPSE_DIP {
                COLLAPSE_DIP
            } else {
                -progress.width
            };
            ONE - BOUNCE_UNDER * dip / COLLAPSE_DIP
        },
    }
}

/// A logical length in physical pixels under a bounce scale: rounded to the
/// nearest pixel, at least one.
pub open spec fn pixels(length: u64, scale: i64, dpi: u32) -> int {
    let px = (2 * (length * scale * dpi) + 96_000_000_000) / 192_000_000_000;
    if px < 1 {
        1
    } else {
        px
    }
}

/// A logical length in physical pixels under a bounce scale.
pub fn to_pixels(length: u64, scale: i64, dpi: u32) -> (r: i32)
    requires
        length <= 0x1_0000_0000 * 1000,
        0 <= scale <= 2 * ONE,
    ensures
        r == clamped(pixels(length, scale, dpi), 1, i32::MAX as int),
{
    let (l, s, d) = (length as u128, scale as u128, dpi as u128);
    assert(0 <= l * s <= 0x1_0000_0000 * 1000 * 2_000_000) by (nonlinear_arith)
        requires
            0 <= l <= 0x1_0000_0000 * 1000,
            0 <= s <= 2_000_000,
    ;
    let ls: u128 = l * s;
    assert(0 <= ls * d <= 0x1_0000_0000 * 1000 * 2_000_000 * 0x1_0000_0000) by (nonlinear_arith)
        requires
            0 <= ls <= 0x1_0000_0000 * 1000 * 2_000_000,
            0 <= d <= 0x1_0000_0000,
    ;
    assert(ls == length * scale);
    assert(ls * d == length * scale * dpi);
    let px: u128 = (2 * (ls * d) + 96_000_000_000) / 192_000_000_000;
    if px < 1 {
        1
    } else if px > i32::MAX as u128 {
        i32::MAX
    } else {
        px as i32
    }
}

/// A follower's own time: it holds for `lag`, then runs through the rest.
pub open spec fn lagged(t: i64, lag: i64) -> int {
    if t <= lag {
        0
    } else if t >= ONE {
        ONE as int
    } else {
        (t - lag) * ONE / (ONE - lag)
    }
}

/// A follower's own time at `t` of the leg, when it starts `lag` later and
/// ends with it.
pub fn lag_progress(t: i64, lag: i64) -> (r: i64)
    requires
        0 <= lag < ONE,
    ensures
        r == lagged(t, lag),
        0 <= r <= ONE,
{
    if t <= lag {
        return 0;
    }
    if t >= ONE {
        return ONE;
    }
    assert((t - lag) * ONE / (ONE - lag) <= ONE) by (nonlinear_arith)
        requires
            0 <= lag < t < ONE,
            ONE == 1_000_000,
    ;
    assert(0 <= (t - lag) * ONE / (ONE - lag)) by (nonlinear_arith)
        requires
            0 <= lag < t < ONE,
            ONE == 1_000_000,
    ;
    (t - lag) * ONE / (ONE - lag)
}

/// A follower never moves back and never gets ahead of the leg.
pub proof fn law_follower_trails(t: i64, u: i64, lag: i64)
    requires
        0 <= lag < ONE,
        0 <= t <= u,
    ensures
        lagged(t, lag) <= lagged(u, lag),
        t <= ONE ==> lagged(t, lag) <= t,
{
    if lag < t < ONE {
        assert((t - lag) * 1_000_000 / (1_000_000 - lag) <= t) by (nonlinear_arith)
            requires
                0 <= lag < t < 1_000_000,
        ;
        assert((t - lag) * 1_000_000 / (1_000_000 - lag) >= 0) by (nonlinear_arith)
            requires
                0 <= lag < t < 1_000_000,
        ;
        if u < ONE {
            assert((t - lag) * 1_000_000 / (1_000_000 - lag) <= (u - lag) * 1_000_000 / (1_000_000 - lag))
                by (nonlinear_arith)
                requires
                    0 <= lag < t <= u < 1_000_000,
            ;
        }
    } else if lag < u < ONE {
        assert((u - lag) * 1_000_000 / (1_000_000 - lag) >= 0) by (nonlinear_arith)
            requires
                0 <= lag < u < 1_000_000,
        ;
    }
}

/// The fifth power.
pub open spec fn quint(v: int) -> int {
    v * v * v * v * v
}

/// The quintic ease-out: one minus the fifth power of what is left.
pub open spec fn eased(t: i64) -> int {
    (quint(ONE as int) - quint(ONE - unit(t))) / (1_000_000_000_000_000_000_000_000)
}

/// The fifth power of a part of the whole.
pub fn quint_of(v: u64) -> (r: u128)
    requires
        v <= 1_000_000,
    ensures
        r == quint(v as int),
        r <= 1_000_000_000_000_000_000_000_000_000_000,
{
    let w: u128 = v as u128;
    assert(0 <= w * w <= 1_000_000_000_000) by (nonlinear_arith)
        requires
            0 <= w <= 1_000_000,
    ;
    let w2: u128 = w * w;
    assert(0 <= w2 * w <= 1_000_000_000_000_000_000) by (nonlinear_arith)
        requires
            0 <= w <= 1_000_000,
            0 <= w2 <= 1_000_000_000_000,
    ;
    let w3: u128 = w2 * w;
    assert(0 <= w3 * w <= 1_000_000_000_000_000_000_000_000) by (nonlinear_arith)
        requires
            0 <= w <= 1_000_000,
            0 <= w3 <= 1_000_000_000_000_000_000,
    ;
    let w4: u128 = w3 * w;
    assert(0 <= w4 * w <= 1_000_000_000_000_000_000_000_000_000_000) by (nonlinear_arith)
        requires
            0 <= w <= 1_000_000,
            0 <= w4 <= 1_000_000_000_000_000_000_000_000,
    ;
    w4 * w
}

/// The quintic ease-out at `t`, clamped to the leg.
pub fn ease_out_quint(t: i64) -> (r: i64)
    ensures
        r == eased(t),
        0 <= r <= ONE,
{
    let left: u64 = (ONE - to_unit(t)) as u64;
    let rest: u128 = quint_of(left);
    assert(quint(ONE as int) == 1_000_000_000_000_000_000_000_000_000_000) by (nonlinear_arith)
        requires
            ONE == 1_000_000,
    ;
    ((1_000_000_000_000_000_000_000_000_000_000 - rest) / 1_000_000_000_000_000_000_000_000) as i64
}

proof fn lemma_quint_monotonic(a: int, b: int)
    requires
        0 <= a <= b,
    ensures
        0 <= quint(a) <= quint(b),
{
    assert(0 <= a * a <= b * b) by (nonlinear_arith)
        requires
            0 <= a <= b,
    ;
    assert(0 <= a * a * a <= b * b * b) by (nonlinear_arith)
        requires
            0 <= a <= b,
            0 <= a * a <= b * b,
    ;
    assert(0 <= a * a * a * a <= b * b * b * b) by (nonlinear_arith)
        requires
            0 <= a <= b,
            0 <= a * a * a <= b * b * b,
    ;
    assert(0 <= a * a * a * a * a <= b * b * b * b * b) by (nonlinear_arith)
        requires
            0 <= a <= b,
            0 <= a * a * a * a <= b * b * b * b,
    ;
}

/// The ease-out starts at nothing, ends at one and never falls.
pub proof fn law_ease_is_monotonic_and_clamped(t: i64, u: i64)
    requires
        t <= u,
    ensures
        t <= 0 ==> eased(t) == 0,
        t >= ONE ==> eased(t) == ONE,
        eased(t) <= eased(u),
{
    lemma_quint_monotonic(ONE - unit(u), ONE - unit(t));
    assert(quint(1_000_000) == 1_000_000_000_000_000_000_000_000_000_000) by (nonlinear_arith);
    assert(quint(0) == 0) by (nonlinear_arith);
}

/// The part of a tile above the body's bottom edge.
pub open spec fn uncut(body_bottom: i32, art_y: i32, art_size: i32) -> int {
    if art_size <= 0 || body_bottom >= art_y + art_size {
        ONE as int
    } else if body_bottom <= art_y {
        0
    } else {
        (body_bottom - art_y) * ONE / (art_size as int)
    }
}

/// The opacity of an art tile under a growing body: full while it fits, less
/// by exactly the part that the edge cuts off.
pub fn art_edge_gate(body_bottom: i32, art_y: i32, art_size: i32) -> (r: i64)
    ensures
        r == uncut(body_bottom, art_y, art_size),
        0 <= r <= ONE,
{
    let (b, y, s) = (body_bottom as i64, art_y as i64, art_size as i64);
    if s <= 0 || b >= y + s {
        return ONE;
    }
    if b <= y {
        return 0;
    }
    let d: i64 = b - y;
    assert(0 <= d * 1_000_000 / (s as int) <= 1_000_000) by (nonlinear_arith)
        requires
            0 < d < s,
    ;
    d * ONE / s
}

/// The opacity of a row whose band ends at `band_bottom`, while the body's
/// edge sweeps to its rest.
pub open spec fn unveiled(edge: i32, rest: i32, band_bottom: i32) -> int {
    if band_bottom >= rest || edge >= rest {
        ONE as int
    } else if edge <= band_bottom {
        0
    } else {
        (edge - band_bottom) * ONE / (rest - band_bottom)
    }
}

/// The opacity of a row while the body's edge sweeps from the row's bottom to
/// its rest: none before, full at rest.
pub fn row_unveil_alpha(edge: i32, rest: i32, band_bottom: i32) -> (r: i64)
    ensures
        r == unveiled(edge, rest, band_bottom),
        0 <= r <= ONE,
{
    if band_bottom >= rest || edge >= rest {
        return ONE;
    }
    if edge <= band_bottom {
        return 0;
    }
    let (n, d) = (edge as i64 - band_bottom as i64, rest as i64 - band_bottom as i64);
    assert(0 <= n * 1_000_000 / (d as int) <= 1_000_000) by (nonlinear_arith)
        requires
            0 < n < d,
    ;
    n * ONE / d
}

/// The opacity of what only the compact shape shows.
pub open spec fn compact_opacity(shape: i64) -> int {
    ONE - clamped(shape - 50_000, 0, 150_000) * ONE / 150_000
}

/// The opacity of what only the expanded shape shows.
pub open spec fn expanded_opacity(shape: i64) -> int {
    clamped(shape - 250_000, 0, 350_000) * ONE / 350_000
}

/// The opacity of what only the compact shape shows: it fades out between
/// 0.05 and 0.20 of the shape.
pub fn compact_alpha(shape: i64) -> (r: i64)
    ensures
        r == compact_opacity(shape),
{
    let passed: i64 = if shape <= 50_000 {
        0
    } else if shape >= 200_000 {
        150_000
    } else {
        shape - 50_000
    };
    ONE - passed * ONE / 150_000
}

/// The opacity of what only the expanded shape shows: it fades in between
/// 0.25 and 0.60 of the shape.
pub fn expanded_alpha(shape: i64) -> (r: i64)
    ensures
        r == expanded_opacity(shape),
{
    let passed: i64 = if shape <= 250_000 {
        0
    } else if shape >= 600_000 {
        350_000
    } else {
        shape - 250_000
    };
    passed * ONE / 350_000
}

/// What only one of the two shapes shows never appears together with what
/// only the other one shows.
pub proof fn law_exclusive_elements_never_coexist(shape: i64)
    ensures
        compact_opacity(shape) == 0 || expanded_opacity(shape) == 0,
{
}

/// A logical length in whole physical pixels.
pub open spec fn whole(length: int, dpi: u32) -> int {
    if length >= 0 {
        (2 * (length * dpi) + 96_000) / 192_000
    } else {
        -((2 * (-length * dpi) + 96_000) / 192_000)
    }
}

/// A logical length in whole physical pixels, where they can be counted.
pub fn whole_pixels(length: i64, dpi: u32) -> (r: i64)
    requires
        i64::MIN <= whole(length as int, dpi) <= i64::MAX,
    ensures
        r == whole(length as int, dpi),
{
    let wide: i128 = length as i128;
    let (l, d) = (
        if wide >= 0 {
            wide
        } else {
            -wide
        },
        dpi as i128,
    );
    assert(0 <= l * d <= 0x8000_0000_0000_0000 * 0x1_0000_0000) by (nonlinear_arith)
        requires
            0 <= l <= 0x8000_0000_0000_0000,
            0 <= d <= 0x1_0000_0000,
    ;
    assert(l * d == (if length >= 0 {
        length * dpi
    } else {
        -length * dpi
    }));
    let px: i128 = (2 * (l * d) + 96_000) / 192_000;
    if wide >= 0 {
        px as i64
    } else {
        (-px) as i64
    }
}

/// A length that a configuration can give, in whole physical pixels.
fn px(length: i64, dpi: u32) -> (r: i64)
    requires
        -0x1000_0000_0000 <= length <= 0x1000_0000_0000,
    ensures
        r == whole(length as int, dpi),
        -0x1000_0000_0000_0000 <= r <= 0x1000_0000_0000_0000,
{
    proof {
        let m = if length >= 0 {
            length as int
        } else {
            -length
        };
        assert(0 <= m * dpi <= 0x1000_0000_0000 * 0x1_0000_0000) by (nonlinear_arith)
            requires
                0 <= m <= 0x1000_0000_0000,
                0 <= dpi <= 0x1_0000_0000,
        ;
    }
    whole_pixels(length, dpi)
}

/// The compact pill's height in whole pixels.
pub open spec fn compact_px_height(config: Config, dpi: u32) -> int {
    whole(compact_extent(config).h as int, dpi)
}

/// The app icon's place in the compact row, where it also stays while it
/// dissolves.
pub fn morph_icon_pos(config: &Config, inset: i32, dpi: u32) -> (r: (i64, i64, i64))
    ensures
        r.2 == whole(ICON_SIZE as int, dpi),
        r.0 == inset + whole(
            compact_extent(*config).w - config.appearance.padding - metrics(*config).symbol - SYMBOL_GAP
                - metrics(*config).icon - ICON_GAP,
            dpi,
        ) + whole(ICON_GAP as int, dpi),
        r.1 == inset + half(compact_px_height(*config, dpi) - r.2),
{
    let (_, right) = compact_title_viewport(config);
    let size: i64 = px(ICON_SIZE as i64, dpi);
    let body: i64 = px(compact_size(config).h as i64, dpi);
    let x: i64 = inset as i64 + px(right, dpi) + px(ICON_GAP as i64, dpi);
    (x, inset as i64 + halved(body - size), size)
}

fn halved(d: i64) -> (r: i64)
    requires
        d > i64::MIN,
    ensures
        r == half(d as int),
        (if d >= 0 {
            0 <= r <= d
        } else {
            d <= r <= 0
        }),
{
    if d >= 0 {
        d / 2
    } else {
        -(-d / 2)
    }
}

/// The art tile of a morphing pill: it grows from the compact to the expanded
/// tile and stays vertically centered in the body.
pub fn morph_art_tile(config: &Config, inset: i32, pill_h: i32, dpi: u32, shape: i64) -> (r: (i64, i64, i64))
    ensures
        r.0 == inset + whole(config.appearance.padding as int, dpi),
        r.2 == between(
            whole(metrics(*config).art as int, dpi),
            whole(config.appearance.art_size * 1000, dpi),
            shape,
        ),
        r.1 == inset + half(pill_h - r.2),
{
    let small: i64 = px(compact_metrics(config).art as i64, dpi);
    let large: i64 = px((config.appearance.art_size as i64) * 1000, dpi);
    let size: i64 = lerp(small, large, shape);
    let x: i64 = inset as i64 + px(config.appearance.padding as i64, dpi);
    (x, inset as i64 + halved(pill_h as i64 - size), size)
}

/// The title band of the compact layout, as left, right and top.
pub open spec fn compact_band(config: Config, inset: int, dpi: u32) -> (int, int, int) {
    let row = whole(band(config.appearance.font_size_title), dpi);
    (
        inset + whole(config.appearance.padding + metrics(config).art + ART_GAP, dpi),
        inset + whole(
            compact_extent(config).w - config.appearance.padding - metrics(config).symbol - SYMBOL_GAP - metrics(
                config,
            ).icon - ICON_GAP,
            dpi,
        ),
        inset + half(compact_px_height(config, dpi) - row),
    )
}

/// The title row of the expanded layout, as left, right and top.
pub open spec fn expanded_band(config: Config, inset: int, width: int, dpi: u32) -> (int, int, int) {
    let padding = whole(config.appearance.padding as int, dpi);
    (
        inset + padding + whole(config.appearance.art_size * 1000, dpi) + whole(ART_GAP as int, dpi),
        width - inset - padding - (whole(metrics(config).symbol as int, dpi) + whole(SYMBOL_GAP as int, dpi)),
        inset + padding,
    )
}

/// The traveling title band of a morphing pill, as left, top, right and
/// bottom: its edges go from the compact band to the expanded title row.
pub fn morph_title_band(config: &Config, inset: i32, width: i32, dpi: u32, progress: MorphProgress) -> (r: (
    i64,
    i64,
    i64,
    i64,
))
    ensures
        r.0 == between(
            compact_band(*config, inset as int, dpi).0,
            expanded_band(*config, inset as int, width as int, dpi).0,
            progress.width,
        ),
        r.2 == between(
            compact_band(*config, inset as int, dpi).1,
            expanded_band(*config, inset as int, width as int, dpi).1,
            progress.width,
        ),
        r.1 == between(
            compact_band(*config, inset as int, dpi).2,
            expanded_band(*config, inset as int, width as int, dpi).2,
            progress.height,
        ),
        r.3 == r.1 + whole(band(config.appearance.font_size_title), dpi),
{
    let (vl, vr) = compact_title_viewport(config);
    let i: i64 = inset as i64;
    let row: i64 = px(row_height(config.appearance.font_size_title) as i64, dpi);
    let body: i64 = px(compact_size(config).h as i64, dpi);
    let padding: i64 = px(config.appearance.padding as i64, dpi);
    let art: i64 = px((config.appearance.art_size as i64) * 1000, dpi);
    let gap: i64 = px(ART_GAP as i64, dpi);
    let label: i64 = px(compact_metrics(config).symbol as i64, dpi) + px(
        SYMBOL_GAP as i64,
        dpi,
    );
    let left: i64 = lerp(i + px(vl, dpi), i + padding + art + gap, progress.width);
    let right: i64 = lerp(i + px(vr, dpi), width as i64 - i - padding - label, progress.width);
    let top: i64 = lerp(i + halved(body - row), i + padding, progress.height);
    (left, top, right, top + row)
}

/// The traveling playback symbol of a morphing pill, as right edge, top and
/// size: from the end of the compact row to the expanded title row's end.
pub fn morph_symbol_pos(config: &Config, inset: i32, width: i32, dpi: u32, progress: MorphProgress) -> (r: (
    i64,
    i64,
    i64,
))
    ensures
        r.2 == whole(metrics(*config).symbol as int, dpi),
        r.0 == between(
            compact_band(*config, inset as int, dpi).1 + whole(ICON_GAP as int, dpi) + whole(ICON_SIZE as int, dpi)
                + whole(SYMBOL_GAP as int, dpi) + r.2,
            width - inset - whole(config.appearance.padding as int, dpi),
            progress.width,
        ),
        r.1 == between(
            inset + half(compact_px_height(*config, dpi) - r.2),
            inset + whole(config.appearance.padding as int, dpi),
            progress.height,
        ),
{
    let (_, vr) = compact_title_viewport(config);
    let i: i64 = inset as i64;
    let size: i64 = px(compact_metrics(config).symbol as i64, dpi);
    let body: i64 = px(compact_size(config).h as i64, dpi);
    let padding: i64 = px(config.appearance.padding as i64, dpi);
    let from: i64 = i + px(vr, dpi) + px(ICON_GAP as i64, dpi) + px(
        ICON_SIZE as i64,
        dpi,
    ) + px(SYMBOL_GAP as i64, dpi) + size;
    let right: i64 = lerp(from, width as i64 - i - padding, progress.width);
    let top: i64 = lerp(i + halved(body - size), i + padding, progress.height);
    (right, top, size)
}

/// Whether a point lies on a pill body of the given size whose window starts
/// at `pos`, `inset` before the body.
pub fn cursor_over_pill(x: i32, y: i32, pos_x: i32, pos_y: i32, width: i32, height: i32, inset: i32) -> (r: bool)
    ensures
        r <==> pos_x + inset <= x <= pos_x + width + inset && pos_y + inset <= y <= pos_y + height + inset,
{
    let (px, py, i) = (pos_x as i64, pos_y as i64, inset as i64);
    x as i64 >= px + i && x as i64 <= px + width as i64 + i && y as i64 >= py + i && y as i64 <= py + height as i64
        + i
}

/// Each text row is as tall as its font asks for, to a thousandth of a pixel
/// below: 1.35 times the title and artist fonts, 0.85 of that for a small row.
pub proof fn law_rows_follow_their_fonts(font: u32)
    ensures
        100 * band(font) <= 135 * font < 100 * (band(font) + 1),
        10_000 * small_band(font) <= 11_475 * font < 10_000 * (small_band(font) + 1),
{
}

/// The compact row's art tile is the configured one where that fits the title
/// row, and as tall as the row otherwise; likewise the symbol, of sixteen
/// pixels. The icon always has sixteen.
pub proof fn law_compact_elements_fit_the_row(config: Config)
    ensures
        ({
            let row = band(config.appearance.font_size_title);
            let m = metrics(config);
            &&& m.art <= row && m.art <= config.appearance.art_size * 1000
            &&& m.art == row || m.art == config.appearance.art_size * 1000
            &&& m.symbol <= row && m.symbol <= 16_000
            &&& m.symbol == row || m.symbol == 16_000
            &&& m.icon == 16_000
        }),
{
}

/// The expanded pill has the configured width, the compact one 88 % of it. A
/// compact pill is at least 180 pixels wide, but never wider than the expanded
/// one.
pub proof fn law_compact_pill_is_the_narrower_one(config: Config)
    ensures
        ({
            let max = config.overlay.max_width as int;
            let w = compact_extent(config).w;
            &&& expanded_size(config).w == max * 1000
            &&& w <= expanded_size(config).w
            &&& max * 880 >= 180_000 ==> w == max * 880
            &&& max * 880 < 180_000 && max >= 180 ==> w == 180_000
            &&& max < 180 ==> w == max * 1000
        }),
{
}

/// The compact pill holds one title row between its paddings. The expanded
/// one holds the artist row, two small rows and eight pixels of slack more.
pub proof fn law_expanded_pill_holds_three_more_rows(config: Config)
    ensures
        compact_extent(config).h == band(config.appearance.font_size_title) + config.appearance.padding
            + config.appearance.padding,
        expanded_size(config).h - compact_extent(config).h == band(config.appearance.font_size_artist) + small_band(
            config.appearance.font_size_artist,
        ) + small_band(config.appearance.font_size_artist) + 8_000,
{
}

/// A layout has its own size: the compact one the compact pill's, any other
/// the expanded pill's.
pub proof fn law_layouts_have_their_sizes(config: Config)
    ensures
        layout_size(config, true) == compact_extent(config),
        layout_size(config, false) == expanded_size(config),
{
}

/// The way between two values is even: each part of the progress covers the
/// same part of the way, rounded toward the start, and going back is the same
/// way mirrored.
pub proof fn law_between_is_even(a: int, b: int, progress: i64)
    requires
        a <= b,
        0 <= progress <= ONE,
    ensures
        (between(a, b, progress) - a) * 1_000_000 <= (b - a) * progress < (between(a, b, progress) - a + 1) * 1_000_000,
        b - between(b, a, progress) == between(a, b, progress) - a,
{
    let d = b - a;
    let x = d * progress;
    assert(unit(progress) == progress);
    if a == b {
        assert(x == 0) by (nonlinear_arith)
            requires
                x == d * progress,
                d == 0,
        ;
    }
}

/// Each axis of a morphing pill follows its own spring: width and height are
/// moved independently.
pub proof fn law_morph_axes_are_independent(config: Config, width: i64, height: i64, other: i64)
    ensures
        morphed_size(config, MorphProgress { width, height }).w == morphed_size(
            config,
            MorphProgress { width, height: other },
        ).w,
        morphed_size(config, MorphProgress { width, height }).h == morphed_size(
            config,
            MorphProgress { width: other, height },
        ).h,
        morphed_size(config, MorphProgress { width, height }).w == between(
            compact_extent(config).w as int,
            expanded_size(config).w as int,
            width,
        ),
        morphed_size(config, MorphProgress { width, height }).h == between(
            compact_extent(config).h as int,
            expanded_size(config).h as int,
            height,
        ),
{
    law_between_stays_between(compact_extent(config).w as int, expanded_size(config).w as int, width);
    law_between_stays_between(compact_extent(config).h as int, expanded_size(config).h as int, height);
}

/// A pill bounces only past the end of its leg: an expanding one grows, evenly
/// with the spring's excess and by at most a twentieth; a collapsing one
/// shrinks, evenly with the spring's dip and by at most a twentieth.
pub proof fn law_bounce_is_even_and_bounded(width: i64)
    ensures
        width <= ONE ==> bounce(width, MorphDirection::Expand) == ONE,
        width >= 1_045_988 ==> bounce(width, MorphDirection::Expand) == 1_050_000,
        ONE <= width <= 1_045_988 ==> {
            let grown = bounce(width, MorphDirection::Expand) - ONE;
            45_988 * grown <= 50_000 * (width - ONE) < 45_988 * (grown + 1)
        },
        width >= 0 ==> bounce(width, MorphDirection::Collapse) == ONE,
        width <= -94_780 ==> bounce(width, MorphDirection::Collapse) == 950_000,
        -94_780 <= width <= 0 ==> {
            let lost = ONE - bounce(width, MorphDirection::Collapse);
            94_780 * lost <= 50_000 * -width < 94_780 * (lost + 1)
        },
{
}

/// A physical length is the nearest whole number of pixels to the scaled
/// logical one, and at least one pixel.
pub proof fn law_pixels_round_to_the_nearest(length: u64, scale: i64, dpi: u32)
    requires
        scale >= 0,
    ensures
        ({
            let exact = length * scale * dpi;
            let px = pixels(length, scale, dpi);
            &&& px >= 1
            &&& 2 * exact < 192_000_000_000 * px + 96_000_000_000
            &&& px > 1 ==> 2 * exact >= 192_000_000_000 * px - 96_000_000_000
        }),
{
    let exact = length * scale * dpi;
    assert(exact >= 0) by (nonlinear_arith)
        requires
            exact == length * scale * dpi,
            scale >= 0,
    ;
}

/// A length in whole pixels is the nearest one, and a length to the left is
/// the same length to the right, mirrored.
pub proof fn law_whole_pixels_round_to_the_nearest(length: int, dpi: u32)
    ensures
        whole(-length, dpi) == -whole(length, dpi),
        length >= 0 ==> 192_000 * whole(length, dpi) - 96_000 <= 2 * (length * dpi) < 192_000 * whole(length, dpi)
            + 96_000,
{
    if length == 0 {
        assert(length * dpi == 0) by (nonlinear_arith)
            requires
                length == 0,
        ;
        assert(-length * dpi == 0) by (nonlinear_arith)
            requires
                length == 0,
        ;
    }
    assert(-(-length) == length);
}

/// A half is the whole number nearest to zero, and that of the opposite is
/// its opposite.
pub proof fn law_half_truncates_toward_zero(d: int)
    ensures
        half(-d) == -half(d),
        d >= 0 ==> 2 * half(d) <= d < 2 * half(d) + 2 && half(d) >= 0,
{
}

/// A follower waits out its lag and then covers the whole leg evenly in what
/// is left of it.
pub proof fn law_follower_covers_the_leg_evenly(t: i64, lag: i64)
    requires
        0 <= lag < ONE,
    ensures
        t <= lag ==> lagged(t, lag) == 0,
        t >= ONE ==> lagged(t, lag) == ONE,
        lag < t < ONE ==> lagged(t, lag) * (ONE - lag) <= (t - lag) * ONE < (lagged(t, lag) + 1) * (ONE - lag),
{
    if lag < t < ONE {
        let (n, d) = ((t - lag) * 1_000_000, 1_000_000 - lag);
        let q = n / d;
        assert(q * d <= n < (q + 1) * d) by (nonlinear_arith)
            requires
                q == n / d,
                d > 0,
        ;
    }
}

/// The ease-out is quintic: with half of the leg left there is a thirty-second
/// of the way left that there was before, to the rounding.
pub proof fn law_ease_halves_to_a_thirty_second(left: i64)
    requires
        0 <= 2 * left <= ONE,
    ensures
        32 * (ONE - eased((ONE - left) as i64) - 1) < ONE - eased((ONE - 2 * left) as i64),
        ONE - eased((ONE - 2 * left) as i64) <= 32 * (ONE - eased((ONE - left) as i64)),
{
    let (v, w) = (quint(left as int), quint(2 * left));
    lemma_quint_doubles(left as int);
    assert(quint(1_000_000) == 1_000_000_000_000_000_000_000_000_000_000) by (nonlinear_arith);
    assert(unit((ONE - left) as i64) == ONE - left);
    assert(unit((ONE - 2 * left) as i64) == ONE - 2 * left);
    assert(eased((ONE - left) as i64) == (1_000_000_000_000_000_000_000_000_000_000 - v)
        / 1_000_000_000_000_000_000_000_000);
    assert(eased((ONE - 2 * left) as i64) == (1_000_000_000_000_000_000_000_000_000_000 - w)
        / 1_000_000_000_000_000_000_000_000);
}

pub(crate) proof fn lemma_quint_doubles(v: int)
    ensures
        quint(2 * v) == 32 * quint(v),
{
    assert((2 * v) * (2 * v) * (2 * v) * (2 * v) * (2 * v) == 32 * (v * v * v * v * v)) by (nonlinear_arith);
}

/// An art tile shows by the part of it that lies above the body's edge.
pub proof fn law_art_tile_shows_by_its_uncut_part(body_bottom: i32, art_y: i32, art_size: i32)
    ensures
        art_size <= 0 || body_bottom >= art_y + art_size ==> uncut(body_bottom, art_y, art_size) == ONE,
        art_size > 0 && body_bottom <= art_y ==> uncut(body_bottom, art_y, art_size) == 0,
        art_y < body_bottom < art_y + art_size ==> {
            let part = uncut(body_bottom, art_y, art_size);
            part * art_size <= (body_bottom - art_y) * ONE < (part + 1) * art_size
        },
{
    if art_y < body_bottom < art_y + art_size {
        let (n, d) = ((body_bottom - art_y) * 1_000_000, art_size as int);
        let q = n / d;
        assert(q * d <= n < (q + 1) * d) by (nonlinear_arith)
            requires
                q == n / d,
                d > 0,
        ;
    }
}

/// A row shows by how far the body's edge has swept from the row's bottom to
/// its own rest.
pub proof fn law_row_shows_by_the_sweep(edge: i32, rest: i32, band_bottom: i32)
    ensures
        band_bottom >= rest || edge >= rest ==> unveiled(edge, rest, band_bottom) == ONE,
        band_bottom < rest && edge <= band_bottom ==> unveiled(edge, rest, band_bottom) == 0,
        band_bottom < edge < rest ==> {
            let part = unveiled(edge, rest, band_bottom);
            part * (rest - band_bottom) <= (edge - band_bottom) * ONE < (part + 1) * (rest - band_bottom)
        },
{
    if band_bottom < edge < rest {
        let (n, d) = ((edge - band_bottom) * 1_000_000, rest - band_bottom);
        let q = n / d;
        assert(q * d <= n < (q + 1) * d) by (nonlinear_arith)
            requires
                q == n / d,
                d > 0,
        ;
    }
}

/// What only the compact shape shows is there up to a twentieth of the morph,
/// gone from a fifth on, and fades evenly between. What only the expanded
/// shape shows appears evenly between a quarter and three fifths.
pub proof fn law_exclusive_elements_fade_evenly(shape: i64)
    ensures
        shape <= 50_000 ==> compact_opacity(shape) == ONE,
        shape >= 200_000 ==> compact_opacity(shape) == 0,
        50_000 <= shape <= 200_000 ==> {
            let gone = ONE - compact_opacity(shape);
            150_000 * gone <= (shape - 50_000) * ONE < 150_000 * (gone + 1)
        },
        shape <= 250_000 ==> expanded_opacity(shape) == 0,
        shape >= 600_000 ==> expanded_opacity(shape) == ONE,
        250_000 <= shape <= 600_000 ==> 350_000 * expanded_opacity(shape) <= (shape - 250_000) * ONE < 350_000 * (
        expanded_opacity(shape) + 1),
{
}

/// The title band of the compact row starts behind the padding, the art tile
/// and a gap of twelve pixels, and ends before the icon with its gap of six,
/// the symbol with its gap of sixteen, and the padding. It is centered.
pub proof fn law_compact_title_band_lies_between_art_and_icon(config: Config, inset: int, dpi: u32)
    ensures
        ({
            let b = compact_band(config, inset, dpi);
            let m = metrics(config);
            let padding = config.appearance.padding as int;
            &&& b.0 - inset == whole(padding + m.art + 12_000, dpi)
            &&& b.1 - inset == whole(compact_extent(config).w - (6_000 + m.icon + 16_000 + m.symbol + padding), dpi)
            &&& b.2 - inset == half(
                whole(compact_extent(config).h as int, dpi) - whole(band(config.appearance.font_size_title), dpi),
            )
        }),
{
}

/// The title row of the expanded layout starts behind the padding, the full
/// art tile and a gap of twelve pixels, ends before the symbol with its gap
/// of sixteen and the padding, and lies below the padding.
pub proof fn law_expanded_title_row_lies_between_art_and_symbol(config: Config, inset: int, width: int, dpi: u32)
    ensures
        ({
            let b = expanded_band(config, inset, width, dpi);
            let padding = whole(config.appearance.padding as int, dpi);
            &&& b.0 == inset + padding + whole(config.appearance.art_size * 1000, dpi) + whole(12_000, dpi)
            &&& b.1 + whole(metrics(config).symbol as int, dpi) + whole(16_000, dpi) + padding + inset == width
            &&& b.2 == inset + padding
        }),
{
}

} // verus!
