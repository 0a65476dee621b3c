//! Pixel buffers, covers and colors.
use std::sync::Arc;
use winglance_overlay::needs_font_rebuild;
use winglance_overlay::config::{Color, Config};
use winglance_overlay::events::{MediaEvent, Palette};
use winglance_overlay::geometry::ONE;
use winglance_overlay::overlay::OverlayState;
use winglance_overlay::pill::Env;
use winglance_overlay::pixels::{
    blend_frames, blit_packed_rows, clear_frame_scratch, dim_color, edge_fade_factor, mix_byte,
    shrink_frame_scratch, shrink_is_due, tinted_fill,
};

/// The moment at which every bench starts, in ms.
const START: u64 = 1_000_000;

/// An overlay with the system around it: a clock, a foreground, a cursor and
/// a queue of media events.
struct Bench {
    pill: OverlayState,
    env: Env,
    over: bool,
    queue: Vec<MediaEvent>,
}

impl std::ops::Deref for Bench {
    type Target = OverlayState;

    fn deref(&self) -> &OverlayState {
        &self.pill
    }
}

impl std::ops::DerefMut for Bench {
    fn deref_mut(&mut self) -> &mut OverlayState {
        &mut self.pill
    }
}

fn bench(config: Config) -> Bench {
    Bench {
        pill: OverlayState::new(config, START),
        env: Env {
            now: START,
            foreground: 1,
            exe: None,
            fullscreen: false,
            animations: true,
            refresh_period: 16,
            target: None,
            target_dpi: 96,
            target_covered: false,
        },
        over: false,
        queue: Vec::new(),
    }
}

#[test]
fn needs_font_rebuild_is_true_only_when_the_target_dpi_differs() {
    // Same DPI on both sides: the pill's fonts already match the target.
    assert!(!needs_font_rebuild(96, 96));
    assert!(!needs_font_rebuild(144, 144));
    // A mismatch must force a rerender so the pill is sized for the target,
    // never for its stale fonts.
    assert!(needs_font_rebuild(96, 144));
    assert!(needs_font_rebuild(144, 96));
    // Fonts that were never built (dpi 0) must also rerender on the first
    // non-hidden frame.
    assert!(needs_font_rebuild(0, 96));
}

#[test]
fn frame_scratch_is_cleared_when_it_grows() {
    let mut scratch = vec![0xA5; 4];

    clear_frame_scratch(&mut scratch, 8);

    assert_eq!(scratch, vec![0; 8]);
}

#[test]
fn frame_scratch_is_shrunk_back_only_when_it_drops_to_half_capacity() {
    // `clear_frame_scratch` keeps len == needed while an oversized frame has
    // inflated the capacity far beyond it.
    let mut scratch = Vec::with_capacity(512 * 1024);
    scratch.resize(128 * 1024, 0);

    shrink_frame_scratch(&mut scratch, 128 * 1024);

    assert_eq!(scratch.capacity(), 128 * 1024);

    // A mild reduction keeps the capacity (hysteresis), so the normal
    // expand/collapse animation never reallocates.
    let mut mild = Vec::with_capacity(512 * 1024);
    mild.resize(300 * 1024, 0);
    shrink_frame_scratch(&mut mild, 300 * 1024);
    assert_eq!(mild.capacity(), 512 * 1024);
}

#[test]
fn shrinking_is_due_exactly_at_half() {
    assert!(shrink_is_due(512, 256));
    assert!(!shrink_is_due(512, 257));
    assert!(!shrink_is_due(511, 256));
    assert!(shrink_is_due(0, 0));
}

#[test]
fn clearing_keeps_nothing_of_a_longer_buffer() {
    let mut scratch = vec![7; 16];
    clear_frame_scratch(&mut scratch, 3);
    assert_eq!(scratch, vec![0, 0, 0]);
}

/// The destination is larger than the packed source, so every row has to land
/// at its real stride, not at the source's packed width.
#[test]
fn blit_packed_rows_respects_the_larger_destination_stride() {
    let row_bytes = 3 * 4; // 3 pixels wide, BGRA
    let rows = 4;
    let dst_stride_bytes = 10 * 4; // destination is much wider (10px) per row

    // Distinct byte pattern per row so a stride mismatch is unmistakable.
    let mut src = vec![0u8; row_bytes * rows];
    for row in 0..rows {
        for b in 0..row_bytes {
            src[row * row_bytes + b] = (row * 10 + b) as u8;
        }
    }

    let mut dst = vec![0xAAu8; dst_stride_bytes * rows]; // 0xAA marks untouched bytes
    blit_packed_rows(&mut dst, dst_stride_bytes, &src, row_bytes, rows);

    for row in 0..rows {
        let dst_row = &dst[row * dst_stride_bytes..row * dst_stride_bytes + dst_stride_bytes];
        let src_row = &src[row * row_bytes..row * row_bytes + row_bytes];
        // The row's own data lands at the start of its (wider) destination row.
        assert_eq!(&dst_row[..row_bytes], src_row, "row {row} landed at the wrong offset");
        // The padding past the packed row width is untouched.
        assert!(
            dst_row[row_bytes..].iter().all(|&b| b == 0xAA),
            "row {row} overwrote destination padding past its packed width"
        );
    }
}

#[test]
fn blit_packed_rows_is_a_no_op_for_zero_rows_or_width() {
    let mut dst = vec![0xAAu8; 40];
    blit_packed_rows(&mut dst, 10, &[], 4, 0);
    assert!(dst.iter().all(|&b| b == 0xAA));
    let mut dst2 = vec![0xAAu8; 40];
    blit_packed_rows(&mut dst2, 10, &[1, 2, 3], 0, 3);
    assert!(dst2.iter().all(|&b| b == 0xAA));
}

#[test]
fn blit_packed_rows_is_identity_when_strides_match() {
    // When the strides match, the blit degenerates to a straight contiguous
    // copy.
    let src: Vec<u8> = (0..24u8).collect();
    let mut dst = vec![0u8; 24];
    blit_packed_rows(&mut dst, 6, &src, 6, 4);
    assert_eq!(dst, src);
}

/// The side of a decoded cover in pixels.
const ARTWORK_DECODE: usize = 96;

/// A solid-color cover: premultiplied BGRA of a fixed size.
fn pm_art(color: [u8; 3]) -> Option<Arc<Vec<u8>>> {
    let (b, g, r) = (color[2], color[1], color[0]);
    let px = [b, g, r, 255];
    Some(Arc::new(px.repeat(ARTWORK_DECODE * ARTWORK_DECODE)))
}

/// The cover in the order of its color channels.
fn converted(art: &Option<Arc<Vec<u8>>>) -> Option<Arc<Vec<u8>>> {
    art.as_ref().map(|pixels| {
        let mut rgba = pixels.to_vec();
        for px in rgba.chunks_mut(4) {
            px.swap(0, 2);
        }
        Arc::new(rgba)
    })
}

/// A palette of the cover's first pixel.
fn derived(art: &Option<Arc<Vec<u8>>>) -> Option<Palette> {
    art.as_ref().map(|pixels| {
        let c = Color { r: pixels[2], g: pixels[1], b: pixels[0], a: pixels[3] };
        Palette { primary: c, secondary: c }
    })
}

fn ensure(state: &mut Bench, art: &Option<Arc<Vec<u8>>>) {
    state.ensure_art(art, converted(art), derived(art));
}

#[test]
fn artwork_cache_is_keyed_by_decoded_pixels() {
    let config = Config::default();
    let mut state = bench(config);
    let red = pm_art([200, 40, 40]);
    let blue = pm_art([40, 40, 200]);

    ensure(&mut state, &red);
    assert_eq!(
        state.look.art.as_ref().map(|a| a.len()),
        Some(ARTWORK_DECODE * ARTWORK_DECODE * 4)
    );
    let first = state.look.art.clone();

    // Same pixels (equal bytes, different Arc): served from the cache,
    // not converted again.
    let again = pm_art([200, 40, 40]);
    assert!(!state.needs_art(&again));
    ensure(&mut state, &again);
    assert_eq!(state.look.art, first);

    // New pixels: converted again.
    assert!(state.needs_art(&blue));
    ensure(&mut state, &blue);
    assert_ne!(state.look.art, first);

    // A simulated eviction (empty buffer) with an unchanged key is a
    // no-op: a failed decode must not be re-attempted on every frame.
    state.look.art = None;
    ensure(&mut state, &blue);
    assert!(state.look.art.is_none(), "same key must not re-convert");

    // A missing decode (corrupt art) is cached as a failure: the same
    // `None` key again is a no-op and never re-attempts conversion.
    ensure(&mut state, &None);
    state.look.art = Some(Arc::new(vec![0u8; 4]));
    ensure(&mut state, &None);
    assert_eq!(
        state.look.art.as_ref().map(|a| a.to_vec()),
        Some(vec![0u8, 0, 0, 0]),
        "None key must be a no-op"
    );

    // A new cover after a recorded failure still converts.
    ensure(&mut state, &blue);
    assert_ne!(state.look.art.as_ref().map(|a| a.len()), Some(4));
}

#[test]
fn ensure_art_prefers_the_worker_palette_over_recomputation() {
    let config = Config::default();
    let mut state = bench(config);
    let red = pm_art([200, 40, 40]);
    let blue = pm_art([40, 40, 200]);
    // Without a track palette the palette derives from the converted art.
    ensure(&mut state, &red);
    let derived_red = state.look.palette.expect("a solid cover must yield a palette");
    // A worker palette wins and is immune to byte changes: a re-encoded
    // thumbnail converts a new buffer, but the accent must not shift.
    let worker_palette = Palette {
        primary: Color { r: 0x11, g: 0x22, b: 0x33, a: 0xFF },
        secondary: Color { r: 0x44, g: 0x55, b: 0x66, a: 0xFF },
    };
    state.look.content_palette = Some(worker_palette);
    ensure(&mut state, &blue);
    assert_eq!(state.look.palette, Some(worker_palette));
    assert_ne!(
        state.look.palette,
        Some(derived_red),
        "the worker palette must replace a previously derived one"
    );
    // Same art bytes with the worker palette: the early return keeps
    // both the buffer and the palette stable.
    let before = state.look.art.clone();
    ensure(&mut state, &blue);
    assert_eq!(state.look.art, before);
    assert_eq!(state.look.palette, Some(worker_palette));
    // A state pill (no track palette) with NEW art derives again.
    state.look.content_palette = None;
    let yellow = pm_art([240, 220, 40]);
    ensure(&mut state, &yellow);
    assert_ne!(state.look.palette, Some(worker_palette));
    assert!(state.look.palette.is_some());
}

#[test]
fn fill_tint_mixes_toward_the_accent_and_keeps_alpha() {
    let base = Color { r: 160, g: 160, b: 180, a: 38 };
    let accent = Color { r: 255, g: 0, b: 0, a: 255 };
    assert_eq!(tinted_fill(base, accent, 0), base, "zero weight leaves the base untouched");
    let full = tinted_fill(base, accent, ONE);
    assert_eq!([full.r, full.g, full.b], [accent.r, accent.g, accent.b]);
    let half = tinted_fill(base, accent, ONE / 2);
    assert_eq!(
        [half.r, half.g, half.b, half.a],
        [208, 80, 90, 38],
        "weight 0.5 lands at the channel midpoint"
    );
    assert_eq!(half.a, base.a, "alpha must be preserved");
}

#[test]
fn edge_fade_factor_ramps_to_zero_at_both_edges() {
    // The mask must read 0 at each visible boundary, 1 across the
    // interior, and linear in between; a zero fade width or a degenerate
    // rect must disable it entirely. The two edge widths are independent:
    // disabling one edge leaves that boundary at full opacity.
    let (left, right, fade_w) = (10, 110, 12);
    let at = |x: i64| edge_fade_factor(x, left, right, fade_w, fade_w);
    assert_eq!(at(left), 0, "left boundary must be fully faded");
    assert_eq!(at(left + fade_w / 2), ONE / 2, "halfway through the left fade must read 0.5");
    assert_eq!(at((left + right) / 2), ONE, "the interior must stay at full opacity");
    assert_eq!(at(right - fade_w / 2), ONE / 2, "halfway through the right fade must read 0.5");
    assert_eq!(at(right), 0, "right boundary must be fully faded");
    assert_eq!(edge_fade_factor(50, 0, 100, 0, 0), ONE, "a zero fade width must disable the mask");
    assert_eq!(
        edge_fade_factor(50, 100, 50, 12, 12),
        ONE,
        "a degenerate rect must disable the mask"
    );
    // Trailing-only hold fade: a disabled left edge keeps the left
    // boundary at full opacity while the right edge still ramps (and the
    // mirror case for a disabled right edge).
    assert_eq!(
        edge_fade_factor(left, left, right, 0, fade_w),
        ONE,
        "a disabled left edge must keep the left boundary at full opacity"
    );
    assert_eq!(
        edge_fade_factor(right, left, right, 0, fade_w),
        0,
        "the right edge must still fade when only the left is disabled"
    );
    assert_eq!(
        edge_fade_factor(left, left, right, fade_w, 0),
        0,
        "the left edge must still fade when only the right is disabled"
    );
    assert_eq!(
        edge_fade_factor(right, left, right, fade_w, 0),
        ONE,
        "a disabled right edge must keep the right boundary at full opacity"
    );
}

#[test]
fn blend_frames_lerps_premultiplied_pixels() {
    // The cross-fade's frame composition: all four bytes (the alpha
    // channel included) lerp from the old frame to the new one.
    let to = vec![200u8, 100, 50, 255, 10, 20, 30, 128];
    let from = vec![0u8, 0, 0, 0, 100, 100, 100, 255];
    let mut at0 = to.clone();
    blend_frames(&mut at0, &from, 0);
    assert_eq!(at0, from, "weight 0 must show the old frame");
    let mut at1 = to.clone();
    blend_frames(&mut at1, &from, ONE);
    assert_eq!(at1, to, "weight 1 must show the new frame unchanged");
    let mut half = to.clone();
    blend_frames(&mut half, &from, ONE / 2);
    assert_eq!(
        half,
        vec![100, 50, 25, 128, 55, 60, 65, 192],
        "weight 0.5 must blend both frames"
    );
}

#[test]
fn a_longer_frame_keeps_its_tail_unblended() {
    let mut frame = vec![200u8, 200, 200, 200];
    blend_frames(&mut frame, &vec![100, 100], 250_000);
    assert_eq!(frame, vec![125, 125, 200, 200]);
}

#[test]
fn dim_color_scales_only_the_alpha_channel() {
    let dim = |c: [u8; 4], factor: i64| {
        let r = dim_color(Color { r: c[0], g: c[1], b: c[2], a: c[3] }, factor);
        [r.r, r.g, r.b, r.a]
    };
    assert_eq!(dim([10, 20, 30, 255], ONE), [10, 20, 30, 255]);
    assert_eq!(dim([10, 20, 30, 255], ONE / 2), [10, 20, 30, 128]);
    assert_eq!(dim([10, 20, 30, 255], 0), [10, 20, 30, 0]);
    // Out-of-range factors clamp.
    assert_eq!(dim([1, 2, 3, 128], 2 * ONE), [1, 2, 3, 128]);
}

#[test]
fn bytes_mix_to_the_nearest_step() {
    assert_eq!(mix_byte(0, 255, 100_000), 26);
    assert_eq!(mix_byte(255, 0, 100_000), 230);
    assert_eq!(mix_byte(0, 255, -5), 0);
    assert_eq!(mix_byte(0, 255, 7 * ONE), 255);
}
