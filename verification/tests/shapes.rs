//! Morphs, travel and fades.
use winglance_overlay::config::{
    Config, HorizontalPosition, MonitorMode, OverlayPos, VerticalPosition, animation_duration_with,
};
use winglance_overlay::drawing::normalized_elapsed;
use winglance_overlay::events::{MediaEvent, PlaybackState, TrackInfo, playback_state_for_track};
use winglance_overlay::fullscreen::{Rect, placement};
use winglance_overlay::geometry::{
    BOUNCE_OVER, BOUNCE_UNDER, COLLAPSE_DIP, EXPAND_EXCESS, MorphProgress, ONE, Size, art_edge_gate,
    bounce_scale, compact_alpha, compact_metrics, compact_size, compact_title_viewport, content_size,
    content_size_of, cursor_over_pill, ease_out_quint, expanded_alpha, lag_progress, lerp, morph_art_tile,
    morph_icon_pos, morph_radius, morph_size, morph_symbol_pos, morph_title_band, row_height,
    row_unveil_alpha, to_pixels, whole_pixels,
};
use winglance_overlay::hover::{
    HoverExpand, HoverStep, HoverTick, MorphDirection, hover_engaged, hover_step, morph_duration,
    settle_morph,
};

fn anchor_pos(x: Option<i32>, y: Option<i32>) -> OverlayPos {
    OverlayPos {
        vertical: VerticalPosition::Bottom,
        horizontal: HorizontalPosition::Center,
        margin: 8,
        x,
        y,
        monitor: MonitorMode::ActiveWindow,
    }
}

/// The part of a leg by which the height trails the width.
const MORPH_LAG: i64 = 120_000;

/// A damped spring from 0 to 1 over the leg, pinned at the leg's end.
fn spring(t: f64, damping: f64) -> f64 {
    if t >= 1.0 {
        return 1.0;
    }
    let t = t.max(0.0);
    let omega = 2.8 * std::f64::consts::PI;
    let damped = omega * (1.0 - damping * damping).sqrt();
    let decay = (-damping * omega * t).exp();
    1.0 - decay * ((damped * t).cos() + damping * omega / damped * (damped * t).sin())
}

fn millionths(v: f64) -> i64 {
    (v * 1_000_000.0).round() as i64
}

fn lagged(t: f64) -> f64 {
    lag_progress(millionths(t), MORPH_LAG) as f64 / 1_000_000.0
}

/// The progress of an expand leg at `t`.
fn expand_at(t: f64) -> MorphProgress {
    MorphProgress {
        width: millionths(spring(t, 0.7)),
        height: millionths(spring(lagged(t), 0.7)),
    }
}

/// The progress of a collapse leg at `t`, from the expanded state at rest.
fn collapse_at(t: f64) -> MorphProgress {
    MorphProgress {
        width: millionths(1.0 - spring(t, 0.6)),
        height: millionths(1.0 - spring(lagged(t), 0.6)),
    }
}

/// The progress of a hover leg at `now`.
fn hover_progress(morph: &HoverExpand, config: &Config, now: u64) -> MorphProgress {
    let duration = morph_duration(config, morph.direction, true);
    let t = normalized_elapsed(morph.start, duration, now) as f64 / 1_000_000.0;
    match morph.direction {
        MorphDirection::Expand => expand_at(t),
        MorphDirection::Collapse => collapse_at(t),
    }
}

fn pill_content(title: &str) -> MediaEvent {
    MediaEvent::TrackChanged(TrackInfo {
        source_app: "youtube-music".into(),
        title: title.into(),
        ..TrackInfo::default()
    })
}

#[test]
fn ease_out_quint_is_monotonic_and_clamped() {
    assert_eq!(ease_out_quint(0), 0);
    assert_eq!(ease_out_quint(ONE), ONE);
    // Out-of-range inputs clamp, never panic or overshoot.
    assert_eq!(ease_out_quint(-ONE), 0);
    assert_eq!(ease_out_quint(2 * ONE), ONE);
    let mut last = 0;
    for i in 0..=100 {
        let v = ease_out_quint(i * ONE / 100);
        assert!(v >= last, "quint must be non-decreasing");
        last = v;
    }
    // Half way, all but 1/32 is done.
    assert_eq!(ease_out_quint(ONE / 2), 968_750);
}

#[test]
fn disabled_animation_completes_a_leg_on_its_first_frame() {
    // While system preferences disallow motion, every leg derived
    // from the base animation duration is zero-length, and a zero-length
    // leg is already complete — the first frame renders the settled
    // state, so states switch immediately instead of animating.
    let mut config = Config::default();
    config.overlay.animation_ms = 500;
    assert_eq!(animation_duration_with(&config, true), 500);
    assert_eq!(animation_duration_with(&config, false), 0);
    assert_eq!(normalized_elapsed(1_000, 0, 1_000), ONE);
    // The springs evaluate a completed leg at the pinned endpoint (1.0),
    // so the completed first frame is the steady state.
    assert!((spring(1.0, 0.7) - 1.0).abs() < 1e-6);
    assert_eq!(expand_at(1.0), MorphProgress { width: ONE, height: ONE });
}

#[test]
fn lag_progress_holds_then_catches_up_and_pins() {
    // The follower's local time is 0 (holding at its start state) for
    // the first `lag` of the leg, then compresses the leader's curve
    // into the remaining leg: strictly increasing, reaching exactly 1.0
    // at the leg end so the follower's own spring pin lands precisely.
    let lag = MORPH_LAG;
    assert_eq!(lag_progress(0, lag), 0);
    assert_eq!(lag_progress(lag, lag), 0);
    assert_eq!(lag_progress(ONE, lag), ONE);
    let mut last = 0;
    for i in 0..=200 {
        let t = i * ONE / 200;
        let v = lag_progress(t, lag);
        assert!(v >= last, "lagged time must be non-decreasing at {t}: {v} < {last}");
        last = v;
    }
    // Out-of-range inputs clamp; lag 0 degenerates to the identity.
    assert_eq!(lag_progress(2 * ONE, lag), ONE);
    assert_eq!(lag_progress(-ONE, lag), 0);
    assert_eq!(lag_progress(300_000, 0), 300_000);
}

#[test]
fn playback_glyph_matches_the_snapshot_state_across_layouts() {
    // The pill's glyph is resolved from the TrackChanged snapshot's
    // own playback_state, not a hardcoded NowPlaying. All three layout
    // paths share `playback_state_for_track`, so a single assertion on the
    // resolved state covers compact, expanded, and expanded-text.
    let playing = TrackInfo {
        playback_state: Some(PlaybackState::Playing),
        ..TrackInfo::default()
    };
    let paused = TrackInfo {
        playback_state: Some(PlaybackState::Paused),
        ..TrackInfo::default()
    };
    let stopped = TrackInfo {
        playback_state: Some(PlaybackState::Stopped),
        ..TrackInfo::default()
    };
    let transitional = TrackInfo::default();
    assert_eq!(playback_state_for_track(&playing), PlaybackState::Playing);
    assert_eq!(playback_state_for_track(&paused), PlaybackState::Paused);
    assert_eq!(playback_state_for_track(&stopped), PlaybackState::Stopped);
    // A source that reported no terminal/transitional state falls back to
    // the default now-playing symbol — never to Playing, which would mask a
    // genuine pause that arrived without a TrackChanged in the batch.
    assert_eq!(playback_state_for_track(&transitional), PlaybackState::NowPlaying);
}

#[test]
fn morph_radius_lerps_between_the_two_radii() {
    // The radius morphs continuously between the compact and expanded
    // radii on the leading (width) axis, clamped so the eased spring can
    // never render the shape over-rounded or pinched. The settle-bounce
    // scales the composed frame as a whole, so the corners ride it without
    // this lerp overshooting.
    let (compact_r, expanded_r) = (8_000, 16_000);
    let at = |width: i64, height: i64| morph_radius(compact_r, expanded_r, MorphProgress { width, height });
    assert_eq!(at(0, 0), compact_r);
    assert_eq!(at(ONE, ONE), expanded_r);
    let mid = at(ONE / 2, ONE / 2);
    assert_eq!(mid, 12_000, "mid-morph radius must be the midpoint, got {mid}");
    // Overshoot and lagged-height states clamp to the width interval.
    let over = at(1_300_000, 400_000);
    assert_eq!(over, expanded_r);
    let under = at(-200_000, 900_000);
    assert_eq!(under, compact_r);
}

#[test]
fn hover_morph_radius_is_exactly_continuous_with_the_discrete_layout_radii() {
    // The hover leg's progress must reach the render, and the morphing
    // radius it drives must equal the discrete layout radii exactly at the
    // leg endpoints — otherwise the first/last hover frame snaps the corners.
    let config = Config::default();
    let now = 1_000_000;
    let (compact_r, expanded_r) = (config.appearance.compact_corner_radius, config.appearance.corner_radius);
    // The exit seam: a finished collapse leg pins both axes at exactly
    // 0.0, so the frame that hands off to the steady compact render draws
    // the compact radius exactly.
    let finished_collapse = HoverExpand {
        start: now - morph_duration(&config, MorphDirection::Collapse, true),
        direction: MorphDirection::Collapse,
        from: ONE,
        velocity: 0,
        done: true,
    };
    let progress = hover_progress(&finished_collapse, &config, now);
    assert_eq!(
        progress,
        MorphProgress { width: 0, height: 0 },
        "a finished collapse must land exactly on compact"
    );
    assert_eq!(
        morph_radius(compact_r, expanded_r, progress),
        compact_r,
        "the 0 endpoint must equal the compact layout's discrete radius exactly"
    );
    // The entry seam, far end: a finished expand leg pins at exactly
    // 1.0, matching the expanded discrete radius exactly.
    let finished_expand = HoverExpand {
        start: now - morph_duration(&config, MorphDirection::Expand, true),
        direction: MorphDirection::Expand,
        from: 0,
        velocity: 0,
        done: true,
    };
    let progress = hover_progress(&finished_expand, &config, now);
    assert_eq!(
        progress,
        MorphProgress { width: ONE, height: ONE },
        "a finished expand must land exactly on expanded"
    );
    assert_eq!(
        morph_radius(compact_r, expanded_r, progress),
        expanded_r,
        "the 1 endpoint must equal the expanded layout's discrete radius exactly"
    );
    // The entry seam, near end: a leg that has just begun renders the
    // compact radius — versus the full 14 px snap to the expanded radius.
    let just_started = HoverExpand {
        start: now,
        direction: MorphDirection::Expand,
        from: 0,
        velocity: 0,
        done: false,
    };
    let progress = hover_progress(&just_started, &config, now);
    let radius = morph_radius(compact_r, expanded_r, progress);
    assert!(
        radius.abs_diff(compact_r) < 5,
        "a fresh leg must render within sub-pixel of the compact radius, got {radius}"
    );
    assert!(
        radius.abs_diff(expanded_r) > 1_000,
        "a fresh leg must not snap toward the expanded radius, got {radius}"
    );
}

#[test]
fn morph_exclusive_elements_never_coexist() {
    // The shared elements (title, playback symbol, art) never fade during
    // a morph — they travel. Only the layout-exclusive elements fade, both
    // keyed to the shape progress — the less-advanced axis, min(width,
    // height). The fade windows (compact: 0.05..0.20, expanded: 0.25..0.60)
    // are deliberately DISJOINT: the compact app icon must be completely
    // gone before the expanded extra rows start arriving.
    assert_eq!(compact_alpha(50_000), ONE);
    assert_eq!(compact_alpha(200_000), 0);
    assert_eq!(expanded_alpha(250_000), 0);
    assert_eq!(expanded_alpha(600_000), ONE);
    for i in 0..=400 {
        let t = i as f64 / 400.0;
        let progress = expand_at(t);
        let shape = progress.width.min(progress.height);
        let (compact, expanded) = (compact_alpha(shape), expanded_alpha(shape));
        assert!(
            compact <= 10_000 || expanded <= 10_000,
            "the exclusive elements must never overlap at t={t}: compact={compact} expanded={expanded}"
        );
    }
    // The release direction (collapse) keeps the same disjointness, with
    // the leading width as the limiting axis: the expanded rows are gone
    // before the compact icon starts fading back in.
    for i in 0..=400 {
        let t = i as f64 / 400.0;
        let progress = collapse_at(t);
        let shape = progress.width.min(progress.height);
        let (compact, expanded) = (compact_alpha(shape), expanded_alpha(shape));
        assert!(
            compact <= 10_000 || expanded <= 10_000,
            "the exclusive elements must never overlap on collapse at t={t}: compact={compact} expanded={expanded}"
        );
    }
}

/// A logical length in whole pixels at 100 %.
fn px(length: u64) -> i64 {
    (length as f64 / 1000.0).round() as i64
}

#[test]
fn morph_art_tile_lands_exactly_on_the_steady_tiles_at_both_ends() {
    // The interpolated tile must be pixel-identical to the compact tile
    // at shape 0 (rendered in the compact body) and the expanded tile at
    // shape 1 (in the expanded body) — the morph hands off without a
    // jump.
    let config = Config::default();
    let inset = 0;
    let compact_h = px(compact_size(&config).h);
    let expanded_h = px(content_size(&config).h);
    let metrics = compact_metrics(&config);
    let appearance = &config.appearance;
    let padding = px(appearance.padding as u64);
    let (x0, y0, s0) = morph_art_tile(&config, inset, compact_h as i32, 96, 0);
    assert_eq!(s0, px(metrics.art), "shape-0 size");
    assert_eq!(y0, inset as i64 + (compact_h - s0) / 2, "shape-0 y");
    assert_eq!(x0, inset as i64 + padding, "shape-0 x");
    let (x1, y1, s1) = morph_art_tile(&config, inset, expanded_h as i32, 96, ONE);
    assert_eq!(s1, appearance.art_size as i64, "shape-1 size");
    assert_eq!(y1, inset as i64 + (expanded_h - s1) / 2, "shape-1 y");
    assert_eq!(x1, inset as i64 + padding, "shape-1 x");
}

#[test]
fn morph_title_band_lands_exactly_on_the_layout_bands_at_both_ends() {
    // Same contract as the art tile: the traveling title band is exactly
    // the compact band at shape 0 and the expanded title row at shape 1.
    let config = Config::default();
    let inset = 0;
    let width = px(content_size(&config).w);
    let appearance = &config.appearance;
    let padding = px(appearance.padding as u64);
    let row_h = px(row_height(appearance.font_size_title));
    let art = appearance.art_size as i64;
    let symbol = px(compact_metrics(&config).symbol);
    let label_w = symbol + 16;
    let compact_h = px(compact_size(&config).h);
    let (vp_left, vp_right) = compact_title_viewport(&config);
    let at0 = morph_title_band(&config, inset, width as i32, 96, MorphProgress { width: 0, height: 0 });
    assert_eq!(at0.0, px(vp_left as u64), "shape-0 left");
    assert_eq!(at0.2, px(vp_right as u64), "shape-0 right");
    assert_eq!(at0.1, (compact_h - row_h) / 2, "shape-0 top");
    assert_eq!(at0.3, at0.1 + row_h, "shape-0 bottom");
    let at1 = morph_title_band(&config, inset, width as i32, 96, MorphProgress { width: ONE, height: ONE });
    assert_eq!(at1.0, padding + art + 12, "shape-1 left");
    assert_eq!(at1.1, padding, "shape-1 top");
    assert_eq!(at1.2, width - padding - label_w, "shape-1 right");
    assert_eq!(at1.3, at1.1 + row_h, "shape-1 bottom");
}

#[test]
fn morph_symbol_pos_lands_exactly_on_the_layout_positions_at_both_ends() {
    // The traveling symbol: the compact trailing chain at shape 0, the
    // expanded title row's right slot at shape 1, same size throughout.
    let config = Config::default();
    let inset = 0;
    let width = px(content_size(&config).w);
    let appearance = &config.appearance;
    let padding = px(appearance.padding as u64);
    let symbol = px(compact_metrics(&config).symbol);
    let compact_h = px(compact_size(&config).h);
    let (_, vp_right) = compact_title_viewport(&config);
    let viewport_right = px(vp_right as u64);
    let gap = 6;
    let icon = 16;
    let symbol_gap = 16;
    let at0 = morph_symbol_pos(&config, inset, width as i32, 96, MorphProgress { width: 0, height: 0 });
    assert_eq!(
        at0.0,
        viewport_right + gap + icon + symbol_gap + symbol,
        "shape-0 right"
    );
    assert_eq!(at0.1, (compact_h - symbol) / 2, "shape-0 y");
    assert_eq!(at0.2, symbol, "shape-0 size");
    let at1 = morph_symbol_pos(&config, inset, width as i32, 96, MorphProgress { width: ONE, height: ONE });
    assert_eq!(at1.0, width - padding, "shape-1 right");
    assert_eq!(at1.1, padding, "shape-1 y");
    assert_eq!(at1.2, symbol, "shape-1 size");
}

#[test]
fn art_edge_gate_stays_full_while_the_tile_fits_and_fades_with_the_cut() {
    // The morph art must render at full opacity the moment it fits the
    // current body (no fade while the body finishes growing), and fade
    // only proportionally to the edge cutting through it.
    let art_y = 20;
    let art_size = 40;
    assert_eq!(art_edge_gate(art_y + art_size, art_y, art_size), ONE, "fits exactly");
    assert_eq!(
        art_edge_gate(art_y + art_size + 50, art_y, art_size),
        ONE,
        "fits with room"
    );
    assert_eq!(art_edge_gate(art_y + art_size / 2, art_y, art_size), ONE / 2, "half cut");
    assert_eq!(art_edge_gate(art_y, art_y, art_size), 0, "edge at the tile top");
    assert_eq!(
        art_edge_gate(art_y - 10, art_y, art_size),
        0,
        "tile fully below the edge"
    );
}

#[test]
fn morph_icon_pos_matches_the_compact_trailing_chain() {
    // The app icon stays at its compact position while it dissolves out.
    let config = Config::default();
    let inset = 0;
    let (_, vp_right) = compact_title_viewport(&config);
    let viewport_right = px(vp_right as u64);
    let gap = 6;
    let icon = 16;
    let compact_h = px(compact_size(&config).h);
    let (x, y, size) = morph_icon_pos(&config, inset, 96);
    assert_eq!(x, viewport_right + gap);
    assert_eq!(y, (compact_h - icon) / 2);
    assert_eq!(size, icon);
}

#[test]
fn morph_title_band_travels_monotonically_between_the_layouts() {
    // As the progress advances the title's edges move from the compact
    // band to the expanded band without reversing — the travel must read
    // as one continuous move, never a back-and-forth.
    let config = Config::default();
    let inset = 0;
    let width = px(content_size(&config).w);
    let mut last: Option<(i64, i64, i64, i64)> = None;
    for i in 0..=100 {
        let t = i * ONE / 100;
        let band = morph_title_band(&config, inset, width as i32, 96, MorphProgress { width: t, height: t });
        if let Some(prev) = last {
            assert!(band.0 >= prev.0, "left must not move left at t={t}");
            assert!(band.2 >= prev.2, "right must not move left at t={t}");
            assert!(band.1 <= prev.1, "top must not move down at t={t}");
            assert!(band.3 <= prev.3, "bottom must not move down at t={t}");
        }
        last = Some(band);
    }
}

#[test]
fn morph_art_stays_inside_the_body_across_the_leg() {
    // Sampled over the expand leg, the interpolated tile must fit
    // inside the growing body, so the edge gate never clips it mid-morph
    // — the artwork renders at full opacity for the whole leg, with no
    // fade while the body finishes growing.
    let config = Config::default();
    let content = pill_content("");
    for i in 0..=200 {
        let t = i as f64 / 200.0;
        let progress = expand_at(t);
        let shape = progress.width.min(progress.height);
        let compact_h = content_size_of(&config, &content, true).h as f64 / 1000.0;
        let expanded_h = content_size_of(&config, &content, false).h as f64 / 1000.0;
        let pill_h = (compact_h + (expanded_h - compact_h) * progress.height as f64 / 1_000_000.0).round() as i32;
        let (_, y, size) = morph_art_tile(&config, 0, pill_h, 96, shape);
        assert!(size <= pill_h as i64, "art must fit the body at t={t}: {size} > {pill_h}");
        assert!(y + size <= pill_h as i64, "art must stay inside the body at t={t}");
        assert_eq!(
            art_edge_gate(pill_h, y as i32, size as i32),
            ONE,
            "the edge gate must not fade the art at t={t}"
        );
    }
}

#[test]
fn bounce_scale_pins_at_one_and_hits_the_configured_amplitudes() {
    // The whole-pill settle-bounce, driven by the spring progress
    // itself: exactly 1.0 whenever the spring is inside its endpoints
    // (and at the pinned end), an expand that overshoots once to
    // 1 + BOUNCE_OVER at the spring's peak, and a compaction that dips
    // to 1 - BOUNCE_UNDER at the undershoot trough and recovers
    // straight to 1.0 at the pin — the shrink-below-minimum return.
    let at = |width: i64| MorphProgress { width, height: 0 };
    let peak = ONE + EXPAND_EXCESS;
    let trough = -COLLAPSE_DIP;
    assert_eq!(peak, 1_045_988);
    assert_eq!(trough, -94_780);
    // Expand: no scale inside the endpoints, exactly 1 + OVER at the
    // spring's peak, clamped beyond it.
    assert_eq!(bounce_scale(at(0), MorphDirection::Expand), ONE);
    assert_eq!(bounce_scale(at(500_000), MorphDirection::Expand), ONE);
    assert_eq!(bounce_scale(at(ONE), MorphDirection::Expand), ONE);
    assert_eq!(
        bounce_scale(at(peak), MorphDirection::Expand),
        ONE + BOUNCE_OVER,
        "the expand must peak at 1 + BOUNCE_OVER"
    );
    assert_eq!(bounce_scale(at(1_300_000), MorphDirection::Expand), ONE + BOUNCE_OVER);
    // Compaction: exactly 1.0 at the zero crossings (the pill reaches
    // compact and the pin lands at compact), 1 - UNDER at the trough,
    // and a straight recovery (1 - UNDER/2) mid-way back — no over-bounce.
    assert_eq!(bounce_scale(at(600_000), MorphDirection::Collapse), ONE);
    assert_eq!(bounce_scale(at(0), MorphDirection::Collapse), ONE);
    assert_eq!(
        bounce_scale(at(trough), MorphDirection::Collapse),
        ONE - BOUNCE_UNDER,
        "the compaction must dip to 1 - BOUNCE_UNDER"
    );
    assert_eq!(
        bounce_scale(at(trough / 2), MorphDirection::Collapse),
        ONE - BOUNCE_UNDER / 2,
        "the compaction must recover to 1 - BOUNCE_UNDER/2 mid-recovery"
    );
    // The scale is a pure function of the progress: a below-trough dip
    // clamps at the configured minimum rather than overshooting it.
    assert_eq!(
        bounce_scale(at(trough * 2), MorphDirection::Collapse),
        ONE - BOUNCE_UNDER
    );
}

#[test]
fn row_unveil_is_full_at_rest_and_invisible_below_the_edge() {
    // Rest body bottom 200, band bottom 160 (the row's final position
    // inside the pill): at rest every row draws at full opacity.
    assert_eq!(row_unveil_alpha(200, 200, 160), ONE);
    // While the edge is still above (or at) the band bottom the row must
    // not draw at all: its band is not yet covered by the pill body.
    assert_eq!(row_unveil_alpha(160, 200, 160), 0);
    assert_eq!(row_unveil_alpha(120, 200, 160), 0);
}

#[test]
fn row_unveil_fades_with_the_sweep_of_the_edge() {
    // The row fades in over the edge's travel from band bottom to rest
    // bottom — halfway through that travel it is at half opacity — and
    // the same window fades it back out on the way down (collapse).
    let rest = 200;
    let band = 160;
    assert_eq!(row_unveil_alpha(180, rest, band), ONE / 2);
    assert_eq!(row_unveil_alpha(170, rest, band), ONE / 4);
    // Spring overshoot pushes the edge past the rest bottom: clamped.
    assert_eq!(row_unveil_alpha(210, rest, band), ONE);
}

#[test]
fn row_unveil_never_dims_a_band_at_the_rest_edge() {
    // A band whose bottom reaches the rest edge is impossible with the
    // constant-height pill layout (its `+ 8` slack), but must read as
    // fully revealed rather than invisible if it ever occurs.
    assert_eq!(row_unveil_alpha(200, 200, 200), ONE);
    // Any band bottom at or below the rest edge is drawable at rest.
    assert_eq!(row_unveil_alpha(200, 200, 205), ONE);
}

#[test]
fn hover_engaged_holds_a_leave_through_the_debounce_window() {
    // A leave counts as engaged during the debounce window, so boundary
    // jitter cannot cancel a morph; it stops counting once the window
    // expires — and a leave with the cursor back over never counts.
    let now = 1_000_000;
    assert!(hover_engaged(true, None, now), "over is always engaged");
    assert!(
        hover_engaged(false, Some(now - 30), now),
        "a fresh leave stays engaged through the debounce"
    );
    assert!(
        !hover_engaged(false, Some(now - 61), now),
        "an expired leave is not engaged"
    );
    assert!(
        hover_engaged(true, Some(now - 61), now),
        "the cursor over wins over a stale leave"
    );
}

#[test]
fn hover_step_arms_dismiss_only_with_dismiss_on_hover() {
    let idle = HoverTick {
        cursor_over: false,
        morphing: false,
        morph_expanding: false,
        dismiss_armed: false,
    };
    // No hover, no morph: nothing to do.
    assert_eq!(hover_step(idle, true, true, false, false), HoverStep::Nothing);
    // First hover over a laid-out expanded pill arms the dismiss.
    let over = HoverTick {
        cursor_over: true,
        ..idle
    };
    assert_eq!(hover_step(over, true, true, false, true), HoverStep::ArmDismiss);
    // The arm is one-way: an already-armed tick does nothing, so the
    // 500ms deadline keeps counting down while the cursor stays put.
    assert_eq!(
        hover_step(
            HoverTick {
                cursor_over: true,
                dismiss_armed: true,
                ..idle
            },
            true,
            true,
            false,
            true
        ),
        HoverStep::Nothing
    );
    // Without dismiss-on-hover the laid-out expanded pill is untouched.
    assert_eq!(hover_step(over, false, true, false, true), HoverStep::Nothing);
    // A Compact pill with expand-off behaves exactly like an Expanded
    // one: the dismiss arms only while dismiss-on-hover is enabled.
    assert_eq!(hover_step(over, true, false, false, false), HoverStep::ArmDismiss);
    assert_eq!(hover_step(over, false, false, false, false), HoverStep::Nothing);
}

#[test]
fn hover_step_first_hover_expands_then_dismisses_with_dismiss_on_hover() {
    let idle = HoverTick {
        cursor_over: true,
        morphing: false,
        morph_expanding: false,
        dismiss_armed: false,
    };
    // First hover over a Compact pill starts the morph — regardless of
    // the dismiss toggle.
    assert_eq!(hover_step(idle, true, true, false, false), HoverStep::StartExpand);
    assert_eq!(hover_step(idle, false, true, false, false), HoverStep::StartExpand);
    // With dismiss-on-hover the expansion has been used: the next hover
    // over the compact pill dismisses (the second hover dismisses).
    assert_eq!(hover_step(idle, true, true, true, false), HoverStep::ArmDismiss);
    // Without dismiss-on-hover every hover re-expands instead.
    assert_eq!(hover_step(idle, false, true, true, false), HoverStep::StartExpand);
    // No cursor, no morph: nothing to do.
    assert_eq!(
        hover_step(
            HoverTick {
                cursor_over: false,
                ..idle
            },
            true,
            true,
            false,
            false
        ),
        HoverStep::Nothing
    );
}

#[test]
fn hover_step_morph_legs_reverse_on_leave() {
    let base = HoverTick {
        cursor_over: false,
        morphing: true,
        morph_expanding: true,
        dismiss_armed: false,
    };
    // Leaving mid-expand reverses the morph; leaving after the expansion
    // finished behaves identically — the release from the pinned state
    // (from = 1.0, velocity ≈ 0) runs the same collapse leg back to
    // compact instead of snapping.
    assert_eq!(hover_step(base, true, true, false, false), HoverStep::ReverseMorph);
    // Staying over the pill mid-expand keeps the morph running — the
    // morph-origin expanded state is an interaction, never armed.
    assert_eq!(
        hover_step(
            HoverTick {
                cursor_over: true,
                ..base
            },
            true,
            true,
            false,
            false
        ),
        HoverStep::Nothing
    );
    // A collapse leg always runs to completion, cursor or not.
    let collapsing = HoverTick {
        morph_expanding: false,
        ..base
    };
    assert_eq!(hover_step(collapsing, true, true, false, false), HoverStep::Nothing);
    assert_eq!(
        hover_step(
            HoverTick {
                cursor_over: true,
                ..collapsing
            },
            true,
            true,
            false,
            false
        ),
        HoverStep::Nothing
    );
}

#[test]
fn hover_step_never_arms_the_morph_expanded_state() {
    // The compact→expanded morph is an interaction: while it is in
    // flight or pinned, hovering never arms anything — only the laid-out
    // expanded pill arms (and only with dismiss-on-hover).
    let over = HoverTick {
        cursor_over: true,
        morphing: true,
        morph_expanding: true,
        dismiss_armed: false,
    };
    // Pinned/in-flight morph under the cursor: nothing, regardless of
    // the toggles.
    assert_eq!(hover_step(over, true, true, false, false), HoverStep::Nothing);
    assert_eq!(hover_step(over, true, false, false, false), HoverStep::Nothing);
    assert_eq!(hover_step(over, false, true, false, false), HoverStep::Nothing);
    // A laid-out expanded pill (no morph) arms with dismiss-on-hover...
    let laid_out = HoverTick {
        morphing: false,
        ..over
    };
    assert_eq!(hover_step(laid_out, true, true, false, true), HoverStep::ArmDismiss);
    // ...and is untouched without it.
    assert_eq!(hover_step(laid_out, false, true, false, true), HoverStep::Nothing);
}

#[test]
fn morph_size_lerps_between_endpoints_and_never_overshoots() {
    let config = Config::default();
    let content = pill_content("A reasonably long title");
    let compact = content_size_of(&config, &content, true);
    let expanded = content_size_of(&config, &content, false);
    assert!(
        compact.w < expanded.w || compact.h < expanded.h,
        "the morph needs a real size difference"
    );
    // Endpoints map exactly onto the plain sizes.
    assert_eq!(morph_size(&config, &content, MorphProgress { width: 0, height: 0 }), compact);
    assert_eq!(morph_size(&config, &content, MorphProgress { width: ONE, height: ONE }), expanded);
    // Every progress (including an eased overshoot past 1.0 and negative
    // inputs) stays clamped between the endpoints per dimension.
    for progress in [-500_000, 0, 250_000, 500_000, 750_000, ONE, 1_500_000] {
        let Size { w: width, h: height } =
            morph_size(&config, &content, MorphProgress { width: progress, height: progress });
        assert!(
            width >= compact.w.min(expanded.w) && width <= compact.w.max(expanded.w),
            "width out of range at {progress}: {width}"
        );
        assert!(
            height >= compact.h.min(expanded.h) && height <= compact.h.max(expanded.h),
            "height out of range at {progress}: {height}"
        );
    }
    // Per-axis independence: the height axis trails the width through the
    // morph (the lag), so the geometry reflects each axis's own progress.
    let leading = morph_size(&config, &content, MorphProgress { width: 900_000, height: 300_000 });
    assert!(
        leading.w > leading.h,
        "width must lead the height through the morph, got {leading:?}"
    );
    // The spring's mid-flight overshoot (the easing peaks well past 1.0)
    // must never leak into the geometry: the rendered rectangle, the
    // clipping region, and the hit-testing bounds all stay inside the
    // Compact..Expanded interval at every sampled frame.
    for i in 0..=200 {
        let t = i as f64 / 200.0;
        let Size { w: width, h: height } = morph_size(&config, &content, expand_at(t));
        assert!(
            width >= compact.w.min(expanded.w) && width <= compact.w.max(expanded.w),
            "spring-driven width out of range at frame {i}: {width}"
        );
        assert!(
            height >= compact.h.min(expanded.h) && height <= compact.h.max(expanded.h),
            "spring-driven height out of range at frame {i}: {height}"
        );
    }
}

#[test]
fn morph_anchor_stays_fixed_while_the_pill_grows() {
    // The morph must feel like the card is unfolding in place: the
    // anchored edge(s) of the Compact pill do not move as the size
    // lerps to the expanded geometry (placement re-anchors every frame
    // from the current size).
    let config = Config::default();
    let content = pill_content("A reasonably long title");
    let work = Rect {
        left: 0,
        top: 0,
        right: 1920,
        bottom: 1040,
    };
    let compact = morph_size(&config, &content, MorphProgress { width: 0, height: 0 });
    let expanded = morph_size(&config, &content, MorphProgress { width: ONE, height: ONE });
    let (compact_w, compact_h) = ((compact.w / 1000) as i32, (compact.h / 1000) as i32);
    let (expanded_w, expanded_h) = ((expanded.w / 1000) as i32, (expanded.h / 1000) as i32);
    assert!(
        compact_w < expanded_w && compact_h < expanded_h,
        "the morph needs a real size difference"
    );
    // Bottom-right anchor: the right and bottom edges of the pill body
    // stay pinned while it grows left/up.
    let bottom_right = OverlayPos {
        vertical: VerticalPosition::Bottom,
        horizontal: HorizontalPosition::Right,
        ..anchor_pos(None, None)
    };
    let compact_pt = placement(work, compact_w, compact_h, &bottom_right, 0, 96);
    let expanded_pt = placement(work, expanded_w, expanded_h, &bottom_right, 0, 96);
    assert_eq!(
        compact_pt.x + compact_w,
        expanded_pt.x + expanded_w,
        "the right edge must stay anchored while the pill grows"
    );
    assert_eq!(
        compact_pt.y + compact_h,
        expanded_pt.y + expanded_h,
        "the bottom edge must stay anchored while the pill grows"
    );
    // Top-center anchor: the horizontal center of the pill body stays
    // pinned while it grows outward to both sides. (Center placement
    // halves the span with integer division, so the pixel center may
    // jitter by 1 px between sizes of different parity.)
    let top_center = OverlayPos {
        vertical: VerticalPosition::Top,
        horizontal: HorizontalPosition::Center,
        ..anchor_pos(None, None)
    };
    let compact_pt = placement(work, compact_w, compact_h, &top_center, 0, 96);
    let expanded_pt = placement(work, expanded_w, expanded_h, &top_center, 0, 96);
    let center_drift = (compact_pt.x + compact_w / 2 - (expanded_pt.x + expanded_w / 2)).abs();
    assert!(
        center_drift <= 1,
        "the horizontal center must stay anchored, drifted {center_drift}px"
    );
    assert_eq!(compact_pt.y, expanded_pt.y, "the top edge must stay anchored");
}

#[test]
fn a_morphing_radius_and_the_hitbox_use_every_edge() {
    // Pill body from (106, 206) to (306, 256) inclusive.
    assert!(cursor_over_pill(106, 206, 100, 200, 200, 50, 6));
    assert!(cursor_over_pill(306, 256, 100, 200, 200, 50, 6));
    assert!(!cursor_over_pill(105, 206, 100, 200, 200, 50, 6));
    assert!(!cursor_over_pill(307, 256, 100, 200, 200, 50, 6));
    assert!(!cursor_over_pill(200, 257, 100, 200, 200, 50, 6));
}

#[test]
fn lengths_round_to_whole_pixels() {
    assert_eq!(whole_pixels(16_000, 96), 16);
    assert_eq!(whole_pixels(18_900, 96), 19);
    assert_eq!(whole_pixels(18_900, 144), 28);
    assert_eq!(whole_pixels(-18_900, 96), -19);
    assert_eq!(to_pixels(340_000, ONE, 144), 510);
    assert_eq!(to_pixels(0, ONE, 96), 1);
    assert_eq!(lerp(10, 20, 250_000), 12);
}

#[test]
fn settling_pins_an_expansion_and_drops_a_collapse() {
    let config = Config::default();
    let leg = HoverExpand { start: 1_000, direction: MorphDirection::Expand, from: 0, velocity: 0, done: false };
    let mut running = Some(leg);
    assert!(!settle_morph(&mut running, &config, true, 1_399));
    assert_eq!(running, Some(leg));
    assert!(settle_morph(&mut running, &config, true, 1_400));
    assert_eq!(running, Some(HoverExpand { done: true, ..leg }));
    assert!(!settle_morph(&mut running, &config, true, 1_500), "an expansion finishes once");
    let mut falling = Some(HoverExpand { direction: MorphDirection::Collapse, ..leg });
    assert!(!settle_morph(&mut falling, &config, true, 1_320));
    assert_eq!(falling, None);
}
