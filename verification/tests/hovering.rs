//! The cursor on the pill, samples and the early exit.
use winglance_overlay::config::{Config, LayoutMode};
use winglance_overlay::events::{MediaEvent, TrackInfo};
use winglance_overlay::geometry::MorphProgress;
use winglance_overlay::hover::{HoverExpand, MorphDirection, morph_duration};
use winglance_overlay::overlay::OverlayState;
use winglance_overlay::pill::{EARLY_EXIT_MS, Effect, Env, Phase, Reversal};

/// The moment at which every bench starts, in ms.
const START: u64 = 1_000_000;

/// An overlay with the system around it: a clock, a foreground, a cursor and
/// a queue of media events.
struct Bench {
    pill: OverlayState,
    env: Env,
    over: bool,
    queue: Vec<MediaEvent>,
}

impl std::ops::Deref for Bench {
    type Target = OverlayState;

    fn deref(&self) -> &OverlayState {
        &self.pill
    }
}

impl std::ops::DerefMut for Bench {
    fn deref_mut(&mut self) -> &mut OverlayState {
        &mut self.pill
    }
}

fn bench(config: Config) -> Bench {
    Bench {
        pill: OverlayState::new(config, START),
        env: Env {
            now: START,
            foreground: 1,
            exe: None,
            fullscreen: false,
            animations: true,
            refresh_period: 16,
            target: None,
            target_dpi: 96,
            target_covered: false,
        },
        over: false,
        queue: Vec::new(),
    }
}

impl Bench {
    fn now(&self) -> u64 {
        self.env.now
    }

    fn receive_events(&mut self) {
        let batch = std::mem::take(&mut self.queue);
        self.pill.receive_events(&batch, &self.env);
    }

    fn tick(&mut self) {
        self.pill.tick(self.over, Reversal { from: 1_000_000, velocity: 0 }, &self.env);
    }

    fn renders(&self) -> usize {
        self.pill.effects.iter().filter(|e| **e == Effect::Render).count()
    }

    fn hide_pill(&mut self) {
        self.pill.hide_pill(&self.env);
    }

    fn preview_if_hidden(&mut self) -> bool {
        self.pill.preview_if_hidden(&self.env)
    }

    fn show_sample(&mut self) {
        self.pill.show_sample(&self.env);
    }
}

#[test]
fn current_source_is_cleared_when_the_pill_hides() {
    // Regression: current_source was set by show_next() when a TrackChanged
    // pill was shown and never cleared, so ALL subsequent PlaybackStateChanged
    // pills from the same source were permanently suppressed — the user saw
    // Paused pills but no Playing pills after the first track notification.
    let config = Config::default();
    let mut state = bench(config);

    // Simulate the state show_next() leaves behind after a TrackChanged.
    state.current_source = Some("youtube-music".to_string());
    state.content = Some(MediaEvent::TrackChanged(TrackInfo {
        source_app: "youtube-music".to_string(),
        ..TrackInfo::default()
    }));
    state.phase = Phase::Shown;
    state.dismiss_at = Some(state.now() + 1_000);

    state.hide_pill();

    assert!(
        state.current_source.is_none(),
        "current_source must clear when the pill collapses"
    );
    assert!(matches!(state.phase, Phase::Hidden));
}

#[test]
fn preview_if_hidden_shows_a_sample_only_while_hidden() {
    // Settings pushes (position/layout/separation) preview a hidden pill
    // instead of silently deferring to the next show; a visible pill must
    // be left alone so the caller repaints it in place.
    let mut state = bench(Config::default());
    assert!(matches!(state.phase, Phase::Hidden));
    assert!(state.preview_if_hidden(), "a hidden pill must show a sample");
    assert!(
        matches!(state.phase, Phase::Light(_)),
        "the sample must take the light-up phase"
    );

    state.phase = Phase::Shown;
    assert!(
        !state.preview_if_hidden(),
        "a visible pill must not be replaced by a sample"
    );
    assert!(matches!(state.phase, Phase::Shown));
}

#[test]
fn show_sample_clears_stale_hover_state() {
    // Regression: show_sample reset hover_dismiss_at/hover_leave_at but
    // not hover_expand — the one "new pill" entry point that didn't. A
    // sample shown right after a hover morph (the collapse leg can still
    // be in flight when the user opens Settings and hits "Show sample")
    // would inherit the real pill's expansion: mid-morph or fully
    // expanded with the cursor nowhere near it, and a bogus collapse
    // seeded from another hover's velocity.
    let mut config = Config::default();
    config.overlay.layout = LayoutMode::Compact;
    let mut state = bench(config);
    state.hover.expand = Some(HoverExpand {
        start: state.now() - 50,
        direction: MorphDirection::Expand,
        from: 500_000,
        velocity: 2_000_000,
        done: false,
    });

    state.show_sample();

    assert!(
        state.hover.expand.is_none(),
        "the sample must not inherit an in-flight hover morph"
    );
    assert!(
        matches!(state.phase, Phase::Light(_)),
        "the sample must take the light-up phase"
    );
}

#[test]
fn queued_update_caps_the_current_pill_remaining_time() {
    let mut state = bench(Config::default());
    // A pill is fully shown with a long remaining duration.
    state.content = Some(MediaEvent::TrackChanged(TrackInfo {
        source_app: "youtube-music".into(),
        ..TrackInfo::default()
    }));
    state.phase = Phase::Shown;
    state.dismiss_at = Some(state.now() + 5_000);
    // The pill is not held (no morph-origin expansion), so the tick
    // applies the cap — the cursor is irrelevant for a laid-out pill.
    state.over = false;

    // A newer event arrives from another source (not an in-place update).
    state.queue.push(MediaEvent::TrackChanged(TrackInfo {
            source_app: "spotify".into(),
            title: "Next Song".into(),
            ..TrackInfo::default()
        }));
    state.receive_events();
    // The cap lives in `tick` (so a morph-origin hold can suppress it);
    // a laid-out pill is never held, so the very next tick caps it.
    state.tick();

    assert!(!state.pending.is_empty(), "the update must be queued for the next pill");
    let remaining = state.dismiss_at.unwrap().saturating_sub(state.now());
    assert!(
        remaining <= EARLY_EXIT_MS + 50,
        "remaining time must be capped near EARLY_EXIT_MS, got {remaining:?}"
    );
}

#[test]
fn queued_update_never_extends_an_earlier_deadline() {
    let mut state = bench(Config::default());
    state.content = Some(MediaEvent::TrackChanged(TrackInfo {
        source_app: "youtube-music".into(),
        ..TrackInfo::default()
    }));
    state.phase = Phase::Shown;
    // Already sooner than EARLY_EXIT_MS (e.g. hover-dismiss armed).
    let earlier = state.now() + 200;
    state.dismiss_at = Some(earlier);
    state.over = false;

    state.queue.push(MediaEvent::TrackChanged(TrackInfo {
            source_app: "spotify".into(),
            title: "Next Song".into(),
            ..TrackInfo::default()
        }));
    state.receive_events();
    // Same as the sibling test: the cap applies on the first tick and
    // must not extend the earlier deadline.
    state.tick();

    let remaining = state.dismiss_at.unwrap().saturating_sub(state.now());
    assert!(
        remaining <= 250,
        "an earlier deadline must not be extended, got {remaining:?}"
    );
}

#[test]
fn laid_out_expanded_pill_is_never_held_or_deferred() {
    // An expanded pill has no hover interaction: the countdown is never
    // deferred for the cursor. With dismiss-on-hover (the default) the
    // first hover tick arms the one-way 500ms dismiss — even under the
    // cursor; without it, hovering changes nothing and an expired
    // deadline dismisses under the cursor either way.
    let mut config = Config::default();
    config.overlay.layout = LayoutMode::Expanded;
    let mut state = bench(config);
    state.place.layout = LayoutMode::Expanded;
    state.phase = Phase::Shown;
    state.content = Some(MediaEvent::TrackChanged(TrackInfo {
        source_app: "youtube-music".into(),
        ..TrackInfo::default()
    }));
    state.dismiss_at = Some(state.now() + 10_000);
    state.over = true;
    state.tick();
    let remaining = state.dismiss_at.unwrap().saturating_sub(state.now());
    assert!(
        remaining <= EARLY_EXIT_MS + 50,
        "dismiss-on-hover must cap the laid-out expanded pill near EARLY_EXIT_MS, got {remaining:?}"
    );
    assert!(matches!(state.phase, Phase::Shown));
    // The arm is one-way: staying over the pill does not re-arm.
    state.tick();
    let remaining = state.dismiss_at.unwrap().saturating_sub(state.now());
    assert!(
        remaining <= EARLY_EXIT_MS + 50,
        "the one-way arm must not push the deadline while the cursor stays, got {remaining:?}"
    );
    // A deadline that expires under the cursor dismisses the laid-out
    // expanded pill: no hold defers it.
    state.dismiss_at = Some(state.now() - 50);
    state.tick();
    assert!(
        matches!(state.phase, Phase::Collapsing(_)),
        "an expanded pill must dismiss under the cursor, no hold"
    );
}

#[test]
fn laid_out_expanded_pill_ignores_hover_without_dismiss_on_hover() {
    // dismiss_on_hover off: hovering an expanded pill changes nothing —
    // no arm, no reset, no deferral; the countdown runs and dismisses.
    let mut config = Config::default();
    config.overlay.dismiss_on_hover = false;
    config.overlay.layout = LayoutMode::Expanded;
    let mut state = bench(config);
    state.place.layout = LayoutMode::Expanded;
    state.phase = Phase::Shown;
    state.content = Some(MediaEvent::TrackChanged(TrackInfo {
        source_app: "youtube-music".into(),
        ..TrackInfo::default()
    }));
    state.dismiss_at = Some(state.now() + 10_000);
    state.over = true;
    state.tick();
    let remaining = state.dismiss_at.unwrap().saturating_sub(state.now());
    assert!(
        remaining > 9_000,
        "without dismiss-on-hover the hover must leave the deadline alone, got {remaining:?}"
    );
    // The expired deadline dismisses even under the cursor.
    state.dismiss_at = Some(state.now() - 50);
    state.tick();
    assert!(
        matches!(state.phase, Phase::Collapsing(_)),
        "the countdown must dismiss under the cursor, no deferral"
    );
}

#[test]
fn held_hover_pinned_pill_collapses_on_leave_and_resets() {
    // A hover-pinned expanded pill is an interaction: held past its
    // deadline it survives the tick, and on leave it runs its collapse
    // leg back to compact while the countdown resets to the full
    // duration — the collapsed pill keeps its normal time instead of
    // dismissing on the expired deadline.
    let mut config = Config::default();
    config.overlay.layout = LayoutMode::Compact;
    let mut state = bench(config);
    state.phase = Phase::Shown;
    state.place.layout = LayoutMode::Compact;
    state.content = Some(MediaEvent::TrackChanged(TrackInfo {
        source_app: "Spotify".into(),
        ..TrackInfo::default()
    }));
    // The hover already pinned the pill; the countdown ran out long ago
    // while the cursor stayed.
    let expand_leg = morph_duration(&state.config, MorphDirection::Expand, true);
    state.hover.expand = Some(HoverExpand {
        start: state.now() - expand_leg,
        direction: MorphDirection::Expand,
        from: 1_000_000,
        velocity: 0,
        done: true,
    });
    state.dismiss_at = Some(state.now() - 100);
    state.over = true;
    state.tick();
    assert!(
        matches!(state.phase, Phase::Shown) && state.hover.expand.is_some(),
        "a pinned pill must survive its deadline while the cursor stays"
    );
    // Leave: the debounce window keeps the hold for one tick...
    state.over = false;
    state.tick();
    assert!(matches!(state.phase, Phase::Shown));
    // ...then the hold drops and leaving runs the collapse leg while the
    // countdown resets to the full duration.
    state.hover.leave_at = Some(state.now() - 100);
    state.tick();
    assert!(
        matches!(&state.hover.expand, Some(m) if m.direction == MorphDirection::Collapse),
        "leaving a pinned pill must run the collapse leg"
    );
    assert!(
        matches!(state.phase, Phase::Shown),
        "the dismissal must wait for the in-flight collapse leg"
    );
    let full = state.config.overlay.duration_ms.max(500);
    let remaining = state.dismiss_at.unwrap().saturating_sub(state.now());
    assert!(
        remaining >= full - 100 && remaining <= full + 100,
        "leaving the interaction must reset the countdown to the full duration, got {remaining:?} (full {full:?})"
    );
    // Fast-forward the collapse leg: the fresh deadline means the pill
    // stays shown as compact instead of dismissing on the old deadline.
    state.hover.expand = Some(HoverExpand {
        start: state.now() - 2000,
        direction: MorphDirection::Collapse,
        from: 1_000_000,
        velocity: 0,
        done: false,
    });
    state.tick();
    assert!(state.hover.expand.is_none(), "the collapse leg must complete");
    assert!(
        matches!(state.phase, Phase::Shown),
        "the reset deadline must keep the collapsed pill shown"
    );
}

#[test]
fn compact_second_hover_dismisses_with_dismiss_on_hover() {
    // The end-to-end compact flow with dismiss-on-hover (the default):
    // hover 1 expands (+ reset), leaving collapses (+ reset), and hover
    // 2 over the compact pill again dismisses instead of re-expanding.
    let mut config = Config::default();
    config.overlay.layout = LayoutMode::Compact;
    let mut state = bench(config);
    state.phase = Phase::Shown;
    state.place.layout = LayoutMode::Compact;
    state.content = Some(MediaEvent::TrackChanged(TrackInfo {
        source_app: "Spotify".into(),
        ..TrackInfo::default()
    }));
    // Hover 1: the expand starts.
    state.over = true;
    state.tick();
    assert!(
        matches!(&state.hover.expand, Some(m) if m.direction == MorphDirection::Expand),
        "hover 1 must start the expand"
    );
    // Complete the expand leg: the expansion is now "used" for this
    // showing.
    let expand_leg = morph_duration(&state.config, MorphDirection::Expand, true);
    state.hover.expand.as_mut().unwrap().start = state.now() - expand_leg;
    state.tick();
    assert!(state.hover.expanded_once, "the completed expansion must be recorded");
    // Leave: the pill runs the collapse leg back to compact.
    state.over = false;
    state.hover.leave_at = Some(state.now() - 100);
    state.tick();
    assert!(
        matches!(&state.hover.expand, Some(m) if m.direction == MorphDirection::Collapse),
        "leaving must run the collapse leg"
    );
    // Fast-forward the collapse leg so the pill is compact again.
    state.hover.expand = Some(HoverExpand {
        start: state.now() - 2000,
        direction: MorphDirection::Collapse,
        from: 1_000_000,
        velocity: 0,
        done: false,
    });
    state.tick();
    assert!(state.hover.expand.is_none(), "the collapse leg must complete");
    // Hover 2: the second hover dismisses — no new expand, 500ms arm.
    state.over = true;
    state.tick();
    assert!(
        state.hover.expand.is_none(),
        "hover 2 must not re-expand with dismiss-on-hover"
    );
    let remaining = state.dismiss_at.unwrap().saturating_sub(state.now());
    assert!(
        remaining <= EARLY_EXIT_MS + 50,
        "hover 2 must arm the 500ms dismiss, got {remaining:?}"
    );
}

#[test]
fn track_update_while_held_swaps_in_place_and_stays_expanded() {
    // A new track (different media — normally queued for the next pill)
    // that arrives while the cursor holds a hover-expanded pill swaps
    // the content in place instead: queueing would tear the pill out
    // from under the cursor. The full duration is counted from the swap,
    // so leaving later gives the new content its normal time.
    let mut config = Config::default();
    config.overlay.layout = LayoutMode::Compact;
    let mut state = bench(config);
    state.content = Some(MediaEvent::TrackChanged(TrackInfo {
        source_app: "youtube-music".into(),
        title: "First Song".into(),
        ..TrackInfo::default()
    }));
    state.phase = Phase::Shown;
    state.place.layout = LayoutMode::Compact;
    // The cursor holds a hover-pinned expanded pill whose countdown has
    // run out (the typical held state when an update lands).
    let expand_leg = morph_duration(&state.config, MorphDirection::Expand, true);
    state.hover.expand = Some(HoverExpand {
        start: state.now() - expand_leg,
        direction: MorphDirection::Expand,
        from: 1_000_000,
        velocity: 0,
        done: true,
    });
    state.dismiss_at = Some(state.now() - 100);
    state.over = true;
    state.hover.cursor_over = true;

    state.queue.push(MediaEvent::TrackChanged(TrackInfo {
            source_app: "youtube-music".into(),
            title: "Next Song".into(),
            ..TrackInfo::default()
        }));
    state.receive_events();

    assert!(
        state.pending.is_empty(),
        "a held pill must not queue the update behind itself"
    );
    assert!(
        matches!(
            state.content.as_ref(),
            Some(MediaEvent::TrackChanged(t)) if t.title == "Next Song"
        ),
        "the swap must replace the content in place"
    );
    assert!(state.hover.expand.is_some(), "the pill must stay expanded while held");
    let full = state.config.overlay.duration_ms.max(500);
    let remaining = state.dismiss_at.unwrap().saturating_sub(state.now());
    assert!(
        remaining >= full - 100 && remaining <= full + 100,
        "the swap must grant the full duration from the update, got {remaining:?} (full {full:?})"
    );
}

#[test]
fn tick_that_starts_the_hover_morph_renders_on_that_same_tick() {
    // Regression for the tick-cadence gap: `animating` is computed at the
    // top of `tick` before the hover-detection code runs, so the tick
    // that sets `hover_expand` from None to Some must not use the stale
    // value in its render gate — the morph's first frame would be
    // skipped and the first rendered frame would sample the spring
    // already into the leg, reading as a jump from the still-compact
    // pill. Exercises `tick()` itself (with a fixed cursor), since every
    // isolated morph-math test passes regardless of this ordering bug.
    let mut config = Config::default();
    config.overlay.layout = LayoutMode::Compact;
    let mut state = bench(config);
    state.phase = Phase::Shown;
    state.place.layout = LayoutMode::Compact;
    state.content = Some(MediaEvent::TrackChanged(TrackInfo {
        title: "Everything, Everywhere".into(),
        artist: "John Muirhead".into(),
        source_app: "Spotify".into(),
        ..TrackInfo::default()
    }));
    state.over = true;
    let before = state.renders();
    state.tick();
    assert!(
        state
            .hover.expand
            .as_ref()
            .is_some_and(|m| m.direction == MorphDirection::Expand),
        "precondition: this tick must start the hover morph"
    );
    assert_eq!(
        state.renders(),
        before + 1,
        "the tick that starts the morph must render its first frame"
    );
}

#[test]
fn starting_the_morph_keeps_the_layout_compact() {
    // Invariant: the hover morph is render sub-state. Starting it must
    // never touch `layout` (or the effective compact decision), so the
    // pill keeps its compact anchor position while it grows.
    let mut state = bench(Config::default());
    state.place.layout = LayoutMode::Compact;
    state.phase = Phase::Shown;
    state.content = Some(MediaEvent::TrackChanged(TrackInfo {
        source_app: "youtube-music".into(),
        ..TrackInfo::default()
    }));
    state.hover.expand = Some(HoverExpand {
        start: state.now(),
        direction: MorphDirection::Expand,
        from: 0,
        velocity: 0,
        done: false,
    });
    assert_eq!(
        state.place.layout,
        LayoutMode::Compact,
        "the morph must not change the layout"
    );
    assert!(
        state.effective_compact(),
        "the pill must stay effectively compact while morphing"
    );
    // The morph size is available for the hitbox and the render.
    let (width, height) = state.content_size_at(MorphProgress { width: 0, height: 0 }, 96).unwrap();
    assert!(width > 0 && height > 0);
}
