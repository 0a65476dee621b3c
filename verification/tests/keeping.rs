//! What the overlay keeps, whatever happens.
use std::sync::Arc;
use winglance_overlay::config::{Color, Config, LayoutMode, OverlayPos};
use winglance_overlay::events::{MediaEvent, Palette, PlaybackState, TrackInfo};
use winglance_overlay::hover::MorphDirection;
use winglance_overlay::ledger::{LEDGER_STATE_CAP, SourceLedger};
use winglance_overlay::overlay::OverlayState;
use winglance_overlay::pill::{
    Effect, Env, MARQUEE_HOLD_MS, Phase, Reversal, STATIC_TICK_MS, WATCHDOG_TICK_MS,
};
use winglance_overlay::progress::Progress;
use winglance_overlay::queue::PENDING_CAP;
use winglance_overlay::text::{source_matches_pin, strip_suffix, trim};
use winglance_overlay::window::{IDLE_BUFFER_TIMER_ID, Message, TIMER_DEBOUNCE};

/// The moment at which every bench starts, in ms.
const START: u64 = 1_000_000;

/// An overlay with the system around it: a clock, a foreground, a cursor and
/// a queue of media events.
struct Bench {
    pill: OverlayState,
    env: Env,
    over: bool,
    queue: Vec<MediaEvent>,
}

impl std::ops::Deref for Bench {
    type Target = OverlayState;

    fn deref(&self) -> &OverlayState {
        &self.pill
    }
}

impl std::ops::DerefMut for Bench {
    fn deref_mut(&mut self) -> &mut OverlayState {
        &mut self.pill
    }
}

fn bench(config: Config) -> Bench {
    Bench {
        pill: OverlayState::new(config, START),
        env: Env {
            now: START,
            foreground: 1,
            exe: None,
            fullscreen: false,
            animations: true,
            refresh_period: 16,
            target: None,
            target_dpi: 96,
            target_covered: false,
        },
        over: false,
        queue: Vec::new(),
    }
}

impl Bench {
    fn now(&self) -> u64 {
        self.env.now
    }

    fn foreground(&mut self, exe: Option<String>, fullscreen: bool) {
        self.env.exe = exe;
        self.env.fullscreen = fullscreen;
    }

    fn receive_events(&mut self) {
        let batch = std::mem::take(&mut self.queue);
        self.pill.receive_events(&batch, &self.env);
    }

    fn tick(&mut self) {
        self.pill.tick(self.over, Reversal { from: 1_000_000, velocity: 0 }, &self.env);
    }

    fn note(&mut self, source: &str, state: PlaybackState) {
        self.pill.remember_source_state(&source.to_string(), state);
    }

    fn has_track(&self, source: &str) -> bool {
        self.pill.track_cache.get(&source.to_string()).is_some()
    }

    fn track_of(&self, source: &str) -> Option<&TrackInfo> {
        self.pill.track_cache.get(&source.to_string())
    }

    fn state_of(&self, source: &str) -> Option<PlaybackState> {
        self.pill.source_state.get(&source.to_string())
    }

    fn hide_pill(&mut self) {
        self.pill.hide_pill(&self.env);
    }

    fn retire_source(&mut self, source: &str) {
        self.pill.retire_source(&source.to_string(), &self.env);
    }

    fn show(&mut self, event: MediaEvent, full: bool) {
        self.pill.show(event, full, &self.env);
    }

    fn show_with_duration(&mut self, event: MediaEvent, full: bool, duration_ms: u64) {
        self.pill.show_with_duration(event, full, duration_ms, &self.env);
    }

    fn toggle_enabled(&mut self) {
        self.pill.toggle_enabled(&self.env);
    }

    fn on_foreground_change(&mut self) {
        self.pill.on_foreground_change(&self.env);
    }

    fn apply_progress(&mut self, position_us: Option<i64>, duration_secs: Option<u64>, rate_milli: Option<i64>) {
        self.pill.apply_progress(position_us, duration_secs, rate_milli, self.env.now);
    }

    fn post(&mut self, message: Message) {
        let batch = if message == Message::MediaEvents {
            std::mem::take(&mut self.queue)
        } else {
            Vec::new()
        };
        self.pill.handle(message, &batch, self.over, Reversal { from: 0, velocity: 0 }, &self.env);
    }
}

fn track_for(source: &str, title: &str, artist: &str) -> TrackInfo {
    TrackInfo {
        title: title.into(),
        artist: artist.into(),
        source_app: source.into(),
        ..TrackInfo::default()
    }
}

fn shown(source: &str, title: &str) -> Bench {
    let mut state = bench(Config::default());
    state.show(MediaEvent::TrackChanged(track_for(source, title, "Artist")), true);
    state.phase = Phase::Shown;
    state
}

fn persistent() -> Bench {
    let mut config = Config::default();
    config.overlay.layout = LayoutMode::PersistentCompact;
    bench(config)
}

#[test]
fn showing_puts_the_event_on_screen_for_its_time() {
    let mut state = bench(Config::default());
    state.show_with_duration(MediaEvent::TrackChanged(track_for("spotify", "Song", "Artist")), true, 1234);
    assert_eq!(state.phase, Phase::Expanding(state.now()));
    assert_eq!(state.dismiss_at, Some(state.now() + 1234));
    assert_eq!(state.pill_name.as_deref(), Some("Song — Artist (spotify)"));
    assert_eq!(state.now_showing.as_deref(), Some("spotify"));
    let effects = state.take_effects();
    assert!(effects.contains(&Effect::ShowWindow));
    assert!(effects.contains(&Effect::Render));
    assert!(effects.contains(&Effect::AnnounceName));
    assert!(state.effects.is_empty());
}

#[test]
fn nothing_shows_while_notifications_are_off() {
    let mut state = bench(Config::default());
    state.enabled = false;
    state.show(MediaEvent::TrackChanged(track_for("spotify", "Song", "Artist")), true);
    assert_eq!(state.phase, Phase::Hidden);
    state.queue.push(MediaEvent::TrackChanged(track_for("spotify", "Song", "Artist")));
    state.queue.push(MediaEvent::PlaybackStateChanged(PlaybackState::Paused, "spotify".into()));
    state.receive_events();
    state.tick();
    state.on_foreground_change();
    assert_eq!(state.phase, Phase::Hidden);
    assert!(state.pending.is_empty());
    assert!(state.effects.is_empty());
    assert_eq!(state.state_of("spotify"), Some(PlaybackState::Paused));
    assert!(state.has_track("spotify"));
}

#[test]
fn disabled_kinds_of_events_are_ignored() {
    let mut config = Config::default();
    config.behavior.enable_track_change = false;
    config.behavior.enable_playback_state_change = false;
    let mut state = bench(config);
    state.queue.push(MediaEvent::TrackChanged(track_for("spotify", "Song", "Artist")));
    state.queue.push(MediaEvent::PlaybackStateChanged(PlaybackState::Paused, "spotify".into()));
    state.queue.push(MediaEvent::ArtworkBudgetExceeded);
    state.receive_events();
    assert!(state.pending.is_empty());
    assert!(!state.has_track("spotify"));
    assert_eq!(state.state_of("spotify"), Some(PlaybackState::Paused));
}

#[test]
fn turning_notifications_off_hides_and_empties_the_queue() {
    let mut state = shown("spotify", "Song");
    state.enqueue(MediaEvent::TrackChanged(track_for("brave", "Other", "Artist")));
    state.toggle_enabled();
    assert!(!state.enabled);
    assert_eq!(state.phase, Phase::Hidden);
    assert!(state.pending.is_empty());
    assert!(state.content.is_none());
    assert!(state.effects.contains(&Effect::HideWindow));
}

#[test]
fn a_hidden_pill_advances_the_queue() {
    let mut state = shown("spotify", "Song");
    state.enqueue(MediaEvent::TrackChanged(track_for("brave", "First", "Artist")));
    state.enqueue(MediaEvent::PlaybackStateChanged(PlaybackState::Paused, "vlc".into()));
    state.hide_pill();
    assert!(matches!(&state.content, Some(MediaEvent::TrackChanged(t)) if t.title == "First"));
    assert_eq!(state.phase, Phase::Expanding(state.now()));
    assert_eq!(state.pending.len(), 1);
    state.hide_pill();
    assert!(matches!(&state.content, Some(MediaEvent::PlaybackStateChanged(PlaybackState::Paused, s)) if s == "vlc"));
    assert_eq!(state.phase, Phase::Light(state.now()));
    assert!(state.pending.is_empty());
}

#[test]
fn the_debounce_shows_what_waits_but_never_pulls_a_pill() {
    let mut state = shown("spotify", "Song");
    state.queue.push(MediaEvent::TrackChanged(track_for("brave", "Next", "Artist")));
    state.receive_events();
    assert!(state.effects.contains(&Effect::StartDebounce(200)));
    state.post(Message::Timer(TIMER_DEBOUNCE));
    assert!(matches!(&state.content, Some(MediaEvent::TrackChanged(t)) if t.title == "Song"));
    assert_eq!(state.pending.len(), 1);
    let mut state = bench(Config::default());
    state.queue.push(MediaEvent::TrackChanged(track_for("brave", "Next", "Artist")));
    state.post(Message::MediaEvents);
    assert_eq!(state.phase, Phase::Hidden);
    state.post(Message::Timer(TIMER_DEBOUNCE));
    assert!(matches!(&state.content, Some(MediaEvent::TrackChanged(t)) if t.title == "Next"));
    assert!(state.pending.is_empty());
}

#[test]
fn a_full_queue_gives_up_its_oldest_event() {
    let mut state = bench(Config::default());
    for i in 0..=PENDING_CAP {
        state.enqueue(MediaEvent::TrackChanged(track_for(&format!("source-{i}"), "Song", "Artist")));
    }
    assert_eq!(state.pending.len(), PENDING_CAP);
    assert!(matches!(&state.pending[0], MediaEvent::TrackChanged(t) if t.source_app == "source-1"));
    assert!(matches!(state.pending.last(), Some(MediaEvent::TrackChanged(t)) if t.source_app == "source-4"));
}

#[test]
fn media_identity_is_source_title_artist_and_cover() {
    let a = track_for("spotify", "Song", "Artist");
    let mut b = a.clone();
    assert!(a.same_media(&a));
    assert!(a.same_media(&b) && b.same_media(&a));
    b.artwork = Some(Arc::new(vec![1, 2, 3]));
    assert!(a.same_media(&b) && b.same_media(&a), "a missing cover tells nothing");
    let mut c = a.clone();
    c.artwork = Some(Arc::new(vec![1, 2, 4]));
    assert!(!b.same_media(&c) && !c.same_media(&b));
    c.artwork = Some(Arc::new(vec![1, 2, 3]));
    assert!(b.same_media(&c));
    c.album = "Album".into();
    assert!(b.same_media(&c), "the album is no part of the identity");
    c.title = "Other".into();
    assert!(!b.same_media(&c));
}

#[test]
fn merging_twice_is_merging_once() {
    let mut queued = track_for("spotify", "Song", "Artist");
    let mut refresh = track_for("spotify", "Song", "Artist");
    refresh.album = "Album".into();
    refresh.track_number = Some(3);
    queued.merge_late_metadata(&refresh);
    let once = format!("{queued:?}");
    queued.merge_late_metadata(&refresh);
    assert_eq!(format!("{queued:?}"), once);
    assert_eq!((queued.album.as_str(), queued.track_number), ("Album", Some(3)));
    assert_eq!((queued.title.as_str(), queued.source_app.as_str()), ("Song", "spotify"));
}

#[test]
fn a_remembered_track_has_no_raw_cover() {
    let mut state = bench(Config::default());
    let mut track = track_for("spotify", "Song", "Artist");
    track.artwork = Some(Arc::new(vec![1, 2, 3]));
    track.decoded_art = Some(Arc::new(vec![4, 5, 6, 7]));
    state.cache_track(&track);
    let kept = state.track_of("spotify").expect("the track is remembered");
    assert!(kept.artwork.is_none());
    assert!(kept.decoded_art.is_some());
}

#[test]
fn the_ledger_prefers_to_forget_stopped_sources() {
    let mut ledger = SourceLedger::new();
    ledger.remember(&"stopped".to_string(), PlaybackState::Stopped);
    for i in 0..LEDGER_STATE_CAP {
        ledger.remember(&format!("live-{i}"), PlaybackState::Paused);
    }
    assert_eq!(ledger.entries.len(), LEDGER_STATE_CAP);
    assert_eq!(ledger.get(&"stopped".to_string()), None);
    assert_eq!(ledger.get(&"live-0".to_string()), Some(PlaybackState::Paused));
    ledger.remember(&"live-0".to_string(), PlaybackState::Stopped);
    assert_eq!(ledger.get(&"live-0".to_string()), Some(PlaybackState::Stopped));
    assert_eq!(ledger.entries.len(), LEDGER_STATE_CAP);
}

#[test]
fn successors_play_and_are_not_the_excluded_source() {
    let mut state = bench(Config::default());
    state.cache_track(&track_for("yt", "A", "Artist"));
    state.cache_track(&track_for("brave", "B", "Artist"));
    assert!(state.best_successor("spotify").is_none(), "nothing is known to play");
    state.note("yt", PlaybackState::Playing);
    state.note("brave", PlaybackState::Playing);
    assert_eq!(state.best_successor("spotify").map(|t| t.title), Some("B".to_string()));
    assert_eq!(state.best_successor("brave").map(|t| t.title), Some("A".to_string()));
    state.config.behavior.pinned_source = Some("YT".into());
    assert_eq!(state.pinned_track().map(|t| t.title), Some("A".to_string()));
    state.note("yt", PlaybackState::Paused);
    assert!(state.pinned_track().is_none());
}

#[test]
fn a_retired_source_leaves_nothing_behind() {
    let mut state = shown("spotify", "Song");
    state.cache_track(&track_for("spotify", "Song", "Artist"));
    state.note("spotify", PlaybackState::Playing);
    state.held_content = Some(MediaEvent::TrackChanged(track_for("spotify", "Song", "Artist")));
    state.last_track = Some(track_for("spotify", "Song", "Artist"));
    state.enqueue(MediaEvent::PlaybackStateChanged(PlaybackState::Paused, "spotify".into()));
    state.retire_source("spotify");
    assert!(state.content.is_none() && state.held_content.is_none() && state.last_track.is_none());
    assert!(state.pending.is_empty());
    assert!(!state.has_track("spotify"));
    assert_eq!(state.state_of("spotify"), Some(PlaybackState::Stopped));
    assert_eq!(state.phase, Phase::Hidden);
}

#[test]
fn a_progress_report_moves_only_the_bar() {
    let mut state = shown("spotify", "Song");
    let (phase, dismiss_at) = (state.phase, state.dismiss_at);
    state.queue.push(MediaEvent::ProgressChanged {
        source_app: "spotify".into(),
        position_us: Some(30_000_000),
        duration_secs: Some(120),
        playback_rate_milli: Some(1000),
    });
    state.receive_events();
    assert_eq!(state.progress.estimated_us, Some(30_000_000));
    assert_eq!((state.phase, state.dismiss_at), (phase, dismiss_at));
    assert!(state.pending.is_empty());
}

#[test]
fn a_paused_bar_is_frozen_and_resumes_where_it_was() {
    let mut bar = Progress::new();
    bar.apply_progress(Some(10_000_000), Some(100), Some(1000), 1_000);
    assert!(bar.tick(true, 1_000, 300));
    assert!(!bar.tick(true, 1_000, 300), "nothing moved");
    bar.tick(true, 3_000, 300);
    assert_eq!(bar.estimated_us, Some(12_000_000));
    bar.tick(false, 9_000, 300);
    assert_eq!(bar.estimated_us, Some(12_000_000));
    bar.tick(true, 20_000, 300);
    assert_eq!(bar.estimated_us, Some(12_000_000));
    bar.tick(true, 21_500, 300);
    assert_eq!(bar.estimated_us, Some(13_500_000));
}

#[test]
fn a_finished_exit_hides_the_pill() {
    let mut state = shown("spotify", "Song");
    state.dismiss_at = Some(state.now() - 1);
    state.hover.leave_at = Some(state.now() - 100);
    state.tick();
    assert_eq!(state.phase, Phase::Collapsing(state.now()));
    state.env.now += 319;
    state.tick();
    assert!(matches!(state.phase, Phase::Collapsing(_)));
    state.env.now += 1;
    state.tick();
    assert_eq!(state.phase, Phase::Hidden);
    assert!(state.content.is_none());
}

#[test]
fn an_entrance_ends_shown_and_the_timer_slows_down() {
    let mut state = bench(Config::default());
    state.env.refresh_period = 16;
    state.show(MediaEvent::TrackChanged(track_for("spotify", "Song", "Artist")), true);
    assert!(state.timer.armed);
    assert_eq!(state.timer.period, 16);
    state.env.now += 400;
    state.tick();
    assert_eq!(state.phase, Phase::Shown);
    assert_eq!(state.timer.period, STATIC_TICK_MS);
}

#[test]
fn the_repaint_rate_is_capped() {
    let mut config = Config::default();
    config.overlay.max_tick_hz = Some(120);
    let mut state = bench(config);
    state.env.refresh_period = 4;
    state.show(MediaEvent::TrackChanged(track_for("spotify", "Song", "Artist")), true);
    assert_eq!(state.timer.period, 8);
    let mut state = bench(Config::default());
    state.env.refresh_period = 4;
    state.show(MediaEvent::TrackChanged(track_for("spotify", "Song", "Artist")), true);
    assert_eq!(state.timer.period, 16);
}

#[test]
fn a_line_holds_before_it_scrolls_and_never_scrolls_without_motion() {
    let mut state = shown("spotify", "Song");
    state.dismiss_at = Some(state.now() + 60_000);
    state.reset_scroll(START);
    state.look.scroll.title.scrolling = true;
    state.timer.last_tick = START;
    state.env.now = START + 10;
    state.tick();
    assert_eq!(state.look.scroll.title.offset, 0, "the line still holds");
    state.env.now = START + MARQUEE_HOLD_MS;
    state.timer.last_tick = state.env.now - 20;
    state.tick();
    assert_eq!(state.look.scroll.title.offset, 40 * 96 * 20);
    state.env.animations = false;
    state.env.now += 20;
    state.tick();
    assert_eq!(state.look.scroll.title.offset, 40 * 96 * 20);
}

#[test]
fn a_stray_stop_under_a_persistent_pill_is_dropped_and_a_tombstone_is_not() {
    let mut state = persistent();
    state.content = Some(MediaEvent::TrackChanged(track_for("spotify", "Song", "Artist")));
    state.phase = Phase::Shown;
    state.queue.push(MediaEvent::PlaybackStateChanged(PlaybackState::Stopped, "brave".into()));
    state.receive_events();
    assert!(matches!(&state.content, Some(MediaEvent::TrackChanged(t)) if t.source_app == "spotify"));
    state.queue.push(MediaEvent::PlaybackStateChanged(PlaybackState::Stopped, "spotify".into()));
    state.receive_events();
    assert!(matches!(&state.content, Some(MediaEvent::PlaybackStateChanged(PlaybackState::Stopped, _))));
}

#[test]
fn a_listed_foreground_hides_a_persistent_pill_until_it_clears() {
    let mut state = persistent();
    state.config.behavior.auto_compact_sources = vec!["game".into()];
    state.content = Some(MediaEvent::TrackChanged(track_for("spotify", "Song", "Artist")));
    state.phase = Phase::Shown;
    state.env.foreground = 2;
    state.foreground(Some("Game.exe".into()), false);
    state.on_foreground_change();
    assert_eq!(state.phase, Phase::Hidden);
    assert!(state.rest.watchdog);
    assert_eq!(state.timer.period, WATCHDOG_TICK_MS);
    state.env.foreground = 3;
    state.foreground(Some("notepad.exe".into()), false);
    state.on_foreground_change();
    assert!(matches!(&state.content, Some(MediaEvent::TrackChanged(t)) if t.title == "Song"));
    assert!(!matches!(state.phase, Phase::Hidden));
}

#[test]
fn settings_apply_at_once() {
    let mut state = shown("spotify", "Song");
    state.set_duration(10);
    assert_eq!(state.config.overlay.duration_ms, 500);
    state.pill.set_layout(LayoutMode::Compact, &state.env);
    assert_eq!(state.place.layout, LayoutMode::Compact);
    assert!(state.effective_compact());
    state.set_dismiss_on_hover(false);
    state.set_expand_compact_on_hover(false);
    assert!(!state.config.overlay.dismiss_on_hover && !state.config.overlay.expand_compact_on_hover);
    state.rest.faded = true;
    state.set_fade_persistent_pill(false);
    assert!(!state.rest.faded);
    state.set_pinned_source(Some("  Spotify ".into()));
    assert_eq!(state.config.behavior.pinned_source.as_deref(), Some("Spotify"));
    state.set_pinned_source(Some("   ".into()));
    assert_eq!(state.config.behavior.pinned_source, None);
    state.set_hide_for_auto_compact_sources(false);
    assert!(!state.config.behavior.hide_for_auto_compact_sources);
    assert_eq!(state.phase, Phase::Shown, "no setting hides the pill");
}

#[test]
fn a_hidden_pill_previews_a_new_position() {
    let mut state = bench(Config::default());
    let mut pos = OverlayPos::from_config(&state.config);
    pos.margin = 40;
    state.pill.set_positions(pos, pos, &state.env);
    assert_eq!(state.place.expanded.margin, 40);
    assert_eq!(state.phase, Phase::Light(state.now()));
    assert!(matches!(
        &state.content,
        Some(MediaEvent::TrackChanged(t)) if t.title == "Sample Track" && t.artist == "Sample Artist"
            && t.album == "Sample Album" && t.source_app == "Example Player" && t.duration_secs == Some(225)
    ));
    let mut state = shown("spotify", "Song");
    state.pill.set_compact_separate(true, &state.env);
    assert!(state.config.overlay.compact_position_separate);
    assert_eq!(state.phase, Phase::Shown);
}

#[test]
fn idle_buffers_are_given_back_only_without_content() {
    let mut state = shown("spotify", "Song");
    state.take_effects();
    state.post(Message::Timer(IDLE_BUFFER_TIMER_ID));
    assert!(!state.effects.contains(&Effect::ReleaseBuffers));
    state.hide_pill();
    state.take_effects();
    state.post(Message::Timer(IDLE_BUFFER_TIMER_ID));
    assert!(state.effects.contains(&Effect::ReleaseBuffers));
    assert!(state.effects.contains(&Effect::StopIdleRelease), "the timer fires once");
}

#[test]
fn a_cursor_that_leaves_mid_expand_reverses_the_morph() {
    let mut state = persistent();
    state.config.overlay.dismiss_on_hover = false;
    state.show(MediaEvent::TrackChanged(track_for("spotify", "Song", "Artist")), true);
    state.phase = Phase::Shown;
    state.over = true;
    state.tick();
    assert!(state.hover.expand.is_some_and(|m| m.direction == MorphDirection::Expand));
    state.over = false;
    state.env.now += 200;
    state.tick();
    state.env.now += 100;
    state.tick();
    let morph = state.hover.expand.expect("the collapse leg runs");
    assert_eq!(morph.direction, MorphDirection::Collapse);
    assert_eq!((morph.from, morph.start), (1_000_000, state.now()));
}

#[test]
fn a_hover_never_pushes_a_sooner_deadline_out() {
    let mut config = Config::default();
    config.overlay.layout = LayoutMode::Expanded;
    config.overlay.dismiss_on_hover = true;
    for phase in [Phase::Expanding(START), Phase::Light(START), Phase::Shown] {
        let mut state = bench(config.clone());
        state.show(MediaEvent::TrackChanged(track_for("spotify", "Song", "Artist")), true);
        state.phase = phase;
        state.dismiss_at = Some(START + 200);
        state.over = true;
        state.tick();
        assert_eq!(state.dismiss_at, Some(START + 200), "the arm is only a cap");
        assert!(state.hover.dismiss_at.is_some());
        let mut state = bench(config.clone());
        state.show(MediaEvent::TrackChanged(track_for("spotify", "Song", "Artist")), true);
        state.phase = phase;
        state.over = true;
        state.tick();
        assert_eq!(state.dismiss_at, Some(START + 500));
    }
}

fn auto_hidden() -> Bench {
    let mut state = persistent();
    state.show(MediaEvent::TrackChanged(track_for("spotify", "Song", "Artist")), true);
    state.phase = Phase::Shown;
    state.foreground(None, true);
    state.on_foreground_change();
    assert!(state.rest.watchdog && matches!(state.phase, Phase::Hidden));
    state
}

#[test]
fn a_preview_ends_the_watch() {
    let mut state = auto_hidden();
    state.pill.show_sample(&state.env);
    assert!(!state.rest.watchdog, "nothing is watched for while the pill is visible");
    assert_eq!(state.phase, Phase::Light(state.now()));
}

#[test]
fn a_hold_that_leaves_ends_the_watch() {
    let mut state = auto_hidden();
    state.take_effects();
    state.retire_source("spotify");
    assert!(state.held_content.is_none() && matches!(state.phase, Phase::Hidden));
    assert!(!state.rest.watchdog && !state.timer.armed);
    assert!(state.effects.contains(&Effect::DropTimer));
    let mut state = auto_hidden();
    state.retire_source("other");
    assert!(state.rest.watchdog && state.timer.armed, "the hold is still watched for");
}

#[test]
fn a_preview_shows_the_palette_of_its_track() {
    let mut state = bench(Config::default());
    let mut track = track_for("spotify", "Song", "Artist");
    let palette = Palette {
        primary: Color { r: 1, g: 2, b: 3, a: 255 },
        secondary: Color { r: 4, g: 5, b: 6, a: 255 },
    };
    track.palette = Some(palette);
    state.last_track = Some(track);
    state.pill.show_sample(&state.env);
    assert_eq!(state.look.content_palette, Some(palette));
}

#[test]
fn nothing_waits_under_a_persistent_pill() {
    let mut state = persistent();
    for source in ["spotify", "vlc", "brave"] {
        state.queue.push(MediaEvent::TrackChanged(track_for(source, "Song", "Artist")));
        state.queue.push(MediaEvent::PlaybackStateChanged(PlaybackState::Paused, format!("{source} other")));
    }
    state.receive_events();
    assert!(state.pending.is_empty());
    assert!(!matches!(state.phase, Phase::Hidden));
}

#[test]
fn texts_are_trimmed_at_both_ends() {
    assert_eq!(trim(" \t Love Me Not \u{3000}"), "Love Me Not");
    assert_eq!(trim(" \n "), "");
    assert_eq!(strip_suffix("app.exe.exe", ".exe"), "app");
    assert_eq!(strip_suffix("app.EXE", ".exe"), "app.EXE");
    assert!(source_matches_pin("Spotify Premium", "spotify"));
    assert!(source_matches_pin("spotify", "Spotify Premium"));
    assert!(source_matches_pin("VLC", "vlc"));
    assert!(!source_matches_pin("...", "spotify"));
}
