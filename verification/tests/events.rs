//! Media events: queueing, in-place refreshes and retired sources.
use std::sync::Arc;
use winglance_overlay::config::{Config, LayoutMode, collapse_duration_with};
use winglance_overlay::events::{MediaEvent, PlaybackState, TrackInfo};
use winglance_overlay::ledger::{LEDGER_STATE_CAP, TRACK_CACHE_CAP};
use winglance_overlay::overlay::OverlayState;
use winglance_overlay::pill::{Env, Phase, Reversal};

/// The moment at which every bench starts, in ms.
const START: u64 = 1_000_000;

/// An overlay with the system around it: a clock, a foreground, a cursor and
/// a queue of media events.
struct Bench {
    pill: OverlayState,
    env: Env,
    over: bool,
    queue: Vec<MediaEvent>,
}

impl std::ops::Deref for Bench {
    type Target = OverlayState;

    fn deref(&self) -> &OverlayState {
        &self.pill
    }
}

impl std::ops::DerefMut for Bench {
    fn deref_mut(&mut self) -> &mut OverlayState {
        &mut self.pill
    }
}

fn bench(config: Config) -> Bench {
    Bench {
        pill: OverlayState::new(config, START),
        env: Env {
            now: START,
            foreground: 1,
            exe: None,
            fullscreen: false,
            animations: true,
            refresh_period: 16,
            target: None,
            target_dpi: 96,
            target_covered: false,
        },
        over: false,
        queue: Vec::new(),
    }
}

impl Bench {
    fn now(&self) -> u64 {
        self.env.now
    }

    fn foreground(&mut self, exe: Option<String>, fullscreen: bool) {
        self.env.exe = exe;
        self.env.fullscreen = fullscreen;
    }

    fn receive_events(&mut self) {
        let batch = std::mem::take(&mut self.queue);
        self.pill.receive_events(&batch, &self.env);
    }

    fn tick(&mut self) {
        self.pill.tick(self.over, Reversal { from: 1_000_000, velocity: 0 }, &self.env);
    }

    fn note(&mut self, source: &str, state: PlaybackState) {
        self.pill.remember_source_state(&source.to_string(), state);
    }

    fn has_track(&self, source: &str) -> bool {
        self.pill.track_cache.get(&source.to_string()).is_some()
    }

    fn has_state(&self, source: &str) -> bool {
        self.pill.source_state.get(&source.to_string()).is_some()
    }

    fn state_of(&self, source: &str) -> Option<PlaybackState> {
        self.pill.source_state.get(&source.to_string())
    }

    fn retire_source(&mut self, source: &str) {
        self.pill.retire_source(&source.to_string(), &self.env);
    }

    fn toggle_enabled(&mut self) {
        self.pill.toggle_enabled(&self.env);
    }
}

fn track_for(source: &str, title: &str, artist: &str) -> TrackInfo {
    TrackInfo {
        title: title.into(),
        artist: artist.into(),
        source_app: source.into(),
        ..TrackInfo::default()
    }
}

fn brave_track(title: &str) -> TrackInfo {
    track_for("Brave", title, "Brave Artist")
}

fn ytm_track(title: &str) -> TrackInfo {
    track_for("youtube-music", title, "YTM Artist")
}

fn reject(source: &str) -> MediaEvent {
    MediaEvent::SessionRejected {
        source_app: source.into(),
        title: String::new(),
        artist: String::new(),
        state: PlaybackState::Paused,
        accepted: false,
    }
}

#[test]
fn retire_source_purges_the_retired_source_from_the_track_cache() {
    let mut state = bench(Config::default());
    state.cache_track(&track_for("alpha", "Song A", "Artist"));
    state.cache_track(&track_for("zeta", "Song Z", "Artist"));
    assert!(state.has_track("alpha"));
    // Retiring a source that is not on screen must still drop its cache
    // entry: the purge runs before the early return.
    state.retire_source("alpha");
    assert!(!state.has_track("alpha"));
    assert!(!state.track_cache.entries.iter().any(|t| t.source_app == "alpha"));
    assert!(state.has_track("zeta"));
    assert!(state.track_cache.entries.iter().any(|t| t.source_app == "zeta"));
}

#[test]
fn track_cache_evicts_the_oldest_source_at_the_cap() {
    let mut state = bench(Config::default());
    for i in 0..(TRACK_CACHE_CAP + 2) {
        state.cache_track(&track_for(&format!("source-{i}"), "Song", "Artist"));
    }
    assert_eq!(state.track_cache.entries.len(), TRACK_CACHE_CAP);
    assert!(
        !state.has_track("source-0"),
        "the two oldest sources must be evicted"
    );
    assert!(
        state.has_track(&format!("source-{}", TRACK_CACHE_CAP + 1)),
        "the newest source stays"
    );
    // Re-caching an existing source refreshes its recency: it survives
    // the evictions that follow.
    state.cache_track(&track_for("source-1", "Song", "Artist"));
    state.cache_track(&track_for("source-new", "Song", "Artist"));
    assert!(
        state.has_track("source-1"),
        "a re-cached source must not be evicted"
    );
    assert_eq!(state.track_cache.entries.len(), TRACK_CACHE_CAP);
}

#[test]
fn track_cache_retains_idle_entries_until_the_cap_evicts_them() {
    // Retention is indefinite once an entry is inserted: only the cap
    // evicts. An idle (never-refreshed) entry survives inserts below the
    // cap — the successor rule's playback-state gate, not a timeout, is
    // what keeps a stopped source's track from ever being announced.
    let mut state = bench(Config::default());
    state.cache_track(&track_for("stale", "Old", "Song"));
    state.cache_track(&track_for("fresh", "New", "Song"));
    assert!(
        state.has_track("stale"),
        "an idle entry must be retained below the cap"
    );
    assert!(state.has_track("fresh"));
    assert_eq!(state.track_cache.entries.len(), 2);
    // ... and the cap still evicts the oldest entries once exceeded.
    for i in 0..TRACK_CACHE_CAP {
        state.cache_track(&track_for(&format!("more-{i}"), "Song", "Artist"));
    }
    assert_eq!(state.track_cache.entries.len(), TRACK_CACHE_CAP);
    assert!(
        !state.has_track("stale"),
        "the oldest entries must be evicted at the cap"
    );
}

#[test]
fn state_pill_suppressed_when_track_change_follows_in_the_same_batch() {
    let config = Config::default();
    let mut state = bench(config);
    // Prime the source's track cache with the previous song: without the
    // suppression the state pill would render it stale.
    state.cache_track(&track_for("youtube-music", "Old Song", "Old Artist"));

    state.queue.push(MediaEvent::PlaybackStateChanged(
            PlaybackState::Playing,
            "youtube-music".into(),
        ));
    state.queue.push(MediaEvent::TrackChanged(track_for(
            "youtube-music",
            "New Song",
            "New Artist",
        )));
    state.receive_events();

    assert_eq!(state.pending.len(), 1, "only the track pill should be queued");
    assert!(
        matches!(state.pending.first(), Some(MediaEvent::TrackChanged(t)) if t.title == "New Song"),
        "the queued event must be the new track"
    );
}

#[test]
fn state_pill_still_shown_without_a_track_change_in_the_batch() {
    let config = Config::default();
    let mut state = bench(config);
    state.cache_track(&track_for("youtube-music", "Song", "Artist"));

    state.queue.push(MediaEvent::PlaybackStateChanged(
            PlaybackState::Paused,
            "youtube-music".into(),
        ));
    state.receive_events();

    assert_eq!(state.pending.len(), 1, "a state change alone still queues a pill");
    assert!(matches!(
        state.pending.first(),
        Some(MediaEvent::PlaybackStateChanged(PlaybackState::Paused, source)) if source == "youtube-music"
    ));
}

#[test]
fn same_source_state_toggle_updates_the_shown_state_pill_in_place() {
    let mut state = bench(Config::default());
    state.content = Some(MediaEvent::PlaybackStateChanged(
        PlaybackState::Paused,
        "youtube-music".into(),
    ));
    state.phase = Phase::Shown;
    state.dismiss_at = Some(state.now() + 1500);

    state.queue.push(MediaEvent::PlaybackStateChanged(
            PlaybackState::Playing,
            "youtube-music".into(),
        ));
    state.receive_events();

    assert!(
        state.pending.is_empty(),
        "a same-source toggle must not queue a second pill"
    );
    assert!(matches!(
        state.content.as_ref(),
        Some(MediaEvent::PlaybackStateChanged(PlaybackState::Playing, source))
            if source == "youtube-music"
    ));
    let remaining = state.dismiss_at.unwrap().saturating_sub(state.now());
    assert!(
        remaining >= 2900,
        "the pill must get the full configured duration again, got {remaining:?}"
    );
}

#[test]
fn play_pause_spam_collapses_to_the_latest_state_on_the_shown_pill() {
    let mut state = bench(Config::default());
    state.content = Some(MediaEvent::PlaybackStateChanged(
        PlaybackState::Paused,
        "youtube-music".into(),
    ));
    state.phase = Phase::Shown;
    state.dismiss_at = Some(state.now() + 3000);

    for state_value in [PlaybackState::Playing, PlaybackState::Paused, PlaybackState::Playing] {
        state.queue.push(MediaEvent::PlaybackStateChanged(state_value, "youtube-music".into()));
    }
    state.receive_events();

    assert!(
        state.pending.is_empty(),
        "the whole burst must update in place, not queue"
    );
    assert!(matches!(
        state.content.as_ref(),
        Some(MediaEvent::PlaybackStateChanged(PlaybackState::Playing, source))
            if source == "youtube-music"
    ));
}

#[test]
fn same_source_state_event_suppressed_while_the_track_pill_is_shown() {
    let mut state = bench(Config::default());
    state.content = Some(MediaEvent::TrackChanged(track_for("youtube-music", "Song", "Artist")));
    state.phase = Phase::Shown;
    state.dismiss_at = Some(state.now() + 3_000);

    state.queue.push(MediaEvent::PlaybackStateChanged(
            PlaybackState::Playing,
            "youtube-music".into(),
        ));
    state.receive_events();

    assert!(
        state.pending.is_empty(),
        "a Playing re-announcement adds nothing while the source's track pill is still visible"
    );
    assert!(
        matches!(state.content.as_ref(), Some(MediaEvent::TrackChanged(_))),
        "the track pill must stay on screen (note symbol) for a redundant Playing"
    );
}

#[test]
fn same_source_pause_or_stop_updates_the_track_pill_in_place() {
    // Regression: a genuine Paused/Stopped that arrives while the source's
    // TrackChanged pill is still on screen used to be dropped wholesale, so
    // a pause right after a track change never showed — the event was lost
    // to the dismiss timer. It now refreshes the shown pill in place
    // (♪ -> ⏸/⏹) using the cached track's text.
    for state_value in [PlaybackState::Paused, PlaybackState::Stopped] {
        let mut state = bench(Config::default());
        let track = track_for("youtube-music", "Song", "Artist");
        // The track pill caches its track so the in-place state pill can
        // resolve the title/artist without a new TrackChanged.
        state.cache_track(&track.clone());
        state.content = Some(MediaEvent::TrackChanged(track));
        state.phase = Phase::Shown;
        state.dismiss_at = Some(state.now() + 3_000);

        state.queue.push(MediaEvent::PlaybackStateChanged(
                state_value,
                "youtube-music".into(),
            ));
        state.receive_events();

        assert!(
            state.pending.is_empty(),
            "a same-source state flip must not queue a second pill: {:?}",
            state_value
        );
        assert!(
            matches!(
                state.content.as_ref(),
                Some(MediaEvent::PlaybackStateChanged(s, source))
                    if *s == state_value && source == "youtube-music"
            ),
            "the track pill must refresh in place to {:?}, got {:?}",
            state_value,
            state.content.as_ref().map(|e| format!("{e:?}")).unwrap_or_default()
        );
        let remaining = state.dismiss_at.unwrap().saturating_sub(state.now());
        assert!(
            remaining >= 2900,
            "the refreshed pill must keep the full duration from this change, got {remaining:?} for {state_value:?}"
        );
    }
}

#[test]
fn same_source_state_toggle_during_collapse_brings_the_pill_back() {
    let mut state = bench(Config::default());
    state.content = Some(MediaEvent::PlaybackStateChanged(
        PlaybackState::Paused,
        "youtube-music".into(),
    ));
    state.phase = Phase::Collapsing(state.now() - 10);
    state.dismiss_at = Some(state.now() - 10);

    state.queue.push(MediaEvent::PlaybackStateChanged(
            PlaybackState::Playing,
            "youtube-music".into(),
        ));
    state.receive_events();

    assert!(
        matches!(state.phase, Phase::Expanding(_)),
        "the toggle must rescue the collapsing pill by resuming the entrance, not snapping to shown"
    );
}

#[test]
fn persistent_batch_before_first_show_ends_on_the_latest_track() {
    // Startup burst: two cross-source tracks arrive before the first
    // pill ever shows. The first must show directly; the second must
    // swap in place — queueing either would strand it forever.
    let mut state = bench(Config::default());
    state.config.overlay.layout = LayoutMode::PersistentCompact;
    state.queue.push(MediaEvent::TrackChanged(track_for(
            "Brave", "Song A", "Artist",
        )));
    state.queue.push(MediaEvent::TrackChanged(track_for(
            "youtube-music",
            "Song B",
            "Artist",
        )));
    state.receive_events();

    assert!(
        matches!(
            state.content.as_ref(),
            Some(MediaEvent::TrackChanged(t))
                if t.source_app == "youtube-music" && t.title == "Song B"
        ),
        "the batch must end on the latest track"
    );
    assert!(state.pending.is_empty());
    assert!(!matches!(state.phase, Phase::Hidden));
}

#[test]
fn persistent_state_event_before_first_show_shows_directly() {
    let mut state = bench(Config::default());
    state.config.overlay.layout = LayoutMode::PersistentCompact;
    state.queue.push(MediaEvent::PlaybackStateChanged(
            PlaybackState::Paused,
            "youtube-music".into(),
        ));
    state.receive_events();

    assert!(
        matches!(
            state.content.as_ref(),
            Some(MediaEvent::PlaybackStateChanged(PlaybackState::Paused, s)) if s == "youtube-music"
        ),
        "the first state event of a persistent run must show, not queue"
    );
    assert!(state.pending.is_empty());
    assert!(!matches!(state.phase, Phase::Hidden));
}

#[test]
fn persistent_auto_hidden_surfaces_updates_briefly_over_fullscreen() {
    // Auto-hidden (fullscreen/listed foreground with hide_for_auto_compact_sources
    // on): the pill is hidden but still active. A meaningful update must surface
    // briefly like a compact notification — full configured duration, then
    // collapse back into the auto-hidden hold — so track changes no longer vanish
    // over fullscreen/listed apps; the resume must still re-show the latest track
    // when the foreground clears.
    let mut state = bench(Config::default());
    state.config.overlay.layout = LayoutMode::PersistentCompact;
    state.foreground(None, true);
    state.over = false;
    // Auto-hide hold from a prior track.
    state.held_content = Some(MediaEvent::TrackChanged(track_for("Brave", "Song A", "Artist")));
    state.phase = Phase::Hidden;
    state.queue.push(MediaEvent::TrackChanged(track_for(
            "youtube-music",
            "Song B",
            "Artist",
        )));
    state.receive_events();

    // The update must surface the pill, not vanish into the held content.
    assert!(
        !matches!(state.phase, Phase::Hidden),
        "an auto-hidden persistent pill must surface the update, not stay hidden"
    );
    assert!(
        state.content.as_ref().is_some_and(
            |c| matches!(c, MediaEvent::TrackChanged(t) if t.source_app == "youtube-music" && t.title == "Song B")
        ),
        "the latest track must be on screen"
    );
    assert!(
        state.dismiss_at.is_some(),
        "the surfaced update must have a dismiss deadline"
    );
    assert!(
        state.rest.collapse_on_dismiss,
        "dismiss must collapse into a hide over the fullscreen foreground"
    );
    assert!(state.pending.is_empty());
    // The resume hold tracks the latest update so the foreground-clear resume
    // re-shows it, not the stale prior track.
    assert!(
        matches!(
            state.held_content.as_ref(),
            Some(MediaEvent::TrackChanged(t)) if t.title == "Song B"
        ),
        "held content must track the latest update for resume"
    );

    // At the deadline the temporary pill takes the collapse-to-hide route
    // instead of the idle fade, so it does not linger at dimmed opacity over
    // the fullscreen app; the auto-hidden state is restored with the newest
    // held content for the resume.
    state.dismiss_at = Some(state.now() - 1_000);
    state.fg.fullscreen = Some(true);
    // Seed the leave timer into the past so the "cursor leaves, restart the
    // fade timer" branch does not reset dismiss_at to the future this tick
    // (the same gotcha the persistent-idle-fade test documents).
    state.hover.leave_at = Some(state.now() - 100);
    state.tick();
    assert!(
        !state.rest.faded,
        "the idle fade must not engage on the collapse-to-hide path"
    );
    assert!(
        matches!(state.phase, Phase::Collapsing(_) | Phase::Hidden),
        "the temporary pill must collapse (or finish collapsing) rather than linger"
    );
}

#[test]
fn session_rejected_swaps_shown_content_to_the_latest_valid_track() {
    // Brave is on screen; YTM's track was shown earlier this run, is
    // cached, and YTM is still playing. Retiring Brave must swap the pill
    // to YTM's track in place, not leave stale Brave content behind.
    let mut state = bench(Config::default());
    state.cache_track(&ytm_track("Last YTM Track"));
    state.note("youtube-music", PlaybackState::Playing);
    state.content = Some(MediaEvent::TrackChanged(brave_track("Brave Song")));
    state.current_source = Some("Brave".into());
    state.last_track = Some(brave_track("Brave Song"));
    state.phase = Phase::Shown;
    state.queue.push(reject("Brave"));
    state.receive_events();

    assert!(
        matches!(
            state.content.as_ref(),
            Some(MediaEvent::TrackChanged(t))
                if t.source_app == "youtube-music" && t.title == "Last YTM Track"
        ),
        "the pill must swap to the most recent valid cached track"
    );
    assert_eq!(state.current_source.as_deref(), Some("youtube-music"));
    assert_eq!(
        state.last_track.as_ref().map(|t| t.source_app.as_str()),
        Some("youtube-music"),
        "the sample pill must not render the retired source"
    );
    assert!(!matches!(state.phase, Phase::Hidden));
}

#[test]
fn session_rejected_hides_the_pill_when_nothing_valid_remains() {
    let mut state = bench(Config::default());
    state.content = Some(MediaEvent::TrackChanged(brave_track("Brave Song")));
    state.current_source = Some("Brave".into());
    state.last_track = Some(brave_track("Brave Song"));
    state.phase = Phase::Shown;
    state.queue.push(reject("Brave"));
    state.receive_events();

    assert!(state.content.is_none());
    assert!(state.last_track.is_none());
    assert!(matches!(state.phase, Phase::Hidden));
}

#[test]
fn session_rejected_swaps_held_content_while_auto_hidden() {
    // PersistentCompact auto-hide: the resume hold is Brave's content.
    // Retiring Brave must swap the hold so the resume re-shows YTM, not
    // the retired source.
    let mut state = bench(Config::default());
    state.config.overlay.layout = LayoutMode::PersistentCompact;
    state.phase = Phase::Hidden;
    state.held_content = Some(MediaEvent::TrackChanged(brave_track("Brave Song")));
    state.last_track = Some(brave_track("Brave Song"));
    state.cache_track(&ytm_track("Last YTM Track"));
    state.note("youtube-music", PlaybackState::Playing);
    state.queue.push(reject("Brave"));
    state.receive_events();

    assert!(
        matches!(
            state.held_content.as_ref(),
            Some(MediaEvent::TrackChanged(t))
                if t.source_app == "youtube-music" && t.title == "Last YTM Track"
        ),
        "the resume hold must swap to the latest valid track"
    );
    assert_eq!(
        state.last_track.as_ref().map(|t| t.source_app.as_str()),
        Some("youtube-music")
    );
    assert!(state.content.is_none());
    assert!(matches!(state.phase, Phase::Hidden));
}

#[test]
fn session_rejected_drops_queued_notifications_from_the_retired_source() {
    let mut state = bench(Config::default());
    state
        .pending.push(MediaEvent::TrackChanged(brave_track("Queued Brave")));
    state
        .pending.push(MediaEvent::TrackChanged(ytm_track("Queued YTM")));
    state.queue.push(reject("Brave"));
    state.receive_events();

    assert_eq!(state.pending.len(), 1, "only the queued Brave pill must drop");
    assert!(matches!(
        state.pending.first(),
        Some(MediaEvent::TrackChanged(t)) if t.source_app == "youtube-music"
    ));
}

#[test]
fn session_rejected_swaps_last_track_for_the_sample_pill() {
    // Hidden with no content: the settings sample pill renders last_track.
    // Retiring the source behind it must point the sample at the most
    // recent valid track instead of the retired one.
    let mut state = bench(Config::default());
    state.phase = Phase::Hidden;
    state.last_track = Some(brave_track("Brave Song"));
    state.cache_track(&ytm_track("Last YTM Track"));
    state.note("youtube-music", PlaybackState::Playing);
    state.queue.push(reject("Brave"));
    state.receive_events();

    assert_eq!(
        state.last_track.as_ref().map(|t| t.source_app.as_str()),
        Some("youtube-music"),
        "the sample pill must never render a retired source"
    );
    assert!(state.content.is_none());
}

#[test]
fn session_rejected_swaps_content_even_while_notifications_disabled() {
    // The user's reported case: notifications were off, so nothing ever
    // updated the held Brave content. The retirement is content hygiene,
    // not a notification — it must run while the toggle is off so the
    // next show (or sample pill) never resurrects the retired source.
    let mut state = bench(Config::default());
    state.enabled = false;
    state.cache_track(&ytm_track("Last YTM Track"));
    state.note("youtube-music", PlaybackState::Playing);
    state.content = Some(MediaEvent::TrackChanged(brave_track("Brave Song")));
    state.last_track = Some(brave_track("Brave Song"));
    state.phase = Phase::Shown;
    state.queue.push(reject("Brave"));
    state.receive_events();

    assert!(
        matches!(
            state.content.as_ref(),
            Some(MediaEvent::TrackChanged(t)) if t.source_app == "youtube-music"
        ),
        "the swap must apply even while notifications are disabled"
    );
    assert_eq!(
        state.last_track.as_ref().map(|t| t.source_app.as_str()),
        Some("youtube-music")
    );
}

#[test]
fn session_rejected_for_an_unshown_source_leaves_the_pill_alone() {
    // A source that owns nothing on screen, in the hold, or behind the
    // sample must not disturb the shown content.
    let mut state = bench(Config::default());
    state.cache_track(&ytm_track("Last YTM Track"));
    state.content = Some(MediaEvent::TrackChanged(ytm_track("Last YTM Track")));
    state.current_source = Some("youtube-music".into());
    state.last_track = Some(ytm_track("Last YTM Track"));
    state.phase = Phase::Shown;
    state.queue.push(reject("Spotify"));
    state.receive_events();

    assert!(
        matches!(
            state.content.as_ref(),
            Some(MediaEvent::TrackChanged(t)) if t.source_app == "youtube-music"
        ),
        "an unrelated rejection must not touch the shown content"
    );
    assert!(matches!(state.phase, Phase::Shown));
}

#[test]
fn enqueue_keeps_only_the_newest_track_for_a_source() {
    let mut state = bench(Config::default());
    state.enqueue(MediaEvent::TrackChanged(track_for("youtube-music", "Song A", "Artist")));
    state.enqueue(MediaEvent::TrackChanged(track_for("youtube-music", "Song B", "Artist")));
    assert_eq!(state.pending.len(), 1, "a newer track must supersede the queued one");
    assert!(matches!(
        state.pending.first(),
        Some(MediaEvent::TrackChanged(t)) if t.title == "Song B"
    ));
}

#[test]
fn enqueue_merges_metadata_into_the_queued_track_for_same_media() {
    let mut state = bench(Config::default());
    state.enqueue(MediaEvent::TrackChanged(track_for("youtube-music", "Song", "Artist")));
    let mut refreshed = track_for("youtube-music", "Song", "Artist");
    refreshed.album = "Album".into();
    refreshed.album_artist = "Album Artist".into();
    refreshed.subtitle = "Episode 7".into();
    refreshed.duration_secs = Some(214);
    refreshed.track_number = Some(3);
    refreshed.track_count = Some(12);
    refreshed.genre = Some("Synthwave".into());
    refreshed.artwork = Some(Arc::new(vec![1u8, 2, 3]));
    refreshed.decoded_art = Some(Arc::new(vec![4u8, 5, 6, 7]));
    refreshed.app_icon = Some(Arc::new(vec![8u8, 9, 10, 11]));
    state.enqueue(MediaEvent::TrackChanged(refreshed));
    assert_eq!(state.pending.len(), 1, "a same-media refresh must merge, not queue");
    let queued = match state.pending.first() {
        Some(MediaEvent::TrackChanged(track)) => track,
        other => panic!("expected a queued track, got {other:?}"),
    };
    // Every displayed field the refresh carried lands on the queued pill,
    // not just album/artwork.
    assert_eq!(queued.album, "Album");
    assert_eq!(queued.album_artist, "Album Artist");
    assert_eq!(queued.subtitle, "Episode 7");
    assert_eq!(queued.duration_secs, Some(214));
    assert_eq!(queued.track_number, Some(3));
    assert_eq!(queued.track_count, Some(12));
    assert_eq!(queued.genre.as_deref(), Some("Synthwave"));
    assert!(queued.artwork.is_some());
    assert!(queued.decoded_art.is_some());
    assert!(queued.app_icon.is_some());
}

#[test]
fn enqueue_merge_keeps_the_queued_cover_on_a_no_art_refresh() {
    // SMTC reads artwork only on some passes: a refresh without art must
    // not clobber the already-queued cover (raw bytes, its decode, and
    // the cached app icon all survive).
    let mut state = bench(Config::default());
    let mut first = track_for("youtube-music", "Song", "Artist");
    first.artwork = Some(Arc::new(vec![1u8, 2, 3]));
    first.decoded_art = Some(Arc::new(vec![4u8, 5, 6, 7]));
    first.app_icon = Some(Arc::new(vec![8u8, 9, 10, 11]));
    state.enqueue(MediaEvent::TrackChanged(first));
    let mut no_art = track_for("youtube-music", "Song", "Artist");
    no_art.duration_secs = Some(180);
    state.enqueue(MediaEvent::TrackChanged(no_art));
    let queued = match state.pending.first() {
        Some(MediaEvent::TrackChanged(track)) => track,
        other => panic!("expected a queued track, got {other:?}"),
    };
    // The duration still merges...
    assert_eq!(queued.duration_secs, Some(180));
    // ...but the cover and icon survive the art-less refresh.
    assert!(queued.artwork.is_some());
    assert!(queued.decoded_art.is_some());
    assert!(queued.app_icon.is_some());
}

#[test]
fn enqueue_keeps_only_the_newest_state_for_a_source() {
    let mut state = bench(Config::default());
    state.enqueue(MediaEvent::PlaybackStateChanged(
        PlaybackState::Paused,
        "youtube-music".into(),
    ));
    state.enqueue(MediaEvent::PlaybackStateChanged(
        PlaybackState::Playing,
        "youtube-music".into(),
    ));
    state.enqueue(MediaEvent::PlaybackStateChanged(
        PlaybackState::Paused,
        "youtube-music".into(),
    ));
    assert_eq!(state.pending.len(), 1, "a newer state must supersede the queued one");
    assert!(matches!(
        state.pending.first(),
        Some(MediaEvent::PlaybackStateChanged(PlaybackState::Paused, source))
            if source == "youtube-music"
    ));
}

#[test]
fn enqueue_keeps_events_from_distinct_sources() {
    let mut state = bench(Config::default());
    state.enqueue(MediaEvent::TrackChanged(track_for("youtube-music", "Song A", "Artist")));
    state.enqueue(MediaEvent::TrackChanged(track_for("spotify", "Song B", "Artist")));
    state.enqueue(MediaEvent::TrackChanged(track_for("youtube-music", "Song C", "Artist")));
    assert_eq!(state.pending.len(), 2, "distinct sources still queue separately");
    assert!(matches!(
        state.pending.first(),
        Some(MediaEvent::TrackChanged(t)) if t.title == "Song C"
    ));
    assert!(matches!(
        state.pending.last(),
        Some(MediaEvent::TrackChanged(t)) if t.title == "Song B"
    ));
}

#[test]
fn persistent_layout_swaps_cross_source_track_in_place() {
    // A persistent-compact pill never collapses to Hidden, so the pending
    // queue (drained only while hidden) would hold a cross-source track
    // forever — a source switch must swap the pill in place instead.
    let mut state = bench(Config::default());
    state.config.overlay.layout = LayoutMode::PersistentCompact;
    state.content = Some(MediaEvent::TrackChanged(track_for("youtube-music", "Song A", "Artist")));
    state.phase = Phase::Shown;
    state.dismiss_at = Some(state.now() + 3000);

    state.queue.push(MediaEvent::TrackChanged(track_for(
            "Brave", "Song B", "Artist",
        )));
    state.receive_events();

    assert!(
        matches!(
            state.content.as_ref(),
            Some(MediaEvent::TrackChanged(t)) if t.source_app == "Brave" && t.title == "Song B"
        ),
        "the cross-source track must become the shown content"
    );
    assert!(
        state.pending.is_empty(),
        "nothing may queue behind a persistent pill that never collapses"
    );
}

#[test]
fn persistent_layout_swaps_cross_source_state_in_place() {
    let mut state = bench(Config::default());
    state.config.overlay.layout = LayoutMode::PersistentCompact;
    state.content = Some(MediaEvent::TrackChanged(track_for("youtube-music", "Song A", "Artist")));
    state.phase = Phase::Shown;
    state.dismiss_at = Some(state.now() + 3000);

    state.queue.push(MediaEvent::PlaybackStateChanged(
            PlaybackState::Paused,
            "Brave".into(),
        ));
    state.receive_events();

    assert!(
        matches!(
            state.content.as_ref(),
            Some(MediaEvent::PlaybackStateChanged(PlaybackState::Paused, source))
                if source == "Brave"
        ),
        "the cross-source state must become the shown content"
    );
    assert!(state.pending.is_empty());
}

#[test]
fn persistent_layout_event_before_first_show_shows_directly() {
    // Hidden with nothing held (pre-first-show): the batch's first event
    // must show directly — queueing it would strand it, because the
    // persistent pill never collapses and show_next would never drain.
    let mut state = bench(Config::default());
    state.config.overlay.layout = LayoutMode::PersistentCompact;
    state.phase = Phase::Hidden;

    state.queue.push(MediaEvent::TrackChanged(track_for(
            "Brave", "Song B", "Artist",
        )));
    state.receive_events();

    assert!(
        matches!(
            state.content.as_ref(),
            Some(MediaEvent::TrackChanged(t)) if t.source_app == "Brave" && t.title == "Song B"
        ),
        "the first event of a persistent run must show, not queue"
    );
    assert!(state.pending.is_empty());
    assert!(!matches!(state.phase, Phase::Hidden));
}

#[test]
fn non_persistent_layout_still_queues_cross_source_track() {
    // Notification layouts collapse and hide, so their queue drains; a
    // cross-source track must keep queueing there (regression guard).
    let mut state = bench(Config::default());
    state.content = Some(MediaEvent::TrackChanged(track_for("youtube-music", "Song A", "Artist")));
    state.phase = Phase::Shown;
    state.dismiss_at = Some(state.now() + 3000);

    state.queue.push(MediaEvent::TrackChanged(track_for(
            "Brave", "Song B", "Artist",
        )));
    state.receive_events();

    assert_eq!(
        state.pending.len(),
        1,
        "notification layouts keep queueing cross-source tracks"
    );
    assert!(matches!(
        state.content.as_ref(),
        Some(MediaEvent::TrackChanged(t)) if t.source_app == "youtube-music"
    ));
}

#[test]
fn source_gone_clears_the_fast_path_standby_while_disabled() {
    // Post-settle re-enable regression: a source whose sessions settled
    // while notifications were off left track/state pills and a playback
    // tombstone queued or held; SourceGone must clean every restoreable
    // site even though the overlay is disabled, so the fast-path on a
    // later re-enable has nothing stale to surface.
    let mut state = bench(Config::default());
    state.enabled = false;
    state.phase = Phase::Hidden;
    let track = track_for("spotify", "Song", "Artist");
    state.content = Some(MediaEvent::TrackChanged(track.clone()));
    // The resume hold and the fast-path restore source, plus a queued
    // notification from the same source.
    state.held_content = Some(MediaEvent::TrackChanged(track.clone()));
    state.last_track = Some(track.clone());
    state.pending.push(MediaEvent::TrackChanged(track));

    state.queue.push(MediaEvent::SourceGone {
        source_app: "spotify".into(),
    });
    state.receive_events();

    assert!(
        state.pending.is_empty(),
        "queued events of the gone source must be dropped"
    );
    assert!(state.held_content.is_none(), "the resume hold must be cleared");
    assert!(
        state.last_track.is_none(),
        "the fast-path restore source must be cleared"
    );
    assert!(state.content.is_none(), "the stale track pill must be hidden");

    // Re-enable: the fast-path finds nothing to restore, so the pill
    // stays hidden instead of resurrecting the settled source's track.
    state.toggle_enabled();
    assert!(state.enabled);
    assert!(state.content.is_none(), "no stale track may be restored on re-enable");
    assert!(matches!(state.phase, Phase::Hidden), "the pill must stay hidden");
}

#[test]
fn source_gone_retires_a_shown_stale_track_but_keeps_the_tombstone() {
    // A TrackChanged pillow for the gone source is stale "now playing"
    // content: SourceGone must retire it. The Stopped tombstone is the
    // retirement itself, so it stays on screen to finish its dismissal
    // UX — only the restoreable standby dies around it.
    let mut state = bench(Config::default());
    state.phase = Phase::Shown;
    let track = track_for("spotify", "Song", "Artist");
    state.content = Some(MediaEvent::TrackChanged(track.clone()));
    state.last_track = Some(track);
    state.queue.push(MediaEvent::SourceGone {
        source_app: "spotify".into(),
    });
    state.receive_events();
    assert!(state.content.is_none(), "the stale track pill must be dismissed");
    assert!(state.last_track.is_none(), "the standby must die with its source");
    assert!(matches!(state.phase, Phase::Hidden), "nothing valid remains to show");

    // Same source, but the shown content is the Stopped tombstone: it is
    // left in place, while the standby is still cleaned.
    let mut state = bench(Config::default());
    state.phase = Phase::Shown;
    state.content = Some(MediaEvent::PlaybackStateChanged(
        PlaybackState::Stopped,
        "spotify".into(),
    ));
    state.last_track = Some(track_for("spotify", "Song", "Artist"));
    state.queue.push(MediaEvent::SourceGone {
        source_app: "spotify".into(),
    });
    state.receive_events();
    assert!(
        matches!(&state.content, Some(MediaEvent::PlaybackStateChanged(PlaybackState::Stopped, s)) if s == "spotify"),
        "the Stopped tombstone must survive SourceGone"
    );
    assert!(
        state.last_track.is_none(),
        "the standby must die even under a tombstone"
    );
}

#[test]
fn source_gone_swaps_the_standby_to_the_most_recent_valid_source() {
    // A pill (and its standby sites) showing the gone source swaps to the
    // newest cached track from a source that is still playing — same
    // succession rule as retire_source.
    let mut state = bench(Config::default());
    state.phase = Phase::Shown;
    let gone = track_for("spotify", "Song", "Artist");
    let survivor = track_for("brave", "Survivor", "Artist");
    state.cache_track(&gone);
    state.cache_track(&survivor);
    state.note("brave", PlaybackState::Playing);
    state.content = Some(MediaEvent::TrackChanged(gone.clone()));
    state.held_content = Some(MediaEvent::TrackChanged(gone.clone()));
    state.last_track = Some(gone);

    state.queue.push(MediaEvent::SourceGone {
        source_app: "spotify".into(),
    });
    state.receive_events();

    assert!(
        matches!(&state.content, Some(MediaEvent::TrackChanged(t)) if t.source_app == "brave" && t.title == "Survivor"),
        "the pill must swap to the most recent valid source"
    );
    assert!(
        matches!(&state.last_track, Some(t) if t.source_app == "brave"),
        "the fast-path restore source must swap to the survivor"
    );
    assert!(
        matches!(&state.held_content, Some(MediaEvent::TrackChanged(t)) if t.source_app == "brave"),
        "the resume hold must swap to the survivor"
    );
}

#[test]
fn source_gone_hides_when_the_only_survivor_is_not_playing() {
    // The successor rule only announces sources that are actually playing:
    // a paused (or stopped) survivor must not surface its cached track as
    // "now playing" when the shown source settles.
    let mut state = bench(Config::default());
    state.phase = Phase::Shown;
    let gone = track_for("spotify", "Song", "Artist");
    let paused = track_for("brave", "Paused Survivor", "Artist");
    state.cache_track(&gone);
    state.cache_track(&paused);
    state.note("brave", PlaybackState::Paused);
    state.content = Some(MediaEvent::TrackChanged(gone.clone()));
    state.last_track = Some(gone);

    state.queue.push(MediaEvent::SourceGone {
        source_app: "spotify".into(),
    });
    state.receive_events();

    assert!(
        state.content.is_none(),
        "a paused survivor must not be announced as now playing"
    );
    assert!(state.last_track.is_none());
    assert!(matches!(state.phase, Phase::Hidden));
}

#[test]
fn source_gone_prefers_a_playing_source_over_a_newer_paused_one() {
    let mut state = bench(Config::default());
    state.phase = Phase::Shown;
    let gone = track_for("spotify", "Song", "Artist");
    let playing = track_for("yt", "Playing Track", "Artist");
    let paused = track_for("brave", "Paused Track", "Artist");
    state.cache_track(&gone);
    state.cache_track(&playing);
    state.cache_track(&paused); // newest entry, but paused
    state.note("yt", PlaybackState::Playing);
    state.note("brave", PlaybackState::Paused);
    state.content = Some(MediaEvent::TrackChanged(gone));
    state.last_track = Some(track_for("spotify", "Song", "Artist"));

    state.queue.push(MediaEvent::SourceGone {
        source_app: "spotify".into(),
    });
    state.receive_events();

    assert!(
        matches!(&state.content, Some(MediaEvent::TrackChanged(t)) if t.source_app == "yt" && t.title == "Playing Track"),
        "the playing source must win over a newer paused one"
    );
}

#[test]
fn settled_sources_are_marked_stopped_and_cannot_succeed_each_other() {
    // Two sources settle in one batch: after the first swap, the second
    // SourceGone must not re-announce the first source's track — each
    // settle marks its source Stopped in the ledger, converging to a hide.
    let mut state = bench(Config::default());
    state.phase = Phase::Shown;
    let spotify = track_for("spotify", "Song", "Artist");
    let brave = track_for("brave", "Song", "Artist");
    state.cache_track(&spotify);
    state.cache_track(&brave);
    state.note("spotify", PlaybackState::Playing);
    state.note("brave", PlaybackState::Playing);
    state.content = Some(MediaEvent::TrackChanged(spotify));
    state.last_track = Some(track_for("spotify", "Song", "Artist"));

    state.queue.push(MediaEvent::SourceGone {
        source_app: "spotify".into(),
    });
    state.queue.push(MediaEvent::SourceGone {
        source_app: "brave".into(),
    });
    state.receive_events();

    assert!(
        state.content.is_none(),
        "with both sources settled there is nothing playing to announce"
    );
    assert!(matches!(state.phase, Phase::Hidden));
}

#[test]
fn source_state_tracks_playback_from_events() {
    let mut state = bench(Config::default());
    state.queue.push(MediaEvent::PlaybackStateChanged(
            PlaybackState::Paused,
            "yt".into(),
        ));
    let mut playing = track_for("spotify", "Song", "Artist");
    playing.playback_state = Some(PlaybackState::Playing);
    state.queue.push(MediaEvent::TrackChanged(playing));
    state.receive_events();
    assert_eq!(state.state_of("yt"), Some(PlaybackState::Paused));
    assert_eq!(state.state_of("spotify"), Some(PlaybackState::Playing));

    // A TrackChanged whose snapshot carries no state (transitional read)
    // must not downgrade a known state.
    let mut transitional = track_for("spotify", "Song", "Artist");
    transitional.playback_state = None;
    state.queue.push(MediaEvent::TrackChanged(transitional));
    state.receive_events();
    assert_eq!(
        state.state_of("spotify"),
        Some(PlaybackState::Playing),
        "a transitional snapshot must not erase a playing state"
    );
}

#[test]
fn source_state_evicts_a_stopped_entry_at_the_ledger_cap() {
    let mut state = bench(Config::default());
    for i in 0..(LEDGER_STATE_CAP - 1) {
        state.note(&format!("live-{i}"), PlaybackState::Playing);
    }
    state.note("stopped-old", PlaybackState::Stopped);
    // Overflow evicts the inert Stopped entry; live sources survive.
    state.note("live-last", PlaybackState::Playing);
    assert_eq!(state.source_state.entries.len(), LEDGER_STATE_CAP);
    assert!(
        !state.has_state("stopped-old"),
        "a Stopped entry must be evicted first"
    );
    assert!(state.has_state("live-last"));
    assert!(state.has_state("live-0"));
}

#[test]
fn source_gone_of_an_unrelated_source_is_a_noop() {
    // Hygiene must be scoped: another source settling (its own stopped
    // tombstone may be next in the batch) must not touch this pill or its
    // standby.
    let mut state = bench(Config::default());
    state.phase = Phase::Shown;
    let track = track_for("spotify", "Song", "Artist");
    state.content = Some(MediaEvent::TrackChanged(track.clone()));
    state.last_track = Some(track);

    state.queue.push(MediaEvent::SourceGone {
        source_app: "brave".into(),
    });
    state.receive_events();

    assert!(
        matches!(&state.content, Some(MediaEvent::TrackChanged(t)) if t.source_app == "spotify"),
        "an unrelated SourceGone must not retire the shown pill"
    );
    assert!(
        state.last_track.is_some(),
        "an unrelated SourceGone must not clear the standby"
    );
}

#[test]
fn cross_source_stopped_does_not_displace_a_persistent_pill() {
    // The persistent pill shows Brave's track; YouTube Music closes in
    // the background. Its terminal Stopped must not swap the pill to a
    // dead ⏹ state — the in-place swap is reserved for the shown source.
    let mut config = Config::default();
    config.overlay.layout = LayoutMode::PersistentCompact;
    let mut state = bench(config);
    state.content = Some(MediaEvent::TrackChanged(brave_track("Brave Song")));
    state.current_source = Some("Brave".into());
    state.phase = Phase::Shown;
    state.queue.push(MediaEvent::PlaybackStateChanged(
            PlaybackState::Stopped,
            "youtube-music".into(),
        ));
    state.receive_events();

    assert!(
        matches!(
            state.content.as_ref(),
            Some(MediaEvent::TrackChanged(t)) if t.source_app == "Brave"
        ),
        "the shown pill must survive a cross-source Stopped"
    );
}

#[test]
fn same_source_stopped_refreshes_a_persistent_pill_then_it_hides() {
    // The source behind the shown track quits: the Stopped must swap the
    // pill in place (⏹ over the cached track), then the new dismiss
    // deadline collapses it into a full hide instead of the idle fade.
    let mut config = Config::default();
    config.overlay.layout = LayoutMode::PersistentCompact;
    config.overlay.fade_persistent_pill = true;
    let mut state = bench(config.clone());
    state.cache_track(&ytm_track("Last YTM Track"));
    state.content = Some(MediaEvent::TrackChanged(ytm_track("Last YTM Track")));
    state.phase = Phase::Shown;
    state.queue.push(MediaEvent::PlaybackStateChanged(
            PlaybackState::Stopped,
            "youtube-music".into(),
        ));
    state.receive_events();

    assert!(
        matches!(
            state.content.as_ref(),
            Some(MediaEvent::PlaybackStateChanged(PlaybackState::Stopped, s)) if s == "youtube-music"
        ),
        "a same-source Stopped must refresh the shown pill in place"
    );

    state.over = false;
    state.phase = Phase::Shown;
    state.dismiss_at = Some(state.now() - 10);
    state.hover.leave_at = Some(state.now() - 100);
    state.tick();
    assert!(
        matches!(state.phase, Phase::Collapsing(_)),
        "the refreshed Stopped pill must collapse at its deadline"
    );

    state.phase = Phase::Collapsing(state.now() - collapse_duration_with(&state.config, true) - 1);
    state.dismiss_at = Some(state.now() - 10);
    state.tick();
    assert!(
        matches!(state.phase, Phase::Hidden),
        "the completed collapse must hide the stopped pill"
    );
}

#[test]
fn newer_same_source_track_swaps_in_place_while_showing() {
    let config = Config::default();
    let mut state = bench(config);
    state.place.layout = LayoutMode::Expanded;
    state.phase = Phase::Shown;
    // Pill is up showing Apologize (Spotify).
    state.content = Some(MediaEvent::TrackChanged(track_for("spotify", "Apologize", "Coldplay")));
    state.render();

    // Skip to Payphone on the SAME source while the pill is visible.
    state.queue.push(MediaEvent::TrackChanged(track_for(
            "spotify", "Payphone", "Maroon 5",
        )));
    state.receive_events();

    // The newer same-source track swaps the visible content in place instead
    // of queueing behind it, so the pill shows the current track, not Apologize.
    assert!(
        matches!(&state.content, Some(MediaEvent::TrackChanged(t)) if t.title == "Payphone"),
        "must show Payphone, the current track"
    );
    assert!(
        state.pending.is_empty(),
        "a same-source swap must not enqueue behind the visible pill"
    );
}

#[test]
fn cross_source_track_still_enqueues_behind_the_visible_pill() {
    let config = Config::default();
    let mut state = bench(config);
    state.place.layout = LayoutMode::Expanded;
    state.phase = Phase::Shown;
    state.content = Some(MediaEvent::TrackChanged(track_for("spotify", "Apologize", "Coldplay")));
    state.render();

    // Skip to a different source (YouTube Music) while the pill is up.
    state.queue.push(MediaEvent::TrackChanged(track_for(
            "youtube-music",
            "Payphone",
            "Maroon 5",
        )));
    state.receive_events();

    // Cross-source still queues; the visible pill keeps showing Apologize.
    assert!(
        matches!(&state.content, Some(MediaEvent::TrackChanged(t)) if t.title == "Apologize"),
        "cross-source must not swap the visible pill in place"
    );
    assert_eq!(state.pending.len(), 1, "cross-source track must be enqueued");
}
