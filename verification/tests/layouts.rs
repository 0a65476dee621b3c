//! Durations, sizes, layouts and the names of sources.
use winglance_overlay::config::{
    Config, LayoutMode, animation_duration_with, clamp_duration, collapse_duration_with, debounce_ms,
    sample_duration, update_min_duration,
};
use winglance_overlay::events::{MediaEvent, PlaybackState, TrackInfo};
use winglance_overlay::fullscreen::{ForegroundVerdict, auto_source_matches, decide_layout};
use winglance_overlay::geometry::{
    Size, compact_metrics, compact_size, compact_title_viewport, content_size, content_size_of,
};
use winglance_overlay::text::{normalize_for_match, source_matches_pin};

#[test]
fn sample_duration_scales_with_config() {
    let mut config = Config::default();
    config.overlay.duration_ms = 10_000;
    assert_eq!(sample_duration(&config), 10_000);

    config.overlay.duration_ms = 200;
    assert_eq!(sample_duration(&config), 500);
}

#[test]
fn update_extension_is_capped_at_configured_duration() {
    let mut config = Config::default();
    config.overlay.duration_ms = 800;
    assert_eq!(update_min_duration(&config), 800);

    config.overlay.duration_ms = 5000;
    assert_eq!(update_min_duration(&config), 1500);
}

#[test]
fn pill_height_is_constant_across_sparse_and_full_tracks() {
    let config = Config::default();
    // Full track: all four rows (title, artist, meta, source) drawn.
    let full = TrackInfo {
        title: "Title".into(),
        artist: "Artist".into(),
        source_app: "App".into(),
        duration_secs: Some(225),
        ..TrackInfo::default()
    };
    // Sparse track: only the title row would be drawn.
    let minimal = TrackInfo {
        title: "Title".into(),
        ..TrackInfo::default()
    };
    let Size { w: width, h: height } = content_size_of(&config, &MediaEvent::TrackChanged(full), false);
    assert_eq!(width, config.overlay.max_width as u64 * 1000);
    // Height must clear the sum of all four row bands plus padding, so
    // no row gets clipped.
    let fs = config.appearance.font_size_artist as f64;
    let text_h = config.appearance.font_size_title as f64 * ROW_HEIGHT
        + fs * ROW_HEIGHT
        + fs * 0.85 * ROW_HEIGHT
        + fs * 0.85 * ROW_HEIGHT;
    let needed = text_h + 2.0 * config.appearance.padding as f64 + 8_000.0;
    assert!(height as f64 >= needed);
    // A sparse track must not shrink the pill: same size, empty space
    // below the drawn rows instead.
    let compact = content_size_of(&config, &MediaEvent::TrackChanged(minimal), false).h;
    assert_eq!(compact, height, "missing rows must not shrink the pill");
    // State pills share the same constant height.
    let state_h = content_size_of(
        &config,
        &MediaEvent::PlaybackStateChanged(PlaybackState::Paused, "App".into()),
        false,
    )
    .h;
    assert_eq!(state_h, height, "state pills must match the track pill height");
}

/// The band height of a text row over its font size.
const ROW_HEIGHT: f64 = 1.35;

fn row_h(config: &Config) -> u64 {
    (config.appearance.font_size_title as f64 * ROW_HEIGHT).round() as u64
}

#[test]
fn compact_metrics_fit_the_title_row_band() {
    let config = Config::default();
    let metrics = compact_metrics(&config);
    let row_h = row_h(&config);
    // The art tile and the playback symbol must fit the single title
    // row band; the app icon is the app row's 16 px base.
    assert!(metrics.art <= row_h, "art {} exceeds the row band {row_h}", metrics.art);
    assert!(
        metrics.symbol <= row_h,
        "symbol {} exceeds the row band {row_h}",
        metrics.symbol
    );
    assert_eq!(metrics.icon, 16_000);
    // A huge configured art size must still yield a compact tile.
    let mut big = Config::default();
    big.appearance.art_size = 96;
    assert_eq!(compact_metrics(&big).art, row_h);
}

#[test]
fn compact_size_is_a_single_row_and_smaller_than_expanded() {
    let config = Config::default();
    let expanded = content_size(&config);
    let Size { w: width, h: height } = compact_size(&config);
    assert!(
        width < expanded.w,
        "compact width {width} must stay below the expanded {}",
        expanded.w
    );
    assert!(
        height < expanded.h,
        "compact height {height} must stay below the expanded {}",
        expanded.h
    );
    // One title row + padding, nothing else.
    assert_eq!(height, row_h(&config) + 2 * config.appearance.padding as u64);
    // The compact pill never exceeds max_width (the expanded pill's cap).
    assert!(width <= config.overlay.max_width as u64 * 1000);
}

#[test]
fn compact_size_never_exceeds_max_width_at_any_config() {
    // A tiny max_width caps the compact pill at the configured maximum
    // rather than overflowing, and never collapses below the 180 px
    // minimum pill width.
    let mut tiny = Config::default();
    tiny.overlay.max_width = 200;
    let width = compact_size(&tiny).w;
    assert!(
        width <= 200_000,
        "compact width {width} must never exceed the configured max_width"
    );
    assert!(
        width >= 180_000,
        "compact width {width} must never collapse below the min pill width"
    );
    // A very wide max_width still caps the compact pill at max_width.
    let mut wide = Config::default();
    wide.overlay.max_width = 800;
    let width = compact_size(&wide).w;
    assert!(width <= 800_000);
    assert!(width < 800_000, "a compact pill must not fill the full max width");
}

#[test]
fn compact_title_viewport_reserves_the_trailing_elements() {
    let config = Config::default();
    let metrics = compact_metrics(&config);
    let pill_w = compact_size(&config).w as i64;
    let padding = config.appearance.padding as i64;
    let (left, right) = compact_title_viewport(&config);
    // The viewport sits between the art tile (with its 12 px gap) and
    // the trailing chain: 6 px gap, app icon, 16 px gap, playback
    // symbol, padding — the marquee band can never reach them.
    let expected_right = pill_w - padding - metrics.symbol as i64 - 16_000 - metrics.icon as i64 - 6_000;
    assert_eq!(right, expected_right, "the viewport must end before the icon chain");
    assert_eq!(left, padding + metrics.art as i64 + 12_000);
    assert!(
        right > left,
        "the viewport must have positive width (got {left}..{right})"
    );
}

#[test]
fn decide_layout_applies_the_configured_mode_directly() {
    let config = Config::default();
    let verdict = ForegroundVerdict {
        exe: Some("Spotify.exe".into()),
        fullscreen: true,
    };
    let mut explicit = config.clone();
    explicit.overlay.layout = LayoutMode::Expanded;
    assert_eq!(decide_layout(&explicit, &verdict), LayoutMode::Expanded);
    explicit.overlay.layout = LayoutMode::Compact;
    assert_eq!(decide_layout(&explicit, &verdict), LayoutMode::Compact);
}

#[test]
fn decide_layout_auto_compacts_for_fullscreen() {
    let mut config = Config::default();
    config.overlay.layout = LayoutMode::Auto;
    let fullscreen = ForegroundVerdict {
        exe: None,
        fullscreen: true,
    };
    assert_eq!(decide_layout(&config, &fullscreen), LayoutMode::Compact);
    let windowed = ForegroundVerdict {
        exe: None,
        fullscreen: false,
    };
    assert_eq!(decide_layout(&config, &windowed), LayoutMode::Expanded);
}

#[test]
fn decide_layout_auto_compacts_only_for_listed_sources() {
    let mut config = Config::default();
    config.overlay.layout = LayoutMode::Auto;
    config.behavior.auto_compact_sources = vec!["spotify".into()];
    let listed = ForegroundVerdict {
        exe: Some("Spotify.exe".into()),
        fullscreen: false,
    };
    assert_eq!(decide_layout(&config, &listed), LayoutMode::Compact);
    let unlisted = ForegroundVerdict {
        exe: Some("chrome.exe".into()),
        fullscreen: false,
    };
    assert_eq!(decide_layout(&config, &unlisted), LayoutMode::Expanded);
    // An empty list means Auto-compact is off: nothing compacts.
    config.behavior.auto_compact_sources.clear();
    assert_eq!(decide_layout(&config, &listed), LayoutMode::Expanded);
}

#[test]
fn decide_layout_persistent_compact_always_uses_compact_geometry() {
    let mut config = Config::default();
    config.overlay.layout = LayoutMode::PersistentCompact;
    let verdict = ForegroundVerdict {
        exe: None,
        fullscreen: false,
    };
    assert_eq!(decide_layout(&config, &verdict), LayoutMode::Compact);
    let fullscreen = ForegroundVerdict {
        exe: None,
        fullscreen: true,
    };
    assert_eq!(decide_layout(&config, &fullscreen), LayoutMode::Compact);
}

#[test]
fn source_matches_pin_uses_the_media_sources_identity_rules() {
    // The pin matches with the same normalization as the media-sources
    // allow-list, bidirectionally: a picker-stored "Spotify.exe" matches
    // the session label "spotify" and vice versa. Empty sides never match.
    assert!(source_matches_pin("spotify", "Spotify"));
    assert!(source_matches_pin("Spotify.exe", "spotify"));
    assert!(source_matches_pin("spotify", "Spotify.exe"));
    assert!(source_matches_pin("youtube-music", "youtube music"));
    assert!(!source_matches_pin("brave", "Spotify"));
    assert!(!source_matches_pin("spotify", ""));
    assert!(!source_matches_pin("", "spotify"));
    assert!(!source_matches_pin("", ""));
}

#[test]
fn auto_source_matches_strips_the_exe_extension_and_normalizes() {
    let config = Config::default();
    // Mirrors the media_sources convention: normalized case-insensitive
    // substring, with the picker's .exe-stripping applied to the name.
    assert!(auto_source_matches(
        &config_with_sources(&config, ["youtube-music"]),
        Some("YouTube.Music.exe")
    ));
    assert!(auto_source_matches(
        &config_with_sources(&config, ["spotify"]),
        Some("Spotify.exe")
    ));
    // Case and word boundaries in the pattern are irrelevant.
    assert!(auto_source_matches(
        &config_with_sources(&config, ["YouTube Music"]),
        Some("youtube-music.exe")
    ));
    assert!(auto_source_matches(
        &config_with_sources(&config, ["Plex"]),
        Some("Plex.exe")
    ));
    assert!(auto_source_matches(
        &config_with_sources(&config, ["firefox"]),
        Some("firefox.exe")
    ));
    assert!(auto_source_matches(
        &config_with_sources(&config, ["Roblox"]),
        Some("Roblox.exe")
    ));
    assert!(auto_source_matches(
        &config_with_sources(&config, ["code"]),
        Some("Code.exe")
    ));
    assert!(!auto_source_matches(
        &config_with_sources(&config, ["spotify"]),
        Some("chrome.exe")
    ));
    // An empty list allows nothing (opt-in), and a missing executable
    // identity (elevated process, dead pid) never matches.
    assert!(!auto_source_matches(&config, Some("spotify.exe")));
    assert!(!auto_source_matches(&config_with_sources(&config, ["spotify"]), None));
}

fn config_with_sources<const N: usize>(base: &Config, sources: [&str; N]) -> Config {
    let mut config = base.clone();
    config.behavior.auto_compact_sources = sources.iter().map(|s| s.to_string()).collect();
    config
}

#[test]
fn names_fold_case_and_drop_what_is_no_letter_or_digit() {
    let folded: String = normalize_for_match("You-Tube MUSIC 2.0").into_iter().collect();
    assert_eq!(folded, "youtubemusic20");
    let accents: String = normalize_for_match("\u{c9}TUDE!").into_iter().collect();
    assert_eq!(accents, "\u{e9}tude");
    assert!(normalize_for_match(" .-_ ").is_empty());
}

#[test]
fn a_blank_source_in_the_list_matches_every_app() {
    let config = Config::default();
    assert!(auto_source_matches(&config_with_sources(&config, ["--"]), Some("spotify.exe")));
    assert!(auto_source_matches(&config_with_sources(&config, [""]), Some("spotify.exe")));
    assert!(!auto_source_matches(&config_with_sources(&config, [""]), None));
}

#[test]
fn defaults_are_the_documented_ones() {
    let config = Config::default();
    assert_eq!(sample_duration(&config), 3000);
    assert_eq!(animation_duration_with(&config, true), 400);
    assert_eq!(collapse_duration_with(&config, true), 320);
    assert_eq!(debounce_ms(&config), 200);
    assert_eq!(config.overlay.layout, LayoutMode::Expanded);
    assert_eq!(content_size(&config), Size { w: 340_000, h: 102_640 });
    assert_eq!(compact_size(&config), Size { w: 299_200, h: 50_900 });
}

#[test]
fn durations_are_clamped_to_what_the_settings_offer() {
    assert_eq!(clamp_duration(0), 500);
    assert_eq!(clamp_duration(4_321), 4_321);
    assert_eq!(clamp_duration(1_000_000), 60_000);
}
