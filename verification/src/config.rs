//! The overlay's configuration snapshot and the values derived from it.
//! Times are milliseconds; fractional lengths are thousandths of a logical
//! pixel.
use vstd::prelude::*;

verus! {

/// Shortest time a notification stays on screen.
pub const MIN_DURATION_MS: u64 = 500;

/// Longest configurable notification time.
pub const MAX_DURATION_MS: u64 = 60_000;

/// Longest extension a metadata refresh grants.
pub const REFRESH_EXTENSION_MS: u64 = 1_500;

/// How the pill is laid out.
#[derive(Clone, Copy, Debug, PartialEq, Eq, Structural)]
pub enum LayoutMode {
    Expanded,
    Compact,
    /// Compact over a fullscreen or listed foreground app, expanded otherwise.
    Auto,
    /// A compact pill that rests at idle opacity instead of collapsing.
    PersistentCompact,
}

/// Which display the pill targets.
#[derive(Clone, Copy, Debug, PartialEq, Eq, Structural)]
pub enum MonitorMode {
    ActiveWindow,
    Primary,
    Index(u32),
}

#[derive(Clone, Copy, Debug, PartialEq, Eq, Structural)]
pub enum HorizontalPosition {
    Left,
    Center,
    Right,
}

#[derive(Clone, Copy, Debug, PartialEq, Eq, Structural)]
pub enum VerticalPosition {
    Top,
    Bottom,
}

/// A color as red, green, blue and alpha bytes.
#[derive(Clone, Copy, Debug, PartialEq, Eq, Structural)]
pub struct Color {
    pub r: u8,
    pub g: u8,
    pub b: u8,
    pub a: u8,
}

/// The `[overlay]` section.
#[derive(Clone, Copy, Debug)]
pub struct OverlayConfig {
    pub layout: LayoutMode,
    pub duration_ms: u64,
    pub animation_ms: u64,
    pub max_tick_hz: Option<u32>,
    pub max_width: u32,
    pub vertical: VerticalPosition,
    pub horizontal: HorizontalPosition,
    pub margin: i32,
    pub position_x: Option<i32>,
    pub position_y: Option<i32>,
    pub monitor: MonitorMode,
    pub compact_position_separate: bool,
    pub compact_vertical: VerticalPosition,
    pub compact_horizontal: HorizontalPosition,
    pub compact_margin: i32,
    pub compact_position_x: Option<i32>,
    pub compact_position_y: Option<i32>,
    pub compact_monitor: MonitorMode,
    pub dismiss_on_hover: bool,
    pub expand_compact_on_hover: bool,
    pub fade_persistent_pill: bool,
}

/// The `[behavior]` section.
#[derive(Clone, Debug)]
pub struct BehaviorConfig {
    pub notifications_enabled: bool,
    pub enable_track_change: bool,
    pub enable_playback_state_change: bool,
    pub hide_for_auto_compact_sources: bool,
    pub auto_compact_sources: Vec<String>,
    pub pinned_source: Option<String>,
    pub debounce_ms: u64,
}

/// The `[appearance]` section. Lengths are thousandths of a logical pixel,
/// except the art tile, which is whole pixels.
#[derive(Clone, Copy, Debug)]
pub struct AppearanceConfig {
    pub background_color: Color,
    pub text_color: Color,
    pub accent_color: Color,
    pub art_size: u32,
    pub padding: u32,
    pub font_size_title: u32,
    pub font_size_artist: u32,
    pub corner_radius: u32,
    pub compact_corner_radius: u32,
}

/// The configuration snapshot the overlay works from.
#[derive(Clone, Debug)]
pub struct Config {
    pub overlay: OverlayConfig,
    pub behavior: BehaviorConfig,
    pub appearance: AppearanceConfig,
}

impl Default for OverlayConfig {
    fn default() -> (r: Self)
        ensures
            r.layout == LayoutMode::Expanded,
            r.duration_ms == 3_000,
            r.animation_ms == 400,
            r.max_tick_hz is None,
            r.max_width == 340,
            r.vertical == VerticalPosition::Bottom,
            r.horizontal == HorizontalPosition::Right,
            r.margin == 16,
            r.position_x is None,
            r.position_y is None,
            r.monitor == MonitorMode::ActiveWindow,
            !r.compact_position_separate,
            r.compact_vertical == VerticalPosition::Top,
            r.compact_horizontal == HorizontalPosition::Center,
            r.compact_margin == 16,
            r.compact_position_x is None,
            r.compact_position_y is None,
            r.compact_monitor == MonitorMode::ActiveWindow,
            r.dismiss_on_hover,
            r.expand_compact_on_hover,
            r.fade_persistent_pill,
    {
        OverlayConfig {
            layout: LayoutMode::Expanded,
            duration_ms: 3_000,
            animation_ms: 400,
            max_tick_hz: None,
            max_width: 340,
            vertical: VerticalPosition::Bottom,
            horizontal: HorizontalPosition::Right,
            margin: 16,
            position_x: None,
            position_y: None,
            monitor: MonitorMode::ActiveWindow,
            compact_position_separate: false,
            compact_vertical: VerticalPosition::Top,
            compact_horizontal: HorizontalPosition::Center,
            compact_margin: 16,
            compact_position_x: None,
            compact_position_y: None,
            compact_monitor: MonitorMode::ActiveWindow,
            dismiss_on_hover: true,
            expand_compact_on_hover: true,
            fade_persistent_pill: true,
        }
    }
}

impl Default for BehaviorConfig {
    fn default() -> (r: Self)
        ensures
            r.notifications_enabled,
            r.enable_track_change,
            r.enable_playback_state_change,
            r.hide_for_auto_compact_sources,
            r.auto_compact_sources@.len() == 0,
            r.pinned_source is None,
            r.debounce_ms == 200,
    {
        BehaviorConfig {
            notifications_enabled: true,
            enable_track_change: true,
            enable_playback_state_change: true,
            hide_for_auto_compact_sources: true,
            auto_compact_sources: Vec::new(),
            pinned_source: None,
            debounce_ms: 200,
        }
    }
}

impl Default for AppearanceConfig {
    fn default() -> (r: Self)
        ensures
            r.background_color == (Color { r: 0x12, g: 0x14, b: 0x1C, a: 0xEB }),
            r.text_color == (Color { r: 255, g: 255, b: 255, a: 255 }),
            r.accent_color == (Color { r: 255, g: 138, b: 101, a: 255 }),
            r.art_size == 48,
            r.padding == 16_000,
            r.font_size_title == 14_000,
            r.font_size_artist == 12_000,
            r.corner_radius == 26_000,
            r.compact_corner_radius == 12_000,
    {
        AppearanceConfig {
            background_color: Color { r: 0x12, g: 0x14, b: 0x1C, a: 0xEB },
            text_color: Color { r: 255, g: 255, b: 255, a: 255 },
            accent_color: Color { r: 255, g: 138, b: 101, a: 255 },
            art_size: 48,
            padding: 16_000,
            font_size_title: 14_000,
            font_size_artist: 12_000,
            corner_radius: 26_000,
            compact_corner_radius: 12_000,
        }
    }
}

impl Default for Config {
    fn default() -> (r: Self)
        ensures
            call_ensures(OverlayConfig::default, (), r.overlay),
            call_ensures(BehaviorConfig::default, (), r.behavior),
            call_ensures(AppearanceConfig::default, (), r.appearance),
    {
        Config {
            overlay: OverlayConfig::default(),
            behavior: BehaviorConfig::default(),
            appearance: AppearanceConfig::default(),
        }
    }
}

/// A resolved pill placement. `x`/`y` are absolute overrides in 96-DPI
/// logical pixels that take precedence over the anchors while set.
#[derive(Clone, Copy, Debug, PartialEq, Eq, Structural)]
pub struct OverlayPos {
    pub vertical: VerticalPosition,
    pub horizontal: HorizontalPosition,
    pub margin: i32,
    pub x: Option<i32>,
    pub y: Option<i32>,
    pub monitor: MonitorMode,
}

impl OverlayConfig {
    /// The expanded pill's placement.
    pub open spec fn expanded_pos(self) -> OverlayPos {
        OverlayPos {
            vertical: self.vertical,
            horizontal: self.horizontal,
            margin: self.margin,
            x: self.position_x,
            y: self.position_y,
            monitor: self.monitor,
        }
    }

    /// The compact pill's own placement fields.
    pub open spec fn own_compact_pos(self) -> OverlayPos {
        OverlayPos {
            vertical: self.compact_vertical,
            horizontal: self.compact_horizontal,
            margin: self.compact_margin,
            x: self.compact_position_x,
            y: self.compact_position_y,
            monitor: self.compact_monitor,
        }
    }

    /// The compact pill's placement: its own fields while the positions are
    /// separated, exactly the expanded placement otherwise.
    pub fn compact_effective(&self) -> (r: OverlayPos)
        ensures
            self.compact_position_separate ==> r == self.own_compact_pos(),
            !self.compact_position_separate ==> r == self.expanded_pos(),
    {
        if self.compact_position_separate {
            OverlayPos {
                vertical: self.compact_vertical,
                horizontal: self.compact_horizontal,
                margin: self.compact_margin,
                x: self.compact_position_x,
                y: self.compact_position_y,
                monitor: self.compact_monitor,
            }
        } else {
            OverlayPos {
                vertical: self.vertical,
                horizontal: self.horizontal,
                margin: self.margin,
                x: self.position_x,
                y: self.position_y,
                monitor: self.monitor,
            }
        }
    }
}

impl OverlayPos {
    /// The expanded pill's placement from the configuration.
    pub fn from_config(config: &Config) -> (r: Self)
        ensures
            r == config.overlay.expanded_pos(),
    {
        OverlayPos {
            vertical: config.overlay.vertical,
            horizontal: config.overlay.horizontal,
            margin: config.overlay.margin,
            x: config.overlay.position_x,
            y: config.overlay.position_y,
            monitor: config.overlay.monitor,
        }
    }

    /// The compact pill's placement from the configuration.
    pub fn compact_from_config(config: &Config) -> (r: Self)
        ensures
            config.overlay.compact_position_separate ==> r == config.overlay.own_compact_pos(),
            !config.overlay.compact_position_separate ==> r == config.overlay.expanded_pos(),
    {
        config.overlay.compact_effective()
    }
}

/// The full notification time: the configured duration, at least half a
/// second.
pub open spec fn full_duration(config: Config) -> u64 {
    if config.overlay.duration_ms < MIN_DURATION_MS {
        MIN_DURATION_MS
    } else {
        config.overlay.duration_ms
    }
}

/// How long the sample preview stays visible, in milliseconds: the
/// configured duration with the floor of a real notification.
pub fn sample_duration(config: &Config) -> (r: u64)
    ensures
        r == full_duration(*config),
{
    if config.overlay.duration_ms < MIN_DURATION_MS {
        MIN_DURATION_MS
    } else {
        config.overlay.duration_ms
    }
}

/// The extension granted to a metadata refresh: a short fixed time, capped
/// at the configured duration.
pub open spec fn refresh_duration(config: Config) -> u64 {
    if config.overlay.duration_ms < REFRESH_EXTENSION_MS {
        config.overlay.duration_ms
    } else {
        REFRESH_EXTENSION_MS
    }
}

/// Minimum visible time granted to a metadata refresh, in milliseconds.
pub fn update_min_duration(config: &Config) -> (r: u64)
    ensures
        r == refresh_duration(*config),
{
    if config.overlay.duration_ms < REFRESH_EXTENSION_MS {
        config.overlay.duration_ms
    } else {
        REFRESH_EXTENSION_MS
    }
}

/// `duration_ms` brought into the configurable range.
pub open spec fn clamped_duration(duration_ms: u64) -> u64 {
    if duration_ms < MIN_DURATION_MS {
        MIN_DURATION_MS
    } else if duration_ms > MAX_DURATION_MS {
        MAX_DURATION_MS
    } else {
        duration_ms
    }
}

/// Brings a pushed duration into the configurable range.
pub fn clamp_duration(duration_ms: u64) -> (r: u64)
    ensures
        r == clamped_duration(duration_ms),
{
    if duration_ms < MIN_DURATION_MS {
        MIN_DURATION_MS
    } else if duration_ms > MAX_DURATION_MS {
        MAX_DURATION_MS
    } else {
        duration_ms
    }
}

/// The debounce interval armed for queued notifications, in milliseconds.
pub open spec fn debounce_interval(config: Config) -> u32 {
    if config.behavior.debounce_ms < 150 {
        150
    } else if config.behavior.debounce_ms > 250 {
        250
    } else {
        config.behavior.debounce_ms as u32
    }
}

/// The debounce interval: the configured value within 150..=250 ms.
pub fn debounce_ms(config: &Config) -> (r: u32)
    ensures
        r == debounce_interval(*config),
{
    if config.behavior.debounce_ms < 150 {
        150
    } else if config.behavior.debounce_ms > 250 {
        250
    } else {
        config.behavior.debounce_ms as u32
    }
}

/// The entrance animation's length, in milliseconds: nothing while system
/// preferences disallow motion.
pub open spec fn entrance_ms(config: Config, animations: bool) -> u64 {
    if animations {
        config.overlay.animation_ms
    } else {
        0
    }
}

/// The entrance animation's length under the given motion preference.
pub fn animation_duration_with(config: &Config, animations: bool) -> (r: u64)
    ensures
        r == entrance_ms(*config, animations),
{
    if animations {
        config.overlay.animation_ms
    } else {
        0
    }
}

/// The exit animation's length, in milliseconds: four fifths of the entrance.
pub open spec fn exit_ms(config: Config, animations: bool) -> u64 {
    ((entrance_ms(config, animations) as int) * 4 / 5) as u64
}

/// The exit animation's length under the given motion preference.
pub fn collapse_duration_with(config: &Config, animations: bool) -> (r: u64)
    ensures
        r == exit_ms(*config, animations),
        r <= entrance_ms(*config, animations),
{
    let full: u64 = animation_duration_with(config, animations);
    ((full as u128) * 4 / 5) as u64
}

/// The time `ms` after `at`.
pub open spec fn later(at: u64, ms: u64) -> u64 {
    if at + ms > u64::MAX {
        u64::MAX
    } else {
        (at + ms) as u64
    }
}

/// The time `ms` after `at`; the clock's last instant where that overflows.
pub fn after(at: u64, ms: u64) -> (r: u64)
    ensures
        r == later(at, ms),
{
    at.saturating_add(ms)
}

/// The time from `at` to `now`; zero where `at` is still to come.
pub open spec fn since(at: u64, now: u64) -> u64 {
    if now >= at {
        (now - at) as u64
    } else {
        0
    }
}

/// The time elapsed from `at` to `now`.
pub fn elapsed(at: u64, now: u64) -> (r: u64)
    ensures
        r == since(at, now),
{
    now.saturating_sub(at)
}

/// A notification stays for its configured time, but never under half a
/// second.
pub proof fn law_notification_time_has_a_floor(config: Config)
    ensures
        full_duration(config) >= 500,
        full_duration(config) >= config.overlay.duration_ms,
        full_duration(config) == 500 || full_duration(config) == config.overlay.duration_ms,
{
}

/// A refresh never asks for more than a second and a half, nor for more than
/// a notification's own time, and for no less than the smaller of the two.
pub proof fn law_refresh_time_has_a_ceiling(config: Config)
    ensures
        refresh_duration(config) <= 1_500,
        refresh_duration(config) <= config.overlay.duration_ms,
        refresh_duration(config) == 1_500 || refresh_duration(config) == config.overlay.duration_ms,
        refresh_duration(config) <= full_duration(config),
{
}

/// A pushed duration ends up between half a second and a minute, and one that
/// lies there already is left as it is.
pub proof fn law_pushed_duration_is_brought_into_range(duration_ms: u64)
    ensures
        500 <= clamped_duration(duration_ms) <= 60_000,
        500 <= duration_ms <= 60_000 ==> clamped_duration(duration_ms) == duration_ms,
        duration_ms < 500 ==> clamped_duration(duration_ms) == 500,
        duration_ms > 60_000 ==> clamped_duration(duration_ms) == 60_000,
{
}

/// The debounce stays between 150 and 250 ms, and follows the configured time
/// there.
pub proof fn law_debounce_is_brought_into_range(config: Config)
    ensures
        150 <= debounce_interval(config) <= 250,
        150 <= config.behavior.debounce_ms <= 250 ==> debounce_interval(config) == config.behavior.debounce_ms,
        config.behavior.debounce_ms < 150 ==> debounce_interval(config) == 150,
        config.behavior.debounce_ms > 250 ==> debounce_interval(config) == 250,
{
}

/// Without motion both animations take no time. With it the entrance takes
/// the configured time and the exit four fifths of that, to the millisecond.
pub proof fn law_exit_takes_four_fifths_of_the_entrance(config: Config)
    ensures
        entrance_ms(config, false) == 0,
        exit_ms(config, false) == 0,
        entrance_ms(config, true) == config.overlay.animation_ms,
        5 * exit_ms(config, true) <= 4 * config.overlay.animation_ms,
        4 * config.overlay.animation_ms < 5 * (exit_ms(config, true) + 1),
{
}

/// Time is counted forward from its start: what is a while later is that
/// while away, and what has not begun is no time away. The clock stops at its
/// last instant.
pub proof fn law_elapsed_time_undoes_a_delay(at: u64, ms: u64, now: u64)
    ensures
        at + ms <= u64::MAX ==> later(at, ms) == at + ms && since(at, later(at, ms)) == ms,
        at + ms > u64::MAX ==> later(at, ms) == u64::MAX,
        now >= at ==> at + since(at, now) == now,
        now < at ==> since(at, now) == 0,
{
}

/// The expanded placement is made of the plain placement fields, the compact
/// pill's own one of the compact fields, each in its place.
pub proof fn law_placements_read_their_own_fields(o: OverlayConfig)
    ensures
        o.expanded_pos().horizontal == o.horizontal,
        o.expanded_pos().vertical == o.vertical,
        o.expanded_pos().margin == o.margin,
        o.expanded_pos().x == o.position_x,
        o.expanded_pos().y == o.position_y,
        o.expanded_pos().monitor == o.monitor,
        o.own_compact_pos().horizontal == o.compact_horizontal,
        o.own_compact_pos().vertical == o.compact_vertical,
        o.own_compact_pos().margin == o.compact_margin,
        o.own_compact_pos().x == o.compact_position_x,
        o.own_compact_pos().y == o.compact_position_y,
        o.own_compact_pos().monitor == o.compact_monitor,
{
}

} // verus!
