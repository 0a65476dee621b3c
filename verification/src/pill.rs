//! The pill as a mathematical state, and what every event, tick and setting
//! makes of it. The executable overlay is held to these definitions.
use crate::config::{
    debounce_interval, entrance_ms, exit_ms, full_duration, later, refresh_duration, since, Config, LayoutMode,
    OverlayPos,
};
use crate::events::{
    is_playing, is_state_of, is_tombstone, is_track_of, source_of_held, MediaEvent, Palette, PlaybackState, TrackInfo,
};
use crate::fullscreen::{decided_layout, listed, Rect, TargetMonitor};
use crate::hover::{
    engaged, expand_finishes, settled, step, HoverExpand, HoverStep, HoverTick, MorphDirection, REVERSAL_MIN_PROGRESS,
};
use crate::ledger::{cached, other_sources, pinned, remembered, successor, track_for, LedgerEntry};
use crate::progress::Progress;
use crate::queue::{enqueued, others_waiting, track_waiting};
use crate::text::{optional_text, pin_matches, trimmed};
use std::sync::Arc;
use vstd::prelude::*;

verus! {

/// The remaining time granted once something newer wants the screen.
pub const EARLY_EXIT_MS: u64 = 500;

/// Length of the quick opacity reveal.
pub const LIGHT_MS: u64 = 120;

/// Length of the idle-fade ramp.
pub const FADE_MS: u64 = 300;

/// Length of an in-place content dissolve.
pub const CONTENT_FADE_MS: u64 = 200;

/// Tick period of a fully static pill.
pub const STATIC_TICK_MS: u32 = 250;

/// Tick period of the auto-hide watchdog.
pub const WATCHDOG_TICK_MS: u32 = 1000;

/// Age at which window state, geometry and refresh rate are read anew.
pub const RECHECK_MS: u64 = 1000;

/// Hold before an overflowing line starts to scroll.
pub const MARQUEE_HOLD_MS: u64 = 600;

/// Marquee speed in logical pixels per second.
pub const MARQUEE_SPEED: u64 = 40;

/// Longest time step a marquee advances at once.
pub const MAX_STEP_MS: u64 = 50;

/// Where the pill is in its life. The time is the phase's start.
#[derive(Clone, Copy, Debug, PartialEq, Eq, Structural)]
pub enum Phase {
    Hidden,
    Expanding(u64),
    Light(u64),
    Shown,
    Collapsing(u64),
}

/// The scroll state of one text line. Offsets are 1/96000 of a pixel.
#[derive(Clone, Copy, Debug, PartialEq, Eq, Structural)]
pub struct LineScroll {
    pub offset: u64,
    pub started_at: Option<u64>,
    /// Whether the last frame overflowed this line.
    pub scrolling: bool,
}

/// The scroll state of the four track lines.
#[derive(Clone, Copy, Debug, PartialEq, Eq, Structural)]
pub struct Marquee {
    pub title: LineScroll,
    pub subtitle: LineScroll,
    pub meta: LineScroll,
    pub app: LineScroll,
}

/// A content dissolve in flight: when it started, and the size of the frame
/// it dissolves from.
#[derive(Clone, Copy, Debug, PartialEq, Eq, Structural)]
pub struct ContentFade {
    pub start: u64,
    pub from_w: u32,
    pub from_h: u32,
}

/// The text pieces of the pill on screen.
#[derive(Debug)]
pub struct PillText {
    pub title: String,
    pub artist: String,
    pub source_app: String,
    pub app_icon: Option<Arc<Vec<u8>>>,
}

/// A refresh period and when it was read.
#[derive(Clone, Copy, Debug, PartialEq, Eq, Structural)]
pub struct PeriodSample {
    pub at: u64,
    pub period: u32,
}

/// What the window layer is to do, in order.
#[derive(Clone, Copy, Debug, PartialEq, Eq, Structural)]
pub enum Effect {
    /// Draw the pill.
    Render,
    /// Move the window to its resolved position.
    Reposition,
    ShowWindow,
    HideWindow,
    /// Make the window visible and topmost again.
    ReassertTopmost,
    StartDebounce(u32),
    StopDebounce,
    StartIdleRelease,
    StopIdleRelease,
    /// Arm the animation timer with a period in ms.
    ArmTimer(u32),
    DropTimer,
    /// Announce the new accessible name.
    AnnounceName,
    /// Give the frame buffers back.
    ReleaseBuffers,
}

/// What the system reports at the moment of an event.
#[derive(Debug)]
pub struct Env {
    /// The monotonic clock in ms.
    pub now: u64,
    /// The foreground window's handle.
    pub foreground: u64,
    /// The foreground window's executable, where it could be read.
    pub exe: Option<String>,
    /// Whether the foreground window covers its own monitor.
    pub fullscreen: bool,
    /// Whether system preferences allow motion.
    pub animations: bool,
    /// The target's refresh period in ms.
    pub refresh_period: u32,
    /// The resolved target display.
    pub target: Option<TargetMonitor>,
    /// The target's effective DPI.
    pub target_dpi: u32,
    /// Whether a fullscreen foreground window covers the target display.
    pub target_covered: bool,
}

/// The progress and velocity of an expand leg at the moment it is reversed,
/// in millionths of the collapse leg.
#[derive(Clone, Copy, Debug, PartialEq, Eq, Structural)]
pub struct Reversal {
    pub from: i64,
    pub velocity: i64,
}

/// What the cursor did to the pill.
#[derive(Clone, Copy, Debug, PartialEq, Eq, Structural)]
pub struct Hover {
    /// When a hover armed the dismissal.
    pub dismiss_at: Option<u64>,
    /// The morph of a compact pill, in flight or pinned.
    pub expand: Option<HoverExpand>,
    /// Whether the pill already expanded during this showing.
    pub expanded_once: bool,
    /// When the cursor left the pill.
    pub leave_at: Option<u64>,
    /// Whether the cursor was on the pill at the last tick.
    pub cursor_over: bool,
}

/// How a persistent pill rests.
#[derive(Clone, Copy, Debug, PartialEq, Eq, Structural)]
pub struct Rest {
    /// Whether it rests at idle opacity.
    pub faded: bool,
    /// Whether it hides at its deadline instead of resting.
    pub collapse_on_dismiss: bool,
    /// Whether a coarse timer polls the foreground for a hidden pill.
    pub watchdog: bool,
}

/// What is drawn of the content.
#[derive(Debug)]
pub struct Look {
    /// The palette that the content's track carries.
    pub content_palette: Option<Palette>,
    /// Changes with every content swap.
    pub content_rev: u64,
    pub text: Option<PillText>,
    /// The content dissolve in flight.
    pub fade: Option<ContentFade>,
    pub scroll: Marquee,
    /// The converted cover.
    pub art: Option<Arc<Vec<u8>>>,
    /// The pixels that the cover was converted from.
    pub art_source: Option<Arc<Vec<u8>>>,
    pub palette: Option<Palette>,
}

/// The last painted frame.
#[derive(Clone, Copy, Debug, PartialEq, Eq, Structural)]
pub struct Frame {
    /// Whether its pixels are at hand to dissolve from.
    pub has_frame: bool,
    pub w: u32,
    pub h: u32,
    /// The DPI that the fonts were built for; 0 before the first frame.
    pub fonts_dpi: u32,
    /// Physical pixels from the window edge to the pill body.
    pub aura_inset: i32,
}

/// Where the pill sits and how it is laid out.
#[derive(Clone, Copy, Debug, PartialEq, Eq, Structural)]
pub struct Place {
    pub expanded: OverlayPos,
    pub compact: OverlayPos,
    /// The layout applied to the current pill.
    pub layout: LayoutMode,
    /// The rectangle it was last anchored against.
    pub anchor_edge: Option<Rect>,
}

/// What was last seen of the foreground.
#[derive(Debug)]
pub struct Foreground {
    /// The window that `exe` belongs to.
    pub window: Option<u64>,
    pub exe: Option<String>,
    pub geometry_check: Option<u64>,
    pub fullscreen: Option<bool>,
}

/// The animation timer.
#[derive(Clone, Copy, Debug, PartialEq, Eq, Structural)]
pub struct Timer {
    pub armed: bool,
    /// The tick period in ms.
    pub period: u32,
    pub period_cache: Option<PeriodSample>,
    pub last_tick: u64,
    pub last_reassert: Option<u64>,
}

/// The overlay's state as mathematics.
pub struct Pill {
    pub config: Config,
    pub pending: Seq<MediaEvent>,
    pub enabled: bool,
    pub content: Option<MediaEvent>,
    pub held_content: Option<MediaEvent>,
    pub last_track: Option<TrackInfo>,
    pub current_source: Option<String>,
    pub now_showing: Option<String>,
    pub phase: Phase,
    pub dismiss_at: Option<u64>,
    pub hover: Hover,
    pub rest: Rest,
    pub look: Look,
    pub frame: Frame,
    pub place: Place,
    pub fg: Foreground,
    pub timer: Timer,
    pub progress: Progress,
    pub pill_name: Option<Seq<char>>,
    pub track_cache: Seq<TrackInfo>,
    pub source_state: Seq<LedgerEntry>,
    pub effects: Seq<Effect>,
}

/// The text of a track pill.
pub open spec fn text_of(track: TrackInfo) -> PillText {
    PillText {
        title: track.title,
        artist: track.artist,
        source_app: track.source_app,
        app_icon: track.app_icon,
    }
}

/// Title and artist with a dash between them, without the empty parts.
pub open spec fn joined_name(title: Seq<char>, artist: Seq<char>) -> Seq<char> {
    if title.len() > 0 && artist.len() > 0 {
        title + " \u{2014} "@ + artist
    } else if title.len() > 0 {
        title
    } else {
        artist
    }
}

/// The accessible name of a pill text: what the pill shows, then its source
/// in parentheses; the source alone where nothing else is shown.
pub open spec fn spoken_name(text: PillText) -> Seq<char> {
    let name = joined_name(trimmed(text.title@), trimmed(text.artist@));
    let source = trimmed(text.source_app@);
    if name.len() == 0 {
        text.source_app@
    } else if source.len() > 0 {
        name + " ("@ + source + ")"@
    } else {
        name
    }
}

/// The text that content resolves to: a track pill's own, a state pill's from
/// the remembered track of its source.
pub open spec fn resolved_text(content: Option<MediaEvent>, cache: Seq<TrackInfo>) -> Option<PillText> {
    match content {
        Some(MediaEvent::TrackChanged(track)) => Some(text_of(track)),
        Some(MediaEvent::PlaybackStateChanged(_, source)) => if source@.len() > 0 {
            match track_for(cache, source@) {
                Some(track) => Some(text_of(track)),
                None => None,
            }
        } else {
            None
        },
        _ => None,
    }
}

/// The accessible name that content resolves to. A state pill without a
/// remembered track names its source.
pub open spec fn resolved_name(content: Option<MediaEvent>, cache: Seq<TrackInfo>) -> Option<Seq<char>> {
    match resolved_text(content, cache) {
        Some(text) => Some(spoken_name(text)),
        None => match content {
            Some(MediaEvent::PlaybackStateChanged(_, source)) => if trimmed(source@).len() > 0 {
                Some(trimmed(source@))
            } else {
                None
            },
            _ => None,
        },
    }
}

/// Whether a new name is announced: only a track change is.
pub open spec fn announces(content: Option<MediaEvent>) -> bool {
    content matches Some(MediaEvent::TrackChanged(_))
}

/// The palette that content carries.
pub open spec fn palette_of(content: Option<MediaEvent>) -> Option<Palette> {
    match content {
        Some(MediaEvent::TrackChanged(track)) => track.palette,
        _ => None,
    }
}

/// The source published for content: its own, where it has one.
pub open spec fn published(content: Option<MediaEvent>, before: Option<String>) -> Option<String> {
    match content {
        Some(MediaEvent::TrackChanged(track)) => Some(track.source_app),
        Some(MediaEvent::PlaybackStateChanged(_, source)) => if source@.len() > 0 {
            Some(source)
        } else {
            before
        },
        _ => before,
    }
}

/// The sooner of a deadline and `early`.
pub open spec fn sooner(deadline: Option<u64>, early: u64) -> u64 {
    match deadline {
        Some(d) => if d < early {
            d
        } else {
            early
        },
        None => early,
    }
}

/// Whether a deadline has come.
pub open spec fn due(deadline: Option<u64>, now: u64) -> bool {
    deadline matches Some(d) && d <= now
}

/// Whether a reading is missing or has reached the re-check age.
pub open spec fn aged(at: Option<u64>, now: u64) -> bool {
    match at {
        Some(t) => since(t, now) >= RECHECK_MS,
        None => true,
    }
}

/// A line at the start of its hold.
pub open spec fn line_at_rest(now: u64) -> LineScroll {
    LineScroll { offset: 0, started_at: Some(now), scrolling: false }
}

/// All lines at the start of their hold.
pub open spec fn lines_at_rest(now: u64) -> Marquee {
    Marquee { title: line_at_rest(now), subtitle: line_at_rest(now), meta: line_at_rest(now), app: line_at_rest(now) }
}

/// Whether any line scrolls.
pub open spec fn scrolls(m: Marquee) -> bool {
    m.title.scrolling || m.subtitle.scrolling || m.meta.scrolling || m.app.scrolling
}

/// A line after one time step: past its hold it moves on.
pub open spec fn advanced_line(line: LineScroll, by: u64, now: u64) -> LineScroll {
    match line.started_at {
        Some(t) => if since(t, now) >= MARQUEE_HOLD_MS {
            LineScroll { offset: later(line.offset, by), ..line }
        } else {
            line
        },
        None => line,
    }
}

/// All lines after one time step.
pub open spec fn advanced_lines(m: Marquee, by: u64, now: u64) -> Marquee {
    Marquee {
        title: advanced_line(m.title, by, now),
        subtitle: advanced_line(m.subtitle, by, now),
        meta: advanced_line(m.meta, by, now),
        app: advanced_line(m.app, by, now),
    }
}

/// How far a line moves in a time step at the given DPI.
pub open spec fn scroll_step(dpi: u32, dt: u64) -> int {
    MARQUEE_SPEED * dpi * dt
}

/// The repaint period in ms that the configured rate cap allows.
pub open spec fn cap_period(config: Config) -> u32 {
    let hz = match config.overlay.max_tick_hz {
        Some(h) => h,
        None => 60,
    };
    if hz < 60 {
        16
    } else if hz > 1000 {
        1
    } else {
        (1000int / hz as int) as u32
    }
}

/// A moving pill's tick period: the display's, no shorter than the cap's, and
/// within 1..=100 ms.
pub open spec fn moving_period(raw: u32, config: Config) -> u32 {
    let p = if raw < cap_period(config) {
        cap_period(config)
    } else {
        raw
    };
    if p < 1 {
        1
    } else if p > 100 {
        100
    } else {
        p
    }
}

impl Pill {
    /// The state before anything happened.
    pub open spec fn initial(config: Config, expanded: OverlayPos, compact: OverlayPos, now: u64) -> Pill {
        let line = LineScroll { offset: 0, started_at: None, scrolling: false };
        Pill {
            config,
            pending: Seq::empty(),
            enabled: config.behavior.notifications_enabled,
            content: None,
            held_content: None,
            last_track: None,
            current_source: None,
            now_showing: None,
            phase: Phase::Hidden,
            dismiss_at: None,
            hover: Hover {
                dismiss_at: None,
                expand: None,
                expanded_once: false,
                leave_at: None,
                cursor_over: false,
            },
            rest: Rest { faded: false, collapse_on_dismiss: false, watchdog: false },
            look: Look {
                content_palette: None,
                content_rev: 0,
                text: None,
                fade: None,
                scroll: Marquee { title: line, subtitle: line, meta: line, app: line },
                art: None,
                art_source: None,
                palette: None,
            },
            frame: Frame { has_frame: false, w: 0, h: 0, fonts_dpi: 0, aura_inset: 0 },
            place: Place { expanded, compact, layout: LayoutMode::Expanded, anchor_edge: None },
            fg: Foreground { window: None, exe: None, geometry_check: None, fullscreen: None },
            timer: Timer { armed: false, period: 16, period_cache: None, last_tick: now, last_reassert: None },
            progress: Progress::none(),
            pill_name: None,
            track_cache: Seq::empty(),
            source_state: Seq::empty(),
            effects: Seq::empty(),
        }
    }

    /// One more thing for the window layer to do.
    pub open spec fn emit(self, effect: Effect) -> Pill {
        Pill { effects: self.effects.push(effect), ..self }
    }

    /// Whether the pill is off the screen.
    pub open spec fn is_hidden(self) -> bool {
        self.phase == Phase::Hidden
    }

    /// Whether the pill is on its way out.
    pub open spec fn is_collapsing(self) -> bool {
        self.phase is Collapsing
    }

    /// Whether the configured layout is the persistent one.
    pub open spec fn persistent(self) -> bool {
        self.config.overlay.layout == LayoutMode::PersistentCompact
    }

    /// Hidden for a fullscreen or listed foreground, with content held for
    /// the resume.
    pub open spec fn auto_hidden(self) -> bool {
        self.persistent() && self.is_hidden() && self.held_content is Some
    }

    /// A persistent pill on screen or auto-hidden.
    pub open spec fn active(self) -> bool {
        self.persistent() && (!self.is_hidden() || self.auto_hidden())
    }

    /// A persistent pill before its first show.
    pub open spec fn before_first_show(self) -> bool {
        self.persistent() && self.is_hidden() && self.held_content is None
    }

    /// Whether the idle-fade ramp is running.
    pub open spec fn fade_running(self, now: u64) -> bool {
        &&& self.persistent()
        &&& self.config.overlay.fade_persistent_pill
        &&& self.rest.faded
        &&& !self.rest.collapse_on_dismiss
        &&& self.dismiss_at matches Some(d) && since(d, now) < FADE_MS
    }

    /// Whether a hover-expanded pill is held by the cursor.
    pub open spec fn is_held(self, now: u64) -> bool {
        engaged(self.hover.cursor_over, self.hover.leave_at, now) && self.hover.expand is Some
    }

    // ---- foreground and layout ----

    /// The foreground executable: read anew only for a new window.
    pub open spec fn foreground_exe(self, env: Env) -> Option<String> {
        if self.fg.window == Some(env.foreground) {
            self.fg.exe
        } else {
            env.exe
        }
    }

    /// After the foreground was sampled.
    pub open spec fn sampled(self, env: Env) -> Pill {
        Pill {
            fg: Foreground {
                window: Some(env.foreground),
                exe: self.foreground_exe(env),
                fullscreen: Some(env.fullscreen),
                ..self.fg
            },
            ..self
        }
    }

    /// Whether the foreground is one the persistent pill hides for.
    pub open spec fn hides_for(self, env: Env) -> bool {
        env.fullscreen || listed(self.config, optional_text(self.foreground_exe(env)))
    }

    /// After the layout was decided anew from the foreground.
    #[verifier::opaque]
    pub open spec fn relaid(self, env: Env) -> Pill {
        let s = self.sampled(env);
        Pill {
            place: Place {
                layout: decided_layout(s.config, optional_text(s.fg.exe), env.fullscreen),
                ..s.place
            },
            ..s
        }
    }

    // ---- animation timer ----

    /// Whether the pill needs frames: it moves, morphs, dissolves or fades.
    pub open spec fn in_motion(self, now: u64) -> bool {
        self.phase != Phase::Shown || self.hover.expand is Some || self.look.fade is Some || self.fade_running(now)
    }

    /// Whether the pill needs the display's frame rate.
    pub open spec fn needs_frames(self, now: u64) -> bool {
        self.in_motion(now) || scrolls(self.look.scroll)
    }

    /// Whether the remembered refresh period is still good.
    pub open spec fn period_known(self, now: u64) -> bool {
        self.timer.period_cache matches Some(c) && since(c.at, now) < RECHECK_MS
    }

    /// The period cache after a synchronisation.
    #[verifier::opaque]
    pub open spec fn period_after(self, env: Env) -> Option<PeriodSample> {
        if self.needs_frames(env.now) && !self.period_known(env.now) {
            Some(PeriodSample { at: env.now, period: env.refresh_period })
        } else {
            self.timer.period_cache
        }
    }

    /// The tick period that the pill's motion asks for.
    #[verifier::opaque]
    pub open spec fn wanted_period(self, env: Env) -> u32 {
        if self.needs_frames(env.now) {
            moving_period(
                if self.period_known(env.now) {
                    self.timer.period_cache->0.period
                } else {
                    env.refresh_period
                },
                self.config,
            )
        } else {
            STATIC_TICK_MS
        }
    }

    /// Without a running timer.
    #[verifier::opaque]
    pub open spec fn without_timer(self) -> Pill {
        if self.timer.armed {
            Pill { timer: Timer { armed: false, ..self.timer }, ..self }.emit(Effect::DropTimer)
        } else {
            self
        }
    }

    /// With a running timer.
    #[verifier::opaque]
    pub open spec fn with_timer(self) -> Pill {
        if self.timer.armed {
            self
        } else {
            Pill { timer: Timer { armed: true, ..self.timer }, ..self }.emit(Effect::ArmTimer(self.timer.period))
        }
    }

    /// After the timer was brought in step with the pill's motion.
    #[verifier::opaque]
    pub open spec fn synced(self, env: Env) -> Pill {
        let p = self.wanted_period(env);
        let s = Pill { timer: Timer { period_cache: self.period_after(env), ..self.timer }, ..self };
        if p != self.timer.period {
            Pill { timer: Timer { period: p, ..s.timer }, ..s }.without_timer().with_timer()
        } else {
            s.with_timer()
        }
    }

    // ---- content ----

    /// After a draw was asked for.
    #[verifier::opaque]
    pub open spec fn rendered(self) -> Pill {
        if self.content is Some {
            self.emit(Effect::Render)
        } else {
            self
        }
    }

    /// After the text and the accessible name were resolved.
    #[verifier::opaque]
    pub open spec fn with_text(self) -> Pill {
        let name = resolved_name(self.content, self.track_cache);
        let s = Pill {
            pill_name: name,
            look: Look { text: resolved_text(self.content, self.track_cache), ..self.look },
            ..self
        };
        if name != self.pill_name && announces(self.content) {
            s.emit(Effect::AnnounceName)
        } else {
            s
        }
    }

    /// After the content was replaced: revision, published source, palette,
    /// text and scroll state follow it.
    #[verifier::opaque]
    pub open spec fn with_content(self, event: MediaEvent, now: u64) -> Pill {
        let s = Pill {
            content: Some(event),
            now_showing: published(Some(event), self.now_showing),
            look: Look {
                content_rev: bumped(self.look.content_rev),
                content_palette: palette_of(Some(event)),
                ..self.look
            },
            ..self
        }.with_text();
        Pill { look: Look { scroll: lines_at_rest(now), ..s.look }, ..s }
    }

    /// After the progress was re-based from content that is a track.
    #[verifier::opaque]
    pub open spec fn with_progress_of(self, event: MediaEvent, now: u64) -> Pill {
        match event {
            MediaEvent::TrackChanged(track) => Pill { progress: self.progress.rebased(track, now), ..self },
            _ => self,
        }
    }

    /// Whether a shown pill collapses into a full hide at its deadline: a
    /// persistent pill over a foreground it hides for.
    #[verifier::opaque]
    pub open spec fn with_collapse_flag(self, event: MediaEvent, env: Env) -> Pill {
        if self.persistent() && self.config.behavior.hide_for_auto_compact_sources {
            let flag = self.hides_for(env);
            let s = self.sampled(env);
            Pill {
                held_content: if flag {
                    Some(event)
                } else {
                    s.held_content
                },
                rest: Rest { collapse_on_dismiss: flag, ..s.rest },
                ..s
            }
        } else {
            self
        }
    }

    /// After a fresh pill was shown for `duration_ms`. Nothing is shown while
    /// notifications are off.
    #[verifier::opaque]
    pub open spec fn shown_for(self, event: MediaEvent, full_animation: bool, duration_ms: u64, env: Env) -> Pill {
        if !self.enabled {
            self
        } else {
            let s = Pill {
                rest: Rest { watchdog: false, ..self.rest },
                ..self
            }.relaid(env).with_collapse_flag(event, env).emit(
                Effect::StopIdleRelease,
            ).with_progress_of(event, env.now).with_content(event, env.now);
            Pill {
                dismiss_at: Some(later(env.now, duration_ms)),
                phase: if full_animation {
                    Phase::Expanding(env.now)
                } else {
                    Phase::Light(env.now)
                },
                hover: Hover {
                    dismiss_at: None,
                    expand: None,
                    expanded_once: false,
                    leave_at: None,
                    ..s.hover
                },
                rest: Rest { faded: false, ..s.rest },
                look: Look { fade: None, ..s.look },
                ..s
            }.synced(env).emit(Effect::ShowWindow).rendered()
        }
    }

    /// After a fresh pill was shown for its full duration.
    #[verifier::opaque]
    pub open spec fn shown(self, event: MediaEvent, full_animation: bool, env: Env) -> Pill {
        self.shown_for(event, full_animation, full_duration(self.config), env)
    }

    /// After a content swap started to dissolve, or not: only a fully static
    /// pill with a frame dissolves, and only while motion is allowed.
    #[verifier::opaque]
    pub open spec fn with_dissolve(self, env: Env) -> Pill {
        if self.phase == Phase::Shown && self.hover.expand is None && self.frame.has_frame && env.animations {
            Pill {
                frame: Frame { has_frame: false, ..self.frame },
                look: Look {
                    fade: Some(ContentFade { start: env.now, from_w: self.frame.w, from_h: self.frame.h }),
                    ..self.look
                },
                ..self
            }.synced(env)
        } else {
            Pill { look: Look { fade: None, ..self.look }, ..self }
        }
    }

    /// After the content was refreshed in place, to stay for at least
    /// `min_visible` ms. An auto-hidden pill surfaces instead.
    #[verifier::opaque]
    pub open spec fn updated(self, event: MediaEvent, min_visible: u64, env: Env) -> Pill {
        if self.auto_hidden() {
            self.shown(event, event is TrackChanged, env)
        } else {
            let a = self.relaid(env).with_dissolve(env).with_progress_of(event, env.now);
            let b = if a.rest.collapse_on_dismiss {
                Pill { held_content: Some(event), ..a }
            } else {
                a
            };
            let c = b.with_content(event, env.now);
            Pill {
                dismiss_at: match c.dismiss_at {
                    Some(d) => Some(if d < later(env.now, min_visible) { later(env.now, min_visible) } else { d }),
                    None => None,
                },
                phase: if c.is_collapsing() {
                    Phase::Expanding(env.now)
                } else {
                    c.phase
                },
                rest: Rest {
                    faded: if c.persistent() {
                        false
                    } else {
                        c.rest.faded
                    },
                    ..c.rest
                },
                ..c
            }.rendered()
        }
    }

    /// After a track became the one to show: current source, last track and
    /// cache follow it.
    #[verifier::opaque]
    pub open spec fn adopted(self, track: TrackInfo) -> Pill {
        Pill {
            current_source: Some(track.source_app),
            last_track: Some(track),
            track_cache: cached(self.track_cache, track),
            ..self
        }
    }

    /// After the pill swapped to a track for its full duration.
    #[verifier::opaque]
    pub open spec fn swapped_to(self, track: TrackInfo, env: Env) -> Pill {
        self.adopted(track).updated(MediaEvent::TrackChanged(track), full_duration(self.config), env)
    }

    /// After the front of the queue was shown.
    #[verifier::opaque]
    pub open spec fn next_shown(self, env: Env) -> Pill {
        if self.pending.len() == 0 {
            self
        } else {
            let event = self.pending[0];
            let s = Pill { pending: self.pending.skip(1), ..self };
            match event {
                MediaEvent::TrackChanged(track) => s.adopted(track).shown(event, true, env),
                MediaEvent::PlaybackStateChanged(_, _) => s.shown(event, false, env),
                _ => s,
            }
        }
    }

    /// Whether the auto-hide watchdog watches a hidden pill.
    pub open spec fn watched(self) -> bool {
        self.enabled && self.persistent() && self.config.behavior.hide_for_auto_compact_sources
            && self.held_content is Some && self.is_hidden()
    }

    /// Off the screen, before the queue advances.
    #[verifier::opaque]
    pub open spec fn cleared(self) -> Pill {
        let s = Pill {
            content: None,
            dismiss_at: None,
            phase: Phase::Hidden,
            pill_name: None,
            current_source: None,
            look: Look {
                content_rev: bumped(self.look.content_rev),
                fade: None,
                art: None,
                art_source: None,
                palette: None,
                content_palette: None,
                text: None,
                ..self.look
            },
            hover: Hover {
                dismiss_at: None,
                expand: None,
                expanded_once: false,
                leave_at: None,
                ..self.hover
            },
            rest: Rest { collapse_on_dismiss: false, watchdog: false, ..self.rest },
            ..self
        };
        s.without_timer().emit(Effect::HideWindow).emit(Effect::StartIdleRelease)
    }

    /// After the pill was hidden: the queue advances, and a hold that nothing
    /// replaced is watched.
    #[verifier::opaque]
    pub open spec fn hidden_away(self, env: Env) -> Pill {
        let s = self.cleared().next_shown(env);
        let w = Pill { rest: Rest { watchdog: s.watched(), ..s.rest }, ..s };
        if s.watched() {
            Pill { timer: Timer { period: WATCHDOG_TICK_MS, ..w.timer }, ..w }.with_timer()
        } else {
            w
        }
    }

    // ---- sources ----

    /// After a state was recorded.
    #[verifier::opaque]
    pub open spec fn noting(self, source: String, state: PlaybackState) -> Pill {
        Pill { source_state: remembered(self.source_state, source, state), ..self }
    }

    /// After the last track of a source was handed to a successor.
    #[verifier::opaque]
    pub open spec fn with_last_track_from(self, source: Seq<char>, next: Option<TrackInfo>) -> Pill {
        Pill {
            last_track: if self.last_track matches Some(t) && t.source_app@ == source {
                next
            } else {
                self.last_track
            },
            ..self
        }
    }

    /// The content that a successor track gives.
    pub open spec fn held_from(next: Option<TrackInfo>) -> Option<MediaEvent> {
        match next {
            Some(track) => Some(MediaEvent::TrackChanged(track)),
            None => None,
        }
    }

    /// The auto-hide watchdog stands down where there is no hold to watch
    /// for.
    #[verifier::opaque]
    pub open spec fn stood_down(self) -> Pill {
        if self.rest.watchdog && self.held_content is None {
            Pill { rest: Rest { watchdog: false, ..self.rest }, ..self }.without_timer()
        } else {
            self
        }
    }

    /// After a source's content was handed over: the pill, the hold and the
    /// last track go to the most recent playing source, and the pill hides
    /// where there is none.
    #[verifier::opaque]
    pub open spec fn handed_over(
        self,
        source: Seq<char>,
        content_goes: bool,
        held_goes: bool,
        last_goes: bool,
        env: Env,
    ) -> Pill {
        let next = successor(self.track_cache, self.source_state, source);
        if !content_goes && !held_goes && !last_goes {
            self
        } else if content_goes && next is None {
            Pill { held_content: None, last_track: None, ..self }.hidden_away(env)
        } else {
            let a = if content_goes {
                self.swapped_to(next->0, env)
            } else {
                self
            };
            let b = if held_goes {
                Pill { held_content: Self::held_from(next), ..a }.stood_down()
            } else {
                a
            };
            b.with_last_track_from(source, next)
        }
    }

    /// After a source was retired for good: nothing of it stays remembered,
    /// queued, held or shown.
    #[verifier::opaque]
    pub open spec fn retired(self, source: String, env: Env) -> Pill {
        let s = self.noting(source, PlaybackState::Stopped);
        let t = Pill {
            track_cache: other_sources(s.track_cache, source@),
            pending: others_waiting(s.pending, source@),
            ..s
        };
        t.handed_over(
            source@,
            source_of_held(t.content) == Some(source@),
            source_of_held(t.held_content) == Some(source@),
            t.last_track matches Some(l) && l.source_app@ == source@,
            env,
        )
    }

    /// After all sessions of a source settled: its queued events, its shown
    /// and held tracks and the last track go. A state pill of it stays, and
    /// its remembered track too.
    #[verifier::opaque]
    pub open spec fn gone(self, source: String, env: Env) -> Pill {
        let s = self.noting(source, PlaybackState::Stopped);
        let t = Pill { pending: others_waiting(s.pending, source@), ..s };
        t.handed_over(
            source@,
            is_track_of(t.content, source@),
            is_track_of(t.held_content, source@),
            t.last_track matches Some(l) && l.source_app@ == source@,
            env,
        )
    }

    // ---- events ----

    /// After the playback state that an event carries was recorded. A track
    /// snapshot without a state changes nothing.
    #[verifier::opaque]
    pub open spec fn noted(self, event: MediaEvent) -> Pill {
        match event {
            MediaEvent::TrackChanged(track) => match track.playback_state {
                Some(state) => self.noting(track.source_app, state),
                None => self,
            },
            MediaEvent::PlaybackStateChanged(state, source) => self.noting(source, state),
            _ => self,
        }
    }

    /// Whether a track is a refresh of the one on screen.
    pub open spec fn refreshes(self, track: TrackInfo) -> bool {
        self.content matches Some(MediaEvent::TrackChanged(on_screen)) && on_screen.is_same_media(track)
    }

    /// Whether a source owns the pill on screen.
    pub open spec fn on_screen(self, source: Seq<char>) -> bool {
        !self.is_hidden() && source_of_held(self.content) == Some(source)
    }

    /// After a track event: a refresh extends the pill, a track that must not
    /// wait swaps it, the first track of a persistent run shows, and any other
    /// one queues.
    #[verifier::opaque]
    pub open spec fn with_track(self, track: TrackInfo, env: Env) -> Pill {
        let event = MediaEvent::TrackChanged(track);
        if self.refreshes(track) {
            self.adopted(track).updated(event, refresh_duration(self.config), env)
        } else if self.is_held(env.now) || self.on_screen(track.source_app@) || self.active() {
            self.swapped_to(track, env)
        } else if self.before_first_show() {
            self.adopted(track).shown(event, true, env)
        } else {
            Pill { pending: enqueued(self.pending, event), ..self }
        }
    }

    /// After a progress report: it re-bases the bar of the content it belongs
    /// to and nothing else.
    #[verifier::opaque]
    pub open spec fn with_report(
        self,
        source: Seq<char>,
        position_us: Option<i64>,
        duration_secs: Option<u64>,
        rate_milli: Option<i64>,
        env: Env,
    ) -> Pill {
        if source_of_held(self.content) == Some(source) {
            let s = Pill { progress: self.progress.reported(position_us, duration_secs, rate_milli, env.now), ..self };
            if s.is_hidden() {
                s
            } else {
                s.rendered()
            }
        } else {
            self
        }
    }

    /// The source on screen, or held where nothing is on screen.
    pub open spec fn shown_or_held_source(self) -> Option<Seq<char>> {
        if self.content is Some {
            source_of_held(self.content)
        } else {
            source_of_held(self.held_content)
        }
    }

    /// Whether a state event is dropped: a stray Stopped under a persistent
    /// pill, a state that an upcoming track supersedes, or a Playing that
    /// tells nothing new.
    #[verifier::opaque]
    pub open spec fn state_is_redundant(self, state: PlaybackState, source: Seq<char>, batch: Seq<MediaEvent>) -> bool {
        ||| state == PlaybackState::Stopped && self.persistent() && self.shown_or_held_source() != Some(source)
        ||| track_waiting(batch, source)
        ||| track_waiting(self.pending, source)
        ||| is_track_of(self.content, source) && state == PlaybackState::Playing
        ||| {
            &&& state == PlaybackState::Playing
            &&& self.current_source matches Some(c) && c@ == source
            &&& !is_state_of(self.content, source)
        }
    }

    /// After a playback-state event.
    #[verifier::opaque]
    pub open spec fn with_state(self, state: PlaybackState, source: String, batch: Seq<MediaEvent>, env: Env) -> Pill {
        let event = MediaEvent::PlaybackStateChanged(state, source);
        if self.state_is_redundant(state, source@, batch) {
            self
        } else if is_track_of(self.content, source@) || is_state_of(self.content, source@) || self.active() {
            self.updated(event, full_duration(self.config), env)
        } else if self.before_first_show() {
            self.shown(event, false, env)
        } else {
            Pill { pending: enqueued(self.pending, event), ..self }
        }
    }

    /// After one event of a batch. Retirements and the ledger apply whether
    /// or not notifications are on; while they are off only the cache follows
    /// the tracks.
    #[verifier::opaque]
    pub open spec fn after_event(self, event: MediaEvent, batch: Seq<MediaEvent>, env: Env) -> Pill {
        let s = self.noted(event);
        match event {
            MediaEvent::SessionRejected { source_app, .. } => s.retired(source_app, env),
            MediaEvent::SourceGone { source_app } => s.gone(source_app, env),
            MediaEvent::TrackChanged(track) => if !s.enabled {
                Pill { track_cache: cached(s.track_cache, track), ..s }
            } else if s.config.behavior.enable_track_change {
                s.with_track(track, env)
            } else {
                s
            },
            MediaEvent::PlaybackStateChanged(state, source) => if s.enabled
                && s.config.behavior.enable_playback_state_change {
                s.with_state(state, source, batch, env)
            } else {
                s
            },
            MediaEvent::ProgressChanged { source_app, position_us, duration_secs, playback_rate_milli } => {
                if s.enabled {
                    s.with_report(source_app@, position_us, duration_secs, playback_rate_milli, env)
                } else {
                    s
                }
            },
            _ => s,
        }
    }

    /// After the first `n` events of a batch.
    pub open spec fn after_events(self, batch: Seq<MediaEvent>, n: nat, env: Env) -> Pill
        decreases n,
    {
        if n == 0 {
            self
        } else {
            self.after_events(batch, (n - 1) as nat, env).after_event(batch[n - 1], batch, env)
        }
    }

    /// After a batch of events: what still waits is debounced.
    #[verifier::opaque]
    pub open spec fn received(self, batch: Seq<MediaEvent>, env: Env) -> Pill {
        let s = self.after_events(batch, batch.len(), env);
        if s.pending.len() > 0 {
            s.emit(Effect::StopDebounce).emit(Effect::StartDebounce(debounce_interval(s.config)))
        } else {
            s
        }
    }

    /// After the debounce ran out: a hidden pill shows what waits.
    #[verifier::opaque]
    pub open spec fn flushed(self, env: Env) -> Pill {
        let s = self.emit(Effect::StopDebounce);
        if s.is_hidden() {
            s.next_shown(env)
        } else {
            s
        }
    }

    // ---- notifications toggle and samples ----

    /// What turning notifications on again shows: the playing pin, else the
    /// most recent playing source, else what was held, else the last track.
    #[verifier::opaque]
    pub open spec fn restored(self, env: Env) -> Pill {
        let pin = pinned(self.track_cache, self.source_state, optional_text(self.config.behavior.pinned_source));
        let next = successor(self.track_cache, self.source_state, Seq::empty());
        if pin is Some {
            self.shown(MediaEvent::TrackChanged(pin->0), true, env)
        } else if next is Some {
            self.shown(MediaEvent::TrackChanged(next->0), true, env)
        } else if self.held_content is Some {
            Pill { held_content: None, ..self }.shown(self.held_content->0, true, env)
        } else if self.last_track is Some {
            self.shown(MediaEvent::TrackChanged(self.last_track->0), true, env)
        } else {
            self
        }
    }

    /// After notifications were turned on or off.
    #[verifier::opaque]
    pub open spec fn toggled(self, env: Env) -> Pill {
        let s = Pill { enabled: !self.enabled, ..self };
        if s.enabled {
            s.restored(env)
        } else {
            Pill { pending: Seq::empty(), ..s }.hidden_away(env)
        }
    }

    /// After a sample of the pill was shown with the given track.
    #[verifier::opaque]
    pub open spec fn sampled_with(self, track: TrackInfo, env: Env) -> Pill {
        let s = self.emit(Effect::StopIdleRelease).relaid(env);
        let t = Pill {
            content: Some(MediaEvent::TrackChanged(track)),
            look: Look { content_rev: bumped(s.look.content_rev), content_palette: track.palette, ..s.look },
            ..s
        }.with_text();
        Pill {
            dismiss_at: Some(later(env.now, full_duration(t.config))),
            phase: Phase::Light(env.now),
            look: Look { scroll: lines_at_rest(env.now), fade: None, ..t.look },
            hover: Hover { dismiss_at: None, expand: None, expanded_once: false, leave_at: None, ..t.hover },
            rest: Rest { watchdog: false, ..t.rest },
            ..t
        }.synced(env).emit(Effect::ShowWindow).rendered()
    }

    /// After a long idle stretch: the frame buffers go, and the timer that
    /// asked for it stops.
    pub open spec fn released(self) -> Pill {
        Pill { frame: Frame { has_frame: false, ..self.frame }, ..self }.emit(Effect::StopIdleRelease).emit(
            Effect::ReleaseBuffers,
        )
    }

    // ---- placement ----

    /// Whether the pill is compact.
    pub open spec fn compact(self) -> bool {
        self.place.layout == LayoutMode::Compact
    }

    /// The placement of the current pill: a compact pill's own while the
    /// positions are separated, the expanded one otherwise.
    pub open spec fn governing_pos(self) -> OverlayPos {
        if self.compact() && self.config.overlay.compact_position_separate {
            self.place.compact
        } else {
            self.place.expanded
        }
    }

    /// After the window was moved to its target, or redrawn where the
    /// target's DPI asks for other fonts.
    #[verifier::opaque]
    pub open spec fn repositioned(self, env: Env) -> Pill {
        if self.is_hidden() || env.target is None {
            self
        } else if self.frame.fonts_dpi != env.target_dpi {
            self.rendered()
        } else if self.content is Some {
            self.emit(Effect::Reposition)
        } else {
            self
        }
    }

    /// The rectangle that the pill is anchored against.
    pub open spec fn anchor_edge(env: Env) -> Rect {
        if env.target_covered {
            env.target->0.monitor
        } else {
            env.target->0.work
        }
    }

    /// After the layout and anchor were resolved for a new foreground.
    #[verifier::opaque]
    pub open spec fn reanchored(self, env: Env) -> Pill {
        let s = self.relaid(env);
        let flipped = s.place.layout != self.place.layout;
        if env.target is None {
            s
        } else if s.place.anchor_edge == Some(Self::anchor_edge(env)) && !flipped {
            s
        } else {
            let t = Pill { place: Place { anchor_edge: Some(Self::anchor_edge(env)), ..s.place }, ..s };
            if flipped {
                t.rendered()
            } else {
                t.repositioned(env)
            }
        }
    }

    /// After the foreground changed. A persistent pill hides for a fullscreen
    /// or listed foreground while that is enabled and resumes its held
    /// content when the foreground clears; any other visible pill is laid out
    /// and anchored anew.
    #[verifier::opaque]
    pub open spec fn foreground_changed(self, env: Env) -> Pill {
        let was_hidden = self.is_hidden();
        if was_hidden && !self.persistent() {
            self
        } else if self.persistent() && self.config.behavior.hide_for_auto_compact_sources {
            let hide = self.hides_for(env);
            let s = Pill { rest: Rest { collapse_on_dismiss: hide, ..self.sampled(env).rest }, ..self.sampled(env) };
            if hide && !was_hidden {
                Pill { held_content: s.content, ..s }.hidden_away(env)
            } else if was_hidden && !hide {
                match s.held_content {
                    Some(event) => Pill { held_content: None, ..s }.shown(event, event is TrackChanged, env),
                    None => s,
                }
            } else {
                s.reanchored(env)
            }
        } else {
            self.reanchored(env)
        }
    }

    // ---- ticks ----

    /// After the auto-hide watchdog looked at the foreground.
    #[verifier::opaque]
    pub open spec fn watchdog_ticked(self, env: Env) -> Pill {
        if !self.enabled || !(self.persistent() && self.config.behavior.hide_for_auto_compact_sources) {
            Pill { rest: Rest { watchdog: false, ..self.rest }, ..self }.without_timer()
        } else if !aged(self.fg.geometry_check, env.now) {
            self
        } else {
            let s = Pill { fg: Foreground { geometry_check: Some(env.now), ..self.fg }, ..self }.sampled(env);
            if s.fg.fullscreen != self.fg.fullscreen {
                s.foreground_changed(env)
            } else {
                s
            }
        }
    }

    /// After a tick of a hidden pill.
    #[verifier::opaque]
    pub open spec fn hidden_ticked(self, env: Env) -> Pill {
        let s = Pill { timer: Timer { last_tick: env.now, ..self.timer }, ..self };
        if s.rest.watchdog {
            s.watchdog_ticked(env)
        } else {
            s
        }
    }

    /// Whether the pill is animating at the top of a tick.
    pub open spec fn animating(self) -> bool {
        self.phase != Phase::Shown || self.hover.expand is Some || self.look.fade is Some
    }

    /// Tick, first part: the progress bar and the window's standing. A static
    /// pill's window is re-asserted once a second, a moving one's every tick.
    #[verifier::opaque]
    pub open spec fn tick_standing(self, env: Env) -> Pill {
        let s = Pill {
            progress: self.progress.ticked(is_playing(self.content), env.now, self.frame.w),
            timer: Timer { last_tick: env.now, ..self.timer },
            ..self
        };
        if self.animating() || aged(self.timer.last_reassert, env.now) {
            Pill { timer: Timer { last_reassert: Some(env.now), ..s.timer }, ..s }.emit(Effect::ReassertTopmost)
        } else {
            s
        }
    }

    /// Tick, second part: where the cursor is. A faded pill comes back under
    /// the cursor.
    #[verifier::opaque]
    pub open spec fn tick_cursor(self, over: bool, env: Env) -> Pill {
        let s = Pill { hover: Hover { cursor_over: over, ..self.hover }, ..self };
        if over {
            let t = Pill { hover: Hover { leave_at: None, ..s.hover }, ..s };
            if t.persistent() && t.rest.faded {
                Pill {
                    dismiss_at: Some(later(env.now, full_duration(t.config))),
                    rest: Rest { faded: false, ..t.rest },
                    ..t
                }
            } else {
                t
            }
        } else if s.hover.leave_at is None {
            Pill { hover: Hover { leave_at: Some(env.now), ..s.hover }, ..s }
        } else {
            s
        }
    }

    /// Tick: a morph leg that has run its length is pinned or gone.
    #[verifier::opaque]
    pub open spec fn tick_settle(self, env: Env) -> Pill {
        Pill {
            hover: Hover {
                expand: settled(self.hover.expand, self.config, env.animations, env.now),
                expanded_once: self.hover.expanded_once || expand_finishes(
                    self.hover.expand,
                    self.config,
                    env.animations,
                    env.now,
                ),
                ..self.hover
            },
            ..self
        }
    }

    /// What the cursor asks of a fully shown pill. A persistent pill is never
    /// dismissed by a hover.
    #[verifier::opaque]
    pub open spec fn wanted_step(self, is_engaged: bool) -> HoverStep {
        step(
            HoverTick {
                cursor_over: is_engaged,
                morphing: self.hover.expand is Some,
                morph_expanding: self.hover.expand matches Some(m) && m.direction == MorphDirection::Expand,
                dismiss_armed: self.hover.dismiss_at is Some,
            },
            !self.persistent() && self.config.overlay.dismiss_on_hover,
            self.config.overlay.expand_compact_on_hover,
            self.hover.expanded_once,
            self.place.layout == LayoutMode::Expanded,
        )
    }

    /// After a hover step on a fully shown pill.
    #[verifier::opaque]
    pub open spec fn stepped(self, s: HoverStep, reversal: Reversal, env: Env) -> Pill {
        match s {
            HoverStep::StartExpand => Pill {
                dismiss_at: Some(later(env.now, full_duration(self.config))),
                hover: Hover {
                    expand: Some(
                        HoverExpand {
                            start: env.now,
                            direction: MorphDirection::Expand,
                            from: 0,
                            velocity: 0,
                            done: false,
                        },
                    ),
                    ..self.hover
                },
                ..self
            },
            HoverStep::ArmDismiss => Pill {
                dismiss_at: Some(sooner(self.dismiss_at, later(env.now, EARLY_EXIT_MS))),
                hover: Hover { dismiss_at: Some(env.now), ..self.hover },
                ..self
            },
            HoverStep::ReverseMorph => Pill {
                dismiss_at: Some(later(env.now, full_duration(self.config))),
                hover: Hover {
                    expand: if reversal.from < REVERSAL_MIN_PROGRESS {
                        None
                    } else {
                        Some(
                            HoverExpand {
                                start: env.now,
                                direction: MorphDirection::Collapse,
                                from: reversal.from,
                                velocity: reversal.velocity,
                                done: false,
                            },
                        )
                    },
                    ..self.hover
                },
                ..self
            },
            HoverStep::Nothing => self,
        }
    }

    /// Tick, third part: what the cursor does. A shown pill follows the hover
    /// rules; a pill still moving in or out only arms its dismissal, and only
    /// in the expanded layout. An arm caps the remaining time.
    #[verifier::opaque]
    pub open spec fn tick_hover(self, over: bool, is_engaged: bool, reversal: Reversal, env: Env) -> Pill {
        let s = self.tick_settle(env);
        if s.phase == Phase::Shown {
            s.stepped(s.wanted_step(is_engaged), reversal, env)
        } else if over && s.hover.dismiss_at is None && s.config.overlay.dismiss_on_hover && s.place.layout
            == LayoutMode::Expanded {
            Pill {
                dismiss_at: Some(sooner(s.dismiss_at, later(env.now, EARLY_EXIT_MS))),
                hover: Hover { dismiss_at: Some(env.now), ..s.hover },
                ..s
            }
        } else {
            s
        }
    }

    /// Tick, fourth part: deadlines. A waiting notification caps the time of
    /// a pill that is not held; leaving a persistent pill restarts its time.
    #[verifier::opaque]
    pub open spec fn tick_deadline(self, over: bool, held: bool, env: Env) -> Pill {
        let s = if !held && self.pending.len() > 0 && !self.is_hidden() && !self.is_collapsing() {
            Pill { dismiss_at: Some(sooner(self.dismiss_at, later(env.now, EARLY_EXIT_MS))), ..self }
        } else {
            self
        };
        if s.persistent() && !over && s.hover.leave_at == Some(env.now) {
            Pill {
                dismiss_at: Some(later(env.now, full_duration(s.config))),
                rest: Rest { faded: false, ..s.rest },
                ..s
            }
        } else {
            s
        }
    }

    /// Whether a persistent pill has come to the end of its time unread.
    pub open spec fn rests(self, over: bool, now: u64) -> bool {
        !over && due(self.dismiss_at, now) && self.phase == Phase::Shown
    }

    /// The pinned track that the pill returns to: only while the pin plays,
    /// and not where the pill is on the pin already.
    #[verifier::opaque]
    pub open spec fn pin_to_return_to(self) -> Option<TrackInfo> {
        match optional_text(self.config.behavior.pinned_source) {
            Some(pin) => if source_of_held(self.content) matches Some(s) && pin_matches(s, pin) {
                None
            } else {
                pinned(self.track_cache, self.source_state, Some(pin))
            },
            None => None,
        }
    }

    /// The track that a tombstone of the pinned source gives way to.
    #[verifier::opaque]
    pub open spec fn tombstone_successor(self) -> Option<TrackInfo> {
        match (source_of_held(self.content), optional_text(self.config.behavior.pinned_source)) {
            (Some(source), Some(pin)) => if pin_matches(source, pin) {
                successor(self.track_cache, self.source_state, source)
            } else {
                None
            },
            _ => None,
        }
    }

    /// A persistent pill at the end of its time: back to the pin, or past a
    /// tombstone, or to idle opacity.
    #[verifier::opaque]
    pub open spec fn persistent_rest(self, over: bool, stopped: bool, env: Env) -> Pill {
        if self.rests(over, env.now) && self.pin_to_return_to() is Some {
            self.swapped_to(self.pin_to_return_to()->0, env)
        } else if stopped {
            if self.rests(over, env.now) {
                match self.tombstone_successor() {
                    Some(track) => self.swapped_to(track, env),
                    None => Pill {
                        phase: Phase::Collapsing(env.now),
                        hover: Hover { expand: None, ..self.hover },
                        ..self
                    },
                }
            } else {
                self
            }
        } else if self.config.overlay.fade_persistent_pill && !self.rest.faded && self.rests(over, env.now) {
            Pill { rest: Rest { faded: true, ..self.rest }, ..self }
        } else {
            self
        }
    }

    /// Tick, fifth part: the dismissal. A persistent pill rests; any other
    /// one collapses at its deadline unless it is held or on its way back to
    /// compact.
    #[verifier::opaque]
    pub open spec fn tick_dismiss(self, over: bool, held: bool, stopped: bool, env: Env) -> Pill {
        if self.persistent() && !self.rest.collapse_on_dismiss {
            self.persistent_rest(over, stopped, env)
        } else if !held && due(self.dismiss_at, env.now) && !self.is_collapsing() && !self.is_hidden() && !(
        self.hover.expand matches Some(m) && m.direction == MorphDirection::Collapse) {
            Pill { phase: Phase::Collapsing(env.now), hover: Hover { expand: None, ..self.hover }, ..self }
        } else {
            self
        }
    }

    /// Whether the exit animation is over.
    pub open spec fn collapse_over(self, env: Env) -> bool {
        self.phase matches Phase::Collapsing(start) && since(start, env.now) >= exit_ms(self.config, env.animations)
    }

    /// Whether this tick hides the pill.
    pub open spec fn tick_hides(self, stopped: bool, env: Env) -> bool {
        self.collapse_over(env) && (!self.persistent() || self.rest.collapse_on_dismiss || stopped)
    }

    /// Tick, sixth part: the phase advances. A persistent pill that finished
    /// collapsing is shown compact again.
    #[verifier::opaque]
    pub open spec fn tick_phase(self, env: Env) -> Pill {
        match self.phase {
            Phase::Expanding(start) => if since(start, env.now) >= entrance_ms(self.config, env.animations) {
                Pill { phase: Phase::Shown, ..self }
            } else {
                self
            },
            Phase::Light(start) => if since(start, env.now) >= LIGHT_MS {
                Pill { phase: Phase::Shown, ..self }
            } else {
                self
            },
            Phase::Collapsing(_) => if self.collapse_over(env) {
                Pill {
                    phase: Phase::Shown,
                    dismiss_at: Some(later(env.now, full_duration(self.config))),
                    rest: Rest { faded: false, ..self.rest },
                    ..self
                }
            } else {
                self
            },
            _ => self,
        }
    }

    /// The DPI that scrolling lines move at.
    pub open spec fn scroll_dpi(self) -> u32 {
        if scrolls(self.look.scroll) && self.frame.fonts_dpi > 96 {
            self.frame.fonts_dpi
        } else {
            96
        }
    }

    /// Tick, seventh part: lines past their hold move on while motion is
    /// allowed.
    #[verifier::opaque]
    pub open spec fn tick_marquee(self, dt: u64, env: Env) -> Pill {
        if env.animations {
            Pill {
                look: Look {
                    scroll: advanced_lines(
                        self.look.scroll,
                        scroll_step(self.scroll_dpi(), dt) as u64,
                        env.now,
                    ),
                    ..self.look
                },
                ..self
            }
        } else {
            self
        }
    }

    /// Whether a static tick looks at the foreground.
    pub open spec fn checks_foreground(self, animating: bool) -> bool {
        !animating && (self.config.overlay.layout == LayoutMode::Auto || (self.persistent()
            && self.config.behavior.hide_for_auto_compact_sources))
    }

    /// Whether the look is due: another window, or the last look has aged.
    pub open spec fn geometry_due(self, env: Env) -> bool {
        self.fg.window != Some(env.foreground) || aged(self.fg.geometry_check, env.now)
    }

    /// After a static tick looked at the foreground.
    #[verifier::opaque]
    pub open spec fn foreground_checked(self, animating: bool, env: Env) -> Pill {
        if self.checks_foreground(animating) && self.geometry_due(env) {
            Pill { fg: Foreground { geometry_check: Some(env.now), ..self.fg }, ..self }.relaid(env)
        } else {
            self
        }
    }

    /// Tick, last part: the foreground, then the frame and the timer.
    #[verifier::opaque]
    pub open spec fn tick_finish(self, animating: bool, marquee: bool, bar_moved: bool, env: Env) -> Pill {
        let s = self.foreground_checked(animating, env);
        let flipped = s.place.layout != self.place.layout;
        let t = if s.fg.fullscreen != self.fg.fullscreen && s.persistent() {
            s.foreground_changed(env)
        } else {
            s
        };
        if s.fg.fullscreen != self.fg.fullscreen && s.persistent() && t.is_hidden() {
            t
        } else {
            let u = if flipped || animating || t.hover.expand is Some || marquee || bar_moved || t.fade_running(
                env.now,
            ) {
                t.rendered()
            } else {
                t
            };
            u.synced(env)
        }
    }

    /// A tick up to the dismissal.
    #[verifier::opaque]
    pub open spec fn tick_through_dismiss(self, over: bool, reversal: Reversal, env: Env) -> Pill {
        let stopped = is_tombstone(self.content);
        let c = self.tick_standing(env).tick_cursor(over, env);
        let is_engaged = engaged(over, c.hover.leave_at, env.now);
        let held = is_engaged && c.hover.expand is Some;
        c.tick_hover(over, is_engaged, reversal, env).tick_deadline(over, held, env).tick_dismiss(
            over,
            held,
            stopped,
            env,
        )
    }

    /// The time step of a tick.
    pub open spec fn time_step(self, now: u64) -> u64 {
        if since(self.timer.last_tick, now) < MAX_STEP_MS {
            since(self.timer.last_tick, now)
        } else {
            MAX_STEP_MS
        }
    }

    /// After one animation tick.
    #[verifier::opaque]
    pub open spec fn ticked(self, over: bool, reversal: Reversal, env: Env) -> Pill {
        if self.is_hidden() {
            self.hidden_ticked(env)
        } else {
            let d = self.tick_through_dismiss(over, reversal, env);
            if d.tick_hides(is_tombstone(self.content), env) {
                d.hidden_away(env)
            } else {
                let p = d.tick_phase(env);
                p.tick_marquee(self.time_step(env.now), env).tick_finish(
                    self.animating(),
                    scrolls(p.look.scroll),
                    self.progress.tick_moves(is_playing(self.content), env.now, self.frame.w),
                    env,
                )
            }
        }
    }
}

/// The next content revision.
pub open spec fn bumped(rev: u64) -> u64 {
    if rev == u64::MAX {
        0
    } else {
        (rev + 1) as u64
    }
}

} // verus!
