//! The overlay's state and its reactions to media events, the cursor, the
//! foreground and time. Nothing here touches a window: what the window layer
//! is to do is left in `effects`, in order.
use crate::config::{after, elapsed, Config, LayoutMode, OverlayPos};
use crate::events::{share, MediaEvent, PlaybackState, TrackInfo};
use crate::fullscreen::{decide_layout, ForegroundVerdict};
use crate::hover::hover_engaged;
use crate::ledger::{SourceLedger, TrackCache};
use crate::pill::{
    aged, announces, bumped, due, joined_name, lines_at_rest, moving_period, published, scrolls, sooner, spoken_name,
    text_of, Effect, Env, Foreground, Frame, Hover, LineScroll, Look, Marquee, PeriodSample, Phase, Pill, PillText,
    Place, Rest, Timer, FADE_MS, RECHECK_MS, STATIC_TICK_MS,
};
use crate::progress::Progress;
use crate::queue::enqueue;
use crate::text::{optional_text, trim, trimmed};
use vstd::prelude::*;
use vstd::string::*;

verus! {

/// The overlay's state.
#[derive(Debug)]
pub struct OverlayState {
    pub config: Config,
    /// Notifications waiting to be shown, in arrival order.
    pub pending: Vec<MediaEvent>,
    pub enabled: bool,
    pub content: Option<MediaEvent>,
    /// The content to resume after an auto-hide.
    pub held_content: Option<MediaEvent>,
    pub last_track: Option<TrackInfo>,
    /// The source of the last track shown.
    pub current_source: Option<String>,
    /// The source of the content most recently shown.
    pub now_showing: Option<String>,
    pub phase: Phase,
    pub dismiss_at: Option<u64>,
    pub hover: Hover,
    pub rest: Rest,
    pub look: Look,
    pub frame: Frame,
    pub place: Place,
    pub fg: Foreground,
    pub timer: Timer,
    pub progress: Progress,
    /// The pill's accessible name.
    pub pill_name: Option<String>,
    pub track_cache: TrackCache,
    pub source_state: SourceLedger,
    /// What the window layer is to do.
    pub effects: Vec<Effect>,
}

impl View for OverlayState {
    type V = Pill;

    open spec fn view(&self) -> Pill {
        Pill {
            config: self.config,
            pending: self.pending@,
            enabled: self.enabled,
            content: self.content,
            held_content: self.held_content,
            last_track: self.last_track,
            current_source: self.current_source,
            now_showing: self.now_showing,
            phase: self.phase,
            dismiss_at: self.dismiss_at,
            hover: self.hover,
            rest: self.rest,
            look: self.look,
            frame: self.frame,
            place: self.place,
            fg: self.fg,
            timer: self.timer,
            progress: self.progress,
            pill_name: optional_text(self.pill_name),
            track_cache: self.track_cache@,
            source_state: self.source_state@,
            effects: self.effects@,
        }
    }
}

/// The text of a track pill.
pub(crate) fn pill_text_from_track(track: &TrackInfo) -> (r: PillText)
    ensures
        r == text_of(*track),
{
    PillText {
        title: track.title.clone(),
        artist: track.artist.clone(),
        source_app: track.source_app.clone(),
        app_icon: share(&track.app_icon),
    }
}

/// The accessible name of a pill text.
pub fn accessible_name(text: &PillText) -> (r: String)
    ensures
        r@ == spoken_name(*text),
{
    let title = trim(text.title.as_str());
    let artist = trim(text.artist.as_str());
    let source = trim(text.source_app.as_str());
    let mut name = title;
    if !name.as_str().is_empty() && !artist.as_str().is_empty() {
        name.append(" \u{2014} ");
    }
    name.append(artist.as_str());
    proof {
        let (t, a) = (trimmed(text.title@), trimmed(text.artist@));
        if t.len() > 0 && a.len() > 0 {
        } else if t.len() > 0 {
            assert(a =~= Seq::<char>::empty());
            assert(t + a =~= t);
        } else {
            assert(t =~= Seq::<char>::empty());
            assert(t + a =~= a);
        }
        assert(name@ == joined_name(t, a));
    }
    if name.as_str().is_empty() {
        return text.source_app.clone();
    }
    if !source.as_str().is_empty() {
        name.append(" (");
        name.append(source.as_str());
        name.append(")");
    }
    name
}

/// Another copy of an optional text.
pub(crate) fn copy_text(s: &Option<String>) -> (r: Option<String>)
    ensures
        r == *s,
{
    match s {
        Some(t) => Some(t.clone()),
        None => None,
    }
}

pub(crate) fn copy_event(e: &Option<MediaEvent>) -> (r: Option<MediaEvent>)
    ensures
        r == *e,
{
    match e {
        Some(event) => Some(event.clone()),
        None => None,
    }
}

pub(crate) fn bump(rev: u64) -> (r: u64)
    ensures
        r == bumped(rev),
{
    if rev == u64::MAX {
        0
    } else {
        rev + 1
    }
}

pub(crate) fn is_aged(at: Option<u64>, now: u64) -> (r: bool)
    ensures
        r == aged(at, now),
{
    match at {
        Some(t) => elapsed(t, now) >= RECHECK_MS,
        None => true,
    }
}

pub(crate) fn is_due(deadline: Option<u64>, now: u64) -> (r: bool)
    ensures
        r == due(deadline, now),
{
    match deadline {
        Some(d) => d <= now,
        None => false,
    }
}

pub(crate) fn capped(deadline: Option<u64>, early: u64) -> (r: u64)
    ensures
        r == sooner(deadline, early),
{
    match deadline {
        Some(d) => if d < early {
            d
        } else {
            early
        },
        None => early,
    }
}

pub(crate) fn same_optional(a: &Option<String>, b: &Option<String>) -> (r: bool)
    ensures
        r == (optional_text(*a) == optional_text(*b)),
{
    match (a, b) {
        (Some(x), Some(y)) => *x == *y,
        (None, None) => true,
        _ => false,
    }
}

impl OverlayState {
    /// The state before anything happened: hidden, with nothing remembered.
    pub fn new(config: Config, now: u64) -> (r: Self)
        ensures
            r@ == Pill::initial(config, r.place.expanded, r.place.compact, now),
            r.place.expanded == config.overlay.expanded_pos(),
            config.overlay.compact_position_separate ==> r.place.compact == config.overlay.own_compact_pos(),
            !config.overlay.compact_position_separate ==> r.place.compact == config.overlay.expanded_pos(),
    {
        let expanded = OverlayPos::from_config(&config);
        let compact = OverlayPos::compact_from_config(&config);
        let enabled = config.behavior.notifications_enabled;
        let line = LineScroll { offset: 0, started_at: None, scrolling: false };
        OverlayState {
            config,
            pending: Vec::new(),
            enabled,
            content: None,
            held_content: None,
            last_track: None,
            current_source: None,
            now_showing: None,
            phase: Phase::Hidden,
            dismiss_at: None,
            hover: Hover {
                dismiss_at: None,
                expand: None,
                expanded_once: false,
                leave_at: None,
                cursor_over: false,
            },
            rest: Rest { faded: false, collapse_on_dismiss: false, watchdog: false },
            look: Look {
                content_palette: None,
                content_rev: 0,
                text: None,
                fade: None,
                scroll: Marquee { title: line, subtitle: line, meta: line, app: line },
                art: None,
                art_source: None,
                palette: None,
            },
            frame: Frame { has_frame: false, w: 0, h: 0, fonts_dpi: 0, aura_inset: 0 },
            place: Place { expanded, compact, layout: LayoutMode::Expanded, anchor_edge: None },
            fg: Foreground { window: None, exe: None, geometry_check: None, fullscreen: None },
            timer: Timer { armed: false, period: 16, period_cache: None, last_tick: now, last_reassert: None },
            progress: Progress::new(),
            pill_name: None,
            track_cache: TrackCache::new(),
            source_state: SourceLedger::new(),
            effects: Vec::new(),
        }
    }

    /// Hands the pending effects to the window layer.
    pub fn take_effects(&mut self) -> (r: Vec<Effect>)
        ensures
            r@ == old(self)@.effects,
            final(self)@ == (Pill { effects: Seq::empty(), ..old(self)@ }),
    {
        let mut out: Vec<Effect> = Vec::new();
        out.append(&mut self.effects);
        assert(self.effects@ =~= Seq::<Effect>::empty());
        assert(out@ =~= old(self)@.effects);
        out
    }

    pub(crate) fn emit(&mut self, effect: Effect)
        ensures
            final(self)@ == old(self)@.emit(effect),
    {
        self.effects.push(effect);
    }

    pub(crate) fn is_hidden(&self) -> (r: bool)
        ensures
            r == self@.is_hidden(),
    {
        self.phase == Phase::Hidden
    }

    pub(crate) fn is_collapsing(&self) -> (r: bool)
        ensures
            r == self@.is_collapsing(),
    {
        matches!(self.phase, Phase::Collapsing(_))
    }

    pub(crate) fn persistent(&self) -> (r: bool)
        ensures
            r == self@.persistent(),
    {
        self.config.overlay.layout == LayoutMode::PersistentCompact
    }

    /// Whether the pill is auto-hidden with content held for the resume.
    pub fn persistent_auto_hidden(&self) -> (r: bool)
        ensures
            r == self@.auto_hidden(),
    {
        self.persistent() && self.is_hidden() && self.held_content.is_some()
    }

    /// Whether a persistent pill is on screen or auto-hidden.
    pub fn persistent_active(&self) -> (r: bool)
        ensures
            r == self@.active(),
    {
        self.persistent() && (!self.is_hidden() || self.persistent_auto_hidden())
    }

    /// Whether a persistent pill has not been shown yet.
    pub fn persistent_pre_first_show(&self) -> (r: bool)
        ensures
            r == self@.before_first_show(),
    {
        self.persistent() && self.is_hidden() && self.held_content.is_none()
    }

    /// Whether the idle-fade ramp is running.
    pub fn persistent_fade_active(&self, now: u64) -> (r: bool)
        ensures
            r == self@.fade_running(now),
    {
        self.persistent() && self.config.overlay.fade_persistent_pill && self.rest.faded
            && !self.rest.collapse_on_dismiss && match self.dismiss_at {
            Some(d) => elapsed(d, now) < FADE_MS,
            None => false,
        }
    }

    /// Whether a hover-expanded pill is held by the cursor.
    pub fn held_expanded(&self, now: u64) -> (r: bool)
        ensures
            r == self@.is_held(now),
    {
        hover_engaged(self.hover.cursor_over, self.hover.leave_at, now) && self.hover.expand.is_some()
    }

    /// Samples the foreground. The executable is taken over only for a new
    /// window.
    pub fn sample_foreground(&mut self, env: &Env) -> (r: ForegroundVerdict)
        ensures
            final(self)@ == old(self)@.sampled(*env),
            r.exe == old(self)@.foreground_exe(*env),
            r.fullscreen == env.fullscreen,
    {
        self.fg.fullscreen = Some(env.fullscreen);
        let cached = match self.fg.window {
            Some(w) => w == env.foreground,
            None => false,
        };
        if !cached {
            self.fg.window = Some(env.foreground);
            self.fg.exe = copy_text(&env.exe);
        }
        ForegroundVerdict { exe: copy_text(&self.fg.exe), fullscreen: env.fullscreen }
    }

    /// Decides the layout anew from the foreground.
    pub fn refresh_layout(&mut self, env: &Env)
        ensures
            final(self)@ == old(self)@.relaid(*env),
    {
        proof {
            reveal(Pill::relaid);
        }
        let verdict = self.sample_foreground(env);
        self.place.layout = decide_layout(&self.config, &verdict);
    }

    pub(crate) fn marquee_active(&self) -> (r: bool)
        ensures
            r == scrolls(self.look.scroll),
    {
        self.look.scroll.title.scrolling || self.look.scroll.subtitle.scrolling || self.look.scroll.meta.scrolling
            || self.look.scroll.app.scrolling
    }

    /// Stops the animation timer.
    pub fn delete_anim_timer(&mut self)
        ensures
            final(self)@ == old(self)@.without_timer(),
    {
        proof {
            reveal(Pill::without_timer);
        }
        if self.timer.armed {
            self.timer.armed = false;
            self.emit(Effect::DropTimer);
        }
    }

    /// Starts the animation timer where none runs.
    pub fn ensure_anim_timer(&mut self)
        ensures
            final(self)@ == old(self)@.with_timer(),
    {
        proof {
            reveal(Pill::with_timer);
        }
        if !self.timer.armed {
            self.timer.armed = true;
            let period: u32 = self.timer.period;
            self.emit(Effect::ArmTimer(period));
        }
    }

    pub(crate) fn needs_frames(&self, now: u64) -> (r: bool)
        ensures
            r == self@.needs_frames(now),
    {
        self.phase != Phase::Shown || self.hover.expand.is_some() || self.look.fade.is_some()
            || self.persistent_fade_active(now) || self.marquee_active()
    }

    /// The tick period that the pill's motion asks for. A refresh period read
    /// for it is remembered.
    pub(crate) fn sample_period(&mut self, env: &Env) -> (r: u32)
        ensures
            final(self)@ == (Pill {
                timer: Timer { period_cache: old(self)@.period_after(*env), ..old(self)@.timer },
                ..old(self)@
            }),
            r == old(self)@.wanted_period(*env),
    {
        proof {
            reveal(Pill::period_after);
            reveal(Pill::wanted_period);
        }
        if !self.needs_frames(env.now) {
            return STATIC_TICK_MS;
        }
        if let Some(c) = self.timer.period_cache {
            if elapsed(c.at, env.now) < RECHECK_MS {
                return capped_period(c.period, &self.config);
            }
        }
        self.timer.period_cache = Some(PeriodSample { at: env.now, period: env.refresh_period });
        capped_period(env.refresh_period, &self.config)
    }

    /// Brings the animation timer in step with the pill's motion: the
    /// display's rate under the configured cap while something moves, the
    /// coarse static tick otherwise.
    pub fn sync_anim_timer(&mut self, env: &Env)
        ensures
            final(self)@ == old(self)@.synced(*env),
    {
        proof {
            reveal(Pill::synced);
        }
        let period: u32 = self.sample_period(env);
        if period != self.timer.period {
            self.timer.period = period;
            self.delete_anim_timer();
        }
        self.ensure_anim_timer();
    }

    /// Asks for a frame, where there is content to draw.
    pub fn render(&mut self)
        ensures
            final(self)@ == old(self)@.rendered(),
    {
        proof {
            reveal(Pill::rendered);
        }
        if self.content.is_some() {
            self.emit(Effect::Render);
        }
    }

    /// Whether a name change of this content is announced.
    pub fn announces_pill_name_change(content: &Option<MediaEvent>) -> (r: bool)
        ensures
            r == announces(*content),
    {
        match content {
            Some(MediaEvent::TrackChanged(_)) => true,
            _ => false,
        }
    }

    /// Resolves the pill's text and accessible name from its content. A new
    /// name is announced on a track change only.
    pub fn resolve_pill_text(&mut self)
        ensures
            final(self)@ == old(self)@.with_text(),
    {
        proof {
            reveal(Pill::with_text);
        }
        self.look.text = match &self.content {
            Some(MediaEvent::TrackChanged(track)) => Some(pill_text_from_track(track)),
            Some(MediaEvent::PlaybackStateChanged(_, source)) => if source.as_str().is_empty() {
                None
            } else {
                match self.track_cache.get(source) {
                    Some(track) => Some(pill_text_from_track(track)),
                    None => None,
                }
            },
            _ => None,
        };
        let name: Option<String> = match &self.look.text {
            Some(text) => Some(accessible_name(text)),
            None => match &self.content {
                Some(MediaEvent::PlaybackStateChanged(_, source)) => {
                    let label = trim(source.as_str());
                    if label.as_str().is_empty() {
                        None
                    } else {
                        Some(label)
                    }
                },
                _ => None,
            },
        };
        let changed = !same_optional(&name, &self.pill_name);
        self.pill_name = name;
        if changed && Self::announces_pill_name_change(&self.content) {
            self.emit(Effect::AnnounceName);
        }
    }

    /// Forgets the accessible name, for a window that goes away.
    pub fn null_pill_name_cell(&mut self)
        ensures
            final(self)@ == (Pill { pill_name: None, ..old(self)@ }),
    {
        self.pill_name = None;
    }

    /// Puts every line at the start of its hold.
    pub fn reset_scroll(&mut self, now: u64)
        ensures
            final(self)@ == (Pill { look: Look { scroll: lines_at_rest(now), ..old(self)@.look }, ..old(self)@ }),
    {
        let line = LineScroll { offset: 0, started_at: Some(now), scrolling: false };
        self.look.scroll = Marquee { title: line, subtitle: line, meta: line, app: line };
    }

    /// Publishes the source of the content on screen.
    pub fn publish_now_showing(&mut self)
        ensures
            final(self)@ == (Pill { now_showing: published(old(self)@.content, old(self)@.now_showing), ..old(self)@ }),
    {
        match &self.content {
            Some(MediaEvent::TrackChanged(track)) => {
                self.now_showing = Some(track.source_app.clone());
            },
            Some(MediaEvent::PlaybackStateChanged(_, source)) => {
                if !source.as_str().is_empty() {
                    self.now_showing = Some(source.clone());
                }
            },
            _ => {},
        }
    }

    pub(crate) fn set_content(&mut self, event: MediaEvent, now: u64)
        ensures
            final(self)@ == old(self)@.with_content(event, now),
    {
        proof {
            reveal(Pill::with_content);
        }
        self.look.content_rev = bump(self.look.content_rev);
        self.content = Some(event);
        self.publish_now_showing();
        self.look.content_palette = match &self.content {
            Some(MediaEvent::TrackChanged(track)) => track.palette,
            _ => None,
        };
        self.resolve_pill_text();
        self.reset_scroll(now);
    }

    /// Re-bases the progress bar from a track that becomes the content.
    pub fn apply_track_progress(&mut self, track: &TrackInfo, now: u64)
        ensures
            final(self)@ == (Pill { progress: old(self)@.progress.rebased(*track, now), ..old(self)@ }),
    {
        self.progress.apply_track(track, now);
    }

    /// Re-bases the progress bar from a live report.
    pub fn apply_progress(
        &mut self,
        position_us: Option<i64>,
        duration_secs: Option<u64>,
        rate_milli: Option<i64>,
        now: u64,
    )
        ensures
            final(self)@ == (Pill {
                progress: old(self)@.progress.reported(position_us, duration_secs, rate_milli, now),
                ..old(self)@
            }),
    {
        self.progress.apply_progress(position_us, duration_secs, rate_milli, now);
    }

    /// Remembers the track of its source as the most recent one.
    pub fn cache_track(&mut self, track: &TrackInfo)
        ensures
            final(self)@ == (Pill { track_cache: crate::ledger::cached(old(self)@.track_cache, *track), ..old(self)@ }),
    {
        self.track_cache.cache_track(track);
    }

    /// Records a source's playback state.
    pub fn remember_source_state(&mut self, source: &String, state: PlaybackState)
        ensures
            final(self)@ == old(self)@.noting(*source, state),
    {
        proof {
            reveal(Pill::noting);
        }
        self.source_state.remember(source, state);
    }

    /// Adds a notification to the queue.
    pub fn enqueue(&mut self, event: MediaEvent)
        ensures
            final(self)@ == (Pill { pending: crate::queue::enqueued(old(self)@.pending, event), ..old(self)@ }),
    {
        enqueue(&mut self.pending, event);
    }

    pub(crate) fn adopt(&mut self, track: &TrackInfo)
        ensures
            final(self)@ == old(self)@.adopted(*track),
    {
        proof {
            reveal(Pill::adopted);
        }
        self.current_source = Some(track.source_app.clone());
        self.last_track = Some(track.clone());
        self.cache_track(track);
    }
}

/// A moving pill's tick period under the configured cap.
pub(crate) fn capped_period(raw: u32, config: &Config) -> (r: u32)
    ensures
        r == moving_period(raw, *config),
{
    let hz: u32 = match config.overlay.max_tick_hz {
        Some(h) => h,
        None => 60,
    };
    let cap: u32 = if hz < 60 {
        16
    } else if hz > 1000 {
        1
    } else {
        1000 / hz
    };
    let period: u32 = if raw < cap {
        cap
    } else {
        raw
    };
    if period < 1 {
        1
    } else if period > 100 {
        100
    } else {
        period
    }
}

} // verus!
