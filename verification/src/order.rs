//! What every reaction of the overlay keeps.
use crate::config::{
    full_duration, later, refresh_duration, BehaviorConfig, Config, LayoutMode, OverlayConfig, OverlayPos,
};
use crate::events::{
    is_playing, is_state_of, is_tombstone, is_track_of, source_of, source_of_held, MediaEvent, PlaybackState, TrackInfo,
};
use crate::geometry::MorphProgress;
use crate::hover::engaged;
use crate::ledger::{
    cache_ok, cached, law_cache_holds_the_newest_track, law_ledger_stays_bounded, law_removal_leaves_the_other_sources,
    ledger_ok, other_sources, pinned, remembered, successor,
};
use crate::pill::{
    bumped, lines_at_rest, scrolls, ContentFade, Effect, Env, Foreground, Frame, Hover, Look, Phase, Pill, Place, Rest,
    Reversal, Timer, STATIC_TICK_MS, WATCHDOG_TICK_MS,
};
use crate::queue::{law_dropping_keeps_the_order, law_queue_holds_one_event_per_source, others_waiting, queue_ok};
use crate::text::optional_text;
use crate::window::Message;
use vstd::prelude::*;

verus! {

/// Whether an event can be shown as a pill.
pub open spec fn showable(event: MediaEvent) -> bool {
    source_of(event) is Some
}

impl Pill {
    /// The overlay in order: queue, cache and ledger are bounded and hold one
    /// entry per source; the layout is a drawable one; a hidden pill has no
    /// content, deadline, name or morph, and a visible one has content and a
    /// deadline; only a fully shown pill morphs under the cursor; the auto-hide
    /// watchdog looks out only for a hidden pill with a hold, while
    /// notifications are on.
    pub open spec fn consistent(self) -> bool {
        &&& queue_ok(self.pending)
        &&& cache_ok(self.track_cache)
        &&& ledger_ok(self.source_state)
        &&& self.place.layout == LayoutMode::Expanded || self.place.layout == LayoutMode::Compact
        &&& self.is_hidden() <==> self.content is None
        &&& self.is_hidden() <==> self.dismiss_at is None
        &&& self.is_hidden() ==> {
            &&& self.pill_name is None
            &&& self.look.text is None
            &&& self.look.fade is None
            &&& self.look.art is None
            &&& self.hover.dismiss_at is None
        }
        &&& self.hover.expand is Some ==> self.phase == Phase::Shown
        &&& self.content matches Some(e) ==> showable(e)
        &&& self.held_content matches Some(e) ==> showable(e)
        &&& self.rest.watchdog ==> self.enabled && self.is_hidden() && self.held_content is Some
    }
}

impl Pill {
    /// Whether another state has the same settings, and its auto-hide watchdog
    /// looks out only where it did before or where the auto-hide applies.
    pub open spec fn same_rules(self, other: Pill) -> bool {
        &&& other.config == self.config
        &&& other.rest.watchdog ==> self.rest.watchdog || (self.persistent()
            && self.config.behavior.hide_for_auto_compact_sources)
    }
}

/// The overlay starts in order.
pub proof fn law_initial_state_is_consistent(config: Config, expanded: OverlayPos, compact: OverlayPos, now: u64)
    ensures
        Pill::initial(config, expanded, compact, now).consistent(),
{
}

pub(crate) proof fn lemma_relaid(p: Pill, env: Env)
    ensures
        p.relaid(env) == (Pill { place: p.relaid(env).place, fg: p.sampled(env).fg, ..p }),
        p.relaid(env).place.layout == LayoutMode::Expanded || p.relaid(env).place.layout == LayoutMode::Compact,
        p.relaid(env).place.layout == LayoutMode::Expanded ==> p.config.overlay.layout == LayoutMode::Expanded
            || p.config.overlay.layout == LayoutMode::Auto,
{
    reveal(Pill::relaid);
}

pub(crate) proof fn lemma_without_timer(p: Pill)
    ensures
        p.without_timer() == (Pill { timer: p.without_timer().timer, effects: p.without_timer().effects, ..p }),
        !p.without_timer().timer.armed,
        p.without_timer().timer.period == p.timer.period,
{
    reveal(Pill::without_timer);
}

pub(crate) proof fn lemma_with_timer(p: Pill)
    ensures
        p.with_timer() == (Pill { timer: p.with_timer().timer, effects: p.with_timer().effects, ..p }),
        p.with_timer().timer.armed,
        p.with_timer().timer.period == p.timer.period,
{
    reveal(Pill::with_timer);
}

/// A synchronised timer runs at the period that the pill's motion asks for:
/// the coarse static one where nothing moves.
pub proof fn law_timer_follows_the_motion(p: Pill, env: Env)
    ensures
        p.synced(env) == (Pill { timer: p.synced(env).timer, effects: p.synced(env).effects, ..p }),
        p.synced(env).timer.armed,
        p.synced(env).timer.period == p.wanted_period(env),
        !p.needs_frames(env.now) ==> p.synced(env).timer.period == STATIC_TICK_MS,
        p.needs_frames(env.now) ==> 1 <= p.synced(env).timer.period <= 100,
{
    reveal(Pill::synced);
    reveal(Pill::with_timer);
    reveal(Pill::without_timer);
    reveal(Pill::wanted_period);
}

pub(crate) proof fn lemma_rendered(p: Pill)
    ensures
        p.rendered() == (Pill { effects: p.rendered().effects, ..p }),
{
    reveal(Pill::rendered);
}

proof fn lemma_with_text(p: Pill)
    ensures
        p.with_text() == (Pill {
            pill_name: p.with_text().pill_name,
            look: Look { text: p.with_text().look.text, ..p.look },
            effects: p.with_text().effects,
            ..p
        }),
{
    reveal(Pill::with_text);
}

pub(crate) proof fn lemma_with_content(p: Pill, event: MediaEvent, now: u64)
    ensures
        p.with_content(event, now) == (Pill {
            content: Some(event),
            now_showing: p.with_content(event, now).now_showing,
            pill_name: p.with_content(event, now).pill_name,
            look: p.with_content(event, now).look,
            effects: p.with_content(event, now).effects,
            ..p
        }),
        p.with_content(event, now).look.fade == p.look.fade,
{
    reveal(Pill::with_content);
    reveal(Pill::with_text);
}

pub(crate) proof fn lemma_with_progress_of(p: Pill, event: MediaEvent, now: u64)
    ensures
        p.with_progress_of(event, now) == (Pill { progress: p.with_progress_of(event, now).progress, ..p }),
{
    reveal(Pill::with_progress_of);
}

/// Showing an event puts it on screen for the given time, unless
/// notifications are off: then nothing changes. Queue, cache, ledger, last
/// track and settings are not touched.
pub proof fn law_show_puts_the_event_on_screen(p: Pill, event: MediaEvent, full: bool, duration_ms: u64, env: Env)
    ensures
        !p.enabled ==> p.shown_for(event, full, duration_ms, env) == p,
        p.enabled ==> {
            let s = p.shown_for(event, full, duration_ms, env);
            &&& s.content == Some(event)
            &&& s.dismiss_at == Some(later(env.now, duration_ms))
            &&& s.phase == (if full {
                Phase::Expanding(env.now)
            } else {
                Phase::Light(env.now)
            })
            &&& s.hover.expand is None
            &&& s.hover.dismiss_at is None
            &&& s.look.fade is None
            &&& !s.rest.faded
            &&& !s.rest.watchdog
            &&& s.timer.armed
            &&& s.held_content == p.held_content || s.held_content == Some(event)
            &&& s.place.layout == LayoutMode::Expanded || s.place.layout == LayoutMode::Compact
            &&& s.config == p.config
            &&& s.enabled
            &&& s.pending == p.pending
            &&& s.last_track == p.last_track
            &&& s.current_source == p.current_source
            &&& s.track_cache == p.track_cache
            &&& s.source_state == p.source_state
        },
{
    reveal(Pill::shown_for);
    if p.enabled {
        let a = Pill { rest: Rest { watchdog: false, ..p.rest }, ..p };
        lemma_relaid(a, env);
        let b = a.relaid(env);
        reveal(Pill::with_collapse_flag);
        let c = b.with_collapse_flag(event, env).emit(Effect::StopIdleRelease);
        lemma_with_progress_of(c, event, env.now);
        let d = c.with_progress_of(event, env.now);
        lemma_with_content(d, event, env.now);
        let e = d.with_content(event, env.now);
        let f = Pill {
            dismiss_at: Some(later(env.now, duration_ms)),
            phase: if full {
                Phase::Expanding(env.now)
            } else {
                Phase::Light(env.now)
            },
            hover: Hover { dismiss_at: None, expand: None, expanded_once: false, leave_at: None, ..e.hover },
            rest: Rest { faded: false, ..e.rest },
            look: Look { fade: None, ..e.look },
            ..e
        };
        law_timer_follows_the_motion(f, env);
        lemma_rendered(f.synced(env).emit(Effect::ShowWindow));
    }
}

/// Showing keeps the overlay in order.
pub proof fn law_show_keeps_order(p: Pill, event: MediaEvent, full: bool, duration_ms: u64, env: Env)
    requires
        p.consistent(),
        showable(event),
    ensures
        p.shown_for(event, full, duration_ms, env).consistent(),
        p.same_rules(p.shown_for(event, full, duration_ms, env)),
        p.shown(event, full, env).consistent(),
        p.same_rules(p.shown(event, full, env)),
{
    reveal(Pill::shown);
    law_show_puts_the_event_on_screen(p, event, full, duration_ms, env);
    law_show_puts_the_event_on_screen(p, event, full, full_duration(p.config), env);
}

impl Pill {
    /// The same state without the auto-hide watchdog.
    pub open spec fn unwatched(self) -> Pill {
        Pill { rest: Rest { watchdog: false, ..self.rest }, ..self }
    }
}

proof fn lemma_show_ends_the_watch(p: Pill, event: MediaEvent, full: bool, env: Env)
    ensures
        p.enabled ==> p.shown(event, full, env) == p.unwatched().shown(event, full, env),
        !p.rest.watchdog ==> p.unwatched() == p,
{
    reveal(Pill::shown);
    reveal(Pill::shown_for);
}

proof fn lemma_with_dissolve(p: Pill, env: Env)
    ensures
        p.with_dissolve(env) == (Pill {
            frame: p.with_dissolve(env).frame,
            look: Look { fade: p.with_dissolve(env).look.fade, ..p.look },
            timer: p.with_dissolve(env).timer,
            effects: p.with_dissolve(env).effects,
            ..p
        }),
        p.with_dissolve(env).look.fade is Some <==> p.phase == Phase::Shown && p.hover.expand is None
            && p.frame.has_frame && env.animations,
{
    reveal(Pill::with_dissolve);
    if p.phase == Phase::Shown && p.hover.expand is None && p.frame.has_frame && env.animations {
        let q = Pill {
            frame: Frame { has_frame: false, ..p.frame },
            look: Look {
                fade: Some(ContentFade { start: env.now, from_w: p.frame.w, from_h: p.frame.h }),
                ..p.look
            },
            ..p
        };
        law_timer_follows_the_motion(q, env);
    }
}

/// A refresh replaces the content of a visible pill in place: a collapsing
/// pill is revived, the deadline only ever moves out and lies at least
/// `min_visible` ahead, and a persistent pill is solid again. Queue, cache,
/// ledger, last track and settings are not touched.
pub proof fn law_refresh_keeps_the_pill_up(p: Pill, event: MediaEvent, min_visible: u64, env: Env)
    requires
        !p.auto_hidden(),
    ensures
        ({
            let s = p.updated(event, min_visible, env);
            &&& s.content == Some(event)
            &&& s.phase == (if p.is_collapsing() {
                Phase::Expanding(env.now)
            } else {
                p.phase
            })
            &&& p.dismiss_at matches Some(d) ==> s.dismiss_at is Some && s.dismiss_at->0 >= d && s.dismiss_at->0
                >= later(env.now, min_visible)
            &&& p.dismiss_at is None ==> s.dismiss_at is None
            &&& s.hover == p.hover
            &&& p.persistent() ==> !s.rest.faded
            &&& s.held_content == (if p.rest.collapse_on_dismiss {
                Some(event)
            } else {
                p.held_content
            })
            &&& s.look.fade is Some <==> p.phase == Phase::Shown && p.hover.expand is None && p.frame.has_frame
                && env.animations
            &&& s.place.layout == LayoutMode::Expanded || s.place.layout == LayoutMode::Compact
            &&& s.config == p.config
            &&& s.enabled == p.enabled
            &&& s.pending == p.pending
            &&& s.last_track == p.last_track
            &&& s.current_source == p.current_source
            &&& s.track_cache == p.track_cache
            &&& s.source_state == p.source_state
            &&& s.rest.collapse_on_dismiss == p.rest.collapse_on_dismiss
            &&& s.rest.watchdog == p.rest.watchdog
            &&& s.fg == p.sampled(env).fg
        }),
{
    reveal(Pill::updated);
    lemma_relaid(p, env);
    let r = p.relaid(env);
    lemma_with_dissolve(r, env);
    let d = r.with_dissolve(env);
    lemma_with_progress_of(d, event, env.now);
    let a = d.with_progress_of(event, env.now);
    let b = if a.rest.collapse_on_dismiss {
        Pill { held_content: Some(event), ..a }
    } else {
        a
    };
    lemma_with_content(b, event, env.now);
    let c = b.with_content(event, env.now);
    let f = Pill {
        dismiss_at: match c.dismiss_at {
            Some(d) => Some(
                if d < later(env.now, min_visible) {
                    later(env.now, min_visible)
                } else {
                    d
                },
            ),
            None => None,
        },
        phase: if c.is_collapsing() {
            Phase::Expanding(env.now)
        } else {
            c.phase
        },
        rest: Rest {
            faded: if c.persistent() {
                false
            } else {
                c.rest.faded
            },
            ..c.rest
        },
        ..c
    };
    lemma_rendered(f);
}

/// An update of an auto-hidden pill surfaces as a fresh pill.
pub proof fn law_update_surfaces_an_auto_hidden_pill(p: Pill, event: MediaEvent, min_visible: u64, env: Env)
    requires
        p.auto_hidden(),
    ensures
        p.updated(event, min_visible, env) == p.shown(event, event is TrackChanged, env),
{
    reveal(Pill::updated);
}

proof fn lemma_updated(p: Pill, event: MediaEvent, min_visible: u64, env: Env)
    requires
        p.consistent(),
        showable(event),
        !p.is_hidden() || p.auto_hidden(),
    ensures
        p.updated(event, min_visible, env).consistent(),
        p.same_rules(p.updated(event, min_visible, env)),
{
    if p.auto_hidden() {
        law_update_surfaces_an_auto_hidden_pill(p, event, min_visible, env);
        law_show_keeps_order(p, event, event is TrackChanged, 0, env);
    } else {
        law_refresh_keeps_the_pill_up(p, event, min_visible, env);
    }
}

pub(crate) proof fn lemma_adopted(p: Pill, track: TrackInfo)
    ensures
        p.adopted(track) == (Pill {
            current_source: Some(track.source_app),
            last_track: Some(track),
            track_cache: cached(p.track_cache, track),
            ..p
        }),
        p.consistent() ==> p.adopted(track).consistent(),
{
    reveal(Pill::adopted);
    if cache_ok(p.track_cache) {
        law_cache_holds_the_newest_track(p.track_cache, track);
    }
}

proof fn lemma_swapped_to(p: Pill, track: TrackInfo, env: Env)
    requires
        p.consistent(),
        !p.is_hidden() || p.auto_hidden(),
    ensures
        p.swapped_to(track, env).consistent(),
        p.same_rules(p.swapped_to(track, env)),
{
    reveal(Pill::swapped_to);
    lemma_adopted(p, track);
    lemma_updated(p.adopted(track), MediaEvent::TrackChanged(track), full_duration(p.config), env);
}

pub(crate) proof fn lemma_next_shown(p: Pill, env: Env)
    requires
        p.consistent(),
    ensures
        p.next_shown(env).consistent(),
        p.same_rules(p.next_shown(env)),
{
    reveal(Pill::next_shown);
    if p.pending.len() > 0 {
        let event = p.pending[0];
        let s = Pill { pending: p.pending.skip(1), ..p };
        lemma_queue_tail(p.pending);
        assert(showable(event));
        if let MediaEvent::TrackChanged(track) = event {
            lemma_adopted(s, track);
            law_show_keeps_order(s.adopted(track), event, true, 0, env);
        } else {
            law_show_keeps_order(s, event, false, 0, env);
        }
    }
}

proof fn lemma_queue_tail(q: Seq<MediaEvent>)
    requires
        queue_ok(q),
        q.len() > 0,
    ensures
        queue_ok(q.skip(1)),
{
    let t = q.skip(1);
    assert forall|i: int| 0 <= i < t.len() implies source_of(#[trigger] t[i]) is Some by {
        assert(source_of(q[i + 1]) is Some);
    }
    assert forall|i: int, j: int| 0 <= i < j < t.len() implies source_of(#[trigger] t[i]) != source_of(
        #[trigger] t[j],
    ) by {
        assert(source_of(q[i + 1]) != source_of(q[j + 1]));
    }
}

/// A cleared pill is off the screen with nothing left of its content.
pub proof fn law_cleared_pill_keeps_nothing_on_screen(p: Pill)
    ensures
        p.cleared().is_hidden(),
        p.cleared().content is None,
        p.cleared().dismiss_at is None,
        p.cleared().pill_name is None,
        p.cleared().current_source is None,
        p.cleared().hover.expand is None,
        p.cleared().hover.dismiss_at is None,
        p.cleared().look.text is None,
        p.cleared().look.fade is None,
        p.cleared().look.art is None,
        p.cleared().look.palette is None,
        !p.cleared().rest.watchdog,
        !p.cleared().timer.armed,
        p.cleared().config == p.config,
        p.cleared().enabled == p.enabled,
        p.cleared().pending == p.pending,
        p.cleared().place == p.place,
        p.cleared().held_content == p.held_content,
        p.cleared().last_track == p.last_track,
        p.cleared().track_cache == p.track_cache,
        p.cleared().source_state == p.source_state,
{
    reveal(Pill::cleared);
    reveal(Pill::without_timer);
}

pub(crate) proof fn lemma_hidden_away(p: Pill, env: Env)
    requires
        queue_ok(p.pending),
        cache_ok(p.track_cache),
        ledger_ok(p.source_state),
        p.place.layout == LayoutMode::Expanded || p.place.layout == LayoutMode::Compact,
        p.held_content matches Some(e) ==> showable(e),
    ensures
        p.hidden_away(env).consistent(),
        p.same_rules(p.hidden_away(env)),
{
    reveal(Pill::hidden_away);
    law_cleared_pill_keeps_nothing_on_screen(p);
    let c = p.cleared();
    assert(c.consistent());
    lemma_next_shown(c, env);
    let s = c.next_shown(env);
    let w = Pill { rest: Rest { watchdog: s.watched(), ..s.rest }, ..s };
    lemma_with_timer(Pill { timer: Timer { period: WATCHDOG_TICK_MS, ..w.timer }, ..w });
}

pub(crate) proof fn lemma_noting(p: Pill, source: String, state: PlaybackState)
    ensures
        p.noting(source, state) == (Pill { source_state: remembered(p.source_state, source, state), ..p }),
        p.consistent() ==> p.noting(source, state).consistent(),
{
    reveal(Pill::noting);
    if ledger_ok(p.source_state) {
        law_ledger_stays_bounded(p.source_state, source, state);
    }
}

proof fn lemma_handed_over(p: Pill, source: Seq<char>, content_goes: bool, held_goes: bool, last_goes: bool, env: Env)
    requires
        p.consistent(),
        content_goes ==> p.content is Some,
    ensures
        p.handed_over(source, content_goes, held_goes, last_goes, env).consistent(),
        p.same_rules(p.handed_over(source, content_goes, held_goes, last_goes, env)),
{
    reveal(Pill::handed_over);
    reveal(Pill::stood_down);
    reveal(Pill::without_timer);
    reveal(Pill::with_last_track_from);
    let next = successor(p.track_cache, p.source_state, source);
    if content_goes && next is None {
        lemma_hidden_away(Pill { held_content: None, last_track: None, ..p }, env);
    } else if content_goes {
        lemma_swapped_to(p, next->0, env);
    }
}

proof fn lemma_retired(p: Pill, source: String, env: Env)
    requires
        p.consistent(),
    ensures
        p.retired(source, env).consistent(),
        p.same_rules(p.retired(source, env)),
        p.gone(source, env).consistent(),
        p.same_rules(p.gone(source, env)),
{
    reveal(Pill::retired);
    reveal(Pill::gone);
    lemma_noting(p, source, PlaybackState::Stopped);
    let s = p.noting(source, PlaybackState::Stopped);
    law_removal_leaves_the_other_sources(s.track_cache, source@);
    law_dropping_keeps_the_order(s.pending, source@);
    let t = Pill {
        track_cache: other_sources(s.track_cache, source@),
        pending: others_waiting(s.pending, source@),
        ..s
    };
    assert(t.consistent());
    lemma_handed_over(
        t,
        source@,
        source_of_held(t.content) == Some(source@),
        source_of_held(t.held_content) == Some(source@),
        t.last_track matches Some(l) && l.source_app@ == source@,
        env,
    );
    let g = Pill { pending: others_waiting(s.pending, source@), ..s };
    assert(g.consistent());
    lemma_handed_over(
        g,
        source@,
        is_track_of(g.content, source@),
        is_track_of(g.held_content, source@),
        g.last_track matches Some(l) && l.source_app@ == source@,
        env,
    );
}

proof fn lemma_with_track(p: Pill, track: TrackInfo, env: Env)
    requires
        p.consistent(),
    ensures
        p.with_track(track, env).consistent(),
        p.same_rules(p.with_track(track, env)),
{
    reveal(Pill::with_track);
    let event = MediaEvent::TrackChanged(track);
    lemma_adopted(p, track);
    if p.refreshes(track) {
        lemma_updated(p.adopted(track), event, refresh_duration(p.config), env);
    } else if p.is_held(env.now) || p.on_screen(track.source_app@) || p.active() {
        lemma_swapped_to(p, track, env);
    } else if p.before_first_show() {
        law_show_keeps_order(p.adopted(track), event, true, 0, env);
    } else {
        law_queue_holds_one_event_per_source(p.pending, event);
    }
}

proof fn lemma_with_state(p: Pill, state: PlaybackState, source: String, batch: Seq<MediaEvent>, env: Env)
    requires
        p.consistent(),
    ensures
        p.with_state(state, source, batch, env).consistent(),
        p.same_rules(p.with_state(state, source, batch, env)),
{
    reveal(Pill::with_state);
    let event = MediaEvent::PlaybackStateChanged(state, source);
    if p.state_is_redundant(state, source@, batch) {
    } else if is_track_of(p.content, source@) || is_state_of(p.content, source@) || p.active() {
        lemma_updated(p, event, full_duration(p.config), env);
    } else if p.before_first_show() {
        law_show_keeps_order(p, event, false, 0, env);
    } else {
        law_queue_holds_one_event_per_source(p.pending, event);
    }
}

pub(crate) proof fn lemma_noted(p: Pill, event: MediaEvent)
    ensures
        p.noted(event) == (Pill { source_state: p.noted(event).source_state, ..p }),
        p.consistent() ==> p.noted(event).consistent(),
{
    reveal(Pill::noted);
    match event {
        MediaEvent::TrackChanged(track) => {
            if let Some(state) = track.playback_state {
                lemma_noting(p, track.source_app, state);
            }
        },
        MediaEvent::PlaybackStateChanged(state, source) => {
            lemma_noting(p, source, state);
        },
        _ => {},
    }
}

/// Any event keeps the overlay in order.
pub proof fn law_event_keeps_order(p: Pill, event: MediaEvent, batch: Seq<MediaEvent>, env: Env)
    requires
        p.consistent(),
    ensures
        p.after_event(event, batch, env).consistent(),
        p.same_rules(p.after_event(event, batch, env)),
{
    reveal(Pill::after_event);
    lemma_noted(p, event);
    let s = p.noted(event);
    match event {
        MediaEvent::SessionRejected { source_app, .. } => {
            lemma_retired(s, source_app, env);
        },
        MediaEvent::SourceGone { source_app } => {
            lemma_retired(s, source_app, env);
        },
        MediaEvent::TrackChanged(track) => {
            law_cache_holds_the_newest_track(s.track_cache, track);
            lemma_with_track(s, track, env);
        },
        MediaEvent::PlaybackStateChanged(state, source) => {
            lemma_with_state(s, state, source, batch, env);
        },
        MediaEvent::ProgressChanged { source_app, position_us, duration_secs, playback_rate_milli } => {
            law_report_moves_only_the_bar(s, source_app@, position_us, duration_secs, playback_rate_milli, env);
        },
        _ => {},
    }
}

/// A progress report changes the bar and asks for a frame; it never changes
/// the content, the queue, the phase or the deadline.
pub proof fn law_report_moves_only_the_bar(
    p: Pill,
    source: Seq<char>,
    position_us: Option<i64>,
    duration_secs: Option<u64>,
    rate_milli: Option<i64>,
    env: Env,
)
    ensures
        ({
            let s = p.with_report(source, position_us, duration_secs, rate_milli, env);
            &&& s == (Pill { progress: s.progress, effects: s.effects, ..p })
            &&& source_of_held(p.content) != Some(source) ==> s == p
            &&& p.is_hidden() ==> s.effects == p.effects
        }),
{
    reveal(Pill::with_report);
    let q = Pill { progress: p.progress.reported(position_us, duration_secs, rate_milli, env.now), ..p };
    lemma_rendered(q);
}

/// A batch of events keeps the overlay in order.
pub proof fn law_batch_keeps_order(p: Pill, batch: Seq<MediaEvent>, n: nat, env: Env)
    requires
        p.consistent(),
        n <= batch.len(),
    ensures
        p.after_events(batch, n, env).consistent(),
        p.same_rules(p.after_events(batch, n, env)),
    decreases n,
{
    if n > 0 {
        law_batch_keeps_order(p, batch, (n - 1) as nat, env);
        law_event_keeps_order(p.after_events(batch, (n - 1) as nat, env), batch[n - 1], batch, env);
    }
}

/// Receiving events and flushing the queue keep the overlay in order.
pub proof fn law_receiving_keeps_order(p: Pill, batch: Seq<MediaEvent>, env: Env)
    requires
        p.consistent(),
    ensures
        p.received(batch, env).consistent(),
        p.same_rules(p.received(batch, env)),
        p.flushed(env).consistent(),
        p.same_rules(p.flushed(env)),
{
    reveal(Pill::received);
    reveal(Pill::flushed);
    law_batch_keeps_order(p, batch, batch.len(), env);
    lemma_next_shown(p.emit(Effect::StopDebounce), env);
}

/// Turning notifications on or off keeps the overlay in order.
pub proof fn law_toggle_keeps_order(p: Pill, env: Env)
    requires
        p.consistent(),
    ensures
        p.toggled(env).consistent(),
        p.same_rules(p.toggled(env)),
{
    reveal(Pill::toggled);
    reveal(Pill::restored);
    let s = Pill { enabled: !p.enabled, ..p };
    if s.enabled {
        let pin = pinned(s.track_cache, s.source_state, optional_text(s.config.behavior.pinned_source));
        let next = successor(s.track_cache, s.source_state, Seq::empty());
        if pin is Some {
            law_show_keeps_order(s, MediaEvent::TrackChanged(pin->0), true, 0, env);
        } else if next is Some {
            law_show_keeps_order(s, MediaEvent::TrackChanged(next->0), true, 0, env);
        } else if s.held_content is Some {
            law_show_keeps_order(Pill { held_content: None, ..s }, s.held_content->0, true, 0, env);
        } else if s.last_track is Some {
            law_show_keeps_order(s, MediaEvent::TrackChanged(s.last_track->0), true, 0, env);
        }
    } else {
        lemma_hidden_away(Pill { pending: Seq::empty(), ..s }, env);
    }
}

/// A sample keeps the overlay in order, and shows its track, with the palette
/// that it carries, for the full duration whether or not notifications are on.
pub proof fn law_sample_keeps_order(p: Pill, track: TrackInfo, env: Env)
    requires
        p.consistent(),
    ensures
        p.sampled_with(track, env).consistent(),
        p.same_rules(p.sampled_with(track, env)),
        p.sampled_with(track, env).content == Some(MediaEvent::TrackChanged(track)),
        p.sampled_with(track, env).phase == Phase::Light(env.now),
        p.sampled_with(track, env).look.content_palette == track.palette,
        p.sampled_with(track, env).dismiss_at == Some(later(env.now, full_duration(p.config))),
{
    reveal(Pill::sampled_with);
    let a = p.emit(Effect::StopIdleRelease);
    lemma_relaid(a, env);
    let s = a.relaid(env);
    let b = Pill {
        content: Some(MediaEvent::TrackChanged(track)),
        look: Look { content_rev: bumped(s.look.content_rev), content_palette: track.palette, ..s.look },
        ..s
    };
    lemma_with_text(b);
    let t = b.with_text();
    let f = Pill {
        dismiss_at: Some(later(env.now, full_duration(t.config))),
        phase: Phase::Light(env.now),
        look: Look { scroll: lines_at_rest(env.now), fade: None, ..t.look },
        hover: Hover { dismiss_at: None, expand: None, expanded_once: false, leave_at: None, ..t.hover },
        rest: Rest { watchdog: false, ..t.rest },
        ..t
    };
    law_timer_follows_the_motion(f, env);
    lemma_rendered(f.synced(env).emit(Effect::ShowWindow));
}

pub(crate) proof fn lemma_repositioned(p: Pill, env: Env)
    ensures
        p.repositioned(env) == (Pill { effects: p.repositioned(env).effects, ..p }),
{
    reveal(Pill::repositioned);
    lemma_rendered(p);
}

pub(crate) proof fn lemma_reanchored(p: Pill, env: Env)
    ensures
        p.reanchored(env) == (Pill {
            place: p.reanchored(env).place,
            fg: p.reanchored(env).fg,
            effects: p.reanchored(env).effects,
            ..p
        }),
        p.reanchored(env).place.layout == LayoutMode::Expanded || p.reanchored(env).place.layout
            == LayoutMode::Compact,
{
    reveal(Pill::reanchored);
    lemma_relaid(p, env);
    let s = p.relaid(env);
    if env.target is Some {
        let t = Pill { place: Place { anchor_edge: Some(Pill::anchor_edge(env)), ..s.place }, ..s };
        lemma_rendered(t);
        lemma_repositioned(t, env);
    }
}

/// A foreground change keeps the overlay in order.
pub proof fn law_foreground_change_keeps_order(p: Pill, env: Env)
    requires
        p.consistent(),
    ensures
        p.foreground_changed(env).consistent(),
        p.same_rules(p.foreground_changed(env)),
{
    reveal(Pill::foreground_changed);
    let hide = p.hides_for(env);
    let s = Pill { rest: Rest { collapse_on_dismiss: hide, ..p.sampled(env).rest }, ..p.sampled(env) };
    lemma_reanchored(s, env);
    lemma_reanchored(p, env);
    if p.persistent() && p.config.behavior.hide_for_auto_compact_sources {
        if hide && !p.is_hidden() {
            lemma_hidden_away(Pill { held_content: s.content, ..s }, env);
        } else if p.is_hidden() && !hide && s.held_content is Some {
            let event = s.held_content->0;
            let r = Pill { held_content: None, ..s };
            lemma_show_ends_the_watch(r, event, event is TrackChanged, env);
            law_show_keeps_order(r.unwatched(), event, event is TrackChanged, 0, env);
        }
    }
}

proof fn lemma_hidden_ticked(p: Pill, env: Env)
    requires
        p.consistent(),
    ensures
        p.hidden_ticked(env).consistent(),
        p.same_rules(p.hidden_ticked(env)),
{
    reveal(Pill::hidden_ticked);
    reveal(Pill::watchdog_ticked);
    let s = Pill { timer: Timer { last_tick: env.now, ..p.timer }, ..p };
    lemma_without_timer(Pill { rest: Rest { watchdog: false, ..s.rest }, ..s });
    law_foreground_change_keeps_order(
        Pill { fg: Foreground { geometry_check: Some(env.now), ..s.fg }, ..s }.sampled(env),
        env,
    );
}

pub(crate) proof fn lemma_tick_standing(p: Pill, env: Env)
    ensures
        p.tick_standing(env) == (Pill {
            progress: p.tick_standing(env).progress,
            timer: p.tick_standing(env).timer,
            effects: p.tick_standing(env).effects,
            ..p
        }),
{
    reveal(Pill::tick_standing);
}

pub(crate) proof fn lemma_tick_cursor(p: Pill, over: bool, env: Env)
    ensures
        ({
            let s = p.tick_cursor(over, env);
            &&& s == (Pill { hover: s.hover, dismiss_at: s.dismiss_at, rest: s.rest, ..p })
            &&& s.hover.expand == p.hover.expand
            &&& s.hover.expanded_once == p.hover.expanded_once
            &&& s.hover.dismiss_at == p.hover.dismiss_at
            &&& s.hover.cursor_over == over
            &&& over ==> s.hover.leave_at is None
            &&& !over ==> s.hover.leave_at == (if p.hover.leave_at is None {
                Some(env.now)
            } else {
                p.hover.leave_at
            })
            &&& !over ==> s.rest == p.rest
            &&& s.rest.collapse_on_dismiss == p.rest.collapse_on_dismiss
            &&& s.rest.watchdog == p.rest.watchdog
            &&& s.dismiss_at == (if over && p.persistent() && p.rest.faded {
                Some(later(env.now, full_duration(p.config)))
            } else {
                p.dismiss_at
            })
        }),
{
    reveal(Pill::tick_cursor);
}

pub(crate) proof fn lemma_tick_hover(p: Pill, over: bool, is_engaged: bool, reversal: Reversal, env: Env)
    ensures
        ({
            let s = p.tick_hover(over, is_engaged, reversal, env);
            &&& s == (Pill { hover: s.hover, dismiss_at: s.dismiss_at, ..p })
            &&& p.dismiss_at is Some ==> s.dismiss_at is Some
            &&& p.phase != Phase::Shown && p.hover.expand is None ==> s.hover.expand is None
            &&& s.hover.leave_at == p.hover.leave_at
        }),
{
    reveal(Pill::tick_hover);
    reveal(Pill::tick_settle);
    reveal(Pill::stepped);
}

pub(crate) proof fn lemma_tick_deadline(p: Pill, over: bool, held: bool, env: Env)
    ensures
        ({
            let s = p.tick_deadline(over, held, env);
            &&& s == (Pill { dismiss_at: s.dismiss_at, rest: s.rest, ..p })
            &&& p.dismiss_at is Some ==> s.dismiss_at is Some
            &&& s.rest.collapse_on_dismiss == p.rest.collapse_on_dismiss
            &&& s.rest.watchdog == p.rest.watchdog
        }),
{
    reveal(Pill::tick_deadline);
}

proof fn lemma_tick_dismiss(p: Pill, over: bool, held: bool, stopped: bool, env: Env)
    requires
        p.consistent(),
        !p.is_hidden(),
    ensures
        p.tick_dismiss(over, held, stopped, env).consistent(),
        p.same_rules(p.tick_dismiss(over, held, stopped, env)),
        !p.tick_dismiss(over, held, stopped, env).is_hidden(),
{
    reveal(Pill::tick_dismiss);
    reveal(Pill::persistent_rest);
    if p.persistent() && !p.rest.collapse_on_dismiss {
        if p.rests(over, env.now) && p.pin_to_return_to() is Some {
            lemma_swapped_to(p, p.pin_to_return_to()->0, env);
            lemma_swap_stays_visible(p, p.pin_to_return_to()->0, env);
        } else if stopped && p.rests(over, env.now) && p.tombstone_successor() is Some {
            lemma_swapped_to(p, p.tombstone_successor()->0, env);
            lemma_swap_stays_visible(p, p.tombstone_successor()->0, env);
        }
    }
}

pub(crate) proof fn lemma_swap_stays_visible(p: Pill, track: TrackInfo, env: Env)
    requires
        !p.is_hidden(),
    ensures
        !p.swapped_to(track, env).is_hidden(),
        p.swapped_to(track, env).content == Some(MediaEvent::TrackChanged(track)),
        p.swapped_to(track, env).last_track == Some(track),
        p.swapped_to(track, env).current_source == Some(track.source_app),
        p.swapped_to(track, env).track_cache == cached(p.track_cache, track),
        p.swapped_to(track, env).source_state == p.source_state,
        p.swapped_to(track, env).pending == p.pending,
        p.swapped_to(track, env).config == p.config,
        p.swapped_to(track, env).hover == p.hover,
        p.is_collapsing() || p.swapped_to(track, env).phase == p.phase,
        p.swapped_to(track, env).held_content == p.held_content || p.swapped_to(track, env).held_content == Some(
            MediaEvent::TrackChanged(track),
        ),
        p.swapped_to(track, env).rest.collapse_on_dismiss == p.rest.collapse_on_dismiss,
        p.swapped_to(track, env).fg == p.sampled(env).fg,
{
    reveal(Pill::swapped_to);
    lemma_adopted(p, track);
    law_refresh_keeps_the_pill_up(p.adopted(track), MediaEvent::TrackChanged(track), full_duration(p.config), env);
}

pub(crate) proof fn lemma_tick_through_dismiss(p: Pill, over: bool, reversal: Reversal, env: Env)
    requires
        p.consistent(),
        !p.is_hidden(),
    ensures
        p.tick_through_dismiss(over, reversal, env).consistent(),
        p.same_rules(p.tick_through_dismiss(over, reversal, env)),
        !p.tick_through_dismiss(over, reversal, env).is_hidden(),
{
    reveal(Pill::tick_through_dismiss);
    let stopped = is_tombstone(p.content);
    lemma_tick_standing(p, env);
    let a = p.tick_standing(env);
    lemma_tick_cursor(a, over, env);
    let c = a.tick_cursor(over, env);
    let is_engaged = engaged(over, c.hover.leave_at, env.now);
    let held = is_engaged && c.hover.expand is Some;
    lemma_tick_hover(c, over, is_engaged, reversal, env);
    let h = c.tick_hover(over, is_engaged, reversal, env);
    lemma_tick_deadline(h, over, held, env);
    let d = h.tick_deadline(over, held, env);
    lemma_tick_dismiss(d, over, held, stopped, env);
}

proof fn lemma_tick_finish(p: Pill, animating: bool, marquee: bool, bar_moved: bool, env: Env)
    requires
        p.consistent(),
    ensures
        p.tick_finish(animating, marquee, bar_moved, env).consistent(),
        p.same_rules(p.tick_finish(animating, marquee, bar_moved, env)),
{
    reveal(Pill::tick_finish);
    reveal(Pill::foreground_checked);
    lemma_relaid(Pill { fg: Foreground { geometry_check: Some(env.now), ..p.fg }, ..p }, env);
    let s = p.foreground_checked(animating, env);
    assert(s.consistent());
    law_foreground_change_keeps_order(s, env);
    let t = if s.fg.fullscreen != p.fg.fullscreen && s.persistent() {
        s.foreground_changed(env)
    } else {
        s
    };
    lemma_rendered(t);
    law_timer_follows_the_motion(t, env);
    law_timer_follows_the_motion(t.rendered(), env);
}

/// A tick keeps the overlay in order.
pub proof fn law_tick_keeps_order(p: Pill, over: bool, reversal: Reversal, env: Env)
    requires
        p.consistent(),
    ensures
        p.ticked(over, reversal, env).consistent(),
        p.same_rules(p.ticked(over, reversal, env)),
{
    reveal(Pill::ticked);
    reveal(Pill::tick_phase);
    reveal(Pill::tick_marquee);
    if p.is_hidden() {
        lemma_hidden_ticked(p, env);
    } else {
        lemma_tick_through_dismiss(p, over, reversal, env);
        let d = p.tick_through_dismiss(over, reversal, env);
        if d.tick_hides(is_tombstone(p.content), env) {
            lemma_hidden_away(d, env);
        } else {
            let q = d.tick_phase(env);
            assert(q.consistent());
            let m = q.tick_marquee(p.time_step(env.now), env);
            assert(m.consistent());
            lemma_tick_finish(
                m,
                p.animating(),
                scrolls(q.look.scroll),
                p.progress.tick_moves(is_playing(p.content), env.now, p.frame.w),
                env,
            );
        }
    }
}

/// Every window message keeps the overlay in order, and its settings.
pub proof fn law_every_message_keeps_order(
    p: Pill,
    message: Message,
    batch: Seq<MediaEvent>,
    over: bool,
    reversal: Reversal,
    env: Env,
)
    requires
        p.consistent(),
    ensures
        p.handled(message, batch, over, reversal, env).consistent(),
        p.same_rules(p.handled(message, batch, over, reversal, env)),
{
    lemma_without_timer(p);
    law_receiving_keeps_order(p, batch, env);
    law_toggle_keeps_order(p, env);
    law_tick_keeps_order(p, over, reversal, env);
    law_foreground_change_keeps_order(p, env);
    lemma_repositioned(p, env);
    lemma_repositioned(Pill { timer: Timer { period_cache: None, ..p.timer }, ..p }, env);
}

/// Whatever message comes, the auto-hide watchdog looks out only for a hidden
/// pill with a hold, while notifications are on and the auto-hide applies.
pub proof fn law_watchdog_watches_only_a_hold(
    p: Pill,
    message: Message,
    batch: Seq<MediaEvent>,
    over: bool,
    reversal: Reversal,
    env: Env,
)
    requires
        p.consistent(),
        p.rest.watchdog ==> p.watched(),
    ensures
        ({
            let s = p.handled(message, batch, over, reversal, env);
            s.rest.watchdog ==> s.watched()
        }),
{
    law_every_message_keeps_order(p, message, batch, over, reversal, env);
}

/// Every pushed setting keeps the overlay in order.
pub proof fn law_settings_keep_order(
    p: Pill,
    pos: OverlayPos,
    compact_pos: OverlayPos,
    mode: LayoutMode,
    overlay: OverlayConfig,
    behavior: BehaviorConfig,
    on: bool,
    env: Env,
)
    requires
        p.consistent(),
    ensures
        p.placed(pos, compact_pos).consistent(),
        p.placed(pos, compact_pos).repositioned(env).consistent(),
        p.with_mode(mode).consistent(),
        p.with_mode(mode).relaid(env).rendered().consistent(),
        p.separated(on).consistent(),
        p.separated(on).rendered().consistent(),
        p.fading(on).consistent(),
        p.fading(on).rendered().consistent(),
        p.with_overlay(overlay).consistent(),
        p.with_behavior(behavior).consistent(),
{
    lemma_repositioned(p.placed(pos, compact_pos), env);
    lemma_relaid(p.with_mode(mode), env);
    lemma_rendered(p.with_mode(mode).relaid(env));
    lemma_rendered(p.separated(on));
    lemma_rendered(p.fading(on));
}

/// Planning and painting a frame keep the overlay in order.
pub proof fn law_drawing_keeps_order(
    p: Pill,
    w: u32,
    h: u32,
    overflow: (bool, bool, bool, bool),
    springs: MorphProgress,
    dpi: u32,
    env: Env,
)
    requires
        p.consistent(),
    ensures
        p.scaled_for(dpi).consistent(),
        p.same_rules(p.scaled_for(dpi)),
        p.painted(w, h, overflow, springs, env).consistent(),
        p.same_rules(p.painted(w, h, overflow, springs, env)),
{
}

/// The hover morph and the entrance or exit never overlap: the shape of a
/// frame is never claimed by both.
pub proof fn law_one_morph_at_a_time(p: Pill, springs: MorphProgress)
    requires
        p.consistent(),
    ensures
        p.hover.expand is None || p.grow(springs) is None,
{
}

} // verus!
