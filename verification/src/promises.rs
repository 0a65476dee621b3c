//! What the overlay promises across its reactions.
use crate::config::{exit_ms, full_duration, later, refresh_duration, since, LayoutMode};
use crate::events::{
    is_playing, is_state_of, is_tombstone, is_track_of, source_of, source_of_held, MediaEvent, PlaybackState, TrackInfo,
};
use crate::hover::{engaged, MorphDirection, LEAVE_DEBOUNCE_MS};
use crate::ledger::{
    cached, known_state, law_pinned_track_is_playing, law_removal_leaves_the_other_sources, law_stopped_source_is_inert,
    law_successor_is_playing, other_sources, pinned, remembered, successor,
};
use crate::order::{
    law_batch_keeps_order, law_cleared_pill_keeps_nothing_on_screen, law_refresh_keeps_the_pill_up,
    law_report_moves_only_the_bar, law_show_puts_the_event_on_screen, law_timer_follows_the_motion,
    law_update_surfaces_an_auto_hidden_pill, lemma_adopted, lemma_noted, lemma_noting, lemma_reanchored, lemma_relaid,
    lemma_rendered, lemma_swap_stays_visible, lemma_tick_cursor, lemma_tick_deadline, lemma_tick_hover,
    lemma_tick_standing, lemma_tick_through_dismiss, lemma_with_content, lemma_with_progress_of, lemma_with_timer,
    lemma_without_timer, showable,
};
use crate::pill::{
    advanced_line, due, scrolls, Effect, Env, Foreground, Hover, LineScroll, Look, Phase, Pill, Rest, Reversal, Timer,
    EARLY_EXIT_MS, MARQUEE_HOLD_MS, WATCHDOG_TICK_MS,
};
use crate::queue::{
    enqueued, law_dropped_source_waits_nowhere, law_dropping_keeps_the_order, others_waiting, track_waiting,
};
use crate::text::{optional_text, pin_matches};
use vstd::prelude::*;

verus! {

// ---- notifications off ----

proof fn lemma_off_next_shown(p: Pill, env: Env)
    requires
        !p.enabled,
    ensures
        p.next_shown(env).phase == p.phase,
        p.next_shown(env).content == p.content,
        !p.next_shown(env).enabled,
        p.next_shown(env).config == p.config,
{
    reveal(Pill::next_shown);
    reveal(Pill::shown);
    if p.pending.len() > 0 {
        let event = p.pending[0];
        let s = Pill { pending: p.pending.skip(1), ..p };
        let full = full_duration(p.config);
        law_show_puts_the_event_on_screen(s, event, false, full, env);
        if let MediaEvent::TrackChanged(track) = event {
            lemma_adopted(s, track);
            law_show_puts_the_event_on_screen(s.adopted(track), event, true, full, env);
        }
    }
}

proof fn lemma_off_foreground(p: Pill, env: Env)
    requires
        p.consistent(),
        !p.enabled,
        p.is_hidden(),
    ensures
        p.foreground_changed(env).is_hidden(),
        !p.foreground_changed(env).enabled,
{
    reveal(Pill::foreground_changed);
    reveal(Pill::shown);
    let hide = p.hides_for(env);
    let s = Pill { rest: Rest { collapse_on_dismiss: hide, ..p.sampled(env).rest }, ..p.sampled(env) };
    lemma_reanchored(s, env);
    lemma_reanchored(p, env);
    if let Some(event) = s.held_content {
        let r = Pill { held_content: None, ..s };
        law_show_puts_the_event_on_screen(r, event, event is TrackChanged, full_duration(r.config), env);
    }
}

proof fn lemma_off_event(p: Pill, event: MediaEvent, batch: Seq<MediaEvent>, env: Env)
    requires
        p.consistent(),
        !p.enabled,
        p.is_hidden(),
    ensures
        p.after_event(event, batch, env).is_hidden(),
        !p.after_event(event, batch, env).enabled,
{
    reveal(Pill::after_event);
    reveal(Pill::retired);
    reveal(Pill::gone);
    reveal(Pill::handed_over);
    reveal(Pill::stood_down);
    reveal(Pill::without_timer);
    reveal(Pill::with_last_track_from);
    lemma_noted(p, event);
    let s = p.noted(event);
    match event {
        MediaEvent::SessionRejected { source_app, .. } => {
            lemma_noting(s, source_app, PlaybackState::Stopped);
        },
        MediaEvent::SourceGone { source_app } => {
            lemma_noting(s, source_app, PlaybackState::Stopped);
        },
        _ => {},
    }
}

proof fn lemma_off_events(p: Pill, batch: Seq<MediaEvent>, n: nat, env: Env)
    requires
        p.consistent(),
        !p.enabled,
        p.is_hidden(),
        n <= batch.len(),
    ensures
        p.after_events(batch, n, env).is_hidden(),
        !p.after_events(batch, n, env).enabled,
    decreases n,
{
    if n > 0 {
        let q = p.after_events(batch, (n - 1) as nat, env);
        lemma_off_events(p, batch, (n - 1) as nat, env);
        law_batch_keeps_order(p, batch, (n - 1) as nat, env);
        lemma_off_event(q, batch[n - 1], batch, env);
    }
}

/// While notifications are off, no event, tick, timer or foreground change
/// brings a hidden pill on screen.
pub proof fn law_disabled_pill_stays_hidden(
    p: Pill,
    batch: Seq<MediaEvent>,
    over: bool,
    reversal: Reversal,
    env: Env,
)
    requires
        p.consistent(),
        !p.enabled,
        p.is_hidden(),
    ensures
        p.received(batch, env).is_hidden(),
        p.flushed(env).is_hidden(),
        p.ticked(over, reversal, env).is_hidden(),
        p.foreground_changed(env).is_hidden(),
{
    reveal(Pill::received);
    reveal(Pill::flushed);
    reveal(Pill::ticked);
    reveal(Pill::hidden_ticked);
    reveal(Pill::watchdog_ticked);
    lemma_off_events(p, batch, batch.len(), env);
    lemma_off_next_shown(p.emit(Effect::StopDebounce), env);
    lemma_off_foreground(p, env);
    let s = Pill { timer: Timer { last_tick: env.now, ..p.timer }, ..p };
    lemma_without_timer(Pill { rest: Rest { watchdog: false, ..s.rest }, ..s });
}

/// While notifications are off, a track still becomes the most recent
/// remembered one of its source, and its state is still recorded: turning
/// them on again starts from the present.
pub proof fn law_disabled_overlay_stays_informed(p: Pill, track: TrackInfo, batch: Seq<MediaEvent>, env: Env)
    requires
        !p.enabled,
    ensures
        ({
            let s = p.after_event(MediaEvent::TrackChanged(track), batch, env);
            &&& s.track_cache == cached(p.track_cache, track)
            &&& track.playback_state matches Some(state) ==> s.source_state == remembered(
                p.source_state,
                track.source_app,
                state,
            )
            &&& track.playback_state is None ==> s.source_state == p.source_state
            &&& s.content == p.content
            &&& s.phase == p.phase
            &&& s.pending == p.pending
        }),
{
    reveal(Pill::after_event);
    reveal(Pill::noted);
    reveal(Pill::noting);
}

/// Turning notifications off empties the queue and hides the pill.
pub proof fn law_toggle_off_hides(p: Pill, env: Env)
    requires
        p.enabled,
    ensures
        p.toggled(env).is_hidden(),
        p.toggled(env).content is None,
        p.toggled(env).pending.len() == 0,
        !p.toggled(env).enabled,
        p.toggled(env).track_cache == p.track_cache,
        p.toggled(env).source_state == p.source_state,
        p.toggled(env).held_content == p.held_content,
        p.toggled(env).last_track == p.last_track,
{
    reveal(Pill::toggled);
    reveal(Pill::hidden_away);
    reveal(Pill::next_shown);
    let s = Pill { enabled: false, pending: Seq::empty(), ..p };
    law_cleared_pill_keeps_nothing_on_screen(s);
}

/// Turning notifications on shows the playing pin, else the most recent
/// playing source, else what was held, else the last track; with none of
/// these nothing is shown.
pub proof fn law_toggle_on_restores(p: Pill, env: Env)
    requires
        !p.enabled,
    ensures
        ({
            let pin = pinned(p.track_cache, p.source_state, optional_text(p.config.behavior.pinned_source));
            let next = successor(p.track_cache, p.source_state, Seq::empty());
            let s = p.toggled(env);
            &&& s.enabled
            &&& pin matches Some(t) ==> s.content == Some(MediaEvent::TrackChanged(t))
            &&& pin is None && next is Some ==> s.content == Some(MediaEvent::TrackChanged(next->0))
            &&& pin is None && next is None && p.held_content is Some ==> s.content == p.held_content
            &&& pin is None && next is None && p.held_content is None && p.last_track is Some ==> s.content == Some(
                MediaEvent::TrackChanged(p.last_track->0),
            )
            &&& pin is None && next is None && p.held_content is None && p.last_track is None ==> s.content
                == p.content && s.phase == p.phase
        }),
{
    reveal(Pill::toggled);
    reveal(Pill::restored);
    reveal(Pill::shown);
    let s = Pill { enabled: true, ..p };
    let full = full_duration(p.config);
    let pin = pinned(p.track_cache, p.source_state, optional_text(p.config.behavior.pinned_source));
    let next = successor(p.track_cache, p.source_state, Seq::empty());
    if let Some(t) = pin {
        law_show_puts_the_event_on_screen(s, MediaEvent::TrackChanged(t), true, full, env);
    } else if let Some(t) = next {
        law_show_puts_the_event_on_screen(s, MediaEvent::TrackChanged(t), true, full, env);
    } else if let Some(e) = p.held_content {
        law_show_puts_the_event_on_screen(Pill { held_content: None, ..s }, e, true, full, env);
    } else if let Some(t) = p.last_track {
        law_show_puts_the_event_on_screen(s, MediaEvent::TrackChanged(t), true, full, env);
    }
}

// ---- sources that leave ----

impl Pill {
    /// Whether nothing of a source is shown, held, queued, remembered or kept
    /// as the last track.
    pub open spec fn free_of(self, source: Seq<char>) -> bool {
        &&& source_of_held(self.content) != Some(source)
        &&& source_of_held(self.held_content) != Some(source)
        &&& self.last_track matches Some(t) ==> t.source_app@ != source
        &&& forall|i: int| 0 <= i < self.pending.len() ==> source_of(#[trigger] self.pending[i]) != Some(source)
        &&& forall|i: int| 0 <= i < self.track_cache.len() ==> (#[trigger] self.track_cache[i]).source_app@ != source
    }
}

proof fn lemma_cached_without(s: Seq<TrackInfo>, track: TrackInfo, source: Seq<char>)
    requires
        track.source_app@ != source,
        forall|i: int| 0 <= i < s.len() ==> (#[trigger] s[i]).source_app@ != source,
    ensures
        forall|i: int| 0 <= i < cached(s, track).len() ==> (#[trigger] cached(s, track)[i]).source_app@ != source,
{
    law_removal_leaves_the_other_sources(s, track.source_app@);
    let rest = other_sources(s, track.source_app@);
    let all = rest.push(track.without_artwork());
    let out = cached(s, track);
    assert forall|i: int| 0 <= i < out.len() implies (#[trigger] out[i]).source_app@ != source by {
        let k = i + all.len() - out.len();
        assert(out[i] == all[k]);
        if k < rest.len() {
            assert(s.contains(rest[k]));
            let j = choose|j: int| 0 <= j < s.len() && s[j] == rest[k];
            assert(s[j].source_app@ != source);
        }
    }
}

proof fn lemma_free_next_shown(p: Pill, source: Seq<char>, env: Env)
    requires
        p.free_of(source),
    ensures
        p.next_shown(env).free_of(source),
        p.next_shown(env).source_state == p.source_state,
{
    reveal(Pill::next_shown);
    reveal(Pill::shown);
    if p.pending.len() > 0 {
        let event = p.pending[0];
        let s = Pill { pending: p.pending.skip(1), ..p };
        assert forall|i: int| 0 <= i < s.pending.len() implies source_of(#[trigger] s.pending[i]) != Some(source) by {
            assert(source_of(p.pending[i + 1]) != Some(source));
        }
        let full = full_duration(p.config);
        law_show_puts_the_event_on_screen(s, event, false, full, env);
        if let MediaEvent::TrackChanged(track) = event {
            lemma_adopted(s, track);
            lemma_cached_without(s.track_cache, track, source);
            law_show_puts_the_event_on_screen(s.adopted(track), event, true, full, env);
        }
    }
}

proof fn lemma_free_hidden_away(p: Pill, source: Seq<char>, env: Env)
    requires
        p.free_of(source) || (Pill { content: None, ..p }).free_of(source),
    ensures
        p.hidden_away(env).free_of(source),
        p.hidden_away(env).source_state == p.source_state,
{
    reveal(Pill::hidden_away);
    law_cleared_pill_keeps_nothing_on_screen(p);
    lemma_free_next_shown(p.cleared(), source, env);
    let s = p.cleared().next_shown(env);
    let w = Pill { rest: Rest { watchdog: s.watched(), ..s.rest }, ..s };
    lemma_with_timer(Pill { timer: Timer { period: WATCHDOG_TICK_MS, ..w.timer }, ..w });
}

/// A retired source never surfaces again on its own: nothing of it stays
/// shown, held, queued, remembered or kept as the last track, and it no
/// longer counts as playing.
pub proof fn law_retired_source_never_surfaces(p: Pill, source: String, env: Env)
    requires
        p.consistent(),
    ensures
        p.retired(source, env).free_of(source@),
        known_state(p.retired(source, env).source_state, source@) != Some(PlaybackState::Playing),
{
    reveal(Pill::retired);
    reveal(Pill::handed_over);
    reveal(Pill::stood_down);
    reveal(Pill::without_timer);
    reveal(Pill::with_last_track_from);
    lemma_noting(p, source, PlaybackState::Stopped);
    law_stopped_source_is_inert(p.source_state, source);
    let s = p.noting(source, PlaybackState::Stopped);
    law_removal_leaves_the_other_sources(s.track_cache, source@);
    law_dropped_source_waits_nowhere(s.pending, source@);
    let t = Pill {
        track_cache: other_sources(s.track_cache, source@),
        pending: others_waiting(s.pending, source@),
        ..s
    };
    let content_goes = source_of_held(t.content) == Some(source@);
    let next = successor(t.track_cache, t.source_state, source@);
    law_successor_is_playing(t.track_cache, t.source_state, source@);
    if content_goes {
        if let Some(track) = next {
            lemma_swap_stays_visible(t, track, env);
            lemma_cached_without(t.track_cache, track, source@);
        } else {
            lemma_free_hidden_away(Pill { held_content: None, last_track: None, ..t }, source@, env);
        }
    }
}

/// A settled source leaves no track behind: none is shown, held or kept as
/// the last one, and nothing of it waits. It no longer counts as playing.
pub proof fn law_settled_source_leaves_no_track(p: Pill, source: String, env: Env)
    requires
        p.consistent(),
    ensures
        ({
            let s = p.gone(source, env);
            &&& !is_track_of(s.content, source@)
            &&& !is_track_of(s.held_content, source@)
            &&& s.last_track matches Some(t) ==> t.source_app@ != source@
            &&& forall|i: int| 0 <= i < s.pending.len() ==> source_of(#[trigger] s.pending[i]) != Some(source@)
            &&& known_state(s.source_state, source@) != Some(PlaybackState::Playing)
        }),
{
    reveal(Pill::gone);
    reveal(Pill::handed_over);
    reveal(Pill::stood_down);
    reveal(Pill::without_timer);
    reveal(Pill::with_last_track_from);
    lemma_noting(p, source, PlaybackState::Stopped);
    law_stopped_source_is_inert(p.source_state, source);
    let s = p.noting(source, PlaybackState::Stopped);
    law_dropped_source_waits_nowhere(s.pending, source@);
    let t = Pill { pending: others_waiting(s.pending, source@), ..s };
    let next = successor(t.track_cache, t.source_state, source@);
    law_successor_is_playing(t.track_cache, t.source_state, source@);
    if is_track_of(t.content, source@) {
        if let Some(track) = next {
            lemma_swap_stays_visible(t, track, env);
        } else {
            lemma_gone_hidden_away(Pill { held_content: None, last_track: None, ..t }, source@, env);
        }
    }
}

proof fn lemma_gone_hidden_away(p: Pill, source: Seq<char>, env: Env)
    requires
        p.held_content is None,
        p.last_track is None,
        forall|i: int| 0 <= i < p.pending.len() ==> source_of(#[trigger] p.pending[i]) != Some(source),
    ensures
        ({
            let s = p.hidden_away(env);
            &&& !is_track_of(s.content, source)
            &&& !is_track_of(s.held_content, source)
            &&& s.last_track matches Some(t) ==> t.source_app@ != source
            &&& forall|i: int| 0 <= i < s.pending.len() ==> source_of(#[trigger] s.pending[i]) != Some(source)
            &&& s.source_state == p.source_state
        }),
{
    reveal(Pill::hidden_away);
    reveal(Pill::next_shown);
    reveal(Pill::shown);
    law_cleared_pill_keeps_nothing_on_screen(p);
    let c = p.cleared();
    if c.pending.len() > 0 {
        let event = c.pending[0];
        assert(source_of(event) != Some(source));
        let s = Pill { pending: c.pending.skip(1), ..c };
        assert forall|i: int| 0 <= i < s.pending.len() implies source_of(#[trigger] s.pending[i]) != Some(source) by {
            assert(source_of(c.pending[i + 1]) != Some(source));
        }
        let full = full_duration(c.config);
        law_show_puts_the_event_on_screen(s, event, false, full, env);
        if let MediaEvent::TrackChanged(track) = event {
            lemma_adopted(s, track);
            law_show_puts_the_event_on_screen(s.adopted(track), event, true, full, env);
        }
    }
    let n = c.next_shown(env);
    let w = Pill { rest: Rest { watchdog: n.watched(), ..n.rest }, ..n };
    lemma_with_timer(Pill { timer: Timer { period: WATCHDOG_TICK_MS, ..w.timer }, ..w });
}

/// A state pill of a settled source stays: it announces that the source
/// stopped.
pub proof fn law_state_pill_outlives_its_settled_source(p: Pill, source: String, env: Env)
    requires
        is_state_of(p.content, source@),
    ensures
        p.gone(source, env).content == p.content,
        p.gone(source, env).phase == p.phase,
        p.gone(source, env).dismiss_at == p.dismiss_at,
        p.gone(source, env).track_cache == p.track_cache,
{
    reveal(Pill::gone);
    reveal(Pill::handed_over);
    reveal(Pill::stood_down);
    reveal(Pill::without_timer);
    reveal(Pill::with_last_track_from);
    lemma_noting(p, source, PlaybackState::Stopped);
}

// ---- the queue and the pill on screen ----

/// A hidden pill advances the queue: the event that waited longest shows,
/// and the others wait on.
pub proof fn law_queue_advances_when_the_pill_hides(p: Pill, env: Env)
    requires
        p.consistent(),
        p.enabled,
        p.pending.len() > 0,
    ensures
        p.hidden_away(env).content == Some(p.pending[0]),
        p.hidden_away(env).pending == p.pending.skip(1),
        !p.hidden_away(env).is_hidden(),
{
    reveal(Pill::hidden_away);
    reveal(Pill::next_shown);
    reveal(Pill::shown);
    law_cleared_pill_keeps_nothing_on_screen(p);
    let c = p.cleared();
    let event = c.pending[0];
    assert(showable(event));
    let s = Pill { pending: c.pending.skip(1), ..c };
    let full = full_duration(c.config);
    law_show_puts_the_event_on_screen(s, event, false, full, env);
    if let MediaEvent::TrackChanged(track) = event {
        lemma_adopted(s, track);
        law_show_puts_the_event_on_screen(s.adopted(track), event, true, full, env);
    }
}

/// A pill on screen is never pulled: the end of the debounce leaves it as it
/// is.
pub proof fn law_flush_leaves_a_visible_pill_alone(p: Pill, env: Env)
    requires
        !p.is_hidden(),
    ensures
        p.flushed(env) == p.emit(Effect::StopDebounce),
{
    reveal(Pill::flushed);
}

/// A notification layout's pill on screen is not replaced by another source's
/// track: the track waits.
pub proof fn law_other_sources_track_waits(p: Pill, track: TrackInfo, env: Env)
    requires
        !p.persistent(),
        !p.is_hidden(),
        !p.is_held(env.now),
        source_of_held(p.content) != Some(track.source_app@),
    ensures
        p.with_track(track, env) == (Pill {
            pending: enqueued(p.pending, MediaEvent::TrackChanged(track)),
            ..p
        }),
{
    reveal(Pill::with_track);
}

/// A newer track of the source on screen takes the pill over at once, and a
/// persistent pill takes any track over at once.
pub proof fn law_newer_track_shows_at_once(p: Pill, track: TrackInfo, env: Env)
    requires
        p.consistent(),
        !p.is_hidden(),
        p.on_screen(track.source_app@) || p.persistent(),
    ensures
        p.with_track(track, env).content == Some(MediaEvent::TrackChanged(track)),
        p.with_track(track, env).pending == p.pending,
        !p.with_track(track, env).is_hidden(),
        !p.with_track(track, env).is_collapsing(),
{
    reveal(Pill::with_track);
    reveal(Pill::swapped_to);
    lemma_adopted(p, track);
    let event = MediaEvent::TrackChanged(track);
    law_refresh_keeps_the_pill_up(p.adopted(track), event, refresh_duration(p.config), env);
    law_refresh_keeps_the_pill_up(p.adopted(track), event, full_duration(p.config), env);
}

/// The first track of a persistent run shows at once instead of waiting
/// behind a pill that never hides.
pub proof fn law_first_persistent_track_shows_at_once(p: Pill, track: TrackInfo, env: Env)
    requires
        p.consistent(),
        p.enabled,
        p.before_first_show(),
    ensures
        p.with_track(track, env).content == Some(MediaEvent::TrackChanged(track)),
        p.with_track(track, env).pending == p.pending,
{
    reveal(Pill::with_track);
    reveal(Pill::shown);
    lemma_adopted(p, track);
    law_show_puts_the_event_on_screen(
        p.adopted(track),
        MediaEvent::TrackChanged(track),
        true,
        full_duration(p.config),
        env,
    );
}

impl Pill {
    /// Whether everything that waits in another state waits here too.
    pub open spec fn waits_for_all_of(self, other: Pill) -> bool {
        &&& other.pending.len() <= self.pending.len()
        &&& forall|i: int| 0 <= i < other.pending.len() ==> self.pending.contains(#[trigger] other.pending[i])
    }
}

proof fn lemma_hiding_queues_nothing(p: Pill, env: Env)
    ensures
        p.waits_for_all_of(p.hidden_away(env)),
{
    reveal(Pill::hidden_away);
    reveal(Pill::next_shown);
    reveal(Pill::shown);
    law_cleared_pill_keeps_nothing_on_screen(p);
    let c = p.cleared();
    if c.pending.len() > 0 {
        let event = c.pending[0];
        let s = Pill { pending: c.pending.skip(1), ..c };
        let full = full_duration(c.config);
        law_show_puts_the_event_on_screen(s, event, false, full, env);
        if let MediaEvent::TrackChanged(track) = event {
            lemma_adopted(s, track);
            law_show_puts_the_event_on_screen(s.adopted(track), event, true, full, env);
        }
        assert forall|i: int| 0 <= i < s.pending.len() implies p.pending.contains(#[trigger] s.pending[i]) by {
            assert(p.pending[i + 1] == s.pending[i]);
        }
    }
    let n = c.next_shown(env);
    let w = Pill { rest: Rest { watchdog: n.watched(), ..n.rest }, ..n };
    lemma_with_timer(Pill { timer: Timer { period: WATCHDOG_TICK_MS, ..w.timer }, ..w });
}

proof fn lemma_handing_over_queues_nothing(
    p: Pill,
    source: Seq<char>,
    content_goes: bool,
    held_goes: bool,
    last_goes: bool,
    env: Env,
)
    requires
        content_goes ==> !p.is_hidden(),
    ensures
        p.waits_for_all_of(p.handed_over(source, content_goes, held_goes, last_goes, env)),
{
    reveal(Pill::handed_over);
    reveal(Pill::stood_down);
    reveal(Pill::without_timer);
    reveal(Pill::with_last_track_from);
    if content_goes {
        if let Some(track) = successor(p.track_cache, p.source_state, source) {
            lemma_swap_stays_visible(p, track, env);
        } else {
            lemma_hiding_queues_nothing(Pill { held_content: None, last_track: None, ..p }, env);
        }
    }
}

proof fn lemma_update_queues_nothing(p: Pill, event: MediaEvent, min_visible: u64, env: Env)
    ensures
        p.updated(event, min_visible, env).pending == p.pending,
{
    reveal(Pill::shown);
    if p.auto_hidden() {
        law_update_surfaces_an_auto_hidden_pill(p, event, min_visible, env);
        law_show_puts_the_event_on_screen(p, event, event is TrackChanged, full_duration(p.config), env);
    } else {
        law_refresh_keeps_the_pill_up(p, event, min_visible, env);
    }
}

proof fn lemma_persistent_event_queues_nothing(p: Pill, event: MediaEvent, batch: Seq<MediaEvent>, env: Env)
    requires
        p.consistent(),
        p.persistent(),
    ensures
        p.waits_for_all_of(p.after_event(event, batch, env)),
{
    reveal(Pill::after_event);
    reveal(Pill::retired);
    reveal(Pill::gone);
    reveal(Pill::with_track);
    reveal(Pill::with_state);
    reveal(Pill::swapped_to);
    reveal(Pill::shown);
    lemma_noted(p, event);
    let s = p.noted(event);
    let full = full_duration(s.config);
    match event {
        MediaEvent::SessionRejected { source_app, .. } => {
            lemma_noting(s, source_app, PlaybackState::Stopped);
            let n = s.noting(source_app, PlaybackState::Stopped);
            law_dropping_keeps_the_order(n.pending, source_app@);
            let t = Pill {
                track_cache: other_sources(n.track_cache, source_app@),
                pending: others_waiting(n.pending, source_app@),
                ..n
            };
            lemma_handing_over_queues_nothing(
                t,
                source_app@,
                source_of_held(t.content) == Some(source_app@),
                source_of_held(t.held_content) == Some(source_app@),
                t.last_track matches Some(l) && l.source_app@ == source_app@,
                env,
            );
        },
        MediaEvent::SourceGone { source_app } => {
            lemma_noting(s, source_app, PlaybackState::Stopped);
            let n = s.noting(source_app, PlaybackState::Stopped);
            law_dropping_keeps_the_order(n.pending, source_app@);
            let t = Pill { pending: others_waiting(n.pending, source_app@), ..n };
            lemma_handing_over_queues_nothing(
                t,
                source_app@,
                is_track_of(t.content, source_app@),
                is_track_of(t.held_content, source_app@),
                t.last_track matches Some(l) && l.source_app@ == source_app@,
                env,
            );
        },
        MediaEvent::TrackChanged(track) => {
            lemma_adopted(s, track);
            lemma_update_queues_nothing(s.adopted(track), event, refresh_duration(s.config), env);
            lemma_update_queues_nothing(s.adopted(track), event, full, env);
            law_show_puts_the_event_on_screen(s.adopted(track), event, true, full, env);
        },
        MediaEvent::PlaybackStateChanged(state, source) => {
            lemma_update_queues_nothing(s, event, full, env);
            law_show_puts_the_event_on_screen(s, event, false, full, env);
        },
        MediaEvent::ProgressChanged { source_app, position_us, duration_secs, playback_rate_milli } => {
            law_report_moves_only_the_bar(s, source_app@, position_us, duration_secs, playback_rate_milli, env);
        },
        _ => {},
    }
}

proof fn lemma_persistent_events_queue_nothing(p: Pill, batch: Seq<MediaEvent>, n: nat, env: Env)
    requires
        p.consistent(),
        p.persistent(),
        n <= batch.len(),
    ensures
        p.waits_for_all_of(p.after_events(batch, n, env)),
    decreases n,
{
    if n > 0 {
        let q = p.after_events(batch, (n - 1) as nat, env);
        lemma_persistent_events_queue_nothing(p, batch, (n - 1) as nat, env);
        law_batch_keeps_order(p, batch, (n - 1) as nat, env);
        lemma_persistent_event_queues_nothing(q, batch[n - 1], batch, env);
        let r = p.after_events(batch, n, env);
        assert forall|i: int| 0 <= i < r.pending.len() implies p.pending.contains(#[trigger] r.pending[i]) by {
            assert(q.pending.contains(r.pending[i]));
            let k = choose|k: int| 0 <= k < q.pending.len() && q.pending[k] == r.pending[i];
            assert(p.pending.contains(q.pending[k]));
        }
    }
}

/// Under a persistent pill no event waits: a batch adds nothing to the queue,
/// which only a pill that hides would ever empty.
pub proof fn law_persistent_pill_queues_nothing(p: Pill, batch: Seq<MediaEvent>, env: Env)
    requires
        p.consistent(),
        p.persistent(),
    ensures
        p.waits_for_all_of(p.received(batch, env)),
        p.pending.len() == 0 ==> p.received(batch, env).pending.len() == 0,
{
    reveal(Pill::received);
    lemma_persistent_events_queue_nothing(p, batch, batch.len(), env);
}

/// A state gives way to a track of its source that is about to show.
pub proof fn law_state_gives_way_to_an_upcoming_track(
    p: Pill,
    state: PlaybackState,
    source: String,
    batch: Seq<MediaEvent>,
    env: Env,
)
    requires
        track_waiting(batch, source@) || track_waiting(p.pending, source@),
    ensures
        p.with_state(state, source, batch, env) == p,
{
    reveal(Pill::with_state);
    reveal(Pill::state_is_redundant);
}

/// A track pill is not announced again as playing, but a pause or stop of it
/// shows in place.
pub proof fn law_pause_shows_on_the_track_pill(
    p: Pill,
    state: PlaybackState,
    source: String,
    batch: Seq<MediaEvent>,
    env: Env,
)
    requires
        p.consistent(),
        is_track_of(p.content, source@),
        !track_waiting(batch, source@),
        !track_waiting(p.pending, source@),
    ensures
        state == PlaybackState::Playing ==> p.with_state(state, source, batch, env) == p,
        state != PlaybackState::Playing ==> {
            let s = p.with_state(state, source, batch, env);
            &&& s.content == Some(MediaEvent::PlaybackStateChanged(state, source))
            &&& s.pending == p.pending
            &&& s.dismiss_at is Some && s.dismiss_at->0 >= later(env.now, full_duration(p.config))
        },
{
    reveal(Pill::with_state);
    reveal(Pill::state_is_redundant);
    law_refresh_keeps_the_pill_up(
        p,
        MediaEvent::PlaybackStateChanged(state, source),
        full_duration(p.config),
        env,
    );
}

/// Under a persistent pill, the end of a source that it does not show changes
/// nothing.
pub proof fn law_stray_stop_is_dropped(p: Pill, source: String, batch: Seq<MediaEvent>, env: Env)
    requires
        p.persistent(),
        p.shown_or_held_source() != Some(source@),
    ensures
        p.with_state(PlaybackState::Stopped, source, batch, env) == p,
{
    reveal(Pill::with_state);
    reveal(Pill::state_is_redundant);
}

// ---- auto-hide ----

/// A persistent pill hides for a fullscreen or listed foreground with its
/// content held, and shows that content again when the foreground clears.
pub proof fn law_auto_hide_resumes_the_content(p: Pill, hiding: Env, clearing: Env)
    requires
        p.consistent(),
        p.enabled,
        p.persistent(),
        p.config.behavior.hide_for_auto_compact_sources,
        !p.is_hidden(),
        p.pending.len() == 0,
        p.hides_for(hiding),
        !p.foreground_changed(hiding).hides_for(clearing),
    ensures
        p.foreground_changed(hiding).is_hidden(),
        p.foreground_changed(hiding).held_content == p.content,
        p.foreground_changed(hiding).rest.watchdog,
        p.foreground_changed(hiding).timer.armed,
        p.foreground_changed(hiding).foreground_changed(clearing).content == p.content,
        !p.foreground_changed(hiding).foreground_changed(clearing).is_hidden(),
{
    reveal(Pill::foreground_changed);
    reveal(Pill::hidden_away);
    reveal(Pill::next_shown);
    reveal(Pill::shown);
    let s = Pill { rest: Rest { collapse_on_dismiss: true, ..p.sampled(hiding).rest }, ..p.sampled(hiding) };
    let h = Pill { held_content: s.content, ..s };
    law_cleared_pill_keeps_nothing_on_screen(h);
    let c = h.cleared();
    let w = Pill { rest: Rest { watchdog: true, ..c.rest }, timer: Timer { period: WATCHDOG_TICK_MS, ..c.timer }, ..c };
    lemma_with_timer(w);
    let q = p.foreground_changed(hiding);
    assert(q == w.with_timer());
    let event = p.content->0;
    let r = Pill {
        held_content: None,
        rest: Rest { collapse_on_dismiss: false, ..q.sampled(clearing).rest },
        ..q.sampled(clearing)
    };
    law_show_puts_the_event_on_screen(r, event, event is TrackChanged, full_duration(r.config), clearing);
}

/// Over a fullscreen foreground a fresh persistent pill still shows, but
/// hides at its deadline, with its content held for the resume.
pub proof fn law_pill_over_fullscreen_will_collapse(p: Pill, event: MediaEvent, full: bool, env: Env)
    requires
        p.enabled,
        p.persistent(),
        p.config.behavior.hide_for_auto_compact_sources,
        p.hides_for(env),
    ensures
        p.shown(event, full, env).rest.collapse_on_dismiss,
        p.shown(event, full, env).held_content == Some(event),
        p.shown(event, full, env).content == Some(event),
{
    reveal(Pill::shown);
    reveal(Pill::shown_for);
    reveal(Pill::relaid);
    reveal(Pill::with_collapse_flag);
    let a = Pill { rest: Rest { watchdog: false, ..p.rest }, ..p };
    let b = a.relaid(env);
    assert(b.hides_for(env));
    let c = b.with_collapse_flag(event, env).emit(Effect::StopIdleRelease);
    lemma_with_progress_of(c, event, env.now);
    let d = c.with_progress_of(event, env.now);
    lemma_with_content(d, event, env.now);
    let e = d.with_content(event, env.now);
    let f = Pill {
        dismiss_at: Some(later(env.now, full_duration(p.config))),
        phase: if full {
            Phase::Expanding(env.now)
        } else {
            Phase::Light(env.now)
        },
        hover: Hover { dismiss_at: None, expand: None, expanded_once: false, leave_at: None, ..e.hover },
        rest: Rest { faded: false, ..e.rest },
        look: Look { fade: None, ..e.look },
        ..e
    };
    law_timer_follows_the_motion(f, env);
    lemma_rendered(f.synced(env).emit(Effect::ShowWindow));
}

/// The pill returns only to a pin that plays.
pub proof fn law_pill_returns_only_to_a_playing_pin(p: Pill)
    ensures
        p.pin_to_return_to() matches Some(t) ==> {
            &&& p.config.behavior.pinned_source is Some
            &&& pin_matches(t.source_app@, p.config.behavior.pinned_source->0@)
            &&& known_state(p.source_state, t.source_app@) == Some(PlaybackState::Playing)
            &&& !(source_of_held(p.content) matches Some(s) && pin_matches(s, p.config.behavior.pinned_source->0@))
        },
{
    reveal(Pill::pin_to_return_to);
    law_pinned_track_is_playing(
        p.track_cache,
        p.source_state,
        optional_text(p.config.behavior.pinned_source),
    );
}

/// Only a track change announces a new name.
pub proof fn law_only_tracks_are_announced(p: Pill)
    requires
        !(p.content matches Some(MediaEvent::TrackChanged(_))),
    ensures
        p.with_text().effects == p.effects,
{
    reveal(Pill::with_text);
}

// ---- ticks ----

impl Pill {
    /// Whether a tick finds the pill held expanded by the cursor: on it, or
    /// gone from it too briefly to count as left.
    pub open spec fn holds(self, over: bool, env: Env) -> bool {
        let leave_at = if over {
            None
        } else if self.hover.leave_at is None {
            Some(env.now)
        } else {
            self.hover.leave_at
        };
        self.hover.expand is Some && engaged(over, leave_at, env.now)
    }
}

/// While something waits, a pill that is not held has at most half a second
/// left. Where its time is over already and its exit takes none, the event
/// that waited longest shows at once.
pub proof fn law_waiting_event_caps_the_pill(p: Pill, over: bool, reversal: Reversal, env: Env)
    requires
        p.consistent(),
        !p.persistent(),
        !p.is_hidden(),
        !p.is_collapsing(),
        p.pending.len() > 0,
        !p.holds(over, env),
    ensures
        ({
            let s = p.ticked(over, reversal, env);
            ||| s.content == p.content && s.pending == p.pending && s.dismiss_at is Some && s.dismiss_at->0 <= later(
                env.now,
                EARLY_EXIT_MS,
            )
            ||| !p.lingers(env) && p.enabled && s.content == Some(p.pending[0])
            ||| !p.lingers(env) && !p.enabled && s.is_hidden()
        }),
{
    reveal(Pill::tick_through_dismiss);
    reveal(Pill::tick_deadline);
    reveal(Pill::tick_dismiss);
    reveal(Pill::tick_phase);
    reveal(Pill::ticked);
    lemma_tick_standing(p, env);
    let a = p.tick_standing(env);
    lemma_tick_cursor(a, over, env);
    let c = a.tick_cursor(over, env);
    lemma_tick_hover(c, over, engaged(over, c.hover.leave_at, env.now), reversal, env);
    lemma_tick_through_dismiss(p, over, reversal, env);
    let d = p.tick_through_dismiss(over, reversal, env);
    assert(d.pending == p.pending && d.config == p.config && d.enabled == p.enabled && d.content == p.content);
    assert(d.dismiss_at is Some && d.dismiss_at->0 <= later(env.now, EARLY_EXIT_MS));
    if d.tick_hides(is_tombstone(p.content), env) {
        assert(!p.lingers(env)) by {
            reveal(Pill::tick_hover);
            reveal(Pill::tick_settle);
            reveal(Pill::stepped);
        }
        if p.enabled {
            law_queue_advances_when_the_pill_hides(d, env);
        } else {
            lemma_off_hidden_away(d, env);
        }
    } else {
        lemma_tick_goes_on(p, over, reversal, env);
    }
}

proof fn lemma_off_hidden_away(p: Pill, env: Env)
    requires
        !p.enabled,
    ensures
        p.hidden_away(env).is_hidden(),
{
    reveal(Pill::hidden_away);
    law_cleared_pill_keeps_nothing_on_screen(p);
    lemma_off_next_shown(p.cleared(), env);
    let s = p.cleared().next_shown(env);
    let w = Pill { rest: Rest { watchdog: s.watched(), ..s.rest }, ..s };
    lemma_with_timer(Pill { timer: Timer { period: WATCHDOG_TICK_MS, ..w.timer }, ..w });
}

/// With dismiss-on-hover, hovering an expanded pill, shown or still entering,
/// leaves it at most half a second. The arm is one-way and only a cap: a
/// sooner deadline stays, and staying on the pill does not push the deadline
/// out again.
pub proof fn law_hover_dismisses_an_expanded_pill(p: Pill, reversal: Reversal, env: Env)
    requires
        p.consistent(),
        !p.persistent(),
        !p.is_hidden(),
        !p.is_collapsing(),
        p.place.layout == LayoutMode::Expanded,
        p.config.overlay.dismiss_on_hover,
        p.hover.expand is None,
        p.lingers(env),
    ensures
        ({
            let s = p.ticked(true, reversal, env);
            &&& s.content == p.content
            &&& s.hover.dismiss_at is Some
            &&& s.dismiss_at is Some && s.dismiss_at->0 <= p.dismiss_at->0
            &&& p.hover.dismiss_at is None ==> s.dismiss_at->0 <= later(env.now, EARLY_EXIT_MS)
        }),
{
    reveal(Pill::tick_through_dismiss);
    reveal(Pill::tick_hover);
    reveal(Pill::tick_settle);
    reveal(Pill::wanted_step);
    reveal(Pill::stepped);
    reveal(Pill::tick_deadline);
    reveal(Pill::tick_dismiss);
    reveal(Pill::tick_phase);
    lemma_tick_standing(p, env);
    lemma_tick_cursor(p.tick_standing(env), true, env);
    lemma_tick_through_dismiss(p, true, reversal, env);
    lemma_tick_goes_on(p, true, reversal, env);
}

/// A pill that the cursor holds expanded stays: neither its deadline nor a
/// waiting event takes it away.
pub proof fn law_held_pill_stays(p: Pill, over: bool, reversal: Reversal, env: Env)
    requires
        p.consistent(),
        !p.persistent(),
        p.phase == Phase::Shown,
        p.holds(over, env),
        p.hover.expand matches Some(m) && m.direction == MorphDirection::Expand,
    ensures
        p.ticked(over, reversal, env).phase == Phase::Shown,
        p.ticked(over, reversal, env).content == p.content,
        p.ticked(over, reversal, env).dismiss_at == p.dismiss_at,
        p.ticked(over, reversal, env).pending == p.pending,
        p.ticked(over, reversal, env).hover.expand is Some,
{
    reveal(Pill::ticked);
    reveal(Pill::tick_through_dismiss);
    reveal(Pill::tick_hover);
    reveal(Pill::tick_settle);
    reveal(Pill::wanted_step);
    reveal(Pill::stepped);
    reveal(Pill::tick_deadline);
    reveal(Pill::tick_dismiss);
    reveal(Pill::tick_phase);
    reveal(Pill::tick_marquee);
    lemma_tick_standing(p, env);
    lemma_tick_cursor(p.tick_standing(env), over, env);
    let d = p.tick_through_dismiss(over, reversal, env);
    let q = d.tick_phase(env);
    let m = q.tick_marquee(p.time_step(env.now), env);
    lemma_quiet_finish(
        m,
        p.animating(),
        scrolls(q.look.scroll),
        p.progress.tick_moves(is_playing(p.content), env.now, p.frame.w),
        env,
    );
}

impl Pill {
    /// Whether a tick cannot take the pill away at once: its exit takes time,
    /// or its deadline lies ahead.
    pub open spec fn lingers(self, env: Env) -> bool {
        exit_ms(self.config, env.animations) > 0 || (!due(self.dismiss_at, env.now) && env.now < u64::MAX)
    }
}

pub(crate) proof fn lemma_tick_goes_on(p: Pill, over: bool, reversal: Reversal, env: Env)
    requires
        !p.is_hidden(),
        !p.tick_through_dismiss(over, reversal, env).is_hidden(),
        !p.tick_through_dismiss(over, reversal, env).tick_hides(is_tombstone(p.content), env),
        ({
            let d = p.tick_through_dismiss(over, reversal, env);
            d.persistent() && d.config.behavior.hide_for_auto_compact_sources ==> !d.hides_for(env)
        }),
    ensures
        ({
            let d = p.tick_through_dismiss(over, reversal, env).tick_phase(env);
            let s = p.ticked(over, reversal, env);
            &&& s.phase == d.phase
            &&& s.content == d.content
            &&& s.dismiss_at == d.dismiss_at
            &&& s.hover == d.hover
            &&& s.pending == d.pending
            &&& s.rest.faded == d.rest.faded
        }),
{
    reveal(Pill::ticked);
    reveal(Pill::tick_phase);
    reveal(Pill::tick_marquee);
    let q = p.tick_through_dismiss(over, reversal, env).tick_phase(env);
    lemma_quiet_finish(
        q.tick_marquee(p.time_step(env.now), env),
        p.animating(),
        scrolls(q.look.scroll),
        p.progress.tick_moves(is_playing(p.content), env.now, p.frame.w),
        env,
    );
}

proof fn lemma_empty_queue_hides(p: Pill, env: Env)
    requires
        p.pending.len() == 0,
    ensures
        p.hidden_away(env).is_hidden(),
        p.hidden_away(env).content is None,
{
    reveal(Pill::hidden_away);
    reveal(Pill::next_shown);
    law_cleared_pill_keeps_nothing_on_screen(p);
    let c = p.cleared();
    let w = Pill { rest: Rest { watchdog: c.watched(), ..c.rest }, ..c };
    lemma_with_timer(Pill { timer: Timer { period: WATCHDOG_TICK_MS, ..w.timer }, ..w });
}

proof fn lemma_quiet_finish(p: Pill, animating: bool, marquee: bool, bar_moved: bool, env: Env)
    requires
        !p.is_hidden(),
        p.persistent() && p.config.behavior.hide_for_auto_compact_sources ==> !p.hides_for(env),
    ensures
        ({
            let s = p.tick_finish(animating, marquee, bar_moved, env);
            &&& s == (Pill { place: s.place, fg: s.fg, rest: s.rest, timer: s.timer, effects: s.effects, ..p })
            &&& s.rest.faded == p.rest.faded
        }),
{
    reveal(Pill::tick_finish);
    reveal(Pill::foreground_checked);
    reveal(Pill::foreground_changed);
    lemma_relaid(Pill { fg: Foreground { geometry_check: Some(env.now), ..p.fg }, ..p }, env);
    let s = p.foreground_checked(animating, env);
    let f = s.sampled(env);
    lemma_reanchored(s, env);
    lemma_reanchored(Pill { rest: Rest { collapse_on_dismiss: false, ..f.rest }, ..f }, env);
    let t = if s.fg.fullscreen != p.fg.fullscreen && s.persistent() {
        s.foreground_changed(env)
    } else {
        s
    };
    lemma_rendered(t);
    law_timer_follows_the_motion(t, env);
    law_timer_follows_the_motion(t.rendered(), env);
}

/// A persistent pill over an ordinary foreground never hides on its own,
/// unless it announces that its source stopped.
pub proof fn law_persistent_pill_never_hides_on_its_own(p: Pill, over: bool, reversal: Reversal, env: Env)
    requires
        p.consistent(),
        p.persistent(),
        !p.rest.collapse_on_dismiss,
        p.config.behavior.hide_for_auto_compact_sources ==> !p.hides_for(env),
        !p.is_hidden(),
        !is_tombstone(p.content),
    ensures
        !p.ticked(over, reversal, env).is_hidden(),
        p.ticked(over, reversal, env).content is Some,
{
    reveal(Pill::ticked);
    reveal(Pill::tick_phase);
    reveal(Pill::tick_marquee);
    lemma_persistent_through_dismiss(p, over, reversal, env);
    let d = p.tick_through_dismiss(over, reversal, env);
    lemma_tick_through_dismiss(p, over, reversal, env);
    let q = d.tick_phase(env);
    let m = q.tick_marquee(p.time_step(env.now), env);
    lemma_quiet_finish(
        m,
        p.animating(),
        scrolls(q.look.scroll),
        p.progress.tick_moves(is_playing(p.content), env.now, p.frame.w),
        env,
    );
}

proof fn lemma_persistent_through_dismiss(p: Pill, over: bool, reversal: Reversal, env: Env)
    requires
        p.persistent(),
        !p.rest.collapse_on_dismiss,
        !p.is_hidden(),
    ensures
        p.tick_through_dismiss(over, reversal, env).config == p.config,
        !p.tick_through_dismiss(over, reversal, env).rest.collapse_on_dismiss,
        p.tick_through_dismiss(over, reversal, env).fg == p.fg || p.tick_through_dismiss(over, reversal, env).fg
            == p.sampled(env).fg,
{
    reveal(Pill::tick_through_dismiss);
    reveal(Pill::tick_dismiss);
    reveal(Pill::persistent_rest);
    let stopped = is_tombstone(p.content);
    lemma_tick_standing(p, env);
    let a = p.tick_standing(env);
    lemma_tick_cursor(a, over, env);
    let c = a.tick_cursor(over, env);
    let is_engaged = engaged(over, c.hover.leave_at, env.now);
    let held = is_engaged && c.hover.expand is Some;
    lemma_tick_hover(c, over, is_engaged, reversal, env);
    let h = c.tick_hover(over, is_engaged, reversal, env);
    lemma_tick_deadline(h, over, held, env);
    let d = h.tick_deadline(over, held, env);
    if d.pin_to_return_to() is Some {
        lemma_swap_stays_visible(d, d.pin_to_return_to()->0, env);
    }
    if d.tombstone_successor() is Some {
        lemma_swap_stays_visible(d, d.tombstone_successor()->0, env);
    }
}

impl Pill {
    /// A resting pill that the cursor left for good, at its deadline.
    pub open spec fn left_alone(self, now: u64) -> bool {
        &&& self.phase == Phase::Shown
        &&& self.hover.expand is None
        &&& self.hover.leave_at matches Some(t) && since(t, now) >= LEAVE_DEBOUNCE_MS
        &&& due(self.dismiss_at, now)
    }
}

proof fn lemma_left_alone(p: Pill, reversal: Reversal, env: Env)
    requires
        p.left_alone(env.now),
    ensures
        ({
            let a = p.tick_standing(env).tick_cursor(false, env);
            let h = a.tick_hover(false, engaged(false, a.hover.leave_at, env.now), reversal, env);
            let d = h.tick_deadline(false, false, env);
            &&& !engaged(false, a.hover.leave_at, env.now)
            &&& d == (Pill {
                hover: d.hover,
                dismiss_at: d.dismiss_at,
                progress: d.progress,
                timer: d.timer,
                effects: d.effects,
                ..p
            })
            &&& d.hover.expand is None
            &&& d.left_alone(env.now)
        }),
{
    reveal(Pill::tick_hover);
    reveal(Pill::tick_settle);
    reveal(Pill::wanted_step);
    reveal(Pill::stepped);
    reveal(Pill::tick_deadline);
    lemma_tick_standing(p, env);
    lemma_tick_cursor(p.tick_standing(env), false, env);
}

/// At its deadline a notification that the cursor has left collapses. Where
/// the exit takes no time and nothing waits, it is gone at once.
pub proof fn law_deadline_collapses_a_notification(p: Pill, reversal: Reversal, env: Env)
    requires
        !p.persistent(),
        p.left_alone(env.now),
    ensures
        ({
            let s = p.ticked(false, reversal, env);
            &&& exit_ms(p.config, env.animations) > 0 ==> s.phase == Phase::Collapsing(env.now) && s.content
                == p.content
            &&& exit_ms(p.config, env.animations) == 0 && p.pending.len() == 0 ==> s.is_hidden() && s.content is None
        }),
{
    reveal(Pill::tick_through_dismiss);
    reveal(Pill::tick_dismiss);
    reveal(Pill::tick_phase);
    reveal(Pill::ticked);
    lemma_left_alone(p, reversal, env);
    lemma_tick_cursor(p.tick_standing(env), false, env);
    lemma_tick_standing(p, env);
    let d = p.tick_through_dismiss(false, reversal, env);
    if exit_ms(p.config, env.animations) > 0 {
        lemma_tick_goes_on(p, false, reversal, env);
    } else if p.pending.len() == 0 {
        lemma_empty_queue_hides(d, env);
    }
}

/// A collapsed notification is gone once its exit has run, where nothing
/// waits.
pub proof fn law_finished_collapse_hides(p: Pill, over: bool, reversal: Reversal, env: Env)
    requires
        p.consistent(),
        !p.persistent(),
        p.collapse_over(env),
        p.pending.len() == 0,
    ensures
        p.ticked(over, reversal, env).is_hidden(),
        p.ticked(over, reversal, env).content is None,
{
    reveal(Pill::ticked);
    reveal(Pill::tick_through_dismiss);
    reveal(Pill::tick_deadline);
    reveal(Pill::tick_dismiss);
    reveal(Pill::hidden_away);
    reveal(Pill::next_shown);
    lemma_tick_standing(p, env);
    let a = p.tick_standing(env);
    lemma_tick_cursor(a, over, env);
    let c = a.tick_cursor(over, env);
    lemma_tick_hover(c, over, engaged(over, c.hover.leave_at, env.now), reversal, env);
    let d = p.tick_through_dismiss(over, reversal, env);
    assert(d.collapse_over(env));
    law_cleared_pill_keeps_nothing_on_screen(d);
}

/// At its deadline a persistent pill over an ordinary foreground rests at
/// idle opacity instead of collapsing, where no playing pin claims it.
pub proof fn law_deadline_fades_a_persistent_pill(p: Pill, reversal: Reversal, env: Env)
    requires
        p.persistent(),
        p.config.overlay.fade_persistent_pill,
        !p.rest.collapse_on_dismiss,
        p.config.behavior.hide_for_auto_compact_sources ==> !p.hides_for(env),
        !is_tombstone(p.content),
        p.pin_to_return_to() is None,
        p.left_alone(env.now),
    ensures
        p.ticked(false, reversal, env).rest.faded,
        p.ticked(false, reversal, env).phase == Phase::Shown,
        p.ticked(false, reversal, env).content == p.content,
{
    reveal(Pill::tick_through_dismiss);
    reveal(Pill::tick_dismiss);
    reveal(Pill::tick_phase);
    reveal(Pill::persistent_rest);
    reveal(Pill::pin_to_return_to);
    lemma_left_alone(p, reversal, env);
    lemma_tick_standing(p, env);
    lemma_tick_cursor(p.tick_standing(env), false, env);
    lemma_tick_goes_on(p, false, reversal, env);
}

/// At its deadline a persistent pill over an ordinary foreground returns to
/// the pinned source's track, where the pin plays and the pill is on another
/// source.
pub proof fn law_deadline_returns_to_the_pin(p: Pill, reversal: Reversal, env: Env)
    requires
        p.persistent(),
        !p.rest.collapse_on_dismiss,
        p.config.behavior.hide_for_auto_compact_sources ==> !p.hides_for(env),
        p.pin_to_return_to() is Some,
        p.left_alone(env.now),
    ensures
        p.ticked(false, reversal, env).content == Some(MediaEvent::TrackChanged(p.pin_to_return_to()->0)),
        p.ticked(false, reversal, env).phase == Phase::Shown,
{
    reveal(Pill::tick_through_dismiss);
    reveal(Pill::tick_dismiss);
    reveal(Pill::tick_phase);
    reveal(Pill::persistent_rest);
    reveal(Pill::pin_to_return_to);
    lemma_left_alone(p, reversal, env);
    lemma_tick_standing(p, env);
    lemma_tick_cursor(p.tick_standing(env), false, env);
    let a = p.tick_standing(env).tick_cursor(false, env);
    let h = a.tick_hover(false, engaged(false, a.hover.leave_at, env.now), reversal, env);
    let d = h.tick_deadline(false, false, env);
    assert(d.pin_to_return_to() == p.pin_to_return_to());
    lemma_swap_stays_visible(d, p.pin_to_return_to()->0, env);
    lemma_persistent_through_dismiss(p, false, reversal, env);
    lemma_tick_goes_on(p, false, reversal, env);
}

/// A persistent pill that announces the end of its source collapses at its
/// deadline, unless a playing source takes over from the pin. Where the exit
/// takes no time and nothing waits, it is gone at once.
pub proof fn law_tombstone_collapses(p: Pill, reversal: Reversal, env: Env)
    requires
        p.persistent(),
        !p.rest.collapse_on_dismiss,
        p.config.behavior.hide_for_auto_compact_sources ==> !p.hides_for(env),
        is_tombstone(p.content),
        p.pin_to_return_to() is None,
        p.left_alone(env.now),
    ensures
        ({
            let s = p.ticked(false, reversal, env);
            &&& p.tombstone_successor() matches Some(t) ==> s.content == Some(MediaEvent::TrackChanged(t)) && s.phase
                == Phase::Shown
            &&& p.tombstone_successor() is None && exit_ms(p.config, env.animations) > 0 ==> s.phase
                == Phase::Collapsing(env.now) && s.content == p.content
            &&& p.tombstone_successor() is None && exit_ms(p.config, env.animations) == 0 && p.pending.len() == 0
                ==> s.is_hidden() && s.content is None
        }),
{
    reveal(Pill::tick_through_dismiss);
    reveal(Pill::tick_dismiss);
    reveal(Pill::tick_phase);
    reveal(Pill::ticked);
    reveal(Pill::persistent_rest);
    reveal(Pill::pin_to_return_to);
    reveal(Pill::tombstone_successor);
    lemma_left_alone(p, reversal, env);
    lemma_tick_standing(p, env);
    lemma_tick_cursor(p.tick_standing(env), false, env);
    let a = p.tick_standing(env).tick_cursor(false, env);
    let h = a.tick_hover(false, engaged(false, a.hover.leave_at, env.now), reversal, env);
    let d = h.tick_deadline(false, false, env);
    assert(d.tombstone_successor() == p.tombstone_successor());
    lemma_persistent_through_dismiss(p, false, reversal, env);
    let q = p.tick_through_dismiss(false, reversal, env);
    if let Some(t) = p.tombstone_successor() {
        lemma_swap_stays_visible(d, t, env);
        lemma_tick_goes_on(p, false, reversal, env);
    } else if exit_ms(p.config, env.animations) > 0 {
        lemma_tick_goes_on(p, false, reversal, env);
    } else if p.pending.len() == 0 {
        lemma_empty_queue_hides(q, env);
    }
}

/// A line holds still before it scrolls.
pub proof fn law_line_holds_before_it_moves(line: LineScroll, by: u64, now: u64)
    requires
        line.started_at matches Some(t) && since(t, now) < MARQUEE_HOLD_MS,
    ensures
        advanced_line(line, by, now) == line,
{
}

/// No line scrolls while motion is not allowed.
pub proof fn law_no_motion_no_marquee(p: Pill, dt: u64, env: Env)
    requires
        !env.animations,
    ensures
        p.tick_marquee(dt, env) == p,
{
    reveal(Pill::tick_marquee);
}

} // verus!
