//! What each reaction leaves behind, told by the event and the state before
//! it.
use crate::config::{
    debounce_interval, full_duration, later, refresh_duration, since, Config, LayoutMode, OverlayPos,
};
use crate::events::{is_track_of, source_of_held, MediaEvent, PlaybackState, TrackInfo};
use crate::fullscreen::listed;
use crate::ledger::{
    cached, distinct_sources, law_remembered_track_is_the_entry_of_the_source, law_successor_is_playing, other_sources,
    pinned, remembered, successor,
};
use crate::order::{
    law_cleared_pill_keeps_nothing_on_screen, law_refresh_keeps_the_pill_up, law_show_puts_the_event_on_screen,
    law_timer_follows_the_motion, law_update_surfaces_an_auto_hidden_pill, lemma_adopted, lemma_noting,
    lemma_reanchored, lemma_relaid, lemma_rendered, lemma_with_content, lemma_with_progress_of,
};
use crate::pill::{
    bumped, lines_at_rest, moving_period, spoken_name, ContentFade, Effect, Env, Foreground, Frame, Hover, LineScroll,
    Look, Phase, Pill, PillText, Rest, Reversal, Timer,
};
use crate::progress::Progress;
use crate::promises::law_toggle_off_hides;
use crate::queue::{enqueued, others_waiting, track_waiting};
use crate::text::{law_blank_text_trims_to_nothing, optional_text, trimmed};
use vstd::prelude::*;

verus! {

// ---- what goes with the content ----

/// Whether the bar follows a track that became the content: its position,
/// duration and rate, and an anchor at that position where it reports one,
/// taken at the time it was read or now.
pub open spec fn bar_follows(bar: Progress, track: TrackInfo, now: u64) -> bool {
    &&& bar.estimated_us == track.position_us
    &&& bar.duration_secs == track.duration_secs
    &&& bar.rate_milli == track.playback_rate_milli
    &&& bar.anchor is Some <==> track.position_us is Some
    &&& bar.anchor matches Some(a) ==> {
        &&& a.position_us == track.position_us->0
        &&& track.position_updated_at is Some ==> a.at == track.position_updated_at->0
        &&& track.position_updated_at is None ==> a.at == now
    }
    &&& bar.playing
    &&& bar.last_position_us is None
}

/// Whether a line is at its start and begins its hold.
pub open spec fn starts_over(line: LineScroll, now: u64) -> bool {
    line.offset == 0 && line.started_at == Some(now) && !line.scrolling
}

/// Whether a text is the one of a track.
pub open spec fn tells(text: Option<PillText>, track: TrackInfo) -> bool {
    &&& text is Some
    &&& text->0.title == track.title
    &&& text->0.artist == track.artist
    &&& text->0.source_app == track.source_app
    &&& text->0.app_icon == track.app_icon
}

impl Pill {
    /// Whether everything that goes with the content is that of `event`,
    /// shown at `now`: published source, palette, text, name and scroll
    /// state. A state pill tells of the remembered track of its source, and
    /// names the source where none is remembered.
    pub open spec fn presents(self, event: MediaEvent, now: u64) -> bool {
        &&& self.content == Some(event)
        &&& starts_over(self.look.scroll.title, now)
        &&& starts_over(self.look.scroll.subtitle, now)
        &&& starts_over(self.look.scroll.meta, now)
        &&& starts_over(self.look.scroll.app, now)
        &&& event matches MediaEvent::TrackChanged(track) ==> {
            &&& self.look.content_palette == track.palette
            &&& self.now_showing == Some(track.source_app)
            &&& tells(self.look.text, track)
            &&& self.pill_name == Some(spoken_name(self.look.text->0))
        }
        &&& event matches MediaEvent::PlaybackStateChanged(_, source) ==> {
            &&& self.look.content_palette is None
            &&& source@.len() > 0 ==> self.now_showing == Some(source)
            &&& source@.len() > 0 && distinct_sources(self.track_cache) ==> {
                &&& forall|i: int|
                    0 <= i < self.track_cache.len() && (#[trigger] self.track_cache[i]).source_app@ == source@
                        ==> tells(self.look.text, self.track_cache[i]) && self.pill_name == Some(
                        spoken_name(self.look.text->0),
                    )
                &&& (forall|i: int|
                    0 <= i < self.track_cache.len() ==> (#[trigger] self.track_cache[i]).source_app@ != source@) ==> {
                    &&& self.look.text is None
                    &&& trimmed(source@).len() > 0 ==> self.pill_name == Some(trimmed(source@))
                    &&& trimmed(source@).len() == 0 ==> self.pill_name is None
                }
            }
        }
    }

    /// The timer effects on the way from this state to one with a running
    /// timer: none where it already runs at the right period.
    pub open spec fn retimed(self, period: u32) -> Seq<Effect> {
        if !self.timer.armed {
            seq![Effect::ArmTimer(period)]
        } else if self.timer.period != period {
            seq![Effect::DropTimer, Effect::ArmTimer(period)]
        } else {
            Seq::empty()
        }
    }

    /// The announcement on the way from this state to one with the given
    /// name: only a track under a new name is announced.
    pub open spec fn announced(self, event: MediaEvent, name: Option<Seq<char>>) -> Seq<Effect> {
        if event is TrackChanged && name != self.pill_name {
            seq![Effect::AnnounceName]
        } else {
            Seq::empty()
        }
    }

    /// The refresh period that a moving pill goes by: one read less than a
    /// second ago, else the one read now.
    pub open spec fn display_period(self, env: Env) -> u32 {
        if self.timer.period_cache is Some && since(self.timer.period_cache->0.at, env.now) < 1000 {
            self.timer.period_cache->0.period
        } else {
            env.refresh_period
        }
    }
}

/// A synchronised timer runs, at the display's pace where the pill is on its
/// way, morphs, dissolves or scrolls, and every 250 ms where it rests. A
/// refresh period that has aged a second is replaced by the one read now. It
/// is restarted only for another period.
pub proof fn law_timer_keeps_the_displays_pace(p: Pill, env: Env)
    ensures
        ({
            let s = p.synced(env);
            let m = p.look.scroll;
            let moves = p.phase != Phase::Shown || p.hover.expand is Some || p.look.fade is Some || m.title.scrolling
                || m.subtitle.scrolling || m.meta.scrolling || m.app.scrolling;
            &&& s == (Pill { timer: s.timer, effects: s.effects, ..p })
            &&& s.timer.armed
            &&& s.timer.last_tick == p.timer.last_tick
            &&& s.timer.last_reassert == p.timer.last_reassert
            &&& moves ==> s.timer.period == moving_period(p.display_period(env), p.config)
            &&& moves ==> s.timer.period_cache is Some && since(s.timer.period_cache->0.at, env.now) < 1000
                && s.timer.period_cache->0.period == p.display_period(env)
            &&& moves && s.timer.period_cache != p.timer.period_cache ==> s.timer.period_cache->0.at == env.now
            &&& !moves && p.config.overlay.layout != LayoutMode::PersistentCompact ==> s.timer.period == 250
            &&& !moves && !p.rest.faded ==> s.timer.period == 250
            &&& !moves && !p.rest.faded ==> s.timer.period_cache == p.timer.period_cache
            &&& s.effects == p.effects + p.retimed(s.timer.period)
        }),
{
    reveal(Pill::synced);
    reveal(Pill::wanted_period);
    reveal(Pill::period_after);
    reveal(Pill::with_timer);
    reveal(Pill::without_timer);
    assert(p.synced(env).effects =~= p.effects + p.retimed(p.synced(env).timer.period));
}

/// While a resting persistent pill fades, its timer keeps the display's pace;
/// once the fade's 300 ms are over, or without the fade, it rests.
pub proof fn law_timer_keeps_pace_with_the_idle_fade(p: Pill, env: Env)
    requires
        p.phase == Phase::Shown,
        p.hover.expand is None,
        p.look.fade is None,
        !p.look.scroll.title.scrolling && !p.look.scroll.subtitle.scrolling,
        !p.look.scroll.meta.scrolling && !p.look.scroll.app.scrolling,
        p.config.overlay.layout == LayoutMode::PersistentCompact,
    ensures
        ({
            let fades = p.config.overlay.fade_persistent_pill && p.rest.faded && !p.rest.collapse_on_dismiss
                && p.dismiss_at is Some && since(p.dismiss_at->0, env.now) < 300;
            &&& fades ==> p.synced(env).timer.period == moving_period(p.display_period(env), p.config)
            &&& !fades ==> p.synced(env).timer.period == 250
        }),
{
    reveal(Pill::synced);
    reveal(Pill::wanted_period);
    reveal(Pill::with_timer);
    reveal(Pill::without_timer);
}

proof fn lemma_content(p: Pill, event: MediaEvent, now: u64)
    requires
        event is TrackChanged || event is PlaybackStateChanged,
    ensures
        ({
            let s = p.with_progress_of(event, now).with_content(event, now);
            &&& s.presents(event, now)
            &&& event matches MediaEvent::TrackChanged(t) ==> bar_follows(s.progress, t, now)
            &&& event is PlaybackStateChanged ==> s.progress == p.progress
            &&& event matches MediaEvent::PlaybackStateChanged(_, source) ==> source@.len() == 0 ==> s.now_showing
                == p.now_showing && s.look.text is None && s.pill_name is None
            &&& s.progress.last_bar == p.progress.last_bar
            &&& s.look.content_rev != p.look.content_rev
            &&& s.effects == p.effects + p.announced(event, s.pill_name)
            &&& s.now_showing == p.now_showing || s.now_showing is Some
            &&& s == (Pill {
                content: Some(event),
                now_showing: s.now_showing,
                pill_name: s.pill_name,
                progress: s.progress,
                effects: s.effects,
                look: Look {
                    content_rev: s.look.content_rev,
                    content_palette: s.look.content_palette,
                    text: s.look.text,
                    scroll: s.look.scroll,
                    ..p.look
                },
                ..p
            })
        }),
{
    reveal(Pill::with_progress_of);
    reveal(Pill::with_content);
    reveal(Pill::with_text);
    let s = p.with_progress_of(event, now).with_content(event, now);
    if let MediaEvent::PlaybackStateChanged(_, source) = event {
        law_blank_text_trims_to_nothing(source@);
        if distinct_sources(p.track_cache) {
            law_remembered_track_is_the_entry_of_the_source(p.track_cache, source@);
        }
    }
    assert(s.effects =~= p.effects + p.announced(event, s.pill_name));
}

/// Showing an event while notifications are on presents it: whatever was
/// there before, palette, text, name, published source and scroll state are
/// that event's, and the bar follows it where it is a track and stays where it
/// is a state. The hover starts over, and the content counts as new.
pub proof fn law_shown_event_is_presented(p: Pill, event: MediaEvent, full: bool, duration_ms: u64, env: Env)
    requires
        p.enabled,
        event is TrackChanged || event is PlaybackStateChanged,
    ensures
        ({
            let s = p.shown_for(event, full, duration_ms, env);
            &&& s.presents(event, env.now)
            &&& event matches MediaEvent::TrackChanged(t) ==> bar_follows(s.progress, t, env.now)
            &&& event is PlaybackStateChanged ==> s.progress == p.progress
            &&& event matches MediaEvent::PlaybackStateChanged(_, source) ==> source@.len() == 0 ==> s.now_showing
                == p.now_showing && s.look.text is None && s.pill_name is None
            &&& s.look.content_rev != p.look.content_rev
            &&& s.look.art == p.look.art && s.look.art_source == p.look.art_source
            &&& s.look.palette == p.look.palette
            &&& !s.hover.expanded_once
            &&& s.hover.leave_at is None
            &&& s.hover.cursor_over == p.hover.cursor_over
            &&& s.frame == p.frame
            &&& s.place.expanded == p.place.expanded && s.place.compact == p.place.compact
            &&& s.place.anchor_edge == p.place.anchor_edge
            &&& s.timer.period == moving_period(p.display_period(env), p.config)
            &&& s.effects == p.effects + seq![Effect::StopIdleRelease] + p.announced(event, s.pill_name) + p.retimed(
                s.timer.period,
            ) + seq![Effect::ShowWindow, Effect::Render]
        }),
{
    reveal(Pill::shown_for);
    reveal(Pill::with_collapse_flag);
    reveal(Pill::rendered);
    let a = Pill { rest: Rest { watchdog: false, ..p.rest }, ..p };
    lemma_relaid(a, env);
    reveal(Pill::relaid);
    let b = a.relaid(env);
    let c = b.with_collapse_flag(event, env).emit(Effect::StopIdleRelease);
    lemma_content(c, event, env.now);
    let e = c.with_progress_of(event, env.now).with_content(event, env.now);
    let f = Pill {
        dismiss_at: Some(later(env.now, duration_ms)),
        phase: if full {
            Phase::Expanding(env.now)
        } else {
            Phase::Light(env.now)
        },
        hover: Hover { dismiss_at: None, expand: None, expanded_once: false, leave_at: None, ..e.hover },
        rest: Rest { faded: false, ..e.rest },
        look: Look { fade: None, ..e.look },
        ..e
    };
    law_timer_keeps_the_displays_pace(f, env);
    let s = p.shown_for(event, full, duration_ms, env);
    assert(s.effects =~= p.effects + seq![Effect::StopIdleRelease] + p.announced(event, s.pill_name) + p.retimed(
        s.timer.period,
    ) + seq![Effect::ShowWindow, Effect::Render]);
}

/// Showing samples the foreground and lays the pill out for it. A persistent
/// pill with auto-hide will collapse at its deadline exactly where the
/// foreground is fullscreen or listed, and only then takes the event into its
/// hold; any other pill keeps its hold and its rest as they were.
pub proof fn law_shown_pill_is_laid_out_for_the_foreground(
    p: Pill,
    event: MediaEvent,
    full: bool,
    duration_ms: u64,
    env: Env,
)
    requires
        p.enabled,
    ensures
        ({
            let s = p.shown_for(event, full, duration_ms, env);
            let auto = p.config.overlay.layout == LayoutMode::PersistentCompact
                && p.config.behavior.hide_for_auto_compact_sources;
            &&& s.fg.window == Some(env.foreground)
            &&& s.fg.exe == (if p.fg.window == Some(env.foreground) {
                p.fg.exe
            } else {
                env.exe
            })
            &&& s.fg.fullscreen == Some(env.fullscreen)
            &&& s.fg.geometry_check == p.fg.geometry_check
            &&& s.place.layout == p.relaid(env).place.layout
            &&& auto ==> s.rest.collapse_on_dismiss == p.hides_for(env)
            &&& auto && p.hides_for(env) ==> s.held_content == Some(event)
            &&& !(auto && p.hides_for(env)) ==> s.held_content == p.held_content
            &&& !auto ==> s.rest.collapse_on_dismiss == p.rest.collapse_on_dismiss
        }),
{
    law_show_puts_the_event_on_screen(p, event, full, duration_ms, env);
    reveal(Pill::shown_for);
    reveal(Pill::with_collapse_flag);
    reveal(Pill::relaid);
    let a = Pill { rest: Rest { watchdog: false, ..p.rest }, ..p };
    let c = a.relaid(env).with_collapse_flag(event, env).emit(Effect::StopIdleRelease);
    lemma_with_progress_of(c, event, env.now);
    let d = c.with_progress_of(event, env.now);
    lemma_with_content(d, event, env.now);
    let e = d.with_content(event, env.now);
    let f = Pill {
        dismiss_at: Some(later(env.now, duration_ms)),
        phase: if full {
            Phase::Expanding(env.now)
        } else {
            Phase::Light(env.now)
        },
        hover: Hover { dismiss_at: None, expand: None, expanded_once: false, leave_at: None, ..e.hover },
        rest: Rest { faded: false, ..e.rest },
        look: Look { fade: None, ..e.look },
        ..e
    };
    law_timer_follows_the_motion(f, env);
    lemma_rendered(f.synced(env).emit(Effect::ShowWindow));
}

// ---- refreshes ----

/// An update of a pill on screen presents the event in place, whatever was
/// there before: palette, text, name, published source and scroll state are
/// that event's, and the bar follows it where it is a track and stays where it
/// is a state. The deadline moves out to `min_visible` from now, and only
/// out.
pub proof fn law_updated_event_is_presented(p: Pill, event: MediaEvent, min_visible: u64, env: Env)
    requires
        !p.auto_hidden(),
        event is TrackChanged || event is PlaybackStateChanged,
    ensures
        ({
            let s = p.updated(event, min_visible, env);
            &&& s.presents(event, env.now)
            &&& event matches MediaEvent::TrackChanged(t) ==> bar_follows(s.progress, t, env.now)
            &&& event is PlaybackStateChanged ==> s.progress == p.progress
            &&& event matches MediaEvent::PlaybackStateChanged(_, source) ==> source@.len() == 0 ==> s.now_showing
                == p.now_showing && s.look.text is None && s.pill_name is None
            &&& s.look.content_rev != p.look.content_rev
            &&& s.look.art == p.look.art && s.look.art_source == p.look.art_source
            &&& s.look.palette == p.look.palette
            &&& p.dismiss_at matches Some(d) ==> s.dismiss_at is Some && (s.dismiss_at->0 == d || s.dismiss_at->0
                == later(env.now, min_visible))
            &&& !p.persistent() ==> s.rest.faded == p.rest.faded
            &&& s.place.layout == p.relaid(env).place.layout
            &&& s.place.expanded == p.place.expanded && s.place.compact == p.place.compact
            &&& s.place.anchor_edge == p.place.anchor_edge
            &&& s.effects.len() > 0 && s.effects.last() == Effect::Render
        }),
{
    reveal(Pill::updated);
    reveal(Pill::rendered);
    reveal(Pill::with_dissolve);
    lemma_relaid(p, env);
    reveal(Pill::relaid);
    let r = p.relaid(env);
    let d = r.with_dissolve(env);
    law_timer_keeps_the_displays_pace(
        Pill {
            frame: Frame { has_frame: false, ..r.frame },
            look: Look {
                fade: Some(ContentFade { start: env.now, from_w: r.frame.w, from_h: r.frame.h }),
                ..r.look
            },
            ..r
        },
        env,
    );
    let h = Pill { held_content: Some(event), ..d };
    lemma_content(d, event, env.now);
    lemma_content(h, event, env.now);
    lemma_hold_commutes(d, event, env.now);
}

proof fn lemma_hold_commutes(p: Pill, event: MediaEvent, now: u64)
    ensures
        (Pill { held_content: Some(event), ..p }).with_progress_of(event, now) == (Pill {
            held_content: Some(event),
            ..p.with_progress_of(event, now)
        }),
{
    reveal(Pill::with_progress_of);
}

/// A fully static pill with a frame at hand dissolves from that frame into
/// the new content, from now on and while motion is allowed; the frame is used
/// up by it, and the timer takes up the display's pace. Any other pill drops a
/// dissolve and keeps its frame and its timer.
pub proof fn law_static_pill_dissolves_into_new_content(p: Pill, event: MediaEvent, min_visible: u64, env: Env)
    requires
        !p.auto_hidden(),
        event is TrackChanged || event is PlaybackStateChanged,
    ensures
        ({
            let s = p.updated(event, min_visible, env);
            let dissolves = p.phase == Phase::Shown && p.hover.expand is None && p.frame.has_frame && env.animations;
            &&& dissolves ==> {
                &&& s.look.fade == Some(ContentFade { start: env.now, from_w: p.frame.w, from_h: p.frame.h })
                &&& s.frame == (Frame { has_frame: false, ..p.frame })
                &&& s.timer.armed
                &&& s.timer.period == moving_period(p.display_period(env), p.config)
                &&& s.effects == p.effects + p.retimed(s.timer.period) + p.announced(event, s.pill_name)
                    + seq![Effect::Render]
            }
            &&& !dissolves ==> {
                &&& s.look.fade is None
                &&& s.frame == p.frame
                &&& s.timer == p.timer
                &&& s.effects == p.effects + p.announced(event, s.pill_name) + seq![Effect::Render]
            }
        }),
{
    reveal(Pill::updated);
    reveal(Pill::rendered);
    reveal(Pill::with_dissolve);
    lemma_relaid(p, env);
    reveal(Pill::relaid);
    let r = p.relaid(env);
    let d = r.with_dissolve(env);
    let f = Pill {
        frame: Frame { has_frame: false, ..r.frame },
        look: Look { fade: Some(ContentFade { start: env.now, from_w: r.frame.w, from_h: r.frame.h }), ..r.look },
        ..r
    };
    law_timer_keeps_the_displays_pace(f, env);
    let h = Pill { held_content: Some(event), ..d };
    lemma_content(d, event, env.now);
    lemma_content(h, event, env.now);
    lemma_hold_commutes(d, event, env.now);
    let s = p.updated(event, min_visible, env);
    if p.phase == Phase::Shown && p.hover.expand is None && p.frame.has_frame && env.animations {
        assert(s.effects =~= p.effects + p.retimed(s.timer.period) + p.announced(event, s.pill_name)
            + seq![Effect::Render]);
    } else {
        assert(s.effects =~= p.effects + p.announced(event, s.pill_name) + seq![Effect::Render]);
    }
}

/// An update of an auto-hidden pill while notifications are on surfaces it: a
/// track with the full entrance, a state with the light reveal, both for the
/// full time and presented like a fresh pill.
pub proof fn law_auto_hidden_pill_surfaces(p: Pill, event: MediaEvent, min_visible: u64, env: Env)
    requires
        p.enabled,
        p.auto_hidden(),
        event is TrackChanged || event is PlaybackStateChanged,
    ensures
        ({
            let s = p.updated(event, min_visible, env);
            &&& s.presents(event, env.now)
            &&& event matches MediaEvent::TrackChanged(t) ==> bar_follows(s.progress, t, env.now)
            &&& event is PlaybackStateChanged ==> s.progress == p.progress
            &&& event is TrackChanged ==> s.phase == Phase::Expanding(env.now)
            &&& event is PlaybackStateChanged ==> s.phase == Phase::Light(env.now)
            &&& s.dismiss_at == Some(later(env.now, full_duration(p.config)))
            &&& s.pending == p.pending && s.last_track == p.last_track && s.current_source == p.current_source
            &&& s.track_cache == p.track_cache && s.source_state == p.source_state
        }),
{
    reveal(Pill::updated);
    reveal(Pill::shown);
    law_show_puts_the_event_on_screen(p, event, event is TrackChanged, full_duration(p.config), env);
    law_shown_event_is_presented(p, event, event is TrackChanged, full_duration(p.config), env);
}

/// The layout follows its mode: expanded and compact as configured, persistent
/// always compact, and Auto compact over a fullscreen foreground or one whose
/// executable is on the list, expanded over any other. The executable is read
/// anew only for another window.
pub proof fn law_layout_follows_its_mode(p: Pill, env: Env)
    ensures
        ({
            let s = p.relaid(env);
            let exe = if p.fg.window == Some(env.foreground) {
                p.fg.exe
            } else {
                env.exe
            };
            let mode = p.config.overlay.layout;
            &&& mode == LayoutMode::Expanded ==> s.place.layout == LayoutMode::Expanded
            &&& mode == LayoutMode::Compact ==> s.place.layout == LayoutMode::Compact
            &&& mode == LayoutMode::PersistentCompact ==> s.place.layout == LayoutMode::Compact
            &&& mode == LayoutMode::Auto && env.fullscreen ==> s.place.layout == LayoutMode::Compact
            &&& mode == LayoutMode::Auto && !env.fullscreen ==> (s.place.layout == LayoutMode::Compact <==> listed(
                p.config,
                optional_text(exe),
            ))
            &&& mode == LayoutMode::Auto ==> s.place.layout == LayoutMode::Compact || s.place.layout
                == LayoutMode::Expanded
            &&& s.place.expanded == p.place.expanded && s.place.compact == p.place.compact
            &&& s.place.anchor_edge == p.place.anchor_edge
            &&& s.fg.window == Some(env.foreground)
            &&& s.fg.exe == exe
            &&& s.fg.fullscreen == Some(env.fullscreen)
            &&& s.fg.geometry_check == p.fg.geometry_check
            &&& s == (Pill { place: s.place, fg: s.fg, ..p })
        }),
{
    reveal(Pill::relaid);
}

/// The persistent pill hides for a fullscreen foreground and for one whose
/// executable is on the list, and for no other.
pub proof fn law_pill_hides_for_fullscreen_or_listed(p: Pill, env: Env)
    ensures
        env.fullscreen ==> p.hides_for(env),
        !env.fullscreen && p.fg.window == Some(env.foreground) ==> (p.hides_for(env) <==> listed(
            p.config,
            optional_text(p.fg.exe),
        )),
        !env.fullscreen && p.fg.window != Some(env.foreground) ==> (p.hides_for(env) <==> listed(
            p.config,
            optional_text(env.exe),
        )),
{
}

// ---- tracks ----

pub(crate) proof fn lemma_swapped(p: Pill, track: TrackInfo, env: Env)
    requires
        p.auto_hidden() ==> p.enabled,
    ensures
        ({
            let s = p.swapped_to(track, env);
            &&& s.presents(MediaEvent::TrackChanged(track), env.now)
            &&& bar_follows(s.progress, track, env.now)
            &&& s.current_source == Some(track.source_app)
            &&& s.last_track == Some(track)
            &&& s.track_cache == cached(p.track_cache, track)
            &&& s.source_state == p.source_state
            &&& s.pending == p.pending
            &&& s.enabled == p.enabled
            &&& s.config == p.config
            &&& p.auto_hidden() ==> s.phase == Phase::Expanding(env.now) && s.dismiss_at == Some(
                later(env.now, full_duration(p.config)),
            )
            &&& !p.auto_hidden() ==> {
                &&& s.phase == (if p.is_collapsing() {
                    Phase::Expanding(env.now)
                } else {
                    p.phase
                })
                &&& s.hover == p.hover
                &&& p.dismiss_at matches Some(d) ==> s.dismiss_at == Some(
                    if d < later(env.now, full_duration(p.config)) {
                        later(env.now, full_duration(p.config))
                    } else {
                        d
                    },
                )
                &&& s.held_content == (if p.rest.collapse_on_dismiss {
                    Some(MediaEvent::TrackChanged(track))
                } else {
                    p.held_content
                })
            }
        }),
{
    reveal(Pill::swapped_to);
    lemma_adopted(p, track);
    let a = p.adopted(track);
    let event = MediaEvent::TrackChanged(track);
    let full = full_duration(p.config);
    if p.auto_hidden() {
        law_auto_hidden_pill_surfaces(a, event, full, env);
        law_update_surfaces_an_auto_hidden_pill(a, event, full, env);
        reveal(Pill::shown);
        law_show_puts_the_event_on_screen(a, event, true, full, env);
    } else {
        law_updated_event_is_presented(a, event, full, env);
        law_refresh_keeps_the_pill_up(a, event, full, env);
    }
}

/// A track that refreshes the one on screen is taken over at once, whoever
/// else waits, and leaves the pill up for the short extension at least.
pub proof fn law_refreshing_track_extends_the_pill(p: Pill, on_screen: TrackInfo, track: TrackInfo, env: Env)
    requires
        p.content == Some(MediaEvent::TrackChanged(on_screen)),
        !p.is_hidden(),
        on_screen.is_same_media(track),
    ensures
        ({
            let s = p.with_track(track, env);
            let extended = later(env.now, refresh_duration(p.config));
            &&& s.presents(MediaEvent::TrackChanged(track), env.now)
            &&& bar_follows(s.progress, track, env.now)
            &&& s.current_source == Some(track.source_app)
            &&& s.last_track == Some(track)
            &&& s.track_cache == cached(p.track_cache, track)
            &&& s.pending == p.pending
            &&& p.dismiss_at matches Some(d) ==> s.dismiss_at == Some(
                if d < extended {
                    extended
                } else {
                    d
                },
            )
        }),
{
    reveal(Pill::with_track);
    lemma_adopted(p, track);
    let a = p.adopted(track);
    law_updated_event_is_presented(a, MediaEvent::TrackChanged(track), refresh_duration(p.config), env);
    law_refresh_keeps_the_pill_up(a, MediaEvent::TrackChanged(track), refresh_duration(p.config), env);
}

/// Another track takes a pill over for its full time where it must not wait:
/// where the cursor holds the pill expanded, where its own source is on
/// screen, or where the pill is persistent.
pub proof fn law_track_that_must_not_wait_takes_the_pill_over(p: Pill, track: TrackInfo, env: Env)
    requires
        !p.is_hidden(),
        !(p.content matches Some(MediaEvent::TrackChanged(t)) && t.is_same_media(track)),
        ({
            ||| p.hover.expand is Some && p.hover.cursor_over
            ||| p.hover.expand is Some && p.hover.leave_at is Some && since(p.hover.leave_at->0, env.now) < 60
            ||| source_of_held(p.content) == Some(track.source_app@)
            ||| p.config.overlay.layout == LayoutMode::PersistentCompact
        }),
    ensures
        ({
            let s = p.with_track(track, env);
            let extended = later(env.now, full_duration(p.config));
            &&& s.presents(MediaEvent::TrackChanged(track), env.now)
            &&& bar_follows(s.progress, track, env.now)
            &&& s.current_source == Some(track.source_app)
            &&& s.last_track == Some(track)
            &&& s.track_cache == cached(p.track_cache, track)
            &&& s.pending == p.pending
            &&& p.dismiss_at matches Some(d) ==> s.dismiss_at == Some(
                if d < extended {
                    extended
                } else {
                    d
                },
            )
        }),
{
    reveal(Pill::with_track);
    lemma_swapped(p, track, env);
}

/// Under a persistent pill that is off the screen while notifications are on,
/// a track shows at once with the full entrance and for its full time, whether
/// the pill was auto-hidden or never shown.
pub proof fn law_track_brings_a_persistent_pill_back(p: Pill, track: TrackInfo, env: Env)
    requires
        p.enabled,
        p.is_hidden(),
        p.content is None,
        !(p.hover.expand is Some),
        p.config.overlay.layout == LayoutMode::PersistentCompact,
    ensures
        ({
            let s = p.with_track(track, env);
            &&& s.presents(MediaEvent::TrackChanged(track), env.now)
            &&& bar_follows(s.progress, track, env.now)
            &&& s.phase == Phase::Expanding(env.now)
            &&& s.dismiss_at == Some(later(env.now, full_duration(p.config)))
            &&& s.current_source == Some(track.source_app)
            &&& s.last_track == Some(track)
            &&& s.track_cache == cached(p.track_cache, track)
            &&& s.pending == p.pending
        }),
{
    reveal(Pill::with_track);
    if p.auto_hidden() {
        lemma_swapped(p, track, env);
    } else {
        reveal(Pill::shown);
        lemma_adopted(p, track);
        let a = p.adopted(track);
        let event = MediaEvent::TrackChanged(track);
        law_show_puts_the_event_on_screen(a, event, true, full_duration(p.config), env);
        law_shown_event_is_presented(a, event, true, full_duration(p.config), env);
    }
}

/// While no pill is on screen a notification layout's track waits: it joins
/// the queue and changes nothing else.
pub proof fn law_track_waits_for_a_hidden_notification(p: Pill, track: TrackInfo, env: Env)
    requires
        p.is_hidden(),
        p.content is None,
        p.hover.expand is None,
        p.config.overlay.layout != LayoutMode::PersistentCompact,
    ensures
        p.with_track(track, env) == (Pill {
            pending: enqueued(p.pending, MediaEvent::TrackChanged(track)),
            ..p
        }),
{
    reveal(Pill::with_track);
}

/// The event that waited longest is shown next: a track with the full entrance
/// and remembered as the current one, a state with the light reveal and
/// nothing remembered. Without one nothing happens.
pub proof fn law_next_event_is_shown_in_its_own_way(p: Pill, env: Env)
    requires
        p.enabled,
    ensures
        p.pending.len() == 0 ==> p.next_shown(env) == p,
        p.pending.len() > 0 ==> {
            let s = p.next_shown(env);
            let full = later(env.now, full_duration(p.config));
            &&& s.pending == p.pending.skip(1)
            &&& p.pending[0] is TrackChanged || p.pending[0] is PlaybackStateChanged ==> s.effects == p.effects
                + seq![Effect::StopIdleRelease] + p.announced(p.pending[0], s.pill_name) + p.retimed(s.timer.period)
                + seq![Effect::ShowWindow, Effect::Render]
            &&& p.pending[0] matches MediaEvent::TrackChanged(t) ==> {
                &&& s.presents(p.pending[0], env.now)
                &&& bar_follows(s.progress, t, env.now)
                &&& s.phase == Phase::Expanding(env.now)
                &&& s.dismiss_at == Some(full)
                &&& s.current_source == Some(t.source_app)
                &&& s.last_track == Some(t)
                &&& s.track_cache == cached(p.track_cache, t)
            }
            &&& p.pending[0] is PlaybackStateChanged ==> {
                &&& s.presents(p.pending[0], env.now)
                &&& s.progress == p.progress
                &&& s.phase == Phase::Light(env.now)
                &&& s.dismiss_at == Some(full)
                &&& s.current_source == p.current_source
                &&& s.last_track == p.last_track
                &&& s.track_cache == p.track_cache
            }
        },
{
    reveal(Pill::next_shown);
    reveal(Pill::shown);
    if p.pending.len() > 0 {
        let event = p.pending[0];
        let q = Pill { pending: p.pending.skip(1), ..p };
        let full = full_duration(p.config);
        if let MediaEvent::TrackChanged(t) = event {
            lemma_adopted(q, t);
            law_show_puts_the_event_on_screen(q.adopted(t), event, true, full, env);
            law_shown_event_is_presented(q.adopted(t), event, true, full, env);
        } else if event is PlaybackStateChanged {
            law_show_puts_the_event_on_screen(q, event, false, full, env);
            law_shown_event_is_presented(q, event, false, full, env);
        }
    }
}

/// While notifications are off, the event that waited longest leaves the queue
/// without being shown; a track is still remembered as the current one.
pub proof fn law_switched_off_queue_shows_nothing(p: Pill, env: Env)
    requires
        !p.enabled,
        p.pending.len() > 0,
    ensures
        ({
            let s = p.next_shown(env);
            &&& s.pending == p.pending.skip(1)
            &&& s.content == p.content && s.phase == p.phase && s.dismiss_at == p.dismiss_at
            &&& s.look == p.look && s.progress == p.progress && s.effects == p.effects
            &&& p.pending[0] matches MediaEvent::TrackChanged(t) ==> s.current_source == Some(t.source_app)
                && s.last_track == Some(t) && s.track_cache == cached(p.track_cache, t)
            &&& p.pending[0] is PlaybackStateChanged ==> s == (Pill { pending: p.pending.skip(1), ..p })
        }),
{
    reveal(Pill::next_shown);
    reveal(Pill::shown);
    let event = p.pending[0];
    let q = Pill { pending: p.pending.skip(1), ..p };
    let full = full_duration(p.config);
    if let MediaEvent::TrackChanged(t) = event {
        lemma_adopted(q, t);
        law_show_puts_the_event_on_screen(q.adopted(t), event, true, full, env);
    } else if event is PlaybackStateChanged {
        law_show_puts_the_event_on_screen(q, event, false, full, env);
    }
}

/// Another source's track waits behind a notification on screen, whether or
/// not the pill is expanded, unless the cursor holds it expanded: a pill that
/// is not expanded is held by no cursor, and one that the cursor left more
/// than 60 ms ago is no longer held.
pub proof fn law_track_waits_unless_the_cursor_holds_the_pill(p: Pill, track: TrackInfo, env: Env)
    requires
        p.config.overlay.layout != LayoutMode::PersistentCompact,
        source_of_held(p.content) != Some(track.source_app@),
        p.hover.expand is None || (!p.hover.cursor_over && (p.hover.leave_at is None || since(
            p.hover.leave_at->0,
            env.now,
        ) >= 60)),
    ensures
        p.with_track(track, env) == (Pill {
            pending: enqueued(p.pending, MediaEvent::TrackChanged(track)),
            ..p
        }),
{
    reveal(Pill::with_track);
}

// ---- states ----

impl Pill {
    /// Whether a state of `source` tells something that the pill does not show
    /// already and that no upcoming track supersedes.
    pub open spec fn tells_news(self, state: PlaybackState, source: Seq<char>, batch: Seq<MediaEvent>) -> bool {
        &&& forall|i: int|
            0 <= i < batch.len() ==> !(#[trigger] batch[i] matches MediaEvent::TrackChanged(t) && t.source_app@
                == source)
        &&& forall|i: int|
            0 <= i < self.pending.len() ==> !(#[trigger] self.pending[i] matches MediaEvent::TrackChanged(t)
                && t.source_app@ == source)
        &&& state == PlaybackState::Stopped && self.config.overlay.layout == LayoutMode::PersistentCompact ==> {
            ||| self.content is Some && source_of_held(self.content) == Some(source)
            ||| self.content is None && source_of_held(self.held_content) == Some(source)
        }
        &&& state == PlaybackState::Playing ==> {
            &&& !(self.content matches Some(MediaEvent::TrackChanged(t)) && t.source_app@ == source)
            &&& self.current_source is Some && self.current_source->0@ == source ==> (self.content matches Some(
                MediaEvent::PlaybackStateChanged(_, s),
            ) && s@ == source)
        }
    }
}

/// A state that tells nothing new changes nothing.
pub proof fn law_stale_state_changes_nothing(
    p: Pill,
    state: PlaybackState,
    source: String,
    batch: Seq<MediaEvent>,
    env: Env,
)
    requires
        !p.tells_news(state, source@, batch),
    ensures
        p.with_state(state, source, batch, env) == p,
{
    reveal(Pill::with_state);
    reveal(Pill::state_is_redundant);
    lemma_no_news(p, state, source@, batch);
}

proof fn lemma_no_news(p: Pill, state: PlaybackState, source: Seq<char>, batch: Seq<MediaEvent>)
    ensures
        p.tells_news(state, source, batch) == !p.state_is_redundant(state, source, batch),
{
    reveal(Pill::state_is_redundant);
    if track_waiting(batch, source) {
        let k = choose|k: int|
            0 <= k < batch.len() && (#[trigger] batch[k] matches MediaEvent::TrackChanged(t) && t.source_app@
                == source);
        assert(batch[k] is TrackChanged);
    }
    if track_waiting(p.pending, source) {
        let k = choose|k: int|
            0 <= k < p.pending.len() && (#[trigger] p.pending[k] matches MediaEvent::TrackChanged(t) && t.source_app@
                == source);
        assert(p.pending[k] is TrackChanged);
    }
}

/// A state with news shows in place, for the full time, where the pill is on
/// its source or persistent; it brings a persistent pill back that is off the
/// screen; and in any other case it waits and changes nothing else.
pub proof fn law_state_with_news_is_shown_or_waits(
    p: Pill,
    state: PlaybackState,
    source: String,
    batch: Seq<MediaEvent>,
    env: Env,
)
    requires
        p.tells_news(state, source@, batch),
        p.enabled,
        p.is_hidden() <==> p.content is None,
    ensures
        ({
            let s = p.with_state(state, source, batch, env);
            let event = MediaEvent::PlaybackStateChanged(state, source);
            let persists = p.config.overlay.layout == LayoutMode::PersistentCompact;
            let full = later(env.now, full_duration(p.config));
            let shows = source_of_held(p.content) == Some(source@) || persists;
            &&& shows ==> {
                &&& s.presents(event, env.now)
                &&& s.progress == p.progress
                &&& s.pending == p.pending
                &&& s.track_cache == p.track_cache
                &&& s.last_track == p.last_track
                &&& s.current_source == p.current_source
            }
            &&& shows && !p.is_hidden() ==> (p.dismiss_at matches Some(d) ==> s.dismiss_at == Some(
                if d < full {
                    full
                } else {
                    d
                },
            ))
            &&& shows && p.is_hidden() ==> s.phase == Phase::Light(env.now) && s.dismiss_at == Some(full)
            &&& !shows ==> s == (Pill { pending: enqueued(p.pending, event), ..p })
        }),
{
    reveal(Pill::with_state);
    lemma_no_news(p, state, source@, batch);
    let event = MediaEvent::PlaybackStateChanged(state, source);
    let full = full_duration(p.config);
    if p.auto_hidden() {
        law_auto_hidden_pill_surfaces(p, event, full, env);
    } else if !p.is_hidden() {
        law_updated_event_is_presented(p, event, full, env);
        law_refresh_keeps_the_pill_up(p, event, full, env);
    } else {
        reveal(Pill::shown);
        law_show_puts_the_event_on_screen(p, event, false, full, env);
        law_shown_event_is_presented(p, event, false, full, env);
    }
}

// ---- events and batches ----

/// A track that names a state and a state event both record that state for
/// their source; a track without one and any other event record nothing.
pub proof fn law_events_record_the_state_they_carry(p: Pill, event: MediaEvent)
    ensures
        event matches MediaEvent::TrackChanged(t) ==> {
            &&& t.playback_state matches Some(state) ==> p.noted(event).source_state == remembered(
                p.source_state,
                t.source_app,
                state,
            )
            &&& t.playback_state is None ==> p.noted(event) == p
        },
        event matches MediaEvent::PlaybackStateChanged(state, source) ==> p.noted(event).source_state == remembered(
            p.source_state,
            source,
            state,
        ),
        event is ProgressChanged || event is SessionRejected || event is SourceGone ==> p.noted(event) == p,
        p.noted(event) == (Pill { source_state: p.noted(event).source_state, ..p }),
{
    reveal(Pill::noted);
    reveal(Pill::noting);
}

/// Each event gets its own reaction, and only where it is switched on: tracks
/// and states by their settings, reports and both of these only while
/// notifications are on. A source is retired or settled in any case. An event
/// that is switched off is still recorded, and nothing else.
pub proof fn law_events_get_their_reaction(p: Pill, event: MediaEvent, batch: Seq<MediaEvent>, env: Env)
    ensures
        ({
            let n = p.noted(event);
            let s = p.after_event(event, batch, env);
            &&& event matches MediaEvent::TrackChanged(t) ==> {
                &&& p.enabled && p.config.behavior.enable_track_change ==> s == n.with_track(t, env)
                &&& p.enabled && !p.config.behavior.enable_track_change ==> s == n
                &&& !p.enabled ==> s == (Pill { track_cache: cached(p.track_cache, t), ..n })
            }
            &&& event matches MediaEvent::PlaybackStateChanged(state, source) ==> {
                &&& p.enabled && p.config.behavior.enable_playback_state_change ==> s == n.with_state(
                    state,
                    source,
                    batch,
                    env,
                )
                &&& !p.enabled || !p.config.behavior.enable_playback_state_change ==> s == n
            }
            &&& event matches MediaEvent::ProgressChanged {
                source_app,
                position_us,
                duration_secs,
                playback_rate_milli,
            } ==> {
                &&& p.enabled ==> s == p.with_report(source_app@, position_us, duration_secs, playback_rate_milli, env)
                &&& !p.enabled ==> s == p
            }
            &&& event matches MediaEvent::SourceGone { source_app } ==> s == p.gone(source_app, env)
            &&& event matches MediaEvent::SessionRejected { source_app, title, artist, state, accepted } ==> s
                == p.retired(source_app, env)
            &&& event is WorkerFailed || event is ArtworkBudgetExceeded ==> s == p
        }),
{
    reveal(Pill::after_event);
    reveal(Pill::noted);
    reveal(Pill::noting);
}

/// A report of the source on screen moves the bar and asks for a frame where
/// the pill is visible; a report of any other source is ignored.
pub proof fn law_report_reaches_the_bar_of_its_source(
    p: Pill,
    source: Seq<char>,
    position_us: Option<i64>,
    duration_secs: Option<u64>,
    rate_milli: Option<i64>,
    env: Env,
)
    ensures
        ({
            let s = p.with_report(source, position_us, duration_secs, rate_milli, env);
            let own = source_of_held(p.content) == Some(source);
            &&& own ==> s.progress == p.progress.reported(position_us, duration_secs, rate_milli, env.now)
            &&& own && !p.is_hidden() ==> s.effects == p.effects.push(Effect::Render)
            &&& own && p.is_hidden() ==> s.effects == p.effects
            &&& !own ==> s == p
            &&& s == (Pill { progress: s.progress, effects: s.effects, ..p })
        }),
{
    reveal(Pill::with_report);
    reveal(Pill::rendered);
}

/// A batch is worked off in its order, each event from where the one before
/// left the pill. Where something waits afterwards the debounce starts anew,
/// and where nothing does it is left alone.
pub proof fn law_batch_is_worked_off_in_order(p: Pill, batch: Seq<MediaEvent>, n: nat, env: Env)
    requires
        n < batch.len(),
    ensures
        p.after_events(batch, 0, env) == p,
        p.after_events(batch, n + 1, env) == p.after_events(batch, n, env).after_event(batch[n as int], batch, env),
        ({
            let last = p.after_events(batch, batch.len(), env);
            let s = p.received(batch, env);
            &&& last.pending.len() == 0 ==> s == last
            &&& last.pending.len() > 0 ==> s == (Pill {
                effects: last.effects.push(Effect::StopDebounce).push(
                    Effect::StartDebounce(debounce_interval(last.config)),
                ),
                ..last
            })
        }),
{
    reveal(Pill::received);
    reveal_with_fuel(Pill::after_events, 2);
}

/// The end of the debounce shows the event that waited longest where no pill
/// is on screen.
pub proof fn law_flush_shows_what_waits(p: Pill, env: Env)
    requires
        p.enabled,
        p.is_hidden(),
        p.pending.len() > 0,
        p.pending[0] is TrackChanged || p.pending[0] is PlaybackStateChanged,
    ensures
        p.flushed(env).presents(p.pending[0], env.now),
        p.flushed(env).effects.len() > p.effects.len(),
        p.flushed(env).effects[p.effects.len() as int] == Effect::StopDebounce,
        p.flushed(env).effects.last() == Effect::Render,
        p.flushed(env).pending == p.pending.skip(1),
        !p.flushed(env).is_hidden(),
        p.flushed(env).dismiss_at == Some(later(env.now, full_duration(p.config))),
{
    reveal(Pill::flushed);
    law_next_event_is_shown_in_its_own_way(p.emit(Effect::StopDebounce), env);
}

/// The end of the debounce with nothing waiting stops the debounce and does
/// nothing else.
pub proof fn law_flush_of_nothing_only_stops_the_debounce(p: Pill, env: Env)
    requires
        p.pending.len() == 0,
    ensures
        p.flushed(env) == (Pill { effects: p.effects.push(Effect::StopDebounce), ..p }),
{
    reveal(Pill::flushed);
    reveal(Pill::next_shown);
}

// ---- notifications toggle and samples ----

/// Turning notifications on presents what it brings back with the full
/// entrance and for the full time. What was held is given up only where it is
/// what comes back.
pub proof fn law_toggle_on_presents_what_it_restores(p: Pill, env: Env)
    requires
        !p.enabled,
        p.held_content matches Some(e) ==> e is TrackChanged || e is PlaybackStateChanged,
    ensures
        ({
            let s = p.toggled(env);
            let pin = pinned(p.track_cache, p.source_state, optional_text(p.config.behavior.pinned_source));
            let next = successor(p.track_cache, p.source_state, Seq::empty());
            let back = if pin is Some {
                Some(MediaEvent::TrackChanged(pin->0))
            } else if next is Some {
                Some(MediaEvent::TrackChanged(next->0))
            } else if p.held_content is Some {
                p.held_content
            } else if p.last_track is Some {
                Some(MediaEvent::TrackChanged(p.last_track->0))
            } else {
                None
            };
            &&& s.enabled
            &&& s.pending == p.pending
            &&& s.last_track == p.last_track && s.current_source == p.current_source
            &&& s.track_cache == p.track_cache && s.source_state == p.source_state
            &&& back matches Some(event) ==> {
                &&& s.presents(event, env.now)
                &&& event matches MediaEvent::TrackChanged(t) ==> bar_follows(s.progress, t, env.now)
                &&& s.phase == Phase::Expanding(env.now)
                &&& s.dismiss_at == Some(later(env.now, full_duration(p.config)))
                &&& pin is Some || next is Some || p.held_content is None ==> s.held_content == p.held_content
                    || s.held_content == Some(event)
                &&& pin is None && next is None && p.held_content is Some ==> s.held_content is None || s.held_content
                    == Some(event)
                &&& p.config.overlay.layout != LayoutMode::PersistentCompact && pin is None && next is None
                    && p.held_content is Some ==> s.held_content is None
            }
            &&& back is None ==> s == (Pill { enabled: true, ..p })
        }),
{
    reveal(Pill::toggled);
    reveal(Pill::restored);
    reveal(Pill::shown);
    let on = Pill { enabled: true, ..p };
    let full = full_duration(p.config);
    let pin = pinned(p.track_cache, p.source_state, optional_text(p.config.behavior.pinned_source));
    let next = successor(p.track_cache, p.source_state, Seq::empty());
    if pin is Some {
        law_show_puts_the_event_on_screen(on, MediaEvent::TrackChanged(pin->0), true, full, env);
        law_shown_event_is_presented(on, MediaEvent::TrackChanged(pin->0), true, full, env);
    } else if next is Some {
        law_show_puts_the_event_on_screen(on, MediaEvent::TrackChanged(next->0), true, full, env);
        law_shown_event_is_presented(on, MediaEvent::TrackChanged(next->0), true, full, env);
    } else if p.held_content is Some {
        let q = Pill { held_content: None, ..on };
        law_show_puts_the_event_on_screen(q, p.held_content->0, true, full, env);
        law_shown_event_is_presented(q, p.held_content->0, true, full, env);
        law_shown_pill_is_laid_out_for_the_foreground(q, p.held_content->0, true, full, env);
    } else if p.last_track is Some {
        law_show_puts_the_event_on_screen(on, MediaEvent::TrackChanged(p.last_track->0), true, full, env);
        law_shown_event_is_presented(on, MediaEvent::TrackChanged(p.last_track->0), true, full, env);
    }
}

/// A sample shows its track like a fresh pill, whether or not notifications
/// are on, but publishes no source, moves no bar, and touches neither the
/// queue nor what is held or remembered.
pub proof fn law_sample_is_only_for_show(p: Pill, track: TrackInfo, env: Env)
    ensures
        ({
            let s = p.sampled_with(track, env);
            let event = MediaEvent::TrackChanged(track);
            &&& s.content == Some(event)
            &&& s.look.content_palette == track.palette
            &&& tells(s.look.text, track)
            &&& s.pill_name == Some(spoken_name(s.look.text->0))
            &&& starts_over(s.look.scroll.title, env.now) && starts_over(s.look.scroll.subtitle, env.now)
            &&& starts_over(s.look.scroll.meta, env.now) && starts_over(s.look.scroll.app, env.now)
            &&& s.look.fade is None
            &&& s.look.content_rev != p.look.content_rev
            &&& s.look.art == p.look.art && s.look.art_source == p.look.art_source
            &&& s.look.palette == p.look.palette
            &&& s.phase == Phase::Light(env.now)
            &&& s.dismiss_at == Some(later(env.now, full_duration(p.config)))
            &&& s.hover.expand is None && s.hover.dismiss_at is None && s.hover.leave_at is None
            &&& !s.hover.expanded_once && s.hover.cursor_over == p.hover.cursor_over
            &&& !s.rest.watchdog && s.rest.faded == p.rest.faded
            &&& s.rest.collapse_on_dismiss == p.rest.collapse_on_dismiss
            &&& s.place == p.relaid(env).place && s.fg == p.relaid(env).fg
            &&& s.now_showing == p.now_showing
            &&& s.progress == p.progress
            &&& s.pending == p.pending && s.enabled == p.enabled && s.config == p.config
            &&& s.held_content == p.held_content && s.last_track == p.last_track
            &&& s.current_source == p.current_source
            &&& s.track_cache == p.track_cache && s.source_state == p.source_state
            &&& s.frame == p.frame
            &&& s.timer.period == moving_period(p.display_period(env), p.config)
            &&& s.effects == p.effects + seq![Effect::StopIdleRelease] + p.announced(event, s.pill_name) + p.retimed(
                s.timer.period,
            ) + seq![Effect::ShowWindow, Effect::Render]
        }),
{
    reveal(Pill::sampled_with);
    reveal(Pill::with_text);
    reveal(Pill::rendered);
    lemma_relaid(p, env);
    reveal(Pill::relaid);
    let e = p.emit(Effect::StopIdleRelease).relaid(env);
    let t = Pill {
        content: Some(MediaEvent::TrackChanged(track)),
        look: Look { content_rev: bumped(e.look.content_rev), content_palette: track.palette, ..e.look },
        ..e
    }.with_text();
    let f = Pill {
        dismiss_at: Some(later(env.now, full_duration(t.config))),
        phase: Phase::Light(env.now),
        look: Look { scroll: lines_at_rest(env.now), fade: None, ..t.look },
        hover: Hover { dismiss_at: None, expand: None, expanded_once: false, leave_at: None, ..t.hover },
        rest: Rest { watchdog: false, ..t.rest },
        ..t
    };
    law_timer_keeps_the_displays_pace(f, env);
    let s = p.sampled_with(track, env);
    assert(s.effects =~= p.effects + seq![Effect::StopIdleRelease] + p.announced(
        MediaEvent::TrackChanged(track),
        s.pill_name,
    ) + p.retimed(s.timer.period) + seq![Effect::ShowWindow, Effect::Render]);
}

/// A long idle stretch gives the frame up and the buffers back, stops the
/// timer that asked for it, and changes nothing else.
pub proof fn law_idle_release_gives_up_the_frame(p: Pill)
    ensures
        !p.released().frame.has_frame,
        p.released() == (Pill {
            frame: Frame { has_frame: false, ..p.frame },
            effects: p.effects + seq![Effect::StopIdleRelease, Effect::ReleaseBuffers],
            ..p
        }),
{
    assert(p.released().effects =~= p.effects + seq![Effect::StopIdleRelease, Effect::ReleaseBuffers]);
}

// ---- hiding ----

/// A pill that goes off the screen stops its timer, hides its window and
/// starts the idle release. It gives up its content with everything that goes
/// with it, and keeps its hold, its fade and its place.
pub proof fn law_cleared_pill_gives_up_what_it_showed(p: Pill)
    ensures
        ({
            let s = p.cleared();
            &&& s.phase == Phase::Hidden
            &&& s.look.content_palette is None && s.look.art_source is None
            &&& s.look.content_rev != p.look.content_rev
            &&& s.look.scroll == p.look.scroll
            &&& !s.hover.expanded_once && s.hover.leave_at is None && s.hover.cursor_over == p.hover.cursor_over
            &&& !s.rest.collapse_on_dismiss && s.rest.faded == p.rest.faded
            &&& s.progress == p.progress && s.frame == p.frame && s.fg == p.fg
            &&& s.now_showing == p.now_showing
            &&& s.timer == (Timer { armed: false, ..p.timer })
            &&& s.effects == p.effects + (if p.timer.armed {
                seq![Effect::DropTimer]
            } else {
                Seq::empty()
            }) + seq![Effect::HideWindow, Effect::StartIdleRelease]
        }),
{
    reveal(Pill::cleared);
    reveal(Pill::without_timer);
    assert(p.cleared().effects =~= p.effects + (if p.timer.armed {
        seq![Effect::DropTimer]
    } else {
        Seq::empty()
    }) + seq![Effect::HideWindow, Effect::StartIdleRelease]);
}

/// A pill that hides with nothing waiting stays off the screen. Its timer
/// polls the foreground every second exactly where a hold is to be watched: a
/// persistent pill with auto-hide and held content, while notifications are
/// on. Otherwise no timer runs.
pub proof fn law_hidden_pill_is_watched_only_for_its_hold(p: Pill, env: Env)
    requires
        p.pending.len() == 0,
    ensures
        ({
            let s = p.hidden_away(env);
            let watched = p.enabled && p.config.overlay.layout == LayoutMode::PersistentCompact
                && p.config.behavior.hide_for_auto_compact_sources && p.held_content is Some;
            &&& s.is_hidden() && s.content is None && s.dismiss_at is None && s.pill_name is None
            &&& s.held_content == p.held_content && s.last_track == p.last_track
            &&& s.rest.watchdog == watched
            &&& s.timer.armed == watched
            &&& watched ==> s.timer.period == 1000
            &&& watched ==> s.effects.last() == Effect::ArmTimer(1000)
            &&& !watched ==> s.effects.last() == Effect::StartIdleRelease
        }),
{
    reveal(Pill::hidden_away);
    reveal(Pill::next_shown);
    reveal(Pill::with_timer);
    law_cleared_pill_keeps_nothing_on_screen(p);
    law_cleared_pill_gives_up_what_it_showed(p);
}

/// A pill that hides while something waits presents what waited longest, and
/// is not watched.
pub proof fn law_hiding_makes_room_for_what_waits(p: Pill, env: Env)
    requires
        p.enabled,
        p.pending.len() > 0,
        p.pending[0] is TrackChanged || p.pending[0] is PlaybackStateChanged,
    ensures
        p.hidden_away(env).presents(p.pending[0], env.now),
        p.hidden_away(env).pending == p.pending.skip(1),
        p.hidden_away(env).dismiss_at == Some(later(env.now, full_duration(p.config))),
        p.pending[0] is TrackChanged ==> p.hidden_away(env).phase == Phase::Expanding(env.now),
        p.pending[0] is PlaybackStateChanged ==> p.hidden_away(env).phase == Phase::Light(env.now),
        !p.hidden_away(env).rest.watchdog,
        !p.hidden_away(env).rest.faded,
{
    reveal(Pill::hidden_away);
    law_cleared_pill_keeps_nothing_on_screen(p);
    let c = p.cleared();
    law_next_event_is_shown_in_its_own_way(c, env);
    reveal(Pill::next_shown);
    reveal(Pill::shown);
    let q = Pill { pending: c.pending.skip(1), ..c };
    let event = p.pending[0];
    if let MediaEvent::TrackChanged(t) = event {
        lemma_adopted(q, t);
        law_show_puts_the_event_on_screen(q.adopted(t), event, true, full_duration(p.config), env);
    } else {
        law_show_puts_the_event_on_screen(q, event, false, full_duration(p.config), env);
    }
}

// ---- sources that go ----

proof fn lemma_hands_over(
    p: Pill,
    source: Seq<char>,
    content_goes: bool,
    held_goes: bool,
    last_goes: bool,
    env: Env,
)
    requires
        content_goes ==> !p.is_hidden(),
        last_goes <==> p.last_track is Some && p.last_track->0.source_app@ == source,
    ensures
        ({
            let s = p.handed_over(source, content_goes, held_goes, last_goes, env);
            let next = successor(p.track_cache, p.source_state, source);
            &&& !content_goes ==> {
                &&& s == (Pill {
                    held_content: s.held_content,
                    last_track: s.last_track,
                    rest: s.rest,
                    timer: s.timer,
                    effects: s.effects,
                    ..p
                })
                &&& held_goes && next is Some ==> s.held_content == Some(MediaEvent::TrackChanged(next->0))
                &&& held_goes && next is None ==> s.held_content is None
                &&& !held_goes ==> s.held_content == p.held_content
                &&& last_goes ==> s.last_track == next
                &&& !last_goes ==> s.last_track == p.last_track
                &&& held_goes && next is None && p.rest.watchdog ==> !s.rest.watchdog && !s.timer.armed
                &&& !(held_goes && next is None && p.rest.watchdog) ==> s.rest == p.rest && s.timer == p.timer
                    && s.effects == p.effects
            }
            &&& content_goes && next is Some ==> {
                &&& s.presents(MediaEvent::TrackChanged(next->0), env.now)
                &&& bar_follows(s.progress, next->0, env.now)
                &&& s.last_track == next
                &&& s.current_source == Some(next->0.source_app)
                &&& s.track_cache == cached(p.track_cache, next->0)
                &&& s.source_state == p.source_state
                &&& s.pending == p.pending
                &&& !s.is_hidden() && !s.is_collapsing()
                &&& held_goes ==> s.held_content == Some(MediaEvent::TrackChanged(next->0))
                &&& !held_goes && !p.rest.collapse_on_dismiss ==> s.held_content == p.held_content
                &&& !held_goes && p.rest.collapse_on_dismiss ==> s.held_content == Some(
                    MediaEvent::TrackChanged(next->0),
                )
                &&& p.dismiss_at matches Some(d) ==> s.dismiss_at == Some(
                    if d < later(env.now, full_duration(p.config)) {
                        later(env.now, full_duration(p.config))
                    } else {
                        d
                    },
                )
            }
            &&& content_goes && next is None ==> s == (Pill { held_content: None, last_track: None, ..p }).hidden_away(
                env,
            )
        }),
{
    reveal(Pill::handed_over);
    reveal(Pill::stood_down);
    reveal(Pill::without_timer);
    reveal(Pill::with_last_track_from);
    let next = successor(p.track_cache, p.source_state, source);
    law_successor_is_playing(p.track_cache, p.source_state, source);
    if content_goes && next is Some {
        lemma_swapped(p, next->0, env);
    }
}

/// A retired source gives up the pill, the hold and the last track to the most
/// recent remembered source that still plays, which is presented like a track
/// of its own. Where there is none the pill hides with nothing held, and what
/// of other sources waits comes on. What the source does not own is left
/// alone.
pub proof fn law_retired_source_hands_over(p: Pill, source: String, env: Env)
    requires
        p.is_hidden() <==> p.content is None,
    ensures
        ({
            let s = p.retired(source, env);
            let cache = other_sources(p.track_cache, source@);
            let ledger = remembered(p.source_state, source, PlaybackState::Stopped);
            let waiting = others_waiting(p.pending, source@);
            let next = successor(cache, ledger, source@);
            let owns_pill = source_of_held(p.content) == Some(source@);
            let owns_hold = source_of_held(p.held_content) == Some(source@);
            let owns_last = p.last_track is Some && p.last_track->0.source_app@ == source@;
            &&& !owns_pill ==> {
                &&& s.content == p.content && s.phase == p.phase && s.dismiss_at == p.dismiss_at
                &&& s.progress == p.progress && s.look == p.look && s.hover == p.hover
                &&& s.current_source == p.current_source && s.now_showing == p.now_showing
                &&& s.track_cache == cache && s.source_state == ledger && s.pending == waiting
                &&& owns_hold && next is Some ==> s.held_content == Some(MediaEvent::TrackChanged(next->0))
                &&& owns_hold && next is None ==> s.held_content is None && (p.rest.watchdog ==> !s.rest.watchdog
                    && !s.timer.armed)
                &&& !owns_hold ==> s.held_content == p.held_content && s.rest == p.rest && s.timer == p.timer
                &&& owns_last ==> s.last_track == next
                &&& !owns_last ==> s.last_track == p.last_track
            }
            &&& owns_pill && next is Some ==> {
                &&& s.presents(MediaEvent::TrackChanged(next->0), env.now)
                &&& bar_follows(s.progress, next->0, env.now)
                &&& s.last_track == next && s.current_source == Some(next->0.source_app)
                &&& s.track_cache == cached(cache, next->0) && s.source_state == ledger && s.pending == waiting
                &&& !s.is_hidden() && !s.is_collapsing()
                &&& owns_hold || p.rest.collapse_on_dismiss ==> s.held_content == Some(
                    MediaEvent::TrackChanged(next->0),
                )
                &&& !owns_hold && !p.rest.collapse_on_dismiss ==> s.held_content == p.held_content
                &&& p.dismiss_at is Some ==> s.dismiss_at is Some && s.dismiss_at->0 >= later(
                    env.now,
                    full_duration(p.config),
                )
            }
            &&& owns_pill && next is None && waiting.len() == 0 ==> {
                &&& s.is_hidden() && s.content is None && s.held_content is None && s.last_track is None
                &&& s.track_cache == cache && s.source_state == ledger
                &&& !s.rest.watchdog && !s.timer.armed
            }
            &&& owns_pill && next is None && waiting.len() > 0 && p.enabled && (waiting[0] is TrackChanged
                || waiting[0] is PlaybackStateChanged) ==> {
                &&& s.presents(waiting[0], env.now)
                &&& s.pending == waiting.skip(1)
                &&& s.source_state == ledger
            }
        }),
{
    reveal(Pill::retired);
    lemma_noting(p, source, PlaybackState::Stopped);
    let t = Pill {
        source_state: remembered(p.source_state, source, PlaybackState::Stopped),
        track_cache: other_sources(p.track_cache, source@),
        pending: others_waiting(p.pending, source@),
        ..p
    };
    lemma_hands_over(
        t,
        source@,
        source_of_held(t.content) == Some(source@),
        source_of_held(t.held_content) == Some(source@),
        t.last_track is Some && t.last_track->0.source_app@ == source@,
        env,
    );
    let h = Pill { held_content: None, last_track: None, ..t };
    lemma_hiding_keeps_the_ledger(h, env);
    if t.pending.len() == 0 {
        law_hidden_pill_is_watched_only_for_its_hold(h, env);
    } else if t.enabled && (t.pending[0] is TrackChanged || t.pending[0] is PlaybackStateChanged) {
        law_hiding_makes_room_for_what_waits(h, env);
    }
}

proof fn lemma_hiding_keeps_the_ledger(p: Pill, env: Env)
    ensures
        p.hidden_away(env).source_state == p.source_state,
        p.pending.len() == 0 ==> p.hidden_away(env).track_cache == p.track_cache,
{
    reveal(Pill::hidden_away);
    reveal(Pill::next_shown);
    reveal(Pill::shown);
    reveal(Pill::with_timer);
    law_cleared_pill_keeps_nothing_on_screen(p);
    let c = p.cleared();
    if c.pending.len() > 0 {
        let event = c.pending[0];
        let q = Pill { pending: c.pending.skip(1), ..c };
        let full = full_duration(p.config);
        law_show_puts_the_event_on_screen(q, event, false, full, env);
        if let MediaEvent::TrackChanged(t) = event {
            lemma_adopted(q, t);
            law_show_puts_the_event_on_screen(q.adopted(t), event, true, full, env);
        }
    }
}

/// A settled source gives up its shown track, its held track and the last
/// track to the most recent remembered source that still plays. It keeps its
/// own remembered track, and a state pill or a held state of it stays.
pub proof fn law_settled_source_hands_over(p: Pill, source: String, env: Env)
    requires
        p.is_hidden() <==> p.content is None,
    ensures
        ({
            let s = p.gone(source, env);
            let ledger = remembered(p.source_state, source, PlaybackState::Stopped);
            let waiting = others_waiting(p.pending, source@);
            let next = successor(p.track_cache, ledger, source@);
            let owns_pill = p.content matches Some(MediaEvent::TrackChanged(t)) && t.source_app@ == source@;
            let owns_hold = p.held_content matches Some(MediaEvent::TrackChanged(t)) && t.source_app@ == source@;
            let owns_last = p.last_track is Some && p.last_track->0.source_app@ == source@;
            &&& !owns_pill ==> {
                &&& s.content == p.content && s.phase == p.phase && s.dismiss_at == p.dismiss_at
                &&& s.progress == p.progress && s.look == p.look && s.hover == p.hover
                &&& s.current_source == p.current_source && s.now_showing == p.now_showing
                &&& s.track_cache == p.track_cache && s.source_state == ledger && s.pending == waiting
                &&& owns_hold && next is Some ==> s.held_content == Some(MediaEvent::TrackChanged(next->0))
                &&& owns_hold && next is None ==> s.held_content is None && (p.rest.watchdog ==> !s.rest.watchdog
                    && !s.timer.armed)
                &&& !owns_hold ==> s.held_content == p.held_content && s.rest == p.rest && s.timer == p.timer
                &&& owns_last ==> s.last_track == next
                &&& !owns_last ==> s.last_track == p.last_track
            }
            &&& owns_pill && next is Some ==> {
                &&& s.presents(MediaEvent::TrackChanged(next->0), env.now)
                &&& bar_follows(s.progress, next->0, env.now)
                &&& s.last_track == next && s.current_source == Some(next->0.source_app)
                &&& s.track_cache == cached(p.track_cache, next->0) && s.source_state == ledger
                &&& s.pending == waiting
                &&& !s.is_hidden() && !s.is_collapsing()
                &&& owns_hold || p.rest.collapse_on_dismiss ==> s.held_content == Some(
                    MediaEvent::TrackChanged(next->0),
                )
                &&& !owns_hold && !p.rest.collapse_on_dismiss ==> s.held_content == p.held_content
            }
            &&& owns_pill && next is None && waiting.len() == 0 ==> {
                &&& s.is_hidden() && s.content is None && s.held_content is None && s.last_track is None
                &&& s.track_cache == p.track_cache && s.source_state == ledger
                &&& !s.rest.watchdog && !s.timer.armed
            }
            &&& owns_pill && next is None && waiting.len() > 0 && p.enabled && (waiting[0] is TrackChanged
                || waiting[0] is PlaybackStateChanged) ==> {
                &&& s.presents(waiting[0], env.now)
                &&& s.pending == waiting.skip(1)
            }
        }),
{
    reveal(Pill::gone);
    lemma_noting(p, source, PlaybackState::Stopped);
    let t = Pill {
        source_state: remembered(p.source_state, source, PlaybackState::Stopped),
        pending: others_waiting(p.pending, source@),
        ..p
    };
    lemma_hands_over(
        t,
        source@,
        is_track_of(t.content, source@),
        is_track_of(t.held_content, source@),
        t.last_track is Some && t.last_track->0.source_app@ == source@,
        env,
    );
    let h = Pill { held_content: None, last_track: None, ..t };
    lemma_hiding_keeps_the_ledger(h, env);
    if t.pending.len() == 0 {
        law_hidden_pill_is_watched_only_for_its_hold(h, env);
    } else if t.enabled && (t.pending[0] is TrackChanged || t.pending[0] is PlaybackStateChanged) {
        law_hiding_makes_room_for_what_waits(h, env);
    }
}

// ---- place and foreground ----

/// A visible pill on a display whose DPI its fonts were built for is moved;
/// on another DPI it is drawn anew. A hidden pill, one without content and one
/// without a display are left alone.
pub proof fn law_reposition_moves_or_redraws(p: Pill, env: Env)
    ensures
        ({
            let s = p.repositioned(env);
            let visible = !p.is_hidden() && p.content is Some && env.target is Some;
            &&& visible && p.frame.fonts_dpi == env.target_dpi ==> s.effects == p.effects.push(Effect::Reposition)
            &&& visible && p.frame.fonts_dpi != env.target_dpi ==> s.effects == p.effects.push(Effect::Render)
            &&& !visible ==> s == p
            &&& s == (Pill { effects: s.effects, ..p })
        }),
{
    reveal(Pill::repositioned);
    reveal(Pill::rendered);
}

/// After a foreground change the pill is laid out for the new foreground and
/// anchored against the whole monitor where a fullscreen window covers its
/// display, against the work area otherwise. A visible one is drawn anew where
/// its layout flipped, moved where only its anchor changed, and left alone
/// where neither did; one without content is left alone.
pub proof fn law_pill_is_anchored_anew(p: Pill, env: Env)
    requires
        p.is_hidden() <==> p.content is None,
    ensures
        ({
            let s = p.reanchored(env);
            let r = p.relaid(env);
            &&& s.place.layout == r.place.layout && s.fg == r.fg
            &&& s.place.expanded == p.place.expanded && s.place.compact == p.place.compact
            &&& s == (Pill { place: s.place, fg: s.fg, effects: s.effects, ..p })
            &&& p.is_hidden() ==> s.effects == p.effects
            &&& env.target is None ==> s.place.anchor_edge == p.place.anchor_edge && s.effects == p.effects
            &&& env.target matches Some(t) ==> {
                let edge = if env.target_covered {
                    t.monitor
                } else {
                    t.work
                };
                let flipped = r.place.layout != p.place.layout;
                &&& s.place.anchor_edge == Some(edge)
                &&& !p.is_hidden() && flipped ==> s.effects == p.effects.push(Effect::Render)
                &&& !flipped && p.place.anchor_edge == Some(edge) ==> s.effects == p.effects
                &&& !p.is_hidden() && !flipped && p.place.anchor_edge != Some(edge) && p.frame.fonts_dpi
                    == env.target_dpi ==> s.effects == p.effects.push(Effect::Reposition)
                &&& !p.is_hidden() && !flipped && p.place.anchor_edge != Some(edge) && p.frame.fonts_dpi
                    != env.target_dpi ==> s.effects == p.effects.push(Effect::Render)
            }
        }),
{
    reveal(Pill::reanchored);
    reveal(Pill::repositioned);
    reveal(Pill::rendered);
    lemma_relaid(p, env);
    reveal(Pill::relaid);
}

/// A foreground change concerns a pill on screen and a persistent one. A
/// notification is anchored anew, as is a persistent pill without auto-hide;
/// a hidden notification is left alone.
pub proof fn law_foreground_change_moves_an_ordinary_pill(p: Pill, env: Env)
    requires
        !(p.config.overlay.layout == LayoutMode::PersistentCompact
            && p.config.behavior.hide_for_auto_compact_sources),
    ensures
        p.is_hidden() && p.config.overlay.layout != LayoutMode::PersistentCompact ==> p.foreground_changed(env) == p,
        !p.is_hidden() || p.config.overlay.layout == LayoutMode::PersistentCompact ==> p.foreground_changed(env)
            == p.reanchored(env),
{
    reveal(Pill::foreground_changed);
}

/// With auto-hide, a persistent pill on screen hides for a fullscreen or
/// listed foreground and holds its content. Off the screen it presents its
/// hold once the foreground is ordinary again, a track with the full entrance
/// and a state with the light reveal, and gives the hold up. It is otherwise
/// anchored anew, and remembers whether it will collapse.
pub proof fn law_auto_hide_follows_the_foreground(p: Pill, env: Env)
    requires
        p.enabled,
        p.config.overlay.layout == LayoutMode::PersistentCompact,
        p.config.behavior.hide_for_auto_compact_sources,
        p.is_hidden() <==> p.content is None,
        p.held_content matches Some(e) ==> e is TrackChanged || e is PlaybackStateChanged,
    ensures
        ({
            let s = p.foreground_changed(env);
            let hides = p.hides_for(env);
            &&& hides && !p.is_hidden() && p.pending.len() == 0 ==> {
                &&& s.is_hidden() && s.content is None
                &&& s.held_content == p.content
                &&& s.rest.watchdog && s.timer.armed && s.timer.period == 1000
            }
            &&& !hides && p.is_hidden() && p.held_content is Some ==> {
                &&& s.presents(p.held_content->0, env.now)
                &&& p.held_content->0 matches MediaEvent::TrackChanged(t) ==> bar_follows(s.progress, t, env.now)
                &&& p.held_content->0 is TrackChanged ==> s.phase == Phase::Expanding(env.now)
                &&& p.held_content->0 is PlaybackStateChanged ==> s.phase == Phase::Light(env.now)
                &&& s.dismiss_at == Some(later(env.now, full_duration(p.config)))
                &&& s.held_content is None
                &&& !s.rest.collapse_on_dismiss && !s.rest.watchdog
            }
            &&& !hides && p.is_hidden() && p.held_content is None ==> s.is_hidden() && s.content is None
                && s.effects == p.effects
            &&& !hides && !p.is_hidden() ==> {
                &&& s.content == p.content && s.phase == p.phase && s.dismiss_at == p.dismiss_at
                &&& !s.rest.collapse_on_dismiss
                &&& s.held_content == p.held_content
            }
            &&& hides && p.is_hidden() ==> {
                &&& s.is_hidden() && s.content is None && s.held_content == p.held_content
                &&& s.rest.collapse_on_dismiss
            }
            &&& s.fg.window == Some(env.foreground) && s.fg.fullscreen == Some(env.fullscreen)
                || p.pending.len() > 0
        }),
{
    reveal(Pill::foreground_changed);
    reveal(Pill::shown);
    let hide = p.hides_for(env);
    let f = p.sampled(env);
    let s = Pill { rest: Rest { collapse_on_dismiss: hide, ..f.rest }, ..f };
    lemma_reanchored(s, env);
    lemma_relaid(s, env);
    reveal(Pill::reanchored);
    reveal(Pill::repositioned);
    reveal(Pill::rendered);
    let h = Pill { held_content: s.content, ..s };
    if hide && !p.is_hidden() && p.pending.len() == 0 {
        law_hidden_pill_is_watched_only_for_its_hold(h, env);
        reveal(Pill::hidden_away);
        reveal(Pill::next_shown);
        reveal(Pill::with_timer);
        law_cleared_pill_keeps_nothing_on_screen(h);
        law_cleared_pill_gives_up_what_it_showed(h);
    }
    if !hide && p.is_hidden() && p.held_content is Some {
        let event = p.held_content->0;
        let r = Pill { held_content: None, ..s };
        let full = full_duration(p.config);
        law_show_puts_the_event_on_screen(r, event, event is TrackChanged, full, env);
        law_shown_event_is_presented(r, event, event is TrackChanged, full, env);
        law_shown_pill_is_laid_out_for_the_foreground(r, event, event is TrackChanged, full, env);
    }
}

/// The auto-hide watchdog looks at the foreground once a second. It stands
/// down where notifications are off or the auto-hide no longer applies, and
/// reacts only where the fullscreen state changed since the last look.
pub proof fn law_watchdog_looks_once_a_second(p: Pill, over: bool, reversal: Reversal, env: Env)
    requires
        p.is_hidden(),
        p.rest.watchdog,
    ensures
        ({
            let s = p.ticked(over, reversal, env);
            let watches = p.enabled && p.config.overlay.layout == LayoutMode::PersistentCompact
                && p.config.behavior.hide_for_auto_compact_sources;
            let looks = p.fg.geometry_check is None || since(p.fg.geometry_check->0, env.now) >= 1000;
            let t = Pill { timer: Timer { last_tick: env.now, ..p.timer }, ..p };
            &&& !watches ==> !s.rest.watchdog && !s.timer.armed && s.is_hidden() && s.held_content == p.held_content
            &&& watches && !looks ==> s == t
            &&& watches && looks && p.fg.fullscreen == Some(env.fullscreen) ==> {
                &&& s.is_hidden() && s.rest == p.rest && s.held_content == p.held_content && s.effects == p.effects
                &&& s.fg.geometry_check == Some(env.now)
                &&& s.fg.window == Some(env.foreground)
            }
            &&& watches && looks && p.fg.fullscreen != Some(env.fullscreen) && !p.hides_for(env) && p.held_content
                is Some && (p.held_content->0 is TrackChanged || p.held_content->0 is PlaybackStateChanged)
                && p.content is None ==> {
                &&& s.presents(p.held_content->0, env.now)
                &&& s.held_content is None
                &&& s.fg.geometry_check == Some(env.now)
            }
        }),
{
    reveal(Pill::ticked);
    reveal(Pill::hidden_ticked);
    reveal(Pill::watchdog_ticked);
    reveal(Pill::without_timer);
    let t = Pill { timer: Timer { last_tick: env.now, ..p.timer }, ..p };
    let g = Pill { fg: Foreground { geometry_check: Some(env.now), ..t.fg }, ..t }.sampled(env);
    if p.enabled && p.persistent() && p.config.behavior.hide_for_auto_compact_sources && p.content is None
        && p.held_content is Some && (p.held_content->0 is TrackChanged || p.held_content->0 is PlaybackStateChanged) {
        law_auto_hide_follows_the_foreground(g, env);
        if !p.hides_for(env) && p.fg.fullscreen != Some(env.fullscreen) {
            reveal(Pill::foreground_changed);
            reveal(Pill::shown);
            let f = g.sampled(env);
            let r = Pill { held_content: None, rest: Rest { collapse_on_dismiss: false, ..f.rest }, ..f };
            let event = p.held_content->0;
            law_shown_pill_is_laid_out_for_the_foreground(
                r,
                event,
                event is TrackChanged,
                full_duration(p.config),
                env,
            );
        }
    }
}

/// A hidden pill that nothing watches notes the time of its tick and does
/// nothing else.
pub proof fn law_hidden_pill_ticks_idly(p: Pill, over: bool, reversal: Reversal, env: Env)
    requires
        p.is_hidden(),
        !p.rest.watchdog,
    ensures
        p.ticked(over, reversal, env) == (Pill { timer: Timer { last_tick: env.now, ..p.timer }, ..p }),
{
    reveal(Pill::ticked);
    reveal(Pill::hidden_ticked);
}

// ---- names ----

/// A pill's spoken name tells what it shows: title and artist with a dash
/// between them, or the one that is there, and then the source in
/// parentheses. Outer white space is not spoken, and where nothing is shown
/// the source alone is.
pub proof fn law_spoken_name_tells_what_is_shown(text: PillText)
    ensures
        ({
            let title = trimmed(text.title@);
            let artist = trimmed(text.artist@);
            let source = trimmed(text.source_app@);
            let dash = seq![' ', '\u{2014}', ' '];
            let open = seq![' ', '('];
            let close = seq![')'];
            &&& title.len() > 0 && artist.len() > 0 && source.len() > 0 ==> spoken_name(text) == title + dash + artist
                + open + source + close
            &&& title.len() > 0 && artist.len() > 0 && source.len() == 0 ==> spoken_name(text) == title + dash + artist
            &&& title.len() > 0 && artist.len() == 0 && source.len() > 0 ==> spoken_name(text) == title + open + source
                + close
            &&& title.len() > 0 && artist.len() == 0 && source.len() == 0 ==> spoken_name(text) == title
            &&& title.len() == 0 && artist.len() > 0 && source.len() > 0 ==> spoken_name(text) == artist + open + source
                + close
            &&& title.len() == 0 && artist.len() > 0 && source.len() == 0 ==> spoken_name(text) == artist
            &&& title.len() == 0 && artist.len() == 0 ==> spoken_name(text) == text.source_app@
        }),
{
    reveal_strlit(" \u{2014} ");
    reveal_strlit(" (");
    reveal_strlit(")");
    assert(" \u{2014} "@ =~= seq![' ', '\u{2014}', ' ']);
    assert(" ("@ =~= seq![' ', '(']);
    assert(")"@ =~= seq![')']);
}

/// The overlay starts hidden, with nothing shown, held, waiting or remembered
/// and no timer running, switched on as configured and with both placements
/// as given.
pub proof fn law_overlay_starts_empty(config: Config, expanded: OverlayPos, compact: OverlayPos, now: u64)
    ensures
        ({
            let s = Pill::initial(config, expanded, compact, now);
            &&& s.phase == Phase::Hidden && s.content is None && s.held_content is None && s.dismiss_at is None
            &&& s.pending.len() == 0 && s.track_cache.len() == 0 && s.source_state.len() == 0 && s.effects.len() == 0
            &&& s.last_track is None && s.current_source is None && s.now_showing is None && s.pill_name is None
            &&& s.enabled == config.behavior.notifications_enabled
            &&& s.config == config
            &&& s.place.expanded == expanded && s.place.compact == compact && s.place.anchor_edge is None
            &&& s.hover.expand is None && s.hover.dismiss_at is None && s.hover.leave_at is None
            &&& !s.hover.expanded_once && !s.hover.cursor_over
            &&& !s.rest.faded && !s.rest.collapse_on_dismiss && !s.rest.watchdog
            &&& s.place.layout == LayoutMode::Expanded
            &&& !s.timer.armed && s.timer.last_tick == now && s.timer.period_cache is None && s.timer.last_reassert
                is None && s.timer.period == 16
            &&& !s.frame.has_frame && s.frame.fonts_dpi == 0 && s.frame.w == 0 && s.frame.h == 0
            &&& s.frame.aura_inset == 0 && s.look.content_rev == 0
            &&& s.look.scroll.title.offset == 0 && s.look.scroll.subtitle.offset == 0
            &&& s.look.scroll.meta.offset == 0 && s.look.scroll.app.offset == 0
            &&& s.look.scroll.title.started_at is None && s.look.scroll.subtitle.started_at is None
            &&& s.look.scroll.meta.started_at is None && s.look.scroll.app.started_at is None
            &&& s.fg.window is None && s.fg.exe is None && s.fg.geometry_check is None && s.fg.fullscreen is None
            &&& s.progress.estimated_us is None && s.progress.anchor is None && !s.progress.playing
            &&& s.progress.duration_secs is None && s.progress.rate_milli is None && s.progress.last_bar is None
            &&& s.look.text is None && s.look.fade is None && s.look.art is None && s.look.palette is None
            &&& s.look.content_palette is None && s.look.art_source is None
        }),
{
}

/// Turning notifications off drops what waits, hides the pill and stops every
/// timer, but keeps what is held and remembered.
pub proof fn law_toggle_off_stops_everything(p: Pill, env: Env)
    requires
        p.enabled,
    ensures
        ({
            let s = p.toggled(env);
            &&& s.is_hidden() && s.content is None && s.dismiss_at is None && s.pill_name is None
            &&& s.pending.len() == 0 && !s.enabled
            &&& !s.rest.watchdog && !s.timer.armed
            &&& s.held_content == p.held_content && s.last_track == p.last_track
            &&& s.effects.last() == Effect::StartIdleRelease
        }),
{
    reveal(Pill::toggled);
    let off = Pill { enabled: false, pending: Seq::empty(), ..p };
    law_hidden_pill_is_watched_only_for_its_hold(off, env);
    law_toggle_off_hides(p, env);
}

/// A persistent pill is on screen, auto-hidden with content held, or waiting
/// for its first show, and in exactly one of these; it is active in the first
/// two. Any other pill is in none of them.
pub proof fn law_persistent_pill_is_shown_held_or_new(p: Pill)
    ensures
        p.config.overlay.layout != LayoutMode::PersistentCompact ==> !p.auto_hidden() && !p.before_first_show()
            && !p.active(),
        p.config.overlay.layout == LayoutMode::PersistentCompact ==> {
            &&& p.phase != Phase::Hidden ==> p.active() && !p.auto_hidden() && !p.before_first_show()
            &&& p.phase == Phase::Hidden && p.held_content is Some ==> p.active() && p.auto_hidden()
                && !p.before_first_show()
            &&& p.phase == Phase::Hidden && p.held_content is None ==> !p.active() && !p.auto_hidden()
                && p.before_first_show()
        },
{
}

/// The cursor holds a pill exactly while it is expanded under it, and for
/// 60 ms after the cursor left.
pub proof fn law_cursor_holds_only_an_expanded_pill(p: Pill, now: u64)
    ensures
        p.hover.expand is None ==> !p.is_held(now),
        p.hover.expand is Some && p.hover.cursor_over ==> p.is_held(now),
        p.hover.expand is Some && !p.hover.cursor_over && p.hover.leave_at is None ==> !p.is_held(now),
        p.hover.expand is Some && !p.hover.cursor_over ==> (p.hover.leave_at matches Some(t) ==> (p.is_held(now)
            <==> since(t, now) < 60)),
{
}

/// The idle fade of a persistent pill runs for 300 ms from its deadline, where
/// it is enabled, has begun and the pill is not to hide instead.
pub proof fn law_idle_fade_runs_from_the_deadline(p: Pill, now: u64)
    ensures
        p.config.overlay.layout != LayoutMode::PersistentCompact ==> !p.fade_running(now),
        !p.config.overlay.fade_persistent_pill || !p.rest.faded || p.rest.collapse_on_dismiss || p.dismiss_at is None
            ==> !p.fade_running(now),
        p.config.overlay.layout == LayoutMode::PersistentCompact && p.config.overlay.fade_persistent_pill
            && p.rest.faded && !p.rest.collapse_on_dismiss ==> (p.dismiss_at matches Some(d) ==> (p.fade_running(now)
            <==> since(d, now) < 300)),
{
}

} // verus!
