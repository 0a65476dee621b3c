//! Showing, refreshing and hiding the pill, and letting go of its sources.
use crate::config::{after, sample_duration};
use crate::events::{held_belongs_to, track_of, MediaEvent, PlaybackState, TrackInfo};
use crate::fullscreen::exe_listed;
use crate::ledger::best_successor;
use crate::overlay::{bump, OverlayState};
use crate::pill::{ContentFade, Effect, Env, Hover, Look, Phase, Pill, Rest, WATCHDOG_TICK_MS};
use crate::queue::drop_source;
use vstd::prelude::*;
use vstd::string::*;

verus! {

impl OverlayState {
    pub(crate) fn apply_progress_of(&mut self, event: &MediaEvent, now: u64)
        ensures
            final(self)@ == old(self)@.with_progress_of(*event, now),
    {
        proof {
            reveal(Pill::with_progress_of);
        }
        if let MediaEvent::TrackChanged(track) = event {
            self.apply_track_progress(track, now);
        }
    }

    pub(crate) fn flag_collapse(&mut self, event: &MediaEvent, env: &Env)
        ensures
            final(self)@ == old(self)@.with_collapse_flag(*event, *env),
    {
        proof {
            reveal(Pill::with_collapse_flag);
        }
        if self.persistent() && self.config.behavior.hide_for_auto_compact_sources {
            let verdict = self.sample_foreground(env);
            let flag = verdict.fullscreen || exe_listed(&self.config, &verdict.exe);
            self.rest.collapse_on_dismiss = flag;
            if flag {
                self.held_content = Some(event.clone());
            }
        }
    }

    pub(crate) fn start_showing(&mut self, full_animation: bool, duration_ms: u64, now: u64)
        ensures
            final(self)@ == (Pill {
                dismiss_at: Some(crate::config::later(now, duration_ms)),
                phase: if full_animation {
                    Phase::Expanding(now)
                } else {
                    Phase::Light(now)
                },
                hover: Hover {
                    dismiss_at: None,
                    expand: None,
                    expanded_once: false,
                    leave_at: None,
                    ..old(self)@.hover
                },
                rest: Rest { faded: false, ..old(self)@.rest },
                look: Look { fade: None, ..old(self)@.look },
                ..old(self)@
            }),
    {
        self.dismiss_at = Some(after(now, duration_ms));
        self.hover.dismiss_at = None;
        self.hover.expand = None;
        self.hover.expanded_once = false;
        self.hover.leave_at = None;
        self.rest.faded = false;
        self.look.fade = None;
        self.phase = if full_animation {
            Phase::Expanding(now)
        } else {
            Phase::Light(now)
        };
    }

    /// Shows a fresh pill for `duration_ms`. Nothing is shown while
    /// notifications are off.
    pub fn show_with_duration(&mut self, event: MediaEvent, full_animation: bool, duration_ms: u64, env: &Env)
        ensures
            final(self)@ == old(self)@.shown_for(event, full_animation, duration_ms, *env),
    {
        proof {
            reveal(Pill::shown_for);
        }
        if !self.enabled {
            return;
        }
        self.rest.watchdog = false;
        self.refresh_layout(env);
        self.flag_collapse(&event, env);
        self.emit(Effect::StopIdleRelease);
        self.apply_progress_of(&event, env.now);
        self.set_content(event, env.now);
        self.start_showing(full_animation, duration_ms, env.now);
        self.sync_anim_timer(env);
        self.emit(Effect::ShowWindow);
        self.render();
    }

    /// Shows a fresh pill for the full duration.
    pub fn show(&mut self, event: MediaEvent, full_animation: bool, env: &Env)
        ensures
            final(self)@ == old(self)@.shown(event, full_animation, *env),
    {
        proof {
            reveal(Pill::shown);
        }
        let full: u64 = sample_duration(&self.config);
        self.show_with_duration(event, full_animation, full, env);
    }

    pub(crate) fn start_dissolve(&mut self, env: &Env)
        ensures
            final(self)@ == old(self)@.with_dissolve(*env),
    {
        proof {
            reveal(Pill::with_dissolve);
        }
        if self.phase == Phase::Shown && self.hover.expand.is_none() && self.frame.has_frame && env.animations {
            self.frame.has_frame = false;
            self.look.fade = Some(
                ContentFade { start: env.now, from_w: self.frame.w, from_h: self.frame.h },
            );
            self.sync_anim_timer(env);
        } else {
            self.look.fade = None;
        }
    }

    pub(crate) fn extend_and_revive(&mut self, min_visible: u64, now: u64)
        ensures
            final(self)@ == (Pill {
                dismiss_at: match old(self)@.dismiss_at {
                    Some(d) => Some(
                        if d < crate::config::later(now, min_visible) {
                            crate::config::later(now, min_visible)
                        } else {
                            d
                        },
                    ),
                    None => None,
                },
                phase: if old(self)@.is_collapsing() {
                    Phase::Expanding(now)
                } else {
                    old(self)@.phase
                },
                rest: Rest {
                    faded: if old(self)@.persistent() {
                        false
                    } else {
                        old(self)@.rest.faded
                    },
                    ..old(self)@.rest
                },
                ..old(self)@
            }),
    {
        if self.persistent() {
            self.rest.faded = false;
        }
        if let Some(d) = self.dismiss_at {
            let at_least: u64 = after(now, min_visible);
            if d < at_least {
                self.dismiss_at = Some(at_least);
            }
        }
        if self.is_collapsing() {
            self.phase = Phase::Expanding(now);
        }
    }

    /// Refreshes the content in place, to stay for at least `min_visible` ms.
    /// A collapsing pill is revived, an auto-hidden one surfaces.
    pub fn update_content(&mut self, event: MediaEvent, min_visible: u64, env: &Env)
        ensures
            final(self)@ == old(self)@.updated(event, min_visible, *env),
    {
        proof {
            reveal(Pill::updated);
        }
        if self.persistent_auto_hidden() {
            let full = match &event {
                MediaEvent::TrackChanged(_) => true,
                _ => false,
            };
            self.show(event, full, env);
            return;
        }
        self.refresh_layout(env);
        self.start_dissolve(env);
        self.apply_progress_of(&event, env.now);
        if self.rest.collapse_on_dismiss {
            self.held_content = Some(event.clone());
        }
        self.set_content(event, env.now);
        self.extend_and_revive(min_visible, env.now);
        self.render();
    }

    /// Swaps the pill to a track for its full duration.
    pub(crate) fn swap_to(&mut self, track: TrackInfo, env: &Env)
        ensures
            final(self)@ == old(self)@.swapped_to(track, *env),
    {
        proof {
            reveal(Pill::swapped_to);
        }
        let full: u64 = sample_duration(&self.config);
        self.adopt(&track);
        self.update_content(MediaEvent::TrackChanged(track), full, env);
    }

    /// Shows the front of the queue as a fresh pill.
    pub fn show_next(&mut self, env: &Env)
        ensures
            final(self)@ == old(self)@.next_shown(*env),
    {
        proof {
            reveal(Pill::next_shown);
        }
        if self.pending.len() == 0 {
            return;
        }
        let event = self.pending.remove(0);
        assert(self.pending@ =~= old(self)@.pending.skip(1));
        match event {
            MediaEvent::TrackChanged(track) => {
                self.adopt(&track);
                self.show(MediaEvent::TrackChanged(track), true, env);
            },
            MediaEvent::PlaybackStateChanged(state, source) => {
                self.show(MediaEvent::PlaybackStateChanged(state, source), false, env);
            },
            _ => {},
        }
    }

    /// Shows what waits once the debounce ran out. A pill on screen is never
    /// pulled early.
    pub fn flush_pending(&mut self, env: &Env)
        ensures
            final(self)@ == old(self)@.flushed(*env),
    {
        proof {
            reveal(Pill::flushed);
        }
        self.emit(Effect::StopDebounce);
        if self.is_hidden() {
            self.show_next(env);
        }
    }

    pub(crate) fn clear_screen(&mut self)
        ensures
            final(self)@ == old(self)@.cleared(),
    {
        proof {
            reveal(Pill::cleared);
        }
        self.look.content_rev = bump(self.look.content_rev);
        self.content = None;
        self.dismiss_at = None;
        self.hover.dismiss_at = None;
        self.hover.expand = None;
        self.hover.expanded_once = false;
        self.hover.leave_at = None;
        self.look.fade = None;
        self.rest.watchdog = false;
        self.rest.collapse_on_dismiss = false;
        self.phase = Phase::Hidden;
        self.look.art = None;
        self.look.art_source = None;
        self.look.palette = None;
        self.look.content_palette = None;
        self.look.text = None;
        self.pill_name = None;
        self.current_source = None;
        self.delete_anim_timer();
        self.emit(Effect::HideWindow);
        self.emit(Effect::StartIdleRelease);
    }

    /// Hides the pill and advances the queue. A hold that nothing replaced is
    /// watched for the foreground to clear.
    pub fn hide_pill(&mut self, env: &Env)
        ensures
            final(self)@ == old(self)@.hidden_away(*env),
    {
        proof {
            reveal(Pill::hidden_away);
        }
        self.clear_screen();
        self.show_next(env);
        self.rest.watchdog = self.enabled && self.persistent() && self.config.behavior.hide_for_auto_compact_sources
            && self.held_content.is_some() && self.is_hidden();
        if self.rest.watchdog {
            self.timer.period = WATCHDOG_TICK_MS;
            self.ensure_anim_timer();
        }
    }

    pub(crate) fn stand_down(&mut self)
        ensures
            final(self)@ == old(self)@.stood_down(),
    {
        proof {
            reveal(Pill::stood_down);
        }
        if self.rest.watchdog && self.held_content.is_none() {
            self.rest.watchdog = false;
            self.delete_anim_timer();
        }
    }

    pub(crate) fn hand_over(&mut self, source: &String, content_goes: bool, held_goes: bool, last_goes: bool, env: &Env)
        ensures
            final(self)@ == old(self)@.handed_over(source@, content_goes, held_goes, last_goes, *env),
    {
        proof {
            reveal(Pill::handed_over);
            reveal(Pill::with_last_track_from);
        }
        if !content_goes && !held_goes && !last_goes {
            return;
        }
        let next = best_successor(&self.track_cache, &self.source_state, source.as_str());
        if content_goes {
            match &next {
                Some(track) => {
                    self.swap_to(track.clone(), env);
                },
                None => {
                    self.held_content = None;
                    self.last_track = None;
                    self.hide_pill(env);
                    return;
                },
            }
        }
        if held_goes {
            self.held_content = match &next {
                Some(track) => Some(MediaEvent::TrackChanged(track.clone())),
                None => None,
            };
            self.stand_down();
        }
        let stale = match &self.last_track {
            Some(track) => track.source_app == *source,
            None => false,
        };
        if stale {
            self.last_track = next;
        }
    }

    pub(crate) fn last_track_of(&self, source: &String) -> (r: bool)
        ensures
            r == (self.last_track matches Some(l) && l.source_app@ == source@),
    {
        match &self.last_track {
            Some(track) => track.source_app == *source,
            None => false,
        }
    }

    /// Retires a source that is no longer allowed: nothing of it stays
    /// remembered, queued, held or shown.
    pub fn retire_source(&mut self, source: &String, env: &Env)
        ensures
            final(self)@ == old(self)@.retired(*source, *env),
    {
        proof {
            reveal(Pill::retired);
        }
        self.remember_source_state(source, PlaybackState::Stopped);
        self.track_cache.remove(source);
        drop_source(&mut self.pending, source);
        let content_goes = held_belongs_to(&self.content, source);
        let held_goes = held_belongs_to(&self.held_content, source);
        let last_goes = self.last_track_of(source);
        self.hand_over(source, content_goes, held_goes, last_goes, env);
    }

    /// Lets go of a source whose sessions all settled. Its remembered track
    /// stays, and so does a state pill of it.
    pub fn retire_source_gone(&mut self, source: &String, env: &Env)
        ensures
            final(self)@ == old(self)@.gone(*source, *env),
    {
        proof {
            reveal(Pill::gone);
        }
        self.remember_source_state(source, PlaybackState::Stopped);
        drop_source(&mut self.pending, source);
        let content_goes = track_of(&self.content, source);
        let held_goes = track_of(&self.held_content, source);
        let last_goes = self.last_track_of(source);
        self.hand_over(source, content_goes, held_goes, last_goes, env);
    }
}

} // verus!
