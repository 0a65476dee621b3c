//! The foreground, and the animation tick.
use crate::config::{
    after, animation_duration_with, collapse_duration_with, elapsed, sample_duration, LayoutMode, OverlayPos,
};
use crate::events::{content_playing, content_stopped, is_playing, source_of_held, MediaEvent, TrackInfo};
use crate::fullscreen::{
    after_notice, anchor_unchanged, choose_target, effective_position_rect, exe_listed, notice_due, resolves_to,
    target_of, unattached, DisplayInfo, Notices, TargetChoice, INDEX_WARN_INTERVAL_MS, TARGET_LOG_INTERVAL_MS,
};
use crate::hover::{
    hover_engaged, hover_step, settle_morph, HoverExpand, HoverStep, HoverTick, MorphDirection, REVERSAL_MIN_PROGRESS,
};
use crate::ledger::{best_successor, pinned_track};
use crate::needs_font_rebuild;
use crate::overlay::{capped, copy_event, is_aged, is_due, OverlayState};
use crate::pill::{
    advanced_line, Effect, Env, LineScroll, Marquee, Phase, Pill, Reversal, EARLY_EXIT_MS, LIGHT_MS, MARQUEE_HOLD_MS,
    MARQUEE_SPEED, MAX_STEP_MS,
};
use crate::text::source_matches_pin;
use vstd::prelude::*;
use vstd::string::*;

verus! {

impl OverlayState {
    /// Whether the current pill is compact.
    pub fn effective_compact(&self) -> (r: bool)
        ensures
            r == self@.compact(),
    {
        self.place.layout == LayoutMode::Compact
    }

    /// The placement that governs the current pill.
    pub fn active_pos(&self) -> (r: OverlayPos)
        ensures
            r == self@.governing_pos(),
            self.place.layout == LayoutMode::Compact && self.config.overlay.compact_position_separate ==> r
                == self.place.compact,
            self.place.layout != LayoutMode::Compact || !self.config.overlay.compact_position_separate ==> r
                == self.place.expanded,
    {
        if self.effective_compact() && self.config.overlay.compact_position_separate {
            self.place.compact
        } else {
            self.place.expanded
        }
    }

    /// The display that the configured monitor mode gives. Both layouts follow
    /// the mode of the expanded placement.
    pub fn target(
        &self,
        displays: &[DisplayInfo],
        foreground_nearest: Option<usize>,
        notices: &mut Notices,
        now: u64,
    ) -> (r: TargetChoice)
        ensures
            r.target is None <==> displays@.len() == 0,
            r.target matches Some(t) ==> {
                &&& resolves_to(self.place.expanded.monitor, displays@, foreground_nearest, t.index as int)
                &&& t == target_of(displays@, t.index as int)
                &&& r.log == notice_due(old(notices).target@, t.index as u64, now, TARGET_LOG_INTERVAL_MS)
                &&& final(notices).target@ == after_notice(
                    old(notices).target@,
                    t.index as u64,
                    now,
                    TARGET_LOG_INTERVAL_MS,
                )
            },
            r.target is None ==> !r.log && final(notices).target@ == old(notices).target@,
            r.warn == (unattached(self.place.expanded.monitor, displays@) && notice_due(
                old(notices).unattached@,
                self.place.expanded.monitor->Index_0 as u64,
                now,
                INDEX_WARN_INTERVAL_MS,
            )),
            final(notices).unattached@ == (if unattached(self.place.expanded.monitor, displays@) {
                after_notice(
                    old(notices).unattached@,
                    self.place.expanded.monitor->Index_0 as u64,
                    now,
                    INDEX_WARN_INTERVAL_MS,
                )
            } else {
                old(notices).unattached@
            }),
    {
        choose_target(self.place.expanded.monitor, displays, foreground_nearest, notices, now)
    }

    /// Moves a visible pill to its target, or redraws it where the target's
    /// DPI asks for other fonts.
    pub fn reposition(&mut self, env: &Env)
        ensures
            final(self)@ == old(self)@.repositioned(*env),
    {
        proof {
            reveal(Pill::repositioned);
        }
        if self.is_hidden() || env.target.is_none() {
            return;
        }
        if needs_font_rebuild(self.frame.fonts_dpi, env.target_dpi) {
            self.render();
            return;
        }
        if self.content.is_some() {
            self.emit(Effect::Reposition);
        }
    }

    pub(crate) fn reanchor(&mut self, env: &Env)
        ensures
            final(self)@ == old(self)@.reanchored(*env),
    {
        proof {
            reveal(Pill::reanchored);
        }
        let before = self.place.layout;
        self.refresh_layout(env);
        let flipped = self.place.layout != before;
        if let Some(target) = env.target {
            let edge = effective_position_rect(target.monitor, target.work, env.target_covered);
            if anchor_unchanged(self.place.anchor_edge, edge, flipped) {
                return;
            }
            self.place.anchor_edge = Some(edge);
            if flipped {
                self.render();
            } else {
                self.reposition(env);
            }
        }
    }

    /// Reacts to a foreground change: a persistent pill hides for a
    /// fullscreen or listed app and resumes when it is gone; any other visible
    /// pill is laid out and anchored anew.
    pub fn on_foreground_change(&mut self, env: &Env)
        ensures
            final(self)@ == old(self)@.foreground_changed(*env),
    {
        proof {
            reveal(Pill::foreground_changed);
        }
        let was_hidden = self.is_hidden();
        if was_hidden && !self.persistent() {
            return;
        }
        if self.persistent() && self.config.behavior.hide_for_auto_compact_sources {
            let verdict = self.sample_foreground(env);
            let should_hide = verdict.fullscreen || exe_listed(&self.config, &verdict.exe);
            self.rest.collapse_on_dismiss = should_hide;
            if should_hide && !was_hidden {
                self.held_content = copy_event(&self.content);
                self.hide_pill(env);
                return;
            }
            if was_hidden && !should_hide {
                if let Some(event) = self.held_content.take() {
                    let full = match &event {
                        MediaEvent::TrackChanged(_) => true,
                        _ => false,
                    };
                    self.show(event, full, env);
                }
                return;
            }
        }
        self.reanchor(env);
    }

    /// Looks at the foreground for an auto-hidden pill, at most once a
    /// second. Stands down where the auto-hide no longer applies.
    pub fn tick_hidden_watchdog(&mut self, env: &Env)
        ensures
            final(self)@ == old(self)@.watchdog_ticked(*env),
    {
        proof {
            reveal(Pill::watchdog_ticked);
        }
        if !self.enabled || !(self.persistent() && self.config.behavior.hide_for_auto_compact_sources) {
            self.rest.watchdog = false;
            self.delete_anim_timer();
            return;
        }
        if !is_aged(self.fg.geometry_check, env.now) {
            return;
        }
        self.fg.geometry_check = Some(env.now);
        let before = self.fg.fullscreen;
        let _ = self.sample_foreground(env);
        if self.fg.fullscreen != before {
            self.on_foreground_change(env);
        }
    }

    pub(crate) fn tick_standing(&mut self, env: &Env) -> (moved: bool)
        ensures
            final(self)@ == old(self)@.tick_standing(*env),
            moved == old(self)@.progress.tick_moves(
                is_playing(old(self)@.content),
                env.now,
                old(self)@.frame.w,
            ),
    {
        proof {
            reveal(Pill::tick_standing);
        }
        let animating = self.animating();
        self.timer.last_tick = env.now;
        let playing = content_playing(&self.content);
        let moved = self.progress.tick(playing, env.now, self.frame.w);
        if animating || is_aged(self.timer.last_reassert, env.now) {
            self.timer.last_reassert = Some(env.now);
            self.emit(Effect::ReassertTopmost);
        }
        moved
    }

    pub(crate) fn animating(&self) -> (r: bool)
        ensures
            r == self@.animating(),
    {
        self.phase != Phase::Shown || self.hover.expand.is_some() || self.look.fade.is_some()
    }

    pub(crate) fn tick_cursor(&mut self, over: bool, env: &Env)
        ensures
            final(self)@ == old(self)@.tick_cursor(over, *env),
    {
        proof {
            reveal(Pill::tick_cursor);
        }
        self.hover.cursor_over = over;
        if over {
            self.hover.leave_at = None;
            if self.persistent() && self.rest.faded {
                self.rest.faded = false;
                self.dismiss_at = Some(after(env.now, sample_duration(&self.config)));
            }
        } else if self.hover.leave_at.is_none() {
            self.hover.leave_at = Some(env.now);
        }
    }

    pub(crate) fn wanted_step(&self, is_engaged: bool) -> (r: HoverStep)
        ensures
            r == self@.wanted_step(is_engaged),
    {
        proof {
            reveal(Pill::wanted_step);
        }
        let expanding = match self.hover.expand {
            Some(m) => m.direction == MorphDirection::Expand,
            None => false,
        };
        hover_step(
            HoverTick {
                cursor_over: is_engaged,
                morphing: self.hover.expand.is_some(),
                morph_expanding: expanding,
                dismiss_armed: self.hover.dismiss_at.is_some(),
            },
            !self.persistent() && self.config.overlay.dismiss_on_hover,
            self.config.overlay.expand_compact_on_hover,
            self.hover.expanded_once,
            self.place.layout == LayoutMode::Expanded,
        )
    }

    pub(crate) fn take_step(&mut self, step: HoverStep, reversal: Reversal, env: &Env)
        ensures
            final(self)@ == old(self)@.stepped(step, reversal, *env),
    {
        proof {
            reveal(Pill::stepped);
        }
        let full: u64 = sample_duration(&self.config);
        match step {
            HoverStep::StartExpand => {
                self.hover.expand = Some(
                    HoverExpand {
                        start: env.now,
                        direction: MorphDirection::Expand,
                        from: 0,
                        velocity: 0,
                        done: false,
                    },
                );
                self.dismiss_at = Some(after(env.now, full));
            },
            HoverStep::ArmDismiss => {
                self.hover.dismiss_at = Some(env.now);
                self.dismiss_at = Some(capped(self.dismiss_at, after(env.now, EARLY_EXIT_MS)));
            },
            HoverStep::ReverseMorph => {
                self.dismiss_at = Some(after(env.now, full));
                self.hover.expand = if reversal.from < REVERSAL_MIN_PROGRESS {
                    None
                } else {
                    Some(
                        HoverExpand {
                            start: env.now,
                            direction: MorphDirection::Collapse,
                            from: reversal.from,
                            velocity: reversal.velocity,
                            done: false,
                        },
                    )
                };
            },
            HoverStep::Nothing => {},
        }
    }

    pub(crate) fn tick_hover(&mut self, over: bool, is_engaged: bool, reversal: Reversal, env: &Env)
        ensures
            final(self)@ == old(self)@.tick_hover(over, is_engaged, reversal, *env),
    {
        proof {
            reveal(Pill::tick_hover);
            reveal(Pill::tick_settle);
        }
        let finished = settle_morph(&mut self.hover.expand, &self.config, env.animations, env.now);
        if finished {
            self.hover.expanded_once = true;
        }
        assert(self@ == old(self)@.tick_settle(*env));
        if self.phase == Phase::Shown {
            let step = self.wanted_step(is_engaged);
            self.take_step(step, reversal, env);
        } else if over && self.hover.dismiss_at.is_none() && self.config.overlay.dismiss_on_hover && self.place.layout
            == LayoutMode::Expanded {
            self.hover.dismiss_at = Some(env.now);
            self.dismiss_at = Some(capped(self.dismiss_at, after(env.now, EARLY_EXIT_MS)));
        }
    }

    pub(crate) fn tick_deadline(&mut self, over: bool, held: bool, env: &Env)
        ensures
            final(self)@ == old(self)@.tick_deadline(over, held, *env),
    {
        proof {
            reveal(Pill::tick_deadline);
        }
        if !held && self.pending.len() > 0 && !self.is_hidden() && !self.is_collapsing() {
            self.dismiss_at = Some(capped(self.dismiss_at, after(env.now, EARLY_EXIT_MS)));
        }
        let left_now = match self.hover.leave_at {
            Some(t) => t == env.now,
            None => false,
        };
        if self.persistent() && !over && left_now {
            self.dismiss_at = Some(after(env.now, sample_duration(&self.config)));
            self.rest.faded = false;
        }
    }

    pub(crate) fn rests(&self, over: bool, now: u64) -> (r: bool)
        ensures
            r == self@.rests(over, now),
    {
        !over && is_due(self.dismiss_at, now) && self.phase == Phase::Shown
    }

    pub(crate) fn shown_source_matches(&self, pin: &String) -> (r: bool)
        ensures
            r == (source_of_held(self@.content) matches Some(s) && crate::text::pin_matches(s, pin@)),
    {
        match &self.content {
            Some(event) => match crate::events::event_source(event) {
                Some(source) => source_matches_pin(source.as_str(), pin.as_str()),
                None => false,
            },
            None => false,
        }
    }

    pub(crate) fn pin_to_return_to(&self) -> (r: Option<TrackInfo>)
        ensures
            r == self@.pin_to_return_to(),
    {
        proof {
            reveal(Pill::pin_to_return_to);
        }
        match &self.config.behavior.pinned_source {
            Some(pin) => if self.shown_source_matches(pin) {
                None
            } else {
                self.pinned_track()
            },
            None => None,
        }
    }

    /// Swaps the persistent pill back to the pinned source's track, where
    /// the pin plays and the pill is not on it already. Answers whether it
    /// did.
    pub fn try_return_to_pinned(&mut self, env: &Env) -> (r: bool)
        ensures
            r == (old(self)@.pin_to_return_to() is Some),
            r ==> final(self)@ == old(self)@.swapped_to(old(self)@.pin_to_return_to()->0, *env),
            !r ==> final(self)@ == old(self)@,
    {
        proof {
            reveal(Pill::swapped_to);
            reveal(Pill::pin_to_return_to);
        }
        match self.pin_to_return_to() {
            Some(track) => {
                self.swap_to(track, env);
                true
            },
            None => false,
        }
    }

    pub(crate) fn tombstone_successor(&self) -> (r: Option<TrackInfo>)
        ensures
            r == self@.tombstone_successor(),
    {
        proof {
            reveal(Pill::tombstone_successor);
        }
        match (&self.content, &self.config.behavior.pinned_source) {
            (Some(event), Some(pin)) => match crate::events::event_source(event) {
                Some(source) => if source_matches_pin(source.as_str(), pin.as_str()) {
                    self.best_successor(source.as_str())
                } else {
                    None
                },
                None => None,
            },
            _ => None,
        }
    }

    pub(crate) fn persistent_rest(&mut self, over: bool, stopped: bool, env: &Env)
        ensures
            final(self)@ == old(self)@.persistent_rest(over, stopped, *env),
    {
        proof {
            reveal(Pill::persistent_rest);
        }
        let rests = self.rests(over, env.now);
        if rests && self.try_return_to_pinned(env) {
            return;
        }
        if stopped {
            if rests {
                match self.tombstone_successor() {
                    Some(track) => {
                        self.swap_to(track, env);
                    },
                    None => {
                        self.phase = Phase::Collapsing(env.now);
                        self.hover.expand = None;
                    },
                }
            }
        } else if self.config.overlay.fade_persistent_pill && !self.rest.faded && rests {
            self.rest.faded = true;
        }
    }

    pub(crate) fn tick_dismiss(&mut self, over: bool, held: bool, stopped: bool, env: &Env)
        ensures
            final(self)@ == old(self)@.tick_dismiss(over, held, stopped, *env),
    {
        proof {
            reveal(Pill::tick_dismiss);
        }
        if self.persistent() && !self.rest.collapse_on_dismiss {
            self.persistent_rest(over, stopped, env);
            return;
        }
        let returning = match self.hover.expand {
            Some(m) => m.direction == MorphDirection::Collapse,
            None => false,
        };
        if !held && is_due(self.dismiss_at, env.now) && !self.is_collapsing() && !self.is_hidden() && !returning {
            self.phase = Phase::Collapsing(env.now);
            self.hover.expand = None;
        }
    }

    pub(crate) fn collapse_over(&self, env: &Env) -> (r: bool)
        ensures
            r == self@.collapse_over(*env),
    {
        match self.phase {
            Phase::Collapsing(start) => elapsed(start, env.now) >= collapse_duration_with(
                &self.config,
                env.animations,
            ),
            _ => false,
        }
    }

    pub(crate) fn tick_phase(&mut self, env: &Env)
        ensures
            final(self)@ == old(self)@.tick_phase(*env),
    {
        proof {
            reveal(Pill::tick_phase);
        }
        match self.phase {
            Phase::Expanding(start) => {
                if elapsed(start, env.now) >= animation_duration_with(&self.config, env.animations) {
                    self.phase = Phase::Shown;
                }
            },
            Phase::Light(start) => {
                if elapsed(start, env.now) >= LIGHT_MS {
                    self.phase = Phase::Shown;
                }
            },
            Phase::Collapsing(_) => {
                if self.collapse_over(env) {
                    self.phase = Phase::Shown;
                    self.rest.faded = false;
                    self.dismiss_at = Some(after(env.now, sample_duration(&self.config)));
                }
            },
            _ => {},
        }
    }

    pub(crate) fn tick_marquee(&mut self, dt: u64, env: &Env)
        requires
            dt <= MAX_STEP_MS,
        ensures
            final(self)@ == old(self)@.tick_marquee(dt, *env),
    {
        proof {
            reveal(Pill::tick_marquee);
        }
        if !env.animations {
            return;
        }
        let dpi: u32 = if self.marquee_active() && self.frame.fonts_dpi > 96 {
            self.frame.fonts_dpi
        } else {
            96
        };
        assert(0 <= MARQUEE_SPEED * dpi * dt <= 40 * 0x1_0000_0000 * 50) by (nonlinear_arith)
            requires
                MARQUEE_SPEED == 40,
                0 <= dpi <= 0x1_0000_0000,
                0 <= dt <= 50,
        ;
        let by: u64 = MARQUEE_SPEED * (dpi as u64) * dt;
        self.look.scroll = Marquee {
            title: advance_line(self.look.scroll.title, by, env.now),
            subtitle: advance_line(self.look.scroll.subtitle, by, env.now),
            meta: advance_line(self.look.scroll.meta, by, env.now),
            app: advance_line(self.look.scroll.app, by, env.now),
        };
    }

    /// Looks at the foreground on a static tick, for the layouts that depend
    /// on it: at once for a new window, once a second for the same one.
    /// Answers whether the layout flipped and whether the fullscreen verdict
    /// changed.
    pub fn tick_layout_check(&mut self, animating: bool, env: &Env) -> (r: (bool, bool))
        ensures
            final(self)@ == old(self)@.foreground_checked(animating, *env),
            r.0 == (final(self)@.place.layout != old(self)@.place.layout),
            r.1 == (final(self)@.fg.fullscreen != old(self)@.fg.fullscreen),
    {
        proof {
            reveal(Pill::foreground_checked);
        }
        let checks = !animating && (self.config.overlay.layout == LayoutMode::Auto || (self.persistent()
            && self.config.behavior.hide_for_auto_compact_sources));
        let same_window = match self.fg.window {
            Some(w) => w == env.foreground,
            None => false,
        };
        if !checks || (same_window && !is_aged(self.fg.geometry_check, env.now)) {
            return (false, false);
        }
        self.fg.geometry_check = Some(env.now);
        let layout = self.place.layout;
        let fullscreen = self.fg.fullscreen;
        self.refresh_layout(env);
        (self.place.layout != layout, self.fg.fullscreen != fullscreen)
    }

    pub(crate) fn tick_finish(&mut self, animating: bool, marquee: bool, bar_moved: bool, env: &Env)
        ensures
            final(self)@ == old(self)@.tick_finish(animating, marquee, bar_moved, *env),
    {
        proof {
            reveal(Pill::tick_finish);
        }
        let (flipped, verdict_changed) = self.tick_layout_check(animating, env);
        if verdict_changed && self.persistent() {
            self.on_foreground_change(env);
            if self.is_hidden() {
                return;
            }
        }
        if flipped || animating || self.hover.expand.is_some() || marquee || bar_moved || self.persistent_fade_active(
            env.now,
        ) {
            self.render();
        }
        self.sync_anim_timer(env);
    }

    /// One animation tick: the progress bar, the cursor, the deadlines, the
    /// phase, the scrolling lines, the foreground, and the next frame.
    pub fn tick(&mut self, over: bool, reversal: Reversal, env: &Env)
        ensures
            final(self)@ == old(self)@.ticked(over, reversal, *env),
    {
        proof {
            reveal(Pill::ticked);
            reveal(Pill::hidden_ticked);
            reveal(Pill::tick_through_dismiss);
        }
        if self.is_hidden() {
            self.timer.last_tick = env.now;
            if self.rest.watchdog {
                self.tick_hidden_watchdog(env);
            }
            return;
        }
        let since_last: u64 = elapsed(self.timer.last_tick, env.now);
        let dt: u64 = if since_last < MAX_STEP_MS {
            since_last
        } else {
            MAX_STEP_MS
        };
        let animating = self.animating();
        let stopped = content_stopped(&self.content);
        let bar_moved = self.tick_standing(env);
        self.tick_cursor(over, env);
        let is_engaged = hover_engaged(over, self.hover.leave_at, env.now);
        let held = is_engaged && self.hover.expand.is_some();
        self.tick_hover(over, is_engaged, reversal, env);
        self.tick_deadline(over, held, env);
        self.tick_dismiss(over, held, stopped, env);
        assert(self@ == old(self)@.tick_through_dismiss(over, reversal, *env));
        if self.collapse_over(env) && (!self.persistent() || self.rest.collapse_on_dismiss || stopped) {
            self.hide_pill(env);
            return;
        }
        self.tick_phase(env);
        let marquee = self.marquee_active();
        self.tick_marquee(dt, env);
        self.tick_finish(animating, marquee, bar_moved, env);
    }
}

pub(crate) fn advance_line(line: LineScroll, by: u64, now: u64) -> (r: LineScroll)
    ensures
        r == advanced_line(line, by, now),
{
    match line.started_at {
        Some(t) => if elapsed(t, now) >= MARQUEE_HOLD_MS {
            LineScroll { offset: after(line.offset, by), ..line }
        } else {
            line
        },
        None => line,
    }
}

} // verus!
