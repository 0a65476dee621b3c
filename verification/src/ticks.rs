//! What one tick makes of a pill on screen, told by the cursor, the clock and
//! the state before it.
use crate::config::{exit_ms, full_duration, later, since, LayoutMode};
use crate::events::{is_playing, is_tombstone, source_of_held, MediaEvent, PlaybackState, TrackInfo};
use crate::hover::{engaged, HoverExpand, MorphDirection};
use crate::ledger::{pinned, successor};
use crate::order::{
    law_refresh_keeps_the_pill_up, law_timer_follows_the_motion, lemma_adopted, lemma_relaid, lemma_rendered,
    lemma_swap_stays_visible, lemma_tick_standing,
};
use crate::outcomes::{
    bar_follows, law_auto_hide_follows_the_foreground, law_hidden_pill_is_watched_only_for_its_hold,
    law_hiding_makes_room_for_what_waits, law_timer_keeps_pace_with_the_idle_fade, law_timer_keeps_the_displays_pace,
    lemma_swapped,
};
use crate::pill::{
    cap_period, moving_period, scrolls, Effect, Env, Foreground, Hover, LineScroll, Look, Phase, Pill, Rest, Reversal,
    Timer,
};
use crate::promises::lemma_tick_goes_on;
use crate::text::pin_matches;
use vstd::prelude::*;

verus! {

/// The repaint period that the rate cap allows: the whole milliseconds of the
/// capped rate, which counts as at least 60 Hz and at most 1000.
pub proof fn law_rate_cap_gives_whole_milliseconds(p: Pill)
    ensures
        ({
            let cap = cap_period(p.config) as int;
            &&& p.config.overlay.max_tick_hz is None ==> cap == 16
            &&& p.config.overlay.max_tick_hz matches Some(hz) ==> {
                &&& hz <= 60 ==> cap == 16
                &&& hz >= 1000 ==> cap == 1
                &&& 60 <= hz <= 1000 ==> cap * hz <= 1000 < (cap + 1) * hz
            }
        }),
{
    if let Some(hz) = p.config.overlay.max_tick_hz {
        if 60 <= hz <= 1000 {
            let (h, q) = (hz as int, 1000int / hz as int);
            assert(q * h <= 1000 < (q + 1) * h && 0 <= q <= 1000) by (nonlinear_arith)
                requires
                    q == 1000int / h,
                    60 <= h <= 1000,
            ;
        }
    }
}

/// A moving pill ticks at the display's period, or at the capped one where
/// that is longer, and never slower than every 100 ms.
pub proof fn law_moving_pill_ticks_no_faster_than_the_cap(p: Pill, raw: u32)
    ensures
        ({
            let period = moving_period(raw, p.config);
            let cap = cap_period(p.config);
            &&& cap <= raw <= 100 ==> period == raw
            &&& raw < cap ==> period == cap
            &&& raw > 100 ==> period == 100
            &&& 1 <= cap <= 16
        }),
{
    law_rate_cap_gives_whole_milliseconds(p);
    if let Some(hz) = p.config.overlay.max_tick_hz {
        if 60 <= hz <= 1000 {
            let (h, q) = (hz as int, 1000int / hz as int);
            assert(1 <= q <= 16) by (nonlinear_arith)
                requires
                    q == 1000int / h,
                    60 <= h <= 1000,
            ;
        }
    }
}

impl Pill {
    /// Whether the foreground decides nothing about the pill: its layout is
    /// fixed by the configuration.
    pub open spec fn fixed_layout(self) -> bool {
        self.config.overlay.layout == LayoutMode::Expanded || self.config.overlay.layout == LayoutMode::Compact
    }

    /// Whether something of the pill moves at the top of a tick: it is on its
    /// way, morphs or dissolves.
    pub open spec fn moves(self) -> bool {
        self.phase != Phase::Shown || self.hover.expand is Some || self.look.fade is Some
    }

    /// Whether any line scrolls.
    pub open spec fn any_line_scrolls(self) -> bool {
        let m = self.look.scroll;
        m.title.scrolling || m.subtitle.scrolling || m.meta.scrolling || m.app.scrolling
    }

    /// How far a line scrolls in a tick, in 1/96000 of a pixel: 40 logical
    /// pixels a second, for at most 50 ms. Lines that scroll go by the DPI of
    /// their fonts.
    pub open spec fn scroll_distance(self, now: u64) -> int {
        let dt = if since(self.timer.last_tick, now) < 50 {
            since(self.timer.last_tick, now) as int
        } else {
            50
        };
        let dpi = if self.any_line_scrolls() && self.frame.fonts_dpi > 96 {
            self.frame.fonts_dpi as int
        } else {
            96
        };
        40 * dpi * dt
    }
}

/// Whether `to` is `from` scrolled on by `distance`: after 600 ms of hold it
/// moves, before that and without a start it does not.
pub open spec fn scrolled_on(from: LineScroll, to: LineScroll, distance: int, now: u64) -> bool {
    &&& to.started_at == from.started_at && to.scrolling == from.scrolling
    &&& from.started_at matches Some(t) ==> {
        &&& since(t, now) < 600 ==> to.offset == from.offset
        &&& since(t, now) >= 600 && from.offset + distance <= u64::MAX ==> to.offset == from.offset + distance
        &&& since(t, now) >= 600 && from.offset + distance > u64::MAX ==> to.offset == u64::MAX
    }
    &&& from.started_at is None ==> to.offset == from.offset
}

proof fn lemma_marquee(p: Pill, dt: u64, env: Env)
    requires
        dt <= 50,
    ensures
        ({
            let s = p.tick_marquee(dt, env);
            let m = p.look.scroll;
            let dpi = if p.any_line_scrolls() && p.frame.fonts_dpi > 96 {
                p.frame.fonts_dpi as int
            } else {
                96
            };
            &&& !env.animations ==> s == p
            &&& env.animations ==> {
                &&& scrolled_on(m.title, s.look.scroll.title, 40 * dpi * dt, env.now)
                &&& scrolled_on(m.subtitle, s.look.scroll.subtitle, 40 * dpi * dt, env.now)
                &&& scrolled_on(m.meta, s.look.scroll.meta, 40 * dpi * dt, env.now)
                &&& scrolled_on(m.app, s.look.scroll.app, 40 * dpi * dt, env.now)
            }
            &&& s == (Pill { look: Look { scroll: s.look.scroll, ..p.look }, ..p })
            &&& scrolls(s.look.scroll) == scrolls(p.look.scroll)
        }),
{
    reveal(Pill::tick_marquee);
    let dpi = p.scroll_dpi();
    assert(0 <= 40 * dpi * dt <= 40 * 0x1_0000_0000 * 50) by (nonlinear_arith)
        requires
            0 <= dpi <= 0x1_0000_0000,
            0 <= dt <= 50,
    ;
}

proof fn lemma_plain_finish(p: Pill, animating: bool, marquee: bool, bar_moved: bool, env: Env)
    requires
        p.fixed_layout(),
        p.content is Some,
    ensures
        ({
            let s = p.tick_finish(animating, marquee, bar_moved, env);
            let draws = animating || p.hover.expand is Some || marquee || bar_moved;
            &&& s == (Pill { timer: s.timer, effects: s.effects, ..p })
            &&& s.timer == p.synced(env).timer
            &&& s.effects == p.effects + (if draws {
                seq![Effect::Render]
            } else {
                Seq::empty()
            }) + p.retimed(s.timer.period)
        }),
{
    reveal(Pill::tick_finish);
    reveal(Pill::foreground_checked);
    reveal(Pill::rendered);
    reveal(Pill::synced);
    reveal(Pill::wanted_period);
    reveal(Pill::period_after);
    reveal(Pill::with_timer);
    reveal(Pill::without_timer);
    let s = p.tick_finish(animating, marquee, bar_moved, env);
    law_timer_keeps_the_displays_pace(p, env);
    law_timer_keeps_the_displays_pace(p.emit(Effect::Render), env);
    let draws = animating || p.hover.expand is Some || marquee || bar_moved;
    assert(s.effects =~= p.effects + (if draws {
        seq![Effect::Render]
    } else {
        Seq::empty()
    }) + p.retimed(s.timer.period));
}

proof fn lemma_plain_tick(p: Pill, over: bool, reversal: Reversal, env: Env)
    requires
        !p.is_hidden(),
        p.fixed_layout(),
        ({
            let d = p.tick_through_dismiss(over, reversal, env);
            &&& d.config == p.config
            &&& d.content is Some
            &&& !d.tick_hides(is_tombstone(p.content), env)
        }),
    ensures
        ({
            let d = p.tick_through_dismiss(over, reversal, env).tick_phase(env);
            let s = p.ticked(over, reversal, env);
            let draws = p.moves() || d.hover.expand is Some || d.any_line_scrolls() || p.progress.tick_moves(
                is_playing(p.content),
                env.now,
                p.frame.w,
            );
            &&& s == (Pill {
                look: Look { scroll: s.look.scroll, ..d.look },
                timer: s.timer,
                effects: s.effects,
                ..d
            })
            &&& s.effects == d.effects + (if draws {
                seq![Effect::Render]
            } else {
                Seq::empty()
            }) + d.retimed(s.timer.period)
        }),
{
    reveal(Pill::ticked);
    reveal(Pill::tick_phase);
    let d = p.tick_through_dismiss(over, reversal, env).tick_phase(env);
    lemma_marquee(d, p.time_step(env.now), env);
    lemma_plain_finish(
        d.tick_marquee(p.time_step(env.now), env),
        p.animating(),
        scrolls(d.look.scroll),
        p.progress.tick_moves(is_playing(p.content), env.now, p.frame.w),
        env,
    );
}

impl Pill {
    /// The pill after the bar and the window's standing were looked at, with
    /// the cursor where it is.
    spec fn stood(self, over: bool, env: Env) -> Pill {
        let reasserts = self.moves() || self.timer.last_reassert is None || since(
            self.timer.last_reassert->0,
            env.now,
        ) >= 1000;
        Pill {
            progress: self.progress.ticked(is_playing(self.content), env.now, self.frame.w),
            timer: Timer {
                last_tick: env.now,
                last_reassert: if reasserts {
                    Some(env.now)
                } else {
                    self.timer.last_reassert
                },
                ..self.timer
            },
            hover: Hover {
                cursor_over: over,
                leave_at: if over {
                    None
                } else if self.hover.leave_at is None {
                    Some(env.now)
                } else {
                    self.hover.leave_at
                },
                ..self.hover
            },
            effects: if reasserts {
                self.effects.push(Effect::ReassertTopmost)
            } else {
                self.effects
            },
            ..self
        }
    }
}

proof fn lemma_stood(p: Pill, over: bool, env: Env)
    requires
        !p.persistent() || !over || !p.rest.faded,
    ensures
        p.tick_standing(env).tick_cursor(over, env) == p.stood(over, env),
{
    reveal(Pill::tick_standing);
    reveal(Pill::tick_cursor);
}

proof fn lemma_nothing_hovers(p: Pill, over: bool, reversal: Reversal, env: Env)
    requires
        p.hover.expand is None,
        !over,
    ensures
        p.tick_hover(over, false, reversal, env) == p,
{
    reveal(Pill::tick_hover);
    reveal(Pill::tick_settle);
    reveal(Pill::wanted_step);
    reveal(Pill::stepped);
}

proof fn lemma_no_deadline(p: Pill, over: bool, held: bool, env: Env)
    requires
        p.pending.len() == 0 || held,
        !p.persistent(),
    ensures
        p.tick_deadline(over, held, env) == p,
{
    reveal(Pill::tick_deadline);
}

proof fn lemma_dismisses(p: Pill, over: bool, stopped: bool, env: Env)
    requires
        !p.persistent(),
        p.hover.expand is None,
        !p.is_hidden() && !p.is_collapsing(),
    ensures
        p.tick_dismiss(over, false, stopped, env) == (if p.dismiss_at is Some && p.dismiss_at->0 <= env.now {
            Pill { phase: Phase::Collapsing(env.now), ..p }
        } else {
            p
        }),
{
    reveal(Pill::tick_dismiss);
}

proof fn lemma_left_through_dismiss(p: Pill, reversal: Reversal, env: Env)
    requires
        p.fixed_layout(),
        !p.is_hidden() && !p.is_collapsing(),
        p.hover.expand is None,
        p.phase == Phase::Shown ==> p.hover.leave_at is Some && since(p.hover.leave_at->0, env.now) >= 60,
        p.pending.len() == 0,
    ensures
        p.tick_through_dismiss(false, reversal, env) == (if p.dismiss_at is Some && p.dismiss_at->0 <= env.now {
            Pill { phase: Phase::Collapsing(env.now), ..p.stood(false, env) }
        } else {
            p.stood(false, env)
        }),
{
    reveal(Pill::tick_through_dismiss);
    let stopped = is_tombstone(p.content);
    lemma_stood(p, false, env);
    let c = p.stood(false, env);
    let is_engaged = engaged(false, c.hover.leave_at, env.now);
    if is_engaged {
        assert(c.tick_hover(false, true, reversal, env) == c) by {
            reveal(Pill::tick_hover);
            reveal(Pill::tick_settle);
        }
    } else {
        lemma_nothing_hovers(c, false, reversal, env);
    }
    lemma_no_deadline(c, false, false, env);
    lemma_dismisses(c, false, stopped, env);
}

// ---- a resting notification ----

/// A tick of a resting notification that nothing concerns: the content, the
/// phase, the deadline and the place stay. The bar and the scrolling lines
/// move on, the window is re-asserted once a second, a frame is asked for only
/// where something moved, and the timer is brought in step.
pub proof fn law_resting_notification_ticks_quietly(p: Pill, reversal: Reversal, env: Env)
    requires
        p.fixed_layout(),
        p.phase == Phase::Shown,
        p.content is Some,
        p.hover.expand is None,
        p.hover.leave_at is Some && since(p.hover.leave_at->0, env.now) >= 60,
        p.pending.len() == 0,
        p.dismiss_at is Some && p.dismiss_at->0 > env.now,
    ensures
        ({
            let s = p.ticked(false, reversal, env);
            let playing = is_playing(p.content);
            let moved = p.progress.tick_moves(playing, env.now, p.frame.w);
            let reasserts = p.look.fade is Some || p.timer.last_reassert is None || since(
                p.timer.last_reassert->0,
                env.now,
            ) >= 1000;
            &&& s.content == p.content && s.phase == p.phase && s.dismiss_at == p.dismiss_at
            &&& s.hover == (Hover { cursor_over: false, ..p.hover })
            &&& s.rest == p.rest && s.place == p.place && s.fg == p.fg && s.frame == p.frame
            &&& s.pending == p.pending && s.held_content == p.held_content && s.last_track == p.last_track
            &&& s.current_source == p.current_source && s.now_showing == p.now_showing && s.pill_name == p.pill_name
            &&& s.track_cache == p.track_cache && s.source_state == p.source_state
            &&& s.progress == p.progress.ticked(playing, env.now, p.frame.w)
            &&& s.look == (Look { scroll: s.look.scroll, ..p.look })
            &&& !env.animations ==> s.look.scroll == p.look.scroll
            &&& env.animations ==> {
                let distance = p.scroll_distance(env.now);
                &&& scrolled_on(p.look.scroll.title, s.look.scroll.title, distance, env.now)
                &&& scrolled_on(p.look.scroll.subtitle, s.look.scroll.subtitle, distance, env.now)
                &&& scrolled_on(p.look.scroll.meta, s.look.scroll.meta, distance, env.now)
                &&& scrolled_on(p.look.scroll.app, s.look.scroll.app, distance, env.now)
            }
            &&& s.timer.last_tick == env.now
            &&& s.timer.last_reassert == (if reasserts {
                Some(env.now)
            } else {
                p.timer.last_reassert
            })
            &&& s.timer.armed
            &&& p.look.fade is Some || p.any_line_scrolls() ==> s.timer.period == moving_period(
                p.display_period(env),
                p.config,
            )
            &&& p.look.fade is None && !p.any_line_scrolls() ==> s.timer.period == 250
            &&& s.effects == p.effects + (if reasserts {
                seq![Effect::ReassertTopmost]
            } else {
                Seq::empty()
            }) + (if p.look.fade is Some || p.any_line_scrolls() || moved {
                seq![Effect::Render]
            } else {
                Seq::empty()
            }) + p.retimed(s.timer.period)
        }),
{
    lemma_left_through_dismiss(p, reversal, env);
    let q = p.stood(false, env);
    assert(q.tick_phase(env) == q) by {
        reveal(Pill::tick_phase);
    }
    lemma_marquee(q, p.time_step(env.now), env);
    let m = q.tick_marquee(p.time_step(env.now), env);
    let moved = p.progress.tick_moves(is_playing(p.content), env.now, p.frame.w);
    lemma_plain_finish(m, p.animating(), scrolls(q.look.scroll), moved, env);
    law_timer_keeps_the_displays_pace(m, env);
    let s = p.ticked(false, reversal, env);
    assert(s == m.tick_finish(p.animating(), scrolls(q.look.scroll), moved, env)) by {
        reveal(Pill::ticked);
    }
    let reasserts = p.look.fade is Some || p.timer.last_reassert is None || since(p.timer.last_reassert->0, env.now)
        >= 1000;
    assert(s.effects =~= p.effects + (if reasserts {
        seq![Effect::ReassertTopmost]
    } else {
        Seq::empty()
    }) + (if p.look.fade is Some || p.any_line_scrolls() || moved {
        seq![Effect::Render]
    } else {
        Seq::empty()
    }) + p.retimed(s.timer.period));
}

// ---- phases ----

/// A pill moving in stays on its way until its time is over and is shown from
/// then on: the configured time for a full entrance, 120 ms for a light
/// reveal, and no time for an entrance without motion. Every tick on the way
/// re-asserts the window and asks for a frame.
pub proof fn law_entrance_ends_when_its_time_is_over(p: Pill, start: u64, reversal: Reversal, env: Env)
    requires
        p.fixed_layout(),
        p.phase == Phase::Expanding(start) || p.phase == Phase::Light(start),
        p.content is Some,
        p.hover.expand is None,
        p.pending.len() == 0,
        p.dismiss_at is Some && p.dismiss_at->0 > env.now,
    ensures
        ({
            let s = p.ticked(false, reversal, env);
            let passed = since(start, env.now);
            &&& p.phase is Expanding && env.animations && passed < p.config.overlay.animation_ms ==> s.phase == p.phase
            &&& p.phase is Expanding && env.animations && passed >= p.config.overlay.animation_ms ==> s.phase
                == Phase::Shown
            &&& p.phase is Expanding && !env.animations ==> s.phase == Phase::Shown
            &&& p.phase is Light && passed < 120 ==> s.phase == p.phase
            &&& p.phase is Light && passed >= 120 ==> s.phase == Phase::Shown
            &&& s.content == p.content && s.dismiss_at == p.dismiss_at && s.rest == p.rest && s.place == p.place
            &&& s.effects.len() > p.effects.len() + 1
            &&& s.effects[p.effects.len() as int] == Effect::ReassertTopmost
            &&& s.effects[p.effects.len() as int + 1] == Effect::Render
        }),
{
    lemma_left_through_dismiss(p, reversal, env);
    let d = p.stood(false, env);
    let q = d.tick_phase(env);
    assert(q == (Pill { phase: q.phase, ..d })) by {
        reveal(Pill::tick_phase);
    }
    assert(q.phase == (match p.phase {
        Phase::Expanding(_) => if !env.animations || since(start, env.now) >= p.config.overlay.animation_ms {
            Phase::Shown
        } else {
            p.phase
        },
        _ => if since(start, env.now) >= 120 {
            Phase::Shown
        } else {
            p.phase
        },
    })) by {
        reveal(Pill::tick_phase);
    }
    lemma_marquee(q, p.time_step(env.now), env);
    let m = q.tick_marquee(p.time_step(env.now), env);
    let moved = p.progress.tick_moves(is_playing(p.content), env.now, p.frame.w);
    lemma_plain_finish(m, p.animating(), scrolls(q.look.scroll), moved, env);
    let s = p.ticked(false, reversal, env);
    assert(s == m.tick_finish(p.animating(), scrolls(q.look.scroll), moved, env)) by {
        reveal(Pill::ticked);
    }
}

/// At its deadline a notification that the cursor has left collapses, also
/// while it is still moving in, and not before it.
pub proof fn law_notification_collapses_exactly_at_its_deadline(p: Pill, reversal: Reversal, env: Env)
    requires
        p.fixed_layout(),
        p.phase == Phase::Shown || p.phase is Expanding || p.phase is Light,
        p.content is Some,
        p.dismiss_at is Some,
        p.pending.len() == 0,
        p.hover.expand is None,
        p.hover.leave_at is Some && since(p.hover.leave_at->0, env.now) >= 60,
        env.animations && p.config.overlay.animation_ms >= 2,
    ensures
        ({
            let s = p.ticked(false, reversal, env);
            &&& p.dismiss_at->0 <= env.now ==> s.phase == Phase::Collapsing(env.now) && s.hover.expand is None
                && s.content == p.content
            &&& p.dismiss_at->0 > env.now ==> !s.is_collapsing() && !s.is_hidden() && s.content == p.content
            &&& s.dismiss_at == p.dismiss_at
        }),
{
    lemma_left_through_dismiss(p, reversal, env);
    let d = p.tick_through_dismiss(false, reversal, env);
    lemma_plain_tick(p, false, reversal, env);
    assert(d.tick_phase(env) == (Pill { phase: d.tick_phase(env).phase, ..d })) by {
        reveal(Pill::tick_phase);
    }
    assert(d.is_collapsing() ==> d.tick_phase(env).phase == d.phase) by {
        reveal(Pill::tick_phase);
    }
    assert(!d.is_collapsing() && !d.is_hidden() ==> !d.tick_phase(env).is_collapsing() && !d.tick_phase(
        env,
    ).is_hidden()) by {
        reveal(Pill::tick_phase);
    }
}

/// An exit runs for four fifths of the entrance's time and goes on until then.
/// At its end a notification makes room: for what waited longest, or for
/// nothing.
pub proof fn law_exit_runs_its_time(p: Pill, start: u64, over: bool, reversal: Reversal, env: Env)
    requires
        p.fixed_layout(),
        p.phase == Phase::Collapsing(start),
        p.content is Some,
        p.hover.expand is None,
        p.place.layout == LayoutMode::Compact || !p.config.overlay.dismiss_on_hover || !over,
        start <= env.now,
        p.enabled,
        p.pending.len() > 0 ==> p.pending[0] is TrackChanged || p.pending[0] is PlaybackStateChanged,
    ensures
        ({
            let s = p.ticked(over, reversal, env);
            let ms = p.config.overlay.animation_ms;
            let over_now = !env.animations || 5 * (env.now - start) >= 4 * ms;
            let still_runs = env.animations && 5 * (env.now - start + 1) <= 4 * ms;
            &&& still_runs ==> s.phase == Phase::Collapsing(start) && s.content == p.content && s.pending == p.pending
            &&& over_now && p.pending.len() == 0 ==> s.is_hidden() && s.content is None
            &&& over_now && p.pending.len() > 0 ==> s.presents(p.pending[0], env.now) && s.pending == p.pending.skip(1)
        }),
{
    reveal(Pill::ticked);
    reveal(Pill::tick_through_dismiss);
    reveal(Pill::tick_standing);
    reveal(Pill::tick_cursor);
    reveal(Pill::tick_hover);
    reveal(Pill::tick_settle);
    reveal(Pill::wanted_step);
    reveal(Pill::stepped);
    reveal(Pill::tick_deadline);
    reveal(Pill::tick_dismiss);
    reveal(Pill::tick_phase);
    let d = p.tick_through_dismiss(over, reversal, env);
    if d.tick_hides(is_tombstone(p.content), env) {
        if p.pending.len() == 0 {
            law_hidden_pill_is_watched_only_for_its_hold(d, env);
        } else {
            law_hiding_makes_room_for_what_waits(d, env);
        }
    } else {
        lemma_plain_tick(p, over, reversal, env);
    }
}

// ---- the cursor ----

proof fn lemma_shown_stays(p: Pill, over: bool, reversal: Reversal, env: Env)
    requires
        p.fixed_layout(),
        p.content is Some,
        p.phase == Phase::Shown,
        p.tick_through_dismiss(over, reversal, env).phase == Phase::Shown,
        p.tick_through_dismiss(over, reversal, env).content == p.content,
        p.tick_through_dismiss(over, reversal, env).config == p.config,
    ensures
        ({
            let d = p.tick_through_dismiss(over, reversal, env);
            let s = p.ticked(over, reversal, env);
            let draws = p.moves() || d.hover.expand is Some || d.any_line_scrolls() || p.progress.tick_moves(
                is_playing(p.content),
                env.now,
                p.frame.w,
            );
            &&& s == (Pill { look: Look { scroll: s.look.scroll, ..d.look }, timer: s.timer, effects: s.effects, ..d })
            &&& s.effects == d.effects + (if draws {
                seq![Effect::Render]
            } else {
                Seq::empty()
            }) + d.retimed(s.timer.period)
        }),
{
    lemma_plain_tick(p, over, reversal, env);
    let d = p.tick_through_dismiss(over, reversal, env);
    assert(d.tick_phase(env) == d) by {
        reveal(Pill::tick_phase);
    }
}

/// The cursor on a resting compact pill starts its expansion where that is
/// enabled, and with dismiss-on-hover only once per showing: from the compact
/// shape, at rest, now. The pill gets its full time again.
pub proof fn law_cursor_expands_a_compact_pill(p: Pill, reversal: Reversal, env: Env)
    requires
        p.fixed_layout(),
        p.place.layout == LayoutMode::Compact,
        p.phase == Phase::Shown,
        p.content is Some,
        p.hover.expand is None,
        p.config.overlay.expand_compact_on_hover,
        !p.config.overlay.dismiss_on_hover || !p.hover.expanded_once,
        p.pending.len() == 0,
        env.now < u64::MAX,
    ensures
        ({
            let s = p.ticked(true, reversal, env);
            &&& s.hover.expand == Some(
                HoverExpand {
                    start: env.now,
                    direction: MorphDirection::Expand,
                    from: 0,
                    velocity: 0,
                    done: false,
                },
            )
            &&& s.dismiss_at == Some(later(env.now, full_duration(p.config)))
            &&& s.hover.dismiss_at == p.hover.dismiss_at
            &&& s.hover.expanded_once == p.hover.expanded_once
            &&& s.hover.cursor_over && s.hover.leave_at is None
            &&& s.phase == Phase::Shown && s.content == p.content && s.rest == p.rest
            &&& s.timer.period == moving_period(p.display_period(env), p.config)
        }),
{
    lemma_stood(p, true, env);
    let c = p.stood(true, env);
    let h = Pill {
        dismiss_at: Some(later(env.now, full_duration(p.config))),
        hover: Hover {
            expand: Some(
                HoverExpand {
                    start: env.now,
                    direction: MorphDirection::Expand,
                    from: 0,
                    velocity: 0,
                    done: false,
                },
            ),
            ..c.hover
        },
        ..c
    };
    assert(c.tick_hover(true, true, reversal, env) == h) by {
        reveal(Pill::tick_hover);
        reveal(Pill::tick_settle);
        reveal(Pill::wanted_step);
        reveal(Pill::stepped);
    }
    lemma_no_deadline(h, true, false, env);
    assert(h.tick_dismiss(true, false, is_tombstone(p.content), env) == h) by {
        reveal(Pill::tick_dismiss);
    }
    assert(p.tick_through_dismiss(true, reversal, env) == h) by {
        reveal(Pill::tick_through_dismiss);
    }
    lemma_shown_stays(p, true, reversal, env);
    assert(h.tick_phase(env) == h) by {
        reveal(Pill::tick_phase);
    }
    lemma_marquee(h, p.time_step(env.now), env);
    let m = h.tick_marquee(p.time_step(env.now), env);
    let moved = p.progress.tick_moves(is_playing(p.content), env.now, p.frame.w);
    lemma_plain_finish(m, p.animating(), scrolls(h.look.scroll), moved, env);
    law_timer_keeps_the_displays_pace(m, env);
    assert(p.ticked(true, reversal, env) == m.tick_finish(p.animating(), scrolls(h.look.scroll), moved, env)) by {
        reveal(Pill::ticked);
    }
}

/// With dismiss-on-hover the cursor arms the dismissal of a shown pill that it
/// does not expand, once: the pill has half a second left from then on, or
/// less where its deadline is sooner, and another tick on it changes neither.
pub proof fn law_cursor_arms_the_dismissal_once(p: Pill, reversal: Reversal, env: Env)
    requires
        p.fixed_layout(),
        p.phase == Phase::Shown,
        p.content is Some,
        p.hover.expand is None,
        p.config.overlay.dismiss_on_hover,
        p.place.layout == LayoutMode::Expanded || !p.config.overlay.expand_compact_on_hover || p.hover.expanded_once,
        p.pending.len() == 0,
        p.dismiss_at is Some && p.dismiss_at->0 > env.now,
        env.now < u64::MAX,
    ensures
        ({
            let s = p.ticked(true, reversal, env);
            let soon = later(env.now, 500);
            &&& p.hover.dismiss_at is None ==> s.hover.dismiss_at == Some(env.now) && s.dismiss_at == Some(
                if p.dismiss_at->0 < soon {
                    p.dismiss_at->0
                } else {
                    soon
                },
            )
            &&& p.hover.dismiss_at is Some ==> s.hover.dismiss_at == p.hover.dismiss_at && s.dismiss_at == p.dismiss_at
            &&& s.hover.expand is None
            &&& s.phase == Phase::Shown && s.content == p.content
        }),
{
    lemma_stood(p, true, env);
    let c = p.stood(true, env);
    let soon = later(env.now, 500);
    let h = if p.hover.dismiss_at is None {
        Pill {
            dismiss_at: Some(
                if p.dismiss_at->0 < soon {
                    p.dismiss_at->0
                } else {
                    soon
                },
            ),
            hover: Hover { dismiss_at: Some(env.now), ..c.hover },
            ..c
        }
    } else {
        c
    };
    assert(c.tick_hover(true, true, reversal, env) == h) by {
        reveal(Pill::tick_hover);
        reveal(Pill::tick_settle);
        reveal(Pill::wanted_step);
        reveal(Pill::stepped);
    }
    lemma_no_deadline(h, true, false, env);
    assert(h.tick_dismiss(true, false, is_tombstone(p.content), env) == h) by {
        reveal(Pill::tick_dismiss);
    }
    assert(p.tick_through_dismiss(true, reversal, env) == h) by {
        reveal(Pill::tick_through_dismiss);
    }
    lemma_shown_stays(p, true, reversal, env);
}

/// Without either hover setting, and on an armed pill, the cursor changes
/// nothing about a shown pill's morph, dismissal and deadline.
pub proof fn law_cursor_without_settings_does_nothing(p: Pill, reversal: Reversal, env: Env)
    requires
        p.fixed_layout(),
        p.phase == Phase::Shown,
        p.content is Some,
        p.hover.expand is None,
        !p.config.overlay.dismiss_on_hover,
        !p.config.overlay.expand_compact_on_hover || p.place.layout == LayoutMode::Expanded,
        p.pending.len() == 0,
        p.dismiss_at is Some && p.dismiss_at->0 > env.now,
    ensures
        ({
            let s = p.ticked(true, reversal, env);
            &&& s.hover == (Hover { cursor_over: true, leave_at: None, ..p.hover })
            &&& s.dismiss_at == p.dismiss_at
            &&& s.phase == Phase::Shown && s.content == p.content
        }),
{
    lemma_stood(p, true, env);
    let c = p.stood(true, env);
    assert(c.tick_hover(true, true, reversal, env) == c) by {
        reveal(Pill::tick_hover);
        reveal(Pill::tick_settle);
        reveal(Pill::wanted_step);
        reveal(Pill::stepped);
    }
    lemma_no_deadline(c, true, false, env);
    lemma_dismisses(c, true, is_tombstone(p.content), env);
    assert(p.tick_through_dismiss(true, reversal, env) == c) by {
        reveal(Pill::tick_through_dismiss);
    }
    lemma_shown_stays(p, true, reversal, env);
}

/// An expanded layout's pill that is still moving in is armed by the cursor
/// too, once; a compact one is not.
pub proof fn law_cursor_arms_an_entering_pill(p: Pill, reversal: Reversal, env: Env)
    requires
        p.fixed_layout(),
        p.phase is Expanding || p.phase is Light,
        p.content is Some,
        p.hover.expand is None,
        p.pending.len() == 0,
        p.dismiss_at is Some && p.dismiss_at->0 > env.now,
        env.now < u64::MAX,
    ensures
        ({
            let s = p.ticked(true, reversal, env);
            let soon = later(env.now, 500);
            let arms = p.config.overlay.dismiss_on_hover && p.place.layout == LayoutMode::Expanded && p.hover.dismiss_at
                is None;
            &&& arms ==> s.hover.dismiss_at == Some(env.now) && s.dismiss_at == Some(
                if p.dismiss_at->0 < soon {
                    p.dismiss_at->0
                } else {
                    soon
                },
            )
            &&& !arms ==> s.hover.dismiss_at == p.hover.dismiss_at && s.dismiss_at == p.dismiss_at
            &&& s.hover.expand is None && s.content == p.content
        }),
{
    lemma_stood(p, true, env);
    let c = p.stood(true, env);
    let soon = later(env.now, 500);
    let arms = p.config.overlay.dismiss_on_hover && p.place.layout == LayoutMode::Expanded && p.hover.dismiss_at
        is None;
    let h = if arms {
        Pill {
            dismiss_at: Some(
                if p.dismiss_at->0 < soon {
                    p.dismiss_at->0
                } else {
                    soon
                },
            ),
            hover: Hover { dismiss_at: Some(env.now), ..c.hover },
            ..c
        }
    } else {
        c
    };
    assert(c.tick_hover(true, true, reversal, env) == h) by {
        reveal(Pill::tick_hover);
        reveal(Pill::tick_settle);
    }
    lemma_no_deadline(h, true, false, env);
    lemma_dismisses(h, true, is_tombstone(p.content), env);
    assert(p.tick_through_dismiss(true, reversal, env) == h) by {
        reveal(Pill::tick_through_dismiss);
    }
    lemma_plain_tick(p, true, reversal, env);
    assert(h.tick_phase(env) == (Pill { phase: h.tick_phase(env).phase, ..h })) by {
        reveal(Pill::tick_phase);
    }
}

/// Once the cursor has been off an expanding or expanded pill for 60 ms, the
/// pill turns back from the shape and at the speed it has, or drops the morph
/// where it had hardly begun, and gets its full time again. Until then
/// nothing changes.
pub proof fn law_leaving_turns_the_expansion_back(p: Pill, m: HoverExpand, reversal: Reversal, env: Env)
    requires
        p.fixed_layout(),
        p.phase == Phase::Shown,
        p.content is Some,
        p.hover.expand == Some(m),
        m.direction == MorphDirection::Expand,
        p.pending.len() == 0,
        p.dismiss_at is Some,
        env.now < u64::MAX,
    ensures
        ({
            let s = p.ticked(false, reversal, env);
            let left_for_good = p.hover.leave_at is Some && since(p.hover.leave_at->0, env.now) >= 60;
            &&& left_for_good && reversal.from < 50_000 ==> s.hover.expand is None
            &&& left_for_good && reversal.from >= 50_000 ==> s.hover.expand == Some(
                HoverExpand {
                    start: env.now,
                    direction: MorphDirection::Collapse,
                    from: reversal.from,
                    velocity: reversal.velocity,
                    done: false,
                },
            )
            &&& left_for_good ==> s.dismiss_at == Some(later(env.now, full_duration(p.config)))
            &&& !left_for_good ==> s.hover.expand is Some && s.hover.expand->0 == (HoverExpand {
                done: s.hover.expand->0.done,
                ..m
            }) && s.dismiss_at == p.dismiss_at
            &&& p.hover.leave_at is None ==> s.hover.leave_at == Some(env.now)
            &&& p.hover.leave_at is Some ==> s.hover.leave_at == p.hover.leave_at
            &&& !s.hover.cursor_over
            &&& s.phase == Phase::Shown && s.content == p.content
        }),
{
    lemma_stood(p, false, env);
    let c = p.stood(false, env);
    let is_engaged = engaged(false, c.hover.leave_at, env.now);
    let h = c.tick_hover(false, is_engaged, reversal, env);
    assert(h == (Pill { hover: h.hover, dismiss_at: h.dismiss_at, ..c }) && h.hover.leave_at == c.hover.leave_at
        && h.hover.cursor_over == false && h.dismiss_at == (if is_engaged {
        c.dismiss_at
    } else {
        Some(later(env.now, full_duration(p.config)))
    }) && (is_engaged ==> h.hover.expand is Some && h.hover.expand->0 == HoverExpand {
        done: h.hover.expand->0.done,
        ..m
    }) && (!is_engaged ==> h.hover.expand == (if reversal.from < 50_000 {
        None
    } else {
        Some(
            HoverExpand {
                start: env.now,
                direction: MorphDirection::Collapse,
                from: reversal.from,
                velocity: reversal.velocity,
                done: false,
            },
        )
    }))) by {
        reveal(Pill::tick_hover);
        reveal(Pill::tick_settle);
        reveal(Pill::wanted_step);
        reveal(Pill::stepped);
    }
    lemma_no_deadline(h, false, is_engaged, env);
    assert(h.tick_dismiss(false, is_engaged, is_tombstone(p.content), env) == h) by {
        reveal(Pill::tick_dismiss);
    }
    assert(p.tick_through_dismiss(false, reversal, env) == h) by {
        reveal(Pill::tick_through_dismiss);
    }
    lemma_shown_stays(p, false, reversal, env);
}

/// Under the cursor an expansion runs its time and is then pinned: it stays as
/// it is, and from then on the pill counts as expanded in this showing. Every
/// tick of it re-asserts the window and asks for a frame.
pub proof fn law_expansion_under_the_cursor_is_pinned(p: Pill, m: HoverExpand, reversal: Reversal, env: Env)
    requires
        p.fixed_layout(),
        p.phase == Phase::Shown,
        p.content is Some,
        p.hover.expand == Some(m),
        m.direction == MorphDirection::Expand,
        env.animations,
        m.start <= env.now,
    ensures
        ({
            let s = p.ticked(true, reversal, env);
            let finished = env.now - m.start >= p.config.overlay.animation_ms;
            &&& finished ==> s.hover.expand == Some(HoverExpand { done: true, ..m })
            &&& !finished ==> s.hover.expand == Some(m)
            &&& s.hover.expanded_once == (p.hover.expanded_once || (finished && !m.done))
            &&& s.dismiss_at == p.dismiss_at && s.hover.dismiss_at == p.hover.dismiss_at
            &&& s.phase == Phase::Shown && s.content == p.content && s.pending == p.pending
            &&& s.effects.len() > p.effects.len() + 1
            &&& s.effects[p.effects.len() as int] == Effect::ReassertTopmost
            &&& s.effects[p.effects.len() as int + 1] == Effect::Render
        }),
{
    lemma_stood(p, true, env);
    let c = p.stood(true, env);
    let h = c.tick_hover(true, true, reversal, env);
    let finished = env.now - m.start >= p.config.overlay.animation_ms;
    assert(h == (Pill {
        hover: Hover {
            expand: Some(
                HoverExpand {
                    done: m.done || finished,
                    ..m
                },
            ),
            expanded_once: p.hover.expanded_once || (finished && !m.done),
            ..c.hover
        },
        ..c
    })) by {
        reveal(Pill::tick_hover);
        reveal(Pill::tick_settle);
        reveal(Pill::wanted_step);
        reveal(Pill::stepped);
    }
    lemma_no_deadline(h, true, true, env);
    assert(h.tick_dismiss(true, true, is_tombstone(p.content), env) == h) by {
        reveal(Pill::tick_dismiss);
    }
    assert(p.tick_through_dismiss(true, reversal, env) == h) by {
        reveal(Pill::tick_through_dismiss);
    }
    lemma_shown_stays(p, true, reversal, env);
}

/// A morph back to compact runs its time whatever the cursor does, and is gone
/// then; until then not even the deadline takes the pill away.
pub proof fn law_morph_back_to_compact_runs_out(p: Pill, m: HoverExpand, reversal: Reversal, env: Env)
    requires
        p.fixed_layout(),
        p.phase == Phase::Shown,
        p.content is Some,
        p.hover.expand == Some(m),
        m.direction == MorphDirection::Collapse,
        p.hover.leave_at is Some && since(p.hover.leave_at->0, env.now) >= 60,
        p.pending.len() == 0,
        env.animations,
        m.start <= env.now,
        p.dismiss_at is Some,
    ensures
        ({
            let s = p.ticked(false, reversal, env);
            let ms = p.config.overlay.animation_ms;
            &&& 5 * (env.now - m.start + 1) <= 4 * ms ==> s.hover.expand == Some(m) && s.phase == Phase::Shown
                && s.content == p.content && s.dismiss_at == p.dismiss_at
            &&& 5 * (env.now - m.start) >= 4 * ms && p.dismiss_at->0 > env.now ==> s.hover.expand is None && s.phase
                == Phase::Shown && s.content == p.content && s.dismiss_at == p.dismiss_at
        }),
{
    lemma_stood(p, false, env);
    let c = p.stood(false, env);
    let h = c.tick_hover(false, false, reversal, env);
    let over_now = since(m.start, env.now) >= exit_ms(p.config, true);
    assert(h == (if over_now {
        Pill { hover: Hover { expand: None, ..c.hover }, ..c }
    } else {
        c
    })) by {
        reveal(Pill::tick_hover);
        reveal(Pill::tick_settle);
        reveal(Pill::wanted_step);
        reveal(Pill::stepped);
    }
    lemma_no_deadline(h, false, false, env);
    if p.dismiss_at->0 > env.now || !over_now {
        assert(h.tick_dismiss(false, false, is_tombstone(p.content), env) == h) by {
            reveal(Pill::tick_dismiss);
        }
        assert(p.tick_through_dismiss(false, reversal, env) == h) by {
            reveal(Pill::tick_through_dismiss);
        }
        lemma_shown_stays(p, false, reversal, env);
    }
}

/// A waiting event leaves a notification that the cursor does not hold half a
/// second from each tick on, or less where its deadline is sooner.
pub proof fn law_waiting_event_leaves_half_a_second(p: Pill, reversal: Reversal, env: Env)
    requires
        p.fixed_layout(),
        p.phase == Phase::Shown,
        p.content is Some,
        p.hover.expand is None,
        p.hover.leave_at is Some && since(p.hover.leave_at->0, env.now) >= 60,
        p.pending.len() > 0,
        p.dismiss_at is Some && p.dismiss_at->0 > env.now,
        env.now < u64::MAX,
    ensures
        ({
            let s = p.ticked(false, reversal, env);
            let soon = later(env.now, 500);
            &&& p.dismiss_at->0 < soon ==> s.dismiss_at == p.dismiss_at
            &&& p.dismiss_at->0 >= soon ==> s.dismiss_at == Some(soon)
            &&& s.phase == Phase::Shown && s.content == p.content && s.pending == p.pending
        }),
{
    lemma_stood(p, false, env);
    let c = p.stood(false, env);
    lemma_nothing_hovers(c, false, reversal, env);
    let soon = later(env.now, 500);
    let h = Pill {
        dismiss_at: Some(
            if p.dismiss_at->0 < soon {
                p.dismiss_at->0
            } else {
                soon
            },
        ),
        ..c
    };
    assert(c.tick_deadline(false, false, env) == h) by {
        reveal(Pill::tick_deadline);
    }
    lemma_dismisses(h, false, is_tombstone(p.content), env);
    assert(p.tick_through_dismiss(false, reversal, env) == h) by {
        reveal(Pill::tick_through_dismiss);
    }
    lemma_shown_stays(p, false, reversal, env);
}

// ---- a persistent pill ----

impl Pill {
    /// Whether this is a persistent pill on screen that the foreground leaves
    /// alone.
    pub open spec fn persists_over(self, env: Env) -> bool {
        &&& self.config.overlay.layout == LayoutMode::PersistentCompact
        &&& !self.rest.collapse_on_dismiss
        &&& self.config.behavior.hide_for_auto_compact_sources ==> !self.hides_for(env)
        &&& !self.is_hidden()
        &&& self.pending.len() == 0
    }
}

proof fn lemma_persists(p: Pill, d: Pill, over: bool, reversal: Reversal, env: Env)
    requires
        p.persists_over(env),
        d.persists_over(env),
        d == p.tick_through_dismiss(over, reversal, env),
        !d.is_collapsing(),
    ensures
        ({
            let s = p.ticked(over, reversal, env);
            &&& s.phase == d.tick_phase(env).phase
            &&& s.content == d.content
            &&& s.dismiss_at == d.dismiss_at
            &&& s.hover == d.hover
            &&& s.pending == d.pending
            &&& s.rest.faded == d.rest.faded
            &&& d.phase == Phase::Shown ==> s.phase == Phase::Shown
        }),
{
    lemma_tick_goes_on(p, over, reversal, env);
    assert(d.tick_phase(env) == (Pill { phase: d.tick_phase(env).phase, ..d })) by {
        reveal(Pill::tick_phase);
    }
    assert(d.phase == Phase::Shown ==> d.tick_phase(env).phase == Phase::Shown) by {
        reveal(Pill::tick_phase);
    }
}

/// The cursor on a faded persistent pill brings it back to full opacity for
/// its full time.
pub proof fn law_cursor_brings_a_faded_pill_back(p: Pill, reversal: Reversal, env: Env)
    requires
        p.persists_over(env),
        p.phase == Phase::Shown,
        p.rest.faded,
    ensures
        ({
            let s = p.ticked(true, reversal, env);
            &&& !s.rest.faded
            &&& s.dismiss_at == Some(later(env.now, full_duration(p.config)))
            &&& s.phase == Phase::Shown && s.content == p.content
            &&& s.hover.cursor_over && s.hover.leave_at is None
        }),
{
    let a = p.tick_standing(env);
    lemma_tick_standing(p, env);
    let c = a.tick_cursor(true, env);
    let full = Some(later(env.now, full_duration(p.config)));
    assert(c == (Pill {
        hover: Hover { cursor_over: true, leave_at: None, ..a.hover },
        dismiss_at: full,
        rest: Rest { faded: false, ..a.rest },
        ..a
    })) by {
        reveal(Pill::tick_cursor);
    }
    let h = c.tick_hover(true, true, reversal, env);
    assert(h == (Pill { hover: h.hover, ..c }) && h.hover.leave_at is None && h.hover.cursor_over) by {
        reveal(Pill::tick_hover);
        reveal(Pill::tick_settle);
        reveal(Pill::wanted_step);
        reveal(Pill::stepped);
    }
    let held = c.hover.expand is Some;
    assert(h.tick_deadline(true, held, env) == h) by {
        reveal(Pill::tick_deadline);
    }
    assert(h.tick_dismiss(true, held, is_tombstone(p.content), env) == h) by {
        reveal(Pill::tick_dismiss);
        reveal(Pill::persistent_rest);
    }
    assert(p.tick_through_dismiss(true, reversal, env) == h) by {
        reveal(Pill::tick_through_dismiss);
    }
    lemma_persists(p, h, true, reversal, env);
}

/// The cursor leaving a persistent pill starts its full time anew, at full
/// opacity.
pub proof fn law_leaving_restarts_a_persistent_pill(p: Pill, reversal: Reversal, env: Env)
    requires
        p.persists_over(env),
        p.phase == Phase::Shown,
        p.hover.leave_at is None,
        env.now < u64::MAX,
    ensures
        ({
            let s = p.ticked(false, reversal, env);
            &&& s.hover.leave_at == Some(env.now)
            &&& s.dismiss_at == Some(later(env.now, full_duration(p.config)))
            &&& !s.rest.faded
            &&& s.phase == Phase::Shown && s.content == p.content
        }),
{
    let a = p.tick_standing(env);
    lemma_tick_standing(p, env);
    let c = a.tick_cursor(false, env);
    assert(c == (Pill { hover: Hover { cursor_over: false, leave_at: Some(env.now), ..a.hover }, ..a })) by {
        reveal(Pill::tick_cursor);
    }
    let h = c.tick_hover(false, true, reversal, env);
    assert(h == (Pill { hover: h.hover, dismiss_at: h.dismiss_at, ..c }) && h.hover.leave_at == Some(env.now)) by {
        reveal(Pill::tick_hover);
        reveal(Pill::tick_settle);
        reveal(Pill::wanted_step);
        reveal(Pill::stepped);
    }
    let held = c.hover.expand is Some;
    let t = Pill {
        dismiss_at: Some(later(env.now, full_duration(p.config))),
        rest: Rest { faded: false, ..h.rest },
        ..h
    };
    assert(h.tick_deadline(false, held, env) == t) by {
        reveal(Pill::tick_deadline);
    }
    assert(t.tick_dismiss(false, held, is_tombstone(p.content), env) == t) by {
        reveal(Pill::tick_dismiss);
        reveal(Pill::persistent_rest);
    }
    assert(p.tick_through_dismiss(false, reversal, env) == t) by {
        reveal(Pill::tick_through_dismiss);
    }
    lemma_persists(p, t, false, reversal, env);
}

/// A persistent pill that the cursor has left stays as it is until its
/// deadline. Without the idle fade it stays solid beyond it, where no playing
/// pin claims it and its source has not stopped.
pub proof fn law_persistent_pill_waits_for_its_deadline(p: Pill, reversal: Reversal, env: Env)
    requires
        p.persists_over(env),
        p.phase == Phase::Shown,
        p.hover.expand is None,
        p.hover.leave_at is Some && since(p.hover.leave_at->0, env.now) >= 60,
        p.dismiss_at is Some,
        p.dismiss_at->0 > env.now || (!p.config.overlay.fade_persistent_pill && p.config.behavior.pinned_source is None
            && !is_tombstone(p.content)),
    ensures
        ({
            let s = p.ticked(false, reversal, env);
            &&& s.content == p.content && s.phase == Phase::Shown
            &&& s.dismiss_at == p.dismiss_at
            &&& s.rest.faded == p.rest.faded
        }),
{
    lemma_stood(p, false, env);
    let c = p.stood(false, env);
    lemma_nothing_hovers(c, false, reversal, env);
    assert(c.tick_deadline(false, false, env) == c) by {
        reveal(Pill::tick_deadline);
    }
    assert(c.tick_dismiss(false, false, is_tombstone(p.content), env) == c) by {
        reveal(Pill::tick_dismiss);
        reveal(Pill::persistent_rest);
        reveal(Pill::pin_to_return_to);
    }
    assert(p.tick_through_dismiss(false, reversal, env) == c) by {
        reveal(Pill::tick_through_dismiss);
    }
    lemma_persists(p, c, false, reversal, env);
}

/// A resting persistent pill goes back to its pin: to the newest remembered
/// track of a playing source that matches it, unless the pill is on a matching
/// source already. Without a pin it goes nowhere.
pub proof fn law_pill_returns_to_its_pin(p: Pill)
    ensures
        p.config.behavior.pinned_source is None ==> p.pin_to_return_to() is None,
        p.config.behavior.pinned_source matches Some(pin) ==> {
            let on_pin = source_of_held(p.content) is Some && pin_matches(source_of_held(p.content)->0, pin@);
            &&& on_pin ==> p.pin_to_return_to() is None
            &&& !on_pin ==> p.pin_to_return_to() == pinned(p.track_cache, p.source_state, Some(pin@))
        },
{
    reveal(Pill::pin_to_return_to);
}

/// A stop that is announced for the pinned source gives way to the newest
/// other source that plays; one of any other source gives way to none.
pub proof fn law_stopped_pin_gives_way(p: Pill)
    ensures
        p.config.behavior.pinned_source is None ==> p.tombstone_successor() is None,
        p.config.behavior.pinned_source matches Some(pin) ==> {
            &&& source_of_held(p.content) matches Some(source) ==> {
                &&& pin_matches(source, pin@) ==> p.tombstone_successor() == successor(
                    p.track_cache,
                    p.source_state,
                    source,
                )
                &&& !pin_matches(source, pin@) ==> p.tombstone_successor() is None
            }
            &&& p.content is None ==> p.tombstone_successor() is None
        },
{
    reveal(Pill::tombstone_successor);
}

/// A persistent pill that shows the playing pin's track or a tombstone's
/// successor at its deadline presents it like any new track.
pub proof fn law_persistent_pill_presents_what_it_returns_to(p: Pill, track: TrackInfo, reversal: Reversal, env: Env)
    requires
        p.persists_over(env),
        p.phase == Phase::Shown,
        p.content is Some,
        p.hover.expand is None,
        p.hover.leave_at is Some && since(p.hover.leave_at->0, env.now) >= 60,
        p.dismiss_at is Some && p.dismiss_at->0 <= env.now,
        p.pin_to_return_to() == Some(track) || (p.pin_to_return_to() is None && is_tombstone(p.content)
            && p.tombstone_successor() == Some(track)),
    ensures
        ({
            let d = p.tick_through_dismiss(false, reversal, env);
            let s = p.ticked(false, reversal, env);
            &&& s.content == Some(MediaEvent::TrackChanged(track))
            &&& d.presents(MediaEvent::TrackChanged(track), env.now)
            &&& bar_follows(d.progress, track, env.now)
            &&& d.last_track == Some(track)
            &&& d.current_source == Some(track.source_app)
            &&& s.dismiss_at == Some(later(env.now, full_duration(p.config)))
            &&& !s.rest.faded
            &&& s.phase == Phase::Shown
        }),
{
    lemma_stood(p, false, env);
    let c = p.stood(false, env);
    lemma_nothing_hovers(c, false, reversal, env);
    assert(c.tick_deadline(false, false, env) == c) by {
        reveal(Pill::tick_deadline);
    }
    assert(c.pin_to_return_to() == p.pin_to_return_to()) by {
        reveal(Pill::pin_to_return_to);
    }
    assert(c.tombstone_successor() == p.tombstone_successor()) by {
        reveal(Pill::tombstone_successor);
    }
    let d = c.swapped_to(track, env);
    assert(c.tick_dismiss(false, false, is_tombstone(p.content), env) == d) by {
        reveal(Pill::tick_dismiss);
        reveal(Pill::persistent_rest);
    }
    assert(p.tick_through_dismiss(false, reversal, env) == d) by {
        reveal(Pill::tick_through_dismiss);
    }
    lemma_swapped(c, track, env);
    lemma_swap_stays_visible(c, track, env);
    assert(!d.rest.faded) by {
        reveal(Pill::swapped_to);
        lemma_adopted(c, track);
        law_refresh_keeps_the_pill_up(
            c.adopted(track),
            MediaEvent::TrackChanged(track),
            full_duration(p.config),
            env,
        );
    }
    lemma_persists(p, d, false, reversal, env);
}

/// A persistent pill whose exit is over is shown again at full opacity for its
/// full time, unless it announces a stop or is to hide.
pub proof fn law_persistent_pill_survives_its_exit(p: Pill, start: u64, reversal: Reversal, env: Env)
    requires
        p.persists_over(env),
        p.phase == Phase::Collapsing(start),
        p.content is Some,
        p.hover.expand is None,
        p.hover.leave_at is Some && p.hover.leave_at->0 < env.now,
        !is_tombstone(p.content),
        !env.animations || 5 * since(start, env.now) >= 4 * p.config.overlay.animation_ms,
    ensures
        ({
            let s = p.ticked(false, reversal, env);
            &&& s.phase == Phase::Shown && s.content == p.content
            &&& s.dismiss_at == Some(later(env.now, full_duration(p.config)))
            &&& !s.rest.faded
        }),
{
    lemma_stood(p, false, env);
    let c = p.stood(false, env);
    let is_engaged = engaged(false, c.hover.leave_at, env.now);
    assert(c.tick_hover(false, is_engaged, reversal, env) == c) by {
        reveal(Pill::tick_hover);
        reveal(Pill::tick_settle);
    }
    assert(c.tick_deadline(false, false, env) == c) by {
        reveal(Pill::tick_deadline);
    }
    assert(c.tick_dismiss(false, false, false, env) == c) by {
        reveal(Pill::tick_dismiss);
        reveal(Pill::persistent_rest);
    }
    assert(p.tick_through_dismiss(false, reversal, env) == c) by {
        reveal(Pill::tick_through_dismiss);
    }
    lemma_tick_goes_on(p, false, reversal, env);
    reveal(Pill::tick_phase);
}

/// A persistent pill that is to hide collapses at its deadline like a
/// notification, and is off the screen with its hold watched once the exit is
/// over.
pub proof fn law_pill_that_is_to_hide_collapses(p: Pill, reversal: Reversal, env: Env)
    requires
        p.enabled,
        p.config.overlay.layout == LayoutMode::PersistentCompact,
        p.config.behavior.hide_for_auto_compact_sources,
        p.rest.collapse_on_dismiss,
        p.held_content is Some,
        p.content is Some,
        p.hover.expand is None,
        p.hover.leave_at is Some && since(p.hover.leave_at->0, env.now) >= 60,
        p.pending.len() == 0,
        p.phase == Phase::Shown || p.phase is Collapsing,
        p.dismiss_at is Some && p.dismiss_at->0 <= env.now,
    ensures
        ({
            let d = p.tick_through_dismiss(false, reversal, env);
            let s = p.ticked(false, reversal, env);
            &&& p.phase == Phase::Shown ==> d.phase == Phase::Collapsing(env.now)
            &&& p.phase matches Phase::Collapsing(start) ==> (!env.animations || 5 * since(start, env.now) >= 4
                * p.config.overlay.animation_ms) ==> {
                &&& s.is_hidden() && s.content is None
                &&& s.held_content == p.held_content
                &&& s.rest.watchdog && s.timer.armed && s.timer.period == 1000
            }
        }),
{
    lemma_stood(p, false, env);
    let c = p.stood(false, env);
    lemma_nothing_hovers(c, false, reversal, env);
    assert(c.tick_deadline(false, false, env) == c) by {
        reveal(Pill::tick_deadline);
    }
    let d = if p.phase == Phase::Shown {
        Pill { phase: Phase::Collapsing(env.now), ..c }
    } else {
        c
    };
    assert(c.tick_dismiss(false, false, is_tombstone(p.content), env) == d) by {
        reveal(Pill::tick_dismiss);
    }
    assert(p.tick_through_dismiss(false, reversal, env) == d) by {
        reveal(Pill::tick_through_dismiss);
    }
    law_hidden_pill_is_watched_only_for_its_hold(d, env);
    reveal(Pill::ticked);
}

// ---- the foreground at a tick ----

/// A resting pill in the Auto layout looks at the foreground whenever it is
/// another window, and once a second: it is laid out for what it sees, and
/// drawn anew where that flips its layout. In between it keeps its layout.
pub proof fn law_auto_layout_follows_the_foreground_at_a_tick(p: Pill, reversal: Reversal, env: Env)
    requires
        p.config.overlay.layout == LayoutMode::Auto,
        p.phase == Phase::Shown,
        p.content is Some,
        p.hover.expand is None,
        p.look.fade is None,
        p.hover.leave_at is Some && since(p.hover.leave_at->0, env.now) >= 60,
        p.pending.len() == 0,
        p.dismiss_at is Some && p.dismiss_at->0 > env.now,
    ensures
        ({
            let s = p.ticked(false, reversal, env);
            let looks = p.fg.window != Some(env.foreground) || p.fg.geometry_check is None || since(
                p.fg.geometry_check->0,
                env.now,
            ) >= 1000;
            &&& looks ==> {
                &&& s.place == p.relaid(env).place
                &&& s.fg.window == Some(env.foreground)
                &&& s.fg.exe == p.relaid(env).fg.exe
                &&& s.fg.fullscreen == Some(env.fullscreen)
                &&& s.fg.geometry_check == Some(env.now)
            }
            &&& !looks ==> s.place == p.place && s.fg == p.fg
            &&& s.place.layout != p.place.layout ==> s.effects.contains(Effect::Render)
            &&& s.content == p.content && s.phase == p.phase && s.dismiss_at == p.dismiss_at
        }),
{
    lemma_stood(p, false, env);
    let c = p.stood(false, env);
    lemma_nothing_hovers(c, false, reversal, env);
    lemma_no_deadline(c, false, false, env);
    lemma_dismisses(c, false, is_tombstone(p.content), env);
    assert(p.tick_through_dismiss(false, reversal, env) == c) by {
        reveal(Pill::tick_through_dismiss);
    }
    assert(c.tick_phase(env) == c) by {
        reveal(Pill::tick_phase);
    }
    lemma_marquee(c, p.time_step(env.now), env);
    let m = c.tick_marquee(p.time_step(env.now), env);
    let moved = p.progress.tick_moves(is_playing(p.content), env.now, p.frame.w);
    let s = p.ticked(false, reversal, env);
    assert(s == m.tick_finish(false, scrolls(c.look.scroll), moved, env)) by {
        reveal(Pill::ticked);
    }
    let f = m.foreground_checked(false, env);
    let g = Pill { fg: Foreground { geometry_check: Some(env.now), ..m.fg }, ..m };
    assert(f == g.relaid(env) || f == m) by {
        reveal(Pill::foreground_checked);
    }
    reveal(Pill::foreground_checked);
    reveal(Pill::relaid);
    lemma_relaid(g, env);
    reveal(Pill::rendered);
    let u = if f.place.layout != m.place.layout || scrolls(c.look.scroll) || moved {
        f.rendered()
    } else {
        f
    };
    assert(s == u.synced(env)) by {
        reveal(Pill::tick_finish);
    }
    law_timer_keeps_the_displays_pace(u, env);
    if s.place.layout != p.place.layout {
        assert(u.effects.last() == Effect::Render);
        assert(s.effects[u.effects.len() - 1] == Effect::Render);
    }
}

/// While a pill in the Auto layout moves, morphs or dissolves, and in a fixed
/// layout always, a tick leaves the layout as it is.
pub proof fn law_moving_pill_keeps_its_layout(p: Pill, marquee: bool, bar_moved: bool, env: Env)
    requires
        p.config.overlay.layout != LayoutMode::PersistentCompact,
    ensures
        p.tick_finish(true, marquee, bar_moved, env).place == p.place,
        p.tick_finish(true, marquee, bar_moved, env).fg == p.fg,
        p.fixed_layout() ==> p.tick_finish(false, marquee, bar_moved, env).place == p.place,
{
    reveal(Pill::tick_finish);
    reveal(Pill::foreground_checked);
    lemma_rendered(p);
    law_timer_follows_the_motion(p, env);
    law_timer_follows_the_motion(p.rendered(), env);
}

/// A resting persistent pill with auto-hide looks at the foreground in the
/// same way, and hides as soon as a look finds it fullscreen, with its content
/// held.
pub proof fn law_persistent_pill_hides_for_fullscreen_at_a_tick(p: Pill, reversal: Reversal, env: Env)
    requires
        p.enabled,
        p.config.overlay.layout == LayoutMode::PersistentCompact,
        p.config.behavior.hide_for_auto_compact_sources,
        p.phase == Phase::Shown,
        p.content is Some,
        p.content->0 is TrackChanged || p.content->0 is PlaybackStateChanged,
        p.held_content is None,
        p.hover.expand is None,
        p.look.fade is None,
        !p.rest.collapse_on_dismiss,
        p.hover.leave_at is Some && since(p.hover.leave_at->0, env.now) >= 60,
        p.pending.len() == 0,
        p.dismiss_at is Some && p.dismiss_at->0 > env.now,
        env.fullscreen,
        p.fg.fullscreen != Some(true),
        p.fg.window != Some(env.foreground) || p.fg.geometry_check is None || since(
            p.fg.geometry_check->0,
            env.now,
        ) >= 1000,
    ensures
        p.ticked(false, reversal, env).is_hidden(),
        p.ticked(false, reversal, env).content is None,
        p.ticked(false, reversal, env).held_content == p.content,
        p.ticked(false, reversal, env).rest.watchdog,
        p.ticked(false, reversal, env).timer.armed && p.ticked(false, reversal, env).timer.period == 1000,
{
    lemma_stood(p, false, env);
    let c = p.stood(false, env);
    lemma_nothing_hovers(c, false, reversal, env);
    assert(c.tick_deadline(false, false, env) == c) by {
        reveal(Pill::tick_deadline);
    }
    assert(c.tick_dismiss(false, false, is_tombstone(p.content), env) == c) by {
        reveal(Pill::tick_dismiss);
        reveal(Pill::persistent_rest);
    }
    assert(p.tick_through_dismiss(false, reversal, env) == c) by {
        reveal(Pill::tick_through_dismiss);
    }
    assert(c.tick_phase(env) == c) by {
        reveal(Pill::tick_phase);
    }
    lemma_marquee(c, p.time_step(env.now), env);
    let m = c.tick_marquee(p.time_step(env.now), env);
    let moved = p.progress.tick_moves(is_playing(p.content), env.now, p.frame.w);
    let s = p.ticked(false, reversal, env);
    assert(s == m.tick_finish(false, scrolls(c.look.scroll), moved, env)) by {
        reveal(Pill::ticked);
    }
    let g = Pill { fg: Foreground { geometry_check: Some(env.now), ..m.fg }, ..m };
    let f = g.relaid(env);
    assert(m.foreground_checked(false, env) == f) by {
        reveal(Pill::foreground_checked);
    }
    lemma_relaid(g, env);
    law_auto_hide_follows_the_foreground(f, env);
    assert(s == f.foreground_changed(env)) by {
        reveal(Pill::tick_finish);
    }
}

// ---- the bar at a tick ----

/// At a tick the bar of a pill on screen moves on by the clock where the
/// content plays: from its anchor, a millisecond at a thousandth of the rate
/// being a microsecond. Where the content is paused or stopped it stands
/// still.
pub proof fn law_bar_moves_only_while_the_content_plays(p: Pill, env: Env)
    requires
        p.progress.playing,
        p.progress.anchor is Some && p.progress.rate_milli is Some,
    ensures
        ({
            let bar = p.tick_standing(env).progress;
            let a = p.progress.anchor->0;
            let at = a.position_us + since(a.at, env.now) * p.progress.rate_milli->0;
            let plays = match p.content {
                Some(MediaEvent::TrackChanged(t)) => t.playback_state is None || t.playback_state == Some(
                    PlaybackState::Playing,
                ),
                Some(MediaEvent::PlaybackStateChanged(state, _)) => state == PlaybackState::Playing,
                _ => false,
            };
            &&& plays && since(a.at, env.now) <= i64::MAX && 0 <= at <= i64::MAX ==> bar.estimated_us == Some(at as i64)
            &&& !plays ==> bar.estimated_us == p.progress.estimated_us
            &&& bar.playing == plays
            &&& bar.anchor == p.progress.anchor
        }),
{
    reveal(Pill::tick_standing);
}

/// The cursor on a persistent pill keeps it as it is past its deadline: it
/// neither fades nor goes back to a pin nor collapses. The hover never arms
/// its dismissal, and expands it as often as the cursor returns.
pub proof fn law_cursor_keeps_a_persistent_pill(p: Pill, reversal: Reversal, env: Env)
    requires
        p.persists_over(env),
        p.phase == Phase::Shown,
        !p.rest.faded,
        p.hover.expand is None,
        p.place.layout == LayoutMode::Compact,
    ensures
        ({
            let s = p.ticked(true, reversal, env);
            &&& s.content == p.content && s.phase == Phase::Shown && !s.rest.faded
            &&& s.hover.dismiss_at == p.hover.dismiss_at
            &&& p.config.overlay.expand_compact_on_hover ==> {
                &&& s.hover.expand is Some && s.hover.expand->0.direction == MorphDirection::Expand
                &&& s.hover.expand->0.start == env.now
                &&& s.dismiss_at == Some(later(env.now, full_duration(p.config)))
            }
            &&& !p.config.overlay.expand_compact_on_hover ==> s.hover.expand is None && s.dismiss_at == p.dismiss_at
        }),
{
    lemma_stood(p, true, env);
    let c = p.stood(true, env);
    let h = c.tick_hover(true, true, reversal, env);
    assert(h == (Pill { hover: h.hover, dismiss_at: h.dismiss_at, ..c }) && h.hover.dismiss_at
        == p.hover.dismiss_at && (p.config.overlay.expand_compact_on_hover ==> h.hover.expand is Some
        && h.hover.expand->0.direction == MorphDirection::Expand && h.hover.expand->0.start == env.now
        && h.dismiss_at == Some(later(env.now, full_duration(p.config)))) && (
    !p.config.overlay.expand_compact_on_hover ==> h == c)) by {
        reveal(Pill::tick_hover);
        reveal(Pill::tick_settle);
        reveal(Pill::wanted_step);
        reveal(Pill::stepped);
    }
    assert(h.hover.leave_at is None) by {
        reveal(Pill::tick_hover);
        reveal(Pill::tick_settle);
        reveal(Pill::wanted_step);
        reveal(Pill::stepped);
    }
    assert(h.tick_deadline(true, false, env) == h) by {
        reveal(Pill::tick_deadline);
    }
    assert(h.tick_dismiss(true, false, is_tombstone(p.content), env) == h) by {
        reveal(Pill::tick_dismiss);
        reveal(Pill::persistent_rest);
    }
    assert(p.tick_through_dismiss(true, reversal, env) == h) by {
        reveal(Pill::tick_through_dismiss);
    }
    lemma_persists(p, h, true, reversal, env);
}

/// A persistent pill that announced a stop is off the screen once its exit is
/// over.
pub proof fn law_announced_stop_leaves_the_screen(p: Pill, start: u64, reversal: Reversal, env: Env)
    requires
        p.persists_over(env),
        p.phase == Phase::Collapsing(start),
        is_tombstone(p.content),
        p.hover.expand is None,
        p.hover.leave_at is Some && p.hover.leave_at->0 < env.now,
        !env.animations || 5 * since(start, env.now) >= 4 * p.config.overlay.animation_ms,
    ensures
        p.ticked(false, reversal, env).is_hidden(),
        p.ticked(false, reversal, env).content is None,
        p.ticked(false, reversal, env).held_content == p.held_content,
{
    lemma_stood(p, false, env);
    let c = p.stood(false, env);
    let is_engaged = engaged(false, c.hover.leave_at, env.now);
    assert(c.tick_hover(false, is_engaged, reversal, env) == c) by {
        reveal(Pill::tick_hover);
        reveal(Pill::tick_settle);
    }
    assert(c.tick_deadline(false, false, env) == c) by {
        reveal(Pill::tick_deadline);
    }
    assert(c.tick_dismiss(false, false, true, env) == c) by {
        reveal(Pill::tick_dismiss);
        reveal(Pill::persistent_rest);
    }
    assert(p.tick_through_dismiss(false, reversal, env) == c) by {
        reveal(Pill::tick_through_dismiss);
    }
    law_hidden_pill_is_watched_only_for_its_hold(c, env);
    reveal(Pill::ticked);
}

/// A persistent pill without auto-hide is drawn at every tick while it fades
/// to idle opacity, at the display's pace, and left alone once it rests there.
pub proof fn law_fading_pill_is_drawn_at_every_tick(p: Pill, reversal: Reversal, env: Env)
    requires
        p.persists_over(env),
        !p.config.behavior.hide_for_auto_compact_sources,
        p.config.overlay.fade_persistent_pill,
        p.config.behavior.pinned_source is None,
        p.phase == Phase::Shown,
        p.content is Some && !is_tombstone(p.content),
        p.rest.faded,
        p.hover.expand is None,
        p.look.fade is None,
        !p.any_line_scrolls(),
        p.hover.leave_at is Some && since(p.hover.leave_at->0, env.now) >= 60,
        p.dismiss_at is Some,
        !p.progress.tick_moves(is_playing(p.content), env.now, p.frame.w),
    ensures
        ({
            let s = p.ticked(false, reversal, env);
            let fades = since(p.dismiss_at->0, env.now) < 300;
            let drawn = s.effects.skip(p.effects.len() as int).contains(Effect::Render);
            &&& fades ==> drawn && s.timer.period == moving_period(p.display_period(env), p.config)
            &&& !fades ==> !drawn && s.timer.period == 250
            &&& s.rest.faded && s.content == p.content && s.dismiss_at == p.dismiss_at
        }),
{
    lemma_stood(p, false, env);
    let c = p.stood(false, env);
    lemma_nothing_hovers(c, false, reversal, env);
    assert(c.tick_deadline(false, false, env) == c) by {
        reveal(Pill::tick_deadline);
    }
    assert(c.tick_dismiss(false, false, is_tombstone(p.content), env) == c) by {
        reveal(Pill::tick_dismiss);
        reveal(Pill::persistent_rest);
        reveal(Pill::pin_to_return_to);
    }
    assert(p.tick_through_dismiss(false, reversal, env) == c) by {
        reveal(Pill::tick_through_dismiss);
    }
    assert(c.tick_phase(env) == c) by {
        reveal(Pill::tick_phase);
    }
    lemma_marquee(c, p.time_step(env.now), env);
    let m = c.tick_marquee(p.time_step(env.now), env);
    let s = p.ticked(false, reversal, env);
    assert(s == m.tick_finish(false, false, false, env)) by {
        reveal(Pill::ticked);
    }
    let u = if m.fade_running(env.now) {
        m.rendered()
    } else {
        m
    };
    assert(s == u.synced(env)) by {
        reveal(Pill::tick_finish);
        reveal(Pill::foreground_checked);
    }
    reveal(Pill::rendered);
    law_timer_keeps_the_displays_pace(u, env);
    law_timer_keeps_pace_with_the_idle_fade(u, env);
    let n = p.effects.len() as int;
    let added = s.effects.skip(n);
    if m.fade_running(env.now) {
        assert(s.effects[u.effects.len() - 1] == Effect::Render);
        assert(added[u.effects.len() - 1 - n] == Effect::Render);
    } else {
        assert forall|k: int| 0 <= k < added.len() implies #[trigger] added[k] != Effect::Render by {
            assert(added[k] == s.effects[n + k]);
            if n + k < m.effects.len() {
                assert(m.effects[n + k] == Effect::ReassertTopmost);
            } else {
                assert(s.effects[n + k] == m.retimed(s.timer.period)[n + k - m.effects.len()]);
            }
        }
    }
}

/// At a tick, a persistent pill over a foreground that was fullscreen before
/// or was not stays on screen: only a change of the fullscreen state hides it
/// there, also over a listed foreground.
pub proof fn law_tick_hides_only_for_a_fullscreen_change(p: Pill, reversal: Reversal, env: Env)
    requires
        p.config.overlay.layout == LayoutMode::PersistentCompact,
        p.phase == Phase::Shown,
        p.content is Some,
        p.hover.expand is None,
        p.hover.leave_at is Some && since(p.hover.leave_at->0, env.now) >= 60,
        p.pending.len() == 0,
        p.dismiss_at is Some && p.dismiss_at->0 > env.now,
        p.fg.fullscreen == Some(env.fullscreen),
    ensures
        ({
            let s = p.ticked(false, reversal, env);
            &&& s.content == p.content && s.phase == p.phase && s.held_content == p.held_content
            &&& s.rest == p.rest && s.dismiss_at == p.dismiss_at
        }),
{
    lemma_stood(p, false, env);
    let c = p.stood(false, env);
    lemma_nothing_hovers(c, false, reversal, env);
    assert(c.tick_deadline(false, false, env) == c) by {
        reveal(Pill::tick_deadline);
    }
    assert(c.tick_dismiss(false, false, is_tombstone(p.content), env) == c) by {
        reveal(Pill::tick_dismiss);
        reveal(Pill::persistent_rest);
    }
    assert(p.tick_through_dismiss(false, reversal, env) == c) by {
        reveal(Pill::tick_through_dismiss);
    }
    assert(c.tick_phase(env) == c) by {
        reveal(Pill::tick_phase);
    }
    lemma_marquee(c, p.time_step(env.now), env);
    let m = c.tick_marquee(p.time_step(env.now), env);
    let moved = p.progress.tick_moves(is_playing(p.content), env.now, p.frame.w);
    let s = p.ticked(false, reversal, env);
    assert(s == m.tick_finish(p.animating(), scrolls(c.look.scroll), moved, env)) by {
        reveal(Pill::ticked);
    }
    let g = Pill { fg: Foreground { geometry_check: Some(env.now), ..m.fg }, ..m };
    lemma_relaid(g, env);
    let f = m.foreground_checked(p.animating(), env);
    assert(f == g.relaid(env) || f == m) by {
        reveal(Pill::foreground_checked);
    }
    assert(s == f.synced(env) || s == f.rendered().synced(env)) by {
        reveal(Pill::tick_finish);
    }
    lemma_rendered(f);
    law_timer_follows_the_motion(f, env);
    law_timer_follows_the_motion(f.rendered(), env);
}

} // verus!
