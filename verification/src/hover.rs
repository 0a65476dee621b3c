//! Hover decisions: what the cursor does to a shown pill.
use crate::config::{animation_duration_with, collapse_duration_with, elapsed, entrance_ms, exit_ms, since, Config};
use vstd::prelude::*;

verus! {

/// How long a cursor leave is ignored before it counts.
pub const LEAVE_DEBOUNCE_MS: u64 = 60;

/// A reversal from less progress than this, in millionths, drops the morph.
pub const REVERSAL_MIN_PROGRESS: i64 = 50_000;

/// The direction of a morph leg.
#[derive(Clone, Copy, Debug, PartialEq, Eq, Structural)]
pub enum MorphDirection {
    Expand,
    Collapse,
}

/// The hover morph of a compact pill, in flight or pinned.
#[derive(Clone, Copy, Debug, PartialEq, Eq, Structural)]
pub struct HoverExpand {
    pub start: u64,
    pub direction: MorphDirection,
    /// The progress the leg started from, in millionths.
    pub from: i64,
    /// The velocity the leg started with, in millionths per leg.
    pub velocity: i64,
    /// Whether an expand leg has finished: the pill stays expanded.
    pub done: bool,
}

/// The cursor and morph state at one tick.
#[derive(Clone, Copy, Debug, PartialEq, Eq, Structural)]
pub struct HoverTick {
    pub cursor_over: bool,
    pub morphing: bool,
    pub morph_expanding: bool,
    pub dismiss_armed: bool,
}

/// What a tick does about the cursor.
#[derive(Clone, Copy, Debug, PartialEq, Eq, Structural)]
pub enum HoverStep {
    Nothing,
    StartExpand,
    ArmDismiss,
    ReverseMorph,
}

/// Whether the cursor counts as on the pill: it is, or it left less than the
/// debounce window ago.
pub open spec fn engaged(cursor_over: bool, leave_at: Option<u64>, now: u64) -> bool {
    cursor_over || (leave_at matches Some(t) && since(t, now) < LEAVE_DEBOUNCE_MS)
}

/// Whether the cursor counts as on the pill.
pub fn hover_engaged(cursor_over: bool, leave_at: Option<u64>, now: u64) -> (r: bool)
    ensures
        r == engaged(cursor_over, leave_at, now),
{
    if cursor_over {
        return true;
    }
    match leave_at {
        Some(t) => elapsed(t, now) < LEAVE_DEBOUNCE_MS,
        None => false,
    }
}

/// Whether a hover over a resting pill expands it: a compact pill expands
/// while that is enabled, but with dismiss-on-hover only once per showing.
pub open spec fn hover_expands(
    dismiss_on_hover: bool,
    expand_on_hover: bool,
    expanded_once: bool,
    layout_expanded: bool,
) -> bool {
    !layout_expanded && expand_on_hover && !(dismiss_on_hover && expanded_once)
}

/// What the cursor does to a shown pill. A morph is an interaction: it is
/// reversed by leaving its expand leg and by nothing else. A resting pill
/// under the cursor expands, or arms the dismissal once while that is
/// enabled.
pub open spec fn step(
    tick: HoverTick,
    dismiss_on_hover: bool,
    expand_on_hover: bool,
    expanded_once: bool,
    layout_expanded: bool,
) -> HoverStep {
    if tick.morphing {
        if tick.morph_expanding && !tick.cursor_over {
            HoverStep::ReverseMorph
        } else {
            HoverStep::Nothing
        }
    } else if !tick.cursor_over {
        HoverStep::Nothing
    } else if hover_expands(dismiss_on_hover, expand_on_hover, expanded_once, layout_expanded) {
        HoverStep::StartExpand
    } else if dismiss_on_hover && !tick.dismiss_armed {
        HoverStep::ArmDismiss
    } else {
        HoverStep::Nothing
    }
}

/// What the cursor does to a shown pill at one tick.
pub fn hover_step(
    tick: HoverTick,
    dismiss_on_hover: bool,
    expand_on_hover: bool,
    expanded_once: bool,
    layout_expanded: bool,
) -> (r: HoverStep)
    ensures
        r == step(tick, dismiss_on_hover, expand_on_hover, expanded_once, layout_expanded),
{
    if tick.morphing {
        return if tick.morph_expanding && !tick.cursor_over {
            HoverStep::ReverseMorph
        } else {
            HoverStep::Nothing
        };
    }
    if !tick.cursor_over {
        return HoverStep::Nothing;
    }
    if !layout_expanded && expand_on_hover && !(dismiss_on_hover && expanded_once) {
        HoverStep::StartExpand
    } else if dismiss_on_hover && !tick.dismiss_armed {
        HoverStep::ArmDismiss
    } else {
        HoverStep::Nothing
    }
}

/// A morph under the cursor is never armed, restarted or reversed.
pub proof fn law_morph_under_the_cursor_is_left_alone(
    tick: HoverTick,
    dismiss_on_hover: bool,
    expand_on_hover: bool,
    expanded_once: bool,
    layout_expanded: bool,
)
    requires
        tick.morphing,
        tick.cursor_over,
    ensures
        step(tick, dismiss_on_hover, expand_on_hover, expanded_once, layout_expanded) == HoverStep::Nothing,
{
}

/// Without dismiss-on-hover no hover ever arms a dismissal.
pub proof fn law_dismissal_needs_its_setting(
    tick: HoverTick,
    expand_on_hover: bool,
    expanded_once: bool,
    layout_expanded: bool,
)
    ensures
        step(tick, false, expand_on_hover, expanded_once, layout_expanded) != HoverStep::ArmDismiss,
{
}

/// With both settings on, the first hover over a compact pill expands it and
/// a hover after that expansion dismisses it.
pub proof fn law_second_hover_dismisses(tick: HoverTick)
    requires
        tick.cursor_over,
        !tick.morphing,
        !tick.dismiss_armed,
    ensures
        step(tick, true, true, false, false) == HoverStep::StartExpand,
        step(tick, true, true, true, false) == HoverStep::ArmDismiss,
{
}

/// The length of a morph leg, in milliseconds.
pub open spec fn leg_ms(config: Config, direction: MorphDirection, animations: bool) -> u64 {
    match direction {
        MorphDirection::Expand => entrance_ms(config, animations),
        MorphDirection::Collapse => exit_ms(config, animations),
    }
}

/// The length of a morph leg: the entrance's for an expand, the shorter
/// exit's for a collapse.
pub fn morph_duration(config: &Config, direction: MorphDirection, animations: bool) -> (r: u64)
    ensures
        r == leg_ms(*config, direction, animations),
{
    match direction {
        MorphDirection::Expand => animation_duration_with(config, animations),
        MorphDirection::Collapse => collapse_duration_with(config, animations),
    }
}

/// A collapse leg is never longer than an expand leg, and shorter whenever
/// there is any motion.
pub proof fn law_collapse_is_the_shorter_leg(config: Config, animations: bool)
    ensures
        leg_ms(config, MorphDirection::Collapse, animations) <= leg_ms(config, MorphDirection::Expand, animations),
        leg_ms(config, MorphDirection::Expand, animations) > 0 ==> leg_ms(config, MorphDirection::Collapse, animations)
            < leg_ms(config, MorphDirection::Expand, animations),
{
}

/// Whether a morph leg has run its length.
pub open spec fn leg_over(m: HoverExpand, config: Config, animations: bool, now: u64) -> bool {
    since(m.start, now) >= leg_ms(config, m.direction, animations)
}

/// The morph at the start of a tick: a finished expand leg is pinned, a
/// finished collapse leg is gone.
pub open spec fn settled(m: Option<HoverExpand>, config: Config, animations: bool, now: u64) -> Option<HoverExpand> {
    match m {
        Some(h) => if leg_over(h, config, animations, now) {
            match h.direction {
                MorphDirection::Expand => Some(HoverExpand { done: true, ..h }),
                MorphDirection::Collapse => None,
            }
        } else {
            Some(h)
        },
        None => None,
    }
}

/// Whether this tick finishes an expand leg.
pub open spec fn expand_finishes(m: Option<HoverExpand>, config: Config, animations: bool, now: u64) -> bool {
    m matches Some(h) && leg_over(h, config, animations, now) && h.direction == MorphDirection::Expand && !h.done
}

/// Settles a morph leg that has run its length. Answers whether an expand
/// leg finished just now.
pub fn settle_morph(m: &mut Option<HoverExpand>, config: &Config, animations: bool, now: u64) -> (finished: bool)
    ensures
        *final(m) == settled(*old(m), *config, animations, now),
        finished == expand_finishes(*old(m), *config, animations, now),
{
    let h: HoverExpand = match m {
        Some(h) => *h,
        None => {
            return false;
        },
    };
    if elapsed(h.start, now) < morph_duration(config, h.direction, animations) {
        return false;
    }
    match h.direction {
        MorphDirection::Expand => {
            *m = Some(HoverExpand { done: true, ..h });
            !h.done
        },
        MorphDirection::Collapse => {
            *m = None;
            false
        },
    }
}

/// A cursor that left counts as on the pill for sixty milliseconds and no
/// longer; one that never was there does not count.
pub proof fn law_leaving_counts_after_sixty_milliseconds(left_at: u64, now: u64)
    ensures
        engaged(true, None, now),
        engaged(true, Some(left_at), now),
        !engaged(false, None, now),
        now < left_at + 60 ==> engaged(false, Some(left_at), now),
        now >= left_at + 60 ==> !engaged(false, Some(left_at), now),
{
}

/// The cursor expands a resting compact pill exactly while that is enabled,
/// and with dismiss-on-hover only the first time. It dismisses exactly where
/// it does not expand, dismissing is enabled, and it has not done so already.
/// An expanded layout never expands further. Off the pill it does nothing to a
/// resting one.
pub proof fn law_cursor_on_a_resting_pill(
    tick: HoverTick,
    dismiss_on_hover: bool,
    expand_on_hover: bool,
    expanded_once: bool,
    layout_expanded: bool,
)
    requires
        !tick.morphing,
    ensures
        ({
            let s = step(tick, dismiss_on_hover, expand_on_hover, expanded_once, layout_expanded);
            &&& !tick.cursor_over ==> s == HoverStep::Nothing
            &&& layout_expanded ==> s != HoverStep::StartExpand
            &&& !expand_on_hover ==> s != HoverStep::StartExpand
            &&& tick.cursor_over && !layout_expanded && expand_on_hover && !expanded_once ==> s
                == HoverStep::StartExpand
            &&& tick.cursor_over && !layout_expanded && expand_on_hover && !dismiss_on_hover ==> s
                == HoverStep::StartExpand
            &&& dismiss_on_hover && expanded_once ==> s != HoverStep::StartExpand
            &&& tick.dismiss_armed || !dismiss_on_hover ==> s != HoverStep::ArmDismiss
            &&& tick.cursor_over && dismiss_on_hover && !tick.dismiss_armed ==> s == HoverStep::StartExpand || s
                == HoverStep::ArmDismiss
            &&& tick.cursor_over && dismiss_on_hover && !tick.dismiss_armed && (layout_expanded || !expand_on_hover)
                ==> s == HoverStep::ArmDismiss
            &&& s != HoverStep::ReverseMorph
        }),
{
}

/// Leaving a pill on its expand leg reverses the morph; its collapse leg runs
/// on.
pub proof fn law_leaving_reverses_only_an_expand_leg(
    tick: HoverTick,
    dismiss_on_hover: bool,
    expand_on_hover: bool,
    expanded_once: bool,
    layout_expanded: bool,
)
    requires
        tick.morphing,
        !tick.cursor_over,
    ensures
        tick.morph_expanding ==> step(tick, dismiss_on_hover, expand_on_hover, expanded_once, layout_expanded)
            == HoverStep::ReverseMorph,
        !tick.morph_expanding ==> step(tick, dismiss_on_hover, expand_on_hover, expanded_once, layout_expanded)
            == HoverStep::Nothing,
{
}

/// A morph leg runs for its own time: until then it stays as it is, then an
/// expand leg is pinned where it is and a collapse leg is gone. An expand leg
/// finishes once.
pub proof fn law_morph_leg_runs_its_time(m: HoverExpand, config: Config, now: u64)
    requires
        m.start <= now,
    ensures
        ({
            let s = settled(Some(m), config, true, now);
            let expands = m.direction == MorphDirection::Expand;
            let ms = config.overlay.animation_ms;
            &&& expands && now < m.start + ms ==> s == Some(m)
            &&& expands && now >= m.start + ms ==> s == Some(HoverExpand { done: true, ..m })
            &&& !expands && 5 * (now - m.start + 1) <= 4 * ms ==> s == Some(m)
            &&& !expands && 5 * (now - m.start) >= 4 * ms ==> s is None
            &&& expand_finishes(Some(m), config, true, now) <==> expands && !m.done && now >= m.start + ms
        }),
        settled(Some(m), config, false, now) == (match m.direction {
            MorphDirection::Expand => Some(HoverExpand { done: true, ..m }),
            MorphDirection::Collapse => None,
        }),
        settled(None, config, true, now) is None,
        !expand_finishes(None, config, true, now),
{
}

} // verus!
