//! What one frame of the pill looks like: its opacity, shape, size and place.
//! Spring values come in from the caller; everything else is decided here.
use crate::config::{
    animation_duration_with, collapse_duration_with, elapsed, entrance_ms, exit_ms, since, Color, LayoutMode,
};
use crate::events::{artwork_same, same_art, share, Palette};
use crate::fullscreen::{
    clamped, effective_position_rect, placed_x, placed_y, placement, scale_px, scaled, to_i32, Point,
};
use crate::geometry::{
    between, bounce, bounce_scale, compact_extent, content_size_of, cursor_over_pill, expanded_size,
    law_bounce_is_even_and_bounded, law_morph_axes_are_independent, law_morph_never_overshoots, layout_size,
    lemma_quint_doubles, morph_size, morphed_size, pixels, quint, quint_of, to_pixels, MorphProgress, Size, ONE,
};
use crate::hover::MorphDirection;
use crate::needs_font_rebuild;
use crate::overlay::OverlayState;
use crate::pill::{Env, Frame, LineScroll, Look, Marquee, Phase, Pill, CONTENT_FADE_MS, FADE_MS, LIGHT_MS};
use crate::progress::{bar_fraction, bar_pixel_w, bar_pixels, lemma_bar_fits};
use std::sync::Arc;
use vstd::prelude::*;

verus! {

/// A solid pill's opacity.
pub const SOLID: u8 = 255;

/// The opacity of a pill at idle, and of the first frame of a light reveal.
pub const IDLE_ALPHA: u8 = 64;

/// The way from idle to solid.
pub const IDLE_TO_SOLID: u64 = 191;

/// The width of the aura ring around the pill body, in logical pixels.
pub const AURA_HALO: i32 = 6;

/// One animation frame: the window's opacity, and the shape progress of an
/// entrance or exit.
#[derive(Clone, Copy, Debug, PartialEq, Eq, Structural)]
pub struct FrameState {
    pub alpha: u8,
    /// `None` at the plain layout size, and always for a compact pill.
    pub morph: Option<MorphProgress>,
}

/// What the renderer is to draw.
#[derive(Clone, Copy, Debug, PartialEq, Eq, Structural)]
pub struct FramePlan {
    /// The pill body's size in physical pixels.
    pub width: i32,
    pub height: i32,
    pub dpi: u32,
    pub alpha: u8,
    /// The window's top-left.
    pub position: Point,
    /// Whether the compact row is drawn; a morphing pill never draws it alone.
    pub compact: bool,
    pub morph: Option<MorphProgress>,
    /// The settle-bounce scale in millionths.
    pub scale: i64,
    /// Physical pixels from the window edge to the pill body.
    pub inset: i32,
}

/// How far a leg of `duration` ms has come, in millionths.
pub open spec fn leg_part(start: u64, duration: u64, now: u64) -> int {
    if duration == 0 || since(start, now) >= duration {
        ONE as int
    } else {
        since(start, now) * ONE / (duration as int)
    }
}

/// How far a leg of `duration` ms has come. A leg without length is over at
/// once.
pub fn normalized_elapsed(start: u64, duration: u64, now: u64) -> (r: i64)
    ensures
        r == leg_part(start, duration, now),
        0 <= r <= ONE,
{
    let e: u64 = elapsed(start, now);
    if duration == 0 || e >= duration {
        return ONE;
    }
    assert(0 <= e * 1_000_000 / (duration as int) <= 1_000_000) by (nonlinear_arith)
        requires
            0 <= e < duration,
    ;
    ((e as u128) * 1_000_000 / (duration as u128)) as i64
}

/// The part `t` of a leg stretched so that `num / den` of it fills the whole.
pub open spec fn stretched(t: int, num: int, den: int) -> int {
    clamped(t * den / num, 0, ONE as int)
}

/// `top` eased out: what a quintic ease-out makes of `t`, in whole steps.
pub open spec fn eased_steps(t: int, top: int) -> int {
    (quint(ONE as int) - quint(ONE - t)) * top / quint(ONE as int)
}

/// `top` less a cubic fade, in whole steps.
pub open spec fn cubic_rest(t: int, top: int) -> int {
    (ONE * ONE * ONE - t * t * t) * top / (ONE * ONE * ONE)
}

/// The idle-fade ramp: from solid to idle over its length.
pub open spec fn faded_alpha(at: u64, now: u64, animations: bool) -> int {
    if !animations || since(at, now) >= FADE_MS {
        IDLE_ALPHA as int
    } else {
        SOLID - (IDLE_TO_SOLID * since(at, now) + FADE_MS - 1) / (FADE_MS as int)
    }
}

impl Pill {
    /// The window's opacity. An entrance is solid after 15 % of its leg; an
    /// exit fades over the first 75 % of its leg on a cubic; a light reveal
    /// goes from idle to solid; a resting persistent pill fades to idle.
    pub open spec fn alpha(self, env: Env) -> int {
        match self.phase {
            Phase::Hidden => 0,
            Phase::Expanding(start) => eased_steps(
                stretched(leg_part(start, entrance_ms(self.config, env.animations), env.now), 3, 20),
                SOLID as int,
            ),
            Phase::Light(start) => if env.animations {
                IDLE_ALPHA + eased_steps(leg_part(start, LIGHT_MS, env.now), IDLE_TO_SOLID as int)
            } else {
                SOLID as int
            },
            Phase::Shown => if self.persistent() && self.rest.faded {
                faded_alpha(
                    match self.dismiss_at {
                        Some(d) => d,
                        None => env.now,
                    },
                    env.now,
                    env.animations,
                )
            } else {
                SOLID as int
            },
            Phase::Collapsing(start) => cubic_rest(
                stretched(leg_part(start, exit_ms(self.config, env.animations), env.now), 3, 4),
                SOLID as int,
            ),
        }
    }

    /// The shape progress of an entrance or exit: the spring's, and nothing
    /// for a compact pill.
    pub open spec fn grow(self, springs: MorphProgress) -> Option<MorphProgress> {
        match self.phase {
            Phase::Expanding(_) | Phase::Collapsing(_) => if self.compact() {
                None
            } else {
                Some(springs)
            },
            _ => None,
        }
    }

    /// The shape progress that sizes and draws the pill: the hover morph's
    /// where there is one, else the entrance's or exit's.
    pub open spec fn shape(self, springs: MorphProgress) -> Option<MorphProgress> {
        if self.hover.expand is Some {
            Some(springs)
        } else {
            self.grow(springs)
        }
    }

    /// The direction of the leg that moves the shape.
    pub open spec fn leg_direction(self) -> MorphDirection {
        match self.hover.expand {
            Some(m) => m.direction,
            None => if self.is_collapsing() {
                MorphDirection::Collapse
            } else {
                MorphDirection::Expand
            },
        }
    }

    /// The settle-bounce scale.
    pub open spec fn bounce(self, springs: MorphProgress) -> int {
        match self.shape(springs) {
            Some(m) => bounce(m.width, self.leg_direction()),
            None => ONE as int,
        }
    }

    /// The logical size before the bounce.
    pub open spec fn logical_size(self, springs: MorphProgress) -> Size {
        match self.shape(springs) {
            Some(m) => morphed_size(self.config, m),
            None => layout_size(self.config, self.compact()),
        }
    }

    /// The pill body's width in physical pixels.
    pub open spec fn body_width(self, springs: MorphProgress, dpi: u32) -> int {
        clamped(pixels(self.logical_size(springs).w, self.bounce(springs) as i64, dpi), 1, i32::MAX as int)
    }

    /// The pill body's height in physical pixels.
    pub open spec fn body_height(self, springs: MorphProgress, dpi: u32) -> int {
        clamped(pixels(self.logical_size(springs).h, self.bounce(springs) as i64, dpi), 1, i32::MAX as int)
    }

    /// Whether a body of this size can be placed on the target.
    pub open spec fn placeable(env: Env, width: int, height: int) -> bool {
        env.target is Some ==> {
            &&& Self::anchor_edge(env).right - width <= i32::MAX
            &&& Self::anchor_edge(env).bottom - height <= i32::MAX
        }
    }

    /// Whether `p` is where a body of this size goes.
    pub open spec fn is_place(self, env: Env, width: int, height: int, p: Point) -> bool {
        let edge = Self::anchor_edge(env);
        let inset = self.frame.aura_inset as int;
        &&& p.x == placed_x(edge, width, self.governing_pos(), inset, env.target_dpi)
        &&& p.y == placed_y(edge, height, self.governing_pos(), inset, env.target_dpi)
    }

    /// The pill with the fonts and the aura ring of the target.
    pub open spec fn scaled_for(self, dpi: u32) -> Pill {
        Pill {
            frame: Frame { fonts_dpi: dpi, aura_inset: to_i32(scaled(AURA_HALO as int, dpi)) as i32, ..self.frame },
            ..self
        }
    }

    /// After a cover was converted, or not: the same pixels change nothing.
    pub open spec fn with_art(
        self,
        decoded: Option<Arc<Vec<u8>>>,
        converted: Option<Arc<Vec<u8>>>,
        derived: Option<Palette>,
    ) -> Pill {
        if same_art(self.look.art_source, decoded) {
            self
        } else {
            let art = if decoded is Some {
                converted
            } else {
                None
            };
            Pill {
                look: Look {
                    art,
                    art_source: decoded,
                    palette: if self.look.content_palette is Some {
                        self.look.content_palette
                    } else if art is Some {
                        derived
                    } else {
                        None
                    },
                    ..self.look
                },
                ..self
            }
        }
    }

    /// Whether a dissolve goes on: the pill is static, neither morphs nor
    /// bounces, the frame has the size it dissolves from, and its time is not
    /// over.
    pub open spec fn dissolves_on(self, springs: MorphProgress, w: u32, h: u32, env: Env) -> bool {
        &&& self.phase == Phase::Shown
        &&& self.shape(springs) is None
        &&& self.look.fade matches Some(f) && f.from_w == w && f.from_h == h && since(f.start, env.now)
            < CONTENT_FADE_MS
    }

    /// After a frame of the given size was painted, with the bar as it is. The
    /// overflow of each text line decides whether it scrolls.
    pub open spec fn painted(
        self,
        w: u32,
        h: u32,
        overflow: (bool, bool, bool, bool),
        springs: MorphProgress,
        env: Env,
    ) -> Pill {
        let m = self.look.scroll;
        Pill {
            frame: Frame { has_frame: true, w, h, ..self.frame },
            progress: self.progress.painted(),
            look: Look {
                scroll: Marquee {
                    title: LineScroll { scrolling: overflow.0, ..m.title },
                    subtitle: LineScroll { scrolling: overflow.1, ..m.subtitle },
                    meta: LineScroll { scrolling: overflow.2, ..m.meta },
                    app: LineScroll { scrolling: overflow.3, ..m.app },
                },
                fade: if self.dissolves_on(springs, w, h, env) {
                    self.look.fade
                } else {
                    None
                },
                ..self.look
            },
            ..self
        }
    }
}

fn ease_to(t: i64, top: u64) -> (r: u64)
    requires
        0 <= t <= ONE,
        top <= 255,
    ensures
        r == eased_steps(t as int, top as int),
        r <= top,
        t == ONE ==> r == top,
{
    let rest: u128 = quint_of((ONE - t) as u64);
    assert(quint(1_000_000) == 1_000_000_000_000_000_000_000_000_000_000) by (nonlinear_arith);
    assert(quint(0) == 0) by (nonlinear_arith);
    let passed: u128 = 1_000_000_000_000_000_000_000_000_000_000 - rest;
    let wide: u128 = top as u128;
    assert(0 <= passed * wide <= 255 * 1_000_000_000_000_000_000_000_000_000_000) by (nonlinear_arith)
        requires
            0 <= passed <= 1_000_000_000_000_000_000_000_000_000_000,
            0 <= wide <= 255,
    ;
    assert(passed * wide <= wide * 1_000_000_000_000_000_000_000_000_000_000) by (nonlinear_arith)
        requires
            0 <= passed <= 1_000_000_000_000_000_000_000_000_000_000,
            0 <= wide,
    ;
    assert(passed * wide == (quint(ONE as int) - quint(ONE - t)) * top);
    (passed * wide / 1_000_000_000_000_000_000_000_000_000_000) as u64
}

fn cubic_fade(t: i64) -> (r: u8)
    requires
        0 <= t <= ONE,
    ensures
        r == cubic_rest(t as int, SOLID as int),
        t == 0 ==> r == SOLID,
        t == ONE ==> r == 0,
{
    let w: u128 = t as u128;
    assert(0 <= w * w <= 1_000_000_000_000) by (nonlinear_arith)
        requires
            0 <= w <= 1_000_000,
    ;
    let w2: u128 = w * w;
    assert(0 <= w2 * w <= 1_000_000_000_000_000_000) by (nonlinear_arith)
        requires
            0 <= w <= 1_000_000,
            0 <= w2 <= 1_000_000_000_000,
    ;
    let cube: u128 = w2 * w;
    assert(cube == t * t * t);
    assert(t == 0 ==> cube == 0);
    assert(t == 1_000_000 ==> cube == 1_000_000_000_000_000_000);
    assert(ONE * ONE * ONE == 1_000_000_000_000_000_000) by (nonlinear_arith)
        requires
            ONE == 1_000_000,
    ;
    ((1_000_000_000_000_000_000 - cube) * 255 / 1_000_000_000_000_000_000) as u8
}

fn stretch(t: i64, num: i64, den: i64) -> (r: i64)
    requires
        0 <= t <= ONE,
        0 < num <= den <= 100,
    ensures
        r == stretched(t as int, num as int, den as int),
        0 <= r <= ONE,
{
    assert(0 <= t * den <= 100_000_000) by (nonlinear_arith)
        requires
            0 <= t <= 1_000_000,
            0 < den <= 100,
    ;
    let s: i64 = t * den / num;
    assert(t * den / (num as int) >= 0) by (nonlinear_arith)
        requires
            0 <= t * den,
            0 < num,
    ;
    if s > ONE {
        ONE
    } else {
        s
    }
}

impl OverlayState {
    fn frame_alpha(&self, env: &Env) -> (r: u8)
        ensures
            r == self@.alpha(*env),
    {
        match self.phase {
            Phase::Hidden => 0,
            Phase::Expanding(start) => {
                let t: i64 = normalized_elapsed(start, animation_duration_with(&self.config, env.animations), env.now);
                ease_to(stretch(t, 3, 20), SOLID as u64) as u8
            },
            Phase::Light(start) => if env.animations {
                let t: i64 = normalized_elapsed(start, LIGHT_MS, env.now);
                IDLE_ALPHA + ease_to(t, IDLE_TO_SOLID) as u8
            } else {
                SOLID
            },
            Phase::Shown => if self.persistent() && self.rest.faded {
                let at: u64 = match self.dismiss_at {
                    Some(d) => d,
                    None => env.now,
                };
                let e: u64 = elapsed(at, env.now);
                if !env.animations || e >= FADE_MS {
                    IDLE_ALPHA
                } else {
                    SOLID - ((IDLE_TO_SOLID * e + FADE_MS - 1) / FADE_MS) as u8
                }
            } else {
                SOLID
            },
            Phase::Collapsing(start) => {
                let t: i64 = normalized_elapsed(start, collapse_duration_with(&self.config, env.animations), env.now);
                cubic_fade(stretch(t, 3, 4))
            },
        }
    }

    /// The current frame's opacity and entrance or exit shape.
    pub fn frame(&self, springs: MorphProgress, env: &Env) -> (r: FrameState)
        ensures
            r.alpha == self@.alpha(*env),
            r.morph == self@.grow(springs),
    {
        let grows = matches!(self.phase, Phase::Expanding(_) | Phase::Collapsing(_));
        FrameState {
            alpha: self.frame_alpha(env),
            morph: if grows && !self.effective_compact() {
                Some(springs)
            } else {
                None
            },
        }
    }

    fn shape(&self, springs: MorphProgress) -> (r: Option<MorphProgress>)
        ensures
            r == self@.shape(springs),
    {
        let grows = matches!(self.phase, Phase::Expanding(_) | Phase::Collapsing(_));
        if self.hover.expand.is_some() || (grows && !self.effective_compact()) {
            Some(springs)
        } else {
            None
        }
    }

    fn shape_scale(&self, springs: MorphProgress) -> (r: i64)
        ensures
            r == self@.bounce(springs),
            0 <= r <= 2 * ONE,
    {
        match self.shape(springs) {
            Some(m) => {
                let direction = match self.hover.expand {
                    Some(h) => h.direction,
                    None => if self.is_collapsing() {
                        MorphDirection::Collapse
                    } else {
                        MorphDirection::Expand
                    },
                };
                bounce_scale(m, direction)
            },
            None => ONE,
        }
    }

    /// The shown content's size in physical pixels at the given DPI: it
    /// follows the morph and the bounce, so the hitbox is the visible pill.
    pub fn content_size_at(&self, springs: MorphProgress, dpi: u32) -> (r: Option<(i32, i32)>)
        ensures
            r is Some <==> self.content is Some,
            r matches Some(size) ==> {
                &&& size.0 == self@.body_width(springs, dpi)
                &&& size.1 == self@.body_height(springs, dpi)
                &&& size.0 >= 1
                &&& size.1 >= 1
                &&& self.hover.expand is Some && springs == (MorphProgress { width: ONE, height: ONE }) ==> {
                    &&& size.0 == clamped(pixels(expanded_size(self.config).w, ONE, dpi), 1, i32::MAX as int)
                    &&& size.1 == clamped(pixels(expanded_size(self.config).h, ONE, dpi), 1, i32::MAX as int)
                }
            },
    {
        proof {
            if self.hover.expand is Some {
                law_hover_morph_shapes_the_pill(self@, springs, dpi);
            }
        }
        match &self.content {
            Some(content) => {
                let size = match self.shape(springs) {
                    Some(m) => morph_size(&self.config, content, m),
                    None => content_size_of(&self.config, content, self.effective_compact()),
                };
                let scale: i64 = self.shape_scale(springs);
                Some((to_pixels(size.w, scale, dpi), to_pixels(size.h, scale, dpi)))
            },
            None => None,
        }
    }

    /// The shown content's size on the target display.
    pub fn content_size(&self, springs: MorphProgress, env: &Env) -> (r: Option<(i32, i32)>)
        ensures
            r is Some <==> self.content is Some && env.target is Some,
            r matches Some(size) ==> {
                &&& size.0 == self@.body_width(springs, env.target_dpi)
                &&& size.1 == self@.body_height(springs, env.target_dpi)
                &&& size.0 >= 1
                &&& size.1 >= 1
            },
    {
        if env.target.is_none() {
            return None;
        }
        self.content_size_at(springs, env.target_dpi)
    }

    /// The window's top-left for a body of the given size on the target
    /// display; `None` without one.
    pub fn position(&self, width: i32, height: i32, env: &Env) -> (r: Option<Point>)
        requires
            Pill::placeable(*env, width as int, height as int),
        ensures
            r is Some <==> env.target is Some,
            r matches Some(p) ==> self@.is_place(*env, width as int, height as int, p),
            r matches Some(p) ==> {
                let edge = if env.target_covered {
                    env.target->0.monitor
                } else {
                    env.target->0.work
                };
                let inset = self.frame.aura_inset as int;
                let own = self.place.layout == LayoutMode::Compact && self.config.overlay.compact_position_separate;
                &&& own ==> p.x == placed_x(edge, width as int, self.place.compact, inset, env.target_dpi) && p.y
                    == placed_y(edge, height as int, self.place.compact, inset, env.target_dpi)
                &&& !own ==> p.x == placed_x(edge, width as int, self.place.expanded, inset, env.target_dpi) && p.y
                    == placed_y(edge, height as int, self.place.expanded, inset, env.target_dpi)
            },
    {
        match env.target {
            Some(target) => {
                let edge = effective_position_rect(target.monitor, target.work, env.target_covered);
                let pos = self.active_pos();
                Some(placement(edge, width, height, &pos, self.frame.aura_inset, env.target_dpi))
            },
            None => None,
        }
    }

    /// Whether the cursor lies on the pill body, not merely on its aura. A
    /// cursor that could not be read lies nowhere.
    pub fn is_cursor_over_pill(&self, cursor: Option<Point>, springs: MorphProgress, env: &Env) -> (r: bool)
        ensures
            r <==> {
                let (w, h) = (self@.body_width(springs, env.target_dpi), self@.body_height(springs, env.target_dpi));
                let (edge, pos) = (Pill::anchor_edge(*env), self@.governing_pos());
                let inset = self.frame.aura_inset as int;
                let (x, y) = (
                    placed_x(edge, w, pos, inset, env.target_dpi),
                    placed_y(edge, h, pos, inset, env.target_dpi),
                );
                &&& self.content is Some
                &&& env.target is Some
                &&& cursor matches Some(c) && x + inset <= c.x <= x + w + inset && y + inset <= c.y <= y + h + inset
            },
    {
        let c: Point = match cursor {
            Some(c) => c,
            None => {
                return false;
            },
        };
        let (width, height) = match self.content_size(springs, env) {
            Some(size) => size,
            None => {
                return false;
            },
        };
        match self.position(width, height, env) {
            Some(p) => cursor_over_pill(c.x, c.y, p.x, p.y, width, height, self.frame.aura_inset),
            None => false,
        }
    }

    /// Plans the next frame on the target display, and takes over its DPI for
    /// the fonts and the aura ring. Without content or a display there is
    /// nothing to draw, and nothing changes.
    pub fn plan_frame(&mut self, springs: MorphProgress, env: &Env) -> (r: Option<FramePlan>)
        ensures
            r is Some <==> old(self).content is Some && env.target is Some,
            r is None ==> final(self)@ == old(self)@,
            r is Some ==> final(self)@ == old(self)@.scaled_for(env.target_dpi),
            r matches Some(plan) ==> {
                &&& plan.width == old(self)@.body_width(springs, env.target_dpi)
                &&& plan.height == old(self)@.body_height(springs, env.target_dpi)
                &&& plan.dpi == env.target_dpi
                &&& plan.alpha == old(self)@.alpha(*env)
                &&& plan.morph == old(self)@.shape(springs)
                &&& plan.compact == (old(self)@.compact() && plan.morph is None)
                &&& plan.scale == old(self)@.bounce(springs)
                &&& plan.inset == to_i32(scaled(AURA_HALO as int, env.target_dpi))
                &&& old(self).hover.expand is Some ==> plan.morph == Some(springs) && !plan.compact
                &&& {
                    let edge = if env.target_covered {
                        env.target->0.monitor
                    } else {
                        env.target->0.work
                    };
                    let (w, h, inset) = (plan.width as int, plan.height as int, plan.inset as int);
                    let place = old(self).place;
                    let own = place.layout == LayoutMode::Compact && old(
                        self,
                    ).config.overlay.compact_position_separate;
                    &&& own ==> plan.position.x == placed_x(edge, w, place.compact, inset, env.target_dpi)
                        && plan.position.y == placed_y(edge, h, place.compact, inset, env.target_dpi)
                    &&& !own ==> plan.position.x == placed_x(edge, w, place.expanded, inset, env.target_dpi)
                        && plan.position.y == placed_y(edge, h, place.expanded, inset, env.target_dpi)
                }
                &&& final(self)@.is_place(*env, plan.width as int, plan.height as int, plan.position)
            },
    {
        let (width, height) = match self.content_size(springs, env) {
            Some(size) => size,
            None => {
                return None;
            },
        };
        let morph = self.shape(springs);
        let scale: i64 = self.shape_scale(springs);
        let alpha: u8 = self.frame_alpha(env);
        let compact = self.effective_compact() && morph.is_none();
        if needs_font_rebuild(self.frame.fonts_dpi, env.target_dpi) {
            self.frame.fonts_dpi = env.target_dpi;
        }
        self.frame.aura_inset = scale_px(AURA_HALO, env.target_dpi);
        match self.position(width, height, env) {
            Some(position) => Some(
                FramePlan {
                    width,
                    height,
                    dpi: env.target_dpi,
                    alpha,
                    position,
                    compact,
                    morph,
                    scale,
                    inset: self.frame.aura_inset,
                },
            ),
            None => None,
        }
    }

    /// Takes note of a painted frame: its size, which text lines overflow it,
    /// and whether the dissolve goes on.
    pub fn note_painted(
        &mut self,
        w: u32,
        h: u32,
        overflow: (bool, bool, bool, bool),
        springs: MorphProgress,
        env: &Env,
    )
        ensures
            final(self)@ == old(self)@.painted(w, h, overflow, springs, *env),
    {
        let goes_on = self.phase == Phase::Shown && self.shape(springs).is_none() && match self.look.fade {
            Some(f) => f.from_w == w && f.from_h == h && elapsed(f.start, env.now) < CONTENT_FADE_MS,
            None => false,
        };
        if !goes_on {
            self.look.fade = None;
        }
        self.look.scroll.title.scrolling = overflow.0;
        self.look.scroll.subtitle.scrolling = overflow.1;
        self.look.scroll.meta.scrolling = overflow.2;
        self.look.scroll.app.scrolling = overflow.3;
        self.progress.note_painted();
        self.frame.has_frame = true;
        self.frame.w = w;
        self.frame.h = h;
    }

    /// Whether the cover of the content has to be converted anew: its pixels
    /// differ from those that the kept cover was converted from.
    pub fn needs_art(&self, decoded: &Option<Arc<Vec<u8>>>) -> (r: bool)
        ensures
            r == !same_art(self.look.art_source, *decoded),
    {
        !artwork_same(&self.look.art_source, decoded)
    }

    /// Takes over a converted cover. The same pixels change nothing; other
    /// ones replace the cover even where the conversion failed, so a corrupt
    /// cover is tried once. The palette that the track carries wins over the
    /// one derived from the cover.
    pub fn ensure_art(
        &mut self,
        decoded: &Option<Arc<Vec<u8>>>,
        converted: Option<Arc<Vec<u8>>>,
        derived: Option<Palette>,
    )
        ensures
            same_art(old(self).look.art_source, *decoded) ==> final(self)@ == old(self)@,
            !same_art(old(self).look.art_source, *decoded) ==> final(self)@ == (Pill {
                look: Look {
                    art: if *decoded is Some {
                        converted
                    } else {
                        None
                    },
                    art_source: *decoded,
                    palette: if old(self).look.content_palette is Some {
                        old(self).look.content_palette
                    } else if *decoded is Some && converted is Some {
                        derived
                    } else {
                        None
                    },
                    ..old(self)@.look
                },
                ..old(self)@
            }),
            final(self)@ == old(self)@.with_art(*decoded, converted, derived),
    {
        if !self.needs_art(decoded) {
            return;
        }
        self.look.art = if decoded.is_some() {
            converted
        } else {
            None
        };
        self.look.art_source = share(decoded);
        self.look.palette = if self.look.content_palette.is_some() {
            self.look.content_palette
        } else if self.look.art.is_some() {
            derived
        } else {
            None
        };
    }

    /// The identity of the static background of a frame.
    pub fn chrome_cache_key(
        &self,
        buf_w: u32,
        buf_h: u32,
        dpi: u32,
        scale: i64,
        compact: bool,
        morph: Option<MorphProgress>,
        high_contrast: bool,
    ) -> (r: ChromeKey)
        ensures
            r == self@.chrome_key(buf_w, buf_h, dpi, scale, compact, morph, high_contrast),
    {
        let a = &self.config.appearance;
        let ring: u64 = if self.frame.aura_inset > 0 {
            2 * (self.frame.aura_inset as u64)
        } else {
            0
        };
        let pill_w: u32 = if (buf_w as u64) < ring {
            0
        } else {
            (buf_w as u64 - ring) as u32
        };
        ChromeKey {
            content_rev: self.look.content_rev,
            compact,
            dpi,
            buf_w,
            buf_h,
            scale,
            bar_w: bar_pixel_w(self.progress.estimated_us, self.progress.duration_secs, pill_w),
            high_contrast,
            palette: self.look.palette,
            background_color: a.background_color,
            text_color: a.text_color,
            accent_color: a.accent_color,
            art_size: a.art_size,
            padding: a.padding,
            font_size_title: a.font_size_title,
            font_size_artist: a.font_size_artist,
            corner_radius: a.corner_radius,
            compact_corner_radius: a.compact_corner_radius,
            morph,
        }
    }
}

/// Everything that the static background of a frame depends on. A frame with
/// the same key reuses the kept background.
#[derive(Clone, Copy, Debug, PartialEq, Eq, Structural)]
pub struct ChromeKey {
    pub content_rev: u64,
    pub compact: bool,
    pub dpi: u32,
    pub buf_w: u32,
    pub buf_h: u32,
    /// The settle-bounce scale in millionths.
    pub scale: i64,
    /// The progress bar's width in whole pixels.
    pub bar_w: Option<u32>,
    pub high_contrast: bool,
    pub palette: Option<Palette>,
    pub background_color: Color,
    pub text_color: Color,
    pub accent_color: Color,
    pub art_size: u32,
    pub padding: u32,
    pub font_size_title: u32,
    pub font_size_artist: u32,
    pub corner_radius: u32,
    pub compact_corner_radius: u32,
    pub morph: Option<MorphProgress>,
}

impl Pill {
    /// The pill body's part of a buffer `buf_w` pixels wide: without the aura
    /// ring on both sides.
    pub open spec fn body_of(self, buf_w: u32) -> u32 {
        let ring = if self.frame.aura_inset > 0 {
            2 * self.frame.aura_inset
        } else {
            0
        };
        if buf_w < ring {
            0
        } else {
            (buf_w - ring) as u32
        }
    }

    /// The identity of the static background of a frame.
    pub open spec fn chrome_key(
        self,
        buf_w: u32,
        buf_h: u32,
        dpi: u32,
        scale: i64,
        compact: bool,
        morph: Option<MorphProgress>,
        high_contrast: bool,
    ) -> ChromeKey {
        let a = self.config.appearance;
        ChromeKey {
            content_rev: self.look.content_rev,
            compact,
            dpi,
            buf_w,
            buf_h,
            scale,
            bar_w: match bar_pixels(self.progress.estimated_us, self.progress.duration_secs, self.body_of(buf_w)) {
                Some(w) => Some(w as u32),
                None => None,
            },
            high_contrast,
            palette: self.look.palette,
            background_color: a.background_color,
            text_color: a.text_color,
            accent_color: a.accent_color,
            art_size: a.art_size,
            padding: a.padding,
            font_size_title: a.font_size_title,
            font_size_artist: a.font_size_artist,
            corner_radius: a.corner_radius,
            compact_corner_radius: a.compact_corner_radius,
            morph,
        }
    }
}

proof fn lemma_powers()
    ensures
        quint(ONE as int) == 1_000_000_000_000_000_000_000_000_000_000,
        quint(0) == 0,
        ONE * ONE * ONE == 1_000_000_000_000_000_000,
{
    assert(quint(1_000_000) == 1_000_000_000_000_000_000_000_000_000_000) by (nonlinear_arith);
    assert(quint(0) == 0) by (nonlinear_arith);
    assert(ONE * ONE * ONE == 1_000_000_000_000_000_000) by (nonlinear_arith)
        requires
            ONE == 1_000_000,
    ;
}

/// An entering pill is solid after 15 % of its leg: the growth, not the fade,
/// is the animation.
pub proof fn law_entrance_is_solid_early(p: Pill, env: Env)
    requires
        p.phase matches Phase::Expanding(start) && leg_part(start, entrance_ms(p.config, env.animations), env.now)
            >= 150_000,
    ensures
        p.alpha(env) == SOLID,
{
    lemma_powers();
    let t = leg_part(p.phase->Expanding_0, entrance_ms(p.config, env.animations), env.now);
    assert(stretched(t, 3, 20) == ONE);
}

/// A leaving pill starts solid and is fully transparent after 75 % of its leg.
pub proof fn law_exit_ends_transparent(p: Pill, env: Env)
    requires
        p.phase is Collapsing,
    ensures
        ({
            let t = leg_part(p.phase->Collapsing_0, exit_ms(p.config, env.animations), env.now);
            &&& t == 0 ==> p.alpha(env) == SOLID
            &&& t >= 750_000 ==> p.alpha(env) == 0
        }),
{
    lemma_powers();
    let t = leg_part(p.phase->Collapsing_0, exit_ms(p.config, env.animations), env.now);
    let f = stretched(t, 3, 4);
    if t == 0 {
        assert(f == 0);
        assert(f * f * f == 0) by (nonlinear_arith)
            requires
                f == 0,
        ;
    }
    if t >= 750_000 {
        assert(f == ONE);
    }
}

/// With motion disallowed nothing fades: an entering or revealed pill is
/// solid at once and an idle one at idle opacity at once.
pub proof fn law_no_motion_no_fades(p: Pill, env: Env)
    requires
        !env.animations,
    ensures
        p.phase is Expanding || p.phase is Light ==> p.alpha(env) == SOLID,
        p.phase is Shown && p.persistent() && p.rest.faded ==> p.alpha(env) == IDLE_ALPHA,
        p.phase is Shown && !(p.persistent() && p.rest.faded) ==> p.alpha(env) == SOLID,
{
    lemma_powers();
    if let Phase::Expanding(start) = p.phase {
        assert(stretched(leg_part(start, 0, env.now), 3, 20) == ONE);
    }
}

/// The idle fade ends at idle opacity and never goes below it.
pub proof fn law_idle_fade_ends_at_idle(at: u64, now: u64, animations: bool)
    ensures
        IDLE_ALPHA <= faded_alpha(at, now, animations) <= SOLID,
        since(at, now) >= FADE_MS ==> faded_alpha(at, now, animations) == IDLE_ALPHA,
{
}

/// A compact pill has nothing to grow into: it only appears and fades.
pub proof fn law_compact_pill_never_grows(p: Pill, springs: MorphProgress)
    requires
        p.compact(),
    ensures
        p.grow(springs) is None,
{
}

/// Two frames share a background exactly where its inputs agree: the content,
/// the palette, the appearance, the bar's width in whole pixels, and the
/// frame's size, DPI, scale and shape.
pub proof fn law_background_follows_its_inputs(
    p: Pill,
    q: Pill,
    buf: (u32, u32),
    other_buf: (u32, u32),
    dpi: u32,
    other_dpi: u32,
    scale: i64,
    other_scale: i64,
    compact: bool,
    other_compact: bool,
    morph: Option<MorphProgress>,
    other_morph: Option<MorphProgress>,
    high_contrast: bool,
    other_high_contrast: bool,
)
    ensures
        p.chrome_key(buf.0, buf.1, dpi, scale, compact, morph, high_contrast) == q.chrome_key(
            other_buf.0,
            other_buf.1,
            other_dpi,
            other_scale,
            other_compact,
            other_morph,
            other_high_contrast,
        ) <==> {
            &&& p.look.content_rev == q.look.content_rev
            &&& p.look.palette == q.look.palette
            &&& p.config.appearance == q.config.appearance
            &&& bar_pixels(p.progress.estimated_us, p.progress.duration_secs, p.body_of(buf.0)) == bar_pixels(
                q.progress.estimated_us,
                q.progress.duration_secs,
                q.body_of(other_buf.0),
            )
            &&& buf == other_buf
            &&& dpi == other_dpi
            &&& scale == other_scale
            &&& compact == other_compact
            &&& morph == other_morph
            &&& high_contrast == other_high_contrast
        },
{
    lemma_bar_fits(p.progress.estimated_us, p.progress.duration_secs, p.body_of(buf.0));
    lemma_bar_fits(q.progress.estimated_us, q.progress.duration_secs, q.body_of(other_buf.0));
}

/// A pill under a hover morph is drawn by its springs, whatever its phase and
/// layout. With both springs at nothing it has the compact pill's size, and
/// with both at one whole, as after a finished expansion, the expanded one's.
pub proof fn law_hover_morph_shapes_the_pill(p: Pill, springs: MorphProgress, dpi: u32)
    requires
        p.hover.expand is Some,
    ensures
        p.shape(springs) == Some(springs),
        springs == (MorphProgress { width: 0, height: 0 }) ==> {
            &&& p.body_width(springs, dpi) == clamped(pixels(compact_extent(p.config).w, ONE, dpi), 1, i32::MAX as int)
            &&& p.body_height(springs, dpi) == clamped(pixels(compact_extent(p.config).h, ONE, dpi), 1, i32::MAX as int)
        },
        springs == (MorphProgress { width: ONE, height: ONE }) ==> {
            &&& p.body_width(springs, dpi) == clamped(pixels(expanded_size(p.config).w, ONE, dpi), 1, i32::MAX as int)
            &&& p.body_height(springs, dpi) == clamped(pixels(expanded_size(p.config).h, ONE, dpi), 1, i32::MAX as int)
        },
{
    law_morph_never_overshoots(p.config, springs);
    law_bounce_is_even_and_bounded(springs.width);
}

/// A pill that neither morphs nor moves in or out has the plain size of its
/// layout, whatever the springs say.
pub proof fn law_resting_pill_has_its_layouts_size(p: Pill, springs: MorphProgress, dpi: u32)
    requires
        p.hover.expand is None,
        p.phase is Shown || p.phase is Light || p.place.layout == LayoutMode::Compact,
    ensures
        p.shape(springs) is None,
        p.bounce(springs) == ONE,
        p.place.layout == LayoutMode::Compact ==> {
            &&& p.body_width(springs, dpi) == clamped(pixels(compact_extent(p.config).w, ONE, dpi), 1, i32::MAX as int)
            &&& p.body_height(springs, dpi) == clamped(pixels(compact_extent(p.config).h, ONE, dpi), 1, i32::MAX as int)
        },
        p.place.layout != LayoutMode::Compact ==> {
            &&& p.body_width(springs, dpi) == clamped(pixels(expanded_size(p.config).w, ONE, dpi), 1, i32::MAX as int)
            &&& p.body_height(springs, dpi) == clamped(pixels(expanded_size(p.config).h, ONE, dpi), 1, i32::MAX as int)
        },
{
}

/// An expanded pill on its way in or out is drawn by its springs, from the
/// compact size to the expanded one.
pub proof fn law_moving_pill_grows_from_the_compact_size(p: Pill, springs: MorphProgress, dpi: u32)
    requires
        p.phase is Expanding || p.phase is Collapsing,
        p.place.layout != LayoutMode::Compact,
    ensures
        p.shape(springs) == Some(springs),
        p.grow(springs) == Some(springs),
        springs == (MorphProgress { width: 0, height: 0 }) ==> {
            &&& p.body_width(springs, dpi) == clamped(pixels(compact_extent(p.config).w, ONE, dpi), 1, i32::MAX as int)
            &&& p.body_height(springs, dpi) == clamped(pixels(compact_extent(p.config).h, ONE, dpi), 1, i32::MAX as int)
        },
        springs == (MorphProgress { width: ONE, height: ONE }) ==> {
            &&& p.body_width(springs, dpi) == clamped(pixels(expanded_size(p.config).w, ONE, dpi), 1, i32::MAX as int)
            &&& p.body_height(springs, dpi) == clamped(pixels(expanded_size(p.config).h, ONE, dpi), 1, i32::MAX as int)
        },
{
    law_morph_never_overshoots(p.config, springs);
    law_bounce_is_even_and_bounded(springs.width);
}

/// A drawn shape is sized by its springs and scaled by its bounce, each axis
/// by its own spring and both by the same bounce.
pub proof fn law_drawn_shape_is_its_springs_size(p: Pill, springs: MorphProgress, dpi: u32)
    requires
        p.shape(springs) is Some,
    ensures
        ({
            let w = between(compact_extent(p.config).w as int, expanded_size(p.config).w as int, springs.width);
            let h = between(compact_extent(p.config).h as int, expanded_size(p.config).h as int, springs.height);
            let scale = p.bounce(springs);
            &&& p.body_width(springs, dpi) == clamped(pixels(w as u64, scale as i64, dpi), 1, i32::MAX as int)
            &&& p.body_height(springs, dpi) == clamped(pixels(h as u64, scale as i64, dpi), 1, i32::MAX as int)
        }),
{
    law_morph_axes_are_independent(p.config, springs.width, springs.height, 0);
}

/// The bounce goes with the leg that moves the shape: an expand leg, of the
/// hover or of the entrance, bounces beyond the full size, and a collapse leg,
/// of the hover or of the exit, below the small one.
pub proof fn law_bounce_goes_with_the_leg(p: Pill, springs: MorphProgress)
    ensures
        p.hover.expand matches Some(m) ==> m.direction == MorphDirection::Expand ==> p.bounce(springs) == bounce(
            springs.width,
            MorphDirection::Expand,
        ),
        p.hover.expand matches Some(m) ==> m.direction == MorphDirection::Collapse ==> p.bounce(springs) == bounce(
            springs.width,
            MorphDirection::Collapse,
        ),
        p.hover.expand is None && p.place.layout != LayoutMode::Compact && p.phase is Expanding ==> p.bounce(springs)
            == bounce(springs.width, MorphDirection::Expand),
        p.hover.expand is None && p.place.layout != LayoutMode::Compact && p.phase is Collapsing ==> p.bounce(springs)
            == bounce(springs.width, MorphDirection::Collapse),
        0 <= springs.width <= ONE ==> p.bounce(springs) == ONE,
{
    law_bounce_is_even_and_bounded(springs.width);
}

/// While the pill is compact and has a placement of its own, a body lands
/// where that one says; in every other case it lands where the expanded
/// placement says. It is anchored against the whole monitor under a
/// fullscreen window and against the work area otherwise.
pub proof fn law_body_lands_by_the_governing_placement(p: Pill, env: Env, width: int, height: int, at: Point)
    requires
        p.is_place(env, width, height, at),
        env.target is Some,
    ensures
        ({
            let edge = if env.target_covered {
                env.target->0.monitor
            } else {
                env.target->0.work
            };
            let inset = p.frame.aura_inset as int;
            let own = p.place.layout == LayoutMode::Compact && p.config.overlay.compact_position_separate;
            &&& own ==> {
                &&& at.x == placed_x(edge, width, p.place.compact, inset, env.target_dpi)
                &&& at.y == placed_y(edge, height, p.place.compact, inset, env.target_dpi)
            }
            &&& !own ==> {
                &&& at.x == placed_x(edge, width, p.place.expanded, inset, env.target_dpi)
                &&& at.y == placed_y(edge, height, p.place.expanded, inset, env.target_dpi)
            }
        }),
{
}

/// A body always has a place, and only one.
pub proof fn law_body_has_one_place(p: Pill, env: Env, width: int, height: int, a: Point, b: Point)
    requires
        p.is_place(env, width, height, a),
        p.is_place(env, width, height, b),
    ensures
        a == b,
{
}

/// Taking over a display's DPI changes the fonts and the aura ring, which is
/// six logical pixels wide, and nothing else.
pub proof fn law_dpi_changes_only_fonts_and_aura(p: Pill, dpi: u32)
    ensures
        p.scaled_for(dpi).frame.fonts_dpi == dpi,
        p.scaled_for(dpi).frame.aura_inset == scaled(6, dpi),
        p.scaled_for(dpi) == (Pill {
            frame: Frame {
                fonts_dpi: dpi,
                aura_inset: p.scaled_for(dpi).frame.aura_inset,
                ..p.frame
            },
            ..p
        }),
{
}

/// A hidden pill is invisible and a shown one solid, unless it is a persistent
/// pill at rest.
pub proof fn law_shown_pill_is_solid(p: Pill, env: Env)
    ensures
        p.phase is Hidden ==> p.alpha(env) == 0,
        p.phase is Shown && (p.config.overlay.layout != LayoutMode::PersistentCompact || !p.rest.faded) ==> p.alpha(env)
            == 255,
{
}

/// A leg covers its whole evenly in its time, and one without length is over
/// at once.
pub proof fn law_leg_covers_its_time_evenly(start: u64, duration: u64, now: u64)
    requires
        start <= now,
    ensures
        now - start >= duration ==> leg_part(start, duration, now) == ONE,
        now - start < duration ==> leg_part(start, duration, now) * duration <= (now - start) * ONE < (leg_part(
            start,
            duration,
            now,
        ) + 1) * duration,
{
    if now - start < duration {
        let (n, d) = ((now - start) * 1_000_000, duration as int);
        let q = n / d;
        assert(q * d <= n < (q + 1) * d) by (nonlinear_arith)
            requires
                q == n / d,
                d > 0,
        ;
    }
}

/// An entrance starts transparent and fades in over its first 15 %; a light
/// reveal starts at idle opacity and ends solid.
pub proof fn law_entrances_start_from_their_own_opacity(p: Pill, env: Env)
    requires
        env.animations,
        p.phase matches Phase::Expanding(start) ==> start == env.now && p.config.overlay.animation_ms > 0,
    ensures
        p.phase is Expanding ==> p.alpha(env) == 0,
        p.phase matches Phase::Light(start) ==> {
            &&& start == env.now ==> p.alpha(env) == 64
            &&& env.now - start >= 120 ==> p.alpha(env) == 255
        },
{
    lemma_powers();
    if let Phase::Expanding(start) = p.phase {
        let d = p.config.overlay.animation_ms as int;
        assert(0int / d == 0) by (nonlinear_arith)
            requires
                d > 0,
        ;
        assert(leg_part(start, entrance_ms(p.config, true), env.now) == 0);
        assert(stretched(0, 3, 20) == 0);
    }
}

/// The quintic reveal: with half of its leg left there is a thirty-second of
/// the way left that there was before, to the rounding.
pub proof fn law_reveal_halves_to_a_thirty_second(left: int, top: int)
    requires
        0 <= 2 * left <= ONE,
        0 <= top,
    ensures
        32 * (top - eased_steps(ONE - left, top) - 1) < top - eased_steps(ONE - 2 * left, top),
        top - eased_steps(ONE - 2 * left, top) <= 32 * (top - eased_steps(ONE - left, top)),
{
    lemma_powers();
    lemma_quint_doubles(left);
    let v = quint(left);
    let w = quint(2 * left);
    let one = 1_000_000_000_000_000_000_000_000_000_000int;
    let x = v * top;
    assert((one - v) * top == one * top - x) by (nonlinear_arith)
        requires
            x == v * top,
    ;
    assert((one - w) * top == one * top - 32 * x) by (nonlinear_arith)
        requires
            x == v * top,
            w == 32 * v,
    ;
    assert(eased_steps(ONE - left, top) == (one * top - x) / one);
    assert(eased_steps(ONE - 2 * left, top) == (one * top - 32 * x) / one);
}

/// The cubic exit: twice as far into the leg eight times as much of the
/// opacity is gone, to the rounding.
pub proof fn law_exit_doubles_to_eight_times(t: int, top: int)
    requires
        0 <= 2 * t <= ONE,
        0 <= top,
    ensures
        8 * (top - cubic_rest(t, top) - 1) < top - cubic_rest(2 * t, top),
        top - cubic_rest(2 * t, top) <= 8 * (top - cubic_rest(t, top)),
{
    lemma_powers();
    let v = t * t * t;
    let one = 1_000_000_000_000_000_000int;
    assert((2 * t) * (2 * t) * (2 * t) == 8 * v) by (nonlinear_arith)
        requires
            v == t * t * t,
    ;
    let x = v * top;
    assert((one - v) * top == one * top - x) by (nonlinear_arith)
        requires
            x == v * top,
    ;
    assert((one - 8 * v) * top == one * top - 8 * x) by (nonlinear_arith)
        requires
            x == v * top,
    ;
    assert(cubic_rest(t, top) == (one * top - x) / one);
    assert(cubic_rest(2 * t, top) == (one * top - 8 * x) / one);
}

/// Stretching makes a part of the leg fill the whole: inside that part it is
/// even, and past it everything is over.
pub proof fn law_stretched_part_fills_the_leg(t: int, num: int, den: int)
    requires
        0 <= t <= ONE,
        0 < num <= den,
    ensures
        t * den >= num * ONE ==> stretched(t, num, den) == ONE,
        t * den < num * ONE ==> stretched(t, num, den) * num <= t * den < (stretched(t, num, den) + 1) * num,
{
    let n = t * den;
    let q = n / num;
    assert(n >= 0) by (nonlinear_arith)
        requires
            n == t * den,
            t >= 0,
            den > 0,
    ;
    assert(q * num <= n < (q + 1) * num && q >= 0) by (nonlinear_arith)
        requires
            q == n / num,
            num > 0,
            n >= 0,
    ;
    if n >= num * ONE {
        assert(q >= 1_000_000) by (nonlinear_arith)
            requires
                n < (q + 1) * num,
                n >= num * 1_000_000,
                num > 0,
        ;
    } else {
        assert(q < 1_000_000) by (nonlinear_arith)
            requires
                q * num <= n,
                n < num * 1_000_000,
                num > 0,
        ;
    }
}

/// The idle fade is even: each part of its 300 ms takes the same part of the
/// way from solid to idle, and it never gets brighter again.
pub proof fn law_idle_fade_is_even(at: u64, now: u64)
    requires
        at <= now,
    ensures
        now - at < 300 ==> {
            let lost = 255 - faded_alpha(at, now, true);
            300 * (lost - 1) < 191 * (now - at) <= 300 * lost
        },
        now - at >= 300 ==> faded_alpha(at, now, true) == 64,
        faded_alpha(at, now, false) == 64,
{
}

/// A painted frame is remembered with its size, each line scrolls exactly
/// where it overflowed, and the bar is painted where it stands. Only a
/// dissolve is dropped by it: where the pill moves or morphs, where the frame
/// has another size than the one it dissolves from, or where its 200 ms are
/// over.
pub proof fn law_painting_notes_the_frame(
    p: Pill,
    w: u32,
    h: u32,
    overflow: (bool, bool, bool, bool),
    springs: MorphProgress,
    env: Env,
)
    ensures
        ({
            let s = p.painted(w, h, overflow, springs, env);
            &&& s.frame.has_frame && s.frame.w == w && s.frame.h == h
            &&& s.frame.fonts_dpi == p.frame.fonts_dpi && s.frame.aura_inset == p.frame.aura_inset
            &&& s.look.scroll.title.scrolling == overflow.0
            &&& s.look.scroll.subtitle.scrolling == overflow.1
            &&& s.look.scroll.meta.scrolling == overflow.2
            &&& s.look.scroll.app.scrolling == overflow.3
            &&& s.look.scroll.title.offset == p.look.scroll.title.offset
            &&& s.look.scroll.subtitle.offset == p.look.scroll.subtitle.offset
            &&& s.look.scroll.meta.offset == p.look.scroll.meta.offset
            &&& s.look.scroll.app.offset == p.look.scroll.app.offset
            &&& s.look.scroll.title.started_at == p.look.scroll.title.started_at
            &&& s.look.scroll.subtitle.started_at == p.look.scroll.subtitle.started_at
            &&& s.look.scroll.meta.started_at == p.look.scroll.meta.started_at
            &&& s.look.scroll.app.started_at == p.look.scroll.app.started_at
            &&& s.progress.estimated_us == p.progress.estimated_us
            &&& s.progress.anchor == p.progress.anchor
            &&& s.progress.playing == p.progress.playing
            &&& p.progress.estimated_us is Some && p.progress.duration_secs is Some && p.progress.duration_secs->0 > 0
                ==> s.progress.last_bar == Some(
                bar_fraction(p.progress.estimated_us->0, p.progress.duration_secs->0) as u64,
            )
            &&& p.progress.estimated_us is None || p.progress.duration_secs is None ==> s.progress.last_bar is None
            &&& p.look.fade matches Some(f) ==> {
                &&& p.phase == Phase::Shown && p.hover.expand is None && f.from_w == w && f.from_h == h && f.start
                    <= env.now && env.now < f.start + 200 ==> s.look.fade == Some(f)
                &&& p.phase != Phase::Shown || p.hover.expand is Some || f.from_w != w || f.from_h != h || env.now
                    >= f.start + 200 ==> s.look.fade is None
            }
            &&& p.look.fade is None ==> s.look.fade is None
            &&& s == (Pill {
                frame: s.frame,
                progress: s.progress,
                look: Look { scroll: s.look.scroll, fade: s.look.fade, ..p.look },
                ..p
            })
        }),
{
}

/// The body's part of a buffer is what the aura ring leaves of it: the ring
/// takes its width on both sides.
pub proof fn law_aura_ring_surrounds_the_body(p: Pill, buf_w: u32)
    ensures
        p.frame.aura_inset <= 0 ==> p.body_of(buf_w) == buf_w,
        p.frame.aura_inset > 0 && buf_w >= p.frame.aura_inset + p.frame.aura_inset ==> p.body_of(buf_w)
            + p.frame.aura_inset + p.frame.aura_inset == buf_w,
        p.frame.aura_inset > 0 && buf_w < p.frame.aura_inset + p.frame.aura_inset ==> p.body_of(buf_w) == 0,
{
}

/// Each fade follows its own curve. An entrance fades in on the quintic over
/// the first 15 % of its leg, an exit out on the cubic over the first 75 %, a
/// light reveal goes from idle to solid on the quintic over 120 ms, and a
/// resting persistent pill fades from its deadline on.
pub proof fn law_fades_follow_their_curves(p: Pill, env: Env)
    ensures
        p.phase matches Phase::Expanding(start) ==> {
            let t = leg_part(start, entrance_ms(p.config, env.animations), env.now);
            20 * t < 3 * ONE ==> p.alpha(env) == eased_steps(20 * t / 3, 255)
        },
        p.phase matches Phase::Collapsing(start) ==> {
            let t = leg_part(start, exit_ms(p.config, env.animations), env.now);
            4 * t < 3 * ONE ==> p.alpha(env) == cubic_rest(4 * t / 3, 255)
        },
        p.phase matches Phase::Light(start) ==> env.animations ==> p.alpha(env) == 64 + eased_steps(
            leg_part(start, 120, env.now),
            191,
        ),
        p.phase is Light && !env.animations ==> p.alpha(env) == 255,
        p.phase is Shown && p.config.overlay.layout == LayoutMode::PersistentCompact && p.rest.faded && p.dismiss_at
            is Some ==> p.alpha(env) == faded_alpha(p.dismiss_at->0, env.now, env.animations),
{
    if let Phase::Expanding(start) = p.phase {
        lemma_leg_part_bounds(start, entrance_ms(p.config, env.animations), env.now);
    }
    if let Phase::Collapsing(start) = p.phase {
        lemma_leg_part_bounds(start, exit_ms(p.config, env.animations), env.now);
    }
}

proof fn lemma_leg_part_bounds(start: u64, duration: u64, now: u64)
    ensures
        0 <= leg_part(start, duration, now) <= ONE,
{
    if duration > 0 && since(start, now) < duration {
        let (e, d) = (since(start, now) as int, duration as int);
        assert(0 <= e * 1_000_000 / d <= 1_000_000) by (nonlinear_arith)
            requires
                0 <= e < d,
        ;
    }
}

/// Other pixels than those of the kept cover replace it, with the converted
/// cover or with none where there is nothing to convert or it failed. The
/// palette that the content carries wins, then the one derived from a
/// converted cover. The same pixels again change nothing, so a corrupt cover
/// is tried once.
pub proof fn law_cover_is_converted_once(
    p: Pill,
    decoded: Option<Arc<Vec<u8>>>,
    converted: Option<Arc<Vec<u8>>>,
    derived: Option<Palette>,
    again: Option<Arc<Vec<u8>>>,
    other: Option<Palette>,
)
    ensures
        ({
            let s = p.with_art(decoded, converted, derived);
            let same = match (p.look.art_source, decoded) {
                (Some(a), Some(b)) => a@ == b@,
                (None, None) => true,
                _ => false,
            };
            &&& same ==> s == p
            &&& !same ==> {
                &&& s.look.art_source == decoded
                &&& decoded is Some ==> s.look.art == converted
                &&& decoded is None ==> s.look.art is None
                &&& p.look.content_palette is Some ==> s.look.palette == p.look.content_palette
                &&& p.look.content_palette is None && s.look.art is Some ==> s.look.palette == derived
                &&& p.look.content_palette is None && s.look.art is None ==> s.look.palette is None
            }
            &&& s == (Pill {
                look: Look {
                    art: s.look.art,
                    art_source: s.look.art_source,
                    palette: s.look.palette,
                    ..p.look
                },
                ..p
            })
            &&& s.with_art(decoded, again, other) == s
        }),
{
}

} // verus!
