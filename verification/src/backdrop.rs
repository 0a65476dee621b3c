//! The optional glass behind the pill: when it is wanted, when it can be had,
//! and what a frame changes about it.
use crate::config::Color;
use vstd::prelude::*;

verus! {

/// The opacity of the glass tint.
pub const TINT_ALPHA: u8 = 34;

/// The color of the glass.
#[derive(Clone, Copy, Debug, PartialEq, Eq, Structural)]
pub struct Tint {
    pub r: u8,
    pub g: u8,
    pub b: u8,
}

/// The silhouette of the glass. The corner radius is in thousandths of a
/// pixel.
#[derive(Clone, Copy, Debug, PartialEq, Eq, Structural)]
pub struct Silhouette {
    pub w: i32,
    pub h: i32,
    pub radius: i64,
}

/// The tint of a fresh glass.
pub open spec fn first_tint() -> Tint {
    Tint { r: 48, g: 48, b: 52 }
}

/// What the glass looks like.
#[derive(Clone, Copy, Debug, PartialEq, Eq, Structural)]
pub struct Glass {
    /// `None` before the first frame.
    pub geometry: Option<Silhouette>,
    pub tint: Tint,
    pub opacity: u8,
}

/// What a frame changes about the glass, in this order.
#[derive(Clone, Copy, Debug, PartialEq, Eq, Structural)]
pub struct GlassUpdate {
    pub geometry: Option<Silhouette>,
    pub tint: Option<Tint>,
    pub opacity: Option<u8>,
}

/// The glass window and its material.
#[derive(Clone, Copy, Debug, PartialEq, Eq, Structural)]
pub struct Backdrop {
    /// Present once the window and its material exist.
    pub glass: Option<Glass>,
    /// Whether making or updating the material has failed.
    pub unavailable: bool,
    pub enabled: bool,
}

/// What a request for the glass leads to.
#[derive(Clone, Copy, Debug, PartialEq, Eq, Structural)]
pub enum Preparation {
    /// Not wanted or not permitted: the glass hides.
    Hide,
    /// The glass is there.
    Ready,
    /// Making or updating it has failed before: the pill stays solid.
    Unavailable,
    /// The window and its material have to be made first.
    Make,
}

/// The tint as a translucent color.
pub fn glass_color(rgb: Tint) -> (r: Color)
    ensures
        r == (Color { r: rgb.r, g: rgb.g, b: rgb.b, a: TINT_ALPHA }),
{
    Color { r: rgb.r, g: rgb.g, b: rgb.b, a: TINT_ALPHA }
}

/// The corner radius that a body can have: at most half its smaller side.
pub open spec fn fitted_radius(w: i32, h: i32, radius: i64) -> int {
    let side = if w < h {
        w
    } else {
        h
    };
    let most = if side > 0 {
        side * 500
    } else {
        0
    };
    if radius < 0 {
        0
    } else if radius > most {
        most
    } else {
        radius as int
    }
}

/// The corner radius that a body can have.
pub fn fit_radius(w: i32, h: i32, radius: i64) -> (r: i64)
    ensures
        r == fitted_radius(w, h, radius),
{
    let side: i32 = if w < h {
        w
    } else {
        h
    };
    let most: i64 = if side > 0 {
        side as i64 * 500
    } else {
        0
    };
    if radius < 0 {
        0
    } else if radius > most {
        most
    } else {
        radius
    }
}

impl Glass {
    /// A fresh glass.
    pub fn new() -> (r: Self)
        ensures
            r == (Glass { geometry: None, tint: first_tint(), opacity: 255 }),
    {
        Glass { geometry: None, tint: Tint { r: 48, g: 48, b: 52 }, opacity: 255 }
    }

    /// What brings the glass to the given look.
    pub open spec fn changes(self, w: i32, h: i32, radius: i64, tint: Tint, opacity: u8) -> GlassUpdate {
        let geometry = Silhouette { w, h, radius: fitted_radius(w, h, radius) as i64 };
        GlassUpdate {
            geometry: if self.geometry != Some(geometry) {
                Some(geometry)
            } else {
                None
            },
            tint: if self.tint != tint {
                Some(tint)
            } else {
                None
            },
            opacity: if self.opacity != opacity {
                Some(opacity)
            } else {
                None
            },
        }
    }

    /// The glass after the first `done` of an update's three parts: geometry,
    /// tint, opacity.
    pub open spec fn updated(self, update: GlassUpdate, done: u8) -> Glass {
        Glass {
            geometry: if done >= 1 && update.geometry is Some {
                update.geometry
            } else {
                self.geometry
            },
            tint: if done >= 2 && update.tint is Some {
                update.tint->0
            } else {
                self.tint
            },
            opacity: if done >= 3 && update.opacity is Some {
                update.opacity->0
            } else {
                self.opacity
            },
        }
    }
}

/// A look that the glass already has changes nothing, and an update that went
/// through leaves nothing to change.
pub proof fn law_glass_update_is_idempotent(g: Glass, w: i32, h: i32, radius: i64, tint: Tint, opacity: u8)
    ensures
        g.updated(g.changes(w, h, radius, tint, opacity), 3).changes(w, h, radius, tint, opacity) == (GlassUpdate {
            geometry: None,
            tint: None,
            opacity: None,
        }),
{
}

impl Backdrop {
    /// No glass yet.
    pub fn new() -> (r: Self)
        ensures
            r == (Backdrop { glass: None, unavailable: false, enabled: false }),
    {
        Backdrop { glass: None, unavailable: false, enabled: false }
    }

    /// What a request leads to. Accessibility preferences overrule it.
    pub open spec fn preparation(self, requested: bool, high_contrast: bool, no_overlap: bool) -> Preparation {
        if !requested || high_contrast || no_overlap {
            Preparation::Hide
        } else if self.unavailable {
            Preparation::Unavailable
        } else if self.glass is Some {
            Preparation::Ready
        } else {
            Preparation::Make
        }
    }

    /// Decides about a request for the glass. Where it has to be made first,
    /// `made` takes the outcome; nothing changes until then.
    pub fn prepare(&mut self, requested: bool, high_contrast: bool, no_overlap: bool) -> (r: Preparation)
        ensures
            r == old(self).preparation(requested, high_contrast, no_overlap),
            *final(self) == (match r {
                Preparation::Hide | Preparation::Unavailable => Backdrop { enabled: false, ..*old(self) },
                Preparation::Ready => Backdrop { enabled: true, ..*old(self) },
                Preparation::Make => *old(self),
            }),
    {
        if !requested || high_contrast || no_overlap {
            self.conceal();
            return Preparation::Hide;
        }
        if self.unavailable {
            self.enabled = false;
            return Preparation::Unavailable;
        }
        if self.glass.is_some() {
            self.enabled = true;
            return Preparation::Ready;
        }
        Preparation::Make
    }

    /// Takes the outcome of making the glass. Answers whether it can be used.
    pub fn made(&mut self, succeeded: bool) -> (r: bool)
        ensures
            r == succeeded,
            succeeded ==> *final(self) == (Backdrop {
                glass: Some(Glass { geometry: None, tint: first_tint(), opacity: 255 }),
                enabled: true,
                ..*old(self)
            }),
            !succeeded ==> *final(self) == (Backdrop { unavailable: true, enabled: false, ..*old(self) }),
    {
        if succeeded {
            self.glass = Some(Glass::new());
            self.enabled = true;
        } else {
            self.unavailable = true;
            self.enabled = false;
        }
        succeeded
    }

    /// Whether the glass shows.
    pub open spec fn is_active(self) -> bool {
        self.enabled && self.glass is Some
    }

    /// Whether the glass shows.
    pub fn active(&self) -> (r: bool)
        ensures
            r == self.is_active(),
    {
        self.enabled && self.glass.is_some()
    }

    /// What a frame changes about the glass; `None` where there is nothing to
    /// show.
    pub fn sync(&self, w: i32, h: i32, radius: i64, tint: Tint, opacity: u8) -> (r: Option<GlassUpdate>)
        ensures
            r == (if self.is_active() && w > 0 && h > 0 {
                Some(self.glass->0.changes(w, h, radius, tint, opacity))
            } else {
                None
            }),
    {
        if !self.enabled || w <= 0 || h <= 0 {
            return None;
        }
        match self.glass {
            Some(g) => {
                let geometry = Silhouette { w, h, radius: fit_radius(w, h, radius) };
                let same = match g.geometry {
                    Some(kept) => kept == geometry,
                    None => false,
                };
                Some(
                    GlassUpdate {
                        geometry: if same {
                            None
                        } else {
                            Some(geometry)
                        },
                        tint: if g.tint == tint {
                            None
                        } else {
                            Some(tint)
                        },
                        opacity: if g.opacity == opacity {
                            None
                        } else {
                            Some(opacity)
                        },
                    },
                )
            },
            None => None,
        }
    }

    /// Takes the outcome of an update of which the first `done` parts went
    /// through. A failed one turns the glass off. Answers whether the window
    /// is to be placed.
    pub fn synced(&mut self, update: GlassUpdate, done: u8) -> (r: bool)
        ensures
            r == (done >= 3),
            *final(self) == (Backdrop {
                glass: match old(self).glass {
                    Some(g) => Some(g.updated(update, done)),
                    None => None,
                },
                unavailable: old(self).unavailable || done < 3,
                enabled: old(self).enabled && done >= 3,
            }),
    {
        if let Some(g) = self.glass {
            let mut next = g;
            if done >= 1 && update.geometry.is_some() {
                next.geometry = update.geometry;
            }
            if done >= 2 {
                if let Some(tint) = update.tint {
                    next.tint = tint;
                }
            }
            if done >= 3 {
                if let Some(opacity) = update.opacity {
                    next.opacity = opacity;
                }
            }
            self.glass = Some(next);
        }
        if done < 3 {
            self.unavailable = true;
            self.conceal();
        }
        done >= 3
    }

    /// Hides the glass.
    pub fn conceal(&mut self)
        ensures
            *final(self) == (Backdrop { enabled: false, ..*old(self) }),
    {
        self.enabled = false;
    }
}

/// The glass never shows unless it was asked for and no accessibility
/// preference forbids it, and once making or updating it has failed the pill
/// stays solid.
pub proof fn law_glass_fails_closed(b: Backdrop, requested: bool, high_contrast: bool, no_overlap: bool)
    ensures
        !requested || high_contrast || no_overlap ==> b.preparation(requested, high_contrast, no_overlap)
            == Preparation::Hide,
        b.unavailable ==> b.preparation(requested, high_contrast, no_overlap) != Preparation::Ready
            && b.preparation(requested, high_contrast, no_overlap) != Preparation::Make,
{
}

/// The glass has the radius that was asked for where the body can have it,
/// and half the body's smaller side where it cannot; a body without extent has
/// none.
pub proof fn law_radius_fits_the_smaller_side(w: i32, h: i32, radius: i64)
    ensures
        0 <= fitted_radius(w, h, radius),
        radius <= 0 || w <= 0 || h <= 0 ==> fitted_radius(w, h, radius) == 0,
        w > 0 && h > 0 && radius >= 0 ==> {
            &&& fitted_radius(w, h, radius) <= radius
            &&& 2 * fitted_radius(w, h, radius) <= 1000 * w && 2 * fitted_radius(w, h, radius) <= 1000 * h
            &&& fitted_radius(w, h, radius) == radius || 2 * fitted_radius(w, h, radius) == 1000 * w || 2
                * fitted_radius(w, h, radius) == 1000 * h
        },
{
}

/// An update names exactly what differs from the look that is asked for, and
/// names it as it is asked for.
pub proof fn law_glass_update_names_what_differs(g: Glass, w: i32, h: i32, radius: i64, tint: Tint, opacity: u8)
    ensures
        ({
            let u = g.changes(w, h, radius, tint, opacity);
            let fitted = fitted_radius(w, h, radius);
            let same = g.geometry matches Some(s) && s.w == w && s.h == h && s.radius == fitted;
            &&& same ==> u.geometry is None
            &&& !same ==> u.geometry is Some && u.geometry->0.w == w && u.geometry->0.h == h && u.geometry->0.radius
                == fitted
            &&& g.tint == tint ==> u.tint is None
            &&& g.tint != tint ==> u.tint == Some(tint)
            &&& g.opacity == opacity ==> u.opacity is None
            &&& g.opacity != opacity ==> u.opacity == Some(opacity)
        }),
{
}

/// The glass takes over the parts of an update that went through, in their
/// order, and no others.
pub proof fn law_glass_takes_over_what_went_through(g: Glass, u: GlassUpdate)
    ensures
        g.updated(u, 0) == g,
        u.geometry is Some ==> g.updated(u, 1).geometry == u.geometry,
        u.geometry is None ==> g.updated(u, 1).geometry == g.geometry,
        g.updated(u, 1).tint == g.tint && g.updated(u, 1).opacity == g.opacity,
        g.updated(u, 2).geometry == g.updated(u, 1).geometry,
        u.tint matches Some(t) ==> g.updated(u, 2).tint == t,
        u.tint is None ==> g.updated(u, 2).tint == g.tint,
        g.updated(u, 2).opacity == g.opacity,
        g.updated(u, 3).geometry == g.updated(u, 1).geometry,
        g.updated(u, 3).tint == g.updated(u, 2).tint,
        u.opacity matches Some(o) ==> g.updated(u, 3).opacity == o,
        u.opacity is None ==> g.updated(u, 3).opacity == g.opacity,
{
}

/// A request that nothing forbids is met where the glass is there, and leads
/// to making it where it is not and has not failed.
pub proof fn law_permitted_request_is_met(b: Backdrop)
    ensures
        !b.unavailable && b.glass is Some ==> b.preparation(true, false, false) == Preparation::Ready,
        !b.unavailable && b.glass is None ==> b.preparation(true, false, false) == Preparation::Make,
        b.unavailable ==> b.preparation(true, false, false) == Preparation::Unavailable,
{
}

/// The glass shows exactly where it is there and switched on.
pub proof fn law_glass_shows_where_it_is_on(b: Backdrop)
    ensures
        b.glass is None || !b.enabled ==> !b.is_active(),
        b.glass is Some && b.enabled ==> b.is_active(),
{
}

} // verus!
