//! Verified core of a passive now-playing overlay pill.

use vstd::prelude::*;

pub mod backdrop;
pub mod config;
pub mod drawing;
pub mod events;
pub mod fullscreen;
pub mod geometry;
pub mod hover;
pub mod ledger;
pub mod order;
pub mod outcomes;
pub mod overlay;
pub mod pill;
pub mod pixels;
pub mod progress;
pub mod promises;
pub mod queue;
pub mod receiving;
pub mod settings;
pub mod showing;
pub mod text;
pub mod ticking;
pub mod ticks;
pub mod window;

verus! {

/// Whether the pill's fonts must be rebuilt: the target's DPI differs from
/// the DPI the fonts were built for, which is 0 before the first frame.
pub fn needs_font_rebuild(fonts_dpi: u32, target_dpi: u32) -> (r: bool)
    ensures
        r == (fonts_dpi != target_dpi),
{
    fonts_dpi != target_dpi
}

} // verus!
