//! Settings pushed to the live overlay, which keeps its own snapshot of the
//! configuration.
use crate::config::{
    clamp_duration, clamped_duration, full_duration, later, BehaviorConfig, Config, LayoutMode, OverlayConfig,
    OverlayPos,
};
use crate::events::{MediaEvent, TrackInfo};
use crate::outcomes::law_sample_is_only_for_show;
use crate::overlay::OverlayState;
use crate::pill::{Env, Hover, Look, Phase, Pill, Place, Rest};
use crate::receiving::{is_sample, previews};
use crate::text::{optional_text, trim, trimmed};
use vstd::prelude::*;

verus! {

/// A pin as it is stored: without outer white space, and no pin where nothing
/// is left.
pub open spec fn stored_pin(pin: Option<String>) -> Option<Seq<char>> {
    match pin {
        Some(p) => if trimmed(p@).len() > 0 {
            Some(trimmed(p@))
        } else {
            None
        },
        None => None,
    }
}

impl Pill {
    /// With another `[overlay]` section.
    pub open spec fn with_overlay(self, overlay: OverlayConfig) -> Pill {
        Pill { config: Config { overlay, ..self.config }, ..self }
    }

    /// With another `[behavior]` section.
    pub open spec fn with_behavior(self, behavior: BehaviorConfig) -> Pill {
        Pill { config: Config { behavior, ..self.config }, ..self }
    }

    /// With other placements.
    pub open spec fn placed(self, expanded: OverlayPos, compact: OverlayPos) -> Pill {
        Pill { place: Place { expanded, compact, ..self.place }, ..self }
    }

    /// With another layout mode, and nothing left of a morph, a dissolve or
    /// a rest that belonged to the old one.
    pub open spec fn with_mode(self, mode: LayoutMode) -> Pill {
        Pill {
            hover: Hover { expand: None, expanded_once: false, ..self.hover },
            look: Look { fade: None, ..self.look },
            rest: Rest { faded: false, collapse_on_dismiss: false, ..self.rest },
            ..self.with_overlay(OverlayConfig { layout: mode, ..self.config.overlay })
        }
    }

    /// With the compact placement separated or not.
    pub open spec fn separated(self, separate: bool) -> Pill {
        self.with_overlay(OverlayConfig { compact_position_separate: separate, ..self.config.overlay })
    }

    /// With the idle fade on or off, at full opacity.
    pub open spec fn fading(self, enabled: bool) -> Pill {
        Pill {
            rest: Rest { faded: false, ..self.rest },
            ..self.with_overlay(OverlayConfig { fade_persistent_pill: enabled, ..self.config.overlay })
        }
    }
}

impl OverlayState {
    /// Applies new placements: a visible pill moves, a hidden one previews.
    pub fn set_positions(&mut self, pos: OverlayPos, compact_pos: OverlayPos, env: &Env)
        ensures
            old(self)@.is_hidden() ==> previews(old(self)@.placed(pos, compact_pos), final(self)@, *env),
            !old(self)@.is_hidden() ==> final(self)@ == old(self)@.placed(pos, compact_pos).repositioned(*env),
    {
        self.place.expanded = pos;
        self.place.compact = compact_pos;
        if !self.preview_if_hidden(env) {
            self.reposition(env);
        }
    }

    /// Applies a notification duration, brought into the configurable range.
    pub fn set_duration(&mut self, duration_ms: u64)
        ensures
            final(self)@ == old(self)@.with_overlay(
                OverlayConfig { duration_ms: clamped_duration(duration_ms), ..old(self)@.config.overlay },
            ),
    {
        self.config.overlay.duration_ms = clamp_duration(duration_ms);
    }

    /// Applies a layout mode: a visible pill is laid out anew, a hidden one
    /// previews.
    pub fn set_layout(&mut self, mode: LayoutMode, env: &Env)
        ensures
            old(self)@.is_hidden() ==> previews(old(self)@.with_mode(mode), final(self)@, *env),
            !old(self)@.is_hidden() ==> final(self)@ == old(self)@.with_mode(mode).relaid(*env).rendered(),
    {
        self.config.overlay.layout = mode;
        self.hover.expand = None;
        self.hover.expanded_once = false;
        self.look.fade = None;
        self.rest.faded = false;
        self.rest.collapse_on_dismiss = false;
        if !self.preview_if_hidden(env) {
            self.refresh_layout(env);
            self.render();
        }
    }

    /// Separates the compact placement from the expanded one, or joins them.
    pub fn set_compact_separate(&mut self, separate: bool, env: &Env)
        ensures
            old(self)@.is_hidden() ==> previews(old(self)@.separated(separate), final(self)@, *env),
            !old(self)@.is_hidden() ==> final(self)@ == old(self)@.separated(separate).rendered(),
    {
        self.config.overlay.compact_position_separate = separate;
        if !self.preview_if_hidden(env) {
            self.render();
        }
    }

    /// Applies the dismiss-on-hover setting, for the next hover.
    pub fn set_dismiss_on_hover(&mut self, enabled: bool)
        ensures
            final(self)@ == old(self)@.with_overlay(
                OverlayConfig { dismiss_on_hover: enabled, ..old(self)@.config.overlay },
            ),
    {
        self.config.overlay.dismiss_on_hover = enabled;
    }

    /// Applies the expand-on-hover setting, for the next hover.
    pub fn set_expand_compact_on_hover(&mut self, enabled: bool)
        ensures
            final(self)@ == old(self)@.with_overlay(
                OverlayConfig { expand_compact_on_hover: enabled, ..old(self)@.config.overlay },
            ),
    {
        self.config.overlay.expand_compact_on_hover = enabled;
    }

    /// Applies the idle-fade setting. A faded pill is solid again at once; a
    /// pill that is hidden or on its way out is left alone.
    pub fn set_fade_persistent_pill(&mut self, enabled: bool)
        ensures
            old(self)@.is_hidden() || old(self)@.is_collapsing() ==> final(self)@ == old(self)@.fading(enabled),
            !old(self)@.is_hidden() && !old(self)@.is_collapsing() ==> final(self)@ == old(self)@.fading(
                enabled,
            ).rendered(),
    {
        self.config.overlay.fade_persistent_pill = enabled;
        self.rest.faded = false;
        if !matches!(self.phase, Phase::Hidden | Phase::Collapsing(_)) {
            self.render();
        }
    }

    /// Applies a pinned source.
    pub fn set_pinned_source(&mut self, pin: Option<String>)
        ensures
            optional_text(final(self)@.config.behavior.pinned_source) == stored_pin(pin),
            final(self)@ == old(self)@.with_behavior(
                BehaviorConfig {
                    pinned_source: final(self)@.config.behavior.pinned_source,
                    ..old(self)@.config.behavior
                },
            ),
    {
        self.config.behavior.pinned_source = match pin {
            Some(p) => {
                let stored = trim(p.as_str());
                if stored.as_str().is_empty() {
                    None
                } else {
                    Some(stored)
                }
            },
            None => None,
        };
    }

    /// Applies the auto-hide setting, for the next foreground change.
    pub fn set_hide_for_auto_compact_sources(&mut self, enabled: bool)
        ensures
            final(self)@ == old(self)@.with_behavior(
                BehaviorConfig { hide_for_auto_compact_sources: enabled, ..old(self)@.config.behavior },
            ),
    {
        self.config.behavior.hide_for_auto_compact_sources = enabled;
    }
}

/// A pin is stored without outer white space; a blank one, like none, is no
/// pin.
pub proof fn law_blank_pin_is_no_pin(pin: String)
    ensures
        stored_pin(None) is None,
        trimmed(pin@).len() == 0 ==> stored_pin(Some(pin)) is None,
        trimmed(pin@).len() > 0 ==> stored_pin(Some(pin)) == Some(trimmed(pin@)),
{
}

/// Another layout mode ends the morph, the dissolve, the fade and a pending
/// collapse of the old one, and changes nothing else.
pub proof fn law_new_mode_ends_what_belonged_to_the_old(p: Pill, mode: LayoutMode)
    ensures
        ({
            let s = p.with_mode(mode);
            &&& s.config.overlay == (OverlayConfig { layout: mode, ..p.config.overlay })
            &&& s.config.behavior == p.config.behavior && s.config.appearance == p.config.appearance
            &&& s.hover.expand is None && !s.hover.expanded_once
            &&& s.hover.dismiss_at == p.hover.dismiss_at && s.hover.leave_at == p.hover.leave_at
            &&& s.hover.cursor_over == p.hover.cursor_over
            &&& s.look.fade is None
            &&& s.look.scroll == p.look.scroll && s.look.text == p.look.text && s.look.art == p.look.art
            &&& !s.rest.faded && !s.rest.collapse_on_dismiss && s.rest.watchdog == p.rest.watchdog
            &&& s.content == p.content && s.phase == p.phase && s.dismiss_at == p.dismiss_at
            &&& s.held_content == p.held_content && s.pending == p.pending && s.place == p.place
            &&& s.timer == p.timer && s.effects == p.effects
        }),
{
}

/// Each of the other settings changes its own value. Only the idle fade makes
/// a faded pill solid as well.
pub proof fn law_settings_change_their_own_value(p: Pill, on: bool, expanded: OverlayPos, compact: OverlayPos)
    ensures
        p.separated(on).config.overlay == (OverlayConfig { compact_position_separate: on, ..p.config.overlay }),
        p.separated(on) == (Pill { config: p.separated(on).config, ..p }),
        p.separated(on).config.behavior == p.config.behavior,
        p.separated(on).config.appearance == p.config.appearance,
        p.fading(on).config.overlay == (OverlayConfig { fade_persistent_pill: on, ..p.config.overlay }),
        p.fading(on).config.behavior == p.config.behavior,
        p.fading(on).config.appearance == p.config.appearance,
        !p.fading(on).rest.faded,
        p.fading(on).rest.collapse_on_dismiss == p.rest.collapse_on_dismiss,
        p.fading(on).rest.watchdog == p.rest.watchdog,
        p.fading(on) == (Pill { config: p.fading(on).config, rest: p.fading(on).rest, ..p }),
        p.placed(expanded, compact).place.expanded == expanded,
        p.placed(expanded, compact).place.compact == compact,
        p.placed(expanded, compact).place.layout == p.place.layout,
        p.placed(expanded, compact).place.anchor_edge == p.place.anchor_edge,
        p.placed(expanded, compact) == (Pill { place: p.placed(expanded, compact).place, ..p }),
{
}

/// A section that is replaced leaves the other sections as they were.
pub proof fn law_sections_are_replaced_whole(p: Pill, overlay: OverlayConfig, behavior: BehaviorConfig)
    ensures
        p.with_overlay(overlay).config.overlay == overlay,
        p.with_overlay(overlay).config.behavior == p.config.behavior,
        p.with_overlay(overlay).config.appearance == p.config.appearance,
        p.with_overlay(overlay) == (Pill { config: p.with_overlay(overlay).config, ..p }),
        p.with_behavior(behavior).config.behavior == behavior,
        p.with_behavior(behavior).config.overlay == p.config.overlay,
        p.with_behavior(behavior).config.appearance == p.config.appearance,
        p.with_behavior(behavior) == (Pill { config: p.with_behavior(behavior).config, ..p }),
{
}

/// A preview of a hidden pill shows the last track, or sample data before any
/// track was seen, for the full time.
pub proof fn law_preview_shows_the_last_track(before: Pill, after: Pill, env: Env)
    requires
        previews(before, after, env),
    ensures
        after.phase == Phase::Light(env.now),
        after.dismiss_at == Some(later(env.now, full_duration(before.config))),
        before.last_track matches Some(t) ==> after.content == Some(MediaEvent::TrackChanged(t)),
        before.last_track is None ==> (after.content matches Some(MediaEvent::TrackChanged(t)) && t.title@
            == "Sample Track"@ && t.artist@ == "Sample Artist"@ && t.source_app@ == "Example Player"@),
        after.last_track == before.last_track && after.held_content == before.held_content,
        after.pending == before.pending && after.track_cache == before.track_cache,
{
    if let Some(track) = before.last_track {
        law_sample_is_only_for_show(before, track, env);
    } else {
        let track = choose|track: TrackInfo| is_sample(track) && after == #[trigger] before.sampled_with(track, env);
        law_sample_is_only_for_show(before, track, env);
    }
}

} // verus!
