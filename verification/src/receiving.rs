//! Media events, the notifications toggle and samples.
use crate::config::{after, debounce_ms, sample_duration, update_min_duration};
use crate::events::{held_belongs_to, state_of, track_of, MediaEvent, PlaybackState, TrackInfo};
use crate::ledger::{best_successor, pinned_track, successor};
use crate::overlay::{bump, OverlayState};
use crate::pill::{Effect, Env, Phase, Pill};
use crate::queue::{enqueue, has_track};
use crate::text::optional_text;
use vstd::prelude::*;
use vstd::string::*;

verus! {

impl OverlayState {
    pub(crate) fn note_event(&mut self, event: &MediaEvent)
        ensures
            final(self)@ == old(self)@.noted(*event),
    {
        proof {
            reveal(Pill::noted);
        }
        match event {
            MediaEvent::TrackChanged(track) => {
                if let Some(state) = track.playback_state {
                    self.remember_source_state(&track.source_app, state);
                }
            },
            MediaEvent::PlaybackStateChanged(state, source) => {
                self.remember_source_state(source, *state);
            },
            _ => {},
        }
    }

    pub(crate) fn on_screen(&self, source: &String) -> (r: bool)
        ensures
            r == self@.on_screen(source@),
    {
        !self.is_hidden() && held_belongs_to(&self.content, source)
    }

    pub(crate) fn receive_track(&mut self, track: TrackInfo, env: &Env)
        ensures
            final(self)@ == old(self)@.with_track(track, *env),
    {
        proof {
            reveal(Pill::with_track);
        }
        let refresh = match &self.content {
            Some(MediaEvent::TrackChanged(on_screen)) => on_screen.same_media(&track),
            _ => false,
        };
        if refresh {
            let extension: u64 = update_min_duration(&self.config);
            self.adopt(&track);
            self.update_content(MediaEvent::TrackChanged(track), extension, env);
        } else if self.held_expanded(env.now) || self.on_screen(&track.source_app) || self.persistent_active() {
            self.swap_to(track, env);
        } else if self.persistent_pre_first_show() {
            self.adopt(&track);
            self.show(MediaEvent::TrackChanged(track), true, env);
        } else {
            self.enqueue(MediaEvent::TrackChanged(track));
        }
    }

    pub(crate) fn receive_report(
        &mut self,
        source: &String,
        position_us: Option<i64>,
        duration_secs: Option<u64>,
        rate_milli: Option<i64>,
        env: &Env,
    )
        ensures
            final(self)@ == old(self)@.with_report(source@, position_us, duration_secs, rate_milli, *env),
    {
        proof {
            reveal(Pill::with_report);
        }
        if held_belongs_to(&self.content, source) {
            self.apply_progress(position_us, duration_secs, rate_milli, env.now);
            if !self.is_hidden() {
                self.render();
            }
        }
    }

    pub(crate) fn state_is_redundant(&self, state: PlaybackState, source: &String, batch: &Vec<MediaEvent>) -> (r: bool)
        ensures
            r == self@.state_is_redundant(state, source@, batch@),
    {
        proof {
            reveal(Pill::state_is_redundant);
        }
        let shows = if self.content.is_some() {
            held_belongs_to(&self.content, source)
        } else {
            held_belongs_to(&self.held_content, source)
        };
        if state == PlaybackState::Stopped && self.persistent() && !shows {
            return true;
        }
        if has_track(batch, source) || has_track(&self.pending, source) {
            return true;
        }
        if state != PlaybackState::Playing {
            return false;
        }
        if track_of(&self.content, source) {
            return true;
        }
        match &self.current_source {
            Some(c) => *c == *source && !state_of(&self.content, source),
            None => false,
        }
    }

    pub(crate) fn receive_state(&mut self, state: PlaybackState, source: String, batch: &Vec<MediaEvent>, env: &Env)
        ensures
            final(self)@ == old(self)@.with_state(state, source, batch@, *env),
    {
        proof {
            reveal(Pill::with_state);
        }
        if self.state_is_redundant(state, &source, batch) {
            return;
        }
        let in_place = track_of(&self.content, &source) || state_of(&self.content, &source) || self.persistent_active();
        let event = MediaEvent::PlaybackStateChanged(state, source);
        if in_place {
            let full: u64 = sample_duration(&self.config);
            self.update_content(event, full, env);
        } else if self.persistent_pre_first_show() {
            self.show(event, false, env);
        } else {
            self.enqueue(event);
        }
    }

    pub(crate) fn receive_event(&mut self, event: MediaEvent, batch: &Vec<MediaEvent>, env: &Env)
        ensures
            final(self)@ == old(self)@.after_event(event, batch@, *env),
    {
        proof {
            reveal(Pill::after_event);
        }
        self.note_event(&event);
        match event {
            MediaEvent::SessionRejected { source_app, .. } => {
                self.retire_source(&source_app, env);
            },
            MediaEvent::SourceGone { source_app } => {
                self.retire_source_gone(&source_app, env);
            },
            MediaEvent::TrackChanged(track) => {
                if !self.enabled {
                    self.cache_track(&track);
                } else if self.config.behavior.enable_track_change {
                    self.receive_track(track, env);
                }
            },
            MediaEvent::PlaybackStateChanged(state, source) => {
                if self.enabled && self.config.behavior.enable_playback_state_change {
                    self.receive_state(state, source, batch, env);
                }
            },
            MediaEvent::ProgressChanged { source_app, position_us, duration_secs, playback_rate_milli } => {
                if self.enabled {
                    self.receive_report(&source_app, position_us, duration_secs, playback_rate_milli, env);
                }
            },
            _ => {},
        }
    }

    /// Takes a batch of media events. What still waits afterwards is
    /// debounced.
    pub fn receive_events(&mut self, batch: &Vec<MediaEvent>, env: &Env)
        ensures
            final(self)@ == old(self)@.received(batch@, *env),
    {
        proof {
            reveal(Pill::received);
        }
        let mut i: usize = 0;
        while i < batch.len()
            invariant
                i <= batch@.len(),
                self@ == old(self)@.after_events(batch@, i as nat, *env),
            decreases batch@.len() - i,
        {
            self.receive_event(batch[i].clone(), batch, env);
            i = i + 1;
        }
        if self.pending.len() > 0 {
            let interval: u32 = debounce_ms(&self.config);
            self.emit(Effect::StopDebounce);
            self.emit(Effect::StartDebounce(interval));
        }
    }

    /// The remembered track that the pin resolves to, while the pin plays.
    pub fn pinned_track(&self) -> (r: Option<TrackInfo>)
        ensures
            r == crate::ledger::pinned(
                self@.track_cache,
                self@.source_state,
                optional_text(self.config.behavior.pinned_source),
            ),
    {
        pinned_track(&self.track_cache, &self.source_state, &self.config.behavior.pinned_source)
    }

    /// The most recent remembered track of a playing source other than
    /// `excluded`.
    pub fn best_successor(&self, excluded: &str) -> (r: Option<TrackInfo>)
        ensures
            r == successor(self@.track_cache, self@.source_state, excluded@),
    {
        best_successor(&self.track_cache, &self.source_state, excluded)
    }

    /// Turns notifications on or off. Turning them off hides the pill and
    /// empties the queue; turning them on shows the playing pin, else the most
    /// recent playing source, else what was held, else the last track.
    pub fn toggle_enabled(&mut self, env: &Env)
        ensures
            final(self)@ == old(self)@.toggled(*env),
    {
        proof {
            reveal(Pill::toggled);
            reveal(Pill::restored);
        }
        self.enabled = !self.enabled;
        if !self.enabled {
            self.pending.clear();
            self.hide_pill(env);
            return;
        }
        proof {
            reveal_strlit("");
            assert(""@ =~= Seq::<char>::empty());
        }
        if let Some(track) = self.pinned_track() {
            self.show(MediaEvent::TrackChanged(track), true, env);
        } else if let Some(track) = self.best_successor("") {
            self.show(MediaEvent::TrackChanged(track), true, env);
        } else if let Some(event) = self.held_content.take() {
            self.show(event, true, env);
        } else if let Some(track) = &self.last_track {
            let event = MediaEvent::TrackChanged(track.clone());
            self.show(event, true, env);
        }
    }

    pub(crate) fn sample_with(&mut self, track: TrackInfo, env: &Env)
        ensures
            final(self)@ == old(self)@.sampled_with(track, *env),
    {
        proof {
            reveal(Pill::sampled_with);
        }
        self.emit(Effect::StopIdleRelease);
        self.refresh_layout(env);
        self.look.content_rev = bump(self.look.content_rev);
        self.look.content_palette = track.palette;
        self.content = Some(MediaEvent::TrackChanged(track));
        self.resolve_pill_text();
        self.reset_scroll(env.now);
        let full: u64 = sample_duration(&self.config);
        self.dismiss_at = Some(after(env.now, full));
        self.hover.dismiss_at = None;
        self.hover.expand = None;
        self.hover.expanded_once = false;
        self.hover.leave_at = None;
        self.look.fade = None;
        self.rest.watchdog = false;
        self.phase = Phase::Light(env.now);
        self.sync_anim_timer(env);
        self.emit(Effect::ShowWindow);
        self.render();
    }

    /// Previews the pill at its current position: with the last track, or
    /// with sample data before any track was seen.
    pub fn show_sample(&mut self, env: &Env)
        ensures
            previews(old(self)@, final(self)@, *env),
    {
        let track = match &self.last_track {
            Some(t) => t.clone(),
            None => sample_track(),
        };
        self.sample_with(track, env);
    }

    /// Previews a hidden pill. Answers whether it did.
    pub fn preview_if_hidden(&mut self, env: &Env) -> (r: bool)
        ensures
            r == old(self)@.is_hidden(),
            !r ==> final(self)@ == old(self)@,
            r ==> previews(old(self)@, final(self)@, *env),
    {
        if self.is_hidden() {
            self.show_sample(env);
            true
        } else {
            false
        }
    }

    /// Gives the frame buffers back after a long idle stretch, once.
    pub fn release_idle_buffers(&mut self)
        ensures
            final(self)@ == old(self)@.released(),
    {
        self.frame.has_frame = false;
        self.emit(Effect::StopIdleRelease);
        self.emit(Effect::ReleaseBuffers);
    }
}

/// The sample data of a preview.
pub open spec fn is_sample(t: TrackInfo) -> bool {
    &&& t.title@ == "Sample Track"@
    &&& t.artist@ == "Sample Artist"@
    &&& t.album@ == "Sample Album"@
    &&& t.source_app@ == "Example Player"@
    &&& t.album_artist@.len() == 0
    &&& t.subtitle@.len() == 0
    &&& t.genre is None
    &&& t.duration_secs == Some(225u64)
    &&& t.track_number is None
    &&& t.track_count is None
    &&& t.artwork is None
    &&& t.decoded_art is None
    &&& t.app_icon is None
    &&& t.palette is None
    &&& t.playback_state is None
    &&& t.position_us is None
    &&& t.position_updated_at is None
    &&& t.playback_rate_milli is None
}

/// Whether `after` previews `before`: with the last track, or with sample
/// data before any track was seen.
pub open spec fn previews(before: Pill, after: Pill, env: Env) -> bool {
    match before.last_track {
        Some(track) => after == before.sampled_with(track, env),
        None => exists|track: TrackInfo| is_sample(track) && after == #[trigger] before.sampled_with(track, env),
    }
}

pub(crate) fn sample_track() -> (r: TrackInfo)
    ensures
        is_sample(r),
{
    let mut track = TrackInfo::default();
    track.title = String::from_str("Sample Track");
    track.artist = String::from_str("Sample Artist");
    track.album = String::from_str("Sample Album");
    track.source_app = String::from_str("Example Player");
    track.duration_secs = Some(225);
    track
}

} // verus!
