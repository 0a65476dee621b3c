//! Media events as the pill sees them: tracks, playback states and the
//! notices that never become a pill. Positions are microseconds, playback
//! rates thousandths, clock readings milliseconds.
use crate::config::Color;
use std::sync::Arc;
use vstd::prelude::*;

verus! {

/// A source's playback state.
#[derive(Clone, Copy, Debug, PartialEq, Eq, Structural)]
pub enum PlaybackState {
    Playing,
    Paused,
    Stopped,
    /// No state was reported: the plain now-playing symbol.
    NowPlaying,
}

/// The two colors extracted from a cover.
#[derive(Clone, Copy, Debug, PartialEq, Eq, Structural)]
pub struct Palette {
    pub primary: Color,
    pub secondary: Color,
}

/// One track as reported by a source app.
#[derive(Debug)]
pub struct TrackInfo {
    pub title: String,
    pub artist: String,
    pub album: String,
    pub album_artist: String,
    pub subtitle: String,
    pub source_app: String,
    pub genre: Option<String>,
    pub duration_secs: Option<u64>,
    pub track_number: Option<u32>,
    pub track_count: Option<u32>,
    /// The raw cover bytes.
    pub artwork: Option<Arc<Vec<u8>>>,
    /// The decoded cover: premultiplied pixels.
    pub decoded_art: Option<Arc<Vec<u8>>>,
    pub app_icon: Option<Arc<Vec<u8>>>,
    pub palette: Option<Palette>,
    /// The state at the moment of the snapshot; `None` for a transitional read.
    pub playback_state: Option<PlaybackState>,
    pub position_us: Option<i64>,
    pub position_updated_at: Option<u64>,
    pub playback_rate_milli: Option<i64>,
}

/// Another handle on the same bytes.
pub fn share(bytes: &Option<Arc<Vec<u8>>>) -> (r: Option<Arc<Vec<u8>>>)
    ensures
        r == *bytes,
{
    match bytes {
        Some(b) => Some(b.clone()),
        None => None,
    }
}

impl Clone for TrackInfo {
    fn clone(&self) -> (r: Self)
        ensures
            r == *self,
    {
        TrackInfo {
            title: self.title.clone(),
            artist: self.artist.clone(),
            album: self.album.clone(),
            album_artist: self.album_artist.clone(),
            subtitle: self.subtitle.clone(),
            source_app: self.source_app.clone(),
            genre: self.genre.clone(),
            duration_secs: self.duration_secs,
            track_number: self.track_number,
            track_count: self.track_count,
            artwork: share(&self.artwork),
            decoded_art: share(&self.decoded_art),
            app_icon: share(&self.app_icon),
            palette: self.palette,
            playback_state: self.playback_state,
            position_us: self.position_us,
            position_updated_at: self.position_updated_at,
            playback_rate_milli: self.playback_rate_milli,
        }
    }
}

impl Default for TrackInfo {
    fn default() -> (r: Self)
        ensures
            r.title@.len() == 0,
            r.artist@.len() == 0,
            r.album@.len() == 0,
            r.album_artist@.len() == 0,
            r.subtitle@.len() == 0,
            r.source_app@.len() == 0,
            r.genre is None,
            r.duration_secs is None,
            r.track_number is None,
            r.track_count is None,
            r.artwork is None,
            r.decoded_art is None,
            r.app_icon is None,
            r.palette is None,
            r.playback_state is None,
            r.position_us is None,
            r.position_updated_at is None,
            r.playback_rate_milli is None,
    {
        TrackInfo {
            title: String::new(),
            artist: String::new(),
            album: String::new(),
            album_artist: String::new(),
            subtitle: String::new(),
            source_app: String::new(),
            genre: None,
            duration_secs: None,
            track_number: None,
            track_count: None,
            artwork: None,
            decoded_art: None,
            app_icon: None,
            palette: None,
            playback_state: None,
            position_us: None,
            position_updated_at: None,
            playback_rate_milli: None,
        }
    }
}

/// Whether two byte buffers hold the same bytes.
pub fn bytes_equal(a: &Vec<u8>, b: &Vec<u8>) -> (r: bool)
    ensures
        r == (a@ == b@),
{
    if a.len() != b.len() {
        return false;
    }
    let mut i: usize = 0;
    while i < a.len()
        invariant
            a@.len() == b@.len(),
            i <= a@.len(),
            forall|k: int| 0 <= k < i ==> a@[k] == b@[k],
        decreases a@.len() - i,
    {
        if a[i] != b[i] {
            return false;
        }
        i = i + 1;
    }
    assert(a@ =~= b@);
    true
}

/// Whether two optional buffers are both missing, or both present with the
/// same bytes.
pub open spec fn same_art(a: Option<Arc<Vec<u8>>>, b: Option<Arc<Vec<u8>>>) -> bool {
    match (a, b) {
        (Some(x), Some(y)) => x@ == y@,
        (None, None) => true,
        _ => false,
    }
}

/// Whether two optional buffers are both missing, or both present with the
/// same bytes.
pub fn artwork_same(a: &Option<Arc<Vec<u8>>>, b: &Option<Arc<Vec<u8>>>) -> (r: bool)
    ensures
        r == same_art(*a, *b),
{
    match (a, b) {
        (Some(x), Some(y)) => bytes_equal(x, y),
        (None, None) => true,
        _ => false,
    }
}

/// `new` where it holds text, `old` otherwise.
pub open spec fn newer_text(old_text: String, new_text: String) -> String {
    if new_text@.len() > 0 {
        new_text
    } else {
        old_text
    }
}

/// The newer value where there is one.
pub open spec fn newer<T>(old_value: Option<T>, new_value: Option<T>) -> Option<T> {
    if new_value is Some {
        new_value
    } else {
        old_value
    }
}

impl TrackInfo {
    /// Whether two snapshots are of the same media: the same source, title
    /// and artist, and not two different covers. A cover missing on either
    /// side tells nothing.
    pub open spec fn is_same_media(self, other: TrackInfo) -> bool {
        &&& self.source_app@ == other.source_app@
        &&& self.title@ == other.title@
        &&& self.artist@ == other.artist@
        &&& (self.artwork is Some && other.artwork is Some ==> same_art(self.artwork, other.artwork))
    }

    /// Whether two snapshots are of the same media.
    pub fn same_media(&self, other: &TrackInfo) -> (r: bool)
        ensures
            r == self.is_same_media(*other),
    {
        self.source_app == other.source_app && self.title == other.title && self.artist == other.artist && (
        self.artwork.is_none() || other.artwork.is_none() || artwork_same(&self.artwork, &other.artwork))
    }

    /// This track with every field that the refresh carries. What the
    /// refresh leaves empty stays, so an art-less refresh keeps the cover.
    pub open spec fn merged(self, refresh: TrackInfo) -> TrackInfo {
        TrackInfo {
            title: self.title,
            artist: self.artist,
            album: newer_text(self.album, refresh.album),
            album_artist: newer_text(self.album_artist, refresh.album_artist),
            subtitle: newer_text(self.subtitle, refresh.subtitle),
            source_app: self.source_app,
            genre: newer(self.genre, refresh.genre),
            duration_secs: newer(self.duration_secs, refresh.duration_secs),
            track_number: newer(self.track_number, refresh.track_number),
            track_count: newer(self.track_count, refresh.track_count),
            artwork: newer(self.artwork, refresh.artwork),
            decoded_art: newer(self.decoded_art, refresh.decoded_art),
            app_icon: newer(self.app_icon, refresh.app_icon),
            palette: newer(self.palette, refresh.palette),
            playback_state: newer(self.playback_state, refresh.playback_state),
            position_us: newer(self.position_us, refresh.position_us),
            position_updated_at: newer(self.position_updated_at, refresh.position_updated_at),
            playback_rate_milli: newer(self.playback_rate_milli, refresh.playback_rate_milli),
        }
    }

    /// Takes over every field that a late refresh of the same media carries.
    pub fn merge_late_metadata(&mut self, refresh: &TrackInfo)
        ensures
            *final(self) == old(self).merged(*refresh),
    {
        if !refresh.album.as_str().is_empty() {
            self.album = refresh.album.clone();
        }
        if !refresh.album_artist.as_str().is_empty() {
            self.album_artist = refresh.album_artist.clone();
        }
        if !refresh.subtitle.as_str().is_empty() {
            self.subtitle = refresh.subtitle.clone();
        }
        if refresh.genre.is_some() {
            self.genre = refresh.genre.clone();
        }
        if refresh.duration_secs.is_some() {
            self.duration_secs = refresh.duration_secs;
        }
        if refresh.track_number.is_some() {
            self.track_number = refresh.track_number;
        }
        if refresh.track_count.is_some() {
            self.track_count = refresh.track_count;
        }
        if refresh.artwork.is_some() {
            self.artwork = share(&refresh.artwork);
        }
        if refresh.decoded_art.is_some() {
            self.decoded_art = share(&refresh.decoded_art);
        }
        if refresh.app_icon.is_some() {
            self.app_icon = share(&refresh.app_icon);
        }
        if refresh.palette.is_some() {
            self.palette = refresh.palette;
        }
        if refresh.playback_state.is_some() {
            self.playback_state = refresh.playback_state;
        }
        if refresh.position_us.is_some() {
            self.position_us = refresh.position_us;
        }
        if refresh.position_updated_at.is_some() {
            self.position_updated_at = refresh.position_updated_at;
        }
        if refresh.playback_rate_milli.is_some() {
            self.playback_rate_milli = refresh.playback_rate_milli;
        }
    }

    /// This track without its raw cover bytes.
    pub open spec fn without_artwork(self) -> TrackInfo {
        TrackInfo { artwork: None, ..self }
    }
}

/// A media snapshot is the same media as itself.
pub proof fn law_same_media_is_reflexive(t: TrackInfo)
    ensures
        t.is_same_media(t),
{
}

/// Media identity does not depend on the order of the two snapshots.
pub proof fn law_same_media_is_symmetric(a: TrackInfo, b: TrackInfo)
    ensures
        a.is_same_media(b) == b.is_same_media(a),
{
}

/// A merge keeps the identity of the queued track, and merging the same
/// refresh again changes nothing.
pub proof fn law_merge_keeps_identity(queued: TrackInfo, refresh: TrackInfo)
    ensures
        queued.merged(refresh).source_app == queued.source_app,
        queued.merged(refresh).title == queued.title,
        queued.merged(refresh).artist == queued.artist,
        queued.merged(refresh).merged(refresh) == queued.merged(refresh),
        refresh.artwork is None ==> queued.merged(refresh).artwork == queued.artwork,
        refresh.decoded_art is None ==> queued.merged(refresh).decoded_art == queued.decoded_art,
{
}

/// The playback glyph for a track: the state its snapshot carries, else the
/// plain now-playing symbol.
pub fn playback_state_for_track(track: &TrackInfo) -> (r: PlaybackState)
    ensures
        r == (match track.playback_state {
            Some(s) => s,
            None => PlaybackState::NowPlaying,
        }),
{
    match track.playback_state {
        Some(s) => s,
        None => PlaybackState::NowPlaying,
    }
}

/// One event from the media worker.
#[derive(Debug)]
pub enum MediaEvent {
    TrackChanged(TrackInfo),
    PlaybackStateChanged(PlaybackState, String),
    ProgressChanged {
        source_app: String,
        position_us: Option<i64>,
        duration_secs: Option<u64>,
        playback_rate_milli: Option<i64>,
    },
    /// A source that is not, or no longer, allowed.
    SessionRejected {
        source_app: String,
        title: String,
        artist: String,
        state: PlaybackState,
        accepted: bool,
    },
    /// A source whose sessions all settled.
    SourceGone { source_app: String },
    WorkerFailed { reason: String },
    ArtworkBudgetExceeded,
}

impl Clone for MediaEvent {
    fn clone(&self) -> (r: Self)
        ensures
            r == *self,
    {
        match self {
            MediaEvent::TrackChanged(track) => MediaEvent::TrackChanged(track.clone()),
            MediaEvent::PlaybackStateChanged(state, source) => MediaEvent::PlaybackStateChanged(
                *state,
                source.clone(),
            ),
            MediaEvent::ProgressChanged { source_app, position_us, duration_secs, playback_rate_milli } => {
                MediaEvent::ProgressChanged {
                    source_app: source_app.clone(),
                    position_us: *position_us,
                    duration_secs: *duration_secs,
                    playback_rate_milli: *playback_rate_milli,
                }
            },
            MediaEvent::SessionRejected { source_app, title, artist, state, accepted } => {
                MediaEvent::SessionRejected {
                    source_app: source_app.clone(),
                    title: title.clone(),
                    artist: artist.clone(),
                    state: *state,
                    accepted: *accepted,
                }
            },
            MediaEvent::SourceGone { source_app } => MediaEvent::SourceGone {
                source_app: source_app.clone(),
            },
            MediaEvent::WorkerFailed { reason } => MediaEvent::WorkerFailed { reason: reason.clone() },
            MediaEvent::ArtworkBudgetExceeded => MediaEvent::ArtworkBudgetExceeded,
        }
    }
}

/// The source that a showable event belongs to; `None` for the events that
/// never become a pill.
pub open spec fn source_of(event: MediaEvent) -> Option<Seq<char>> {
    match event {
        MediaEvent::TrackChanged(track) => Some(track.source_app@),
        MediaEvent::PlaybackStateChanged(_, source) => Some(source@),
        _ => None,
    }
}

/// The source that a held event belongs to, if there is one.
pub open spec fn source_of_held(event: Option<MediaEvent>) -> Option<Seq<char>> {
    match event {
        Some(e) => source_of(e),
        None => None,
    }
}

/// The source that a showable event belongs to.
pub fn event_source(event: &MediaEvent) -> (r: Option<&String>)
    ensures
        match r {
            Some(s) => source_of(*event) == Some(s@),
            None => source_of(*event) is None,
        },
{
    match event {
        MediaEvent::TrackChanged(track) => Some(&track.source_app),
        MediaEvent::PlaybackStateChanged(_, source) => Some(source),
        _ => None,
    }
}

/// Whether a showable event belongs to `source`.
pub fn belongs_to(event: &MediaEvent, source: &String) -> (r: bool)
    ensures
        r == (source_of(*event) == Some(source@)),
{
    match event_source(event) {
        Some(s) => *s == *source,
        None => false,
    }
}

/// Whether held content belongs to `source`.
pub fn held_belongs_to(event: &Option<MediaEvent>, source: &String) -> (r: bool)
    ensures
        r == (source_of_held(*event) == Some(source@)),
{
    match event {
        Some(e) => belongs_to(e, source),
        None => false,
    }
}

/// Whether the content is a track pill of the given source.
pub open spec fn is_track_of(content: Option<MediaEvent>, source: Seq<char>) -> bool {
    content matches Some(MediaEvent::TrackChanged(t)) && t.source_app@ == source
}

/// Whether the content is a track pill of the given source.
pub fn track_of(content: &Option<MediaEvent>, source: &String) -> (r: bool)
    ensures
        r == is_track_of(*content, source@),
{
    match content {
        Some(MediaEvent::TrackChanged(t)) => t.source_app == *source,
        _ => false,
    }
}

/// Whether the content is a state pill of the given source.
pub open spec fn is_state_of(content: Option<MediaEvent>, source: Seq<char>) -> bool {
    content matches Some(MediaEvent::PlaybackStateChanged(_, s)) && s@ == source
}

/// Whether the content is a state pill of the given source.
pub fn state_of(content: &Option<MediaEvent>, source: &String) -> (r: bool)
    ensures
        r == is_state_of(*content, source@),
{
    match content {
        Some(MediaEvent::PlaybackStateChanged(_, s)) => *s == *source,
        _ => false,
    }
}

/// Whether the content is a Stopped-state pill: its source is done.
pub open spec fn is_tombstone(content: Option<MediaEvent>) -> bool {
    content matches Some(MediaEvent::PlaybackStateChanged(PlaybackState::Stopped, _))
}

/// Whether the content counts as playing. A track snapshot without a state
/// counts as playing.
pub open spec fn is_playing(content: Option<MediaEvent>) -> bool {
    match content {
        Some(MediaEvent::TrackChanged(track)) => track.playback_state is None || track.playback_state == Some(
            PlaybackState::Playing,
        ),
        Some(MediaEvent::PlaybackStateChanged(state, _)) => state == PlaybackState::Playing,
        _ => false,
    }
}

/// Whether the content counts as playing.
pub fn content_playing(content: &Option<MediaEvent>) -> (r: bool)
    ensures
        r == is_playing(*content),
{
    match content {
        Some(MediaEvent::TrackChanged(track)) => match track.playback_state {
            Some(state) => state == PlaybackState::Playing,
            None => true,
        },
        Some(MediaEvent::PlaybackStateChanged(state, _)) => *state == PlaybackState::Playing,
        _ => false,
    }
}

/// Whether the content is a Stopped-state pill.
pub fn content_stopped(content: &Option<MediaEvent>) -> (r: bool)
    ensures
        r == is_tombstone(*content),
{
    match content {
        Some(MediaEvent::PlaybackStateChanged(state, _)) => *state == PlaybackState::Stopped,
        _ => false,
    }
}

/// A merge takes over whatever the refresh carries and keeps what it leaves
/// out, field by field.
pub proof fn law_merge_takes_what_the_refresh_carries(queued: TrackInfo, refresh: TrackInfo)
    ensures
        ({
            let m = queued.merged(refresh);
            &&& m.album == (if refresh.album@.len() > 0 { refresh.album } else { queued.album })
            &&& m.album_artist == (if refresh.album_artist@.len() > 0 { refresh.album_artist } else {
                queued.album_artist
            })
            &&& m.subtitle == (if refresh.subtitle@.len() > 0 { refresh.subtitle } else { queued.subtitle })
            &&& refresh.genre is Some ==> m.genre == refresh.genre
            &&& refresh.genre is None ==> m.genre == queued.genre
            &&& refresh.duration_secs is Some ==> m.duration_secs == refresh.duration_secs
            &&& refresh.duration_secs is None ==> m.duration_secs == queued.duration_secs
            &&& refresh.track_number is Some ==> m.track_number == refresh.track_number
            &&& refresh.track_number is None ==> m.track_number == queued.track_number
            &&& refresh.track_count is Some ==> m.track_count == refresh.track_count
            &&& refresh.track_count is None ==> m.track_count == queued.track_count
            &&& refresh.artwork is Some ==> m.artwork == refresh.artwork
            &&& refresh.artwork is None ==> m.artwork == queued.artwork
            &&& refresh.decoded_art is Some ==> m.decoded_art == refresh.decoded_art
            &&& refresh.decoded_art is None ==> m.decoded_art == queued.decoded_art
            &&& refresh.app_icon is Some ==> m.app_icon == refresh.app_icon
            &&& refresh.app_icon is None ==> m.app_icon == queued.app_icon
            &&& refresh.palette is Some ==> m.palette == refresh.palette
            &&& refresh.palette is None ==> m.palette == queued.palette
            &&& refresh.playback_state is Some ==> m.playback_state == refresh.playback_state
            &&& refresh.playback_state is None ==> m.playback_state == queued.playback_state
            &&& refresh.position_us is Some ==> m.position_us == refresh.position_us
            &&& refresh.position_us is None ==> m.position_us == queued.position_us
            &&& refresh.position_updated_at is Some ==> m.position_updated_at == refresh.position_updated_at
            &&& refresh.position_updated_at is None ==> m.position_updated_at == queued.position_updated_at
            &&& refresh.playback_rate_milli is Some ==> m.playback_rate_milli == refresh.playback_rate_milli
            &&& refresh.playback_rate_milli is None ==> m.playback_rate_milli == queued.playback_rate_milli
            &&& m.title == queued.title && m.artist == queued.artist && m.source_app == queued.source_app
        }),
{
}

/// Two snapshots of different sources, titles or artists are never the same
/// media, nor are two with different covers. Where those agree they are, also
/// where a cover is still missing.
pub proof fn law_same_media_is_told_by_source_title_artist_and_cover(a: TrackInfo, b: TrackInfo)
    ensures
        a.source_app@ != b.source_app@ || a.title@ != b.title@ || a.artist@ != b.artist@ ==> !a.is_same_media(b),
        a.artwork is Some && b.artwork is Some && a.artwork->0@ != b.artwork->0@ ==> !a.is_same_media(b),
        a.source_app@ == b.source_app@ && a.title@ == b.title@ && a.artist@ == b.artist@ && (a.artwork is None
            || b.artwork is None || a.artwork->0@ == b.artwork->0@) ==> a.is_same_media(b),
{
}

/// Two covers are told apart by their bytes, and a missing one differs from
/// any that is there.
pub proof fn law_covers_are_told_apart_by_their_bytes(
    a: Arc<Vec<u8>>,
    b: Arc<Vec<u8>>,
)
    ensures
        same_art(Some(a), Some(b)) <==> a@ == b@,
        !same_art(Some(a), None),
        !same_art(None, Some(b)),
        same_art(None, None),
{
}

/// A track without a known state counts as playing, as does anything that is
/// known to play; anything in another state and an empty pill do not.
pub proof fn law_unknown_state_counts_as_playing(track: TrackInfo, state: PlaybackState, source: String)
    ensures
        track.playback_state is None ==> is_playing(Some(MediaEvent::TrackChanged(track))),
        track.playback_state matches Some(known) ==> (is_playing(Some(MediaEvent::TrackChanged(track))) <==> known
            == PlaybackState::Playing),
        is_playing(Some(MediaEvent::PlaybackStateChanged(state, source))) <==> state == PlaybackState::Playing,
        !is_playing(None),
{
}

/// A track and a state both belong to the source they name, but only one of
/// them is a track pill, and only a stop is a tombstone.
pub proof fn law_pills_belong_to_their_source(track: TrackInfo, state: PlaybackState, source: String, other: Seq<char>)
    ensures
        ({
            let t = Some(MediaEvent::TrackChanged(track));
            let s = Some(MediaEvent::PlaybackStateChanged(state, source));
            &&& source_of_held(t) == Some(track.source_app@)
            &&& source_of_held(s) == Some(source@)
            &&& source_of_held(None) is None
            &&& is_track_of(t, other) <==> track.source_app@ == other
            &&& is_state_of(s, other) <==> source@ == other
            &&& !is_state_of(t, other) && !is_track_of(s, other)
            &&& !is_track_of(None, other) && !is_state_of(None, other)
            &&& is_tombstone(s) <==> state == PlaybackState::Stopped
            &&& !is_tombstone(t) && !is_tombstone(None)
        }),
{
}

} // verus!
