//! The messages of the Spotify dealer WebSocket and the Web API objects they carry.
//!
//! The field that the wire format calls `type` is named `kind` here.
use vstd::prelude::*;

pub use crate::string_map::StringMap;

verus! {

/// A JSON value, kept as it came and handed on unread.
#[verifier::external_type_specification]
#[verifier::external_body]
pub struct ExJsonValue(serde_json::Value);

/// `Clone` of `serde_json::Value`, which serde_json derives: the copy is the
/// same JSON value.
pub assume_specification[ <serde_json::Value as Clone>::clone ](v: &serde_json::Value) -> (res:
    serde_json::Value)
    ensures
        res == *v,
;

/// A frame of the dealer WebSocket that carries a message.
#[derive(Debug, Clone)]
pub struct Message {
    pub headers: StringMap,
    pub payloads: Option<Vec<serde_json::Value>>,
    pub method: Option<String>,
    pub uri: String,
}

/// A frame of the dealer WebSocket, told apart by its `type`.
#[derive(Debug, Clone)]
pub enum Response {
    Message(Message),
    Pong,
}

/// Decode structures for wss://event
#[derive(Debug, Clone)]
pub struct User {
    pub id: String,
}

#[derive(Debug, Clone)]
pub struct InnerEvent {
    pub event_id: u64,
    /// The remaining fields of the event object.
    pub event_body: serde_json::Value,
}

#[derive(Debug, Clone)]
pub struct Event {
    pub event: InnerEvent,
    pub href: String,
    pub source: String,
    pub kind: String,
    pub uri: Option<String>,
    pub user: User,
}

#[derive(Debug, Clone)]
pub struct Events {
    pub events: Vec<Event>,
}

/// Device Type
#[derive(Debug, PartialEq, Eq, Structural, Clone, Copy)]
pub enum DeviceType {
    Unknown,
    Computer,
    Tablet,
    Smartphone,
    Speaker,
    Tv,
    Avr,
    Stb,
    AudioDongle,
    GameConsole,
    CastAudio,
    CastVideo,
    Automobile,
    Smartwatch,
    Chromebook,
    UnknownSpotify,
    CarThing,
    Obsrever,
}

#[derive(Debug, PartialEq, Eq, Structural, Clone, Copy)]
pub enum RepeatState {
    Track,
    Context,
    Off,
}

#[derive(Debug, PartialEq, Eq, Structural, Clone, Copy)]
pub enum CurrentlyPlayingType {
    Episode,
    Track,
    Ad,
    Unknown,
}

#[derive(Debug, PartialEq, Eq, Structural, Clone, Copy)]
pub enum AlbumType {
    Album,
    Single,
    Compilation,
}

#[derive(Debug, PartialEq, Eq, Structural, Clone, Copy)]
pub enum ReleaseDatePrecision {
    Year,
    Month,
    Day,
}

/// Why content is restricted; a reason that is not one of the known ones is
/// kept as it was written.
#[derive(Debug, PartialEq, Eq, Clone)]
pub enum RestrictionReason {
    Market,
    Product,
    Explicit,
    Other(String),
}

/// A device that can play.
#[derive(Debug, Clone)]
pub struct Device {
    pub id: Option<String>,
    pub is_active: bool,
    pub is_private_session: bool,
    pub is_restricted: bool,
    pub name: String,
    pub kind: DeviceType,
    pub volume_percent: Option<u8>,
    pub supports_volume: bool,
}

/// Decode structures for DEVICE_STATE_CHANGED
#[derive(Debug, Clone)]
pub struct DeviceStateChanged {
    pub devices: Vec<Device>,
}

#[derive(Debug, Clone)]
pub struct ExternalUrls {
    pub spotify: String,
}

#[derive(Debug, Clone)]
pub struct Restrictions {
    pub reason: RestrictionReason,
}

#[derive(Debug, Clone)]
pub struct SimplifiedArtist {
    pub external_urls: ExternalUrls,
    pub href: String,
    pub id: String,
    pub name: String,
    /// always "artist"
    pub kind: String,
    pub uri: String,
}

#[derive(Debug, Clone)]
pub struct Image {
    pub url: String,
    pub height: Option<u64>,
    pub width: Option<u64>,
}

#[derive(Debug, Clone)]
pub struct Album {
    pub album_type: AlbumType,
    pub total_tracks: u64,
    pub external_urls: ExternalUrls,
    pub href: String,
    pub id: String,
    pub images: Vec<Image>,
    pub name: String,
    pub release_date: String,
    pub release_date_precision: ReleaseDatePrecision,
    pub restrictions: Option<Restrictions>,
    pub uri: String,
    pub artists: Vec<SimplifiedArtist>,
}

#[derive(Debug, Clone)]
pub struct ExternalIds {
    /// International Standard Recoding Code
    pub isrc: Option<String>,
    /// International Article Number
    pub ean: Option<String>,
    /// Universal Product Code
    pub upc: Option<String>,
}

#[derive(Debug, Clone)]
pub struct Track {
    pub album: Album,
    pub artists: Vec<SimplifiedArtist>,
    pub disc_number: u64,
    pub duration_ms: u64,
    pub explicit: bool,
    /// e.g. isrc: "JPP561100856"
    pub external_ids: StringMap,
    pub external_urls: ExternalUrls,
    pub href: String,
    pub id: String,
    pub is_local: bool,
    pub is_playable: Option<bool>,
    pub name: String,
    pub popularity: u64,
    pub preview_url: Option<String>,
    pub track_number: u64,
    pub uri: String,
}

#[derive(Debug, Clone)]
pub struct EpisodeResumePoint {
    pub fully_played: bool,
    pub resume_position_ms: u64,
}

/// A copyright line of a show: `C` for the copyright, `P` for the
/// performance copyright.
#[derive(Debug, Clone)]
pub enum Copyright {
    Copyright { text: String },
    PerformanceCopyright { text: String },
}

#[derive(Debug, Clone)]
pub struct Show {
    pub copyrights: Vec<Copyright>,
    pub description: String,
    pub html_description: String,
    pub explicit: bool,
    pub external_urls: ExternalUrls,
    pub href: String,
    pub id: String,
    pub images: Vec<Image>,
    pub is_externally_hosted: bool,
    /// ISO639
    pub languages: Vec<String>,
    pub media_type: String,
    pub name: String,
    pub publisher: String,
    pub uri: String,
    pub total_episodes: u64,
}

#[derive(Debug, Clone)]
pub struct Episode {
    pub description: String,
    pub html_description: String,
    pub duration_ms: u64,
    pub explicit: bool,
    pub external_urls: ExternalUrls,
    pub href: String,
    pub id: String,
    pub images: Vec<Image>,
    pub is_externally_hosted: bool,
    pub is_playable: Option<bool>,
    /// ISO639
    pub languages: Vec<String>,
    pub name: String,
    pub release_date: String,
    pub release_date_precision: ReleaseDatePrecision,
    pub resume_point: EpisodeResumePoint,
    pub uri: String,
    pub restrictions: Option<Restrictions>,
    pub show: Show,
}

/// What is playing, told apart by its `type`.
#[derive(Debug, Clone)]
pub enum Item {
    Track(Track),
    Episode(Episode),
}

#[derive(Debug, PartialEq, Eq, Structural, Clone, Copy)]
pub enum PlaybackStateContextType {
    Artist,
    Playlist,
    Album,
    Show,
}

#[derive(Debug, Clone)]
pub struct PlaybackStateContext {
    pub external_urls: ExternalUrls,
    pub href: String,
    pub kind: String,
    pub uri: String,
}

/// reverse engineered struct
#[derive(Debug, Clone)]
pub struct PlaybackStateActionDisalllows {
    pub interrupting_playback: Option<bool>,
    pub pausing: Option<bool>,
    pub resuming: Option<bool>,
    pub seeking: Option<bool>,
    pub skipping_next: Option<bool>,
    pub skipping_prev: Option<bool>,
    pub toggling_repeat_context: Option<bool>,
    pub toggling_shuffle: Option<bool>,
    pub toggling_repeat_track: Option<bool>,
    pub transferring_playback: Option<bool>,
}

#[derive(Debug, Clone)]
pub struct PlaybackStateActions {
    pub interrupting_playback: Option<bool>,
    pub pausing: Option<bool>,
    pub resuming: Option<bool>,
    pub seeking: Option<bool>,
    pub skipping_next: Option<bool>,
    pub skipping_prev: Option<bool>,
    pub toggling_repeat_context: Option<bool>,
    pub toggling_shuffle: Option<bool>,
    pub toggling_repeat_track: Option<bool>,
    pub transferring_playback: Option<bool>,
    /// reverse engineered field
    pub disallows: PlaybackStateActionDisalllows,
}

/// The state of playback of the user's account.
#[derive(Debug, Clone)]
pub struct PlaybackState {
    pub device: Device,
    pub repeat_state: RepeatState,
    pub shuffle_state: bool,
    pub context: Option<PlaybackStateContext>,
    pub timestamp: u64,
    pub progress_ms: Option<u64>,
    pub is_playing: bool,
    pub item: Option<Item>,
    pub currently_playing_type: CurrentlyPlayingType,
    pub actions: PlaybackStateActions,
}

/// Decode structures for PLAYER_STATE_CHANGED
#[derive(Debug, Clone)]
pub struct PlayerStateChanged {
    pub state: PlaybackState,
}

} // verus!
