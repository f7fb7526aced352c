//! What the service reports, reduced to the fields that the commands read.
//!
//! Identifiers are the bare id strings of the service. A duration is a whole
//! number of milliseconds, as the service sends it.

use vstd::prelude::*;

verus! {

/// Kind of a release.
#[derive(Clone, Copy, Debug, PartialEq, Eq)]
pub enum AlbumType {
    Album,
    Single,
    AppearsOn,
    Compilation,
}

/// An artist as it is listed on a track or an album.
#[derive(Clone, Debug, PartialEq, Eq)]
pub struct SimplifiedArtist {
    pub id: Option<String>,
    pub name: String,
}

/// An album as it is listed on a track or in an artist's releases.
#[derive(Clone, Debug, PartialEq, Eq)]
pub struct SimplifiedAlbum {
    pub id: Option<String>,
    pub name: String,
}

/// A track as it is listed on an album.
#[derive(Clone, Debug, PartialEq, Eq)]
pub struct SimplifiedTrack {
    pub name: String,
    pub duration_ms: i64,
}

/// A track with its artists and its album. A local track has no id.
#[derive(Clone, Debug, PartialEq, Eq)]
pub struct FullTrack {
    pub id: Option<String>,
    pub name: String,
    pub artists: Vec<SimplifiedArtist>,
    pub album: SimplifiedAlbum,
}

/// An album with its tracks.
#[derive(Clone, Debug, PartialEq, Eq)]
pub struct FullAlbum {
    pub name: String,
    pub artists: Vec<SimplifiedArtist>,
    pub album_type: AlbumType,
    pub release_date: String,
    pub genres: Vec<String>,
    pub tracks: Vec<SimplifiedTrack>,
}

/// An artist's own page.
#[derive(Clone, Debug, PartialEq, Eq)]
pub struct FullArtist {
    pub name: String,
    pub genres: Vec<String>,
}

/// What can be playing: a track, or a podcast episode.
#[derive(Clone, Debug, PartialEq, Eq)]
pub enum PlayableItem {
    Track(FullTrack),
    Episode,
}

/// The item that is streaming, if the service reports one.
#[derive(Clone, Debug, PartialEq, Eq)]
pub struct CurrentlyPlayingContext {
    pub is_playing: bool,
    pub item: Option<PlayableItem>,
}

/// A playback session attached to some device. It can exist while nothing plays.
#[derive(Clone, Debug, PartialEq, Eq)]
pub struct CurrentPlaybackContext {
    pub is_playing: bool,
}

/// A device that can play.
#[derive(Clone, Debug, PartialEq, Eq)]
pub struct Device {
    pub id: Option<String>,
    pub name: String,
    pub is_active: bool,
}

/// One entry of the play history.
#[derive(Clone, Debug, PartialEq, Eq)]
pub struct PlayHistory {
    pub track: FullTrack,
}

} // verus!
