//! The `info` command: what is playing, and on request its album and its artist.
//!
//! The command is a state machine. The driver starts with [`InfoState::Start`] and
//! [`InfoEvent::Begin`], performs the action that [`print_info`] returns, and hands back
//! what came of it, until the action is `Finish` or `Fail`.

use crate::command::InfoCmd;
use crate::error::Error;
use crate::model::{
    AlbumType, CurrentlyPlayingContext, FullAlbum, FullArtist, FullTrack, PlayableItem,
    SimplifiedAlbum, SimplifiedArtist, SimplifiedTrack,
};
use crate::runtime::{push_runtime, runtime_text, summable, total_millis, total_runtime};
use crate::text::{bracketed, bracketed_text, texts};
use vstd::prelude::*;

verus! {

/// Each artist's name in double quotes, with a space after each.
pub open spec fn artists_text(artists: Seq<SimplifiedArtist>) -> Seq<char>
    decreases artists.len(),
{
    if artists.len() == 0 {
        Seq::empty()
    } else {
        artists_text(artists.drop_last()) + "\""@ + artists.last().name@ + "\" "@
    }
}

/// The one-line summary of a track: its name, its artists, its album.
pub open spec fn track_text(t: FullTrack) -> Seq<char> {
    "\""@ + t.name@ + "\" - "@ + artists_text(t.artists@) + "- \""@ + t.album.name@ + "\""@
}

/// The name of a kind of release.
pub open spec fn album_type_text(kind: AlbumType) -> Seq<char> {
    match kind {
        AlbumType::Album => "Album"@,
        AlbumType::Single => "Single"@,
        AlbumType::AppearsOn => "AppearsOn"@,
        AlbumType::Compilation => "Compilation"@,
    }
}

/// What `{:?}` prints for a string: the string in double quotes, with the characters
/// escaped that `str::escape_debug` escapes. Which characters those are is left to std.
pub uninterp spec fn debug_text(s: Seq<char>) -> Seq<char>;

/// Each genre as `{:?}` prints it.
pub open spec fn debug_texts(genres: Seq<String>) -> Seq<Seq<char>> {
    genres.map_values(|genre: String| debug_text(genre@))
}

/// A list of genres, as `{:?}` prints a list of strings.
pub open spec fn genres_text(genres: Seq<String>) -> Seq<char> {
    bracketed_text(debug_texts(genres))
}

/// The line of an album in an artist's releases: name, release date, kind and runtime.
pub open spec fn album_slug_text(a: FullAlbum) -> Seq<char> {
    a.name@ + " - "@ + a.release_date@ + "  - "@ + album_type_text(a.album_type) + "  - "@
        + runtime_text(total_millis(a.tracks@))
}

/// One line for each track: its name and its runtime.
pub open spec fn track_lines(tracks: Seq<SimplifiedTrack>) -> Seq<char>
    decreases tracks.len(),
{
    if tracks.len() == 0 {
        Seq::empty()
    } else {
        track_lines(tracks.drop_last()) + "\n\t "@ + tracks.last().name@ + " - "@ + runtime_text(
            tracks.last().duration_ms as int,
        )
    }
}

/// The summary of an album: a head line, then one line for each track.
pub open spec fn album_text(a: FullAlbum) -> Seq<char> {
    a.name@ + " - "@ + artists_text(a.artists@) + " - "@ + runtime_text(total_millis(a.tracks@))
        + " - Album type: "@ + album_type_text(a.album_type) + " - Release Date: "@
        + a.release_date@ + " - Genres: "@ + genres_text(a.genres@) + track_lines(a.tracks@)
}

/// One line for each album of `albums`.
pub open spec fn slug_lines(albums: Seq<FullAlbum>) -> Seq<char>
    decreases albums.len(),
{
    if albums.len() == 0 {
        Seq::empty()
    } else {
        slug_lines(albums.drop_last()) + "\n\t"@ + album_slug_text(albums.last())
    }
}

/// The runtime of each of `albums` can be added up.
pub open spec fn all_summable(albums: Seq<FullAlbum>) -> bool {
    forall|k: int| 0 <= k < albums.len() ==> summable((#[trigger] albums[k]).tracks@)
}

/// The summary of an artist: name and genres, then one line for each release.
pub open spec fn artist_text(artist: FullArtist, albums: Seq<FullAlbum>) -> Seq<char> {
    artist.name@ + " - Genres: "@ + genres_text(artist.genres@) + slug_lines(albums)
}

/// Formats `s` with `{:?}`, which is std's `Debug` for `str`. Nothing is claimed of the
/// result but that it is `debug_text` of `s`: the same string gives the same text.
#[verifier::external_body]
fn debug_str(s: &str) -> (quoted: String)
    ensures
        quoted@ == debug_text(s@),
{
    format!("{:?}", s)
}

/// The name of a kind of release.
pub fn album_type_str(kind: AlbumType) -> (name: &'static str)
    ensures
        name@ == album_type_text(kind),
{
    match kind {
        AlbumType::Album => "Album",
        AlbumType::Single => "Single",
        AlbumType::AppearsOn => "AppearsOn",
        AlbumType::Compilation => "Compilation",
    }
}

/// Writes a list of genres as `{:?}` prints a list of strings.
pub fn genres_str(genres: &Vec<String>) -> (out: String)
    ensures
        out@ == genres_text(genres@),
{
    let mut quoted: Vec<String> = Vec::new();
    let mut i: usize = 0;
    while i < genres.len()
        invariant
            0 <= i <= genres.len(),
            quoted@.len() == i,
            forall|k: int| 0 <= k < i ==> (#[trigger] quoted@[k])@ == debug_text(genres@[k]@),
        decreases genres.len() - i,
    {
        quoted.push(debug_str(genres[i].as_str()));
        i = i + 1;
    }
    proof {
        assert(texts(quoted@) =~= debug_texts(genres@));
    }
    bracketed(&quoted)
}

/// Writes each artist's name in double quotes, with a space after each.
pub fn artist_slice_str(aslice: &[SimplifiedArtist]) -> (artists_str: String)
    ensures
        artists_str@ == artists_text(aslice@),
{
    let mut artists_str = String::new();
    let mut i: usize = 0;
    while i < aslice.len()
        invariant
            0 <= i <= aslice.len(),
            artists_str@ == artists_text(aslice@.take(i as int)),
        decreases aslice.len() - i,
    {
        proof {
            assert(aslice@.take(i + 1).drop_last() =~= aslice@.take(i as int));
        }
        artists_str.append("\"");
        artists_str.append(aslice[i].name.as_str());
        artists_str.append("\" ");
        i = i + 1;
    }
    proof {
        assert(aslice@.take(i as int) =~= aslice@);
    }
    artists_str
}

/// Writes the one-line summary of a track.
pub fn track_str(t: &FullTrack) -> (line: String)
    ensures
        line@ == track_text(*t),
{
    let artists_str = artist_slice_str(t.artists.as_slice());
    let mut line = String::new();
    line.append("\"");
    line.append(t.name.as_str());
    line.append("\" - ");
    line.append(artists_str.as_str());
    line.append("- \"");
    line.append(t.album.name.as_str());
    line.append("\"");
    assert(line@ =~= track_text(*t));
    line
}

/// Writes the line of an album in an artist's releases.
///
/// Fails with `Error::RuntimeOutOfRange` exactly when the runtime cannot be added up.
pub fn album_slug(a: &FullAlbum) -> (slug: Result<String, Error>)
    ensures
        slug is Ok <==> summable(a.tracks@),
        slug matches Ok(out) ==> out@ == album_slug_text(*a),
        slug matches Err(e) ==> e == Error::RuntimeOutOfRange,
{
    let runtime: i64 = match total_runtime(&a.tracks) {
        Ok(runtime) => runtime,
        Err(e) => {
            return Err(e);
        },
    };
    let mut out = String::new();
    out.append(a.name.as_str());
    out.append(" - ");
    out.append(a.release_date.as_str());
    out.append("  - ");
    out.append(album_type_str(a.album_type));
    out.append("  - ");
    push_runtime(&mut out, runtime);
    assert(out@ =~= album_slug_text(*a));
    Ok(out)
}

/// Writes the summary of an album.
///
/// Fails with `Error::RuntimeOutOfRange` exactly when the runtime cannot be added up.
pub fn album_str(a: &FullAlbum) -> (summary: Result<String, Error>)
    ensures
        summary is Ok <==> summable(a.tracks@),
        summary matches Ok(out) ==> out@ == album_text(*a),
        summary matches Err(e) ==> e == Error::RuntimeOutOfRange,
{
    let runtime: i64 = match total_runtime(&a.tracks) {
        Ok(runtime) => runtime,
        Err(e) => {
            return Err(e);
        },
    };
    let mut tracks_block_str = String::new();
    let mut i: usize = 0;
    while i < a.tracks.len()
        invariant
            0 <= i <= a.tracks.len(),
            summable(a.tracks@),
            tracks_block_str@ == track_lines(a.tracks@.take(i as int)),
        decreases a.tracks.len() - i,
    {
        proof {
            assert(a.tracks@.take(i + 1).drop_last() =~= a.tracks@.take(i as int));
        }
        tracks_block_str.append("\n\t ");
        tracks_block_str.append(a.tracks[i].name.as_str());
        tracks_block_str.append(" - ");
        push_runtime(&mut tracks_block_str, a.tracks[i].duration_ms);
        i = i + 1;
    }
    proof {
        assert(a.tracks@.take(i as int) =~= a.tracks@);
    }
    let artists_str = artist_slice_str(a.artists.as_slice());
    let genres = genres_str(&a.genres);
    let mut out = String::new();
    out.append(a.name.as_str());
    out.append(" - ");
    out.append(artists_str.as_str());
    out.append(" - ");
    push_runtime(&mut out, runtime);
    out.append(" - Album type: ");
    out.append(album_type_str(a.album_type));
    out.append(" - Release Date: ");
    out.append(a.release_date.as_str());
    out.append(" - Genres: ");
    out.append(genres.as_str());
    out.append(tracks_block_str.as_str());
    assert(out@ =~= album_text(*a));
    Ok(out)
}

/// Writes the summary of an artist: name and genres, then one line for each of `albums`.
///
/// Fails with `Error::RuntimeOutOfRange` exactly when the runtime of one of the albums
/// cannot be added up.
pub fn artist_str(artist: &FullArtist, albums: &Vec<FullAlbum>) -> (summary: Result<String, Error>)
    ensures
        summary is Ok <==> all_summable(albums@),
        summary matches Ok(out) ==> out@ == artist_text(*artist, albums@),
        summary matches Err(e) ==> e == Error::RuntimeOutOfRange,
{
    let genres = genres_str(&artist.genres);
    let mut out = String::new();
    out.append(artist.name.as_str());
    out.append(" - Genres: ");
    out.append(genres.as_str());
    let ghost head = out@;
    let mut i: usize = 0;
    while i < albums.len()
        invariant
            0 <= i <= albums.len(),
            out@ == head + slug_lines(albums@.take(i as int)),
            forall|k: int| 0 <= k < i ==> summable((#[trigger] albums@[k]).tracks@),
        decreases albums.len() - i,
    {
        proof {
            assert(albums@.take(i + 1).drop_last() =~= albums@.take(i as int));
        }
        match album_slug(&albums[i]) {
            Ok(slug) => {
                out.append("\n\t");
                out.append(slug.as_str());
            },
            Err(e) => {
                return Err(e);
            },
        }
        i = i + 1;
    }
    proof {
        assert(albums@.take(i as int) =~= albums@);
    }
    Ok(out)
}

/// Writes the one-line summary of what is playing.
///
/// Fails with `Error::EpisodeNotSupported` exactly when the item is a podcast episode.
pub fn item_str(i: &PlayableItem) -> (line: Result<String, Error>)
    ensures
        line is Ok <==> *i is Track,
        line matches Ok(out) ==> out@ == track_text(i->Track_0),
        line matches Err(e) ==> e == Error::EpisodeNotSupported,
{
    match i {
        PlayableItem::Track(t) => Ok(track_str(t)),
        PlayableItem::Episode => Err(Error::EpisodeNotSupported),
    }
}

/// How far the command has come: which answer it is waiting for.
#[derive(Clone, Debug, PartialEq, Eq)]
pub enum InfoState {
    /// Nothing was asked yet.
    Start,
    /// What is playing was asked for.
    AwaitItem,
    /// The one-line summary of `track` is being shown.
    AwaitSummary { track: FullTrack },
    /// The album was asked for; `artists` are those of the track.
    AwaitAlbum { artists: Vec<SimplifiedArtist> },
    /// The artist `id` was asked for; `out` is what is to be shown so far.
    AwaitArtist { out: String, id: String },
    /// The releases of `artist` were asked for.
    AwaitReleases { out: String, artist: FullArtist },
    /// The albums of `artist` were asked for.
    AwaitAlbums { out: String, artist: FullArtist },
    /// The details are being shown.
    AwaitDetails,
    /// The command is through.
    Done,
    /// The command has failed.
    Failed,
}

/// An [`InfoState`] with its texts as sequences of characters.
pub enum InfoStateView {
    Start,
    AwaitItem,
    AwaitSummary { track: FullTrack },
    AwaitAlbum { artists: Vec<SimplifiedArtist> },
    AwaitArtist { out: Seq<char>, id: Seq<char> },
    AwaitReleases { out: Seq<char>, artist: FullArtist },
    AwaitAlbums { out: Seq<char>, artist: FullArtist },
    AwaitDetails,
    Done,
    Failed,
}

impl View for InfoState {
    type V = InfoStateView;

    open spec fn view(&self) -> InfoStateView {
        match *self {
            InfoState::Start => InfoStateView::Start,
            InfoState::AwaitItem => InfoStateView::AwaitItem,
            InfoState::AwaitSummary { track } => InfoStateView::AwaitSummary { track },
            InfoState::AwaitAlbum { artists } => InfoStateView::AwaitAlbum { artists },
            InfoState::AwaitArtist { out, id } => InfoStateView::AwaitArtist { out: out@, id: id@ },
            InfoState::AwaitReleases { out, artist } => InfoStateView::AwaitReleases {
                out: out@,
                artist,
            },
            InfoState::AwaitAlbums { out, artist } => InfoStateView::AwaitAlbums {
                out: out@,
                artist,
            },
            InfoState::AwaitDetails => InfoStateView::AwaitDetails,
            InfoState::Done => InfoStateView::Done,
            InfoState::Failed => InfoStateView::Failed,
        }
    }
}

/// What the driver hands back.
#[derive(Clone, Debug, PartialEq, Eq)]
pub enum InfoEvent {
    /// The command starts.
    Begin,
    /// What is playing, if anything.
    Playing(Option<CurrentlyPlayingContext>),
    /// The album that was asked for.
    Album(FullAlbum),
    /// The artist that was asked for.
    Artist(FullArtist),
    /// The releases of the artist, as far as they were asked for.
    Releases(Vec<SimplifiedAlbum>),
    /// The albums that were asked for, in the order of their ids.
    Albums(Vec<FullAlbum>),
    /// The action was performed and has nothing to report.
    Completed,
    /// The action failed, with the error of the service as text.
    Failed(String),
}

/// What the driver has to do next.
#[derive(Clone, Debug, PartialEq, Eq)]
pub enum InfoAction {
    /// Fetch what is playing, episodes included.
    FetchPlaying,
    /// Print the text and end the line.
    Print(String),
    /// Fetch the album `id`.
    FetchAlbum { id: String },
    /// Fetch the artist `id`.
    FetchArtist { id: String },
    /// Fetch `limit` releases of the artist `id` from `offset` on, of the kinds
    /// `include_groups`.
    FetchReleases { id: String, include_groups: Vec<AlbumType>, limit: u32, offset: u32 },
    /// Fetch the albums `ids`.
    FetchAlbums { ids: Vec<String> },
    /// Stop: the command is through.
    Finish,
    /// Stop: the command has failed.
    Fail(Error),
}

/// An [`InfoAction`] with its texts as sequences of characters.
pub enum InfoActionView {
    FetchPlaying,
    Print(Seq<char>),
    FetchAlbum { id: Seq<char> },
    FetchArtist { id: Seq<char> },
    FetchReleases { id: Seq<char>, include_groups: Seq<AlbumType>, limit: u32, offset: u32 },
    FetchAlbums { ids: Seq<Seq<char>> },
    Finish,
    Fail(Error),
}

impl View for InfoAction {
    type V = InfoActionView;

    open spec fn view(&self) -> InfoActionView {
        match *self {
            InfoAction::FetchPlaying => InfoActionView::FetchPlaying,
            InfoAction::Print(text) => InfoActionView::Print(text@),
            InfoAction::FetchAlbum { id } => InfoActionView::FetchAlbum { id: id@ },
            InfoAction::FetchArtist { id } => InfoActionView::FetchArtist { id: id@ },
            InfoAction::FetchReleases {
                id,
                include_groups,
                limit,
                offset,
            } => InfoActionView::FetchReleases {
                id: id@,
                include_groups: include_groups@,
                limit,
                offset,
            },
            InfoAction::FetchAlbums { ids } => InfoActionView::FetchAlbums {
                ids: texts(ids@),
            },
            InfoAction::Finish => InfoActionView::Finish,
            InfoAction::Fail(reason) => InfoActionView::Fail(reason),
        }
    }
}

/// A failed state, with the reason.
pub open spec fn info_failure(reason: Error) -> (InfoStateView, InfoActionView) {
    (InfoStateView::Failed, InfoActionView::Fail(reason))
}

/// An event that does not answer the pending request: the failure of the request, or
/// an event that has no place here.
pub open spec fn info_refusal(event: InfoEvent) -> (InfoStateView, InfoActionView) {
    match event {
        InfoEvent::Failed(reason) => info_failure(Error::Request(reason)),
        _ => info_failure(Error::UnexpectedEvent),
    }
}

/// What is playing is known: its one-line summary is shown, if it is a track.
pub open spec fn summary_step(playing: Option<CurrentlyPlayingContext>) -> (
    InfoStateView,
    InfoActionView,
) {
    match playing {
        None => info_failure(Error::NothingPlaying),
        Some(ctx) => match ctx.item {
            None => info_failure(Error::MissingItem),
            Some(PlayableItem::Episode) => info_failure(Error::EpisodeNotSupported),
            Some(PlayableItem::Track(track)) => (
                InfoStateView::AwaitSummary { track },
                InfoActionView::Print(track_text(track)),
            ),
        },
    }
}

/// The artist block: the first artist of the track is looked up, if it is asked for.
pub open spec fn artist_step(pcmd: InfoCmd, out: Seq<char>, artists: Vec<SimplifiedArtist>) -> (
    InfoStateView,
    InfoActionView,
) {
    if !pcmd.artist {
        (InfoStateView::AwaitDetails, InfoActionView::Print(out))
    } else if artists@.len() == 0 {
        info_failure(Error::NoArtist)
    } else {
        match artists@[0].id {
            None => info_failure(Error::MissingId),
            Some(id) => (
                InfoStateView::AwaitArtist { out, id: id@ },
                InfoActionView::FetchArtist { id: id@ },
            ),
        }
    }
}

/// The summary is shown: the album of the track is looked up, if it is asked for.
pub open spec fn album_step(pcmd: InfoCmd, track: FullTrack) -> (InfoStateView, InfoActionView) {
    if pcmd.album {
        match track.album.id {
            None => info_failure(Error::MissingId),
            Some(id) => (
                InfoStateView::AwaitAlbum { artists: track.artists },
                InfoActionView::FetchAlbum { id: id@ },
            ),
        }
    } else {
        artist_step(pcmd, Seq::empty(), track.artists)
    }
}

/// The album is known: its summary opens the details.
pub open spec fn album_block_step(
    pcmd: InfoCmd,
    artists: Vec<SimplifiedArtist>,
    album: FullAlbum,
) -> (InfoStateView, InfoActionView) {
    if summable(album.tracks@) {
        artist_step(pcmd, "\n"@ + album_text(album), artists)
    } else {
        info_failure(Error::RuntimeOutOfRange)
    }
}

/// The kinds of release that are listed for an artist.
pub open spec fn listed_groups() -> Seq<AlbumType> {
    seq![AlbumType::Album, AlbumType::Single]
}

/// Every release carries an id.
pub open spec fn all_have_ids(releases: Seq<SimplifiedAlbum>) -> bool {
    forall|k: int| 0 <= k < releases.len() ==> (#[trigger] releases[k]).id is Some
}

/// The ids of the releases, in order.
pub open spec fn release_ids(releases: Seq<SimplifiedAlbum>) -> Seq<Seq<char>> {
    releases.map_values(|release: SimplifiedAlbum| release.id->Some_0@)
}

/// The releases are known: their albums are looked up, all at once.
pub open spec fn releases_step(out: Seq<char>, artist: FullArtist, releases: Vec<SimplifiedAlbum>) -> (
    InfoStateView,
    InfoActionView,
) {
    if all_have_ids(releases@) {
        (
            InfoStateView::AwaitAlbums { out, artist },
            InfoActionView::FetchAlbums { ids: release_ids(releases@) },
        )
    } else {
        info_failure(Error::MissingId)
    }
}

/// The albums are known: the summary of the artist closes the details.
pub open spec fn artist_block_step(out: Seq<char>, artist: FullArtist, albums: Vec<FullAlbum>) -> (
    InfoStateView,
    InfoActionView,
) {
    if all_summable(albums@) {
        (
            InfoStateView::AwaitDetails,
            InfoActionView::Print(out + "\n\n"@ + artist_text(artist, albums@)),
        )
    } else {
        info_failure(Error::RuntimeOutOfRange)
    }
}

/// One step of the command: the next state and the next action.
pub open spec fn info_step(pcmd: InfoCmd, state: InfoStateView, event: InfoEvent) -> (
    InfoStateView,
    InfoActionView,
) {
    match state {
        InfoStateView::Start => match event {
            InfoEvent::Begin => (InfoStateView::AwaitItem, InfoActionView::FetchPlaying),
            _ => info_failure(Error::UnexpectedEvent),
        },
        InfoStateView::AwaitItem => match event {
            InfoEvent::Playing(playing) => summary_step(playing),
            other => info_refusal(other),
        },
        InfoStateView::AwaitSummary { track } => match event {
            InfoEvent::Completed => album_step(pcmd, track),
            other => info_refusal(other),
        },
        InfoStateView::AwaitAlbum { artists } => match event {
            InfoEvent::Album(album) => album_block_step(pcmd, artists, album),
            other => info_refusal(other),
        },
        InfoStateView::AwaitArtist { out, id } => match event {
            InfoEvent::Artist(artist) => (
                InfoStateView::AwaitReleases { out, artist },
                InfoActionView::FetchReleases {
                    id,
                    include_groups: listed_groups(),
                    limit: 32,
                    offset: 0,
                },
            ),
            other => info_refusal(other),
        },
        InfoStateView::AwaitReleases { out, artist } => match event {
            InfoEvent::Releases(releases) => releases_step(out, artist, releases),
            other => info_refusal(other),
        },
        InfoStateView::AwaitAlbums { out, artist } => match event {
            InfoEvent::Albums(albums) => artist_block_step(out, artist, albums),
            other => info_refusal(other),
        },
        InfoStateView::AwaitDetails => match event {
            InfoEvent::Completed => (InfoStateView::Done, InfoActionView::Finish),
            other => info_refusal(other),
        },
        InfoStateView::Done => info_failure(Error::UnexpectedEvent),
        InfoStateView::Failed => info_failure(Error::UnexpectedEvent),
    }
}

fn info_fail(reason: Error) -> (next: (InfoState, InfoAction))
    ensures
        (next.0@, next.1@) == info_failure(reason),
{
    (InfoState::Failed, InfoAction::Fail(reason))
}

fn info_refuse(event: InfoEvent) -> (next: (InfoState, InfoAction))
    ensures
        (next.0@, next.1@) == info_refusal(event),
{
    match event {
        InfoEvent::Failed(reason) => info_fail(Error::Request(reason)),
        _ => info_fail(Error::UnexpectedEvent),
    }
}

fn lookup_artist(pcmd: &InfoCmd, out: String, artists: Vec<SimplifiedArtist>) -> (next: (
    InfoState,
    InfoAction,
))
    ensures
        (next.0@, next.1@) == artist_step(*pcmd, out@, artists),
{
    if !pcmd.artist {
        return (InfoState::AwaitDetails, InfoAction::Print(out));
    }
    let mut artists = artists;
    if artists.len() == 0 {
        return info_fail(Error::NoArtist);
    }
    // The first artist stands for the track.
    let first = artists.remove(0);
    match first.id {
        None => info_fail(Error::MissingId),
        Some(id) => {
            let again = id.clone();
            (InfoState::AwaitArtist { out, id }, InfoAction::FetchArtist { id: again })
        },
    }
}

fn lookup_album(pcmd: &InfoCmd, track: FullTrack) -> (next: (InfoState, InfoAction))
    ensures
        (next.0@, next.1@) == album_step(*pcmd, track),
{
    if pcmd.album {
        match track.album.id {
            None => info_fail(Error::MissingId),
            Some(id) => (
                InfoState::AwaitAlbum { artists: track.artists },
                InfoAction::FetchAlbum { id },
            ),
        }
    } else {
        lookup_artist(pcmd, String::new(), track.artists)
    }
}

fn lookup_albums(out: String, artist: FullArtist, releases: Vec<SimplifiedAlbum>) -> (next: (
    InfoState,
    InfoAction,
))
    ensures
        (next.0@, next.1@) == releases_step(out@, artist, releases),
{
    let mut ids: Vec<String> = Vec::new();
    let mut i: usize = 0;
    while i < releases.len()
        invariant
            0 <= i <= releases.len(),
            ids@.len() == i,
            forall|k: int| 0 <= k < i ==> (#[trigger] releases@[k]).id is Some,
            forall|k: int| 0 <= k < i ==> (#[trigger] ids@[k])@ == releases@[k].id->Some_0@,
        decreases releases.len() - i,
    {
        match &releases[i].id {
            Some(id) => {
                ids.push(id.clone());
            },
            None => {
                return info_fail(Error::MissingId);
            },
        }
        i = i + 1;
    }
    proof {
        assert(texts(ids@) =~= release_ids(releases@));
    }
    (InfoState::AwaitAlbums { out, artist }, InfoAction::FetchAlbums { ids })
}

/// Advances the `info` command by one step.
///
/// `state` is where the command stands and `event` what came of the action that the
/// step before returned. The result is the next state and the next action.
pub fn print_info(pcmd: &InfoCmd, state: InfoState, event: InfoEvent) -> (next: (
    InfoState,
    InfoAction,
))
    ensures
        (next.0@, next.1@) == info_step(*pcmd, state@, event),
{
    match state {
        InfoState::Start => match event {
            InfoEvent::Begin => (InfoState::AwaitItem, InfoAction::FetchPlaying),
            _ => info_fail(Error::UnexpectedEvent),
        },
        InfoState::AwaitItem => match event {
            InfoEvent::Playing(playing) => {
                let ctx = match playing {
                    Some(ctx) => ctx,
                    None => {
                        return info_fail(Error::NothingPlaying);
                    },
                };
                let itm = match ctx.item {
                    Some(itm) => itm,
                    None => {
                        return info_fail(Error::MissingItem);
                    },
                };
                match item_str(&itm) {
                    Ok(out) => match itm {
                        PlayableItem::Track(track) => (
                            InfoState::AwaitSummary { track },
                            InfoAction::Print(out),
                        ),
                        PlayableItem::Episode => info_fail(Error::EpisodeNotSupported),
                    },
                    Err(e) => info_fail(e),
                }
            },
            other => info_refuse(other),
        },
        InfoState::AwaitSummary { track } => match event {
            InfoEvent::Completed => lookup_album(pcmd, track),
            other => info_refuse(other),
        },
        InfoState::AwaitAlbum { artists } => match event {
            InfoEvent::Album(album) => match album_str(&album) {
                Ok(summary) => {
                    let mut out = String::new();
                    out.append("\n");
                    out.append(summary.as_str());
                    lookup_artist(pcmd, out, artists)
                },
                Err(e) => info_fail(e),
            },
            other => info_refuse(other),
        },
        InfoState::AwaitArtist { out, id } => match event {
            InfoEvent::Artist(artist) => (
                InfoState::AwaitReleases { out, artist },
                InfoAction::FetchReleases {
                    id,
                    include_groups: vec![AlbumType::Album, AlbumType::Single],
                    limit: 32,
                    offset: 0,
                },
            ),
            other => info_refuse(other),
        },
        InfoState::AwaitReleases { out, artist } => match event {
            InfoEvent::Releases(releases) => lookup_albums(out, artist, releases),
            other => info_refuse(other),
        },
        InfoState::AwaitAlbums { out, artist } => match event {
            InfoEvent::Albums(albums) => match artist_str(&artist, &albums) {
                Ok(summary) => {
                    let mut out = out;
                    out.append("\n\n");
                    out.append(summary.as_str());
                    (InfoState::AwaitDetails, InfoAction::Print(out))
                },
                Err(e) => info_fail(e),
            },
            other => info_refuse(other),
        },
        InfoState::AwaitDetails => match event {
            InfoEvent::Completed => (InfoState::Done, InfoAction::Finish),
            other => info_refuse(other),
        },
        InfoState::Done => info_fail(Error::UnexpectedEvent),
        InfoState::Failed => info_fail(Error::UnexpectedEvent),
    }
}

} // verus!
