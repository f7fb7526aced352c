use spcli::command::InfoCmd;
use spcli::error::Error;
use spcli::infocmd::{
    album_slug, album_str, album_type_str, artist_slice_str, artist_str, genres_str, item_str,
    print_info, track_str, InfoAction, InfoEvent, InfoState,
};
use spcli::model::{
    AlbumType, CurrentlyPlayingContext, FullAlbum, FullArtist, FullTrack, PlayableItem,
    SimplifiedAlbum, SimplifiedArtist, SimplifiedTrack,
};

fn artist(id: Option<&str>, name: &str) -> SimplifiedArtist {
    SimplifiedArtist { id: id.map(|id| id.to_string()), name: name.to_string() }
}

fn release(id: Option<&str>, name: &str) -> SimplifiedAlbum {
    SimplifiedAlbum { id: id.map(|id| id.to_string()), name: name.to_string() }
}

fn song() -> FullTrack {
    FullTrack {
        id: Some("trackX".to_string()),
        name: "Song X".to_string(),
        artists: vec![artist(Some("artist1"), "Band"), artist(Some("artist2"), "Guest")],
        album: release(Some("album1"), "Record"),
    }
}

fn record() -> FullAlbum {
    FullAlbum {
        name: "Record".to_string(),
        artists: vec![artist(Some("artist1"), "Band")],
        album_type: AlbumType::Album,
        release_date: "2001-02-03".to_string(),
        genres: vec!["rock".to_string(), "art pop".to_string()],
        tracks: vec![
            SimplifiedTrack { name: "One".to_string(), duration_ms: 185_000 },
            SimplifiedTrack { name: "Two".to_string(), duration_ms: 240_000 },
        ],
    }
}

fn single() -> FullAlbum {
    FullAlbum {
        name: "Seven Inch".to_string(),
        artists: vec![artist(Some("artist1"), "Band")],
        album_type: AlbumType::Single,
        release_date: "1999".to_string(),
        genres: Vec::new(),
        tracks: vec![SimplifiedTrack { name: "Side A".to_string(), duration_ms: 61_999 }],
    }
}

fn broken() -> FullAlbum {
    FullAlbum {
        tracks: vec![
            SimplifiedTrack { name: "Long".to_string(), duration_ms: i64::MAX },
            SimplifiedTrack { name: "More".to_string(), duration_ms: 1 },
        ],
        ..record()
    }
}

fn band() -> FullArtist {
    FullArtist { name: "Band".to_string(), genres: vec!["rock".to_string()] }
}

fn playing(item: Option<PlayableItem>) -> InfoEvent {
    InfoEvent::Playing(Some(CurrentlyPlayingContext { is_playing: true, item }))
}

fn flags(artist: bool, album: bool) -> InfoCmd {
    InfoCmd { artist, album, song: true }
}

// What a driver would answer to each request.
struct Answers {
    playing: InfoEvent,
    album: InfoEvent,
    artist: InfoEvent,
    releases: InfoEvent,
    albums: InfoEvent,
}

fn answers() -> Answers {
    Answers {
        playing: playing(Some(PlayableItem::Track(song()))),
        album: InfoEvent::Album(record()),
        artist: InfoEvent::Artist(band()),
        releases: InfoEvent::Releases(vec![
            release(Some("album1"), "Record"),
            release(Some("album2"), "Seven Inch"),
        ]),
        albums: InfoEvent::Albums(vec![record(), single()]),
    }
}

fn run(pcmd: &InfoCmd, answers: &Answers) -> Vec<InfoAction> {
    let mut state = InfoState::Start;
    let mut event = InfoEvent::Begin;
    let mut actions = Vec::new();
    loop {
        let (next, action) = print_info(pcmd, state, event);
        state = next;
        event = match &action {
            InfoAction::FetchPlaying => answers.playing.clone(),
            InfoAction::FetchAlbum { .. } => answers.album.clone(),
            InfoAction::FetchArtist { .. } => answers.artist.clone(),
            InfoAction::FetchReleases { .. } => answers.releases.clone(),
            InfoAction::FetchAlbums { .. } => answers.albums.clone(),
            _ => InfoEvent::Completed,
        };
        let last = matches!(action, InfoAction::Finish | InfoAction::Fail(_));
        actions.push(action);
        if last {
            match state {
                InfoState::Done | InfoState::Failed => {}
                _ => panic!("the run ended in {:?}", state),
            }
            return actions;
        }
        assert!(actions.len() < 16);
    }
}

const SUMMARY: &str = "\"Song X\" - \"Band\" \"Guest\" - \"Record\"";
const RECORD: &str = "Record - \"Band\"  - 7:05 - Album type: Album - Release Date: 2001-02-03 \
- Genres: [\"rock\", \"art pop\"]\n\t One - 3:05\n\t Two - 4:00";
const BAND: &str = "Band - Genres: [\"rock\"]\n\tRecord - 2001-02-03  - Album  - 7:05\
\n\tSeven Inch - 1999  - Single  - 1:01";

#[test]
fn artists_are_quoted_and_spaced() {
    assert_eq!(artist_slice_str(&[]), "");
    assert_eq!(artist_slice_str(&[artist(None, "Band")]), "\"Band\" ");
    assert_eq!(
        artist_slice_str(&[artist(None, "Band"), artist(None, "The \"Guest\"")]),
        "\"Band\" \"The \"Guest\"\" "
    );
}

#[test]
fn track_line_names_track_artists_and_album() {
    assert_eq!(track_str(&song()), SUMMARY);
    let t = song();
    let artists_str = artist_slice_str(&t.artists);
    assert_eq!(track_str(&t), format!("\"{}\" - {}- \"{}\"", t.name, artists_str, t.album.name));
}

#[test]
fn track_line_without_artists() {
    let lonely = FullTrack { artists: Vec::new(), ..song() };
    assert_eq!(track_str(&lonely), "\"Song X\" - - \"Record\"");
}

#[test]
fn item_line_of_a_track() {
    assert_eq!(item_str(&PlayableItem::Track(song())), Ok(SUMMARY.to_string()));
}

#[test]
fn item_line_of_an_episode_is_not_supported() {
    assert_eq!(item_str(&PlayableItem::Episode), Err(Error::EpisodeNotSupported));
}

#[test]
fn album_kinds_by_name() {
    assert_eq!(album_type_str(AlbumType::Album), "Album");
    assert_eq!(album_type_str(AlbumType::Single), "Single");
    assert_eq!(album_type_str(AlbumType::AppearsOn), "AppearsOn");
    assert_eq!(album_type_str(AlbumType::Compilation), "Compilation");
}

#[test]
fn genres_are_quoted_in_a_list() {
    assert_eq!(genres_str(&Vec::new()), "[]");
    assert_eq!(genres_str(&vec!["rock".to_string()]), "[\"rock\"]");
    assert_eq!(
        genres_str(&vec!["rock".to_string(), "art pop".to_string()]),
        "[\"rock\", \"art pop\"]"
    );
}

#[test]
fn genres_are_escaped() {
    let genres = vec!["rock \"n\" roll".to_string(), "tab\there".to_string(), "back\\slash".to_string()];
    assert_eq!(genres_str(&genres), "[\"rock \\\"n\\\" roll\", \"tab\\there\", \"back\\\\slash\"]");
    assert_eq!(genres_str(&genres), format!("{:?}", genres));
}

#[test]
fn album_summary_reports_the_total_runtime() {
    let summary = album_str(&record()).unwrap();
    assert!(summary.contains(" - 7:05 - "));
    assert_eq!(summary, RECORD);
}

#[test]
fn album_summary_as_formatted_piece_by_piece() {
    let a = record();
    let expected = format!(
        "{} - {} - {}:{:02} - Album type: {:?} - Release Date: {} - Genres: {:?}{}",
        a.name, "\"Band\" ", 7, 5, a.album_type, a.release_date, a.genres,
        "\n\t One - 3:05\n\t Two - 4:00"
    );
    assert_eq!(album_str(&a), Ok(expected));
}

#[test]
fn album_summary_without_tracks() {
    let empty = FullAlbum { tracks: Vec::new(), genres: Vec::new(), artists: Vec::new(), ..record() };
    assert_eq!(
        album_str(&empty),
        Ok("Record -  - 0:00 - Album type: Album - Release Date: 2001-02-03 - Genres: []".to_string())
    );
}

#[test]
fn album_summary_out_of_range() {
    assert_eq!(album_str(&broken()), Err(Error::RuntimeOutOfRange));
    let none = FullAlbum {
        tracks: vec![SimplifiedTrack { name: "None".to_string(), duration_ms: i64::MIN }],
        ..record()
    };
    assert_eq!(album_str(&none), Err(Error::RuntimeOutOfRange));
}

#[test]
fn album_slug_names_date_kind_and_runtime() {
    assert_eq!(album_slug(&record()), Ok("Record - 2001-02-03  - Album  - 7:05".to_string()));
    assert_eq!(album_slug(&single()), Ok("Seven Inch - 1999  - Single  - 1:01".to_string()));
    let a = record();
    let mut expected = String::new();
    expected.push_str(&a.name);
    expected.push_str(&format!(" - {} ", a.release_date));
    expected.push_str(&format!(" - {:?} ", a.album_type));
    expected.push_str(&format!(" - {}:{:02}", 7, 5));
    assert_eq!(album_slug(&a), Ok(expected));
}

#[test]
fn album_slug_out_of_range() {
    assert_eq!(album_slug(&broken()), Err(Error::RuntimeOutOfRange));
}

#[test]
fn artist_summary_lists_each_album() {
    assert_eq!(artist_str(&band(), &vec![record(), single()]), Ok(BAND.to_string()));
}

#[test]
fn artist_summary_without_albums() {
    let quiet = FullArtist { name: "Quiet".to_string(), genres: Vec::new() };
    assert_eq!(artist_str(&quiet, &Vec::new()), Ok("Quiet - Genres: []".to_string()));
}

#[test]
fn artist_summary_out_of_range() {
    assert_eq!(artist_str(&band(), &vec![record(), broken()]), Err(Error::RuntimeOutOfRange));
}

#[test]
fn info_of_the_song_alone() {
    assert_eq!(
        run(&flags(false, false), &answers()),
        vec![
            InfoAction::FetchPlaying,
            InfoAction::Print(SUMMARY.to_string()),
            InfoAction::Print(String::new()),
            InfoAction::Finish,
        ]
    );
}

#[test]
fn info_ignores_the_song_flag() {
    let with = InfoCmd { artist: false, album: false, song: true };
    let without = InfoCmd { artist: false, album: false, song: false };
    assert_eq!(run(&with, &answers()), run(&without, &answers()));
}

#[test]
fn info_with_the_album() {
    assert_eq!(
        run(&flags(false, true), &answers()),
        vec![
            InfoAction::FetchPlaying,
            InfoAction::Print(SUMMARY.to_string()),
            InfoAction::FetchAlbum { id: "album1".to_string() },
            InfoAction::Print(format!("\n{}", RECORD)),
            InfoAction::Finish,
        ]
    );
}

#[test]
fn info_with_the_artist() {
    assert_eq!(
        run(&flags(true, false), &answers()),
        vec![
            InfoAction::FetchPlaying,
            InfoAction::Print(SUMMARY.to_string()),
            InfoAction::FetchArtist { id: "artist1".to_string() },
            InfoAction::FetchReleases {
                id: "artist1".to_string(),
                include_groups: vec![AlbumType::Album, AlbumType::Single],
                limit: 32,
                offset: 0,
            },
            InfoAction::FetchAlbums { ids: vec!["album1".to_string(), "album2".to_string()] },
            InfoAction::Print(format!("\n\n{}", BAND)),
            InfoAction::Finish,
        ]
    );
}

#[test]
fn info_with_album_and_artist() {
    assert_eq!(
        run(&flags(true, true), &answers()),
        vec![
            InfoAction::FetchPlaying,
            InfoAction::Print(SUMMARY.to_string()),
            InfoAction::FetchAlbum { id: "album1".to_string() },
            InfoAction::FetchArtist { id: "artist1".to_string() },
            InfoAction::FetchReleases {
                id: "artist1".to_string(),
                include_groups: vec![AlbumType::Album, AlbumType::Single],
                limit: 32,
                offset: 0,
            },
            InfoAction::FetchAlbums { ids: vec!["album1".to_string(), "album2".to_string()] },
            InfoAction::Print(format!("\n{}\n\n{}", RECORD, BAND)),
            InfoAction::Finish,
        ]
    );
}

#[test]
fn info_of_a_paused_track_is_shown_too() {
    let paused = Answers {
        playing: InfoEvent::Playing(Some(CurrentlyPlayingContext {
            is_playing: false,
            item: Some(PlayableItem::Track(song())),
        })),
        ..answers()
    };
    assert_eq!(run(&flags(false, false), &paused)[1], InfoAction::Print(SUMMARY.to_string()));
}

#[test]
fn info_while_nothing_plays_fails() {
    let silent = Answers { playing: InfoEvent::Playing(None), ..answers() };
    assert_eq!(
        run(&flags(true, true), &silent),
        vec![InfoAction::FetchPlaying, InfoAction::Fail(Error::NothingPlaying)]
    );
}

#[test]
fn info_without_an_item_fails() {
    let bare = Answers { playing: playing(None), ..answers() };
    assert_eq!(
        run(&flags(false, false), &bare),
        vec![InfoAction::FetchPlaying, InfoAction::Fail(Error::MissingItem)]
    );
}

#[test]
fn info_of_an_episode_fails() {
    let podcast = Answers { playing: playing(Some(PlayableItem::Episode)), ..answers() };
    for pcmd in [flags(false, false), flags(true, false), flags(false, true), flags(true, true)] {
        assert_eq!(
            run(&pcmd, &podcast),
            vec![InfoAction::FetchPlaying, InfoAction::Fail(Error::EpisodeNotSupported)]
        );
    }
}

#[test]
fn info_of_an_album_without_id_fails() {
    let local = FullTrack { album: release(None, "Record"), ..song() };
    let answers = Answers { playing: playing(Some(PlayableItem::Track(local))), ..answers() };
    let actions = run(&flags(true, true), &answers);
    assert_eq!(actions.len(), 3);
    assert_eq!(actions[2], InfoAction::Fail(Error::MissingId));
}

#[test]
fn info_of_a_track_without_artist_fails() {
    let lonely = FullTrack { artists: Vec::new(), ..song() };
    let answers = Answers { playing: playing(Some(PlayableItem::Track(lonely))), ..answers() };
    let actions = run(&flags(true, true), &answers);
    assert_eq!(actions[2], InfoAction::FetchAlbum { id: "album1".to_string() });
    assert_eq!(actions[3], InfoAction::Fail(Error::NoArtist));
    assert_eq!(run(&flags(false, true), &answers).last(), Some(&InfoAction::Finish));
}

#[test]
fn info_of_an_artist_without_id_fails() {
    let unknown = FullTrack { artists: vec![artist(None, "Band"), artist(Some("artist2"), "Guest")], ..song() };
    let answers = Answers { playing: playing(Some(PlayableItem::Track(unknown))), ..answers() };
    assert_eq!(run(&flags(true, false), &answers).last(), Some(&InfoAction::Fail(Error::MissingId)));
}

#[test]
fn info_of_a_release_without_id_fails() {
    let answers = Answers {
        releases: InfoEvent::Releases(vec![release(Some("album1"), "Record"), release(None, "Bootleg")]),
        ..answers()
    };
    let actions = run(&flags(true, false), &answers);
    assert_eq!(actions.last(), Some(&InfoAction::Fail(Error::MissingId)));
    assert!(!actions.iter().any(|action| matches!(action, InfoAction::FetchAlbums { .. })));
}

#[test]
fn info_of_an_album_out_of_range_fails() {
    let answers = Answers { album: InfoEvent::Album(broken()), ..answers() };
    assert_eq!(run(&flags(false, true), &answers).last(), Some(&InfoAction::Fail(Error::RuntimeOutOfRange)));
    let answers = Answers { albums: InfoEvent::Albums(vec![broken()]), ..self::answers() };
    assert_eq!(run(&flags(true, false), &answers).last(), Some(&InfoAction::Fail(Error::RuntimeOutOfRange)));
}

#[test]
fn info_of_an_artist_without_releases() {
    let answers = Answers {
        releases: InfoEvent::Releases(Vec::new()),
        albums: InfoEvent::Albums(Vec::new()),
        ..answers()
    };
    let actions = run(&flags(true, false), &answers);
    assert_eq!(actions[4], InfoAction::FetchAlbums { ids: Vec::new() });
    assert_eq!(actions[5], InfoAction::Print("\n\nBand - Genres: [\"rock\"]".to_string()));
}

#[test]
fn info_ends_on_a_failed_request() {
    let failed = InfoEvent::Failed("http 429".to_string());
    let stopped = InfoAction::Fail(Error::Request("http 429".to_string()));
    let all = flags(true, true);
    for broken in [
        Answers { playing: failed.clone(), ..answers() },
        Answers { album: failed.clone(), ..answers() },
        Answers { artist: failed.clone(), ..answers() },
        Answers { releases: failed.clone(), ..answers() },
        Answers { albums: failed.clone(), ..answers() },
    ] {
        let actions = run(&all, &broken);
        assert_eq!(actions.last(), Some(&stopped));
        assert!(!actions.iter().any(|action| *action == InfoAction::Finish));
    }
    assert_eq!(
        print_info(&all, InfoState::AwaitDetails, failed.clone()),
        (InfoState::Failed, stopped.clone())
    );
    assert_eq!(
        print_info(&all, InfoState::AwaitSummary { track: song() }, failed),
        (InfoState::Failed, stopped)
    );
}

#[test]
fn info_ends_on_an_event_out_of_place() {
    let unexpected = (InfoState::Failed, InfoAction::Fail(Error::UnexpectedEvent));
    let pcmd = flags(true, true);
    assert_eq!(print_info(&pcmd, InfoState::Start, InfoEvent::Completed), unexpected);
    assert_eq!(print_info(&pcmd, InfoState::Start, InfoEvent::Failed("x".to_string())), unexpected);
    assert_eq!(print_info(&pcmd, InfoState::AwaitItem, InfoEvent::Album(record())), unexpected);
    assert_eq!(
        print_info(&pcmd, InfoState::AwaitAlbum { artists: Vec::new() }, InfoEvent::Artist(band())),
        unexpected
    );
    assert_eq!(print_info(&pcmd, InfoState::Done, InfoEvent::Completed), unexpected);
    assert_eq!(print_info(&pcmd, InfoState::Failed, InfoEvent::Begin), unexpected);
}
