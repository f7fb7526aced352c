//! The `playback` command: pause, resume, start or skip, then report what plays.
//!
//! The command is a state machine. The driver starts with [`PlaybackState::Start`] and
//! [`PlaybackEvent::Begin`], performs the action that [`modify_playback`] returns, and
//! hands back what came of it, until the action is `Finish` or `Fail`.

use crate::command::{conflicting, intent, Intent, PlayBackCmd};
use crate::error::Error;
use crate::infocmd::{item_str, track_text};
use crate::model::{
    CurrentPlaybackContext, CurrentlyPlayingContext, Device, PlayHistory, PlayableItem,
};
use vstd::prelude::*;

verus! {

/// How far the command has come: which answer it is waiting for.
#[derive(Clone, Debug, PartialEq, Eq)]
pub enum PlaybackState {
    /// Nothing was asked yet.
    Start,
    /// The playback session was asked for.
    AwaitPlayback,
    /// The devices were asked for.
    AwaitDevices { playback: Option<CurrentPlaybackContext> },
    /// The warning about a skip both ways is being shown.
    AwaitWarning { playback: Option<CurrentPlaybackContext>, devices: Vec<Device> },
    /// The play history was asked for, to start playback on `device`.
    AwaitRecent { device: Option<String> },
    /// A skip, a pause, a resume or a start is under way.
    AwaitCall,
    /// What plays after the call was asked for.
    AwaitPlaying,
    /// The status line is being shown.
    AwaitStatus,
    /// The command is through.
    Done,
    /// The command has failed.
    Failed,
}

impl PlaybackState {
    /// An action is under way and its outcome is awaited.
    pub open spec fn waiting(self) -> bool {
        !(self is Start) && !(self is Done) && !(self is Failed)
    }
}

/// What the driver hands back.
#[derive(Clone, Debug, PartialEq, Eq)]
pub enum PlaybackEvent {
    /// The command starts.
    Begin,
    /// The playback session, if there is one.
    Playback(Option<CurrentPlaybackContext>),
    /// The devices, in the order of the service.
    Devices(Vec<Device>),
    /// The play history, most recent entry first.
    Recent(Vec<PlayHistory>),
    /// What is playing, if anything.
    Playing(Option<CurrentlyPlayingContext>),
    /// The action was performed and has nothing to report.
    Completed,
    /// The action failed, with the error of the service as text.
    Failed(String),
}

/// What the driver has to do next.
#[derive(Clone, Debug, PartialEq, Eq)]
pub enum PlaybackAction {
    /// Fetch the playback session.
    FetchPlayback,
    /// Fetch the devices.
    FetchDevices,
    /// Tell the user that both skips were asked for at once.
    Warn,
    /// Skip to the next track.
    SkipNext,
    /// Skip to the previous track.
    SkipPrevious,
    /// Pause playback.
    Pause,
    /// Resume playback where the service left it.
    Resume,
    /// Fetch the `limit` most recent entries of the play history.
    FetchRecent { limit: u32 },
    /// Play the one track `track` on `device`.
    StartPlayback { track: String, device: Option<String> },
    /// Fetch what is playing.
    FetchPlaying,
    /// Print the status line and end the line.
    Print(String),
    /// Stop: the command is through.
    Finish,
    /// Stop: the command has failed.
    Fail(Error),
}

/// A [`PlaybackAction`] with its texts as sequences of characters.
pub enum PlaybackActionView {
    FetchPlayback,
    FetchDevices,
    Warn,
    SkipNext,
    SkipPrevious,
    Pause,
    Resume,
    FetchRecent { limit: u32 },
    StartPlayback { track: Seq<char>, device: Option<Seq<char>> },
    FetchPlaying,
    Print(Seq<char>),
    Finish,
    Fail(Error),
}

/// The text of an id that may be missing.
pub open spec fn id_text(id: Option<String>) -> Option<Seq<char>> {
    match id {
        Some(id) => Some(id@),
        None => None,
    }
}

impl View for PlaybackAction {
    type V = PlaybackActionView;

    open spec fn view(&self) -> PlaybackActionView {
        match *self {
            PlaybackAction::FetchPlayback => PlaybackActionView::FetchPlayback,
            PlaybackAction::FetchDevices => PlaybackActionView::FetchDevices,
            PlaybackAction::Warn => PlaybackActionView::Warn,
            PlaybackAction::SkipNext => PlaybackActionView::SkipNext,
            PlaybackAction::SkipPrevious => PlaybackActionView::SkipPrevious,
            PlaybackAction::Pause => PlaybackActionView::Pause,
            PlaybackAction::Resume => PlaybackActionView::Resume,
            PlaybackAction::FetchRecent { limit } => PlaybackActionView::FetchRecent { limit },
            PlaybackAction::StartPlayback { track, device } => PlaybackActionView::StartPlayback {
                track: track@,
                device: id_text(device),
            },
            PlaybackAction::FetchPlaying => PlaybackActionView::FetchPlaying,
            PlaybackAction::Print(line) => PlaybackActionView::Print(line@),
            PlaybackAction::Finish => PlaybackActionView::Finish,
            PlaybackAction::Fail(reason) => PlaybackActionView::Fail(reason),
        }
    }
}

/// What [`PlaybackAction::Warn`] tells the user.
pub const CONFLICT_WARNING: &'static str =
    "ERROR: both prev and next specified, not sure what you expect...";

/// A failed state, with the reason.
pub open spec fn failure(reason: Error) -> (PlaybackState, PlaybackActionView) {
    (PlaybackState::Failed, PlaybackActionView::Fail(reason))
}

/// An event that does not answer the pending request: the failure of the request, or
/// an event that has no place here.
pub open spec fn refusal(event: PlaybackEvent) -> (PlaybackState, PlaybackActionView) {
    match event {
        PlaybackEvent::Failed(reason) => failure(Error::Request(reason)),
        _ => failure(Error::UnexpectedEvent),
    }
}

/// Starting playback anew: the most recent track of the history, alone, on `dev_id`.
pub open spec fn start_new_step(history: Vec<PlayHistory>, dev_id: Option<String>) -> (
    PlaybackState,
    PlaybackActionView,
) {
    if history@.len() == 0 {
        failure(Error::NoHistory)
    } else {
        match history@[0].track.id {
            Some(track) => (
                PlaybackState::AwaitCall,
                PlaybackActionView::StartPlayback { track: track@, device: id_text(dev_id) },
            ),
            None => failure(Error::MissingId),
        }
    }
}

/// The toggle: pause what plays, resume what is paused, and without a session start
/// anew on the first device.
pub open spec fn toggle_step(pb_ctx: Option<CurrentPlaybackContext>, devs: Vec<Device>) -> (
    PlaybackState,
    PlaybackActionView,
) {
    match pb_ctx {
        Some(ctx) => if ctx.is_playing {
            (PlaybackState::AwaitCall, PlaybackActionView::Pause)
        } else {
            (PlaybackState::AwaitCall, PlaybackActionView::Resume)
        },
        None => if devs@.len() == 0 {
            failure(Error::NoDevice)
        } else {
            (
                PlaybackState::AwaitRecent { device: devs@[0].id },
                PlaybackActionView::FetchRecent { limit: 1 },
            )
        },
    }
}

/// What the command does once session and devices are known.
pub open spec fn dispatch_step(
    args: PlayBackCmd,
    playback: Option<CurrentPlaybackContext>,
    devices: Vec<Device>,
) -> (PlaybackState, PlaybackActionView) {
    if args.conflicting() {
        (PlaybackState::AwaitWarning { playback, devices }, PlaybackActionView::Warn)
    } else {
        match args.intent() {
            Intent::Next => (PlaybackState::AwaitCall, PlaybackActionView::SkipNext),
            Intent::Previous => (PlaybackState::AwaitCall, PlaybackActionView::SkipPrevious),
            Intent::Toggle | Intent::Default => toggle_step(playback, devices),
        }
    }
}

/// After the call: the one-line summary of the track that plays, and nothing where
/// nothing plays or no item is named. An episode that plays cannot be summed up.
pub open spec fn report_step(post_ctx: Option<CurrentlyPlayingContext>) -> (
    PlaybackState,
    PlaybackActionView,
) {
    match post_ctx {
        Some(ctx) => if ctx.is_playing {
            match ctx.item {
                Some(PlayableItem::Track(track)) => (
                    PlaybackState::AwaitStatus,
                    PlaybackActionView::Print(track_text(track)),
                ),
                Some(PlayableItem::Episode) => failure(Error::EpisodeNotSupported),
                None => (PlaybackState::Done, PlaybackActionView::Finish),
            }
        } else {
            (PlaybackState::Done, PlaybackActionView::Finish)
        },
        None => (PlaybackState::Done, PlaybackActionView::Finish),
    }
}

/// One step of the command: the next state and the next action.
pub open spec fn step(args: PlayBackCmd, state: PlaybackState, event: PlaybackEvent) -> (
    PlaybackState,
    PlaybackActionView,
) {
    match state {
        PlaybackState::Start => match event {
            PlaybackEvent::Begin => (PlaybackState::AwaitPlayback, PlaybackActionView::FetchPlayback),
            _ => failure(Error::UnexpectedEvent),
        },
        PlaybackState::AwaitPlayback => match event {
            PlaybackEvent::Playback(playback) => (
                PlaybackState::AwaitDevices { playback },
                PlaybackActionView::FetchDevices,
            ),
            other => refusal(other),
        },
        PlaybackState::AwaitDevices { playback } => match event {
            PlaybackEvent::Devices(devices) => dispatch_step(args, playback, devices),
            other => refusal(other),
        },
        PlaybackState::AwaitWarning { playback, devices } => match event {
            PlaybackEvent::Completed => toggle_step(playback, devices),
            other => refusal(other),
        },
        PlaybackState::AwaitRecent { device } => match event {
            PlaybackEvent::Recent(history) => start_new_step(history, device),
            other => refusal(other),
        },
        PlaybackState::AwaitCall => match event {
            PlaybackEvent::Completed => (PlaybackState::AwaitPlaying, PlaybackActionView::FetchPlaying),
            other => refusal(other),
        },
        PlaybackState::AwaitPlaying => match event {
            PlaybackEvent::Playing(playing) => report_step(playing),
            other => refusal(other),
        },
        PlaybackState::AwaitStatus => match event {
            PlaybackEvent::Completed => (PlaybackState::Done, PlaybackActionView::Finish),
            other => refusal(other),
        },
        PlaybackState::Done => failure(Error::UnexpectedEvent),
        PlaybackState::Failed => failure(Error::UnexpectedEvent),
    }
}

fn fail(reason: Error) -> (next: (PlaybackState, PlaybackAction))
    ensures
        (next.0, next.1@) == failure(reason),
{
    (PlaybackState::Failed, PlaybackAction::Fail(reason))
}

fn refuse(event: PlaybackEvent) -> (next: (PlaybackState, PlaybackAction))
    ensures
        (next.0, next.1@) == refusal(event),
{
    match event {
        PlaybackEvent::Failed(reason) => fail(Error::Request(reason)),
        _ => fail(Error::UnexpectedEvent),
    }
}

/// Starts playback anew from the play history `history`, on the device `dev_id`.
///
/// Asks to play the most recent track alone. Fails with `Error::NoHistory` on an empty
/// history, and with `Error::MissingId` where the most recent track has no id.
pub fn start_new_pb(history: Vec<PlayHistory>, dev_id: Option<String>) -> (next: (
    PlaybackState,
    PlaybackAction,
))
    ensures
        (next.0, next.1@) == start_new_step(history, dev_id),
{
    let mut history = history;
    if history.len() == 0 {
        return fail(Error::NoHistory);
    }
    let hist = history.remove(0);
    match hist.track.id {
        Some(track) => (
            PlaybackState::AwaitCall,
            PlaybackAction::StartPlayback { track, device: dev_id },
        ),
        None => fail(Error::MissingId),
    }
}

/// Pauses what plays and resumes what is paused. Without a session, asks for the play
/// history to start anew on the first of `devs`, and fails with `Error::NoDevice` where
/// there is none.
pub fn toggle_playback(pb_ctx: Option<CurrentPlaybackContext>, devs: Vec<Device>) -> (next: (
    PlaybackState,
    PlaybackAction,
))
    ensures
        (next.0, next.1@) == toggle_step(pb_ctx, devs),
{
    match pb_ctx {
        Some(pb_ctx) => {
            if pb_ctx.is_playing {
                (PlaybackState::AwaitCall, PlaybackAction::Pause)
            } else {
                (PlaybackState::AwaitCall, PlaybackAction::Resume)
            }
        },
        None => {
            let mut devs = devs;
            if devs.len() == 0 {
                return fail(Error::NoDevice);
            }
            let first = devs.remove(0);
            (
                PlaybackState::AwaitRecent { device: first.id },
                PlaybackAction::FetchRecent { limit: 1 },
            )
        },
    }
}

/// Decides what to show after the call: the one-line summary of the track that plays,
/// and nothing where nothing plays or no item is named. Fails with
/// `Error::EpisodeNotSupported` where an episode plays.
pub fn report_status(post_ctx: Option<CurrentlyPlayingContext>) -> (next: (
    PlaybackState,
    PlaybackAction,
))
    ensures
        (next.0, next.1@) == report_step(post_ctx),
{
    match post_ctx {
        Some(ctx) => {
            if ctx.is_playing {
                match ctx.item {
                    Some(itm) => match item_str(&itm) {
                        Ok(line) => (PlaybackState::AwaitStatus, PlaybackAction::Print(line)),
                        Err(e) => fail(e),
                    },
                    None => (PlaybackState::Done, PlaybackAction::Finish),
                }
            } else {
                (PlaybackState::Done, PlaybackAction::Finish)
            }
        },
        None => (PlaybackState::Done, PlaybackAction::Finish),
    }
}

/// Advances the `playback` command by one step.
///
/// `state` is where the command stands and `event` what came of the action that the
/// step before returned. The result is the next state and the next action.
pub fn modify_playback(args: &PlayBackCmd, state: PlaybackState, event: PlaybackEvent) -> (next: (
    PlaybackState,
    PlaybackAction,
))
    ensures
        (next.0, next.1@) == step(*args, state, event),
{
    match state {
        PlaybackState::Start => match event {
            PlaybackEvent::Begin => (PlaybackState::AwaitPlayback, PlaybackAction::FetchPlayback),
            _ => fail(Error::UnexpectedEvent),
        },
        PlaybackState::AwaitPlayback => match event {
            PlaybackEvent::Playback(playback) => (
                PlaybackState::AwaitDevices { playback },
                PlaybackAction::FetchDevices,
            ),
            other => refuse(other),
        },
        PlaybackState::AwaitDevices { playback } => match event {
            PlaybackEvent::Devices(devices) => {
                if conflicting(args) {
                    (PlaybackState::AwaitWarning { playback, devices }, PlaybackAction::Warn)
                } else {
                    match intent(args) {
                        Intent::Next => (PlaybackState::AwaitCall, PlaybackAction::SkipNext),
                        Intent::Previous => (PlaybackState::AwaitCall, PlaybackAction::SkipPrevious),
                        Intent::Toggle | Intent::Default => toggle_playback(playback, devices),
                    }
                }
            },
            other => refuse(other),
        },
        PlaybackState::AwaitWarning { playback, devices } => match event {
            PlaybackEvent::Completed => toggle_playback(playback, devices),
            other => refuse(other),
        },
        PlaybackState::AwaitRecent { device } => match event {
            PlaybackEvent::Recent(history) => start_new_pb(history, device),
            other => refuse(other),
        },
        PlaybackState::AwaitCall => match event {
            PlaybackEvent::Completed => (PlaybackState::AwaitPlaying, PlaybackAction::FetchPlaying),
            other => refuse(other),
        },
        PlaybackState::AwaitPlaying => match event {
            PlaybackEvent::Playing(post_ctx) => report_status(post_ctx),
            other => refuse(other),
        },
        PlaybackState::AwaitStatus => match event {
            PlaybackEvent::Completed => (PlaybackState::Done, PlaybackAction::Finish),
            other => refuse(other),
        },
        PlaybackState::Done => fail(Error::UnexpectedEvent),
        PlaybackState::Failed => fail(Error::UnexpectedEvent),
    }
}

} // verus!
