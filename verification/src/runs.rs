//! Whole runs of the `playback` command: the actions that it asks for, one after the
//! other, against a service that answers every request.

use crate::command::{Intent, PlayBackCmd};
use crate::error::Error;
use crate::infocmd::track_text;
use crate::model::{
    CurrentPlaybackContext, CurrentlyPlayingContext, Device, FullTrack, PlayHistory, PlayableItem,
};
use crate::playbackcmd::{
    id_text, report_step, step, toggle_step, PlaybackActionView, PlaybackEvent, PlaybackState,
};
use vstd::prelude::*;

verus! {

/// What the service answers in one run.
#[derive(Clone, Debug, PartialEq, Eq)]
pub struct Service {
    /// The playback session before the command acts.
    pub playback: Option<CurrentPlaybackContext>,
    /// The devices.
    pub devices: Vec<Device>,
    /// The play history, most recent entry first.
    pub recent: Vec<PlayHistory>,
    /// What plays after the command has acted.
    pub playing: Option<CurrentlyPlayingContext>,
}

impl Service {
    /// The service reports, after the command has acted, that something plays.
    pub open spec fn plays(self) -> bool {
        self.playing matches Some(ctx) && ctx.is_playing
    }

    /// The track that the service names as playing after the command has acted.
    pub open spec fn playing_track(self) -> Option<FullTrack> {
        match self.playing {
            Some(ctx) => match ctx.item {
                Some(PlayableItem::Track(track)) if ctx.is_playing => Some(track),
                _ => None,
            },
            None => None,
        }
    }

    /// The id of the track that a new start would play: the most recent one of the
    /// history, if it has an id.
    pub open spec fn last_track(self) -> Option<Seq<char>> {
        if self.recent@.len() == 0 {
            None
        } else {
            id_text(self.recent@[0].track.id)
        }
    }
}

/// The event that a driver hands back for `action` when the service answers.
pub open spec fn answer(service: Service, action: PlaybackActionView) -> PlaybackEvent {
    match action {
        PlaybackActionView::FetchPlayback => PlaybackEvent::Playback(service.playback),
        PlaybackActionView::FetchDevices => PlaybackEvent::Devices(service.devices),
        PlaybackActionView::FetchRecent { .. } => PlaybackEvent::Recent(service.recent),
        PlaybackActionView::FetchPlaying => PlaybackEvent::Playing(service.playing),
        _ => PlaybackEvent::Completed,
    }
}

/// The action ends the run.
pub open spec fn ends(action: PlaybackActionView) -> bool {
    action is Finish || action is Fail
}

/// The action is a skip.
pub open spec fn skips(action: PlaybackActionView) -> bool {
    action is SkipNext || action is SkipPrevious
}

/// The action belongs to a toggle: a pause, a resume, or one of the two steps of a new
/// start.
pub open spec fn toggles(action: PlaybackActionView) -> bool {
    action is Pause || action is Resume || action is FetchRecent || action is StartPlayback
}

/// A bound on the actions that are still to come from `state`.
pub open spec fn pending(state: PlaybackState) -> nat {
    match state {
        PlaybackState::Start => 8,
        PlaybackState::AwaitPlayback => 7,
        PlaybackState::AwaitDevices { .. } => 6,
        PlaybackState::AwaitWarning { .. } => 5,
        PlaybackState::AwaitRecent { .. } => 4,
        PlaybackState::AwaitCall => 3,
        PlaybackState::AwaitPlaying => 2,
        PlaybackState::AwaitStatus => 1,
        PlaybackState::Done => 0,
        PlaybackState::Failed => 0,
    }
}

/// The actions of a run from `state` on, where `event` is handed over first and the
/// service answers each action.
pub open spec fn run(
    args: PlayBackCmd,
    service: Service,
    state: PlaybackState,
    event: PlaybackEvent,
) -> Seq<PlaybackActionView>
    decreases pending(state),
{
    let (next, action) = step(args, state, event);
    if ends(action) || pending(next) >= pending(state) {
        seq![action]
    } else {
        seq![action] + run(args, service, next, answer(service, action))
    }
}

/// The actions of the whole command, from its start.
pub open spec fn actions(args: PlayBackCmd, service: Service) -> Seq<PlaybackActionView> {
    run(args, service, PlaybackState::Start, PlaybackEvent::Begin)
}

/// What follows the call: one fetch of what plays, and the status line if a track
/// plays.
pub open spec fn closing(service: Service) -> Seq<PlaybackActionView> {
    match report_step(service.playing).1 {
        PlaybackActionView::Print(line) => seq![
            PlaybackActionView::FetchPlaying,
            PlaybackActionView::Print(line),
            PlaybackActionView::Finish,
        ],
        last => seq![PlaybackActionView::FetchPlaying, last],
    }
}

/// The actions of a new start, from the fetch of the history on.
pub open spec fn starting(service: Service) -> Seq<PlaybackActionView> {
    if service.devices@.len() == 0 {
        seq![PlaybackActionView::Fail(Error::NoDevice)]
    } else if service.recent@.len() == 0 {
        seq![
            PlaybackActionView::FetchRecent { limit: 1 },
            PlaybackActionView::Fail(Error::NoHistory),
        ]
    } else {
        match service.recent@[0].track.id {
            None => seq![
                PlaybackActionView::FetchRecent { limit: 1 },
                PlaybackActionView::Fail(Error::MissingId),
            ],
            Some(track) => seq![
                PlaybackActionView::FetchRecent { limit: 1 },
                PlaybackActionView::StartPlayback {
                    track: track@,
                    device: id_text(service.devices@[0].id),
                },
            ] + closing(service),
        }
    }
}

/// The actions of a toggle and what follows it.
pub open spec fn toggling(service: Service) -> Seq<PlaybackActionView> {
    match service.playback {
        Some(ctx) => if ctx.is_playing {
            seq![PlaybackActionView::Pause] + closing(service)
        } else {
            seq![PlaybackActionView::Resume] + closing(service)
        },
        None => starting(service),
    }
}

/// The actions of the command, written out.
pub open spec fn script(args: PlayBackCmd, service: Service) -> Seq<PlaybackActionView> {
    let fetches = seq![PlaybackActionView::FetchPlayback, PlaybackActionView::FetchDevices];
    if args.conflicting() {
        fetches + seq![PlaybackActionView::Warn] + toggling(service)
    } else {
        match args.intent() {
            Intent::Next => fetches + seq![PlaybackActionView::SkipNext] + closing(service),
            Intent::Previous => fetches + seq![PlaybackActionView::SkipPrevious] + closing(
                service,
            ),
            Intent::Toggle | Intent::Default => fetches + toggling(service),
        }
    }
}

/// Every step that does not end the run brings the command closer to its end.
pub proof fn lemma_step_descends(args: PlayBackCmd, state: PlaybackState, event: PlaybackEvent)
    ensures
        !ends(step(args, state, event).1) ==> pending(step(args, state, event).0) < pending(state),
        ends(step(args, state, event).1) ==> pending(step(args, state, event).0) == 0,
{
}

proof fn lemma_closing(args: PlayBackCmd, service: Service)
    ensures
        run(args, service, PlaybackState::AwaitCall, PlaybackEvent::Completed) == closing(service),
{
    reveal_with_fuel(run, 3);
    assert(run(args, service, PlaybackState::AwaitCall, PlaybackEvent::Completed) =~= closing(
        service,
    ));
}

proof fn lemma_toggling(args: PlayBackCmd, service: Service)
    ensures
        ({
            let (next, action) = toggle_step(service.playback, service.devices);
            toggling(service) == if ends(action) {
                seq![action]
            } else {
                seq![action] + run(args, service, next, answer(service, action))
            }
        }),
{
    reveal_with_fuel(run, 2);
    lemma_closing(args, service);
    let (next, action) = toggle_step(service.playback, service.devices);
    if ends(action) {
        assert(toggling(service) =~= seq![action]);
    } else {
        assert(toggling(service) =~= seq![action] + run(
            args,
            service,
            next,
            answer(service, action),
        ));
    }
}

/// The run of the command is its script: both fetches first, then the warning where
/// both skips were asked for, then the one skip or the toggle, then what follows.
pub proof fn lemma_actions_are_script(args: PlayBackCmd, service: Service)
    ensures
        actions(args, service) == script(args, service),
{
    reveal_with_fuel(run, 4);
    lemma_closing(args, service);
    lemma_toggling(args, service);
    assert(actions(args, service) =~= script(args, service));
}

/// Where both skips are asked for at once, no skip is issued: the warning is, and the
/// toggle takes the place of the skip.
pub proof fn law_conflict_warns_and_toggles(args: PlayBackCmd, service: Service)
    requires
        args.next && args.prev,
    ensures
        forall|i: int|
            0 <= i < actions(args, service).len() ==> !skips(#[trigger] actions(args, service)[i]),
        actions(args, service) == seq![
            PlaybackActionView::FetchPlayback,
            PlaybackActionView::FetchDevices,
            PlaybackActionView::Warn,
        ] + toggling(service),
        actions(args, service)[3] == toggle_step(service.playback, service.devices).1,
{
    lemma_actions_are_script(args, service);
    assert(script(args, service) =~= seq![
        PlaybackActionView::FetchPlayback,
        PlaybackActionView::FetchDevices,
        PlaybackActionView::Warn,
    ] + toggling(service));
}

/// Where exactly one skip is asked for, that skip is issued once, in third place, and
/// nothing of a toggle is: no pause, no resume, no new start.
pub proof fn law_one_skip_and_no_toggle(args: PlayBackCmd, service: Service)
    requires
        args.next != args.prev,
    ensures
        actions(args, service).len() > 2,
        actions(args, service)[2] == (if args.next {
            PlaybackActionView::SkipNext
        } else {
            PlaybackActionView::SkipPrevious
        }),
        forall|i: int|
            0 <= i < actions(args, service).len() && i != 2 ==> !skips(
                #[trigger] actions(args, service)[i],
            ),
        forall|i: int|
            0 <= i < actions(args, service).len() ==> !toggles(
                #[trigger] actions(args, service)[i],
            ),
{
    lemma_actions_are_script(args, service);
}

/// A command without any flag does at every step what the command with `toggle` alone
/// does, and so asks for the same actions.
pub proof fn law_default_is_toggle(
    args: PlayBackCmd,
    service: Service,
    state: PlaybackState,
    event: PlaybackEvent,
)
    requires
        !args.toggle && !args.next && !args.prev,
    ensures
        step(args, state, event) == step(
            PlayBackCmd { toggle: true, next: false, prev: false },
            state,
            event,
        ),
        actions(args, service) == actions(
            PlayBackCmd { toggle: true, next: false, prev: false },
            service,
        ),
{
    let toggle = PlayBackCmd { toggle: true, next: false, prev: false };
    lemma_actions_are_script(args, service);
    lemma_actions_are_script(toggle, service);
}

/// The place of the toggle's first action in a run that toggles.
pub open spec fn toggle_place(args: PlayBackCmd) -> int {
    if args.conflicting() {
        3
    } else {
        2
    }
}

/// With a session that plays, a command that toggles issues one pause, and neither a
/// resume nor a new start.
pub proof fn law_playing_is_paused(args: PlayBackCmd, service: Service)
    requires
        args.intent().toggles(),
        service.playback matches Some(ctx) && ctx.is_playing,
    ensures
        actions(args, service).len() > toggle_place(args),
        actions(args, service)[toggle_place(args)] == PlaybackActionView::Pause,
        forall|i: int|
            0 <= i < actions(args, service).len() && i != toggle_place(args) ==> !(
            #[trigger] actions(args, service)[i] is Pause),
        forall|i: int|
            0 <= i < actions(args, service).len() ==> {
                let action = #[trigger] actions(args, service)[i];
                !(action is Resume) && !(action is FetchRecent) && !(action is StartPlayback)
            },
{
    lemma_actions_are_script(args, service);
}

/// With a session that is paused, a command that toggles issues one resume, and
/// neither a pause nor a new start.
pub proof fn law_paused_is_resumed(args: PlayBackCmd, service: Service)
    requires
        args.intent().toggles(),
        service.playback matches Some(ctx) && !ctx.is_playing,
    ensures
        actions(args, service).len() > toggle_place(args),
        actions(args, service)[toggle_place(args)] == PlaybackActionView::Resume,
        forall|i: int|
            0 <= i < actions(args, service).len() && i != toggle_place(args) ==> !(
            #[trigger] actions(args, service)[i] is Resume),
        forall|i: int|
            0 <= i < actions(args, service).len() ==> {
                let action = #[trigger] actions(args, service)[i];
                !(action is Pause) && !(action is FetchRecent) && !(action is StartPlayback)
            },
{
    lemma_actions_are_script(args, service);
}

/// Without a session, a command that toggles starts anew: it fetches the one most
/// recent entry of the history and plays its track on the first device. It fails,
/// without a start, where there is no device, no history, or no id on that track. It
/// never pauses or resumes.
pub proof fn law_no_session_starts_anew(args: PlayBackCmd, service: Service)
    requires
        args.intent().toggles(),
        service.playback is None,
    ensures
        forall|i: int|
            0 <= i < actions(args, service).len() ==> {
                let action = #[trigger] actions(args, service)[i];
                !(action is Pause) && !(action is Resume)
            },
        service.devices@.len() == 0 ==> actions(args, service).last() == PlaybackActionView::Fail(
            Error::NoDevice,
        ),
        service.devices@.len() > 0 && service.recent@.len() == 0 ==> actions(args, service).last()
            == PlaybackActionView::Fail(Error::NoHistory),
        service.devices@.len() > 0 && service.recent@.len() > 0 && service.last_track() is None
            ==> actions(args, service).last() == PlaybackActionView::Fail(Error::MissingId),
        service.devices@.len() > 0 ==> actions(args, service).len() > toggle_place(args) + 1
            && actions(args, service)[toggle_place(args)] == (PlaybackActionView::FetchRecent {
            limit: 1,
        }),
        service.devices@.len() > 0 && service.last_track() is Some ==> actions(
            args,
            service,
        )[toggle_place(args) + 1] == (PlaybackActionView::StartPlayback {
            track: service.last_track()->Some_0,
            device: id_text(service.devices@[0].id),
        }),
        forall|i: int|
            0 <= i < actions(args, service).len() && #[trigger] actions(
                args,
                service,
            )[i] is StartPlayback ==> i == toggle_place(args) + 1 && service.devices@.len() > 0
                && service.last_track() is Some,
{
    lemma_actions_are_script(args, service);
}

/// What plays is fetched at most once, after the call, and what that fetch reports
/// decides alone what comes next. The status line is printed exactly when it reports
/// that a track plays, and is the one-line summary of that track; where nothing plays
/// or no item is named, the command ends there without printing.
pub proof fn law_status_line_iff_playing(args: PlayBackCmd, service: Service)
    ensures
        forall|i: int, j: int|
            0 <= i < j < actions(args, service).len() ==> !(#[trigger] actions(
                args,
                service,
            )[i] is FetchPlaying && #[trigger] actions(args, service)[j] is FetchPlaying),
        forall|i: int|
            0 <= i < actions(args, service).len() && #[trigger] actions(
                args,
                service,
            )[i] is FetchPlaying ==> i + 1 < actions(args, service).len() && actions(
                args,
                service,
            )[i + 1] == report_step(service.playing).1,
        forall|i: int|
            0 <= i < actions(args, service).len() && #[trigger] actions(
                args,
                service,
            )[i] is Print ==> i > 0 && actions(args, service)[i - 1] is FetchPlaying
                && service.playing_track() is Some && actions(args, service)[i]
                == PlaybackActionView::Print(track_text(service.playing_track()->Some_0)),
        service.playing_track() is Some ==> report_step(service.playing).1
            == PlaybackActionView::Print(track_text(service.playing_track()->Some_0)),
        !service.plays() ==> report_step(service.playing).1 == PlaybackActionView::Finish,
{
    lemma_actions_are_script(args, service);
}

/// A request that fails ends the command at once, with the error of the service
/// unchanged: nothing is tried again.
pub proof fn law_failed_request_ends_run(args: PlayBackCmd, state: PlaybackState, reason: String)
    requires
        state.waiting(),
    ensures
        step(args, state, PlaybackEvent::Failed(reason)) == (
            PlaybackState::Failed,
            PlaybackActionView::Fail(Error::Request(reason)),
        ),
{
}

/// Session and devices are fetched first, whatever the command.
pub proof fn law_fetches_come_first(args: PlayBackCmd, service: Service)
    ensures
        actions(args, service).len() > 2,
        actions(args, service)[0] == PlaybackActionView::FetchPlayback,
        actions(args, service)[1] == PlaybackActionView::FetchDevices,
{
    lemma_actions_are_script(args, service);
}

/// Every run ends, with `Finish` or with `Fail`, and with nothing after it.
pub proof fn law_run_ends(args: PlayBackCmd, service: Service)
    ensures
        ends(actions(args, service).last()),
        forall|i: int|
            0 <= i < actions(args, service).len() - 1 ==> !ends(
                #[trigger] actions(args, service)[i],
            ),
{
    lemma_actions_are_script(args, service);
}

} // verus!
