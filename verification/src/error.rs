//! Why a command stops early.

use vstd::prelude::*;

verus! {

/// Every failure ends the command; none is retried.
#[derive(Clone, Debug, PartialEq, Eq)]
pub enum Error {
    /// A request to the service failed. The text is the underlying error, unchanged.
    Request(String),
    /// Information was asked for while nothing is playing.
    NothingPlaying,
    /// The service reported a playing context without an item.
    MissingItem,
    /// The playing item is a podcast episode.
    EpisodeNotSupported,
    /// Playback has to be started and there is no device to start it on.
    NoDevice,
    /// Playback has to be started and the play history is empty.
    NoHistory,
    /// A track, an album or an artist that has to be looked up carries no id.
    MissingId,
    /// The playing track lists no artist.
    NoArtist,
    /// A duration, or a sum of durations, is more than a runtime can hold.
    RuntimeOutOfRange,
    /// The driver handed over an event that does not answer the pending request.
    UnexpectedEvent,
}

impl Error {
    /// What the user is told. A failed request is reported in the words of the service.
    pub open spec fn text(self) -> Seq<char> {
        match self {
            Error::Request(reason) => reason@,
            Error::NothingPlaying => "Nothing currently playing"@,
            Error::MissingItem => "the service names no item as playing"@,
            Error::EpisodeNotSupported => "podcasts are not supported"@,
            Error::NoDevice => "no playback device available"@,
            Error::NoHistory => "the play history is empty"@,
            Error::MissingId => "an item carries no id"@,
            Error::NoArtist => "the track lists no artist"@,
            Error::RuntimeOutOfRange => "a runtime is out of range"@,
            Error::UnexpectedEvent => "an event does not answer the pending request"@,
        }
    }

    /// Writes what the user is told.
    pub fn message(&self) -> (text: String)
        ensures
            text@ == self.text(),
    {
        match self {
            Error::Request(reason) => reason.clone(),
            Error::NothingPlaying => String::from_str("Nothing currently playing"),
            Error::MissingItem => String::from_str("the service names no item as playing"),
            Error::EpisodeNotSupported => String::from_str("podcasts are not supported"),
            Error::NoDevice => String::from_str("no playback device available"),
            Error::NoHistory => String::from_str("the play history is empty"),
            Error::MissingId => String::from_str("an item carries no id"),
            Error::NoArtist => String::from_str("the track lists no artist"),
            Error::RuntimeOutOfRange => String::from_str("a runtime is out of range"),
            Error::UnexpectedEvent => String::from_str(
                "an event does not answer the pending request",
            ),
        }
    }
}

} // verus!
