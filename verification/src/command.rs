//! The commands as the user enters them.

use vstd::prelude::*;

verus! {

/// The `info` command: which blocks to show beside the one-line summary.
#[derive(Clone, Copy, Debug, PartialEq, Eq)]
pub struct InfoCmd {
    pub artist: bool,
    pub album: bool,
    pub song: bool,
}

/// The `playback` command: three flags, of which `next` and `prev` exclude each other.
#[derive(Clone, Copy, Debug, PartialEq, Eq)]
pub struct PlayBackCmd {
    pub toggle: bool,
    pub next: bool,
    pub prev: bool,
}

/// A command of the client.
#[derive(Clone, Copy, Debug, PartialEq, Eq)]
pub enum Command {
    Info(InfoCmd),
    PlayBack(PlayBackCmd),
}

/// What a `playback` command comes down to.
#[derive(Clone, Copy, Debug, PartialEq, Eq)]
pub enum Intent {
    /// Pause or resume, because it was asked for, or in place of a skip both ways.
    Toggle,
    /// Skip to the next track.
    Next,
    /// Skip to the previous track.
    Previous,
    /// No flag was given: pause or resume.
    Default,
}

impl PlayBackCmd {
    /// Both skips were asked for at once.
    pub open spec fn conflicting(self) -> bool {
        self.next && self.prev
    }

    /// No flag was given.
    pub open spec fn nothing_set(self) -> bool {
        !self.next && !self.prev && !self.toggle
    }

    /// A skip wins over a toggle; both skips at once count as a toggle.
    pub open spec fn intent(self) -> Intent {
        if self.next && !self.prev {
            Intent::Next
        } else if self.prev && !self.next {
            Intent::Previous
        } else if self.nothing_set() {
            Intent::Default
        } else {
            Intent::Toggle
        }
    }
}

impl Intent {
    /// The command pauses, resumes or starts playback, and does not skip.
    pub open spec fn toggles(self) -> bool {
        self is Toggle || self is Default
    }
}

/// The command that runs where none is given: `info` with every block.
pub open spec fn default_command() -> Command {
    Command::Info(InfoCmd { artist: true, album: true, song: true })
}

/// The command to run: the one that was given, or the default.
pub fn command_or_default(command: Option<Command>) -> (cmd: Command)
    ensures
        cmd == (match command {
            Some(given) => given,
            None => default_command(),
        }),
{
    match command {
        Some(cmd) => cmd,
        None => Command::Info(InfoCmd { artist: true, album: true, song: true }),
    }
}

/// Whether no flag was given.
pub fn nothing_set(args: &PlayBackCmd) -> (nothing: bool)
    ensures
        nothing == args.nothing_set(),
{
    !args.next && !args.prev && !args.toggle
}

/// Whether both skips were asked for at once.
pub fn conflicting(args: &PlayBackCmd) -> (conflict: bool)
    ensures
        conflict == args.conflicting(),
{
    args.prev && args.next
}

/// What the command comes down to.
pub fn intent(args: &PlayBackCmd) -> (intent: Intent)
    ensures
        intent == args.intent(),
{
    if args.next && !args.prev {
        Intent::Next
    } else if args.prev && !args.next {
        Intent::Previous
    } else if nothing_set(args) {
        Intent::Default
    } else {
        Intent::Toggle
    }
}

} // verus!
