//! The log tee: while a run is in progress, what the robot logs is appended
//! to a scratch file that any number of readers can tail. The tee decides
//! when the file starts afresh and what goes into it; writing is the
//! caller's part.

use crate::payload::Mode;
use vstd::prelude::*;

verus! {

/// What the tee asks to be done to the scratch file.
#[derive(Clone, Debug, PartialEq, Eq)]
pub enum LogAction {
    /// Empty the file, or create it empty.
    Truncate,
    /// Append these bytes to the file's end.
    Append(Vec<u8>),
}

/// A log action, as a mathematical value.
pub enum LogActionModel {
    Truncate,
    Append(Seq<u8>),
}

impl View for LogAction {
    type V = LogActionModel;

    open spec fn view(&self) -> LogActionModel {
        match self {
            LogAction::Truncate => LogActionModel::Truncate,
            LogAction::Append(text) => LogActionModel::Append(text@),
        }
    }
}

/// The scratch file's content after an action.
pub open spec fn file_after(file: Seq<u8>, action: LogActionModel) -> Seq<u8> {
    match action {
        LogActionModel::Truncate => Seq::empty(),
        LogActionModel::Append(text) => file + text,
    }
}

/// The tee's memory: whether a run is in progress.
pub struct LogTee {
    active: bool,
}

impl LogTee {
    /// Whether a run is in progress, so that log text is kept.
    pub closed spec fn is_active(&self) -> bool {
        self.active
    }

    /// A tee with no run in progress.
    pub fn new() -> (out: LogTee)
        ensures
            !out.is_active(),
    {
        LogTee { active: false }
    }

    /// Whether a run is in progress.
    pub fn active(&self) -> (out: bool)
        ensures
            out == self.is_active(),
    {
        self.active
    }

    /// Notes a new run state. Leaving idle starts a run, and the file starts
    /// afresh; entering idle ends the run and leaves the file as it is, to be
    /// emptied when the next run starts.
    pub fn on_run_state_change(&mut self, new_state: Mode) -> (out: Option<LogAction>)
        ensures
            final(self).is_active() == (new_state != Mode::Idle),
            !old(self).is_active() && new_state != Mode::Idle ==> out is Some && out->Some_0@
                == LogActionModel::Truncate,
            old(self).is_active() || new_state == Mode::Idle ==> out is None,
        no_unwind
    {
        let running = match new_state {
            Mode::Idle => false,
            _ => true,
        };
        let starts = running && !self.active;
        self.active = running;
        if starts {
            Some(LogAction::Truncate)
        } else {
            None
        }
    }

    /// Takes log text. It is appended while a run is in progress and dropped
    /// otherwise.
    pub fn append(&self, text: Vec<u8>) -> (out: Option<LogAction>)
        ensures
            self.is_active() ==> out is Some && out->Some_0@ == LogActionModel::Append(text@),
            !self.is_active() ==> out is None,
    {
        if self.active {
            Some(LogAction::Append(text))
        } else {
            None
        }
    }
}

} // verus!
