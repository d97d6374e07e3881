//! The state behind the terminal panes.

use crate::client::{
    bare_request, bare_request_bytes, run_request, run_request_bytes,
};
use crate::daemon::MsgDaemonType;
use crate::listener::END_MARK;
use crate::robot::{event_type_id, EventType};
use vstd::prelude::*;
use vstd::slice::{slice_subrange, slice_to_vec};

verus! {

/// A pane's scroll position.
#[derive(Clone, Copy, Debug, PartialEq, Eq, Structural)]
pub struct App {
    /// The first line shown.
    pub scroll: usize,
}

impl App {
    /// A pane scrolled to its top.
    pub fn new() -> (out: App)
        ensures
            out.scroll == 0,
    {
        App { scroll: 0 }
    }

    /// Scrolls up by one line; at the top nothing changes.
    pub fn scroll_up(&mut self)
        ensures
            old(self).scroll > 0 ==> final(self).scroll == old(self).scroll - 1,
            old(self).scroll == 0 ==> final(self).scroll == 0,
            *final(self) == scrolled_up(*old(self)),
    {
        if self.scroll > 0 {
            self.scroll = self.scroll - 1;
        }
    }

    /// Scrolls down by one line, but not to `max_scroll` or beyond it.
    pub fn scroll_down(&mut self, max_scroll: usize)
        ensures
            old(self).scroll < max_scroll ==> final(self).scroll == old(self).scroll + 1,
            old(self).scroll >= max_scroll ==> final(self).scroll == old(self).scroll,
            *final(self) == scrolled_down(*old(self), max_scroll),
    {
        if self.scroll < max_scroll {
            self.scroll = self.scroll + 1;
        }
    }
}

/// Follows the log scratch file: remembers how much of it was shown and
/// hands out what was added since.
#[derive(Clone, Copy, Debug, PartialEq, Eq, Structural)]
pub struct LogTail {
    /// How many bytes of the file were shown.
    pub seen: usize,
}

impl LogTail {
    /// Nothing was shown yet.
    pub fn new() -> (out: LogTail)
        ensures
            out.seen == 0,
    {
        LogTail { seen: 0 }
    }

    /// Takes the file's whole content. If it is longer than what was shown,
    /// the bytes behind that are handed out and count as shown; otherwise
    /// nothing is handed out and nothing changes.
    pub fn poll(&mut self, file: &[u8]) -> (out: Vec<u8>)
        ensures
            file@.len() > old(self).seen ==> out@ == file@.skip(old(self).seen as int)
                && final(self).seen == file@.len(),
            file@.len() <= old(self).seen ==> out@ == Seq::<u8>::empty() && final(self).seen
                == old(self).seen,
    {
        if file.len() > self.seen {
            let fresh = slice_to_vec(slice_subrange(file, self.seen, file.len()));
            assert(fresh@ =~= file@.skip(self.seen as int));
            self.seen = file.len();
            fresh
        } else {
            Vec::new()
        }
    }

    /// The file could not be read: what was shown is forgotten.
    pub fn reset(&mut self)
        ensures
            final(self).seen == 0,
    {
        self.seen = 0;
    }
}

/// The two panes of the run screen.
#[derive(Clone, Copy, Debug, PartialEq, Eq, Structural)]
pub enum Pane {
    Terminal,
    Devices,
}

/// The keys that the run screen tells apart.
#[derive(Clone, Copy, Debug, PartialEq, Eq, Structural)]
pub enum ScreenKey {
    /// Leave the screen.
    Quit,
    /// Start a teleoperated run.
    Teleop,
    /// Start forwarding inputs.
    Input,
    /// Start an autonomous run.
    Auto,
    /// Stop the run, or clear the terminal pane if none is in progress.
    Stop,
    Up,
    Down,
    Left,
    Right,
    Other,
}

/// What the run screen asks for after a key.
#[derive(Clone, Copy, Debug, PartialEq, Eq, Structural)]
pub enum ScreenCommand {
    /// Nothing beyond redrawing.
    Nothing,
    /// Tell the daemon that the run ends, and leave.
    Leave,
    /// Ask the daemon for a teleoperated run and start sampling inputs.
    StartTeleop,
    /// Ask the daemon to forward inputs and start sampling them.
    StartInput,
    /// Ask the daemon for an autonomous run.
    StartAuto,
    /// Tell the daemon that the run ends, stop sampling inputs, and open a
    /// new connection to the daemon.
    StopRun,
    /// Empty the terminal pane.
    ClearTerminal,
}

/// The run screen's state.
#[derive(Clone, Copy, Debug, PartialEq, Eq, Structural)]
pub struct RunScreen {
    /// Whether a run is in progress.
    pub running: bool,
    /// The pane that the arrow keys scroll.
    pub selected: Pane,
    /// The terminal pane.
    pub terminal: App,
    /// The devices pane.
    pub devices: App,
}

/// A scroll position one line up.
pub open spec fn scrolled_up(app: App) -> App {
    if app.scroll > 0 {
        App { scroll: (app.scroll - 1) as usize }
    } else {
        app
    }
}

/// A scroll position one line down, short of `max_scroll`.
pub open spec fn scrolled_down(app: App, max_scroll: usize) -> App {
    if app.scroll < max_scroll {
        App { scroll: (app.scroll + 1) as usize }
    } else {
        app
    }
}

/// The screen after a key, and what the key asks for. `terminal_lines` and
/// `device_lines` are the numbers of lines that the two panes hold.
pub open spec fn screen_after(
    screen: RunScreen,
    key: ScreenKey,
    terminal_lines: usize,
    device_lines: usize,
) -> (RunScreen, ScreenCommand) {
    match key {
        ScreenKey::Quit => (screen, ScreenCommand::Leave),
        ScreenKey::Teleop => if screen.running {
            (screen, ScreenCommand::Nothing)
        } else {
            (RunScreen { running: true, ..screen }, ScreenCommand::StartTeleop)
        },
        ScreenKey::Input => if screen.running {
            (screen, ScreenCommand::Nothing)
        } else {
            (RunScreen { running: true, ..screen }, ScreenCommand::StartInput)
        },
        ScreenKey::Auto => if screen.running {
            (screen, ScreenCommand::Nothing)
        } else {
            (RunScreen { running: true, ..screen }, ScreenCommand::StartAuto)
        },
        ScreenKey::Stop => if screen.running {
            (RunScreen { running: false, ..screen }, ScreenCommand::StopRun)
        } else {
            (screen, ScreenCommand::ClearTerminal)
        },
        ScreenKey::Up => match screen.selected {
            Pane::Terminal => (
                RunScreen { terminal: scrolled_up(screen.terminal), ..screen },
                ScreenCommand::Nothing,
            ),
            Pane::Devices => (
                RunScreen { devices: scrolled_up(screen.devices), ..screen },
                ScreenCommand::Nothing,
            ),
        },
        ScreenKey::Down => match screen.selected {
            Pane::Terminal => (
                RunScreen { terminal: scrolled_down(screen.terminal, terminal_lines), ..screen },
                ScreenCommand::Nothing,
            ),
            Pane::Devices => (
                RunScreen { devices: scrolled_down(screen.devices, device_lines), ..screen },
                ScreenCommand::Nothing,
            ),
        },
        ScreenKey::Left => (
            RunScreen { selected: Pane::Terminal, ..screen },
            ScreenCommand::Nothing,
        ),
        ScreenKey::Right => (
            RunScreen { selected: Pane::Devices, ..screen },
            ScreenCommand::Nothing,
        ),
        ScreenKey::Other => (screen, ScreenCommand::Nothing),
    }
}

/// The bytes that a command sends to the daemon: a run request, a request to
/// have inputs forwarded (followed by a byte that the listener skips), or the
/// end mark.
pub open spec fn command_bytes(command: ScreenCommand) -> Seq<u8> {
    match command {
        ScreenCommand::Leave => seq![END_MARK],
        ScreenCommand::StartTeleop => run_request_bytes(EventType::RobotStart),
        ScreenCommand::StartInput => bare_request_bytes(MsgDaemonType::InputListener) + seq![
            event_type_id(EventType::RobotStart),
        ],
        ScreenCommand::StartAuto => run_request_bytes(EventType::RobotAuto),
        ScreenCommand::StopRun => seq![END_MARK],
        _ => Seq::empty(),
    }
}

impl ScreenCommand {
    /// The bytes to write to the daemon for this command.
    pub fn bytes(self) -> (out: Vec<u8>)
        ensures
            out@ == command_bytes(self),
    {
        match self {
            ScreenCommand::Leave => {
                let mut out: Vec<u8> = Vec::new();
                out.push(END_MARK);
                assert(out@ =~= command_bytes(self));
                out
            },
            ScreenCommand::StartTeleop => run_request(EventType::RobotStart),
            ScreenCommand::StartInput => {
                let mut out = bare_request(MsgDaemonType::InputListener);
                out.push(EventType::RobotStart.id());
                assert(out@ =~= command_bytes(self));
                out
            },
            ScreenCommand::StartAuto => run_request(EventType::RobotAuto),
            ScreenCommand::StopRun => {
                let mut out: Vec<u8> = Vec::new();
                out.push(END_MARK);
                assert(out@ =~= command_bytes(self));
                out
            },
            _ => Vec::new(),
        }
    }

    /// Whether inputs are to be sampled from now on.
    pub fn samples_inputs(self) -> (out: bool)
        ensures
            out == (self == ScreenCommand::StartTeleop || self == ScreenCommand::StartInput),
    {
        match self {
            ScreenCommand::StartTeleop => true,
            ScreenCommand::StartInput => true,
            _ => false,
        }
    }
}

impl RunScreen {
    /// The screen as it opens: no run, the terminal pane selected, both panes
    /// at their top.
    pub fn new() -> (out: RunScreen)
        ensures
            out == (RunScreen {
                running: false,
                selected: Pane::Terminal,
                terminal: App { scroll: 0 },
                devices: App { scroll: 0 },
            }),
    {
        RunScreen {
            running: false,
            selected: Pane::Terminal,
            terminal: App::new(),
            devices: App::new(),
        }
    }

    /// Takes a key and says what it asks for.
    pub fn on_key(&mut self, key: ScreenKey, terminal_lines: usize, device_lines: usize) -> (out:
        ScreenCommand)
        ensures
            (*final(self), out) == screen_after(*old(self), key, terminal_lines, device_lines),
    {
        match key {
            ScreenKey::Quit => ScreenCommand::Leave,
            ScreenKey::Teleop => {
                if self.running {
                    ScreenCommand::Nothing
                } else {
                    self.running = true;
                    ScreenCommand::StartTeleop
                }
            },
            ScreenKey::Input => {
                if self.running {
                    ScreenCommand::Nothing
                } else {
                    self.running = true;
                    ScreenCommand::StartInput
                }
            },
            ScreenKey::Auto => {
                if self.running {
                    ScreenCommand::Nothing
                } else {
                    self.running = true;
                    ScreenCommand::StartAuto
                }
            },
            ScreenKey::Stop => {
                if self.running {
                    self.running = false;
                    ScreenCommand::StopRun
                } else {
                    ScreenCommand::ClearTerminal
                }
            },
            ScreenKey::Up => {
                match self.selected {
                    Pane::Terminal => self.terminal.scroll_up(),
                    Pane::Devices => self.devices.scroll_up(),
                }
                ScreenCommand::Nothing
            },
            ScreenKey::Down => {
                match self.selected {
                    Pane::Terminal => self.terminal.scroll_down(terminal_lines),
                    Pane::Devices => self.devices.scroll_down(device_lines),
                }
                ScreenCommand::Nothing
            },
            ScreenKey::Left => {
                self.selected = Pane::Terminal;
                ScreenCommand::Nothing
            },
            ScreenKey::Right => {
                self.selected = Pane::Devices;
                ScreenCommand::Nothing
            },
            ScreenKey::Other => ScreenCommand::Nothing,
        }
    }
}

} // verus!
