//! The terminal control abstraction: an output buffer of display commands
//! and the input-mode state of the device. Every screen mutation is queued
//! here; `execute` hands the whole batch out at once, so one redraw reaches
//! the device as a single atomic flush. The process edge that owns the
//! device performs the batch and the raw/cooked mode switches.

use vstd::prelude::*;

verus! {

/// The input mode the device is in: exactly one at any instant.
#[derive(Copy, Clone, Debug, PartialEq, Eq)]
pub enum Mode {
    /// Keystrokes delivered one at a time, no echo, no line buffering.
    Raw,
    /// The conventional line-buffered, echoing mode.
    Cooked,
}

/// The dimensions of the visible viewport, in character cells.
#[derive(Copy, Clone, Debug, PartialEq, Eq)]
pub struct Size {
    pub height: u16,
    pub width: u16,
}

/// An absolute cursor position in the viewport, zero-based.
/// Out-of-range coordinates are passed through to the device unclamped.
#[derive(Copy, Clone, Debug, PartialEq, Eq)]
pub struct Position {
    pub x: u16,
    pub y: u16,
}

/// One staged display operation. None of these reaches the device until
/// the whole queue is flushed.
#[derive(Debug, PartialEq, Eq)]
pub enum Command {
    /// Erase the full viewport.
    ClearScreen,
    /// Erase the line the cursor is on.
    ClearLine,
    /// Relocate the cursor to an absolute position.
    MoveTo(Position),
    /// Make the cursor invisible.
    HideCursor,
    /// Make the cursor visible.
    ShowCursor,
    /// Write text at the current cursor position, uninterpreted.
    Print(String),
}

/// The mathematical value of one staged command.
#[verifier::ext_equal]
pub enum CommandView {
    ClearScreen,
    ClearLine,
    MoveTo(u16, u16),
    HideCursor,
    ShowCursor,
    Print(Seq<char>),
}

impl View for Command {
    type V = CommandView;

    open spec fn view(&self) -> CommandView {
        match self {
            Command::ClearScreen => CommandView::ClearScreen,
            Command::ClearLine => CommandView::ClearLine,
            Command::MoveTo(p) => CommandView::MoveTo(p.x, p.y),
            Command::HideCursor => CommandView::HideCursor,
            Command::ShowCursor => CommandView::ShowCursor,
            Command::Print(s) => CommandView::Print(s@),
        }
    }
}

/// The mathematical value of the terminal abstraction: its mode and the
/// commands staged since the last flush, oldest first.
#[verifier::ext_equal]
pub struct TerminalView {
    pub mode: Mode,
    pub queue: Seq<CommandView>,
}

/// The transition that `terminate` performs: the device returns to cooked
/// mode; the staged commands are untouched.
pub open spec fn terminate_transition(t: TerminalView) -> TerminalView {
    TerminalView { mode: Mode::Cooked, queue: t.queue }
}

/// Terminating is idempotent: terminating an already-terminated terminal
/// leaves it exactly where one termination did.
pub proof fn lemma_terminate_idempotent(t: TerminalView)
    ensures
        terminate_transition(terminate_transition(t)) == terminate_transition(t),
{
}

/// The terminal abstraction itself.
pub struct Terminal {
    mode: Mode,
    queue: Vec<Command>,
}

impl View for Terminal {
    type V = TerminalView;

    closed spec fn view(&self) -> TerminalView {
        TerminalView { mode: self.mode, queue: self.queue@.map_values(|c: Command| c@) }
    }
}

impl Terminal {
    /// Builds the abstraction for a device in its conventional state:
    /// cooked mode, nothing staged.
    pub fn new() -> (t: Terminal)
        ensures
            t@.mode == Mode::Cooked,
            t@.queue == Seq::<CommandView>::empty(),
    {
        let t = Terminal { mode: Mode::Cooked, queue: Vec::new() };
        proof {
            assert(t@.queue =~= Seq::<CommandView>::empty());
        }
        t
    }

    /// Reports whether the device is in raw mode.
    pub fn is_raw(&self) -> (b: bool)
        ensures
            b == (self@.mode == Mode::Raw),
    {
        match self.mode {
            Mode::Raw => true,
            Mode::Cooked => false,
        }
    }

    /// Enables raw mode, then stages a full-screen erase and a cursor move
    /// to the origin. To be called exactly once, before any other
    /// operation of a session.
    pub fn initialise(&mut self)
        requires
            old(self)@.mode == Mode::Cooked,
        ensures
            final(self)@.mode == Mode::Raw,
            final(self)@.queue == old(self)@.queue + seq![
                CommandView::ClearScreen,
                CommandView::MoveTo(0, 0),
            ],
    {
        self.mode = Mode::Raw;
        self.clear_screen();
        self.move_cursor_to(Position { x: 0, y: 0 });
        proof {
            assert(self@.queue =~= old(self)@.queue + seq![
                CommandView::ClearScreen,
                CommandView::MoveTo(0, 0),
            ]);
        }
    }

    /// Restores cooked mode. Never fails, whatever mode the device was in,
    /// so it can run as cleanup on every exit path.
    pub fn terminate(&mut self)
        ensures
            final(self)@ == terminate_transition(old(self)@),
            final(self)@.mode == Mode::Cooked,
            final(self)@.queue == old(self)@.queue,
    {
        self.mode = Mode::Cooked;
        proof {
            assert(self@ =~= terminate_transition(old(self)@));
        }
    }

    /// Stages a full-viewport erase.
    pub fn clear_screen(&mut self)
        ensures
            final(self)@.mode == old(self)@.mode,
            final(self)@.queue == old(self)@.queue.push(CommandView::ClearScreen),
    {
        self.push_command(Command::ClearScreen);
    }

    /// Stages an erase of the current line.
    pub fn clear_line(&mut self)
        ensures
            final(self)@.mode == old(self)@.mode,
            final(self)@.queue == old(self)@.queue.push(CommandView::ClearLine),
    {
        self.push_command(Command::ClearLine);
    }

    /// Stages a cursor relocation to an absolute position, unclamped.
    pub fn move_cursor_to(&mut self, position: Position)
        ensures
            final(self)@.mode == old(self)@.mode,
            final(self)@.queue == old(self)@.queue.push(
                CommandView::MoveTo(position.x, position.y),
            ),
    {
        self.push_command(Command::MoveTo(position));
    }

    /// Stages a cursor-visibility off toggle.
    pub fn hide_cursor(&mut self)
        ensures
            final(self)@.mode == old(self)@.mode,
            final(self)@.queue == old(self)@.queue.push(CommandView::HideCursor),
    {
        self.push_command(Command::HideCursor);
    }

    /// Stages a cursor-visibility on toggle.
    pub fn show_cursor(&mut self)
        ensures
            final(self)@.mode == old(self)@.mode,
            final(self)@.queue == old(self)@.queue.push(CommandView::ShowCursor),
    {
        self.push_command(Command::ShowCursor);
    }

    /// Stages raw text for output at the current cursor position; the text
    /// is not interpreted here.
    pub fn print(&mut self, string: &str)
        ensures
            final(self)@.mode == old(self)@.mode,
            final(self)@.queue == old(self)@.queue.push(CommandView::Print(string@)),
    {
        self.push_command(Command::Print(string.to_owned()));
    }

    /// Releases every staged command, oldest first, leaving the queue
    /// empty. The caller performs the returned batch on the device as one
    /// write: this is the only operation that stands for a real write.
    pub fn execute(&mut self) -> (batch: Vec<Command>)
        ensures
            final(self)@.mode == old(self)@.mode,
            final(self)@.queue == Seq::<CommandView>::empty(),
            batch@.map_values(|c: Command| c@) == old(self)@.queue,
    {
        let mut batch: Vec<Command> = Vec::new();
        core::mem::swap(&mut batch, &mut self.queue);
        proof {
            assert(self@.queue =~= Seq::<CommandView>::empty());
        }
        batch
    }

    /// Appends one command to the staged queue.
    fn push_command(&mut self, command: Command)
        ensures
            final(self)@.mode == old(self)@.mode,
            final(self)@.queue == old(self)@.queue.push(command@),
    {
        self.queue.push(command);
        proof {
            assert(self@.queue =~= old(self)@.queue.push(command@));
        }
    }
}

} // verus!
