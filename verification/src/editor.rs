//! The edit-session state and the render/input logic around it: a session
//! starts running, quits exactly once on control-q, and each redraw stages
//! one whole frame of display commands — tilde rows with a centered
//! welcome banner while running, a farewell line once quitting.

pub mod event;
pub mod terminal;

use vstd::prelude::*;
use vstd::string::*;

use event::{Event, KeyCode, Modifiers};
use terminal::{Command, CommandView, Position, Size, Terminal};

verus! {

/// The session state: whether the user has asked to quit.
pub struct Editor {
    should_quit: bool,
}

impl View for Editor {
    type V = bool;

    /// A session is abstractly just its quit flag.
    closed spec fn view(&self) -> bool {
        self.should_quit
    }
}

/// Whether an event is the quit command: the character 'q' pressed with
/// control held and no other modifier. Nothing else quits.
pub open spec fn is_quit_event(e: Event) -> bool {
    match e {
        Event::Key(ke) => ke.code == KeyCode::Char('q') && ke.modifiers
            == Modifiers::control_only(),
        Event::Other => false,
    }
}

/// The welcome banner's message body.
pub open spec fn welcome_text() -> Seq<char> {
    "hecto editor -- version 0.1.0"@
}

/// The text of an ordinary placeholder row.
pub open spec fn tilde_row() -> Seq<char> {
    "~\r\n"@
}

/// The farewell line printed on the way out.
pub open spec fn farewell_text() -> Seq<char> {
    "Until next time\r\n"@
}

/// The centering padding for a given viewport width: half the free room,
/// floored to zero when the message does not fit at all.
pub open spec fn welcome_padding(width: nat) -> nat {
    if width > welcome_text().len() {
        ((width - welcome_text().len()) / 2) as nat
    } else {
        0
    }
}

/// How many spaces stand between the leading tilde and the message: one
/// less than the padding, floored to zero.
pub open spec fn welcome_spaces(width: nat) -> nat {
    if welcome_padding(width) >= 1 {
        (welcome_padding(width) - 1) as nat
    } else {
        0
    }
}

/// The welcome line before truncation: a tilde, the centering spaces, the
/// message, and a line break.
pub open spec fn full_welcome_line(width: nat) -> Seq<char> {
    seq!['~'] + Seq::new(welcome_spaces(width), |i: int| ' ') + welcome_text() + seq!['\r', '\n']
}

/// The welcome line as printed: truncated to the viewport width when it
/// would overflow.
pub open spec fn welcome_line(width: nat) -> Seq<char> {
    if full_welcome_line(width).len() <= width {
        full_welcome_line(width)
    } else {
        full_welcome_line(width).take(width as int)
    }
}

/// The text printed on one row: the welcome line on the row a third of the
/// way down, a tilde row everywhere else.
pub open spec fn row_text(row: u16, height: u16, width: u16) -> Seq<char> {
    if row == height / 3 {
        welcome_line(width as nat)
    } else {
        tilde_row()
    }
}

/// The two commands that drawing one row stages: clear the line, print its
/// text.
pub open spec fn row_commands(row: u16, height: u16, width: u16) -> Seq<CommandView> {
    seq![CommandView::ClearLine, CommandView::Print(row_text(row, height, width))]
}

/// The commands staged by drawing the first `n` rows, in order.
pub open spec fn rows_prefix(n: int, height: u16, width: u16) -> Seq<CommandView>
    decreases n,
{
    if n <= 0 {
        Seq::empty()
    } else {
        rows_prefix(n - 1, height, width) + row_commands((n - 1) as u16, height, width)
    }
}

/// The commands staged by one whole row-drawing pass: every row except the
/// last one of the viewport.
pub open spec fn rows_frame(height: u16, width: u16) -> Seq<CommandView> {
    rows_prefix(height - 1, height, width)
}

/// The frame staged once the session is quitting: clear everything and
/// print the farewell, with the cursor hidden while drawing.
pub open spec fn quit_frame() -> Seq<CommandView> {
    seq![
        CommandView::HideCursor,
        CommandView::ClearScreen,
        CommandView::Print(farewell_text()),
        CommandView::ShowCursor,
    ]
}

/// The frame staged while the session is running: the rows, then the
/// cursor back at the origin, with the cursor hidden while drawing.
pub open spec fn running_frame(size: Size) -> Seq<CommandView> {
    seq![CommandView::HideCursor] + rows_frame(size.height, size.width) + seq![
        CommandView::MoveTo(0, 0),
        CommandView::ShowCursor,
    ]
}

/// The frame one redraw stages for a given session state.
pub open spec fn frame(quit: bool, size: Size) -> Seq<CommandView> {
    if quit {
        quit_frame()
    } else {
        running_frame(size)
    }
}

/// The shape of the commands staged by drawing the first `n` rows: `n`
/// clear-then-print pairs, the i-th printing the i-th row's text.
proof fn lemma_rows_prefix_shape(n: int, height: u16, width: u16)
    requires
        0 <= n <= u16::MAX,
    ensures
        rows_prefix(n, height, width).len() == 2 * n,
        forall|k: int|
            0 <= k < 2 * n && k % 2 == 0 ==> #[trigger] rows_prefix(n, height, width)[k]
                == CommandView::ClearLine,
        forall|k: int|
            0 <= k < 2 * n && k % 2 == 1 ==> #[trigger] rows_prefix(n, height, width)[k]
                == CommandView::Print(row_text(((k - 1) / 2) as u16, height, width)),
    decreases n,
{
    if n > 0 {
        lemma_rows_prefix_shape(n - 1, height, width);
        assert forall|k: int| 0 <= k < 2 * n implies {
            &&& (k % 2 == 0 ==> rows_prefix(n, height, width)[k] == CommandView::ClearLine)
            &&& (k % 2 == 1 ==> rows_prefix(n, height, width)[k] == CommandView::Print(
                row_text(((k - 1) / 2) as u16, height, width),
            ))
        } by {
            if k < 2 * (n - 1) {
                assert(rows_prefix(n, height, width)[k] == rows_prefix(n - 1, height, width)[k]);
            } else {
                assert(rows_prefix(n, height, width)[k] == row_commands(
                    (n - 1) as u16,
                    height,
                    width,
                )[k - 2 * (n - 1)]);
            }
        }
    }
}

/// For every viewport with height at least 1 and width at least 1, the
/// row-drawing pass stages exactly `height - 1` printed content lines —
/// never more, never fewer — each either the tilde row or the welcome
/// line, and each preceded by exactly one line clear.
pub proof fn lemma_draw_rows_output(height: u16, width: u16)
    requires
        height >= 1,
        width >= 1,
    ensures
        rows_frame(height, width).len() == 2 * ((height - 1) as int),
        forall|k: int|
            0 <= k < 2 * ((height - 1) as int) && k % 2 == 0 ==> #[trigger] rows_frame(
                height,
                width,
            )[k] == CommandView::ClearLine,
        forall|k: int|
            0 <= k < 2 * ((height - 1) as int) && k % 2 == 1 ==> #[trigger] rows_frame(
                height,
                width,
            )[k] == CommandView::Print(row_text(((k - 1) / 2) as u16, height, width)),
        forall|k: int|
            0 <= k < 2 * ((height - 1) as int) && k % 2 == 1 ==> #[trigger] rows_frame(
                height,
                width,
            )[k] == CommandView::Print(tilde_row()) || rows_frame(height, width)[k]
                == CommandView::Print(welcome_line(width as nat)),
{
    lemma_rows_prefix_shape((height - 1) as int, height, width);
}

/// The welcome line fits the viewport: for every width at least 1, its
/// length is at most the width, however narrow the viewport is.
pub proof fn lemma_welcome_line_fits(width: u16)
    requires
        width >= 1,
    ensures
        welcome_line(width as nat).len() <= width,
{
}

/// Centering: when the message is narrower than the viewport and the
/// centering padding is positive, the welcome line carries exactly
/// `(width - len) / 2 - 1` spaces between the leading tilde and the
/// message, and the whole message survives the truncation.
pub proof fn lemma_welcome_centering(width: u16)
    requires
        welcome_text().len() < width,
        (width - welcome_text().len() as int) / 2 >= 1,
    ensures
        ({
            let l = welcome_text().len() as int;
            let p = (width - l) / 2 - 1;
            &&& welcome_spaces(width as nat) == p
            &&& welcome_line(width as nat)[0] == '~'
            &&& forall|j: int| 1 <= j < 1 + p ==> welcome_line(width as nat)[j] == ' '
            &&& welcome_line(width as nat).subrange(1 + p, 1 + p + l) == welcome_text()
        }),
{
    let l = welcome_text().len() as int;
    let p = (width - l) / 2 - 1;
    let full = full_welcome_line(width as nat);
    assert(welcome_padding(width as nat) == p + 1);
    assert(welcome_spaces(width as nat) == p);
    assert(full.len() == 3 + p + l);
    assert(p + 1 <= width - l) by {
        assert((width - l) / 2 <= width - l);
    }
    let line = welcome_line(width as nat);
    assert(line[0] == full[0]);
    assert(full[0] == '~');
    assert forall|j: int| 1 <= j < 1 + p implies line[j] == ' ' by {
        assert(full[j] == ' ');
        assert(line[j] == full[j]);
    }
    assert(line.subrange(1 + p, 1 + p + l) =~= welcome_text()) by {
        assert forall|j: int| 0 <= j < l implies line.subrange(1 + p, 1 + p + l)[j]
            == welcome_text()[j] by {
            assert(line[1 + p + j] == full[1 + p + j]);
            assert(full[1 + p + j] == welcome_text()[j]);
        }
    }
}

impl Editor {
    /// Builds a fresh session, not yet asked to quit.
    pub fn default() -> (e: Editor)
        ensures
            !e@,
    {
        Editor { should_quit: false }
    }

    /// Reports whether the session has been asked to quit.
    pub fn should_quit(&self) -> (b: bool)
        ensures
            b == self@,
    {
        self.should_quit
    }

    /// Interprets one input event: the quit combination sets the quit flag;
    /// every other event leaves the session exactly as it was. The flag is
    /// never cleared.
    pub fn evaluate_event(&mut self, event: &Event)
        ensures
            final(self)@ == (old(self)@ || is_quit_event(*event)),
    {
        match event {
            Event::Key(ke) => {
                match ke.code {
                    KeyCode::Char(c) => {
                        let m = ke.modifiers;
                        if c == 'q' && m.control && !m.shift && !m.alt && !m.superkey && !m.hyper
                            && !m.meta {
                            self.should_quit = true;
                        }
                    },
                    KeyCode::Other => {},
                }
            },
            Event::Other => {},
        }
    }

    /// Builds the welcome line for a viewport width: a tilde, the centering
    /// spaces, the message and a line break, truncated to the width.
    pub fn build_welcome_line(width: u16) -> (s: String)
        ensures
            s@ == welcome_line(width as nat),
    {
        let msg = "hecto editor -- version 0.1.0";
        let len = msg.unicode_len();
        let w = width as usize;
        let padding: usize = if w > len {
            (w - len) / 2
        } else {
            0
        };
        let spaces: usize = if padding >= 1 {
            padding - 1
        } else {
            0
        };
        proof {
            assert(padding == welcome_padding(width as nat));
            assert(spaces == welcome_spaces(width as nat));
        }
        let mut line = String::new();
        line.append("~");
        proof {
            reveal_strlit("~");
            assert(line@ =~= seq!['~'] + Seq::new(0, |j: int| ' '));
        }
        let mut i: usize = 0;
        while i < spaces
            invariant
                i <= spaces,
                spaces == welcome_spaces(width as nat),
                line@ == seq!['~'] + Seq::new(i as nat, |j: int| ' '),
            decreases spaces - i,
        {
            line.append(" ");
            i = i + 1;
            proof {
                reveal_strlit(" ");
                assert(line@ =~= seq!['~'] + Seq::new(i as nat, |j: int| ' '));
            }
        }
        line.append(msg);
        line.append("\r\n");
        proof {
            reveal_strlit("\r\n");
            assert(line@ =~= full_welcome_line(width as nat));
        }
        let total = line.unicode_len();
        if total > w {
            let truncated = line.as_str().substring_char(0, w);
            let s = truncated.to_owned();
            proof {
                assert(s@ =~= welcome_line(width as nat));
            }
            s
        } else {
            line
        }
    }

    /// Stages the welcome banner row: one print of the welcome line for
    /// the viewport width.
    pub fn draw_welcome_message(term: &mut Terminal, size: Size)
        ensures
            final(term)@.mode == old(term)@.mode,
            final(term)@.queue == old(term)@.queue.push(
                CommandView::Print(welcome_line(size.width as nat)),
            ),
    {
        let line = Self::build_welcome_line(size.width);
        term.print(line.as_str());
    }

    /// Stages the whole row-drawing pass: for every row but the last, a
    /// line clear and either a tilde row or, a third of the way down, the
    /// welcome banner.
    pub fn draw_rows(term: &mut Terminal, size: Size)
        requires
            size.height >= 1,
        ensures
            final(term)@.mode == old(term)@.mode,
            final(term)@.queue == old(term)@.queue + rows_frame(size.height, size.width),
    {
        let height = size.height;
        let mut row: u16 = 0;
        proof {
            assert(term@.queue =~= old(term)@.queue + rows_prefix(0, height, size.width));
        }
        while row < height - 1
            invariant
                size.height == height,
                height >= 1,
                row <= height - 1,
                term@.mode == old(term)@.mode,
                term@.queue == old(term)@.queue + rows_prefix(row as int, height, size.width),
            decreases height - 1 - row,
        {
            term.clear_line();
            if row == height / 3 {
                Self::draw_welcome_message(term, size);
            } else {
                term.print("~\r\n");
            }
            row = row + 1;
            proof {
                assert(term@.queue =~= old(term)@.queue + rows_prefix(
                    row as int,
                    height,
                    size.width,
                ));
            }
        }
    }

    /// Stages and releases one whole frame for the current session state:
    /// the farewell frame when quitting, the row-drawing frame otherwise.
    /// The returned batch holds everything that was still staged, then the
    /// frame, and the queue is left empty — one redraw, one flush.
    pub fn refresh_screen(&self, term: &mut Terminal, size: Size) -> (batch: Vec<Command>)
        requires
            size.height >= 1,
        ensures
            final(term)@.mode == old(term)@.mode,
            final(term)@.queue == Seq::<CommandView>::empty(),
            batch@.map_values(|c: Command| c@) == old(term)@.queue + frame(self@, size),
    {
        term.hide_cursor();
        if self.should_quit {
            term.clear_screen();
            term.print("Until next time\r\n");
        } else {
            Self::draw_rows(term, size);
            term.move_cursor_to(Position { x: 0, y: 0 });
        }
        term.show_cursor();
        let batch = term.execute();
        proof {
            assert(batch@.map_values(|c: Command| c@) =~= old(term)@.queue + frame(self@, size));
        }
        batch
    }
}

} // verus!
