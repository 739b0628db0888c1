//! The modal editing session: a cursor line over the active document, and the
//! key bindings that move it or switch the mode.

use crate::backend::buffer::{Buffer, Mode};
use crate::backend::editor;
use crate::error::Error;
use crate::key::Key;
use crate::ui::view::{digit_count_spec, render_frame, row_shows, visible_rows, Frame};
use vstd::prelude::*;

verus! {

/// What a key asks of the session.
#[derive(Clone, Copy, Debug, PartialEq, Eq, Structural)]
pub enum Command {
    Quit,
    Up,
    Down,
    SetMode(Mode),
    Nothing,
}

/// The key bindings. In every mode Ctrl-q quits and the arrow keys move;
/// outside Insert mode `j` moves up and `k` moves down; in Normal mode `i`
/// enters Insert and `v` enters Visual; Esc returns to Normal from the others.
pub open spec fn command_of(mode: Mode, key: Key) -> Command {
    match key {
        Key::Ctrl('q') => Command::Quit,
        Key::Up => Command::Up,
        Key::Down => Command::Down,
        Key::Char('j') if mode != Mode::Insert => Command::Up,
        Key::Char('k') if mode != Mode::Insert => Command::Down,
        Key::Char('i') if mode == Mode::Normal => Command::SetMode(Mode::Insert),
        Key::Char('v') if mode == Mode::Normal => Command::SetMode(Mode::Visual),
        Key::Esc if mode != Mode::Normal => Command::SetMode(Mode::Normal),
        _ => Command::Nothing,
    }
}

/// The command that a key gives in a mode.
pub fn command_for(mode: Mode, key: Key) -> (r: Command)
    ensures
        r == command_of(mode, key),
{
    match key {
        Key::Ctrl('q') => Command::Quit,
        Key::Up => Command::Up,
        Key::Down => Command::Down,
        Key::Char('j') if mode != Mode::Insert => Command::Up,
        Key::Char('k') if mode != Mode::Insert => Command::Down,
        Key::Char('i') if mode == Mode::Normal => Command::SetMode(Mode::Insert),
        Key::Char('v') if mode == Mode::Normal => Command::SetMode(Mode::Visual),
        Key::Esc if mode != Mode::Normal => Command::SetMode(Mode::Normal),
        _ => Command::Nothing,
    }
}

/// The cursor line after one move up: one less, but never below 1.
pub open spec fn up_step(line: int) -> int {
    if line > 1 {
        line - 1
    } else {
        line
    }
}

/// The cursor line after one move down: one more while the result stays
/// below `line_count`, that is, up to `line_count - 1`.
pub open spec fn down_step(line: int, line_count: int) -> int {
    if line + 1 < line_count {
        line + 1
    } else {
        line
    }
}

/// The cursor line after `n` moves up from `line`.
pub open spec fn ups(line: int, n: nat) -> int
    decreases n,
{
    if n == 0 {
        line
    } else {
        up_step(ups(line, (n - 1) as nat))
    }
}

/// The cursor line after `n` moves down from `line` in a document of
/// `line_count` lines.
pub open spec fn downs(line: int, line_count: int, n: nat) -> int
    decreases n,
{
    if n == 0 {
        line
    } else {
        down_step(downs(line, line_count, (n - 1) as nat), line_count)
    }
}

/// Moving up never takes the cursor below line 1, and from line 1 any number
/// of moves up leaves it at line 1.
pub proof fn lemma_move_up_floor(line: int, n: nat)
    requires
        line >= 1,
    ensures
        ups(line, n) >= 1,
        line == 1 ==> ups(line, n) == 1,
    decreases n,
{
    if n > 0 {
        lemma_move_up_floor(line, (n - 1) as nat);
    }
}

/// Moving down never takes the cursor past `line_count - 1`, unless it
/// already stood further down.
pub proof fn lemma_move_down_ceiling(line: int, line_count: int, n: nat)
    ensures
        downs(line, line_count, n) <= if line > line_count - 1 {
            line
        } else {
            line_count - 1
        },
        downs(line, line_count, n) >= line,
    decreases n,
{
    if n > 0 {
        lemma_move_down_ceiling(line, line_count, (n - 1) as nat);
    }
}

/// From line 1, enough moves down (`line_count + 10` among them) leave the
/// cursor at line `line_count - 1`.
pub proof fn lemma_move_down_saturates(line_count: int, n: nat)
    requires
        line_count >= 2,
        n >= line_count - 2,
    ensures
        downs(1, line_count, n) == line_count - 1,
{
    lemma_downs_from_one(line_count, n);
}

proof fn lemma_downs_from_one(line_count: int, n: nat)
    requires
        line_count >= 2,
    ensures
        downs(1, line_count, n) == if 1 + n < line_count - 1 {
            1 + n as int
        } else {
            line_count - 1
        },
    decreases n,
{
    if n > 0 {
        lemma_downs_from_one(line_count, (n - 1) as nat);
    }
}

/// A mode is exactly one of Normal, Insert and Visual.
pub proof fn lemma_mode_exclusive(m: Mode)
    ensures
        (if m == Mode::Normal { 1int } else { 0 }) + (if m == Mode::Insert { 1int } else { 0 }) + (
        if m == Mode::Visual { 1int } else { 0 }) == 1,
{
}

/// What the caller should do after a key.
#[derive(Clone, Copy, Debug, PartialEq, Eq, Structural)]
pub enum EditorAction {
    Quit,
    Redraw,
    Ignore,
}

/// The session: the documents, and the cursor line (counted from 1).
pub struct Editor {
    pub editor: Option<editor::Editor>,
    pub current_line: usize,
    pub current_index: usize,
}

impl Editor {
    /// The cursor line is at least 1 and, with an active document, within
    /// its lines (line 1 always counts as within).
    pub open spec fn wf(&self) -> bool {
        &&& self.current_line >= 1
        &&& (self.editor matches Some(e) ==> e.wf())
        &&& (self.active() matches Some(b) ==> self.current_line == 1 || self.current_line
            <= b.line_count)
    }

    /// The active document, if any.
    pub open spec fn active(&self) -> Option<Buffer> {
        match self.editor {
            Some(e) => e.active(),
            None => None,
        }
    }

    /// The mode of the session: that of the active document, Normal without one.
    pub open spec fn mode_of(&self) -> Mode {
        match self.active() {
            Some(b) => b.mode,
            None => Mode::Normal,
        }
    }

    /// A session with no documents, at line 1.
    pub fn new() -> (s: Editor)
        ensures
            s.wf(),
            s.editor is None,
            s.current_line == 1,
            s.current_index == 1,
    {
        Editor { editor: None, current_line: 1, current_index: 1 }
    }

    /// Gives the session its document arena, with the cursor on line 1.
    pub fn set_editor(&mut self, e: editor::Editor)
        requires
            old(self).wf(),
            e.wf(),
        ensures
            final(self).wf(),
            *final(self) == (Editor { editor: Some(e), current_line: 1, ..*old(self) }),
    {
        self.editor = Some(e);
        self.current_line = 1;
    }

    /// Opens a document in the arena, makes it active and puts the cursor on
    /// its first line. Without an arena nothing changes.
    pub fn push_buf(&mut self, buf: Buffer)
        requires
            old(self).wf(),
            buf.wf(),
            old(self).editor matches Some(e) ==> e.buffers.len() < usize::MAX,
        ensures
            final(self).wf(),
            final(self).current_index == old(self).current_index,
            match old(self).editor {
                Some(e) => {
                    &&& final(self).editor matches Some(f) && f.buffers@ == e.buffers@.push(buf)
                        && f.cur_buf == Some(e.buffers.len()) && f.dir == e.dir && f.anon == e.anon
                    &&& final(self).current_line == 1
                },
                None => *final(self) == *old(self),
            },
    {
        match &mut self.editor {
            Some(e) => {
                e.push_buf(buf);
                self.current_line = 1;
            },
            None => {},
        }
    }

    /// Moves the cursor one line up. At line 1 it fails with `CouldNotMove`
    /// and nothing changes.
    pub fn move_up(&mut self) -> (r: Result<(), Error>)
        ensures
            old(self).wf() ==> final(self).wf(),
            final(self).current_line == up_step(old(self).current_line as int),
            final(self).editor == old(self).editor,
            final(self).current_index == old(self).current_index,
            old(self).current_line > 1 <==> r is Ok,
            r is Err ==> r == Err::<(), Error>(Error::CouldNotMove),
    {
        if self.current_line > 1 {
            self.current_line = self.current_line - 1;
            return Ok(());
        }
        Err(Error::CouldNotMove)
    }

    /// Moves the cursor one line down while it stays before the last line of
    /// `buf`; otherwise it fails with `CouldNotMove` and nothing changes.
    pub fn move_down(&mut self, buf: &Buffer) -> (r: Result<(), Error>)
        ensures
            old(self).wf() && (old(self).active() is None || old(self).active() == Some(*buf))
                ==> final(self).wf(),
            final(self).current_line == down_step(
                old(self).current_line as int,
                buf.line_count as int,
            ),
            final(self).editor == old(self).editor,
            final(self).current_index == old(self).current_index,
            old(self).current_line + 1 < buf.line_count <==> r is Ok,
            r is Err ==> r == Err::<(), Error>(Error::CouldNotMove),
    {
        self.move_down_within(buf.line_count)
    }

    fn move_down_within(&mut self, line_count: usize) -> (r: Result<(), Error>)
        ensures
            old(self).wf() && (old(self).active() matches Some(b) ==> b.line_count == line_count)
                ==> final(self).wf(),
            final(self).current_line == down_step(old(self).current_line as int, line_count as int),
            final(self).editor == old(self).editor,
            final(self).current_index == old(self).current_index,
            old(self).current_line + 1 < line_count <==> r is Ok,
            r is Err ==> r == Err::<(), Error>(Error::CouldNotMove),
    {
        if line_count > 1 && self.current_line < line_count - 1 {
            self.current_line = self.current_line + 1;
            return Ok(());
        }
        Err(Error::CouldNotMove)
    }

    /// The active document, if any.
    pub fn current(&self) -> (r: Option<&Buffer>)
        requires
            self.wf(),
        ensures
            r matches Some(b) ==> self.active() == Some(*b),
            r is None <==> self.active() is None,
    {
        match &self.editor {
            Some(e) => e.current(),
            None => None,
        }
    }

    /// The current mode.
    pub fn mode(&self) -> (m: Mode)
        requires
            self.wf(),
        ensures
            m == self.mode_of(),
    {
        match self.current() {
            Some(b) => b.mode,
            None => Mode::Normal,
        }
    }

    /// Applies one key: quits, moves the cursor (a failed move is absorbed),
    /// or switches the mode of the active document. A mode switch leaves the
    /// cursor line alone.
    pub fn handle_key(&mut self, key: Key) -> (r: EditorAction)
        requires
            old(self).wf(),
        ensures
            final(self).wf(),
            final(self).current_index == old(self).current_index,
            match command_of(old(self).mode_of(), key) {
                Command::Quit => r == EditorAction::Quit && *final(self) == *old(self),
                Command::Up => {
                    &&& final(self).current_line == up_step(old(self).current_line as int)
                    &&& final(self).editor == old(self).editor
                    &&& r == EditorAction::Redraw
                },
                Command::Down => match old(self).active() {
                    Some(b) => {
                        &&& final(self).current_line == down_step(
                            old(self).current_line as int,
                            b.line_count as int,
                        )
                        &&& final(self).editor == old(self).editor
                        &&& r == EditorAction::Redraw
                    },
                    None => r == EditorAction::Ignore && *final(self) == *old(self),
                },
                Command::SetMode(m) => if old(self).active() is Some {
                    let e = old(self).editor->0;
                    &&& final(self).editor matches Some(f) && f.cur_buf == e.cur_buf && f.dir == e.dir
                        && f.anon == e.anon && f.buffers@ == e.buffers@.update(
                        e.cur_buf->0 as int,
                        Buffer { mode: m, ..e.buffers[e.cur_buf->0 as int] },
                    )
                    &&& final(self).mode_of() == m
                    &&& final(self).current_line == old(self).current_line
                    &&& r == EditorAction::Redraw
                } else {
                    r == EditorAction::Ignore && *final(self) == *old(self)
                },
                Command::Nothing => r == EditorAction::Ignore && *final(self) == *old(self),
            },
    {
        let mode = self.mode();
        match command_for(mode, key) {
            Command::Quit => EditorAction::Quit,
            Command::Up => {
                let _ = self.move_up();
                EditorAction::Redraw
            },
            Command::Down => {
                match self.current() {
                    Some(b) => {
                        let line_count = b.line_count;
                        let _ = self.move_down_within(line_count);
                        EditorAction::Redraw
                    },
                    None => EditorAction::Ignore,
                }
            },
            Command::SetMode(m) => {
                if self.current().is_none() {
                    return EditorAction::Ignore;
                }
                match &mut self.editor {
                    Some(e) => {
                        e.set_current_mode(m);
                        EditorAction::Redraw
                    },
                    None => EditorAction::Ignore,
                }
            },
            Command::Nothing => EditorAction::Ignore,
        }
    }

    /// The frame of the active document for a terminal of `width` columns
    /// and `height` rows, with the cursor on the current line; `None`
    /// without an active document.
    pub fn view(&self, width: usize, height: usize) -> (f: Option<Frame>)
        requires
            self.wf(),
        ensures
            f is None <==> self.active() is None,
            f matches Some(fr) ==> {
                let b = self.active()->0;
                &&& fr.rows.len() == visible_rows(height as int)
                &&& forall|r: int|
                    0 <= r < fr.rows.len() ==> row_shows(
                        #[trigger] fr.rows[r],
                        r,
                        b.lines(),
                        b.line_count as int,
                        width as int,
                    )
                &&& fr.status.mode == b.mode
                &&& fr.cursor_x == digit_count_spec(b.line_count as int) + 2
                &&& fr.cursor_y == self.current_line
            },
    {
        match self.current() {
            Some(b) => {
                proof {
                    let e = self.editor->0;
                    assert(e.buffers[e.cur_buf->0 as int].wf());
                }
                Some(render_frame(b, self.current_line, width, height))
            },
            None => None,
        }
    }
}

} // verus!
