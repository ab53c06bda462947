//! The editor: the size of the viewport, the cursor in it, and the key
//! sequence that is being read.
//!
//! The editor does no reading or writing of its own. Its caller reads the
//! keyboard byte by byte and hands the outcome of each read to
//! [`Editor::handle_keypress`], which answers with the [`Action`] to take
//! next; and it writes what [`Editor::refresh_screen`] composes.

use vstd::prelude::*;
use crate::error::Error;
use crate::key::{
    ctrl, fed, lemma_fed_unfinished, lemma_quit_byte, needs_more, quit_byte, Direction, Key, Pending, BRACKET,
    DIGIT_0, DIGIT_1, DIGIT_3, DIGIT_4, DIGIT_5, DIGIT_6, DIGIT_7, DIGIT_8, DIGIT_9, ESC, LOWER_Q,
    TILDE, UPPER_A, UPPER_B, UPPER_C, UPPER_D, UPPER_F, UPPER_H,
};
use crate::screen::{
    draw_welcome, erase_line, hide_cursor, hide_cursor_code, line, lines, move_cursor_code,
    move_cursor_to, reset_cursor, reset_cursor_code, show_cursor, show_cursor_code, MARKER,
};

verus! {

/// What an editor is, as plain mathematics: the view of an [`Editor`].
pub struct State {
    /// Height of the viewport, in lines.
    pub rows: nat,
    /// Width of the viewport, in cells.
    pub cols: nat,
    /// The cursor's line, counted from 0 at the top.
    pub row: nat,
    /// The cursor's cell in its line, counted from 0 at the left.
    pub col: nat,
    /// The bytes taken of a key sequence that is not finished yet.
    pub pending: Seq<u8>,
}

impl State {
    /// The viewport has at least one cell, the cursor is inside it, and what
    /// is pending is an unfinished sequence.
    pub open spec fn wf(self) -> bool {
        &&& self.rows > 0
        &&& self.cols > 0
        &&& self.row < self.rows
        &&& self.col < self.cols
        &&& self.pending.len() == 0 || needs_more(self.pending)
    }

    /// The same editor with other pending bytes.
    pub open spec fn with_pending(self, pending: Seq<u8>) -> State {
        State { pending, ..self }
    }

    /// The editor after the cursor has stepped one cell in `direction`. At
    /// the viewport's edge in that direction the cursor stays where it is.
    pub open spec fn moved(self, direction: Direction) -> State {
        match direction {
            Direction::Left => State {
                col: if self.col > 0 {
                    (self.col - 1) as nat
                } else {
                    self.col
                },
                ..self
            },
            Direction::Right => State {
                col: if self.col + 1 < self.cols {
                    self.col + 1
                } else {
                    self.col
                },
                ..self
            },
            Direction::Up => State {
                row: if self.row > 0 {
                    (self.row - 1) as nat
                } else {
                    self.row
                },
                ..self
            },
            Direction::Down => State {
                row: if self.row + 1 < self.rows {
                    self.row + 1
                } else {
                    self.row
                },
                ..self
            },
        }
    }

    /// The editor after `n` steps in `direction`, one after the other.
    pub open spec fn moved_times(self, direction: Direction, n: nat) -> State
        decreases n,
    {
        if n == 0 {
            self
        } else {
            self.moved_times(direction, (n - 1) as nat).moved(direction)
        }
    }

    /// The editor after `key` has been pressed.
    ///
    /// An arrow steps once. A page key steps up or down as many times as the
    /// viewport has lines. Home and End go to the first and the last cell of
    /// the line. Delete and plain bytes change nothing.
    pub open spec fn pressed(self, key: Key) -> State {
        match key {
            Key::ArrowUp => self.moved(Direction::Up),
            Key::ArrowDown => self.moved(Direction::Down),
            Key::ArrowLeft => self.moved(Direction::Left),
            Key::ArrowRight => self.moved(Direction::Right),
            Key::PageUp => self.moved_times(Direction::Up, self.rows),
            Key::PageDown => self.moved_times(Direction::Down, self.rows),
            Key::Home => State { col: 0, ..self },
            Key::End => State { col: (self.cols - 1) as nat, ..self },
            Key::Delete => self,
            Key::Byte(_) => self,
        }
    }

    /// The bytes that draw the editor's screen: the cursor is hidden and put
    /// in the top left corner, every line of the viewport is drawn, the
    /// cursor is put where it stands, counted from 1, and shown again.
    pub open spec fn frame(self) -> Seq<u8> {
        hide_cursor_code() + reset_cursor_code() + lines(self.rows, self.cols, self.rows)
            + move_cursor_code(self.row + 1, self.col + 1) + show_cursor_code()
    }

    /// The editor after a read of the keyboard has brought `byte`, and what
    /// its caller does next. The byte goes to the decoder; where it settles a
    /// key, the quit key ends the session and any other key is pressed.
    pub open spec fn keypress(self, byte: u8) -> (State, Action) {
        let (pending, key) = fed(self.pending, byte);
        let read = self.with_pending(pending);
        match key {
            None => (read, Action::Read),
            Some(Key::Byte(b)) if b == quit_byte() => (read, Action::Exit),
            Some(k) => (read.pressed(k), Action::Refresh),
        }
    }
}

impl State {
    /// Whether the cursor stands at the viewport's edge in `direction`.
    pub open spec fn at_edge(self, direction: Direction) -> bool {
        match direction {
            Direction::Left => self.col == 0,
            Direction::Right => self.col + 1 == self.cols,
            Direction::Up => self.row == 0,
            Direction::Down => self.row + 1 == self.rows,
        }
    }

    /// A step keeps the cursor inside the viewport, and changes nothing but
    /// the cursor.
    pub proof fn lemma_moved_wf(self, direction: Direction)
        requires
            self.wf(),
        ensures
            self.moved(direction).wf(),
            self.moved(direction).rows == self.rows,
            self.moved(direction).cols == self.cols,
            self.moved(direction).pending == self.pending,
    {
    }

    /// Where `n` steps in one direction end: `n` cells further, or at the
    /// viewport's edge where that comes first. The other coordinate, the
    /// viewport and the pending bytes stay as they are.
    pub proof fn lemma_moved_times(self, direction: Direction, n: nat)
        requires
            self.wf(),
        ensures
            self.moved_times(direction, n).wf(),
            self.moved_times(direction, n) == match direction {
                Direction::Left => State { col: vstd::math::max(self.col - n, 0) as nat, ..self },
                Direction::Right => State {
                    col: vstd::math::min((self.col + n) as int, self.cols - 1) as nat,
                    ..self
                },
                Direction::Up => State { row: vstd::math::max(self.row - n, 0) as nat, ..self },
                Direction::Down => State {
                    row: vstd::math::min((self.row + n) as int, self.rows - 1) as nat,
                    ..self
                },
            },
        decreases n,
    {
        if n > 0 {
            self.lemma_moved_times(direction, (n - 1) as nat);
        }
    }

    /// At the viewport's edge, steps towards that edge change nothing,
    /// however many are taken.
    pub proof fn lemma_edge_stops(self, direction: Direction, n: nat)
        requires
            self.wf(),
            self.at_edge(direction),
        ensures
            self.moved_times(direction, n) == self,
    {
        self.lemma_moved_times(direction, n);
    }

    /// Home puts the cursor in the first cell of its line and End in the
    /// last, wherever in the line it stood; the line stays the same.
    pub proof fn lemma_home_end(self)
        requires
            self.wf(),
        ensures
            self.pressed(Key::Home) == (State { col: 0, ..self }),
            self.pressed(Key::End) == (State { col: (self.cols - 1) as nat, ..self }),
    {
    }

    /// Page Down puts the cursor `rows` lines further down, or in the last
    /// line where that comes first; Page Up as many lines further up, or in
    /// the first line.
    pub proof fn lemma_page(self)
        requires
            self.wf(),
        ensures
            self.pressed(Key::PageDown) == (State {
                row: vstd::math::min((self.row + self.rows) as int, self.rows - 1) as nat,
                ..self
            }),
            self.pressed(Key::PageUp) == (State {
                row: vstd::math::max(self.row - self.rows, 0) as nat,
                ..self
            }),
    {
        self.lemma_moved_times(Direction::Down, self.rows);
        self.lemma_moved_times(Direction::Up, self.rows);
    }

    /// No key moves the cursor out of the viewport, resizes the viewport or
    /// touches the pending bytes.
    pub proof fn lemma_pressed_wf(self, key: Key)
        requires
            self.wf(),
        ensures
            self.pressed(key).wf(),
            self.pressed(key).rows == self.rows,
            self.pressed(key).cols == self.cols,
            self.pressed(key).pending == self.pending,
    {
        self.lemma_moved_times(Direction::Down, self.rows);
        self.lemma_moved_times(Direction::Up, self.rows);
    }

    /// Delete and every plain byte leave the editor as it is.
    pub proof fn lemma_no_effect(self, key: Key)
        requires
            key == Key::Delete || key is Byte,
        ensures
            self.pressed(key) == self,
    {
    }

    /// One byte keeps the editor in order and the viewport as it is. The
    /// session ends on the quit key alone, another read is asked for exactly
    /// while a sequence is pending, and the cursor moves only when a key is
    /// settled.
    pub proof fn lemma_keypress_wf(self, byte: u8)
        requires
            self.wf(),
        ensures
            self.keypress(byte).0.wf(),
            self.keypress(byte).0.rows == self.rows,
            self.keypress(byte).0.cols == self.cols,
            self.keypress(byte).0.pending == fed(self.pending, byte).0,
            self.keypress(byte).1 == Action::Exit <==> fed(self.pending, byte).1 == Some(
                Key::Byte(quit_byte()),
            ),
            self.keypress(byte).1 == Action::Read <==> self.keypress(byte).0.pending.len() > 0,
            self.keypress(byte).1 != Action::Refresh ==> self.keypress(byte).0.row == self.row
                && self.keypress(byte).0.col == self.col,
    {
        lemma_fed_unfinished(self.pending, byte);
        let (pending, key) = fed(self.pending, byte);
        if let Some(k) = key {
            self.with_pending(pending).lemma_pressed_wf(k);
        }
    }
}

/// What the editor's caller does after it has handed over one read.
#[derive(Clone, Copy, Debug, PartialEq, Eq, Structural)]
pub enum Action {
    /// The key is not settled yet: read its next byte.
    Read,
    /// A key was handled: draw the screen, then read the next key.
    Refresh,
    /// The quit key was pressed: clear the screen and leave.
    Exit,
}

/// The sequence that [`Editor::handle_esc_key`] continues: the pending one,
/// or a lone escape byte where nothing is pending.
pub open spec fn escape_prefix(pending: Seq<u8>) -> Seq<u8> {
    if pending.len() == 0 {
        seq![ESC]
    } else {
        pending
    }
}

/// The editor's state between two reads of the keyboard.
#[derive(Clone, Copy, Debug, PartialEq, Eq, Structural)]
pub struct Editor {
    rows: usize,
    cols: usize,
    c_row: usize,
    c_col: usize,
    pending: Pending,
}

impl View for Editor {
    type V = State;

    closed spec fn view(&self) -> State {
        State {
            rows: self.rows as nat,
            cols: self.cols as nat,
            row: self.c_row as nat,
            col: self.c_col as nat,
            pending: self.pending@,
        }
    }
}

impl Editor {
    #[verifier::type_invariant]
    spec fn inv(self) -> bool {
        &&& self@.wf()
        &&& self.pending.wf()
    }

    /// An editor for a viewport of `rows` lines and `cols` cells, with the
    /// cursor in the top left corner and no key pending. There is none for an
    /// empty viewport.
    pub fn new(rows: usize, cols: usize) -> (editor: Option<Editor>)
        ensures
            editor is Some <==> rows > 0 && cols > 0,
            editor matches Some(e) ==> e@.wf() && e@ == (State {
                rows: rows as nat,
                cols: cols as nat,
                row: 0,
                col: 0,
                pending: Seq::empty(),
            }),
    {
        if rows == 0 || cols == 0 {
            None
        } else {
            Some(Editor { rows, cols, c_row: 0, c_col: 0, pending: Pending::Idle })
        }
    }

    /// Takes the read that follows an escape byte, or a later read of the
    /// sequence that the escape byte opened, and gives the key where the byte
    /// that was read settles it.
    ///
    /// A read that failed comes back as it is, and the sequence is given up.
    /// Where nothing is pending, the escape byte is taken as just read.
    pub fn handle_esc_key(&mut self, read: Result<u8, Error>) -> (key: Result<Option<Key>, Error>)
        ensures
            match read {
                Ok(b) => {
                    &&& key == Ok::<Option<Key>, Error>(
                        fed(escape_prefix(old(self)@.pending), b).1,
                    )
                    &&& final(self)@ == old(self)@.with_pending(
                        fed(escape_prefix(old(self)@.pending), b).0,
                    )
                },
                Err(e) => {
                    &&& key == Err::<Option<Key>, Error>(e)
                    &&& final(self)@ == old(self)@.with_pending(Seq::empty())
                },
            },
            final(self)@.wf(),
    {
        proof {
            use_type_invariant(&*self);
        }
        let ghost prefix = escape_prefix(self@.pending);
        let b = match read {
            Ok(b) => b,
            Err(e) => {
                self.pending = Pending::Idle;
                proof {
                    use_type_invariant(&*self);
                }
                return Err(e);
            },
        };
        let (next, key) = match self.pending {
            Pending::Idle | Pending::Escape => {
                assert(prefix.push(b) =~= seq![ESC, b]);
                if b == BRACKET {
                    (Pending::Bracket, None)
                } else if b == DIGIT_0 {
                    (Pending::Zero, None)
                } else {
                    (Pending::Idle, Some(Key::Byte(ESC)))
                }
            },
            Pending::Bracket => {
                assert(prefix.push(b) =~= seq![ESC, BRACKET, b]);
                if b == UPPER_A {
                    (Pending::Idle, Some(Key::ArrowUp))
                } else if b == UPPER_B {
                    (Pending::Idle, Some(Key::ArrowDown))
                } else if b == UPPER_C {
                    (Pending::Idle, Some(Key::ArrowRight))
                } else if b == UPPER_D {
                    (Pending::Idle, Some(Key::ArrowLeft))
                } else if b == UPPER_H {
                    (Pending::Idle, Some(Key::Home))
                } else if b == UPPER_F {
                    (Pending::Idle, Some(Key::End))
                } else if DIGIT_0 <= b && b <= DIGIT_9 {
                    (Pending::Digit(b), None)
                } else {
                    (Pending::Idle, Some(Key::Byte(ESC)))
                }
            },
            Pending::Digit(digit) => {
                assert(prefix.push(b) =~= seq![ESC, BRACKET, digit, b]);
                if b != TILDE {
                    (Pending::Idle, Some(Key::Byte(ESC)))
                } else if digit == DIGIT_1 || digit == DIGIT_7 {
                    (Pending::Idle, Some(Key::Home))
                } else if digit == DIGIT_4 || digit == DIGIT_8 {
                    (Pending::Idle, Some(Key::End))
                } else if digit == DIGIT_3 {
                    (Pending::Idle, Some(Key::Delete))
                } else if digit == DIGIT_5 {
                    (Pending::Idle, Some(Key::PageUp))
                } else if digit == DIGIT_6 {
                    (Pending::Idle, Some(Key::PageDown))
                } else {
                    (Pending::Idle, Some(Key::Byte(ESC)))
                }
            },
            Pending::Zero => {
                assert(prefix.push(b) =~= seq![ESC, DIGIT_0, b]);
                if b == UPPER_H {
                    (Pending::Idle, Some(Key::Home))
                } else if b == UPPER_F {
                    (Pending::Idle, Some(Key::End))
                } else {
                    (Pending::Idle, Some(Key::Byte(ESC)))
                }
            },
        };
        self.pending = next;
        proof {
            use_type_invariant(&*self);
        }
        Ok(key)
    }

    /// Takes one read of the keyboard, and gives the key where the byte that
    /// was read settles one.
    ///
    /// A byte other than escape, with nothing pending, is its own key. The
    /// escape byte opens a sequence, which the next reads continue. A read
    /// that failed comes back as it is where a key was to start; inside a
    /// sequence it ends the sequence, which then counts as the escape key.
    pub fn get_key(&mut self, read: Result<u8, Error>) -> (key: Result<Option<Key>, Error>)
        ensures
            match read {
                Ok(b) => {
                    &&& key == Ok::<Option<Key>, Error>(fed(old(self)@.pending, b).1)
                    &&& final(self)@ == old(self)@.with_pending(fed(old(self)@.pending, b).0)
                },
                Err(e) => if old(self)@.pending.len() == 0 {
                    &&& key == Err::<Option<Key>, Error>(e)
                    &&& final(self)@ == old(self)@
                } else {
                    &&& key == Ok::<Option<Key>, Error>(Some(Key::Byte(ESC)))
                    &&& final(self)@ == old(self)@.with_pending(Seq::empty())
                },
            },
            final(self)@.wf(),
    {
        proof {
            use_type_invariant(&*self);
        }
        match self.pending {
            Pending::Idle => {
                let b = match read {
                    Ok(b) => b,
                    Err(e) => {
                        return Err(e);
                    },
                };
                assert(self@.pending.push(b) =~= seq![b]);
                if b == ESC {
                    self.pending = Pending::Escape;
                    proof {
                        use_type_invariant(&*self);
                    }
                    Ok(None)
                } else {
                    Ok(Some(Key::Byte(b)))
                }
            },
            _ => match self.handle_esc_key(read) {
                Ok(key) => Ok(key),
                Err(_) => Ok(Some(Key::Byte(ESC))),
            },
        }
    }

    /// Steps the cursor one cell in `direction`, unless it stands at the
    /// viewport's edge in that direction.
    pub fn move_cursor(&mut self, direction: Direction)
        ensures
            final(self)@ == old(self)@.moved(direction),
            final(self)@.wf(),
    {
        proof {
            use_type_invariant(&*self);
        }
        match direction {
            Direction::Left => if self.c_col > 0 {
                self.c_col -= 1
            },
            Direction::Right => if self.c_col < self.cols - 1 {
                self.c_col += 1
            },
            Direction::Up => if self.c_row > 0 {
                self.c_row -= 1
            },
            Direction::Down => if self.c_row < self.rows - 1 {
                self.c_row += 1
            },
        }
    }

    /// Steps the cursor `n` times in `direction`.
    fn move_cursor_times(&mut self, direction: Direction, n: usize)
        ensures
            final(self)@ == old(self)@.moved_times(direction, n as nat),
    {
        let mut i: usize = 0;
        while i < n
            invariant
                i <= n,
                self@ == old(self)@.moved_times(direction, i as nat),
            decreases n - i,
        {
            self.move_cursor(direction);
            i += 1;
        }
    }

    /// Takes one read of the keyboard and acts on the key that it settles,
    /// if any.
    ///
    /// The answer says what to do next: read on while the key is unsettled,
    /// draw the screen after a key was handled, leave after the quit key. A
    /// read that failed comes back as it is where a key was to start, and
    /// the editor stays as it was; inside a sequence it ends the sequence,
    /// which is handled as the escape key.
    pub fn handle_keypress(&mut self, read: Result<u8, Error>) -> (action: Result<Action, Error>)
        ensures
            match read {
                Ok(b) => {
                    &&& action == Ok::<Action, Error>(old(self)@.keypress(b).1)
                    &&& final(self)@ == old(self)@.keypress(b).0
                },
                Err(e) => if old(self)@.pending.len() == 0 {
                    &&& action == Err::<Action, Error>(e)
                    &&& final(self)@ == old(self)@
                } else {
                    &&& action == Ok::<Action, Error>(Action::Refresh)
                    &&& final(self)@ == old(self)@.with_pending(Seq::empty())
                },
            },
            final(self)@.wf(),
    {
        proof {
            use_type_invariant(&*self);
            lemma_quit_byte();
        }
        let key = match self.get_key(read) {
            Ok(Some(key)) => key,
            Ok(None) => {
                return Ok(Action::Read);
            },
            Err(e) => {
                return Err(e);
            },
        };
        proof {
            use_type_invariant(&*self);
        }
        match key {
            Key::ArrowUp => self.move_cursor(Direction::Up),
            Key::ArrowDown => self.move_cursor(Direction::Down),
            Key::ArrowLeft => self.move_cursor(Direction::Left),
            Key::ArrowRight => self.move_cursor(Direction::Right),
            Key::PageUp => {
                let rows = self.rows;
                self.move_cursor_times(Direction::Up, rows)
            },
            Key::PageDown => {
                let rows = self.rows;
                self.move_cursor_times(Direction::Down, rows)
            },
            Key::Home => self.c_col = 0,
            Key::End => self.c_col = self.cols - 1,
            Key::Byte(b) => {
                if b == ctrl(LOWER_Q) {
                    return Ok(Action::Exit);
                }
            },
            Key::Delete => (),
        }
        proof {
            use_type_invariant(&*self);
        }
        Ok(Action::Refresh)
    }

    /// Appends the lines of the viewport, from the top down: the welcome line
    /// a third of the way down, cut to the viewport's width and centred, and
    /// the marker on every other line. Each line ends with the code that
    /// erases its rest, and all but the last with a line break.
    pub fn draw_rows(&self, out: &mut Vec<u8>)
        ensures
            final(out)@ == old(out)@ + lines(self@.rows, self@.cols, self@.rows),
    {
        proof {
            use_type_invariant(self);
        }
        let mut r: usize = 0;
        while r < self.rows
            invariant
                r <= self.rows,
                out@ == old(out)@ + lines(self@.rows, self@.cols, r as nat),
            decreases self.rows - r,
        {
            let ghost drawn = out@;
            if r == self.rows / 3 {
                draw_welcome(out, self.cols);
            } else {
                out.push(MARKER);
            }
            erase_line(out);
            if r < self.rows - 1 {
                out.push(0x0d);
                out.push(0x0a);
            }
            assert(out@ =~= drawn + line(self@.rows, self@.cols, r as nat));
            r += 1;
        }
    }

    /// Composes one frame: all the bytes that draw the editor's screen, in
    /// the order in which the terminal must get them.
    pub fn refresh_screen(&self) -> (out: Vec<u8>)
        ensures
            out@ == self@.frame(),
    {
        proof {
            use_type_invariant(self);
        }
        let mut out: Vec<u8> = Vec::new();
        hide_cursor(&mut out);
        reset_cursor(&mut out);
        self.draw_rows(&mut out);
        move_cursor_to(&mut out, self.c_row + 1, self.c_col + 1);
        show_cursor(&mut out);
        out
    }

    /// The height of the viewport, in lines.
    pub fn rows(&self) -> (rows: usize)
        ensures
            rows == self@.rows,
    {
        self.rows
    }

    /// The width of the viewport, in cells.
    pub fn cols(&self) -> (cols: usize)
        ensures
            cols == self@.cols,
    {
        self.cols
    }

    /// Where the cursor stands: its line and its cell in the line, both
    /// counted from 0.
    pub fn cursor(&self) -> (at: (usize, usize))
        ensures
            at.0 == self@.row,
            at.1 == self@.col,
    {
        (self.c_row, self.c_col)
    }

    /// The bytes taken of a key sequence that is not finished yet.
    pub fn pending(&self) -> (pending: Pending)
        ensures
            pending@ == self@.pending,
            pending.wf(),
    {
        proof {
            use_type_invariant(self);
        }
        self.pending
    }
}

} // verus!
