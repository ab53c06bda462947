//! A whole session of the editor, played over input that is already there.
//!
//! At a terminal the session is a loop around the keyboard: draw the screen,
//! read until a key is settled, act on the key, and again, until the quit key
//! comes. [`run`] is that loop over recorded input. It collects what the
//! terminal would have been sent, frame by frame.

use vstd::prelude::*;
use crate::editor::{Action, Editor, State};
use crate::key::{lemma_plain_key_is_first_byte, lemma_quit_byte, quit_byte};
use crate::screen::{clear_screen, clear_screen_code, reset_cursor, reset_cursor_code};

verus! {

/// How a session over recorded input ended.
#[derive(Debug)]
pub struct Session {
    /// The editor as the session left it.
    pub editor: Editor,
    /// All that was drawn, in order.
    pub output: Vec<u8>,
    /// Whether the quit key came. Input after the quit key is not read.
    pub exited: bool,
}

/// The bytes that leave the screen clean when the session ends: the screen is
/// erased and the cursor put in the top left corner.
pub open spec fn farewell() -> Seq<u8> {
    clear_screen_code() + reset_cursor_code()
}

/// What a session does from the state `state`, with `action` next to be
/// taken and the bytes `input` still to come: the state it ends in, what it
/// draws, and whether it ends on the quit key.
///
/// Before each read the screen is drawn if a key has just been handled. Each
/// byte is one read. The quit key draws the farewell and ends the session;
/// otherwise it ends when the input does, and a sequence that is unfinished
/// then stays pending.
pub open spec fn replay(state: State, action: Action, input: Seq<u8>) -> (State, Seq<u8>, bool)
    decreases input.len(),
{
    if action == Action::Exit {
        (state, farewell(), true)
    } else {
        let drawn = if action == Action::Refresh {
            state.frame()
        } else {
            Seq::empty()
        };
        if input.len() == 0 {
            (state, drawn, false)
        } else {
            let (next, then) = state.keypress(input[0]);
            let (last, rest, exited) = replay(next, then, input.drop_first());
            (last, drawn + rest, exited)
        }
    }
}

/// A session keeps the editor in order and the viewport as it is, and only
/// the quit key ends it: a session that ended on the quit key has read the
/// quit byte.
pub proof fn lemma_replay(state: State, action: Action, input: Seq<u8>)
    requires
        state.wf(),
    ensures
        replay(state, action, input).0.wf(),
        replay(state, action, input).0.rows == state.rows,
        replay(state, action, input).0.cols == state.cols,
        replay(state, action, input).2 && action != Action::Exit ==> input.contains(quit_byte()),
    decreases input.len(),
{
    if action != Action::Exit && input.len() > 0 {
        let (next, then) = state.keypress(input[0]);
        state.lemma_keypress_wf(input[0]);
        lemma_replay(next, then, input.drop_first());
        if then == Action::Exit {
            lemma_quit_byte();
            lemma_plain_key_is_first_byte(state.pending.push(input[0]));
            assert(input[0] == quit_byte());
        } else if replay(state, action, input).2 {
            let i = choose|i: int|
                0 <= i < input.drop_first().len() && input.drop_first()[i] == quit_byte();
            assert(input[i + 1] == quit_byte());
        }
    }
}

/// Composes the farewell: the bytes that leave the screen clean.
pub fn leave_screen() -> (out: Vec<u8>)
    ensures
        out@ == farewell(),
{
    let mut out: Vec<u8> = Vec::new();
    clear_screen(&mut out);
    reset_cursor(&mut out);
    out
}

/// Plays a session over `input`, from a first drawing of the screen on.
pub fn run(editor: Editor, input: &[u8]) -> (end: Session)
    ensures
        (end.editor@, end.output@, end.exited) == replay(editor@, Action::Refresh, input@),
{
    let mut editor = editor;
    let mut output: Vec<u8> = Vec::new();
    let mut action = Action::Refresh;
    let ghost start = editor@;
    let mut i: usize = 0;
    proof {
        assert(input@.skip(0) =~= input@);
        assert(output@ + replay(start, action, input@).1 =~= replay(start, action, input@).1);
    }
    while i < input.len() && action != Action::Exit
        invariant
            i <= input.len(),
            replay(start, Action::Refresh, input@) == ({
                let (last, rest, exited) = replay(editor@, action, input@.skip(i as int));
                (last, output@ + rest, exited)
            }),
        decreases input.len() - i,
    {
        let ghost before = output@;
        let ghost rest = input@.skip(i as int);
        if action == Action::Refresh {
            let mut frame = editor.refresh_screen();
            output.append(&mut frame);
        }
        proof {
            assert(rest[0] == input@[i as int]);
            assert(rest.drop_first() =~= input@.skip(i + 1));
            let (next, then) = editor@.keypress(rest[0]);
            let (last, tail, exited) = replay(next, then, rest.drop_first());
            let drawn = if action == Action::Refresh {
                editor@.frame()
            } else {
                Seq::empty()
            };
            assert(output@ =~= before + drawn);
            assert(before + (drawn + tail) =~= output@ + tail);
        }
        // a read that brought a byte is always answered with an action
        if let Ok(next) = editor.handle_keypress(Ok(input[i])) {
            action = next;
        }
        i += 1;
    }
    let ghost before = output@;
    match action {
        Action::Exit => {
            let mut frame = leave_screen();
            output.append(&mut frame);
        },
        Action::Refresh => {
            let mut frame = editor.refresh_screen();
            output.append(&mut frame);
        },
        Action::Read => {},
    }
    proof {
        let rest = input@.skip(i as int);
        assert(action != Action::Exit ==> rest.len() == 0);
        assert(output@ =~= before + replay(editor@, action, rest).1);
    }
    Session { editor, output, exited: action == Action::Exit }
}

} // verus!
