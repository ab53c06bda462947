//! Keys, and how the bytes that a terminal sends spell them.
//!
//! A key is spelled by one byte, or by a sequence of up to four bytes that
//! begins with the escape byte. [`decode`] says which key a sequence spells,
//! [`needs_more`] which sequences are still unfinished, and [`fed`] what one
//! more byte does to the bytes taken so far. [`Pending`] is how the decoder
//! remembers those bytes between two reads.

use vstd::prelude::*;

verus! {

/// The escape byte, which opens every multi-byte key sequence.
pub const ESC: u8 = 0x1b;

/// `[`, the second byte of most sequences.
pub const BRACKET: u8 = 0x5b;

/// `~`, which closes a sequence that carries a digit.
pub const TILDE: u8 = 0x7e;

/// `0`, the second byte of the short Home and End sequences.
pub const DIGIT_0: u8 = 0x30;

/// `1`
pub const DIGIT_1: u8 = 0x31;

/// `3`
pub const DIGIT_3: u8 = 0x33;

/// `4`
pub const DIGIT_4: u8 = 0x34;

/// `5`
pub const DIGIT_5: u8 = 0x35;

/// `6`
pub const DIGIT_6: u8 = 0x36;

/// `7`
pub const DIGIT_7: u8 = 0x37;

/// `8`
pub const DIGIT_8: u8 = 0x38;

/// `9`
pub const DIGIT_9: u8 = 0x39;

/// `A`
pub const UPPER_A: u8 = 0x41;

/// `B`
pub const UPPER_B: u8 = 0x42;

/// `C`
pub const UPPER_C: u8 = 0x43;

/// `D`
pub const UPPER_D: u8 = 0x44;

/// `F`
pub const UPPER_F: u8 = 0x46;

/// `H`
pub const UPPER_H: u8 = 0x48;

/// `q`, the letter of the quit key.
pub const LOWER_Q: u8 = 0x71;

/// The control character that a terminal sends for a letter key pressed
/// together with Ctrl: the letter's low five bits.
pub open spec fn ctrl_spec(key: u8) -> u8 {
    key & 0x1f
}

/// The control character that goes with the letter `key`.
#[verifier::when_used_as_spec(ctrl_spec)]
pub fn ctrl(key: u8) -> (c: u8)
    ensures
        c == ctrl_spec(key),
{
    key & 0x1f
}

/// The byte that ends the session: Ctrl-Q.
pub open spec fn quit_byte() -> u8 {
    ctrl_spec(LOWER_Q)
}

/// Ctrl-Q is the byte 17, and every control character lies below 32.
pub proof fn lemma_quit_byte()
    ensures
        quit_byte() == 0x11,
        forall|key: u8| #[trigger] ctrl_spec(key) < 0x20,
{
    assert(0x71u8 & 0x1f == 0x11) by (bit_vector);
    assert forall|key: u8| #[trigger] ctrl_spec(key) < 0x20 by {
        assert(key & 0x1f < 0x20) by (bit_vector);
    }
}

/// One of the four ways the cursor can step.
#[derive(Clone, Copy, Debug, PartialEq, Eq, Structural)]
pub enum Direction {
    Left,
    Right,
    Up,
    Down,
}

/// One key press, as the editor understands it.
#[derive(Clone, Copy, Debug, PartialEq, Eq, Structural)]
pub enum Key {
    ArrowUp,
    ArrowDown,
    ArrowLeft,
    ArrowRight,
    PageUp,
    PageDown,
    Home,
    End,
    Delete,
    /// A byte that belongs to no recognised sequence, as it came. A sequence
    /// that is cut short or spells nothing known counts as the escape byte.
    Byte(u8),
}

/// Whether `b` is an ASCII decimal digit.
pub open spec fn is_digit(b: u8) -> bool {
    DIGIT_0 <= b <= DIGIT_9
}

/// The key that `ESC [ digit ~` spells.
pub open spec fn tilde_key(digit: u8) -> Key {
    if digit == DIGIT_1 || digit == DIGIT_7 {
        Key::Home
    } else if digit == DIGIT_4 || digit == DIGIT_8 {
        Key::End
    } else if digit == DIGIT_3 {
        Key::Delete
    } else if digit == DIGIT_5 {
        Key::PageUp
    } else if digit == DIGIT_6 {
        Key::PageDown
    } else {
        Key::Byte(ESC)
    }
}

/// The key that `ESC [ b2` spells, followed by `b3` where one more byte came.
pub open spec fn bracket_key(b2: u8, b3: Option<u8>) -> Key {
    if b2 == UPPER_A {
        Key::ArrowUp
    } else if b2 == UPPER_B {
        Key::ArrowDown
    } else if b2 == UPPER_C {
        Key::ArrowRight
    } else if b2 == UPPER_D {
        Key::ArrowLeft
    } else if b2 == UPPER_H {
        Key::Home
    } else if b2 == UPPER_F {
        Key::End
    } else if is_digit(b2) && b3 == Some(TILDE) {
        tilde_key(b2)
    } else {
        Key::Byte(ESC)
    }
}

/// The key that `ESC 0 b2` spells.
pub open spec fn short_key(b2: u8) -> Key {
    if b2 == UPPER_H {
        Key::Home
    } else if b2 == UPPER_F {
        Key::End
    } else {
        Key::Byte(ESC)
    }
}

/// The key that the byte sequence `s` spells, where no byte follows `s`.
///
/// A first byte other than escape is its own key. After escape, the known
/// sequences give their key, and everything else, a sequence cut short
/// included, gives the escape byte as a key.
pub open spec fn decode(s: Seq<u8>) -> Key
    recommends
        s.len() > 0,
{
    if s[0] != ESC {
        Key::Byte(s[0])
    } else if s.len() < 3 {
        Key::Byte(ESC)
    } else if s[1] == BRACKET {
        bracket_key(
            s[2],
            if s.len() > 3 {
                Some(s[3])
            } else {
                None
            },
        )
    } else if s[1] == DIGIT_0 {
        short_key(s[2])
    } else {
        Key::Byte(ESC)
    }
}

/// Whether the decoder reads one more byte after `s` before it settles on a
/// key: after escape alone, after escape and one of the two known second
/// bytes, and after `ESC [` and a digit.
pub open spec fn needs_more(s: Seq<u8>) -> bool {
    &&& 1 <= s.len() <= 3
    &&& s[0] == ESC
    &&& s.len() >= 2 ==> s[1] == BRACKET || (s[1] == DIGIT_0 && s.len() == 2)
    &&& s.len() == 3 ==> is_digit(s[2])
}

/// What one more byte does to a decoder that has taken the bytes `pending`
/// so far: the bytes it holds afterwards, and the key it gives out, if any.
///
/// The byte is added to the pending ones. Where the sequence is then
/// finished, its key comes out and nothing stays pending.
pub open spec fn fed(pending: Seq<u8>, byte: u8) -> (Seq<u8>, Option<Key>) {
    let s = pending.push(byte);
    if needs_more(s) {
        (s, None)
    } else {
        (Seq::empty(), Some(decode(s)))
    }
}

/// The bytes of an unfinished key sequence that the decoder has taken.
#[derive(Clone, Copy, Debug, PartialEq, Eq, Structural)]
pub enum Pending {
    /// Nothing: the next byte starts a key.
    Idle,
    /// The escape byte.
    Escape,
    /// Escape and `[`.
    Bracket,
    /// Escape, `[` and this digit.
    Digit(u8),
    /// Escape and `0`.
    Zero,
}

impl View for Pending {
    type V = Seq<u8>;

    /// The bytes taken so far, in the order in which they came.
    open spec fn view(&self) -> Seq<u8> {
        match *self {
            Pending::Idle => Seq::empty(),
            Pending::Escape => seq![ESC],
            Pending::Bracket => seq![ESC, BRACKET],
            Pending::Digit(d) => seq![ESC, BRACKET, d],
            Pending::Zero => seq![ESC, DIGIT_0],
        }
    }
}

impl Pending {
    /// Only a digit is ever held in `Digit`.
    pub open spec fn wf(self) -> bool {
        self matches Pending::Digit(d) ==> is_digit(d)
    }

    /// A well-formed state holds nothing, or a sequence that is unfinished.
    pub proof fn lemma_view_unfinished(self)
        requires
            self.wf(),
        ensures
            self@.len() == 0 <==> self == Pending::Idle,
            self@.len() > 0 ==> needs_more(self@),
    {
    }
}

/// A single byte other than the escape byte is its own key, and comes out
/// with the read that brought it.
pub proof fn lemma_plain_byte(b: u8)
    requires
        b != ESC,
    ensures
        decode(seq![b]) == Key::Byte(b),
        fed(Seq::empty(), b) == (Seq::<u8>::empty(), Some(Key::Byte(b))),
{
    assert(Seq::<u8>::empty().push(b) =~= seq![b]);
}

/// A sequence that opens with the escape byte spells a named key or the
/// escape byte itself, never another byte: whatever `decode` gives as a plain
/// byte is the first byte of the sequence.
pub proof fn lemma_plain_key_is_first_byte(s: Seq<u8>)
    requires
        s.len() > 0,
    ensures
        decode(s) matches Key::Byte(b) ==> b == s[0],
{
}

/// A sequence that is cut short where one more byte was due spells the escape
/// byte.
pub proof fn lemma_cut_short(s: Seq<u8>)
    requires
        needs_more(s),
    ensures
        decode(s) == Key::Byte(ESC),
{
}

/// One byte keeps the decoder in order: what is pending afterwards is nothing
/// or an unfinished sequence, of three bytes at most, and where a key comes
/// out nothing is left pending. So no key takes more than four bytes.
pub proof fn lemma_fed_unfinished(pending: Seq<u8>, byte: u8)
    requires
        pending.len() == 0 || needs_more(pending),
    ensures
        fed(pending, byte).0.len() == 0 || needs_more(fed(pending, byte).0),
        fed(pending, byte).0.len() <= 3,
        fed(pending, byte).1 is Some <==> fed(pending, byte).0.len() == 0,
        fed(pending, byte).1 is None ==> fed(pending, byte).0 == pending.push(byte),
{
}

} // verus!
