//! The bytes that draw on a terminal.
//!
//! Nothing here writes to a terminal. Every function appends to a buffer of
//! bytes, so that a whole frame is composed before any of it is sent: the
//! caller writes the buffer in one piece and flushes once.

use vstd::prelude::*;
use vstd::string::{is_ascii, is_ascii_spec_bytes, StringSliceAdditionalSpecFns};
use crate::key::{BRACKET, DIGIT_0, ESC};

verus! {

/// The program's name, as the welcome line shows it.
pub const APP_NAME: &'static str = "kilo-rs";

/// The program's version, as the welcome line shows it.
pub const APP_VERSION: &'static str = "0.0.1";

/// What stands between name and version in the welcome line.
pub const VERSION_LABEL: &'static str = " -- version ";

/// `~`, which marks a line of the viewport that holds no text.
pub const MARKER: u8 = 0x7e;

/// A blank.
pub const SPACE: u8 = 0x20;

/// `ESC [ ? 2 5 l`: makes the cursor invisible.
pub open spec fn hide_cursor_code() -> Seq<u8> {
    seq![ESC, BRACKET, 0x3f, 0x32, 0x35, 0x6c]
}

/// `ESC [ ? 2 5 h`: makes the cursor visible.
pub open spec fn show_cursor_code() -> Seq<u8> {
    seq![ESC, BRACKET, 0x3f, 0x32, 0x35, 0x68]
}

/// `ESC [ H`: puts the cursor in the top left corner.
pub open spec fn reset_cursor_code() -> Seq<u8> {
    seq![ESC, BRACKET, 0x48]
}

/// `ESC [ K`: erases the line from the cursor to its end.
pub open spec fn erase_line_code() -> Seq<u8> {
    seq![ESC, BRACKET, 0x4b]
}

/// `ESC [ 2 J`: erases the whole screen.
pub open spec fn clear_screen_code() -> Seq<u8> {
    seq![ESC, BRACKET, 0x32, 0x4a]
}

/// Carriage return and line feed, which part two lines.
pub open spec fn line_break() -> Seq<u8> {
    seq![0x0d, 0x0a]
}

/// `n` in decimal digits, without leading zeros.
pub open spec fn decimal(n: nat) -> Seq<u8>
    decreases n,
{
    if n < 10 {
        seq![(DIGIT_0 + n) as u8]
    } else {
        decimal(n / 10).push((DIGIT_0 + n % 10) as u8)
    }
}

/// `ESC [ row ; col H`: puts the cursor in line `row` and cell `col`, both
/// counted from 1.
pub open spec fn move_cursor_code(row: nat, col: nat) -> Seq<u8> {
    seq![ESC, BRACKET] + decimal(row) + seq![0x3bu8] + decimal(col) + seq![0x48u8]
}

/// `n` blanks.
pub open spec fn blanks(n: nat) -> Seq<u8> {
    Seq::new(n, |i: int| SPACE)
}

/// The welcome text: name, label and version.
pub open spec fn welcome() -> Seq<u8> {
    APP_NAME.spec_bytes() + VERSION_LABEL.spec_bytes() + APP_VERSION.spec_bytes()
}

/// The welcome text as a viewport of `cols` cells shows it: what fits of it.
pub open spec fn banner(cols: nat) -> Seq<u8> {
    if welcome().len() > cols {
        welcome().take(cols as int)
    } else {
        welcome()
    }
}

/// The welcome line: the banner in the middle of the line. Half of the cells
/// that the banner leaves free, rounded down, stand before it: the marker and
/// then blanks. Where that half is nothing, the banner starts the line.
pub open spec fn banner_line(cols: nat) -> Seq<u8> {
    let padding = (cols - banner(cols).len()) / 2;
    if padding > 0 {
        seq![MARKER] + blanks((padding - 1) as nat) + banner(cols)
    } else {
        banner(cols)
    }
}

/// The line that is drawn in place `r`, counted from 0, of a viewport of
/// `rows` lines and `cols` cells: the welcome line a third of the way down,
/// the marker everywhere else; then the code that erases the rest of the
/// line; then, except after the last line, a line break.
pub open spec fn line(rows: nat, cols: nat, r: nat) -> Seq<u8> {
    (if r == rows / 3 {
        banner_line(cols)
    } else {
        seq![MARKER]
    }) + erase_line_code() + (if r + 1 < rows {
        line_break()
    } else {
        Seq::empty()
    })
}

/// The first `n` lines of such a viewport, one after the other.
pub open spec fn lines(rows: nat, cols: nat, n: nat) -> Seq<u8>
    decreases n,
{
    if n == 0 {
        Seq::empty()
    } else {
        lines(rows, cols, (n - 1) as nat) + line(rows, cols, (n - 1) as nat)
    }
}

/// The welcome text is `kilo-rs -- version 0.0.1`, 24 bytes of ASCII.
pub proof fn lemma_welcome()
    ensures
        welcome() == "kilo-rs -- version 0.0.1".spec_bytes(),
        welcome().len() == 24,
        welcome().subrange(0, 7) == seq![0x6bu8, 0x69, 0x6c, 0x6f, 0x2d, 0x72, 0x73],
        forall|i: int| 0 <= i < 24 ==> SPACE <= #[trigger] welcome()[i] < 0x7f,
{
    reveal_strlit("kilo-rs");
    reveal_strlit(" -- version ");
    reveal_strlit("0.0.1");
    reveal_strlit("kilo-rs -- version 0.0.1");
    assert(is_ascii(APP_NAME));
    assert(is_ascii(VERSION_LABEL));
    assert(is_ascii(APP_VERSION));
    assert(is_ascii("kilo-rs -- version 0.0.1"));
    is_ascii_spec_bytes(APP_NAME);
    is_ascii_spec_bytes(VERSION_LABEL);
    is_ascii_spec_bytes(APP_VERSION);
    is_ascii_spec_bytes("kilo-rs -- version 0.0.1");
    assert(welcome() =~= "kilo-rs -- version 0.0.1".spec_bytes());
    assert(welcome().subrange(0, 7) =~= seq![0x6bu8, 0x69, 0x6c, 0x6f, 0x2d, 0x72, 0x73]);
}

/// The welcome line never overflows the viewport: it is the whole text where
/// that fits and its first `cols` bytes where it does not, and with its
/// padding it takes `cols` cells at most.
pub proof fn lemma_banner_fits(cols: nat)
    ensures
        banner(cols).len() == vstd::math::min(cols as int, 24),
        banner(cols).is_prefix_of(welcome()),
        banner_line(cols).len() <= cols,
        cols >= 26 ==> banner_line(cols).len() == (cols - 24) / 2 + 24,
        cols < 26 ==> banner_line(cols) == banner(cols),
{
    lemma_welcome();
}

/// Every line of the viewport is drawn: `lines` is as many lines as it was
/// asked for, each ending in the code that erases its rest, and a line break
/// follows each but the last of the viewport.
pub proof fn lemma_lines_end(rows: nat, cols: nat, n: nat)
    requires
        0 < n <= rows,
    ensures
        n < rows ==> (erase_line_code() + line_break()).is_suffix_of(lines(rows, cols, n)),
        n == rows ==> erase_line_code().is_suffix_of(lines(rows, cols, n)),
{
    let before = lines(rows, cols, (n - 1) as nat);
    let content = if n - 1 == rows / 3 {
        banner_line(cols)
    } else {
        seq![MARKER]
    };
    let all = lines(rows, cols, n);
    if n < rows {
        let tail = erase_line_code() + line_break();
        assert(all =~= before + content + tail);
        assert(all.subrange(all.len() - tail.len(), all.len() as int) =~= tail);
    } else {
        let tail = erase_line_code();
        assert(all =~= before + content + tail);
        assert(all.subrange(all.len() - tail.len(), all.len() as int) =~= tail);
    }
}

/// How often `byte` occurs in `s`.
pub open spec fn count(s: Seq<u8>, byte: u8) -> nat
    decreases s.len(),
{
    if s.len() == 0 {
        0
    } else {
        count(s.drop_last(), byte) + if s.last() == byte {
            1nat
        } else {
            0nat
        }
    }
}

/// What occurs in two sequences put together occurs in one or the other.
pub proof fn lemma_count_joined(a: Seq<u8>, b: Seq<u8>, byte: u8)
    ensures
        count(a + b, byte) == count(a, byte) + count(b, byte),
    decreases b.len(),
{
    if b.len() == 0 {
        assert(a + b =~= a);
    } else {
        assert((a + b).drop_last() =~= a + b.drop_last());
        lemma_count_joined(a, b.drop_last(), byte);
    }
}

/// A byte that is nowhere in a sequence occurs in it no times.
pub proof fn lemma_count_none(s: Seq<u8>, byte: u8)
    requires
        forall|i: int| 0 <= i < s.len() ==> s[i] != byte,
    ensures
        count(s, byte) == 0,
    decreases s.len(),
{
    if s.len() > 0 {
        lemma_count_none(s.drop_last(), byte);
    }
}

/// One line holds the escape byte once, in the code that erases its rest, and
/// a carriage return and a line feed once each where a line break ends it:
/// what the line shows holds none of the three.
pub proof fn lemma_line_count(rows: nat, cols: nat, r: nat)
    ensures
        count(line(rows, cols, r), ESC) == 1,
        count(line(rows, cols, r), 0x0d) == if r + 1 < rows {
            1nat
        } else {
            0nat
        },
        count(line(rows, cols, r), 0x0a) == if r + 1 < rows {
            1nat
        } else {
            0nat
        },
{
    let shown = if r == rows / 3 {
        banner_line(cols)
    } else {
        seq![MARKER]
    };
    let tail = if r + 1 < rows {
        line_break()
    } else {
        Seq::empty()
    };
    lemma_welcome();
    lemma_banner_fits(cols);
    assert forall|i: int| 0 <= i < shown.len() implies SPACE <= #[trigger] shown[i] < 0x7f by {
        if r == rows / 3 {
            let padding = (cols - banner(cols).len()) / 2;
            if padding > 0 && i >= padding {
                assert(shown[i] == welcome()[i - padding]);
            } else if padding == 0 {
                assert(shown[i] == welcome()[i]);
            }
        }
    }
    lemma_count_none(shown, ESC);
    lemma_count_none(shown, 0x0d);
    lemma_count_none(shown, 0x0a);
    reveal_with_fuel(count, 4);
    assert(count(erase_line_code(), ESC) == 1);
    assert(count(erase_line_code(), 0x0d) == 0);
    assert(count(erase_line_code(), 0x0a) == 0);
    assert(count(line_break(), ESC) == 0);
    assert(count(line_break(), 0x0d) == 1);
    assert(count(line_break(), 0x0a) == 1);
    assert(count(Seq::<u8>::empty(), ESC) == 0);
    lemma_count_joined(shown, erase_line_code(), ESC);
    lemma_count_joined(shown, erase_line_code(), 0x0d);
    lemma_count_joined(shown, erase_line_code(), 0x0a);
    lemma_count_joined(shown + erase_line_code(), tail, ESC);
    lemma_count_joined(shown + erase_line_code(), tail, 0x0d);
    lemma_count_joined(shown + erase_line_code(), tail, 0x0a);
}

/// The lines of a viewport hold as many codes that erase the rest of a line
/// as there are lines, and one line break fewer than the viewport has lines:
/// counted by the escape byte, the carriage return and the line feed, which
/// occur nowhere else.
pub proof fn lemma_lines_count(rows: nat, cols: nat, n: nat)
    requires
        n <= rows,
    ensures
        count(lines(rows, cols, n), ESC) == n,
        count(lines(rows, cols, n), 0x0d) == count(lines(rows, cols, n), 0x0a),
        count(lines(rows, cols, n), 0x0a) == if n == rows && n > 0 {
            (n - 1) as nat
        } else {
            n
        },
    decreases n,
{
    if n > 0 {
        let before = (n - 1) as nat;
        lemma_lines_count(rows, cols, before);
        lemma_line_count(rows, cols, before);
        lemma_count_joined(lines(rows, cols, before), line(rows, cols, before), ESC);
        lemma_count_joined(lines(rows, cols, before), line(rows, cols, before), 0x0d);
        lemma_count_joined(lines(rows, cols, before), line(rows, cols, before), 0x0a);
    }
}

/// Appends `bytes`.
pub fn write_bytes(out: &mut Vec<u8>, bytes: &[u8])
    ensures
        final(out)@ == old(out)@ + bytes@,
{
    let mut i: usize = 0;
    while i < bytes.len()
        invariant
            i <= bytes.len(),
            out@ == old(out)@ + bytes@.take(i as int),
        decreases bytes.len() - i,
    {
        out.push(bytes[i]);
        i += 1;
    }
}

/// Appends `text`, in UTF-8.
pub fn write_str(out: &mut Vec<u8>, text: &str)
    ensures
        final(out)@ == old(out)@ + text.spec_bytes(),
{
    write_bytes(out, text.as_bytes())
}

/// Appends `n` blanks.
pub fn write_blanks(out: &mut Vec<u8>, n: usize)
    ensures
        final(out)@ == old(out)@ + blanks(n as nat),
{
    let mut i: usize = 0;
    while i < n
        invariant
            i <= n,
            out@ == old(out)@ + blanks(i as nat),
        decreases n - i,
    {
        out.push(SPACE);
        i += 1;
    }
}

/// Appends the welcome line for a viewport of `cols` cells: the welcome
/// text, cut to what fits and centred.
pub fn draw_welcome(out: &mut Vec<u8>, cols: usize)
    ensures
        final(out)@ == old(out)@ + banner_line(cols as nat),
{
    let mut text: Vec<u8> = Vec::new();
    write_str(&mut text, APP_NAME);
    write_str(&mut text, VERSION_LABEL);
    write_str(&mut text, APP_VERSION);
    assert(text@ =~= welcome());
    if text.len() > cols {
        text.truncate(cols)
    }
    assert(text@ =~= banner(cols as nat));
    let padding = (cols - text.len()) / 2;
    if padding > 0 {
        out.push(MARKER);
        write_blanks(out, padding - 1);
    }
    write_bytes(out, text.as_slice());
    assert(out@ =~= old(out)@ + banner_line(cols as nat));
}

/// Appends the code that hides the cursor.
pub fn hide_cursor(out: &mut Vec<u8>)
    ensures
        final(out)@ == old(out)@ + hide_cursor_code(),
{
    out.push(ESC);
    out.push(BRACKET);
    out.push(0x3f);
    out.push(0x32);
    out.push(0x35);
    out.push(0x6c);
}

/// Appends the code that shows the cursor.
pub fn show_cursor(out: &mut Vec<u8>)
    ensures
        final(out)@ == old(out)@ + show_cursor_code(),
{
    out.push(ESC);
    out.push(BRACKET);
    out.push(0x3f);
    out.push(0x32);
    out.push(0x35);
    out.push(0x68);
}

/// Appends the code that puts the cursor in the top left corner.
pub fn reset_cursor(out: &mut Vec<u8>)
    ensures
        final(out)@ == old(out)@ + reset_cursor_code(),
{
    out.push(ESC);
    out.push(BRACKET);
    out.push(0x48);
}

/// Appends the code that erases the rest of the line.
pub fn erase_line(out: &mut Vec<u8>)
    ensures
        final(out)@ == old(out)@ + erase_line_code(),
{
    out.push(ESC);
    out.push(BRACKET);
    out.push(0x4b);
}

/// Appends the code that erases the screen.
pub fn clear_screen(out: &mut Vec<u8>)
    ensures
        final(out)@ == old(out)@ + clear_screen_code(),
{
    out.push(ESC);
    out.push(BRACKET);
    out.push(0x32);
    out.push(0x4a);
}

/// Appends `n` in decimal digits.
pub fn write_decimal(out: &mut Vec<u8>, n: usize)
    ensures
        final(out)@ == old(out)@ + decimal(n as nat),
    decreases n,
{
    if n >= 10 {
        write_decimal(out, n / 10);
    }
    out.push(DIGIT_0 + (n % 10) as u8);
}

/// Appends the code that puts the cursor in line `row` and cell `col`, both
/// counted from 1.
pub fn move_cursor_to(out: &mut Vec<u8>, row: usize, col: usize)
    ensures
        final(out)@ == old(out)@ + move_cursor_code(row as nat, col as nat),
{
    out.push(ESC);
    out.push(BRACKET);
    write_decimal(out, row);
    out.push(0x3b);
    write_decimal(out, col);
    out.push(0x48);
}

} // verus!
