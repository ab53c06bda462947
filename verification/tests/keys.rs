use kilo_rs::editor::Editor;
use kilo_rs::error::Error;
use kilo_rs::key::{ctrl, Key, Pending, ESC};

/// A read that brought no byte.
fn nothing() -> Result<u8, Error> {
    Err(Error::from(std::io::Error::new(std::io::ErrorKind::TimedOut, "no byte came")))
}

/// Feeds `bytes` one by one to a fresh editor and then, where a sequence is
/// left unfinished, a read that failed; gives every key that came out, in
/// order.
fn keys_of(bytes: &[u8]) -> Vec<Key> {
    let mut editor = Editor::new(24, 80).unwrap();
    let mut keys = Vec::new();
    for &b in bytes {
        if let Some(key) = editor.get_key(Ok(b)).unwrap() {
            keys.push(key);
        }
    }
    if editor.pending() != Pending::Idle {
        if let Some(key) = editor.get_key(nothing()).unwrap() {
            keys.push(key);
        }
    }
    assert_eq!(editor.pending(), Pending::Idle);
    keys
}

#[test]
fn plain_byte_is_its_own_key() {
    for b in 0..=255u8 {
        if b != 0x1b {
            let mut editor = Editor::new(24, 80).unwrap();
            assert_eq!(editor.get_key(Ok(b)).unwrap(), Some(Key::Byte(b)));
            assert_eq!(editor.pending(), Pending::Idle);
        }
    }
}

#[test]
fn escape_byte_is_0x1b() {
    assert_eq!(ESC, 0x1b);
}

#[test]
fn arrows() {
    assert_eq!(keys_of(&[0x1b, b'[', b'A']), vec![Key::ArrowUp]);
    assert_eq!(keys_of(&[0x1b, b'[', b'B']), vec![Key::ArrowDown]);
    assert_eq!(keys_of(&[0x1b, b'[', b'C']), vec![Key::ArrowRight]);
    assert_eq!(keys_of(&[0x1b, b'[', b'D']), vec![Key::ArrowLeft]);
}

#[test]
fn arrow_comes_out_with_its_third_byte() {
    let mut editor = Editor::new(24, 80).unwrap();
    assert_eq!(editor.get_key(Ok(0x1b)).unwrap(), None);
    assert_eq!(editor.pending(), Pending::Escape);
    assert_eq!(editor.get_key(Ok(b'[')).unwrap(), None);
    assert_eq!(editor.pending(), Pending::Bracket);
    assert_eq!(editor.get_key(Ok(b'A')).unwrap(), Some(Key::ArrowUp));
    assert_eq!(editor.pending(), Pending::Idle);
}

#[test]
fn digit_sequences() {
    assert_eq!(keys_of(&[0x1b, b'[', b'3', b'~']), vec![Key::Delete]);
    assert_eq!(keys_of(&[0x1b, b'[', b'5', b'~']), vec![Key::PageUp]);
    assert_eq!(keys_of(&[0x1b, b'[', b'6', b'~']), vec![Key::PageDown]);
    assert_eq!(keys_of(&[0x1b, b'[', b'1', b'~']), vec![Key::Home]);
    assert_eq!(keys_of(&[0x1b, b'[', b'7', b'~']), vec![Key::Home]);
    assert_eq!(keys_of(&[0x1b, b'[', b'4', b'~']), vec![Key::End]);
    assert_eq!(keys_of(&[0x1b, b'[', b'8', b'~']), vec![Key::End]);
}

#[test]
fn digit_is_held_until_the_tilde() {
    let mut editor = Editor::new(24, 80).unwrap();
    editor.get_key(Ok(0x1b)).unwrap();
    editor.get_key(Ok(b'[')).unwrap();
    assert_eq!(editor.get_key(Ok(b'5')).unwrap(), None);
    assert_eq!(editor.pending(), Pending::Digit(b'5'));
    assert_eq!(editor.get_key(Ok(b'~')).unwrap(), Some(Key::PageUp));
    assert_eq!(editor.pending(), Pending::Idle);
}

#[test]
fn unknown_digits_fall_back_to_escape() {
    assert_eq!(keys_of(&[0x1b, b'[', b'9', b'~']), vec![Key::Byte(0x1b)]);
    assert_eq!(keys_of(&[0x1b, b'[', b'0', b'~']), vec![Key::Byte(0x1b)]);
    assert_eq!(keys_of(&[0x1b, b'[', b'2', b'~']), vec![Key::Byte(0x1b)]);
}

#[test]
fn truncated_sequences_fall_back_to_escape() {
    assert_eq!(keys_of(&[0x1b]), vec![Key::Byte(0x1b)]);
    assert_eq!(keys_of(&[0x1b, b'[']), vec![Key::Byte(0x1b)]);
    assert_eq!(keys_of(&[0x1b, b'[', b'5']), vec![Key::Byte(0x1b)]);
    assert_eq!(keys_of(&[0x1b, b'0']), vec![Key::Byte(0x1b)]);
}

#[test]
fn home_and_end_letters() {
    assert_eq!(keys_of(&[0x1b, b'[', b'H']), vec![Key::Home]);
    assert_eq!(keys_of(&[0x1b, b'[', b'F']), vec![Key::End]);
    assert_eq!(keys_of(&[0x1b, b'0', b'H']), vec![Key::Home]);
    assert_eq!(keys_of(&[0x1b, b'0', b'F']), vec![Key::End]);
}

#[test]
fn short_sequence_state() {
    let mut editor = Editor::new(24, 80).unwrap();
    editor.get_key(Ok(0x1b)).unwrap();
    assert_eq!(editor.get_key(Ok(b'0')).unwrap(), None);
    assert_eq!(editor.pending(), Pending::Zero);
    assert_eq!(editor.get_key(Ok(b'x')).unwrap(), Some(Key::Byte(0x1b)));
    assert_eq!(editor.pending(), Pending::Idle);
}

#[test]
fn malformed_terminator_falls_back_to_escape() {
    assert_eq!(keys_of(&[0x1b, b'[', b'5', b'x']), vec![Key::Byte(0x1b)]);
    assert_eq!(keys_of(&[0x1b, b'[', b'5', b'A']), vec![Key::Byte(0x1b)]);
}

#[test]
fn unknown_bytes_after_escape_are_consumed() {
    // The byte that breaks the sequence is used up: the next one starts anew.
    assert_eq!(keys_of(&[0x1b, b'x', b'y']), vec![Key::Byte(0x1b), Key::Byte(b'y')]);
    assert_eq!(keys_of(&[0x1b, b'[', b'Z', b'A']), vec![Key::Byte(0x1b), Key::Byte(b'A')]);
    assert_eq!(keys_of(&[0x1b, 0x1b, b'[', b'A']), vec![Key::Byte(0x1b), Key::Byte(b'['), Key::Byte(b'A')]);
    assert_eq!(keys_of(&[0x1b, b'0', b'A', b'q']), vec![Key::Byte(0x1b), Key::Byte(b'q')]);
}

#[test]
fn keys_follow_each_other() {
    assert_eq!(
        keys_of(&[b'a', 0x1b, b'[', b'A', 0x1b, b'[', b'6', b'~', b'b', 0x1b]),
        vec![Key::Byte(b'a'), Key::ArrowUp, Key::PageDown, Key::Byte(b'b'), Key::Byte(0x1b)]
    );
}

#[test]
fn no_key_takes_more_than_four_bytes() {
    for b1 in 0..=255u8 {
        for b2 in [b'A', b'0', b'5', b'9', b'H', b'~', 0x1b, b'['] {
            for b3 in [b'~', b'A', b'5', 0x1b] {
                let mut editor = Editor::new(24, 80).unwrap();
                let mut settled = editor.get_key(Ok(0x1b)).unwrap().is_some();
                for b in [b1, b2, b3] {
                    if !settled {
                        settled = editor.get_key(Ok(b)).unwrap().is_some();
                    }
                }
                assert!(settled);
                assert_eq!(editor.pending(), Pending::Idle);
            }
        }
    }
}

#[test]
fn failed_read_where_a_key_starts_comes_back() {
    let mut editor = Editor::new(24, 80).unwrap();
    let cause = std::io::Error::new(std::io::ErrorKind::BrokenPipe, "keyboard gone");
    match editor.get_key(Err(Error::from(cause))) {
        Err(Error::IoError(inner)) => {
            assert_eq!(inner.kind(), std::io::ErrorKind::BrokenPipe);
            assert_eq!(inner.to_string(), "keyboard gone");
        }
        other => panic!("{:?}", other),
    }
    assert_eq!(editor, Editor::new(24, 80).unwrap());
    assert!(matches!(editor.get_key(Err(Error::BadKeyError(7))), Err(Error::BadKeyError(7))));
    assert_eq!(editor.get_key(Ok(b'z')).unwrap(), Some(Key::Byte(b'z')));
}

#[test]
fn failed_read_inside_a_sequence_gives_the_escape_key() {
    for prefix in [&[0x1b][..], &[0x1b, b'['][..], &[0x1b, b'[', b'5'][..], &[0x1b, b'0'][..]] {
        let mut editor = Editor::new(24, 80).unwrap();
        for &b in prefix {
            assert_eq!(editor.get_key(Ok(b)).unwrap(), None);
        }
        assert_eq!(editor.get_key(nothing()).unwrap(), Some(Key::Byte(0x1b)));
        assert_eq!(editor, Editor::new(24, 80).unwrap());
    }
}

#[test]
fn handle_esc_key_hands_a_failed_read_back() {
    let mut editor = Editor::new(24, 80).unwrap();
    editor.get_key(Ok(0x1b)).unwrap();
    editor.get_key(Ok(b'[')).unwrap();
    assert!(matches!(editor.handle_esc_key(nothing()), Err(Error::IoError(_))));
    assert_eq!(editor.pending(), Pending::Idle);
    assert!(matches!(
        editor.handle_esc_key(Err(Error::EscSeqParseError(String::from("x")))),
        Err(Error::EscSeqParseError(_))
    ));
    assert_eq!(editor.pending(), Pending::Idle);
}

#[test]
fn handle_esc_key_continues_a_sequence() {
    let mut editor = Editor::new(24, 80).unwrap();
    assert_eq!(editor.get_key(Ok(0x1b)).unwrap(), None);
    assert_eq!(editor.handle_esc_key(Ok(b'[')).unwrap(), None);
    assert_eq!(editor.handle_esc_key(Ok(b'D')).unwrap(), Some(Key::ArrowLeft));
    assert_eq!(editor.pending(), Pending::Idle);
}

#[test]
fn handle_esc_key_takes_the_escape_as_read() {
    let mut editor = Editor::new(24, 80).unwrap();
    assert_eq!(editor.handle_esc_key(Ok(b'[')).unwrap(), None);
    assert_eq!(editor.pending(), Pending::Bracket);
    assert_eq!(editor.handle_esc_key(Ok(b'6')).unwrap(), None);
    assert_eq!(editor.handle_esc_key(Ok(b'~')).unwrap(), Some(Key::PageDown));

    let mut editor = Editor::new(24, 80).unwrap();
    assert_eq!(editor.handle_esc_key(Ok(b'a')).unwrap(), Some(Key::Byte(0x1b)));
    assert_eq!(editor.pending(), Pending::Idle);
}

#[test]
fn decoding_leaves_the_cursor_alone() {
    let mut editor = Editor::new(24, 80).unwrap();
    for b in [0x1b, b'[', b'B'] {
        editor.get_key(Ok(b)).unwrap();
    }
    assert_eq!(editor.cursor(), (0, 0));
    assert_eq!((editor.rows(), editor.cols()), (24, 80));
}

#[test]
fn ctrl_keeps_the_low_five_bits() {
    assert_eq!(ctrl(b'q'), 17);
    assert_eq!(ctrl(b'Q'), 17);
    assert_eq!(ctrl(b'a'), 1);
    assert_eq!(ctrl(0xff), 0x1f);
    for b in 0..=255u8 {
        assert_eq!(ctrl(b), b & 0x1f);
    }
}
