use clipboard_anywhere::{frame_osc52, osc52_sequence, remote_get_text, remote_unsupported, Backend, ErrorKind};

#[test]
fn osc52_sequence_of_hello_world() {
    let s = osc52_sequence("Hello, world!");
    assert_eq!(s.as_bytes(), b"\x1B]52;c;SGVsbG8sIHdvcmxkIQ==\x07");
}

#[test]
fn osc52_sequence_of_empty_text() {
    assert_eq!(osc52_sequence(""), "\x1B]52;c;\x07");
}

#[test]
fn osc52_sequence_of_non_ascii_text() {
    // "é" is the two bytes C3 A9 in UTF-8.
    assert_eq!(osc52_sequence("é"), "\x1B]52;c;w6k=\x07");
}

#[test]
fn frame_wraps_encoded_text() {
    assert_eq!(frame_osc52("YWJj"), "\x1B]52;c;YWJj\x07");
}

#[test]
fn remote_get_is_always_unsupported() {
    let _ = osc52_sequence("something set before");
    let e = remote_get_text().unwrap_err();
    assert_eq!(e.backend, Backend::Remote);
    assert_eq!(e.kind, ErrorKind::UnsupportedOperation);
    assert_eq!(e.message, "SSH clipboard not supported");
    let e2 = remote_get_text().unwrap_err();
    assert_eq!(e2.kind, ErrorKind::UnsupportedOperation);
    assert_eq!(remote_unsupported().kind, ErrorKind::UnsupportedOperation);
}

#[test]
fn osc52_sequence_lengths_follow_padding() {
    // One, two and three bytes each take four characters.
    assert_eq!(osc52_sequence("a"), "\x1B]52;c;YQ==\x07");
    assert_eq!(osc52_sequence("ab"), "\x1B]52;c;YWI=\x07");
    assert_eq!(osc52_sequence("abc"), "\x1B]52;c;YWJj\x07");
}
