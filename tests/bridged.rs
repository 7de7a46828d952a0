use clipboard_anywhere::{
    bridged_get_command, bridged_get_result, bridged_set_command, bridged_set_result, escape_single_quotes,
    is_quote_char, Backend, ErrorKind, HelperFailure, HelperStage,
};

fn failure(stage: HelperStage) -> HelperFailure {
    HelperFailure { stage, message: "boom".to_string() }
}

#[test]
fn escape_doubles_a_quote() {
    assert_eq!(escape_single_quotes("it's a test"), "it''s a test");
}

#[test]
fn escape_keeps_text_without_quotes() {
    assert_eq!(escape_single_quotes("hello world"), "hello world");
    assert_eq!(escape_single_quotes(""), "");
}

#[test]
fn escape_doubles_every_quote() {
    assert_eq!(escape_single_quotes("''"), "''''");
    assert_eq!(escape_single_quotes("'a'b'"), "''a''b''");
    assert_eq!(escape_single_quotes("l'été"), "l''été");
}

#[test]
fn set_command_quotes_the_text() {
    let c = bridged_set_command("it's a test");
    assert_eq!(c.program, "powershell.exe");
    assert_eq!(c.args, vec!["-NoProfile", "-Command", "Set-Clipboard -Value 'it''s a test'"]);
}

#[test]
fn get_command_reads_the_clipboard() {
    let c = bridged_get_command();
    assert_eq!(c.program, "powershell.exe");
    assert_eq!(c.args, vec!["get-clipboard"]);
}

#[test]
fn set_result_when_helper_is_missing() {
    let e = bridged_set_result(Err(failure(HelperStage::Spawn))).unwrap_err();
    assert_eq!(e.backend, Backend::Bridged);
    assert_eq!(e.kind, ErrorKind::SpawnFailed);
    assert_eq!(e.message, "boom");
}

#[test]
fn set_result_stream_and_write_failures() {
    assert_eq!(bridged_set_result(Err(failure(HelperStage::Stream))).unwrap_err().kind, ErrorKind::StreamUnavailable);
    assert_eq!(bridged_set_result(Err(failure(HelperStage::Transfer))).unwrap_err().kind, ErrorKind::WriteFailed);
    assert!(bridged_set_result(Ok(())).is_ok());
}

#[test]
fn get_result_trims_the_output() {
    assert_eq!(bridged_get_result(Ok("  copied text\r\n".to_string())).unwrap(), "copied text");
    assert_eq!(bridged_get_result(Ok("a b".to_string())).unwrap(), "a b");
    assert_eq!(bridged_get_result(Ok("\n".to_string())).unwrap(), "");
}

#[test]
fn get_result_failures() {
    let e = bridged_get_result(Err(failure(HelperStage::Spawn))).unwrap_err();
    assert_eq!(e.backend, Backend::Bridged);
    assert_eq!(e.kind, ErrorKind::SpawnFailed);
    assert_eq!(bridged_get_result(Err(failure(HelperStage::Stream))).unwrap_err().kind, ErrorKind::StreamUnavailable);
    assert_eq!(bridged_get_result(Err(failure(HelperStage::Transfer))).unwrap_err().kind, ErrorKind::ReadFailed);
}

#[test]
fn escape_doubles_typographic_quotes() {
    assert_eq!(escape_single_quotes("it\u{2019}s"), "it\u{2019}\u{2019}s");
    assert_eq!(escape_single_quotes("\u{2018}a\u{201a}b\u{201b}"), "\u{2018}\u{2018}a\u{201a}\u{201a}b\u{201b}\u{201b}");
    assert_eq!(escape_single_quotes("\u{201c}x\u{201d}"), "\u{201c}x\u{201d}");
}

#[test]
fn set_command_quotes_typographic_quote() {
    let c = bridged_set_command("\u{2019}");
    assert_eq!(c.args[2], "Set-Clipboard -Value '\u{2019}\u{2019}'");
}

#[test]
fn quote_char_recognition() {
    for c in ['\'', '\u{2018}', '\u{2019}', '\u{201a}', '\u{201b}'] {
        assert!(is_quote_char(c));
    }
    for c in ['"', '`', 'a', '\u{201c}'] {
        assert!(!is_quote_char(c));
    }
}
