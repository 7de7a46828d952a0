use clipboard_anywhere::{
    native_get_text, plan_get, plan_set, Backend, EnvironmentContext, ErrorKind, GetAction, SetAction,
};

fn ctx(compat_layer: bool, remote: Option<&str>) -> EnvironmentContext {
    EnvironmentContext::new(compat_layer, remote.map(|s| s.to_string()))
}

#[test]
fn set_under_both_indicators_runs_the_helper() {
    match plan_set(&ctx(true, Some("host 1 22")), "it's a test") {
        SetAction::RunHelper(c) => {
            assert_eq!(c.program, "powershell.exe");
            assert_eq!(c.args[2], "Set-Clipboard -Value 'it''s a test'");
        }
        _ => panic!("expected the bridged backend"),
    }
}

#[test]
fn set_in_remote_session_writes_the_terminal_sequence() {
    match plan_set(&ctx(false, Some("host 1 22")), "Hello, world!") {
        SetAction::WriteTerminal(s) => assert_eq!(s, "\x1B]52;c;SGVsbG8sIHdvcmxkIQ==\x07"),
        _ => panic!("expected the remote backend"),
    }
}

#[test]
fn set_without_indicators_goes_native() {
    match plan_set(&ctx(false, None), "Hello, world!") {
        SetAction::WriteNative(t) => assert_eq!(t, "Hello, world!"),
        _ => panic!("expected the native backend"),
    }
}

#[test]
fn get_under_both_indicators_runs_the_helper() {
    match plan_get(&ctx(true, Some("host 1 22"))) {
        GetAction::RunHelper(c) => assert_eq!(c.args, vec!["get-clipboard"]),
        _ => panic!("expected the bridged backend"),
    }
}

#[test]
fn get_in_remote_session_fails() {
    match plan_get(&ctx(false, Some("host 1 22"))) {
        GetAction::Fail(e) => {
            assert_eq!(e.backend, Backend::Remote);
            assert_eq!(e.kind, ErrorKind::UnsupportedOperation);
        }
        _ => panic!("expected the remote failure"),
    }
}

#[test]
fn get_without_indicators_goes_native() {
    assert!(matches!(plan_get(&ctx(false, None)), GetAction::ReadNative));
}

#[test]
fn native_failures_are_tagged_native() {
    if let Err(e) = native_get_text() {
        assert_eq!(e.backend, Backend::Native);
        assert!(e.kind == ErrorKind::BackendUnavailable || e.kind == ErrorKind::ReadFailed);
    }
}
