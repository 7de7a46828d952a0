use vstd::prelude::*;
use crate::context::Backend;
use crate::error::{ClipboardError, ErrorKind};

verus! {

/// The characters PowerShell takes as a single quote: the ASCII apostrophe
/// and the four typographic single quotes U+2018 to U+201B.
pub open spec fn is_single_quote(c: char) -> bool {
    c == '\'' || c == '\u{2018}' || c == '\u{2019}' || c == '\u{201a}' || c == '\u{201b}'
}

/// One character as it is written inside a single-quoted PowerShell string:
/// a single quote of any kind is doubled, anything else stands as it is.
pub open spec fn escaped_char(c: char) -> Seq<char> {
    if is_single_quote(c) {
        seq![c, c]
    } else {
        seq![c]
    }
}

/// `s` with every single quote, of any of the five kinds, doubled, as
/// PowerShell reads a literal quote inside a single-quoted string.
pub open spec fn escape_quotes(s: Seq<char>) -> Seq<char>
    decreases s.len(),
{
    if s.len() == 0 {
        Seq::empty()
    } else {
        escaped_char(s[0]) + escape_quotes(s.drop_first())
    }
}

/// What PowerShell reads as the content of a single-quoted string whose body
/// is `t`: two single quotes in a row, of any kinds, are one quote (the
/// second of them), and a lone one would end the string early, which is
/// `None`.
pub open spec fn read_quoted(t: Seq<char>) -> Option<Seq<char>>
    decreases t.len(),
{
    if t.len() == 0 {
        Some(Seq::empty())
    } else if is_single_quote(t[0]) {
        if t.len() >= 2 && is_single_quote(t[1]) {
            match read_quoted(t.subrange(2, t.len() as int)) {
                Some(rest) => Some(seq![t[1]] + rest),
                None => None,
            }
        } else {
            None
        }
    } else {
        match read_quoted(t.drop_first()) {
            Some(rest) => Some(seq![t[0]] + rest),
            None => None,
        }
    }
}

proof fn lemma_escape_push(s: Seq<char>, c: char)
    ensures
        escape_quotes(s.push(c)) == escape_quotes(s) + escaped_char(c),
    decreases s.len(),
{
    if s.len() == 0 {
        assert(s.push(c).drop_first() =~= s);
        assert(escape_quotes(s.push(c)) =~= escape_quotes(s) + escaped_char(c));
    } else {
        assert(s.push(c).drop_first() =~= s.drop_first().push(c));
        lemma_escape_push(s.drop_first(), c);
        assert(escape_quotes(s.push(c)) =~= escape_quotes(s) + escaped_char(c));
    }
}

/// Escaping never lets a quote end the string early: PowerShell reads the
/// escaped text between single quotes back as exactly the unescaped text.
pub proof fn escaped_text_reads_back(s: Seq<char>)
    ensures
        read_quoted(escape_quotes(s)) == Some(s),
    decreases s.len(),
{
    if s.len() > 0 {
        escaped_text_reads_back(s.drop_first());
        let t = escape_quotes(s);
        if is_single_quote(s[0]) {
            assert(t.subrange(2, t.len() as int) =~= escape_quotes(s.drop_first()));
        } else {
            assert(t.drop_first() =~= escape_quotes(s.drop_first()));
        }
        assert(s =~= seq![s[0]] + s.drop_first());
    }
}

/// `s` with the leading and trailing whitespace of `str::trim` removed.
pub uninterp spec fn trimmed(s: Seq<char>) -> Seq<char>;

/// Relies on String::push: the character is appended at the end.
#[verifier::external_body]
fn push_char(s: &mut String, c: char)
    ensures
        final(s)@ == old(s)@.push(c),
{
    s.push(c)
}

/// Relies on str::trim: the string without its leading and trailing
/// whitespace, which depends on the characters alone and is never longer
/// than them.
#[verifier::external_body]
fn trim_text(s: &str) -> (r: String)
    ensures
        r@ == trimmed(s@),
        r@.len() <= s@.len(),
{
    s.trim().to_string()
}

/// Whether PowerShell takes `c` as a single quote.
pub fn is_quote_char(c: char) -> (r: bool)
    ensures
        r == is_single_quote(c),
{
    c == '\'' || c == '\u{2018}' || c == '\u{2019}' || c == '\u{201a}' || c == '\u{201b}'
}

/// Doubles every single quote of `text`, so that the text can stand inside a
/// single-quoted PowerShell string without ending it.
pub fn escape_single_quotes(text: &str) -> (r: String)
    ensures
        r@ == escape_quotes(text@),
{
    broadcast use vstd::string::axiom_spec_iter;
    let mut out = String::new();
    for c in it: text.chars()
        invariant
            it.seq() == text@,
            out@ == escape_quotes(text@.take(it.index())),
    {
        proof {
            let i = it.index();
            assert(text@.take(i + 1) =~= text@.take(i).push(c));
            lemma_escape_push(text@.take(i), c);
        }
        if is_quote_char(c) {
            push_char(&mut out, c);
            push_char(&mut out, c);
        } else {
            push_char(&mut out, c);
        }
    }
    proof {
        assert(text@.take(text@.len() as int) =~= text@);
    }
    out
}

/// A host helper to launch: a program and its arguments.
pub struct HelperCommand {
    pub program: String,
    pub args: Vec<String>,
}

/// The host helper that prints and sets the Windows clipboard.
pub open spec fn helper_program() -> Seq<char> {
    "powershell.exe"@
}

/// The PowerShell command that sets the clipboard to `text`.
pub open spec fn set_script(text: Seq<char>) -> Seq<char> {
    "Set-Clipboard -Value '"@ + escape_quotes(text) + "'"@
}

/// The command that sets the host clipboard to `text`: PowerShell, without
/// its profile, running `Set-Clipboard` on the text as a quoted literal.
pub fn bridged_set_command(text: &str) -> (r: HelperCommand)
    ensures
        r.program@ == helper_program(),
        r.args@.len() == 3,
        r.args@[0]@ == "-NoProfile"@,
        r.args@[1]@ == "-Command"@,
        r.args@[2]@ == set_script(text@),
{
    let escaped = escape_single_quotes(text);
    let mut script = String::from_str("Set-Clipboard -Value '");
    script.append(escaped.as_str());
    script.append("'");
    let mut args: Vec<String> = Vec::new();
    args.push(String::from_str("-NoProfile"));
    args.push(String::from_str("-Command"));
    args.push(script);
    HelperCommand { program: String::from_str("powershell.exe"), args }
}

/// The command that prints the host clipboard: PowerShell running `get-clipboard`.
pub fn bridged_get_command() -> (r: HelperCommand)
    ensures
        r.program@ == helper_program(),
        r.args@.len() == 1,
        r.args@[0]@ == "get-clipboard"@,
{
    let mut args: Vec<String> = Vec::new();
    args.push(String::from_str("get-clipboard"));
    HelperCommand { program: String::from_str("powershell.exe"), args }
}

/// Where running a helper went wrong.
#[derive(Clone, Copy, Debug, PartialEq, Eq, Structural)]
pub enum HelperStage {
    /// The process could not be launched (for instance, it is not on the path).
    Spawn,
    /// Its input or output channel could not be obtained.
    Stream,
    /// Moving the payload to it, or its output back, failed.
    Transfer,
}

/// A failure to run a helper, as told by whoever ran it.
pub struct HelperFailure {
    pub stage: HelperStage,
    pub message: String,
}

/// The error kind of a failed helper run that was to set the clipboard.
pub open spec fn set_failure_kind(stage: HelperStage) -> ErrorKind {
    match stage {
        HelperStage::Spawn => ErrorKind::SpawnFailed,
        HelperStage::Stream => ErrorKind::StreamUnavailable,
        HelperStage::Transfer => ErrorKind::WriteFailed,
    }
}

/// The error kind of a failed helper run that was to read the clipboard.
pub open spec fn get_failure_kind(stage: HelperStage) -> ErrorKind {
    match stage {
        HelperStage::Spawn => ErrorKind::SpawnFailed,
        HelperStage::Stream => ErrorKind::StreamUnavailable,
        HelperStage::Transfer => ErrorKind::ReadFailed,
    }
}

/// The result of the bridged set, from what running its helper gave.
pub fn bridged_set_result(outcome: Result<(), HelperFailure>) -> (r: Result<(), ClipboardError>)
    ensures
        outcome is Ok <==> r is Ok,
        outcome matches Err(f) ==> (r matches Err(e) && e.backend == Backend::Bridged
            && e.kind == set_failure_kind(f.stage) && e.message@ == f.message@),
{
    match outcome {
        Ok(()) => Ok(()),
        Err(f) => {
            let kind = match f.stage {
                HelperStage::Spawn => ErrorKind::SpawnFailed,
                HelperStage::Stream => ErrorKind::StreamUnavailable,
                HelperStage::Transfer => ErrorKind::WriteFailed,
            };
            Err(ClipboardError::new(Backend::Bridged, kind, f.message))
        },
    }
}

/// The result of the bridged get, from what running its helper gave: the
/// captured output without its surrounding whitespace, or the tagged failure.
pub fn bridged_get_result(outcome: Result<String, HelperFailure>) -> (r: Result<String, ClipboardError>)
    ensures
        outcome is Ok <==> r is Ok,
        outcome matches Ok(out) ==> (r matches Ok(t) && t@ == trimmed(out@)),
        outcome matches Err(f) ==> (r matches Err(e) && e.backend == Backend::Bridged
            && e.kind == get_failure_kind(f.stage) && e.message@ == f.message@),
{
    match outcome {
        Ok(out) => Ok(trim_text(out.as_str())),
        Err(f) => {
            let kind = match f.stage {
                HelperStage::Spawn => ErrorKind::SpawnFailed,
                HelperStage::Stream => ErrorKind::StreamUnavailable,
                HelperStage::Transfer => ErrorKind::ReadFailed,
            };
            Err(ClipboardError::new(Backend::Bridged, kind, f.message))
        },
    }
}

} // verus!
