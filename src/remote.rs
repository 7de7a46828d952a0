use vstd::prelude::*;
use vstd::string::StringSliceAdditionalSpecFns;
use crate::context::Backend;
use crate::error::{ClipboardError, ErrorKind};

verus! {

/// The padded standard base64 text of the UTF-8 bytes of `s`.
pub uninterp spec fn base64_of(s: Seq<char>) -> Seq<char>;

/// A character of the standard base64 alphabet, or the padding `=`.
pub open spec fn is_base64_char(c: char) -> bool {
    ('A' <= c && c <= 'Z') || ('a' <= c && c <= 'z') || ('0' <= c && c <= '9') || c == '+' || c == '/'
        || c == '='
}

/// Relies on base64's standard engine (`Engine::encode` on
/// `general_purpose::STANDARD`): the padded base64 text of the string's
/// UTF-8 bytes, which depends on those bytes alone; four characters of the
/// standard alphabet for every three bytes or part of them.
#[verifier::external_body]
fn encode_base64(text: &str) -> (r: String)
    ensures
        r@ == base64_of(text@),
        r@.len() == 4 * ((text.spec_bytes().len() + 2) / 3),
        forall|i: int| 0 <= i < r@.len() ==> is_base64_char(#[trigger] r@[i]),
{
    base64::Engine::encode(&base64::engine::general_purpose::STANDARD, text)
}

/// `ESC ] 52 ; c ;`: the start of an OSC 52 request for the clipboard selection.
pub open spec fn osc52_prefix() -> Seq<char> {
    seq!['\u{1b}', ']', '5', '2', ';', 'c', ';']
}

/// `BEL`: the end of an OSC 52 request.
pub open spec fn osc52_terminator() -> Seq<char> {
    seq!['\u{7}']
}

/// The whole request that asks the terminal to put the text already
/// encoded as `encoded` on its clipboard.
pub open spec fn osc52_frame(encoded: Seq<char>) -> Seq<char> {
    osc52_prefix() + encoded + osc52_terminator()
}

/// Frames base64 text as an OSC 52 request.
pub fn frame_osc52(encoded: &str) -> (r: String)
    ensures
        r@ == osc52_frame(encoded@),
{
    let mut out = String::from_str("\u{1b}]52;c;");
    out.append(encoded);
    out.append("\u{7}");
    proof {
        reveal_strlit("\u{1b}]52;c;");
        reveal_strlit("\u{7}");
        assert(out@ =~= osc52_frame(encoded@));
    }
    out
}

/// The bytes the remote backend writes to standard output to set the
/// clipboard: `ESC ] 52 ; c ; <base64(text)> BEL`. Writing them is left to
/// the caller and is treated as always succeeding.
pub fn osc52_sequence(text: &str) -> (r: String)
    ensures
        r@ == osc52_frame(base64_of(text@)),
{
    let encoded = encode_base64(text);
    frame_osc52(encoded.as_str())
}

/// The failure of every read under the remote backend.
pub fn remote_unsupported() -> (e: ClipboardError)
    ensures
        e.backend == Backend::Remote,
        e.kind == ErrorKind::UnsupportedOperation,
{
    ClipboardError::new(
        Backend::Remote,
        ErrorKind::UnsupportedOperation,
        String::from_str("SSH clipboard not supported"),
    )
}

/// Reading the clipboard of a remote terminal has no protocol: it always fails.
pub fn remote_get_text() -> (r: Result<String, ClipboardError>)
    ensures
        r matches Err(e) && e.backend == Backend::Remote && e.kind == ErrorKind::UnsupportedOperation,
{
    Err(remote_unsupported())
}

} // verus!
