//! The render pipeline: a drained byte snapshot has its terminal control
//! sequences stripped, is decoded as UTF-8, and is put after the configured
//! prefix. Corrupted captures fail the render loudly instead of being decoded
//! lossily or dropped.

use vstd::prelude::*;
use vstd::string::StringExecFns;
use vstd::utf8::{decode_utf8, valid_utf8};

verus! {

/// Why a render failed.
#[derive(Clone, Copy, Debug, PartialEq, Eq, Structural)]
pub enum RenderError {
    /// The captured bytes were not valid UTF-8 once control sequences were
    /// removed.
    InvalidUtf8,
}

/// The bytes that remain of `bytes` once every terminal control/escape
/// sequence is removed. Which byte ranges count as control sequences is
/// decided by the `strip_ansi_escapes` crate; this name stands for its
/// result, which depends on the input bytes alone.
pub uninterp spec fn stripped(bytes: Seq<u8>) -> Seq<u8>;

/// The sanitized form of a drained snapshot: its control sequences removed,
/// and nothing at all when nothing was captured.
pub open spec fn sanitized(bytes: Seq<u8>) -> Seq<u8> {
    if bytes.len() == 0 {
        Seq::empty()
    } else {
        stripped(bytes)
    }
}

/// The characters that the configured prefix contributes to a render.
pub open spec fn prefix_chars(prefix: Option<char>) -> Seq<char> {
    match prefix {
        Some(p) => seq![p],
        None => Seq::empty(),
    }
}

/// What formatting an already-sanitized snapshot returns: the bytes are
/// decoded as UTF-8 and put after the prefix; bytes that are not valid UTF-8
/// fail the render.
pub open spec fn spec_render_sanitized(cleaned: Seq<u8>, prefix: Option<char>) -> Result<
    Seq<char>,
    RenderError,
> {
    if valid_utf8(cleaned) {
        Ok(prefix_chars(prefix) + decode_utf8(cleaned))
    } else {
        Err(RenderError::InvalidUtf8)
    }
}

/// What rendering one drained snapshot returns: its sanitized form, decoded
/// and prefixed.
pub open spec fn spec_render(bytes: Seq<u8>, prefix: Option<char>) -> Result<
    Seq<char>,
    RenderError,
> {
    spec_render_sanitized(sanitized(bytes), prefix)
}

/// The mathematical view of an executable render result.
pub open spec fn render_view(r: Result<String, RenderError>) -> Result<Seq<char>, RenderError> {
    match r {
        Ok(s) => Ok(s@),
        Err(e) => Err(e),
    }
}

/// Formats a snapshot whose control sequences are already stripped: decodes
/// it as UTF-8 and prepends the prefix, if one is set. Fails if and only if
/// the bytes are not valid text.
pub fn render_sanitized(cleaned: Vec<u8>, prefix: Option<char>) -> (r: Result<String, RenderError>)
    ensures
        render_view(r) == spec_render_sanitized(cleaned@, prefix),
{
    match decode_text(cleaned) {
        None => Err(RenderError::InvalidUtf8),
        Some(text) => {
            match prefix {
                None => {
                    proof {
                        assert(prefix_chars(None) + text@ =~= text@);
                    }
                    Ok(text)
                },
                Some(p) => {
                    let mut out = String::new();
                    push_char(&mut out, p);
                    out.append(text.as_str());
                    proof {
                        assert(out@ =~= prefix_chars(Some(p)) + text@);
                    }
                    Ok(out)
                },
            }
        },
    }
}

/// Renders one drained snapshot: strips terminal control sequences, decodes
/// the remaining bytes as UTF-8, and prepends the prefix, if one is set. The
/// result is exactly what [`spec_render`] says: the sanitized text on
/// success, and a failure if and only if the sanitized bytes are not valid
/// text.
pub fn render_bytes(bytes: &Vec<u8>, prefix: Option<char>) -> (r: Result<String, RenderError>)
    ensures
        render_view(r) == spec_render(bytes@, prefix),
{
    let cleaned = strip_control_sequences(bytes);
    render_sanitized(cleaned, prefix)
}

/// An empty capture renders to the prefix alone: a second render with no
/// intervening writes, or a render right after a clear, yields only the
/// configured prefix, and the empty string when the prefix is removed.
pub proof fn lemma_render_of_empty_capture(prefix: Option<char>)
    ensures
        spec_render(Seq::empty(), prefix) == Ok::<Seq<char>, RenderError>(prefix_chars(prefix)),
{
    let empty = Seq::<u8>::empty();
    assert(sanitized(empty) =~= empty);
    assert(valid_utf8(empty));
    assert(decode_utf8(empty) =~= Seq::<char>::empty());
    assert(prefix_chars(prefix) + decode_utf8(sanitized(empty)) =~= prefix_chars(prefix));
}

/// The configured prefix is prepended exactly once, at the front of the whole
/// rendered string; without a prefix the render is the sanitized, decoded
/// capture alone. Whether a render succeeds does not depend on the prefix.
pub proof fn lemma_prefix_prepended_once(bytes: Seq<u8>, p: char)
    ensures
        spec_render(bytes, Some(p)) is Ok <==> spec_render(bytes, None) is Ok,
        spec_render(bytes, Some(p)) matches Ok(t) ==> (spec_render(bytes, None) matches Ok(u)
            && t == seq![p] + u),
{
    if valid_utf8(sanitized(bytes)) {
        let decoded = decode_utf8(sanitized(bytes));
        assert(prefix_chars(None) + decoded =~= decoded);
        assert(prefix_chars(Some(p)) + decoded =~= seq![p] + decoded);
    }
}

/// Relies on `strip_ansi_escapes::strip`: the result holds the bytes that
/// remain once terminal control/escape sequences are removed, in order — a
/// function of the input bytes alone, and of no bytes nothing remains. The
/// call cannot fail: its only error source is writing into an in-memory
/// buffer, which always succeeds.
#[verifier::external_body]
fn strip_control_sequences(bytes: &Vec<u8>) -> (r: Vec<u8>)
    ensures
        r@ == sanitized(bytes@),
        bytes@.len() > 0 ==> r@ == stripped(bytes@),
{
    strip_ansi_escapes::strip(bytes.as_slice()).expect("stripping into a memory buffer cannot fail")
}

/// Relies on `String::from_utf8`: succeeds exactly on valid UTF-8 input and
/// returns the characters that the bytes encode.
#[verifier::external_body]
fn decode_text(bytes: Vec<u8>) -> (r: Option<String>)
    ensures
        r matches Some(s) ==> valid_utf8(bytes@) && s@ == decode_utf8(bytes@),
        r is None ==> !valid_utf8(bytes@),
{
    String::from_utf8(bytes).ok()
}

/// Relies on `String::push`: appends the given character at the end.
#[verifier::external_body]
fn push_char(s: &mut String, c: char)
    ensures
        final(s)@ == old(s)@.push(c),
{
    s.push(c)
}

} // verus!
