//! Turning the bytes that the native library writes into text.
//!
//! The native library renders a value into a caller-provided buffer as a
//! NUL-terminated string of ASCII digits (and a leading `-` for negatives).
use vstd::prelude::*;

verus! {

/// Why native output could not be turned into text.
#[derive(Clone, Copy, Debug, PartialEq, Eq, Structural)]
pub enum RenderError {
    /// The bytes before the terminator are not valid UTF-8.
    Encoding,
}

/// The text that the UTF-8 decoding of `b` gives, if `b` is valid UTF-8.
pub uninterp spec fn utf8_decoding(b: Seq<u8>) -> Option<Seq<char>>;

/// Every byte of `b` is an ASCII code.
pub open spec fn is_ascii_bytes(b: Seq<u8>) -> bool {
    forall|i: int| 0 <= i < b.len() ==> #[trigger] b[i] < 128
}

/// The characters whose codes are the bytes of `b`.
pub open spec fn ascii_chars(b: Seq<u8>) -> Seq<char> {
    Seq::new(b.len(), |i: int| b[i] as char)
}

/// Relies on String::from_utf8: it succeeds exactly on valid UTF-8, and ASCII
/// bytes, which are valid UTF-8, decode to the characters with those codes.
#[verifier::external_body]
fn decode_utf8(bytes: Vec<u8>) -> (r: Option<String>)
    ensures
        r is Some ==> utf8_decoding(bytes@) == Some(r->0@),
        r is None <==> utf8_decoding(bytes@) is None,
        is_ascii_bytes(bytes@) ==> r is Some && r->0@ == ascii_chars(bytes@),
{
    String::from_utf8(bytes).ok()
}

/// `e` is where the text in `b` ends: at the first NUL byte, or at the end of
/// `b` where it holds none.
pub open spec fn is_text_end(b: Seq<u8>, e: int) -> bool {
    &&& 0 <= e <= b.len()
    &&& forall|j: int| 0 <= j < e ==> #[trigger] b[j] != 0
    &&& (e == b.len() || b[e] == 0)
}

/// The bytes of `b` before its first NUL byte (all of `b` where it holds none).
pub open spec fn text_bytes(b: Seq<u8>) -> Seq<u8> {
    b.subrange(0, choose|e: int| is_text_end(b, e))
}

proof fn lemma_text_end_unique(b: Seq<u8>, e: int)
    requires
        is_text_end(b, e),
    ensures
        text_bytes(b) == b.subrange(0, e),
{
    let c = choose|e: int| is_text_end(b, e);
    assert(is_text_end(b, c));
    if c < e {
        assert(b[c] != 0);
    } else if e < c {
        assert(b[e] != 0);
    }
}

/// A zeroed buffer with room for `digits` digits, a sign and a terminator.
pub fn render_buffer(digits: usize) -> (r: Vec<u8>)
    requires
        digits + 2 <= usize::MAX,
    ensures
        r@.len() == digits + 2,
        forall|i: int| 0 <= i < r@.len() ==> #[trigger] r@[i] == 0,
{
    let mut buf: Vec<u8> = Vec::new();
    let mut i: usize = 0;
    while i < digits + 2
        invariant
            digits + 2 <= usize::MAX,
            i <= digits + 2,
            buf@.len() == i,
            forall|j: int| 0 <= j < buf@.len() ==> #[trigger] buf@[j] == 0,
        decreases digits + 2 - i,
    {
        buf.push(0);
        i += 1;
    }
    buf
}

/// The text that the native library wrote into `buf`: the bytes before the
/// first NUL, decoded as UTF-8.
pub fn rendered_text(buf: &Vec<u8>) -> (r: Result<String, RenderError>)
    ensures
        match r {
            Ok(s) => utf8_decoding(text_bytes(buf@)) == Some(s@),
            Err(e) => e == RenderError::Encoding && utf8_decoding(text_bytes(buf@)) is None,
        },
        is_ascii_bytes(text_bytes(buf@)) ==> r is Ok && r->Ok_0@ == ascii_chars(
            text_bytes(buf@),
        ),
{
    let mut text: Vec<u8> = Vec::new();
    let mut i: usize = 0;
    while i < buf.len() && buf[i] != 0
        invariant
            i <= buf@.len(),
            text@ == buf@.subrange(0, i as int),
            forall|j: int| 0 <= j < i ==> #[trigger] buf@[j] != 0,
        decreases buf@.len() - i,
    {
        text.push(buf[i]);
        i += 1;
    }
    proof {
        lemma_text_end_unique(buf@, i as int);
    }
    match decode_utf8(text) {
        Some(s) => Ok(s),
        None => Err(RenderError::Encoding),
    }
}

} // verus!
