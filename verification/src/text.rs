//! Fixed-width legacy text fields.
//!
//! A text field occupies exactly 34 bytes in the buffer. The bytes before the
//! first zero byte of that window are legacy-encoded (Shift JIS) text; the
//! cursor always advances by the full 34 bytes.

use vstd::prelude::*;

use crate::error::EclError;

verus! {

/// The text that encoding_rs's Shift JIS decode yields for a byte sequence.
/// The result depends on the input bytes alone (malformed sequences become
/// replacement characters, deterministically).
pub uninterp spec fn sjis_decode_of(bytes: Seq<u8>) -> Seq<char>;

/// Index of the first zero byte of `s`, or `s.len()` if there is none.
pub open spec fn first_zero(s: Seq<u8>) -> int
    decreases s.len(),
{
    if s.len() == 0 {
        0
    } else if s[0] == 0 {
        0
    } else {
        1 + first_zero(s.drop_first())
    }
}

/// `first_zero` names the least index holding a zero byte.
pub proof fn lemma_first_zero(s: Seq<u8>)
    ensures
        0 <= first_zero(s) <= s.len(),
        forall|i: int| 0 <= i < first_zero(s) ==> s[i] != 0,
        first_zero(s) < s.len() ==> s[first_zero(s)] == 0,
    decreases s.len(),
{
    if s.len() == 0 {
    } else if s[0] == 0 {
    } else {
        lemma_first_zero(s.drop_first());
        assert forall|i: int| 0 <= i < first_zero(s) implies s[i] != 0 by {
            if i > 0 {
                assert(s.drop_first()[i - 1] == s[i]);
            }
        }
        if first_zero(s) < s.len() {
            assert(s.drop_first()[first_zero(s.drop_first())] == s[first_zero(s)]);
        }
    }
}

/// The 34-byte window of a text field starting at `p`.
pub open spec fn spec_text_window(b: Seq<u8>, p: int) -> Seq<u8> {
    b.subrange(p, p + 34)
}

/// The decoded text of the field at `p`: the window truncated at its first
/// zero byte, put through the legacy decoding.
pub open spec fn spec_text_at(b: Seq<u8>, p: int) -> Seq<char> {
    let w = spec_text_window(b, p);
    sjis_decode_of(w.take(first_zero(w)))
}

/// Relies on `encoding_rs::SHIFT_JIS.decode`: a pure function of the input
/// bytes, replacing malformed sequences with the replacement character.
#[verifier::external_body]
fn decode_shift_jis(bytes: &[u8]) -> (r: String)
    requires
        bytes@.len() < 0x10000000,
    ensures
        r@ == sjis_decode_of(bytes@),
{
    let (text, _encoding, _replaced) = encoding_rs::SHIFT_JIS.decode(bytes);
    text.into_owned()
}

/// Decode the 34-byte text field at `pos`, returning the text and the cursor
/// position just past the window.
pub fn le_string(data: &[u8], pos: usize) -> (r: Result<(String, usize), EclError>)
    ensures
        (r matches Ok(_)) == (pos + 34 <= data@.len()),
        r matches Ok(sq) ==> (sq.1 == pos + 34 && sq.0@ == spec_text_at(data@, pos as int)),
        r matches Err(e) ==> e == EclError::Truncated,
{
    if data.len() < pos || data.len() - pos < 34 {
        return Err(EclError::Truncated);
    }
    let ghost w = spec_text_window(data@, pos as int);
    let limit: usize = pos + 34;
    let mut end: usize = pos;
    while end < limit && data[end] != 0
        invariant
            pos <= end <= limit,
            limit == pos + 34,
            pos + 34 <= data@.len(),
            forall|i: int| pos <= i < end ==> data@[i] != 0,
        decreases limit - end,
    {
        end = end + 1;
    }
    proof {
        lemma_first_zero(w);
        assert forall|i: int| 0 <= i < end - pos implies w[i] != 0 by {
            assert(w[i] == data@[pos + i]);
        }
        if end < pos + 34 {
            assert(w[end - pos] == data@[end as int]);
        }
        if end - pos < first_zero(w) {
            assert(w[end - pos] != 0);
            assert(end < pos + 34);
            assert(false);
        }
        if end - pos > first_zero(w) {
            assert(w[first_zero(w)] == data@[pos + first_zero(w)]);
            assert(false);
        }
        assert(end - pos == first_zero(w));
    }
    let chunk = vstd::slice::slice_subrange(data, pos, end);
    proof {
        assert(chunk@ =~= w.take(first_zero(w)));
    }
    let s = decode_shift_jis(chunk);
    Ok((s, pos + 34))
}

} // verus!
