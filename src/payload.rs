//! Truncation of serialized payloads on a UTF-8 character boundary.

use vstd::prelude::*;
use vstd::utf8::*;

use crate::repr::{document_representation, rendering, SerializedKind};

verus! {

broadcast use vstd::string::group_string_axioms;

/// The smallest character boundary of `bytes` at or after byte `n`, or the
/// length of `bytes` when `n` lies past its end.
pub open spec fn ceil_char_boundary(bytes: Seq<u8>, n: nat) -> nat
    decreases bytes.len() - n,
{
    if n >= bytes.len() {
        bytes.len()
    } else if is_char_boundary(bytes, n as int) {
        n
    } else {
        ceil_char_boundary(bytes, n + 1)
    }
}

/// The UTF-8 bytes that remain of `s` after truncating it to a budget of `n` bytes.
pub open spec fn truncated_bytes(s: Seq<char>, n: nat) -> Seq<u8> {
    encode_utf8(s).subrange(0, ceil_char_boundary(encode_utf8(s), n) as int)
}

proof fn lemma_ceil_char_boundary(bytes: Seq<u8>, n: nat)
    requires
        valid_utf8(bytes),
    ensures
        n <= bytes.len() ==> n <= ceil_char_boundary(bytes, n),
        ceil_char_boundary(bytes, n) <= bytes.len(),
        is_char_boundary(bytes, ceil_char_boundary(bytes, n) as int),
        forall|j: int|
            n <= j < ceil_char_boundary(bytes, n) ==> !is_char_boundary(bytes, j),
    decreases bytes.len() - n,
{
    is_char_boundary_start_end_of_seq(bytes);
    if n < bytes.len() && !is_char_boundary(bytes, n as int) {
        lemma_ceil_char_boundary(bytes, n + 1);
    }
}

/// Truncation never splits a character: whatever the budget, the result is valid
/// UTF-8, no longer than the input, at least as long as the budget allows, and it
/// ends on the first character boundary of the input at or after the budget.
pub proof fn lemma_truncation_is_utf8_safe(s: Seq<char>, n: nat)
    ensures
        valid_utf8(truncated_bytes(s, n)),
        truncated_bytes(s, n).len() <= encode_utf8(s).len(),
        truncated_bytes(s, n).len() >= if n <= encode_utf8(s).len() {
            n
        } else {
            encode_utf8(s).len()
        },
        is_char_boundary(encode_utf8(s), truncated_bytes(s, n).len() as int),
        forall|j: int|
            n <= j < truncated_bytes(s, n).len() ==> !is_char_boundary(encode_utf8(s), j),
{
    let bytes = encode_utf8(s);
    encode_utf8_valid_utf8(s);
    lemma_ceil_char_boundary(bytes, n);
    valid_utf8_split(bytes, ceil_char_boundary(bytes, n) as int);
}

/// A budget that covers the whole string leaves it unchanged.
pub proof fn lemma_truncation_identity(s: Seq<char>, n: nat)
    requires
        n >= encode_utf8(s).len(),
    ensures
        truncated_bytes(s, n) == encode_utf8(s),
        decode_utf8(truncated_bytes(s, n)) == s,
{
    let bytes = encode_utf8(s);
    assert(bytes.subrange(0, bytes.len() as int) =~= bytes);
    encode_utf8_decode_utf8(s);
}

/// The text that remains of `s` after truncating it to a budget of `n` bytes.
pub open spec fn truncated_text(s: Seq<char>, n: nat) -> Seq<char> {
    decode_utf8(truncated_bytes(s, n))
}

/// Relies on `String::truncate`: cutting at a character boundary keeps exactly
/// the bytes before it.
#[verifier::external_body]
fn truncate_string(s: &mut String, new_len: usize)
    requires
        new_len <= encode_utf8(old(s)@).len(),
        is_char_boundary(encode_utf8(old(s)@), new_len as int),
    ensures
        encode_utf8(final(s)@) == encode_utf8(old(s)@).subrange(0, new_len as int),
{
    s.truncate(new_len)
}

/// Shortens `s` to the smallest character boundary at or after `new_len` bytes.
/// A string of at most `new_len` bytes is left as it is.
pub fn truncate_on_char_boundary(s: &mut String, new_len: usize)
    ensures
        encode_utf8(final(s)@) == truncated_bytes(old(s)@, new_len as nat),
        final(s)@ == truncated_text(old(s)@, new_len as nat),
        encode_utf8(old(s)@).len() <= new_len ==> final(s)@ == old(s)@,
{
    let ghost bytes = encode_utf8(s@);
    proof {
        encode_utf8_valid_utf8(s@);
        is_char_boundary_start_end_of_seq(bytes);
    }
    let len = s.as_str().as_bytes().len();
    if len > new_len {
        let mut i: usize = new_len;
        while !s.as_str().is_char_boundary(i)
            invariant
                new_len <= i <= len,
                len == bytes.len(),
                bytes == encode_utf8(s@),
                is_char_boundary(bytes, len as int),
                ceil_char_boundary(bytes, new_len as nat) == ceil_char_boundary(bytes, i as nat),
            decreases len - i,
        {
            i = i + 1;
        }
        truncate_string(s, i);
        proof {
            encode_utf8_decode_utf8(s@);
        }
    } else {
        proof {
            encode_utf8_decode_utf8(s@);
        }
        assert(bytes.subrange(0, bytes.len() as int) =~= bytes);
    }
}

/// The canonical extended JSON of a BSON document (or the fallback text when
/// it does not decode), truncated on a character boundary at or after
/// `max_length_bytes` bytes.
pub fn serialize_command_or_reply(document: &[u8], max_length_bytes: usize) -> (r: String)
    ensures
        r@ == truncated_text(rendering(SerializedKind::Document, document@), max_length_bytes as nat),
{
    let mut ext_json = document_representation(SerializedKind::Document, document);
    truncate_on_char_boundary(&mut ext_json, max_length_bytes);
    ext_json
}

} // verus!
