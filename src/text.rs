//! Text carried over the channel: UTF-8 in both directions.
use vstd::prelude::*;
use vstd::utf8::*;

verus! {

broadcast use group_utf8_lib;

/// Relies on `String::from_utf8`: it accepts exactly the valid UTF-8 byte
/// sequences and keeps the characters they encode.
#[verifier::external_body]
fn string_from_utf8(bytes: Vec<u8>) -> (r: Option<String>)
    ensures
        r is Some <==> valid_utf8(bytes@),
        r matches Some(s) ==> s@ == decode_utf8(bytes@),
{
    String::from_utf8(bytes).ok()
}

/// Characters are encoded one after another.
pub proof fn lemma_encode_concat(a: Seq<char>, b: Seq<char>)
    ensures
        encode_utf8(a + b) == encode_utf8(a) + encode_utf8(b),
    decreases a.len(),
{
    if a.len() == 0 {
        assert(a + b =~= b);
        assert(encode_utf8(a) + encode_utf8(b) =~= encode_utf8(b));
    } else {
        assert((a + b).drop_first() =~= a.drop_first() + b);
        assert((a + b)[0] == a[0]);
        lemma_encode_concat(a.drop_first(), b);
        assert(encode_utf8(a + b) =~= encode_utf8(a) + encode_utf8(b));
    }
}

/// The string whose encoding is `bytes`.
pub(crate) fn string_from_encoding(bytes: Vec<u8>, Ghost(chars): Ghost<Seq<char>>) -> (r: String)
    requires
        bytes@ == encode_utf8(chars),
    ensures
        r@ == chars,
{
    match string_from_utf8(bytes) {
        Some(s) => s,
        None => {
            proof {
                assert(valid_utf8(encode_utf8(chars)));
            }
            String::new()
        },
    }
}

/// Appends a byte sequence.
pub(crate) fn push_bytes(out: &mut Vec<u8>, s: &[u8])
    ensures
        final(out)@ == old(out)@ + s@,
{
    let mut i: usize = 0;
    while i < s.len()
        invariant
            i <= s@.len(),
            out@ == old(out)@ + s@.subrange(0, i as int),
        decreases s@.len() - i,
    {
        out.push(s[i]);
        i = i + 1;
        proof {
            assert(out@ =~= old(out)@ + s@.subrange(0, i as int));
        }
    }
    proof {
        assert(s@.subrange(0, i as int) =~= s@);
    }
}

/// The text `a` followed by the text `b`.
pub fn join_text(a: &str, b: &str) -> (r: String)
    ensures
        r@ == a@ + b@,
{
    let mut bytes = vstd::slice::slice_to_vec(a.as_bytes());
    push_bytes(&mut bytes, b.as_bytes());
    proof {
        lemma_encode_concat(a@, b@);
    }
    string_from_encoding(bytes, Ghost(a@ + b@))
}

/// The bytes that carry `s` over the channel.
pub fn encode_text(s: &str) -> (r: Vec<u8>)
    ensures
        r@ == encode_utf8(s@),
{
    vstd::slice::slice_to_vec(s.as_bytes())
}

/// Reads received bytes as text; fails exactly when they are not valid UTF-8.
pub fn decode_text(bytes: Vec<u8>) -> (r: Result<String, crate::error::IpcError>)
    ensures
        r is Ok <==> valid_utf8(bytes@),
        r matches Ok(s) ==> s@ == decode_utf8(bytes@),
        r matches Err(e) ==> e is InvalidUtf8,
{
    match string_from_utf8(bytes) {
        Some(s) => Ok(s),
        None => Err(crate::error::IpcError::InvalidUtf8),
    }
}

/// Text sent as its bytes and read back from all of them is the text that was sent.
pub proof fn text_round_trip(s: Seq<char>)
    ensures
        valid_utf8(encode_utf8(s)),
        decode_utf8(encode_utf8(s)) == s,
{
}

} // verus!
