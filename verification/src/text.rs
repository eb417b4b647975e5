use vstd::prelude::*;
use vstd::utf8::encode_utf8;
use vstd::utf8::valid_utf8;

use crate::errors::CipherError;

verus! {

/// The canonical text-safe form of a byte payload: the encoder's output
/// for `data`.  The alphabet takes a table to write out, but the output is
/// a function of the input bytes alone, so it only gets a name here; the
/// trusted wrapper below ties it to the real call.
pub uninterp spec fn base64_form(data: Seq<u8>) -> Seq<u8>;

/// What the text-safe decoder makes of `data`: the decoded payload where
/// `data` is a valid encoding, and nothing otherwise.  Decoding is
/// deterministic, a function of the input bytes alone.
pub uninterp spec fn base64_parse(data: Seq<u8>) -> Option<Seq<u8>>;

/// Holds when decoding `data` yields exactly the text `t`: the bytes parse
/// as a valid text-safe encoding of the UTF-8 form of `t`.
pub open spec fn text_decode_ok(data: Seq<u8>, t: Seq<char>) -> bool {
    base64_parse(data) == Some(encode_utf8(t))
}

/// Relies on base64's Engine::encode with the standard padded alphabet:
/// the output is a function of the input bytes alone, and Engine::decode
/// restores the input from it exactly.
#[verifier::external_body]
fn b64_encode(data: &Vec<u8>) -> (r: Vec<u8>)
    ensures
        r@ == base64_form(data@),
        base64_parse(r@) == Some(data@),
{
    base64::Engine::encode(&base64::engine::general_purpose::STANDARD, data).into_bytes()
}

/// Relies on base64's Engine::decode with the standard padded alphabet:
/// decoding is deterministic in the input bytes, and it fails exactly on
/// inputs that are not a valid encoding.
#[verifier::external_body]
fn b64_decode(data: &Vec<u8>) -> (r: Option<Vec<u8>>)
    ensures
        r matches Some(p) ==> base64_parse(data@) == Some(p@),
        r is None ==> base64_parse(data@) is None,
{
    base64::Engine::decode(&base64::engine::general_purpose::STANDARD, data).ok()
}

/// Relies on String::from_utf8: it succeeds exactly on valid UTF-8 and the
/// characters of the result encode back to the input bytes unchanged.
#[verifier::external_body]
fn bytes_to_string(data: &Vec<u8>) -> (r: Option<String>)
    ensures
        r matches Some(t) ==> encode_utf8(t@) == data@,
        r is Some <==> valid_utf8(data@),
{
    String::from_utf8(data.clone()).ok()
}

/// Encode a string into its canonical byte form for the pipeline: the
/// text-safe encoding of its UTF-8 bytes.  The result decodes back to
/// exactly this string and to no other.
pub fn text_encode(s: &str) -> (r: Vec<u8>)
    ensures
        r@ == base64_form(encode_utf8(s@)),
        text_decode_ok(r@, s@),
        forall|t: Seq<char>| text_decode_ok(r@, t) ==> t == s@,
{
    let bytes: Vec<u8> = vstd::slice::slice_to_vec(s.as_bytes());
    let r = b64_encode(&bytes);
    proof {
        assert forall|t: Seq<char>| text_decode_ok(r@, t) implies t == s@ by {
            vstd::utf8::encode_utf8_decode_utf8(t);
            vstd::utf8::encode_utf8_decode_utf8(s@);
        }
    }
    r
}

/// Decode a byte payload back into the string it canonically encodes.
/// Succeeds exactly on payloads that are a valid text-safe encoding of
/// valid UTF-8, and then returns exactly that string; anything else is a
/// decode failure.
pub fn text_decode(data: &Vec<u8>) -> (r: Result<String, CipherError>)
    ensures
        r matches Ok(t) ==> text_decode_ok(data@, t@),
        r matches Err(e) ==> e == CipherError::Decode && (forall|t: Seq<char>|
            !text_decode_ok(data@, t)),
{
    let decoded = match b64_decode(data) {
        Some(p) => p,
        None => {
            return Err(CipherError::Decode);
        },
    };
    match bytes_to_string(&decoded) {
        Some(t) => Ok(t),
        None => {
            proof {
                assert forall|t: Seq<char>| !text_decode_ok(data@, t) by {
                    if text_decode_ok(data@, t) {
                        vstd::utf8::encode_utf8_valid_utf8(t);
                    }
                }
            }
            Err(CipherError::Decode)
        },
    }
}

} // verus!
