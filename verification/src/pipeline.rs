use vstd::prelude::*;
use vstd::utf8::encode_utf8;

use crate::codec::compress;
use crate::codec::compressed_form;
use crate::codec::decompress;
use crate::codec::decompressed_form;
use crate::errors::CipherError;
use crate::text::base64_parse;
use crate::text::text_decode;
use crate::text::text_encode;
use crate::xor::lemma_xor_involution;
use crate::xor::mask;
use crate::xor::unmask;
use crate::xor::xor_seq;

verus! {

/// What is being encrypted: a literal string, or a file's raw bytes (the
/// caller reads the file; the pipeline only ever sees the bytes).
pub enum Input {
    Text(String),
    File(Vec<u8>),
}

/// Holds when `(cipher, key)` is a well-formed encryption of the plaintext
/// buffer `plain`: the two have equal length, unmasking the cipher with
/// the key gives the compressor's stream for `plain`, and decompressing
/// that stream gives `plain` back.
pub open spec fn valid_cipher_for(cipher: Seq<u8>, key: Seq<u8>, plain: Seq<u8>) -> bool {
    &&& cipher.len() == key.len()
    &&& xor_seq(cipher, key) == compressed_form(plain)
    &&& decompressed_form(compressed_form(plain)) == Some(plain)
}

/// Holds when `(cipher, key)` is a well-formed encryption of the text `s`:
/// unmasking and decompressing yields some buffer that decodes to exactly
/// `s`.
pub open spec fn text_cipher_for(cipher: Seq<u8>, key: Seq<u8>, s: Seq<char>) -> bool {
    exists|m: Seq<u8>|
        {
            &&& #[trigger] valid_cipher_for(cipher, key, m)
            &&& base64_parse(m) == Some(encode_utf8(s))
        }
}

/// Encrypt an input: encode it to its canonical plaintext buffer (text is
/// text-safe encoded, file bytes pass as they are), compress that buffer,
/// and XOR-mask the result with a fresh random key.  On success the
/// cipher/key pair is a well-formed encryption of the input, so decrypting
/// it with the matching mode is guaranteed to give the input back; the
/// only failure is an internal compressor fault.
pub fn encrypt(input: Input) -> (r: Result<(Vec<u8>, Vec<u8>), CipherError>)
    ensures
        r matches Ok(ck) ==> match input {
            Input::Text(s) => text_cipher_for(ck.0@, ck.1@, s@),
            Input::File(b) => valid_cipher_for(ck.0@, ck.1@, b@),
        },
        r matches Err(e) ==> e == CipherError::Compression,
{
    let plain: Vec<u8> = match input {
        Input::Text(s) => text_encode(s.as_str()),
        Input::File(b) => b,
    };
    let compressed = match compress(&plain) {
        Ok(c) => c,
        Err(e) => {
            return Err(e);
        },
    };
    let (cipher, key) = mask(&compressed);
    proof {
        lemma_xor_involution(compressed@, key@);
        assert(valid_cipher_for(cipher@, key@, plain@));
    }
    Ok((cipher, key))
}

/// Decrypt a cipher/key pair back to file bytes: unmask, then decompress.
/// The contract is exact: a length mismatch is rejected as such, a pair
/// whose unmasked buffer is not a validly framed compressed stream is
/// rejected as corruption, and everything else yields exactly the decoded
/// payload.  In particular every well-formed encryption of a buffer `p`
/// decrypts to exactly `p`.
pub fn decrypt_file(cipher: &Vec<u8>, key: &Vec<u8>) -> (r: Result<Vec<u8>, CipherError>)
    ensures
        r matches Ok(p) ==> cipher@.len() == key@.len() && decompressed_form(
            xor_seq(cipher@, key@),
        ) == Some(p@),
        r matches Err(e) ==> {
            ||| (e == CipherError::LengthMismatch && cipher@.len() != key@.len())
            ||| (e == CipherError::Decompression && cipher@.len() == key@.len()
                && decompressed_form(xor_seq(cipher@, key@)) is None)
        },
        forall|p: Seq<u8>|
            valid_cipher_for(cipher@, key@, p) ==> (r matches Ok(q) && q@ == p),
{
    let masked = match unmask(cipher, key) {
        Ok(m) => m,
        Err(e) => {
            return Err(e);
        },
    };
    match decompress(&masked) {
        Ok(p) => Ok(p),
        Err(e) => Err(e),
    }
}

/// Decrypt a cipher/key pair back to the text it encrypts: unmask,
/// decompress, then decode the canonical text encoding.  The contract is
/// exact: each error kind comes on exactly the inputs that fail its
/// stage, and every well-formed encryption of a string `s` decrypts to
/// exactly `s`.
pub fn decrypt_text(cipher: &Vec<u8>, key: &Vec<u8>) -> (r: Result<String, CipherError>)
    ensures
        r matches Ok(t) ==> cipher@.len() == key@.len() && (decompressed_form(
            xor_seq(cipher@, key@),
        ) matches Some(m) && crate::text::text_decode_ok(m, t@)),
        r matches Err(e) ==> {
            ||| (e == CipherError::LengthMismatch && cipher@.len() != key@.len())
            ||| (e == CipherError::Decompression && cipher@.len() == key@.len()
                && decompressed_form(xor_seq(cipher@, key@)) is None)
            ||| (e == CipherError::Decode && cipher@.len() == key@.len() && (decompressed_form(
                xor_seq(cipher@, key@),
            ) matches Some(m) && forall|t: Seq<char>| !crate::text::text_decode_ok(m, t)))
        },
        forall|s: Seq<char>|
            text_cipher_for(cipher@, key@, s) ==> (r matches Ok(t) && t@ == s),
{
    let masked = match unmask(cipher, key) {
        Ok(m) => m,
        Err(e) => {
            return Err(e);
        },
    };
    let plain = match decompress(&masked) {
        Ok(p) => p,
        Err(e) => {
            return Err(e);
        },
    };
    match text_decode(&plain) {
        Ok(t) => {
            proof {
                assert forall|s: Seq<char>| text_cipher_for(cipher@, key@, s) implies t@ == s by {
                    let m = choose|m: Seq<u8>|
                        valid_cipher_for(cipher@, key@, m) && base64_parse(m) == Some(
                            encode_utf8(s),
                        );
                    assert(plain@ == m);
                    vstd::utf8::encode_utf8_decode_utf8(t@);
                    vstd::utf8::encode_utf8_decode_utf8(s);
                }
            }
            Ok(t)
        },
        Err(e) => {
            proof {
                assert forall|s: Seq<char>| !text_cipher_for(cipher@, key@, s) by {
                    if text_cipher_for(cipher@, key@, s) {
                        let m = choose|m: Seq<u8>|
                            valid_cipher_for(cipher@, key@, m) && base64_parse(m) == Some(
                                encode_utf8(s),
                            );
                        assert(plain@ == m);
                        assert(crate::text::text_decode_ok(plain@, s));
                    }
                }
            }
            Err(e)
        },
    }
}

} // verus!
