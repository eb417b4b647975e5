use vstd::prelude::*;

use crate::errors::CipherError;

verus! {

/// The byte stream that the compressor produces for `data`.  What those
/// bytes look like takes the whole format to state, but for a fixed
/// compressor build and level they are a function of the input alone, so
/// they only get a name here; the trusted wrapper below ties it to the
/// real call.
pub uninterp spec fn compressed_form(data: Seq<u8>) -> Seq<u8>;

/// What the decompressor makes of `data`: the decoded payload where `data`
/// is a validly framed compressed stream, and nothing otherwise.  Decoding
/// is deterministic, a function of the input bytes alone.
pub uninterp spec fn decompressed_form(data: Seq<u8>) -> Option<Seq<u8>>;

/// Relies on zstd::bulk::compress at the default level: the output is a
/// function of the input bytes alone, and decoding it restores the input
/// exactly (lossless compression, for every input including the empty one).
#[verifier::external_body]
fn zstd_compress(data: &Vec<u8>) -> (r: Option<Vec<u8>>)
    ensures
        r matches Some(c) ==> c@ == compressed_form(data@) && decompressed_form(c@) == Some(
            data@,
        ),
{
    zstd::bulk::compress(data.as_slice(), 0).ok()
}

/// Relies on zstd::stream::decode_all: decoding is deterministic in the
/// input bytes, and it fails exactly on inputs that are not a validly
/// framed compressed stream.
#[verifier::external_body]
fn zstd_decompress(data: &Vec<u8>) -> (r: Option<Vec<u8>>)
    ensures
        r matches Some(p) ==> decompressed_form(data@) == Some(p@),
        r is None ==> decompressed_form(data@) is None,
{
    zstd::stream::decode_all(data.as_slice()).ok()
}

/// Compress a payload.  On success the result is the compressor's stream
/// for `data`, and decompressing it is guaranteed to give `data` back;
/// the only failure is an internal compressor fault, never a property of
/// the input.
pub fn compress(data: &Vec<u8>) -> (r: Result<Vec<u8>, CipherError>)
    ensures
        r matches Ok(c) ==> c@ == compressed_form(data@) && decompressed_form(c@) == Some(
            data@,
        ),
        r matches Err(e) ==> e == CipherError::Compression,
{
    match zstd_compress(data) {
        Some(c) => Ok(c),
        None => Err(CipherError::Compression),
    }
}

/// Decompress a compressed stream.  Succeeds exactly on validly framed
/// input and returns exactly its decoded payload; anything else is
/// rejected as corruption.
pub fn decompress(data: &Vec<u8>) -> (r: Result<Vec<u8>, CipherError>)
    ensures
        r matches Ok(p) ==> decompressed_form(data@) == Some(p@),
        r matches Err(e) ==> e == CipherError::Decompression && decompressed_form(data@) is None,
{
    match zstd_decompress(data) {
        Some(p) => Ok(p),
        None => Err(CipherError::Decompression),
    }
}

} // verus!
