use vstd::prelude::*;

verus! {

/// The failure kinds of the pipeline.  Every stage aborts the whole
/// operation with its own kind; nothing is retried and no partial output
/// is handed back.
#[derive(Clone, Copy, Debug, PartialEq, Eq, Structural)]
pub enum CipherError {
    /// The compressor failed internally while packing the payload.
    Compression,
    /// The unmasked buffer is not a validly framed compressed stream;
    /// this is the de facto corruption signal of a cipher/key pair.
    Decompression,
    /// Cipher and key buffers differ in length.
    LengthMismatch,
    /// The decompressed payload is not a valid text encoding.
    Decode,
}

} // verus!
