//! A reversible file-obfuscation pipeline: input bytes (or literal text,
//! canonically encoded first) are compressed and then XOR-masked with a
//! freshly drawn random keystream of the same length, yielding a cipher
//! buffer and a detachable key buffer.  Decryption reverses the pipeline
//! exactly.  This is obfuscation, not cryptography: the key is as long as
//! the payload and carries no authentication.

pub mod codec;
pub mod errors;
pub mod pipeline;
pub mod rng;
pub mod text;
pub mod xor;
