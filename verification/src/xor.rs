use vstd::prelude::*;

use crate::errors::CipherError;
use crate::rng::random_byte;

verus! {

/// The byte-wise XOR of two byte sequences of equal length.
pub open spec fn xor_seq(a: Seq<u8>, b: Seq<u8>) -> Seq<u8> {
    Seq::new(a.len(), |i: int| a[i] ^ b[i])
}

/// XOR is its own inverse: masking a sequence with a key and masking the
/// result with the same key gives the sequence back, whatever the key
/// holds.  This is the algebra that makes `unmask` undo `mask`.
pub proof fn lemma_xor_involution(a: Seq<u8>, b: Seq<u8>)
    requires
        a.len() == b.len(),
    ensures
        xor_seq(xor_seq(a, b), b) == a,
{
    let c = xor_seq(xor_seq(a, b), b);
    assert forall|i: int| 0 <= i < a.len() implies c[i] == a[i] by {
        let x = a[i];
        let y = b[i];
        assert((x ^ y) ^ y == x) by (bit_vector);
    }
    assert(c =~= a);
}

/// Mask a plaintext buffer: draw one fresh random byte per payload byte as
/// the key, and XOR the payload with it.  Returns `(cipher, key)`, both
/// exactly as long as the input.
pub fn mask(plain: &Vec<u8>) -> (r: (Vec<u8>, Vec<u8>))
    ensures
        r.0@.len() == plain@.len(),
        r.1@.len() == plain@.len(),
        r.0@ == xor_seq(plain@, r.1@),
{
    let mut cipher: Vec<u8> = Vec::new();
    let mut key: Vec<u8> = Vec::new();
    let n: usize = plain.len();
    for i in 0..n
        invariant
            n == plain@.len(),
            cipher@.len() == i,
            key@.len() == i,
            forall|j: int| 0 <= j < i ==> cipher@[j] == (plain@[j] ^ key@[j]),
    {
        let kb: u8 = random_byte();
        key.push(kb);
        cipher.push(plain[i] ^ kb);
    }
    proof {
        assert(cipher@ =~= xor_seq(plain@, key@));
    }
    (cipher, key)
}

/// Unmask a cipher buffer with its key: the exact inverse of `mask`.
/// Succeeds exactly when the two buffers have the same length; a mismatch
/// is rejected up front, never surfaced as an out-of-bounds access.
pub fn unmask(cipher: &Vec<u8>, key: &Vec<u8>) -> (r: Result<Vec<u8>, CipherError>)
    ensures
        cipher@.len() == key@.len() ==> (r matches Ok(p) && p@ == xor_seq(cipher@, key@)),
        cipher@.len() != key@.len() ==> (r matches Err(e) && e == CipherError::LengthMismatch),
{
    if cipher.len() != key.len() {
        return Err(CipherError::LengthMismatch);
    }
    let mut plain: Vec<u8> = Vec::new();
    let n: usize = cipher.len();
    for i in 0..n
        invariant
            n == cipher@.len(),
            n == key@.len(),
            plain@.len() == i,
            forall|j: int| 0 <= j < i ==> plain@[j] == (cipher@[j] ^ key@[j]),
    {
        plain.push(cipher[i] ^ key[i]);
    }
    proof {
        assert(plain@ =~= xor_seq(cipher@, key@));
    }
    Ok(plain)
}

} // verus!
