//! The keystream generator and the byte transform engine.
//!
//! A non-empty key of length `L` yields the cyclic keystream
//! `key[i mod L]`; the transform XORs each data byte with the keystream
//! byte at the same position. Applying the transform twice with the same
//! key returns the original data.

use vstd::prelude::*;
use crate::errors::CryptoError;

verus! {

/// The keystream byte at position `i`: the key repeats cyclically.
pub open spec fn key_byte_at(key: Seq<u8>, i: int) -> u8
    recommends
        key.len() > 0,
        i >= 0,
{
    key[i % key.len() as int]
}

/// The repeating-key XOR of `data` under `key`: byte `i` of the result is
/// `data[i] ^ key[i mod key.len()]`. Length-preserving by construction.
pub open spec fn xor_transform(data: Seq<u8>, key: Seq<u8>) -> Seq<u8>
    recommends
        key.len() > 0,
{
    Seq::new(data.len(), |i: int| data[i] ^ key_byte_at(key, i))
}

/// The keystream byte at position `i`, computed from a non-empty key.
pub fn key_byte(key: &[u8], i: usize) -> (r: u8)
    requires
        key@.len() > 0,
    ensures
        r == key_byte_at(key@, i as int),
{
    key[i % key.len()]
}

/// Applies the repeating-key XOR across `data` with a non-empty `key`.
///
/// The output has exactly the length of the input, and each output byte is
/// the input byte XORed with the keystream byte at the same position.
pub fn xor_with_key(data: &[u8], key: &[u8]) -> (r: Vec<u8>)
    requires
        key@.len() > 0,
    ensures
        r@ == xor_transform(data@, key@),
        r@.len() == data@.len(),
{
    let mut out: Vec<u8> = Vec::new();
    let mut i: usize = 0;
    while i < data.len()
        invariant
            key@.len() > 0,
            i <= data@.len(),
            out@.len() == i,
            forall|j: int| 0 <= j < i ==> out@[j] == xor_transform(data@, key@)[j],
        decreases data@.len() - i,
    {
        let b = data[i] ^ key_byte(key, i);
        out.push(b);
        i = i + 1;
    }
    proof {
        assert(out@ =~= xor_transform(data@, key@));
    }
    out
}

/// The transform guarded by the password check: the single entry point that
/// both file operations share. Succeeds exactly when the key is non-empty,
/// and then returns the transformed bytes; an empty key is rejected with
/// `EmptyPassword` and no other error can come out.
pub fn transform_with_password(data: &[u8], key: &[u8]) -> (r: Result<Vec<u8>, CryptoError>)
    ensures
        r is Ok <==> key@.len() > 0,
        r matches Ok(out) ==> out@ == xor_transform(data@, key@) && out@.len() == data@.len(),
        r matches Err(e) ==> e is EmptyPassword,
{
    if key.len() == 0 {
        Err(CryptoError::EmptyPassword)
    } else {
        Ok(xor_with_key(data, key))
    }
}

/// Validates the password before any file work begins: `Ok` exactly when
/// the key is non-empty, `EmptyPassword` otherwise.
pub fn check_password(key: &[u8]) -> (r: Result<(), CryptoError>)
    ensures
        r is Ok <==> key@.len() > 0,
        r matches Err(e) ==> e is EmptyPassword,
{
    if key.len() == 0 {
        Err(CryptoError::EmptyPassword)
    } else {
        Ok(())
    }
}

/// XOR with the same byte twice gives the original byte back.
proof fn lemma_xor_byte_cancels(a: u8, b: u8)
    ensures
        (a ^ b) ^ b == a,
{
    assert((a ^ b) ^ b == a) by (bit_vector);
}

/// Involution: transforming twice with the same non-empty key returns the
/// original data, for every data sequence and every non-empty key.
pub proof fn lemma_xor_involutive(data: Seq<u8>, key: Seq<u8>)
    requires
        key.len() > 0,
    ensures
        xor_transform(xor_transform(data, key), key) == data,
{
    let once = xor_transform(data, key);
    let twice = xor_transform(once, key);
    assert forall|i: int| 0 <= i < data.len() implies twice[i] == data[i] by {
        lemma_xor_byte_cancels(data[i], key_byte_at(key, i));
    }
    assert(twice =~= data);
}

/// Keystream periodicity: for a key of length `L`, the keystream byte at
/// position `i + L` equals the one at position `i`.
pub proof fn lemma_keystream_periodic(key: Seq<u8>, i: int)
    requires
        key.len() > 0,
        i >= 0,
    ensures
        key_byte_at(key, i + key.len()) == key_byte_at(key, i),
{
    let l = key.len() as int;
    vstd::arithmetic::div_mod::lemma_mod_add_multiples_vanish(i, l);
}

} // verus!
