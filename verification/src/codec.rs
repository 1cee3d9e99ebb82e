//! Reversible byte transform applied to stage event-script blobs on disk.
//!
//! The on-disk form of a stage's event script is "encrypted" with a single
//! key byte: the byte in the middle of the blob. Every byte except the key
//! byte itself is shifted by the key, modulo 256, so the transform is its own
//! inverse up to the direction of the shift.

use vstd::prelude::*;

verus! {

/// The key byte of a blob: the byte at its middle position.
pub open spec fn transform_key(s: Seq<u8>) -> u8 {
    s[s.len() as int / 2]
}

/// Byte addition modulo 256.
pub open spec fn add_mod(a: u8, b: u8) -> u8 {
    ((a as int + b as int) % 256) as u8
}

/// Byte subtraction modulo 256.
pub open spec fn sub_mod(a: u8, b: u8) -> u8 {
    ((a as int - b as int + 256) % 256) as u8
}

/// The encoded (on-disk) form of a blob: every byte except the key byte has
/// the key added, modulo 256. The key byte stays, so a decoder finds it again.
pub open spec fn spec_encrypt(s: Seq<u8>) -> Seq<u8> {
    Seq::new(
        s.len(),
        |i: int|
            if i == s.len() as int / 2 {
                s[i]
            } else {
                add_mod(s[i], transform_key(s))
            },
    )
}

/// The decoded (in-memory) form of a blob: the inverse shift of `spec_encrypt`.
pub open spec fn spec_decrypt(s: Seq<u8>) -> Seq<u8> {
    Seq::new(
        s.len(),
        |i: int|
            if i == s.len() as int / 2 {
                s[i]
            } else {
                sub_mod(s[i], transform_key(s))
            },
    )
}

proof fn lemma_add_sub_mod(a: u8, b: u8)
    ensures
        sub_mod(add_mod(a, b), b) == a,
        add_mod(sub_mod(a, b), b) == a,
{
}

/// Decoding an encoded blob gives the blob back.
pub proof fn lemma_transform_round_trip(s: Seq<u8>)
    ensures
        spec_decrypt(spec_encrypt(s)) == s,
        spec_encrypt(spec_decrypt(s)) == s,
{
    assert forall|i: int| 0 <= i < s.len() implies spec_decrypt(spec_encrypt(s))[i] == s[i] by {
        lemma_add_sub_mod(s[i], transform_key(s));
    }
    assert forall|i: int| 0 <= i < s.len() implies spec_encrypt(spec_decrypt(s))[i] == s[i] by {
        lemma_add_sub_mod(s[i], transform_key(s));
    }
    assert(spec_decrypt(spec_encrypt(s)) =~= s);
    assert(spec_encrypt(spec_decrypt(s)) =~= s);
}

/// Decode a stage script blob in place.
pub fn decrypt_tsc(buf: &mut Vec<u8>)
    ensures
        final(buf)@ == spec_decrypt(old(buf)@),
{
    let n = buf.len();
    if n == 0 {
        assert(buf@ =~= spec_decrypt(old(buf)@));
        return ;
    }
    let half = n / 2;
    let key = buf[half];
    let mut i: usize = 0;
    while i < n
        invariant
            i <= n,
            n == buf@.len(),
            n == old(buf)@.len(),
            n > 0,
            half == n / 2,
            key == transform_key(old(buf)@),
            forall|j: int| 0 <= j < i ==> buf@[j] == spec_decrypt(old(buf)@)[j],
            forall|j: int| i <= j < n ==> buf@[j] == old(buf)@[j],
        decreases n - i,
    {
        if i != half {
            let b = buf[i];
            let shifted: u8 = (((b as u16) + 256 - (key as u16)) % 256) as u8;
            assert(shifted == sub_mod(b, key));
            buf.set(i, shifted);
        }
        i += 1;
    }
    assert(buf@ =~= spec_decrypt(old(buf)@));
}

/// Encode a stage script blob in place, ready to be written to disk.
pub fn encrypt_tsc(buf: &mut Vec<u8>)
    ensures
        final(buf)@ == spec_encrypt(old(buf)@),
{
    let n = buf.len();
    if n == 0 {
        assert(buf@ =~= spec_encrypt(old(buf)@));
        return ;
    }
    let half = n / 2;
    let key = buf[half];
    let mut i: usize = 0;
    while i < n
        invariant
            i <= n,
            n == buf@.len(),
            n == old(buf)@.len(),
            n > 0,
            half == n / 2,
            key == transform_key(old(buf)@),
            forall|j: int| 0 <= j < i ==> buf@[j] == spec_encrypt(old(buf)@)[j],
            forall|j: int| i <= j < n ==> buf@[j] == old(buf)@[j],
        decreases n - i,
    {
        if i != half {
            let b = buf[i];
            let shifted: u8 = (((b as u16) + (key as u16)) % 256) as u8;
            assert(shifted == add_mod(b, key));
            buf.set(i, shifted);
        }
        i += 1;
    }
    assert(buf@ =~= spec_encrypt(old(buf)@));
}

} // verus!
