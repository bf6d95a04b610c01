//! The checksum of a payload: its XXH3-128 hash, stored as 16 bytes with the
//! least significant byte first.

use vstd::prelude::*;

verus! {

/// Width of the checksum in bytes.
pub const HASH_BYTE_LENGTH: usize = 16;

/// The 128-bit XXH3 hash of `input`, with the default seed and secret.
pub uninterp spec fn xxh3_128_hash(input: Seq<u8>) -> u128;

/// Taken on trust: `xxhash_rust::xxh3::xxh3_128` returns for every input, and
/// what it returns, the XXH3-128 hash with the default seed and secret,
/// depends on the bytes of the input alone.
pub assume_specification[ xxhash_rust::xxh3::xxh3_128 ](input: &[u8]) -> (hash: u128)
    ensures
        hash == xxh3_128_hash(input@),
;

/// The `count` lowest base-256 digits of `value`, lowest first.
pub open spec fn le_digits(value: nat, count: nat) -> Seq<u8>
    decreases count,
{
    if count == 0 {
        Seq::empty()
    } else {
        seq![(value % 256) as u8] + le_digits(value / 256, (count - 1) as nat)
    }
}

/// The bytes that store `hash`: all sixteen of them, least significant first.
pub open spec fn hash_bytes(hash: u128) -> Seq<u8> {
    le_digits(hash as nat, HASH_BYTE_LENGTH as nat)
}

/// The checksum of `payload` as it is stored.
pub open spec fn checksum_of(payload: Seq<u8>) -> Seq<u8> {
    hash_bytes(xxh3_128_hash(payload))
}

/// There are as many digits as were asked for.
pub proof fn lemma_le_digits_len(value: nat, count: nat)
    ensures
        le_digits(value, count).len() == count,
    decreases count,
{
    if count > 0 {
        lemma_le_digits_len(value / 256, (count - 1) as nat);
    }
}

/// A stored hash is always `HASH_BYTE_LENGTH` bytes wide.
pub proof fn lemma_hash_bytes_len(hash: u128)
    ensures
        hash_bytes(hash).len() == HASH_BYTE_LENGTH,
{
    lemma_le_digits_len(hash as nat, HASH_BYTE_LENGTH as nat);
}

/// The number whose base-256 digits, lowest first, are `digits`.
pub open spec fn le_value(digits: Seq<u8>) -> nat
    decreases digits.len(),
{
    if digits.len() == 0 {
        0
    } else {
        digits[0] as nat + 256 * le_value(digits.drop_first())
    }
}

/// 256 to the power of `count`.
pub open spec fn radix_power(count: nat) -> nat
    decreases count,
{
    if count == 0 {
        1
    } else {
        256 * radix_power((count - 1) as nat)
    }
}

/// The digits of a number that fits into `count` digits give the number
/// back.
pub proof fn lemma_le_digits_value(value: nat, count: nat)
    requires
        value < radix_power(count),
    ensures
        le_value(le_digits(value, count)) == value,
    decreases count,
{
    if count > 0 {
        let rest = le_digits(value / 256, (count - 1) as nat);
        let digits = le_digits(value, count);
        assert(digits.drop_first() =~= rest);
        assert(digits[0] == (value % 256) as u8);
        lemma_le_digits_value(value / 256, (count - 1) as nat);
    }
}

/// Different hashes are stored as different bytes.
pub proof fn lemma_hash_bytes_differ(first: u128, second: u128)
    ensures
        hash_bytes(first) == hash_bytes(second) <==> first == second,
{
    assert(radix_power(16) == 0x1_0000_0000_0000_0000_0000_0000_0000_0000) by {
        reveal_with_fuel(radix_power, 17);
    }
    lemma_le_digits_value(first as nat, HASH_BYTE_LENGTH as nat);
    lemma_le_digits_value(second as nat, HASH_BYTE_LENGTH as nat);
}

/// Writes `hash` as it is stored, least significant byte first.
pub fn hash_to_bytes(hash: u128) -> (bytes: Vec<u8>)
    ensures
        bytes@ == hash_bytes(hash),
        bytes@.len() == HASH_BYTE_LENGTH,
{
    let mut bytes: Vec<u8> = Vec::with_capacity(HASH_BYTE_LENGTH);
    let mut rest: u128 = hash;
    let mut written: usize = 0;
    while written < HASH_BYTE_LENGTH
        invariant
            written <= HASH_BYTE_LENGTH,
            bytes@.len() == written,
            bytes@ + le_digits(rest as nat, (HASH_BYTE_LENGTH - written) as nat) == hash_bytes(
                hash,
            ),
        decreases HASH_BYTE_LENGTH - written,
    {
        let ghost before = bytes@;
        let ghost higher = le_digits(rest as nat / 256, (HASH_BYTE_LENGTH - written - 1) as nat);
        let digit: u8 = (rest % 256) as u8;
        bytes.push(digit);
        proof {
            assert(le_digits(rest as nat, (HASH_BYTE_LENGTH - written) as nat) == seq![digit]
                + higher);
            assert(bytes@ + higher =~= before + (seq![digit] + higher));
        }
        rest = rest / 256;
        written += 1;
    }
    assert(bytes@ + Seq::<u8>::empty() =~= bytes@);
    bytes
}

/// Computes the checksum of `payload`.
pub fn checksum(payload: &[u8]) -> (digest: Vec<u8>)
    ensures
        digest@ == checksum_of(payload@),
        digest@.len() == HASH_BYTE_LENGTH,
{
    hash_to_bytes(xxhash_rust::xxh3::xxh3_128(payload))
}

} // verus!
