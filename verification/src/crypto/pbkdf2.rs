//! The password-based key derivation function no. 2 over HMAC-SHA-1.

use crate::asn1::der::{be32_bytes, spec_be32_bytes};
use crate::constants::SHA1_HMAC_LEN;
use crate::crypto::primitives::{hmac_sha1, hmac_sha1_tag, spec_xor};
use vstd::prelude::*;

verus! {

/// Largest number of iterations that the wire can ask for.
pub const MAX_ITERATIONS: u64 = 0x1_0000_0000;

/// The pseudorandom value of round `round` for block `block`: the tag of the
/// salt and the block number in the first round, the tag of the value before
/// in every later one.
pub open spec fn spec_round(passphrase: Seq<u8>, salt: Seq<u8>, block: u32, round: nat) -> Seq<u8>
    decreases round,
{
    if round <= 1 {
        hmac_sha1_tag(passphrase, salt + spec_be32_bytes(block))
    } else {
        hmac_sha1_tag(passphrase, spec_round(passphrase, salt, block, (round - 1) as nat))
    }
}

/// Block `block` of the output: the values of the first `rounds` rounds
/// combined byte by byte.
pub open spec fn spec_block(passphrase: Seq<u8>, salt: Seq<u8>, block: u32, rounds: nat) -> Seq<u8>
    decreases rounds,
{
    if rounds <= 1 {
        spec_round(passphrase, salt, block, 1)
    } else {
        spec_xor(
            spec_block(passphrase, salt, block, (rounds - 1) as nat),
            spec_round(passphrase, salt, block, rounds),
        )
    }
}

/// The first 32 bytes of the output for `rounds` rounds.
pub open spec fn spec_pbkdf2_hmac_sha1(passphrase: Seq<u8>, salt: Seq<u8>, rounds: nat) -> Seq<u8> {
    (spec_block(passphrase, salt, 1, rounds) + spec_block(passphrase, salt, 2, rounds)).subrange(
        0,
        32,
    )
}

/// One block of the output.
fn block(passphrase: &[u8], salt: &[u8], index: u32, rounds: u64) -> (out: [u8; SHA1_HMAC_LEN])
    requires
        1 <= rounds <= MAX_ITERATIONS,
    ensures
        out@ == spec_block(passphrase@, salt@, index, rounds as nat),
{
    let mut seed = vstd::slice::slice_to_vec(salt);
    let mut number = be32_bytes(index);
    seed.append(&mut number);
    let mut value = hmac_sha1(passphrase, seed.as_slice());
    let mut out = value;
    let mut round: u64 = 1;
    while round < rounds
        invariant
            1 <= round <= rounds <= MAX_ITERATIONS,
            value@ == spec_round(passphrase@, salt@, index, round as nat),
            out@ == spec_block(passphrase@, salt@, index, round as nat),
        decreases rounds - round,
    {
        let next = hmac_sha1(passphrase, value.as_slice());
        let ghost before = out@;
        let mut i: usize = 0;
        while i < SHA1_HMAC_LEN
            invariant
                i <= SHA1_HMAC_LEN,
                before.len() == SHA1_HMAC_LEN,
                forall|j: int| 0 <= j < i ==> out@[j] == before[j] ^ next@[j],
                forall|j: int| i <= j < SHA1_HMAC_LEN ==> out@[j] == before[j],
            decreases SHA1_HMAC_LEN - i,
        {
            out[i] = out[i] ^ next[i];
            i = i + 1;
        }
        assert(out@ =~= spec_xor(before, next@));
        value = next;
        round = round + 1;
    }
    out
}

/// The first 32 bytes of the function's output for `rounds` rounds.
pub(crate) fn pbkdf2_hmac_sha1(passphrase: &[u8], salt: &[u8], rounds: u64) -> (out: Vec<u8>)
    requires
        1 <= rounds <= MAX_ITERATIONS,
    ensures
        out@ == spec_pbkdf2_hmac_sha1(passphrase@, salt@, rounds as nat),
        out.len() == 32,
{
    let first = block(passphrase, salt, 1, rounds);
    let second = block(passphrase, salt, 2, rounds);
    let mut out: Vec<u8> = Vec::new();
    let mut i: usize = 0;
    while i < 32
        invariant
            i <= 32,
            out.len() == i,
            forall|j: int| 0 <= j < i ==> out@[j] == (first@ + second@)[j],
        decreases 32 - i,
    {
        if i < SHA1_HMAC_LEN {
            out.push(first[i]);
        } else {
            out.push(second[i - SHA1_HMAC_LEN]);
        }
        i = i + 1;
    }
    assert(out@ =~= (first@ + second@).subrange(0, 32));
    out
}

} // verus!
