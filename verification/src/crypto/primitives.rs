//! The primitives that the encryption type is built from. They are computed by
//! the `aes`, `hmac` and `sha1` crates; this library knows each of them by a
//! name and by what the call returned.

use crate::constants::{AES_256_KEY_LEN, AES_BLOCK_LEN, SHA1_HMAC_LEN};
use aes::cipher::{BlockDecrypt, BlockEncrypt, KeyInit};
use hmac::Mac;
use rand::RngCore;
use vstd::prelude::*;

verus! {

/// The block that AES-256 encrypts `block` to under `key`.
pub uninterp spec fn aes256_block_encrypt(key: Seq<u8>, block: Seq<u8>) -> Seq<u8>;

/// The block that AES-256 decrypts `block` to under `key`.
pub uninterp spec fn aes256_block_decrypt(key: Seq<u8>, block: Seq<u8>) -> Seq<u8>;

/// The 20 bytes of HMAC-SHA-1 over `message` under `key`.
pub uninterp spec fn hmac_sha1_tag(key: Seq<u8>, message: Seq<u8>) -> Seq<u8>;

/// `aes::Aes256::new` and `encrypt_block`: encrypts one block. The block that
/// comes out decrypts to the block that went in.
#[verifier::external_body]
pub(crate) fn aes256_encrypt_block(key: &[u8; AES_256_KEY_LEN],
    block: &[u8; AES_BLOCK_LEN]) -> (out:
    [u8; AES_BLOCK_LEN])
    ensures
        out@ == aes256_block_encrypt(key@, block@),
        aes256_block_decrypt(key@, out@) == block@,
{
    let cipher = aes::Aes256::new(key.into());
    let mut data = aes::Block::from(*block);
    cipher.encrypt_block(&mut data);
    data.into()
}

/// `aes::Aes256::new` and `decrypt_block`: decrypts one block.
#[verifier::external_body]
pub(crate) fn aes256_decrypt_block(key: &[u8; AES_256_KEY_LEN],
    block: &[u8; AES_BLOCK_LEN]) -> (out:
    [u8; AES_BLOCK_LEN])
    ensures
        out@ == aes256_block_decrypt(key@, block@),
{
    let cipher = aes::Aes256::new(key.into());
    let mut data = aes::Block::from(*block);
    cipher.decrypt_block(&mut data);
    data.into()
}

/// `hmac::Hmac::<sha1::Sha1>::new_from_slice`, `update` and `finalize`: the
/// tag of `message` under `key`. The constructor takes a key of any length.
#[verifier::external_body]
pub(crate) fn hmac_sha1(key: &[u8], message: &[u8]) -> (tag: [u8; SHA1_HMAC_LEN])
    ensures
        tag@ == hmac_sha1_tag(key@, message@),
{
    let mut mac = <hmac::Hmac<sha1::Sha1> as Mac>::new_from_slice(key).unwrap();
    mac.update(message);
    mac.finalize().into_bytes().into()
}

/// `rand::thread_rng` and `fill_bytes`: sixteen bytes that nobody can predict.
/// Nothing is promised of them but their number.
#[verifier::external_body]
pub(crate) fn random_confounder() -> (bytes: [u8; AES_BLOCK_LEN]) {
    let mut bytes = [0u8; AES_BLOCK_LEN];
    rand::thread_rng().fill_bytes(&mut bytes);
    bytes
}

/// The bytes `a[i] ^ b[i]`, for as many bytes as `a` has.
pub open spec fn spec_xor(a: Seq<u8>, b: Seq<u8>) -> Seq<u8>
    recommends
        a.len() <= b.len(),
{
    Seq::new(a.len(), |i: int| a[i] ^ b[i])
}

/// `count` zero bytes.
pub open spec fn spec_zeros(count: nat) -> Seq<u8> {
    Seq::new(count, |i: int| 0u8)
}

/// Combining twice with the same byte gives the first byte back, and combining
/// with zero changes nothing.
pub proof fn lemma_xor_byte(a: u8, b: u8)
    ensures
        (a ^ b) ^ b == a,
        a ^ 0u8 == a,
        0u8 ^ a == a,
        a ^ a == 0u8,
{
    assert((a ^ b) ^ b == a) by (bit_vector);
    assert(a ^ 0u8 == a) by (bit_vector);
    assert(0u8 ^ a == a) by (bit_vector);
    assert(a ^ a == 0u8) by (bit_vector);
}

/// The bytes of two blocks combined.
pub(crate) fn xor_block(a: &[u8; AES_BLOCK_LEN],
    b: &[u8; AES_BLOCK_LEN]) -> (out: [u8; AES_BLOCK_LEN])
    ensures
        out@ == spec_xor(a@, b@),
{
    let mut out = [0u8; AES_BLOCK_LEN];
    let mut i: usize = 0;
    while i < AES_BLOCK_LEN
        invariant
            i <= AES_BLOCK_LEN,
            forall|j: int| 0 <= j < i ==> out@[j] == a@[j] ^ b@[j],
        decreases AES_BLOCK_LEN - i,
    {
        out[i] = a[i] ^ b[i];
        i = i + 1;
    }
    assert(out@ =~= spec_xor(a@, b@));
    out
}

/// The key that 32 bytes are.
pub(crate) fn key_from_slice(bytes: &[u8]) -> (key: [u8; AES_256_KEY_LEN])
    requires
        bytes.len() == AES_256_KEY_LEN,
    ensures
        key@ == bytes@,
{
    let mut key = [0u8; AES_256_KEY_LEN];
    let mut i: usize = 0;
    while i < AES_256_KEY_LEN
        invariant
            i <= AES_256_KEY_LEN,
            bytes.len() == AES_256_KEY_LEN,
            forall|j: int| 0 <= j < i ==> key@[j] == bytes@[j],
        decreases AES_256_KEY_LEN - i,
    {
        key[i] = bytes[i];
        i = i + 1;
    }
    assert(key@ =~= bytes@);
    key
}

/// The block that 16 bytes are.
pub(crate) fn block_from_slice(bytes: &[u8]) -> (block: [u8; AES_BLOCK_LEN])
    requires
        bytes.len() == AES_BLOCK_LEN,
    ensures
        block@ == bytes@,
{
    let mut block = [0u8; AES_BLOCK_LEN];
    let mut i: usize = 0;
    while i < AES_BLOCK_LEN
        invariant
            i <= AES_BLOCK_LEN,
            bytes.len() == AES_BLOCK_LEN,
            forall|j: int| 0 <= j < i ==> block@[j] == bytes@[j],
        decreases AES_BLOCK_LEN - i,
    {
        block[i] = bytes[i];
        i = i + 1;
    }
    assert(block@ =~= bytes@);
    block
}

} // verus!
