//! The encryption type AES256-CTS-HMAC-SHA1-96: keys from passphrases, and
//! payloads that are encrypted and protected by an integrity tag.

pub mod cts;
pub mod nfold;
pub mod pbkdf2;
pub mod primitives;

use crate::asn1::der::{be32_bytes, spec_be32_bytes};
use crate::constants::{AES_256_KEY_LEN, AES_BLOCK_LEN, AES_MAC_LEN};
use crate::crypto::cts::{
    cts_decrypt, cts_encrypt, lemma_cts_roundtrip, spec_block_count, spec_chain_opens,
    spec_cts_decrypt, spec_cts_encrypt,
};
use crate::crypto::nfold::{fold, spec_nfold};
use crate::crypto::pbkdf2::{pbkdf2_hmac_sha1, spec_pbkdf2_hmac_sha1};
use crate::crypto::primitives::{
    aes256_block_encrypt, aes256_encrypt_block, block_from_slice, hmac_sha1, hmac_sha1_tag,
    key_from_slice, random_confounder,
};
use crate::error::KrbError;
use vstd::prelude::*;

verus! {

/// Last byte of the constant from which the key that encrypts is derived.
pub const USAGE_ENCRYPTION: u8 = 0xaa;

/// Last byte of the constant from which the key that protects integrity is
/// derived.
pub const USAGE_INTEGRITY: u8 = 0x55;

/// Shortest ciphertext: one block for the confounder and the integrity tag.
pub const MIN_CIPHERTEXT_LEN: usize = 28;

/// The number of iterations that an iteration count on the wire stands for:
/// itself, but 2^32 for zero.
pub open spec fn spec_effective_iterations(iter_count: u32) -> nat {
    if iter_count == 0 {
        0x1_0000_0000
    } else {
        iter_count as nat
    }
}

/// The bytes of the word "kerberos", the constant of the string-to-key
/// function.
pub open spec fn spec_kerberos_constant() -> Seq<u8> {
    seq![0x6bu8, 0x65u8, 0x72u8, 0x62u8, 0x65u8, 0x72u8, 0x6fu8, 0x73u8]
}

/// The key derived from `key` and `constant`: the constant folded to one
/// block and encrypted, and that block encrypted once more.
pub open spec fn spec_derive_key(key: Seq<u8>, constant: Seq<u8>) -> Seq<u8> {
    let first = aes256_block_encrypt(key, spec_nfold(constant, 16));
    first + aes256_block_encrypt(key, first)
}

/// The key of a passphrase: the password-based key derivation function over
/// the passphrase and the salt, and from its output the key derived with the
/// constant "kerberos".
pub open spec fn spec_string_to_key(passphrase: Seq<u8>, salt: Seq<u8>, iter_count: u32) -> Seq<
    u8,
> {
    spec_derive_key(
        spec_pbkdf2_hmac_sha1(passphrase, salt, spec_effective_iterations(iter_count)),
        spec_kerberos_constant(),
    )
}

/// The key usage as a number without sign, as the wire carries it.
pub open spec fn spec_usage_number(key_usage: i32) -> u32 {
    if key_usage >= 0 {
        key_usage as u32
    } else {
        (key_usage + 0x1_0000_0000) as u32
    }
}

/// The constant from which a key for one usage and one purpose is derived.
pub open spec fn spec_usage_constant(key_usage: i32, purpose: u8) -> Seq<u8> {
    spec_be32_bytes(spec_usage_number(key_usage)) + seq![purpose]
}

/// The ciphertext of `plaintext` under `key` for `key_usage`, with
/// `confounder` in front of the plaintext: both encrypted under the key for
/// encryption, then the first twelve bytes of their tag under the key for
/// integrity.
pub open spec fn spec_encrypt(
    key: Seq<u8>,
    plaintext: Seq<u8>,
    key_usage: i32,
    confounder: Seq<u8>,
) -> Seq<u8> {
    let ke = spec_derive_key(key, spec_usage_constant(key_usage, USAGE_ENCRYPTION));
    let ki = spec_derive_key(key, spec_usage_constant(key_usage, USAGE_INTEGRITY));
    let message = confounder + plaintext;
    spec_cts_encrypt(ke, message) + hmac_sha1_tag(ki, message).take(12)
}

/// The plaintext of `ciphertext` under `key` for `key_usage`, where the
/// ciphertext is long enough and its tag is the tag of what it decrypts to.
pub open spec fn spec_decrypt(key: Seq<u8>, ciphertext: Seq<u8>, key_usage: i32) -> Option<
    Seq<u8>,
> {
    if ciphertext.len() < 28 {
        None
    } else {
        let ke = spec_derive_key(key, spec_usage_constant(key_usage, USAGE_ENCRYPTION));
        let ki = spec_derive_key(key, spec_usage_constant(key_usage, USAGE_INTEGRITY));
        let body = ciphertext.subrange(0, ciphertext.len() - 12);
        let tag = ciphertext.subrange(ciphertext.len() - 12, ciphertext.len() as int);
        let message = spec_cts_decrypt(ke, body);
        if hmac_sha1_tag(ki, message).take(12) == tag {
            Some(message.subrange(16, message.len() as int))
        } else {
            None
        }
    }
}

/// What was encrypted decrypts to what it was, under the same key and for the
/// same key usage: given that the block cipher opens each block of the
/// ciphertext to what it sealed, and that a tag has at least twelve bytes.
pub proof fn lemma_encrypt_decrypt(
    key: Seq<u8>,
    plaintext: Seq<u8>,
    key_usage: i32,
    confounder: Seq<u8>,
)
    requires
        confounder.len() == 16,
        spec_chain_opens(
            spec_derive_key(key, spec_usage_constant(key_usage, USAGE_ENCRYPTION)),
            confounder + plaintext,
            spec_block_count((confounder + plaintext).len()),
        ),
        hmac_sha1_tag(
            spec_derive_key(key, spec_usage_constant(key_usage, USAGE_INTEGRITY)),
            confounder + plaintext,
        ).len() >= 12,
    ensures
        spec_decrypt(key, spec_encrypt(key, plaintext, key_usage, confounder), key_usage) == Some(
            plaintext,
        ),
{
    let ke = spec_derive_key(key, spec_usage_constant(key_usage, USAGE_ENCRYPTION));
    let ki = spec_derive_key(key, spec_usage_constant(key_usage, USAGE_INTEGRITY));
    let message = confounder + plaintext;
    lemma_cts_roundtrip(ke, message);
    let body = spec_cts_encrypt(ke, message);
    let tag = hmac_sha1_tag(ki, message).take(12);
    let whole = body + tag;
    assert(whole.subrange(0, whole.len() - 12) =~= body);
    assert(whole.subrange(whole.len() - 12, whole.len() as int) =~= tag);
    assert(message.subrange(16, message.len() as int) =~= plaintext);
}

/// The key derived from `key` and `constant`.
pub(crate) fn derive_key(key: &[u8; AES_256_KEY_LEN],
    constant: &[u8]) -> (derived: [u8; AES_256_KEY_LEN])
    requires
        0 < constant.len() <= 1024,
    ensures
        derived@ == spec_derive_key(key@, constant@),
{
    let folded = fold(constant, AES_BLOCK_LEN);
    let block = block_from_slice(folded.as_slice());
    let first = aes256_encrypt_block(key, &block);
    let second = aes256_encrypt_block(key, &first);
    let mut derived = [0u8; AES_256_KEY_LEN];
    let mut i: usize = 0;
    while i < AES_BLOCK_LEN
        invariant
            i <= AES_BLOCK_LEN,
            forall|j: int| 0 <= j < i ==> derived@[j] == first@[j],
            forall|j: int| 0 <= j < i ==> derived@[16 + j] == second@[j],
        decreases AES_BLOCK_LEN - i,
    {
        derived[i] = first[i];
        derived[AES_BLOCK_LEN + i] = second[i];
        i = i + 1;
    }
    assert(derived@ =~= first@ + second@);
    derived
}

/// The bytes of the word "kerberos".
fn kerberos_constant() -> (constant: Vec<u8>)
    ensures
        constant@ == spec_kerberos_constant(),
{
    let mut constant: Vec<u8> = Vec::new();
    constant.push(0x6b);
    constant.push(0x65);
    constant.push(0x72);
    constant.push(0x62);
    constant.push(0x65);
    constant.push(0x72);
    constant.push(0x6f);
    constant.push(0x73);
    assert(constant@ =~= spec_kerberos_constant());
    constant
}

/// The key of a passphrase for AES256-CTS-HMAC-SHA1-96.
///
/// An iteration count of zero stands for 2^32 iterations, as the wire format
/// defines it. The same passphrase, salt and count give the same key.
pub fn derive_key_aes256_cts_hmac_sha1_96(passphrase: &[u8], salt: &[u8], iter_count: u32) -> (key:
    [u8; AES_256_KEY_LEN])
    ensures
        key@ == spec_string_to_key(passphrase@, salt@, iter_count),
{
    let rounds: u64 = if iter_count == 0 {
        0x1_0000_0000
    } else {
        iter_count as u64
    };
    let stretched = pbkdf2_hmac_sha1(passphrase, salt, rounds);
    let base = key_from_slice(stretched.as_slice());
    let constant = kerberos_constant();
    derive_key(&base, constant.as_slice())
}

/// The constant from which a key for one usage and one purpose is derived.
fn usage_constant(key_usage: i32, purpose: u8) -> (constant: Vec<u8>)
    ensures
        constant@ == spec_usage_constant(key_usage, purpose),
        constant.len() == 5,
{
    let number: u32 = if key_usage >= 0 {
        key_usage as u32
    } else {
        (key_usage as i64 + 0x1_0000_0000) as u32
    };
    let mut constant = be32_bytes(number);
    constant.push(purpose);
    constant
}

/// Encrypts `plaintext` under `key` for `key_usage`, with `confounder` in
/// front of it. What comes out decrypts to `plaintext` under the same key and
/// usage.
pub fn encrypt_with_confounder(
    key: &[u8; AES_256_KEY_LEN],
    plaintext: &[u8],
    key_usage: i32,
    confounder: &[u8; AES_BLOCK_LEN],
) -> (ciphertext: Vec<u8>)
    ensures
        ciphertext@ == spec_encrypt(key@, plaintext@, key_usage, confounder@),
        spec_decrypt(key@, ciphertext@, key_usage) == Some(plaintext@),
        ciphertext.len() == plaintext.len() + 28,
{
    let ke_constant = usage_constant(key_usage, USAGE_ENCRYPTION);
    let ki_constant = usage_constant(key_usage, USAGE_INTEGRITY);
    let ke = derive_key(key, ke_constant.as_slice());
    let ki = derive_key(key, ki_constant.as_slice());
    let mut message: Vec<u8> = Vec::new();
    let mut i: usize = 0;
    while i < AES_BLOCK_LEN
        invariant
            i <= AES_BLOCK_LEN,
            message@ == confounder@.take(i as int),
        decreases AES_BLOCK_LEN - i,
    {
        message.push(confounder[i]);
        assert(confounder@.take(i as int).push(confounder@[i as int]) =~= confounder@.take(i + 1));
        i = i + 1;
    }
    assert(confounder@.take(16) =~= confounder@);
    let mut rest = vstd::slice::slice_to_vec(plaintext);
    message.append(&mut rest);
    let tag = hmac_sha1(&ki, message.as_slice());
    let mut ciphertext = cts_encrypt(&ke, message.as_slice());
    let ghost body = ciphertext@;
    let mut j: usize = 0;
    while j < AES_MAC_LEN
        invariant
            j <= AES_MAC_LEN,
            ciphertext@ == body + tag@.take(j as int),
        decreases AES_MAC_LEN - j,
    {
        ciphertext.push(tag[j]);
        assert(tag@.take(j as int).push(tag@[j as int]) =~= tag@.take(j + 1));
        j = j + 1;
    }
    proof {
        let whole = ciphertext@;
        assert(whole.subrange(0, whole.len() - 12) =~= body);
        assert(whole.subrange(whole.len() - 12, whole.len() as int) =~= tag@.take(12));
        assert(message@.subrange(16, message@.len() as int) =~= plaintext@);
    }
    ciphertext
}

/// Encrypts `plaintext` under `key` for `key_usage`, with a confounder that
/// nobody can predict. Two calls may give different bytes; both decrypt to
/// `plaintext` under the same key and usage.
pub fn encrypt_aes256_cts_hmac_sha1_96(
    key: &[u8; AES_256_KEY_LEN],
    plaintext: &[u8],
    key_usage: i32,
) -> (ciphertext: Vec<u8>)
    ensures
        spec_decrypt(key@, ciphertext@, key_usage) == Some(plaintext@),
        ciphertext.len() == plaintext.len() + 28,
{
    let confounder = random_confounder();
    encrypt_with_confounder(key, plaintext, key_usage, &confounder)
}

/// Decrypts `ciphertext` under `key` for `key_usage`.
///
/// Fails where the ciphertext is shorter than a confounder and a tag, and where
/// its tag is not the tag of what it decrypts to: then the key, the usage or
/// the ciphertext is not what the sender used.
pub fn decrypt_aes256_cts_hmac_sha1_96(
    key: &[u8; AES_256_KEY_LEN],
    ciphertext: &[u8],
    key_usage: i32,
) -> (r: Result<Vec<u8>, KrbError>)
    ensures
        match r {
            Ok(plaintext) => spec_decrypt(key@, ciphertext@, key_usage) == Some(plaintext@),
            Err(e) => e == KrbError::DecryptionFailed && spec_decrypt(key@, ciphertext@, key_usage)
                is None,
        },
{
    if ciphertext.len() < MIN_CIPHERTEXT_LEN {
        return Err(KrbError::DecryptionFailed);
    }
    let ke_constant = usage_constant(key_usage, USAGE_ENCRYPTION);
    let ki_constant = usage_constant(key_usage, USAGE_INTEGRITY);
    let ke = derive_key(key, ke_constant.as_slice());
    let ki = derive_key(key, ki_constant.as_slice());
    let split: usize = ciphertext.len() - AES_MAC_LEN;
    let body = vstd::slice::slice_subrange(ciphertext, 0, split);
    let message = cts_decrypt(&ke, body);
    let tag = hmac_sha1(&ki, message.as_slice());
    let ghost sent = ciphertext@.subrange(split as int, ciphertext@.len() as int);
    let mut same = true;
    let mut j: usize = 0;
    while j < AES_MAC_LEN
        invariant
            j <= AES_MAC_LEN,
            split + 12 == ciphertext.len(),
            sent == ciphertext@.subrange(split as int, ciphertext@.len() as int),
            same <==> forall|k: int| 0 <= k < j ==> tag@[k] == sent[k],
        decreases AES_MAC_LEN - j,
    {
        if tag[j] != ciphertext[split + j] {
            assert(sent[j as int] == ciphertext@[split + j]);
            same = false;
        }
        j = j + 1;
    }
    proof {
        if same {
            assert(tag@.take(12) =~= sent);
        } else {
            let k = choose|k: int| 0 <= k < 12 && tag@[k] != sent[k];
            assert(tag@.take(12)[k] != sent[k]);
        }
    }
    if !same {
        return Err(KrbError::DecryptionFailed);
    }
    let plaintext = vstd::slice::slice_to_vec(
        vstd::slice::slice_subrange(message.as_slice(), 16, message.len()),
    );
    Ok(plaintext)
}

} // verus!
