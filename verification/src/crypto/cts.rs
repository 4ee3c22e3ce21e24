//! Cipher block chaining with ciphertext stealing: the ciphertext is as long as
//! the plaintext, whatever its length from one block on. The last two blocks
//! change places, and the block that then stands last is cut to the length of
//! the last block of plaintext.

use crate::constants::{AES_256_KEY_LEN, AES_BLOCK_LEN};
use crate::crypto::primitives::{
    aes256_block_decrypt, aes256_block_encrypt, aes256_decrypt_block, aes256_encrypt_block,
    lemma_xor_byte, spec_xor, spec_zeros, xor_block,
};
use vstd::prelude::*;

verus! {

/// The number of blocks that `len` bytes fill, the last one perhaps in part.
pub open spec fn spec_block_count(len: nat) -> nat {
    (len + 15) / 16
}

/// Block `i` of `data`, filled up with zero bytes.
pub open spec fn spec_padded_block(data: Seq<u8>, i: nat) -> Seq<u8> {
    Seq::new(
        16,
        |j: int|
            if 16 * i + j < data.len() {
                data[16 * i + j]
            } else {
                0u8
            },
    )
}

/// What block `i` is combined with before it is encrypted: the block of
/// ciphertext before it, and zero bytes for the first block.
pub open spec fn spec_chain_before(key: Seq<u8>, data: Seq<u8>, i: nat) -> Seq<u8>
    decreases i, 0nat,
{
    if i == 0 {
        spec_zeros(16)
    } else {
        spec_chain_block(key, data, (i - 1) as nat)
    }
}

/// Block `i` of the chained ciphertext of `data`.
pub open spec fn spec_chain_block(key: Seq<u8>, data: Seq<u8>, i: nat) -> Seq<u8>
    decreases i, 1nat,
{
    aes256_block_encrypt(
        key,
        spec_xor(spec_padded_block(data, i), spec_chain_before(key, data, i)),
    )
}

/// The first `count` blocks of the chained ciphertext of `data`.
pub open spec fn spec_chain(key: Seq<u8>, data: Seq<u8>, count: nat) -> Seq<u8>
    decreases count,
{
    if count == 0 {
        Seq::empty()
    } else {
        spec_chain(key, data, (count - 1) as nat) + spec_chain_block(
            key,
            data,
            (count - 1) as nat,
        )
    }
}

/// The ciphertext of `data`, which is at least one block long.
pub open spec fn spec_cts_encrypt(key: Seq<u8>, data: Seq<u8>) -> Seq<u8>
    recommends
        data.len() >= 16,
{
    let n = spec_block_count(data.len());
    if n <= 1 {
        spec_chain_block(key, data, 0)
    } else {
        let last_len = data.len() - 16 * (n - 1);
        spec_chain(key, data, (n - 2) as nat) + spec_chain_block(key, data, (n - 1) as nat)
            + spec_chain_block(key, data, (n - 2) as nat).take(last_len)
    }
}

/// Block `i` of a ciphertext.
pub open spec fn spec_cipher_block(cipher: Seq<u8>, i: nat) -> Seq<u8> {
    cipher.subrange((16 * i) as int, (16 * i + 16) as int)
}

/// What a decrypted block `i` is combined with: the block of ciphertext before
/// it, and zero bytes for the first block.
pub open spec fn spec_cipher_before(cipher: Seq<u8>, i: nat) -> Seq<u8> {
    if i == 0 {
        spec_zeros(16)
    } else {
        spec_cipher_block(cipher, (i - 1) as nat)
    }
}

/// Block `i` of the plaintext of a chained ciphertext.
pub open spec fn spec_plain_block(key: Seq<u8>, cipher: Seq<u8>, i: nat) -> Seq<u8> {
    spec_xor(
        aes256_block_decrypt(key, spec_cipher_block(cipher, i)),
        spec_cipher_before(cipher, i),
    )
}

/// The first `count` blocks of the plaintext of a chained ciphertext.
pub open spec fn spec_plain(key: Seq<u8>, cipher: Seq<u8>, count: nat) -> Seq<u8>
    decreases count,
{
    if count == 0 {
        Seq::empty()
    } else {
        spec_plain(key, cipher, (count - 1) as nat) + spec_plain_block(
            key,
            cipher,
            (count - 1) as nat,
        )
    }
}

/// The plaintext of `cipher`, which is at least one block long.
pub open spec fn spec_cts_decrypt(key: Seq<u8>, cipher: Seq<u8>) -> Seq<u8>
    recommends
        cipher.len() >= 16,
{
    let n = spec_block_count(cipher.len());
    if n <= 1 {
        spec_plain_block(key, cipher, 0)
    } else {
        let last_len = cipher.len() - 16 * (n - 1);
        let tail = cipher.subrange((16 * (n - 1)) as int, cipher.len() as int);
        let opened = aes256_block_decrypt(key, spec_cipher_block(cipher, (n - 2) as nat));
        let stolen = tail + opened.subrange(last_len, 16);
        spec_plain(key, cipher, (n - 2) as nat) + spec_xor(
            aes256_block_decrypt(key, stolen),
            spec_cipher_before(cipher, (n - 2) as nat),
        ) + spec_xor(opened.take(last_len), tail)
    }
}

/// Whether each of the first `count` blocks of the chained ciphertext is a
/// block, and decrypts to what was encrypted.
pub open spec fn spec_chain_opens(key: Seq<u8>, data: Seq<u8>, count: nat) -> bool {
    forall|j: nat|
        j < count ==> {
            &&& (#[trigger] spec_chain_block(key, data, j)).len() == 16
            &&& aes256_block_decrypt(key, spec_chain_block(key, data, j)) == spec_xor(
                spec_padded_block(data, j),
                spec_chain_before(key, data, j),
            )
        }
}

/// Combining twice with the same bytes gives the first bytes back.
proof fn lemma_xor_twice(a: Seq<u8>, b: Seq<u8>)
    requires
        a.len() <= b.len(),
    ensures
        spec_xor(spec_xor(a, b), b) =~= a,
{
    assert forall|i: int| 0 <= i < a.len() implies spec_xor(spec_xor(a, b), b)[i] == a[i] by {
        lemma_xor_byte(a[i], b[i]);
    }
}

/// The chained ciphertext of `count` blocks is `count` blocks long, and its
/// blocks are where they belong.
proof fn lemma_chain_blocks(key: Seq<u8>, data: Seq<u8>, count: nat, after: Seq<u8>)
    requires
        spec_chain_opens(key, data, count),
    ensures
        spec_chain(key, data, count).len() == 16 * count,
        forall|j: nat|
            j < count ==> #[trigger] spec_cipher_block(spec_chain(key, data, count) + after, j)
                == spec_chain_block(key, data, j),
    decreases count,
{
    if count > 0 {
        let before = (count - 1) as nat;
        let last = spec_chain_block(key, data, before);
        lemma_chain_blocks(key, data, before, last + after);
        let whole = spec_chain(key, data, count) + after;
        assert(whole =~= spec_chain(key, data, before) + (last + after));
        assert(last.len() == 16);
        assert(spec_cipher_block(whole, before) =~= last);
    }
}

/// A ciphertext whose first blocks are the chained ciphertext of `data` opens
/// to the first blocks of `data`.
proof fn lemma_plain_of_chain(key: Seq<u8>, data: Seq<u8>, cipher: Seq<u8>, count: nat)
    requires
        spec_chain_opens(key, data, count),
        16 * count <= data.len(),
        forall|j: nat|
            j < count ==> #[trigger] spec_cipher_block(cipher, j) == spec_chain_block(key, data, j),
    ensures
        spec_plain(key, cipher, count) == data.subrange(0, (16 * count) as int),
    decreases count,
{
    if count == 0 {
        assert(data.subrange(0, 0) =~= Seq::<u8>::empty());
    } else {
        let i = (count - 1) as nat;
        lemma_plain_of_chain(key, data, cipher, i);
        lemma_plain_block_of_chain(key, data, cipher, i);
        assert(data.subrange(0, (16 * i) as int) + data.subrange((16 * i) as int, (16 * i
            + 16) as int) =~= data.subrange(0, (16 * count) as int));
    }
}

/// A block of ciphertext that is block `i` of the chained ciphertext, behind
/// the block before it, opens to block `i` of `data`.
proof fn lemma_plain_block_of_chain(key: Seq<u8>, data: Seq<u8>, cipher: Seq<u8>, i: nat)
    requires
        spec_chain_opens(key, data, i + 1),
        16 * i + 16 <= data.len(),
        spec_cipher_block(cipher, i) == spec_chain_block(key, data, i),
        i > 0 ==> spec_cipher_block(cipher, (i - 1) as nat) == spec_chain_block(
            key,
            data,
            (i - 1) as nat,
        ),
    ensures
        spec_plain_block(key, cipher, i) == data.subrange((16 * i) as int, (16 * i + 16) as int),
{
    let block = spec_padded_block(data, i);
    let before = spec_chain_before(key, data, i);
    assert(spec_chain_block(key, data, i).len() == 16);
    if i > 0 {
        assert(spec_chain_block(key, data, (i - 1) as nat).len() == 16);
    }
    assert(spec_cipher_before(cipher, i) == before);
    lemma_xor_twice(block, before);
    assert(block =~= data.subrange((16 * i) as int, (16 * i + 16) as int));
}

/// What was encrypted block by block, each block opening to what went in,
/// decrypts to what it was.
pub proof fn lemma_cts_roundtrip(key: Seq<u8>, data: Seq<u8>)
    requires
        data.len() >= 16,
        spec_chain_opens(key, data, spec_block_count(data.len())),
    ensures
        spec_cts_encrypt(key, data).len() == data.len(),
        spec_cts_decrypt(key, spec_cts_encrypt(key, data)) == data,
{
    let n = spec_block_count(data.len());
    let cipher = spec_cts_encrypt(key, data);
    let empty = Seq::<u8>::empty();
    if n <= 1 {
        assert(spec_chain_block(key, data, 0).len() == 16);
        assert(spec_cipher_block(cipher, 0) =~= cipher);
        lemma_plain_block_of_chain(key, data, cipher, 0);
        assert(data.subrange(0, 16) =~= data);
    } else {
        let m = (n - 2) as nat;
        let last_len = (data.len() - 16 * (n - 1)) as nat;
        let second = spec_chain_block(key, data, m);
        let last = spec_chain_block(key, data, (n - 1) as nat);
        assert(second.len() == 16 && last.len() == 16);
        let head = spec_chain(key, data, m);
        assert(spec_chain_opens(key, data, m));
        lemma_chain_blocks(key, data, m, last + second.take(last_len as int));
        assert(cipher =~= head + (last + second.take(last_len as int)));
        assert(cipher.len() == data.len());
        assert(spec_block_count(cipher.len()) == n);
        // the blocks before the last two
        lemma_plain_of_chain(key, data, cipher, m);
        // the last full block of the ciphertext is the last block of the chain
        assert(spec_cipher_block(cipher, m) =~= last);
        let tail = cipher.subrange((16 * (n - 1)) as int, cipher.len() as int);
        assert(tail =~= second.take(last_len as int));
        let opened = aes256_block_decrypt(key, last);
        let block_last = spec_padded_block(data, (n - 1) as nat);
        assert(spec_chain_before(key, data, (n - 1) as nat) == second);
        assert(opened == spec_xor(block_last, second));
        // what was cut off the block before the last is found again
        let stolen = tail + opened.subrange(last_len as int, 16);
        assert(stolen =~= second) by {
            assert forall|j: int| last_len <= j < 16 implies opened[j] == second[j] by {
                lemma_xor_byte(second[j], 0u8);
                assert(block_last[j] == 0u8);
            }
        }
        // the block before the last
        let block_second = spec_padded_block(data, m);
        let before = spec_chain_before(key, data, m);
        if m > 0 {
            assert(spec_chain_block(key, data, (m - 1) as nat).len() == 16);
            assert(spec_cipher_block(cipher, (m - 1) as nat) == spec_chain_block(
                key,
                data,
                (m - 1) as nat,
            ));
        }
        assert(spec_cipher_before(cipher, m) == before);
        lemma_xor_twice(block_second, before);
        assert(block_second =~= data.subrange((16 * m) as int, (16 * m + 16) as int));
        // the last block
        let end = spec_xor(opened.take(last_len as int), tail);
        assert(end =~= data.subrange((16 * (n - 1)) as int, data.len() as int)) by {
            assert forall|j: int| 0 <= j < last_len implies end[j] == data[16 * (n - 1) + j] by {
                lemma_xor_byte(block_last[j], second[j]);
            }
        }
        assert(data.subrange(0, (16 * m) as int) + data.subrange((16 * m) as int, (16 * m
            + 16) as int) + data.subrange((16 * (n - 1)) as int, data.len() as int) =~= data);
    }
}

/// Block `i` of `data`, filled up with zero bytes.
fn padded_block(data: &[u8], i: usize) -> (block: [u8; AES_BLOCK_LEN])
    requires
        16 * i <= data.len(),
    ensures
        block@ == spec_padded_block(data@, i as nat),
{
    let mut block = [0u8; AES_BLOCK_LEN];
    let start: usize = 16 * i;
    let mut j: usize = 0;
    while j < AES_BLOCK_LEN
        invariant
            j <= AES_BLOCK_LEN,
            start == 16 * i,
            start <= data.len(),
            forall|k: int|
                0 <= k < j ==> block@[k] == if start + k < data.len() {
                    data@[start + k]
                } else {
                    0u8
                },
            forall|k: int| j <= k < 16 ==> block@[k] == 0u8,
        decreases AES_BLOCK_LEN - j,
    {
        if j < data.len() - start {
            block[j] = data[start + j];
        }
        j = j + 1;
    }
    assert(block@ =~= spec_padded_block(data@, i as nat));
    block
}

/// Appends the first `count` bytes of `block`.
fn append_block(out: &mut Vec<u8>, block: &[u8; AES_BLOCK_LEN], count: usize)
    requires
        count <= AES_BLOCK_LEN,
    ensures
        final(out)@ == old(out)@ + block@.take(count as int),
{
    let mut j: usize = 0;
    while j < count
        invariant
            j <= count <= AES_BLOCK_LEN,
            out@ == old(out)@ + block@.take(j as int),
        decreases count - j,
    {
        out.push(block[j]);
        assert(block@.take(j as int).push(block@[j as int]) =~= block@.take(j + 1));
        j = j + 1;
    }
}

/// The number of blocks that `len` bytes fill.
fn block_count(len: usize) -> (n: usize)
    ensures
        n == spec_block_count(len as nat),
        n <= len,
        len > 0 ==> 16 * (n - 1) < len <= 16 * n,
{
    if len % 16 == 0 {
        len / 16
    } else {
        len / 16 + 1
    }
}

/// Encrypts `data`, which is at least one block long. The ciphertext is as
/// long as `data` and decrypts to it.
pub(crate) fn cts_encrypt(key: &[u8; AES_256_KEY_LEN], data: &[u8]) -> (out: Vec<u8>)
    requires
        data.len() >= 16,
    ensures
        out@ == spec_cts_encrypt(key@, data@),
        out.len() == data.len(),
        spec_cts_decrypt(key@, out@) == data@,
{
    let n = block_count(data.len());
    let mut blocks: Vec<[u8; AES_BLOCK_LEN]> = Vec::new();
    let mut before = [0u8; AES_BLOCK_LEN];
    assert(before@ =~= spec_zeros(16));
    let mut i: usize = 0;
    while i < n
        invariant
            i <= n,
            n == spec_block_count(data.len() as nat),
            16 * (n - 1) < data.len() <= 16 * n,
            blocks.len() == i,
            before@ == spec_chain_before(key@, data@, i as nat),
            forall|j: int| 0 <= j < i ==> (#[trigger] blocks@[j])@ == spec_chain_block(key@, data@,
                j as nat),
            spec_chain_opens(key@, data@, i as nat),
        decreases n - i,
    {
        let block = padded_block(data, i);
        let mixed = xor_block(&block, &before);
        let sealed = aes256_encrypt_block(key, &mixed);
        assert(sealed@ == spec_chain_block(key@, data@, i as nat));
        blocks.push(sealed);
        before = sealed;
        i = i + 1;
    }
    proof {
        lemma_cts_roundtrip(key@, data@);
    }
    let mut out: Vec<u8> = Vec::new();
    if n <= 1 {
        append_block(&mut out, &blocks[0], AES_BLOCK_LEN);
        assert(blocks@[0]@.take(16) =~= blocks@[0]@);
        assert(out@ =~= spec_chain_block(key@, data@, 0));
    } else {
        let mut j: usize = 0;
        while j < n - 2
            invariant
                j <= n - 2,
                n >= 2,
                blocks.len() == n,
                out@ == spec_chain(key@, data@, j as nat),
                forall|k: int| 0 <= k < n ==> (#[trigger] blocks@[k])@ == spec_chain_block(key@,
                    data@, k as nat),
            decreases n - 2 - j,
        {
            append_block(&mut out, &blocks[j], AES_BLOCK_LEN);
            assert(blocks@[j as int]@.take(16) =~= blocks@[j as int]@);
            j = j + 1;
        }
        append_block(&mut out, &blocks[n - 1], AES_BLOCK_LEN);
        assert(blocks@[n - 1]@.take(16) =~= blocks@[n - 1]@);
        let last_len: usize = data.len() - 16 * (n - 1);
        append_block(&mut out, &blocks[n - 2], last_len);
    }
    out
}

/// The sixteen bytes of `data` from `start` on.
fn block_at(data: &[u8], start: usize) -> (block: [u8; AES_BLOCK_LEN])
    requires
        start + 16 <= data.len(),
    ensures
        block@ == data@.subrange(start as int, start + 16),
{
    let mut block = [0u8; AES_BLOCK_LEN];
    let mut j: usize = 0;
    while j < AES_BLOCK_LEN
        invariant
            j <= AES_BLOCK_LEN,
            start + 16 <= data.len(),
            forall|k: int| 0 <= k < j ==> block@[k] == data@[start + k],
        decreases AES_BLOCK_LEN - j,
    {
        block[j] = data[start + j];
        j = j + 1;
    }
    assert(block@ =~= data@.subrange(start as int, start + 16));
    block
}

/// Decrypts `cipher`, which is at least one block long.
pub(crate) fn cts_decrypt(key: &[u8; AES_256_KEY_LEN], cipher: &[u8]) -> (out: Vec<u8>)
    requires
        cipher.len() >= 16,
    ensures
        out@ == spec_cts_decrypt(key@, cipher@),
        out.len() == cipher.len(),
{
    let n = block_count(cipher.len());
    let mut out: Vec<u8> = Vec::new();
    let mut before = [0u8; AES_BLOCK_LEN];
    assert(before@ =~= spec_zeros(16));
    if n <= 1 {
        let block = block_at(cipher, 0);
        let opened = aes256_decrypt_block(key, &block);
        let plain = xor_block(&opened, &before);
        append_block(&mut out, &plain, AES_BLOCK_LEN);
        assert(plain@.take(16) =~= plain@);
        assert(out@ =~= spec_plain_block(key@, cipher@, 0));
        return out;
    }
    let mut i: usize = 0;
    while i < n - 2
        invariant
            i <= n - 2,
            n >= 2,
            16 * (n - 1) < cipher.len() <= 16 * n,
            out@ == spec_plain(key@, cipher@, i as nat),
            out.len() == 16 * i,
            before@ == spec_cipher_before(cipher@, i as nat),
        decreases n - 2 - i,
    {
        let block = block_at(cipher, 16 * i);
        let opened = aes256_decrypt_block(key, &block);
        let plain = xor_block(&opened, &before);
        append_block(&mut out, &plain, AES_BLOCK_LEN);
        assert(plain@.take(16) =~= plain@);
        before = block;
        i = i + 1;
    }
    let last_len: usize = cipher.len() - 16 * (n - 1);
    let last_full = block_at(cipher, 16 * (n - 2));
    let opened = aes256_decrypt_block(key, &last_full);
    let ghost tail = cipher@.subrange((16 * (n - 1)) as int, cipher@.len() as int);
    let mut stolen = opened;
    let mut end = [0u8; AES_BLOCK_LEN];
    let mut j: usize = 0;
    while j < last_len
        invariant
            j <= last_len <= 16,
            last_len == cipher.len() - 16 * (n - 1),
            n >= 2,
            tail == cipher@.subrange((16 * (n - 1)) as int, cipher@.len() as int),
            forall|k: int| 0 <= k < j ==> stolen@[k] == tail[k],
            forall|k: int| j <= k < 16 ==> stolen@[k] == opened@[k],
            forall|k: int| 0 <= k < j ==> end@[k] == opened@[k] ^ tail[k],
        decreases last_len - j,
    {
        let byte = cipher[16 * (n - 1) + j];
        assert(byte == tail[j as int]);
        stolen[j] = byte;
        end[j] = opened[j] ^ byte;
        j = j + 1;
    }
    assert(stolen@ =~= tail + opened@.subrange(last_len as int, 16));
    assert(end@.take(last_len as int) =~= spec_xor(opened@.take(last_len as int), tail));
    let second = aes256_decrypt_block(key, &stolen);
    let plain = xor_block(&second, &before);
    append_block(&mut out, &plain, AES_BLOCK_LEN);
    assert(plain@.take(16) =~= plain@);
    append_block(&mut out, &end, last_len);
    out
}

} // verus!
