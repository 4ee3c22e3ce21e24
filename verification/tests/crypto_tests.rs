use kerberos_proto::crypto::nfold::{gcd, nfold, NFOLD_MAX_LEN};
use kerberos_proto::crypto::{
    decrypt_aes256_cts_hmac_sha1_96, derive_key_aes256_cts_hmac_sha1_96,
    encrypt_aes256_cts_hmac_sha1_96, encrypt_with_confounder,
};
use kerberos_proto::error::KrbError;

fn hex(bytes: &[u8]) -> String {
    let mut out = String::new();
    for b in bytes {
        out.push_str(&format!("{:02x}", b));
    }
    out
}

fn unhex(text: &str) -> Vec<u8> {
    let digits: Vec<u8> = text
        .bytes()
        .map(|c| match c {
            b'0'..=b'9' => c - b'0',
            b'a'..=b'f' => c - b'a' + 10,
            _ => panic!("not a hex digit"),
        })
        .collect();
    digits.chunks(2).map(|pair| pair[0] * 16 + pair[1]).collect()
}

fn athena_key(iterations: u32) -> [u8; 32] {
    derive_key_aes256_cts_hmac_sha1_96(b"password", b"ATHENA.MIT.EDUraeburn", iterations)
}

#[test]
fn gcd_of_small_numbers() {
    assert_eq!(gcd(12, 18), 6);
    assert_eq!(gcd(5, 16), 1);
    assert_eq!(gcd(8, 16), 8);
    assert_eq!(gcd(7, 0), 7);
}

#[test]
fn nfold_matches_published_vectors() {
    assert_eq!(hex(&nfold(b"012345", 8).unwrap()), "be072631276b1955");
    assert_eq!(hex(&nfold(b"password", 7).unwrap()), "78a07b6caf85fa");
    assert_eq!(
        hex(&nfold(b"Rough Consensus, and Running Code", 8).unwrap()),
        "bb6ed30870b7f0e0"
    );
    assert_eq!(
        hex(&nfold(b"password", 21).unwrap()),
        "59e4a8ca7c0385c3c37b3f6d2000247cb6e6bd5b3e"
    );
    assert_eq!(
        hex(&nfold(b"MASSACHVSETTS INSTITVTE OF TECHNOLOGY", 24).unwrap()),
        "db3b0d8f0b061e603282b308a50841229ad798fab9540c1b"
    );
    assert_eq!(
        hex(&nfold(b"Q", 21).unwrap()),
        "518a54a215a8452a518a54a215a8452a518a54a215"
    );
    assert_eq!(
        hex(&nfold(b"ba", 21).unwrap()),
        "fb25d531ae8974499f52fd92ea9857c4ba24cf297e"
    );
}

#[test]
fn nfold_takes_no_empty_and_no_oversized_lengths() {
    assert_eq!(nfold(b"", 8), None);
    assert_eq!(nfold(b"abc", 0), None);
    assert_eq!(nfold(&vec![1u8; NFOLD_MAX_LEN + 1], 8), None);
    assert_eq!(nfold(b"abc", NFOLD_MAX_LEN + 1), None);
    assert_eq!(nfold(b"abc", 3), Some(b"abc".to_vec()));
    assert_eq!(nfold(&vec![7u8; NFOLD_MAX_LEN], 1).map(|v| v.len()), Some(1));
}

#[test]
fn nfold_of_the_string_to_key_constant() {
    assert_eq!(hex(&nfold(b"kerberos", 8).unwrap()), "6b65726265726f73");
    assert_eq!(
        hex(&nfold(b"kerberos", 16).unwrap()),
        "6b65726265726f737b9b5b2b93132b93"
    );
    assert_eq!(
        hex(&nfold(b"kerberos", 32).unwrap()),
        "6b65726265726f737b9b5b2b93132b935c9bdcdad95c9899c4cae4dee6d6cae4"
    );
}

#[test]
fn string_to_key_matches_published_vectors() {
    assert_eq!(
        hex(&athena_key(1)),
        "fe697b52bc0d3ce14432ba036a92e65bbb52280990a2fa27883998d72af30161"
    );
    assert_eq!(
        hex(&athena_key(2)),
        "a2e16d16b36069c135d5e9d2e25f896102685618b95914b467c67622225824ff"
    );
    assert_eq!(
        hex(&athena_key(1200)),
        "55a6ac740ad17b4846941051e1e8b0a7548d93b0ab30a8bc3ff16280382b8c2a"
    );
    assert_eq!(
        hex(&derive_key_aes256_cts_hmac_sha1_96(
            b"password",
            &unhex("1234567878563412"),
            5
        )),
        "97a4e786be20d81a382d5ebc96d5909cabcdadc87ca48f574504159f16c36e31"
    );
}

#[test]
fn key_derivation_is_deterministic() {
    let first = derive_key_aes256_cts_hmac_sha1_96(b"secret", b"REALMuser", 10);
    let second = derive_key_aes256_cts_hmac_sha1_96(b"secret", b"REALMuser", 10);
    assert_eq!(first, second);
}

#[test]
fn key_derivation_depends_on_every_input() {
    let base = derive_key_aes256_cts_hmac_sha1_96(b"secret", b"REALMuser", 10);
    assert_ne!(
        base,
        derive_key_aes256_cts_hmac_sha1_96(b"secreu", b"REALMuser", 10)
    );
    assert_ne!(
        base,
        derive_key_aes256_cts_hmac_sha1_96(b"secret", b"REALMuses", 10)
    );
    assert_ne!(
        base,
        derive_key_aes256_cts_hmac_sha1_96(b"secret", b"REALMuser", 11)
    );
}

#[test]
fn encryption_with_a_given_confounder_matches_reference_values() {
    let key = athena_key(2);
    let confounder: [u8; 16] = [
        100, 101, 102, 103, 104, 105, 106, 107, 108, 109, 110, 111, 112, 113, 114, 115,
    ];
    let expected = [
        (0usize, "fae1c054164fac068b5e8fcaeff43047e738b817e325e2bb1e62d180"),
        (1, "a9b893ff85f4e25368d7dd93afb81762fa554cbb2e6ad983862f66f399"),
        (
            15,
            "799d04fc0ec0fdc407fdd406c367ad18fae1c054164fac068b5e8fcaeff430249bb3b3b613421d74874699",
        ),
        (
            16,
            "be6535748525598e723f7c2556633a3cfae1c054164fac068b5e8fcaeff43047d5446169aa1e6e54e9d90118",
        ),
        (
            17,
            "fae1c054164fac068b5e8fcaeff43047bc3f76a6eefb156daaf1b5c029313a43bef64ef50a4ef37a29588a28dd",
        ),
        (
            40,
            "fae1c054164fac068b5e8fcaeff43047be6535748525598e723f7c2556633a3c29109de8f50d53ec6e32c31aaf96ef478b16acf3d108b2232de24d0964a6dcdd6e5f490a",
        ),
    ];
    for (len, want) in expected {
        let plaintext: Vec<u8> = (0..len).map(|i| i as u8).collect();
        let sealed = encrypt_with_confounder(&key, &plaintext, 1, &confounder);
        assert_eq!(hex(&sealed), want);
    }
    let sealed = encrypt_with_confounder(&key, b"hello", 3, &[0u8; 16]);
    assert_eq!(
        hex(&sealed),
        "f468a346350ee8fcd32f21e0e6506ba9e375d238f3a558aff343e44554cf128350"
    );
}

#[test]
fn encryption_with_a_given_confounder_is_deterministic() {
    let key = athena_key(1);
    let confounder = [9u8; 16];
    let first = encrypt_with_confounder(&key, b"the same plaintext", 1, &confounder);
    let second = encrypt_with_confounder(&key, b"the same plaintext", 1, &confounder);
    assert_eq!(first, second);
}

#[test]
fn encrypt_then_decrypt_gives_the_plaintext_back() {
    let key = athena_key(2);
    for usage in [1, 3] {
        for len in 0..70usize {
            let plaintext: Vec<u8> = (0..len).map(|i| (i * 13 + 1) as u8).collect();
            let sealed = encrypt_aes256_cts_hmac_sha1_96(&key, &plaintext, usage);
            assert_eq!(sealed.len(), len + 28);
            assert_eq!(
                decrypt_aes256_cts_hmac_sha1_96(&key, &sealed, usage),
                Ok(plaintext)
            );
        }
    }
}

#[test]
fn two_encryptions_differ_and_both_decrypt() {
    let key = athena_key(2);
    let first = encrypt_aes256_cts_hmac_sha1_96(&key, b"payload", 3);
    let second = encrypt_aes256_cts_hmac_sha1_96(&key, b"payload", 3);
    assert_ne!(first, second);
    assert_eq!(
        decrypt_aes256_cts_hmac_sha1_96(&key, &first, 3),
        Ok(b"payload".to_vec())
    );
    assert_eq!(
        decrypt_aes256_cts_hmac_sha1_96(&key, &second, 3),
        Ok(b"payload".to_vec())
    );
}

#[test]
fn every_flipped_bit_is_detected() {
    let key = athena_key(2);
    let plaintext: Vec<u8> = (0..150u32).map(|i| (i * 31 + 7) as u8).collect();
    let sealed = encrypt_aes256_cts_hmac_sha1_96(&key, &plaintext, 3);
    let bits = sealed.len() * 8;
    assert!(bits >= 1000);
    let mut state: u64 = 0x2545f4914f6cdd1d;
    let mut flips = 0;
    while flips < 1000 {
        state ^= state << 13;
        state ^= state >> 7;
        state ^= state << 17;
        let position = (state % bits as u64) as usize;
        let mut changed = sealed.clone();
        changed[position / 8] ^= 1 << (position % 8);
        assert_eq!(
            decrypt_aes256_cts_hmac_sha1_96(&key, &changed, 3),
            Err(KrbError::DecryptionFailed)
        );
        flips += 1;
    }
}

#[test]
fn the_wrong_key_usage_is_a_decryption_error() {
    let key = athena_key(2);
    let sealed = encrypt_aes256_cts_hmac_sha1_96(&key, b"for usage one", 1);
    assert_eq!(
        decrypt_aes256_cts_hmac_sha1_96(&key, &sealed, 3),
        Err(KrbError::DecryptionFailed)
    );
    assert_eq!(
        decrypt_aes256_cts_hmac_sha1_96(&key, &sealed, -1),
        Err(KrbError::DecryptionFailed)
    );
}

#[test]
fn the_wrong_key_is_a_decryption_error() {
    let sealed = encrypt_aes256_cts_hmac_sha1_96(&athena_key(2), b"secret", 3);
    assert_eq!(
        decrypt_aes256_cts_hmac_sha1_96(&athena_key(1), &sealed, 3),
        Err(KrbError::DecryptionFailed)
    );
}

#[test]
fn a_ciphertext_that_is_too_short_is_a_decryption_error() {
    let key = athena_key(1);
    for len in 0..28usize {
        let short = vec![0u8; len];
        assert_eq!(
            decrypt_aes256_cts_hmac_sha1_96(&key, &short, 1),
            Err(KrbError::DecryptionFailed)
        );
    }
}

#[test]
fn negative_key_usage_round_trips() {
    let key = athena_key(1);
    let sealed = encrypt_aes256_cts_hmac_sha1_96(&key, b"odd usage", -7);
    assert_eq!(
        decrypt_aes256_cts_hmac_sha1_96(&key, &sealed, -7),
        Ok(b"odd usage".to_vec())
    );
}
