use kerberos_proto::asn1::der::write_element;
use kerberos_proto::asn1::encrypted_data::{EncryptionKey, KdcEncryptedData};
use kerberos_proto::asn1::kdc_rep::{EncKdcRepPart, KdcRep};
use kerberos_proto::asn1::krb_error::KrbErrorMsg;
use kerberos_proto::asn1::pa_data::{ETypeInfo2Entry, PaEncTsEnc, PreAuthData};
use kerberos_proto::asn1::principal_name::PrincipalName;
use kerberos_proto::asn1::ticket::TaggedTicket;
use kerberos_proto::constants::{
    EncryptionType, KrbErrorCode, KrbMessageType, PaDataType, KEY_USAGE_KDC_REP_ENC_PART,
    KEY_USAGE_PA_ENC_TIMESTAMP, PKBDF2_SHA1_ITER, RFC_PKBDF2_SHA1_ITER,
};
use kerberos_proto::crypto::{encrypt_aes256_cts_hmac_sha1_96, encrypt_with_confounder};
use kerberos_proto::error::{ErrorKind, KrbError};
use kerberos_proto::proto::preauth::{pa_enc_timestamp, pa_fx_cookie, sort_by_strength};
use kerberos_proto::proto::strength::strength;
use kerberos_proto::proto::{
    sort_cryptographic_strength, BaseKey, DerivedKey, EncryptedData, EtypeInfo2, KdcPrimaryKey,
    KdcReplyPart, KerberosAsRep, KerberosErrRep, KerberosPaRep, KerberosRequest,
    KerberosResponse, KerberosTgsRep, Name, Preauth, PreauthData, SessionKey, Ticket,
};
use std::cmp::Ordering;

const ALICE_KEY: &str = "40fca5497ff2257d2f270dfab356264d1a7ac5854cc1a0dead9fa6a08be6b2af";

const CAPTURED_ERROR: &str = "7e8189308186a003020105a10302011ea411180f32303233313131343232313332305aa50302010ca603020119a90d1b0b4558414d504c452e434f4daa20301ea003020102a11730151b066b72627467741b0b4558414d504c452e434f4dac2c042a30283026a103020113a21f041d301b3019a003020112a1121b104558414d504c452e434f4d616c696365";

fn application_tag(number: u8) -> u8 {
    0x60 + number
}

fn hex(bytes: &[u8]) -> String {
    let mut out = String::new();
    for b in bytes {
        out.push_str(&format!("{:02x}", b));
    }
    out
}

fn unhex(text: &str) -> Vec<u8> {
    let digits: Vec<u8> = text
        .bytes()
        .map(|c| match c {
            b'0'..=b'9' => c - b'0',
            b'a'..=b'f' => c - b'a' + 10,
            _ => panic!("not a hex digit"),
        })
        .collect();
    digits.chunks(2).map(|pair| pair[0] * 16 + pair[1]).collect()
}

fn wire_name(name_type: i32, parts: &[&str]) -> PrincipalName {
    PrincipalName {
        name_type,
        name_string: parts.iter().map(|p| p.as_bytes().to_vec()).collect(),
    }
}

fn key_bytes(key: &DerivedKey) -> [u8; 32] {
    match key {
        DerivedKey::Aes256CtsHmacSha196 { k, .. } => *k,
    }
}

fn quick_key() -> DerivedKey {
    let hint = EtypeInfo2::new(
        EncryptionType::AES256_CTS_HMAC_SHA1_96,
        Some("salt".to_string()),
        Some(vec![0, 0, 0, 2]),
    );
    DerivedKey::from_etype_info2(&hint, "R", "u", "passphrase").unwrap()
}

fn hint(etype: EncryptionType, salt: &str) -> EtypeInfo2 {
    EtypeInfo2::new(etype, Some(salt.to_string()), None)
}

fn error_message(error_code: i32, error_data: Option<Vec<u8>>) -> KrbErrorMsg {
    KrbErrorMsg {
        pvno: 5,
        msg_type: 30,
        ctime: None,
        cusec: None,
        stime: 1_700_000_000,
        susec: 12,
        error_code,
        crealm: None,
        cname: None,
        realm: b"EXAMPLE.COM".to_vec(),
        sname: wire_name(2, &["krbtgt", "EXAMPLE.COM"]),
        error_text: None,
        error_data,
    }
}

fn error_bytes(message: &KrbErrorMsg) -> Vec<u8> {
    write_element(application_tag(30), &message.encode().unwrap()).unwrap()
}

fn alice_hints() -> Vec<u8> {
    ETypeInfo2Entry::encode_list(&vec![ETypeInfo2Entry {
        etype: 18,
        salt: Some(b"EXAMPLE.COMalice".to_vec()),
        s2kparams: None,
    }])
    .unwrap()
}

fn alice_method_data() -> Vec<u8> {
    PreAuthData::encode_list(&vec![PreAuthData {
        pa_type: 19,
        pa_value: alice_hints(),
    }])
    .unwrap()
}

fn sample_ticket() -> TaggedTicket {
    TaggedTicket {
        tkt_vno: 5,
        realm: b"EXAMPLE.COM".to_vec(),
        sname: wire_name(2, &["krbtgt", "EXAMPLE.COM"]),
        enc_part: KdcEncryptedData {
            etype: 18,
            kvno: Some(1),
            cipher: vec![1, 2, 3, 4],
        },
    }
}

fn sample_reply(msg_type: u8, etype: i32) -> KdcRep {
    KdcRep {
        pvno: 5,
        msg_type,
        padata: None,
        crealm: b"EXAMPLE.COM".to_vec(),
        cname: wire_name(1, &["alice"]),
        ticket: sample_ticket(),
        enc_part: KdcEncryptedData {
            etype,
            kvno: Some(3),
            cipher: vec![5; 60],
        },
    }
}

fn reply_bytes(tag_number: u8, reply: &KdcRep) -> Vec<u8> {
    write_element(application_tag(tag_number), &reply.encode().unwrap()).unwrap()
}

fn sample_part(key_len: usize) -> EncKdcRepPart {
    EncKdcRepPart {
        key: EncryptionKey {
            key_type: 18,
            key_value: vec![3; key_len],
        },
        last_req: vec![0x30, 0x00],
        nonce: 0xdead_beef,
        key_expiration: Some(1_800_000_000),
        flags: 0x4081_0000,
        auth_time: 1_700_000_000,
        start_time: None,
        end_time: 1_700_036_000,
        renew_till: Some(1_700_600_000),
        server_realm: b"EXAMPLE.COM".to_vec(),
        server_name: wire_name(2, &["krbtgt", "EXAMPLE.COM"]),
        client_addresses: None,
        encrypted_pa_data: None,
    }
}

fn alice_request(nonce: u32) -> KerberosRequest {
    KerberosRequest::build_asreq(
        "alice".to_string(),
        "krbtgt".to_string(),
        "EXAMPLE.COM".to_string(),
        None,
        1_700_003_600,
        None,
    )
    .build_with_nonce(nonce)
}

fn as_req(request: &KerberosRequest) -> &kerberos_proto::proto::KerberosAsReq {
    match request {
        KerberosRequest::AsReq(req) => req,
    }
}

// ---- constants and errors ---------------------------------------------------

#[test]
fn registry_numbers_map_both_ways() {
    assert_eq!(EncryptionType::AES256_CTS_HMAC_SHA1_96.to_code(), 18);
    assert_eq!(EncryptionType::AES128_CTS_HMAC_SHA1_96.to_code(), 17);
    assert_eq!(
        EncryptionType::from_code(18),
        Some(EncryptionType::AES256_CTS_HMAC_SHA1_96)
    );
    assert_eq!(EncryptionType::from_code(0), None);
    assert_eq!(EncryptionType::from_code(-18), None);
    assert_eq!(KrbMessageType::KrbAsReq.to_code(), 10);
    assert_eq!(KrbMessageType::from_code(30), Some(KrbMessageType::KrbError));
    assert_eq!(KrbMessageType::from_code(18), None);
    assert_eq!(PaDataType::PaEncTimestamp.to_code(), 2);
    assert_eq!(PaDataType::PaEtypeInfo2.to_code(), 19);
    assert_eq!(PaDataType::PaFxCookie.to_code(), 133);
    assert_eq!(PaDataType::PaFxFast.to_code(), 136);
    assert_eq!(PaDataType::from_code(4), None);
    assert_eq!(KrbErrorCode::KdcErrPreauthRequired.to_code(), 25);
    assert_eq!(
        KrbErrorCode::from_code(24),
        Some(KrbErrorCode::KdcErrPreauthFailed)
    );
    assert_eq!(KrbErrorCode::from_code(30), None);
    assert_eq!(KrbErrorCode::from_code(43), None);
    assert_eq!(KrbErrorCode::from_code(77), None);
    assert_eq!(KrbErrorCode::from_code(-1), None);
    for raw in 0..100 {
        if let Some(code) = KrbErrorCode::from_code(raw) {
            assert_eq!(code.to_code(), raw);
        }
    }
    assert_eq!(RFC_PKBDF2_SHA1_ITER, 4096);
    assert_eq!(PKBDF2_SHA1_ITER, 32768);
    assert_eq!(KEY_USAGE_PA_ENC_TIMESTAMP, 1);
    assert_eq!(KEY_USAGE_KDC_REP_ENC_PART, 3);
}

#[test]
fn every_error_belongs_to_a_family() {
    assert_eq!(KrbError::DerEncodeKdcReq.kind(), ErrorKind::Encoding);
    assert_eq!(KrbError::NameNotRepresentable.kind(), ErrorKind::Encoding);
    assert_eq!(KrbError::DerDecodePaData.kind(), ErrorKind::Decoding);
    assert_eq!(KrbError::DerDecodeEncKdcRepPart.kind(), ErrorKind::Decoding);
    assert_eq!(KrbError::UnexpectedTag(1).kind(), ErrorKind::Protocol);
    assert_eq!(KrbError::InvalidMessageType(1, 2).kind(), ErrorKind::Protocol);
    assert_eq!(KrbError::UnknownErrorCode(99).kind(), ErrorKind::Protocol);
    assert_eq!(KrbError::MissingPaData.kind(), ErrorKind::Protocol);
    assert_eq!(KrbError::UnsupportedEncryption.kind(), ErrorKind::Crypto);
    assert_eq!(KrbError::InvalidEncryptionKey.kind(), ErrorKind::Crypto);
    assert_eq!(KrbError::PreauthInvalidS2KParams.kind(), ErrorKind::Crypto);
    assert_eq!(KrbError::DecryptionFailed.kind(), ErrorKind::Crypto);
    assert_eq!(KrbError::FrameTooLarge.kind(), ErrorKind::Frame);
}

// ---- names --------------------------------------------------------------------

#[test]
fn names_are_built_from_their_parts() {
    assert_eq!(
        Name::principal("alice", "EXAMPLE.COM"),
        Name::Principal {
            name: "alice".to_string(),
            realm: "EXAMPLE.COM".to_string()
        }
    );
    assert_eq!(
        Name::service_krbtgt("EXAMPLE.COM"),
        Name::SrvInst {
            service: "krbtgt".to_string(),
            realm: "EXAMPLE.COM".to_string()
        }
    );
}

#[test]
fn the_ticket_granting_service_is_recognised() {
    let krbtgt = Name::service_krbtgt("EXAMPLE.COM");
    assert!(krbtgt.is_service_krbtgt("EXAMPLE.COM"));
    assert!(!krbtgt.is_service_krbtgt("OTHER.COM"));
    assert!(!krbtgt.is_service_krbtgt("example.com"));
    assert!(!Name::principal("krbtgt", "EXAMPLE.COM").is_service_krbtgt("EXAMPLE.COM"));
    let other = Name::SrvInst {
        service: "ldap".to_string(),
        realm: "EXAMPLE.COM".to_string(),
    };
    assert!(!other.is_service_krbtgt("EXAMPLE.COM"));
    let host = Name::SrvHst {
        service: "krbtgt".to_string(),
        host: "h".to_string(),
        realm: "EXAMPLE.COM".to_string(),
    };
    assert!(!host.is_service_krbtgt("EXAMPLE.COM"));
}

#[test]
fn only_a_principal_has_a_principal_name() {
    assert_eq!(
        Name::principal("alice", "EXAMPLE.COM").principal_name(),
        Ok(("alice", "EXAMPLE.COM"))
    );
    assert_eq!(
        Name::service_krbtgt("EXAMPLE.COM").principal_name(),
        Err(KrbError::NameNotPrincipal)
    );
}

#[test]
fn names_go_to_the_wire_beside_their_realm() {
    let (name, realm) = Name::try_into(&Name::principal("alice", "EXAMPLE.COM")).unwrap();
    assert_eq!(name, wire_name(1, &["alice"]));
    assert_eq!(realm, b"EXAMPLE.COM".to_vec());
    let (name, realm) = Name::try_into(&Name::service_krbtgt("R")).unwrap();
    assert_eq!(name, wire_name(2, &["krbtgt"]));
    assert_eq!(realm, b"R".to_vec());
    let host = Name::SrvHst {
        service: "host".to_string(),
        host: "a.example.com".to_string(),
        realm: "EXAMPLE.COM".to_string(),
    };
    let (name, _) = Name::try_into(&host).unwrap();
    assert_eq!(name, wire_name(3, &["host", "a.example.com"]));
    assert_eq!(host.try_into_realm(), Ok(b"EXAMPLE.COM".to_vec()));
}

#[test]
fn names_go_to_the_wire_with_their_realm_as_last_component() {
    assert_eq!(
        Name::principal("alice", "EXAMPLE.COM").try_into_principal_name(),
        Ok(wire_name(1, &["alice", "EXAMPLE.COM"]))
    );
    assert_eq!(
        Name::service_krbtgt("EXAMPLE.COM").try_into_principal_name(),
        Ok(wire_name(2, &["krbtgt", "EXAMPLE.COM"]))
    );
}

#[test]
fn a_name_outside_the_alphabet_cannot_go_to_the_wire() {
    assert_eq!(
        Name::try_into(&Name::principal("al\u{e9}ce", "EXAMPLE.COM")),
        Err(KrbError::NameNotRepresentable)
    );
    assert_eq!(
        Name::try_into(&Name::principal("alice", "EX\u{c4}MPLE")),
        Err(KrbError::NameNotRepresentable)
    );
    assert_eq!(
        Name::principal("alice", "EX\u{c4}MPLE").try_into_realm(),
        Err(KrbError::NameNotRepresentable)
    );
    assert_eq!(
        Name::principal("alice", "EX\u{c4}MPLE").try_into_principal_name(),
        Err(KrbError::NameNotRepresentable)
    );
}

#[test]
fn names_are_read_from_the_wire() {
    assert_eq!(
        Name::try_from(&wire_name(1, &["alice"]), b"EXAMPLE.COM"),
        Ok(Name::principal("alice", "EXAMPLE.COM"))
    );
    assert_eq!(
        Name::try_from(&wire_name(2, &["krbtgt", "EXAMPLE.COM"]), b"EXAMPLE.COM"),
        Ok(Name::service_krbtgt("EXAMPLE.COM"))
    );
    assert_eq!(
        Name::try_from(&wire_name(3, &["host", "a.example.com"]), b"R"),
        Ok(Name::SrvHst {
            service: "host".to_string(),
            host: "a.example.com".to_string(),
            realm: "R".to_string()
        })
    );
    assert_eq!(
        Name::try_from_principal_name(&wire_name(1, &["alice", "EXAMPLE.COM"])),
        Ok(Name::principal("alice", "EXAMPLE.COM"))
    );
    assert_eq!(
        Name::try_from_principal_name(&wire_name(3, &["host", "h", "R"])),
        Ok(Name::SrvHst {
            service: "host".to_string(),
            host: "h".to_string(),
            realm: "R".to_string()
        })
    );
}

#[test]
fn names_that_cannot_be_read_are_errors() {
    assert_eq!(
        Name::try_from(&wire_name(1, &[]), b"R"),
        Err(KrbError::NameComponentsMissing)
    );
    assert_eq!(
        Name::try_from(&wire_name(3, &["host"]), b"R"),
        Err(KrbError::NameComponentsMissing)
    );
    assert_eq!(
        Name::try_from(&wire_name(0, &["x"]), b"R"),
        Err(KrbError::NameTypeUnsupported(0))
    );
    assert_eq!(
        Name::try_from(&wire_name(10, &["x"]), b"R"),
        Err(KrbError::NameTypeUnsupported(10))
    );
    assert_eq!(
        Name::try_from(&wire_name(1, &["alice"]), &[0xff]),
        Err(KrbError::NameNotRepresentable)
    );
    assert_eq!(
        Name::try_from_principal_name(&wire_name(1, &["alice"])),
        Err(KrbError::NameComponentsMissing)
    );
    assert_eq!(
        Name::try_from_principal_name(&wire_name(3, &["a", "b"])),
        Err(KrbError::NameComponentsMissing)
    );
    assert_eq!(
        Name::try_from_principal_name(&wire_name(7, &["a", "b", "c"])),
        Err(KrbError::NameTypeUnsupported(7))
    );
}

#[test]
fn names_come_back_from_the_wire_as_they_went() {
    let names = vec![
        Name::principal("alice", "EXAMPLE.COM"),
        Name::service_krbtgt("EXAMPLE.COM"),
        Name::SrvHst {
            service: "host".to_string(),
            host: "a.example.com".to_string(),
            realm: "EXAMPLE.COM".to_string(),
        },
    ];
    for name in names {
        let (wire, realm) = Name::try_into(&name).unwrap();
        assert_eq!(Name::try_from(&wire, &realm), Ok(name.clone()));
        let with_realm = name.try_into_principal_name().unwrap();
        assert_eq!(Name::try_from_principal_name(&with_realm), Ok(name));
    }
}

// ---- hints and keys -------------------------------------------------------------

#[test]
fn encryption_types_are_ranked() {
    assert_eq!(strength(EncryptionType::AES256_CTS_HMAC_SHA1_96), 2);
    assert_eq!(strength(EncryptionType::AES128_CTS_HMAC_SHA1_96), 1);
    assert_eq!(strength(EncryptionType::RC4_HMAC), 0);
    assert_eq!(strength(EncryptionType::AES256_CTS_HMAC_SHA384_192), 0);
    let strong = hint(EncryptionType::AES256_CTS_HMAC_SHA1_96, "a");
    let medium = hint(EncryptionType::AES128_CTS_HMAC_SHA1_96, "b");
    let weak = hint(EncryptionType::RC4_HMAC, "c");
    let other = hint(EncryptionType::DES_CBC_CRC, "d");
    assert_eq!(sort_cryptographic_strength(&strong, &medium), Ordering::Less);
    assert_eq!(sort_cryptographic_strength(&medium, &strong), Ordering::Greater);
    assert_eq!(sort_cryptographic_strength(&medium, &weak), Ordering::Less);
    assert_eq!(sort_cryptographic_strength(&weak, &strong), Ordering::Greater);
    assert_eq!(sort_cryptographic_strength(&weak, &other), Ordering::Equal);
    assert_eq!(sort_cryptographic_strength(&strong, &strong), Ordering::Equal);
}

#[test]
fn the_strongest_hint_comes_first_whatever_the_order() {
    let strong = hint(EncryptionType::AES256_CTS_HMAC_SHA1_96, "strong");
    let medium = hint(EncryptionType::AES128_CTS_HMAC_SHA1_96, "medium");
    let weak = hint(EncryptionType::RC4_HMAC, "weak");
    let orders = vec![
        vec![medium.clone(), strong.clone(), weak.clone()],
        vec![medium.clone(), weak.clone(), strong.clone()],
        vec![strong.clone(), medium.clone(), weak.clone()],
        vec![strong.clone(), weak.clone(), medium.clone()],
        vec![weak.clone(), medium.clone(), strong.clone()],
        vec![weak.clone(), strong.clone(), medium.clone()],
    ];
    for order in orders {
        let sorted = sort_by_strength(&order);
        assert_eq!(sorted, vec![strong.clone(), medium.clone(), weak.clone()]);
        let key = DerivedKey::from_encrypted_reply(
            &EncryptedData::Aes256CtsHmacSha196 {
                kvno: None,
                data: vec![],
            },
            Some(&sorted),
            "R",
            "u",
            "p",
        )
        .unwrap();
        assert_eq!(key.salt(), "strong");
    }
}

#[test]
fn hints_of_the_same_rank_keep_their_order() {
    let first = hint(EncryptionType::AES256_CTS_HMAC_SHA1_96, "first");
    let second = hint(EncryptionType::AES256_CTS_HMAC_SHA1_96, "second");
    let rc4 = hint(EncryptionType::RC4_HMAC, "rc4");
    let des = hint(EncryptionType::DES_CBC_MD5, "des");
    let sorted = sort_by_strength(&vec![
        rc4.clone(),
        first.clone(),
        des.clone(),
        second.clone(),
    ]);
    assert_eq!(sorted, vec![first, second, rc4, des]);
    assert_eq!(sort_by_strength(&vec![]), vec![]);
}

#[test]
fn a_hint_gives_back_what_it_was_made_from() {
    let made = EtypeInfo2::new(
        EncryptionType::AES256_CTS_HMAC_SHA1_96,
        Some("salt".to_string()),
        Some(vec![0, 0, 0x10, 0]),
    );
    assert_eq!(made.etype(), EncryptionType::AES256_CTS_HMAC_SHA1_96);
    assert_eq!(made.salt(), Some("salt"));
    assert_eq!(made.s2kparams(), Some(&[0u8, 0, 0x10, 0][..]));
    assert_eq!(made.wire_iterations(), Ok(4096));
    assert_eq!(made.iteration_count(), Ok(4096));
    let bare = EtypeInfo2::new(EncryptionType::RC4_HMAC, None, None);
    assert_eq!(bare.salt(), None);
    assert_eq!(bare.s2kparams(), None);
    assert_eq!(bare.iteration_count(), Ok(4096));
}

#[test]
fn four_zero_bytes_ask_for_two_to_the_thirty_two_iterations() {
    let zero = EtypeInfo2::new(
        EncryptionType::AES256_CTS_HMAC_SHA1_96,
        None,
        Some(vec![0, 0, 0, 0]),
    );
    assert_eq!(zero.wire_iterations(), Ok(0));
    assert_eq!(zero.iteration_count(), Ok(4_294_967_296));
    let key = DerivedKey::Aes256CtsHmacSha196 {
        k: [0u8; 32],
        i: 0,
        s: String::new(),
    };
    assert_eq!(key.iterations(), 4_294_967_296);
    let one = EtypeInfo2::new(
        EncryptionType::AES256_CTS_HMAC_SHA1_96,
        None,
        Some(vec![0, 0, 0, 1]),
    );
    assert_eq!(one.iteration_count(), Ok(1));
    let most = EtypeInfo2::new(
        EncryptionType::AES256_CTS_HMAC_SHA1_96,
        None,
        Some(vec![0xff, 0xff, 0xff, 0xff]),
    );
    assert_eq!(most.iteration_count(), Ok(4_294_967_295));
}

#[test]
fn parameters_of_another_length_are_an_error() {
    for params in [vec![], vec![0], vec![0, 0, 16], vec![0, 0, 0, 16, 0]] {
        let bad = EtypeInfo2::new(
            EncryptionType::AES256_CTS_HMAC_SHA1_96,
            None,
            Some(params),
        );
        assert_eq!(bad.wire_iterations(), Err(KrbError::PreauthInvalidS2KParams));
        assert_eq!(bad.iteration_count(), Err(KrbError::PreauthInvalidS2KParams));
        assert!(matches!(
            DerivedKey::from_etype_info2(&bad, "R", "u", "p"),
            Err(KrbError::PreauthInvalidS2KParams)
        ));
    }
}

#[test]
fn the_key_of_a_passphrase_matches_the_reference_value() {
    let key = DerivedKey::new_aes256_cts_hmac_sha1_96("Password123", "EXAMPLE.COMalice").unwrap();
    assert_eq!(hex(&key_bytes(&key)), ALICE_KEY);
    assert_eq!(key.salt(), "EXAMPLE.COMalice");
    assert_eq!(key.iterations(), 4096);
    match key.base_key() {
        BaseKey::Aes256 { k } => assert_eq!(hex(&k), ALICE_KEY),
    }
}

#[test]
fn a_hint_without_salt_and_parameters_gives_the_default_key() {
    let bare = EtypeInfo2::new(EncryptionType::AES256_CTS_HMAC_SHA1_96, None, None);
    let key = DerivedKey::from_etype_info2(&bare, "EXAMPLE.COM", "alice", "Password123").unwrap();
    assert_eq!(hex(&key_bytes(&key)), ALICE_KEY);
    assert_eq!(key.salt(), "EXAMPLE.COMalice");
    assert_eq!(key.iterations(), 4096);
}

#[test]
fn a_hint_overrides_salt_and_iterations() {
    let custom = EtypeInfo2::new(
        EncryptionType::AES256_CTS_HMAC_SHA1_96,
        Some("ATHENA.MIT.EDUraeburn".to_string()),
        Some(vec![0, 0, 0x04, 0xb0]),
    );
    let key = DerivedKey::from_etype_info2(&custom, "IGNORED", "ignored", "password").unwrap();
    assert_eq!(
        hex(&key_bytes(&key)),
        "55a6ac740ad17b4846941051e1e8b0a7548d93b0ab30a8bc3ff16280382b8c2a"
    );
    assert_eq!(key.salt(), "ATHENA.MIT.EDUraeburn");
    assert_eq!(key.iterations(), 1200);
}

#[test]
fn a_hint_for_another_encryption_type_is_an_error() {
    let other = EtypeInfo2::new(EncryptionType::AES128_CTS_HMAC_SHA1_96, None, None);
    assert!(matches!(
        DerivedKey::from_etype_info2(&other, "R", "u", "p"),
        Err(KrbError::UnsupportedEncryption)
    ));
    let other = EtypeInfo2::new(EncryptionType::RC4_HMAC, None, Some(vec![1]));
    assert!(matches!(
        DerivedKey::from_etype_info2(&other, "R", "u", "p"),
        Err(KrbError::UnsupportedEncryption)
    ));
}

#[test]
fn the_key_for_a_reply_uses_the_first_hint_that_fits() {
    let payload = EncryptedData::Aes256CtsHmacSha196 {
        kvno: None,
        data: vec![],
    };
    let none = DerivedKey::from_encrypted_reply(&payload, None, "EXAMPLE.COM", "alice", "Password123")
        .unwrap();
    assert_eq!(hex(&key_bytes(&none)), ALICE_KEY);
    let empty =
        DerivedKey::from_encrypted_reply(&payload, Some(&[]), "EXAMPLE.COM", "alice", "Password123")
            .unwrap();
    assert_eq!(hex(&key_bytes(&empty)), ALICE_KEY);
    let hints = vec![
        EtypeInfo2::new(
            EncryptionType::AES128_CTS_HMAC_SHA1_96,
            Some("wrong".to_string()),
            None,
        ),
        EtypeInfo2::new(
            EncryptionType::AES256_CTS_HMAC_SHA1_96,
            Some("ATHENA.MIT.EDUraeburn".to_string()),
            Some(vec![0, 0, 0, 2]),
        ),
        EtypeInfo2::new(
            EncryptionType::AES256_CTS_HMAC_SHA1_96,
            Some("later".to_string()),
            Some(vec![0, 0, 0, 1]),
        ),
    ];
    let key = DerivedKey::from_encrypted_reply(&payload, Some(&hints), "R", "u", "password").unwrap();
    assert_eq!(
        hex(&key_bytes(&key)),
        "a2e16d16b36069c135d5e9d2e25f896102685618b95914b467c67622225824ff"
    );
    let only_others = vec![EtypeInfo2::new(EncryptionType::RC4_HMAC, None, None)];
    let key = DerivedKey::from_encrypted_reply(
        &payload,
        Some(&only_others),
        "EXAMPLE.COM",
        "alice",
        "Password123",
    )
    .unwrap();
    assert_eq!(hex(&key_bytes(&key)), ALICE_KEY);
}

#[test]
fn malformed_parameters_are_an_error_and_no_fallback() {
    let payload = EncryptedData::Aes256CtsHmacSha196 {
        kvno: None,
        data: vec![],
    };
    let hints = vec![
        EtypeInfo2::new(
            EncryptionType::AES256_CTS_HMAC_SHA1_96,
            None,
            Some(vec![0, 0, 1]),
        ),
        EtypeInfo2::new(EncryptionType::AES256_CTS_HMAC_SHA1_96, None, None),
    ];
    assert!(matches!(
        DerivedKey::from_encrypted_reply(&payload, Some(&hints), "R", "u", "p"),
        Err(KrbError::PreauthInvalidS2KParams)
    ));
}

#[test]
fn a_payload_derives_its_key_from_realm_and_name() {
    let payload = EncryptedData::Aes256CtsHmacSha196 {
        kvno: Some(1),
        data: vec![],
    };
    match payload.derive_key(b"Password123", b"EXAMPLE.COM", b"alice") {
        Ok(BaseKey::Aes256 { k }) => assert_eq!(hex(&k), ALICE_KEY),
        Err(e) => panic!("unexpected error {:?}", e),
    }
}

#[test]
fn a_payload_decrypts_with_the_key_and_usage_that_made_it() {
    let key = quick_key();
    let base = key.base_key();
    let data = encrypt_aes256_cts_hmac_sha1_96(&key_bytes(&key), b"inside", 3);
    let payload = EncryptedData::Aes256CtsHmacSha196 { kvno: None, data };
    assert_eq!(payload.decrypt_data(&base, 3), Ok(b"inside".to_vec()));
    assert_eq!(payload.decrypt_data(&base, 1), Err(KrbError::DecryptionFailed));
    let short = EncryptedData::Aes256CtsHmacSha196 {
        kvno: None,
        data: vec![0; 27],
    };
    assert_eq!(short.decrypt_data(&base, 3), Err(KrbError::DecryptionFailed));
}

#[test]
fn payloads_of_other_encryption_types_are_refused() {
    let supported = KdcEncryptedData {
        etype: 18,
        kvno: Some(7),
        cipher: vec![1, 2, 3],
    };
    assert_eq!(
        EncryptedData::try_from(supported.clone()),
        Ok(EncryptedData::Aes256CtsHmacSha196 {
            kvno: Some(7),
            data: vec![1, 2, 3]
        })
    );
    assert_eq!(
        EncryptedData::Aes256CtsHmacSha196 {
            kvno: Some(7),
            data: vec![1, 2, 3]
        }
        .try_into(),
        Ok(supported)
    );
    for etype in [17, 19, 23, 0, -1, 9999] {
        let other = KdcEncryptedData {
            etype,
            kvno: None,
            cipher: vec![],
        };
        assert_eq!(
            EncryptedData::try_from(other),
            Err(KrbError::UnsupportedEncryption)
        );
    }
}

#[test]
fn session_keys_have_the_length_of_their_type() {
    let good = EncryptionKey {
        key_type: 18,
        key_value: (0..32).collect(),
    };
    match SessionKey::try_from(good) {
        Ok(SessionKey::Aes256CtsHmacSha196 { k }) => assert_eq!(k.to_vec(), (0..32).collect::<Vec<u8>>()),
        Err(e) => panic!("unexpected error {:?}", e),
    }
    for len in [0usize, 16, 31, 33] {
        let bad = EncryptionKey {
            key_type: 18,
            key_value: vec![0; len],
        };
        assert!(matches!(
            SessionKey::try_from(bad),
            Err(KrbError::InvalidEncryptionKey)
        ));
    }
    let other = EncryptionKey {
        key_type: 17,
        key_value: vec![0; 16],
    };
    assert!(matches!(
        SessionKey::try_from(other),
        Err(KrbError::UnsupportedEncryption)
    ));
    let unknown = EncryptionKey {
        key_type: 4242,
        key_value: vec![0; 32],
    };
    assert!(matches!(
        SessionKey::try_from(unknown),
        Err(KrbError::UnsupportedEncryption)
    ));
}

#[test]
fn a_primary_key_is_thirty_two_bytes() {
    let bytes: Vec<u8> = (100..132).collect();
    match KdcPrimaryKey::try_from(&bytes) {
        Ok(KdcPrimaryKey::Aes256 { k }) => assert_eq!(k.to_vec(), bytes),
        Err(e) => panic!("unexpected error {:?}", e),
    }
    assert!(matches!(
        KdcPrimaryKey::try_from(&bytes[..31]),
        Err(KrbError::InvalidEncryptionKey)
    ));
    assert!(matches!(
        KdcPrimaryKey::try_from(&[]),
        Err(KrbError::InvalidEncryptionKey)
    ));
}

// ---- encrypted timestamps --------------------------------------------------------

#[test]
fn an_encrypted_timestamp_comes_back() {
    let key = quick_key();
    let stamp = PaEncTsEnc {
        patimestamp: 1_700_000_000,
        pausec: Some(123_456),
    };
    let sealed = key.encrypt_pa_enc_timestamp(&stamp).unwrap();
    match &sealed {
        EncryptedData::Aes256CtsHmacSha196 { kvno, .. } => assert_eq!(*kvno, None),
    }
    assert_eq!(
        sealed.decrypt_pa_enc_timestamp(&key),
        Ok((1_700_000_000, 123_456))
    );
    let whole = PaEncTsEnc {
        patimestamp: 1_700_000_001,
        pausec: None,
    };
    let sealed = key.encrypt_pa_enc_timestamp(&whole).unwrap();
    assert_eq!(sealed.decrypt_pa_enc_timestamp(&key), Ok((1_700_000_001, 0)));
}

#[test]
fn an_encrypted_timestamp_is_made_for_the_usage_of_pre_authentication() {
    let key = quick_key();
    let stamp = PaEncTsEnc {
        patimestamp: 1_700_000_000,
        pausec: None,
    };
    let sealed = key.encrypt_pa_enc_timestamp(&stamp).unwrap();
    assert_eq!(
        sealed.decrypt_data(&key.base_key(), 1),
        Ok(stamp.encode().unwrap())
    );
    assert_eq!(
        sealed.decrypt_data(&key.base_key(), 3),
        Err(KrbError::DecryptionFailed)
    );
}

#[test]
fn an_encrypted_timestamp_with_a_given_confounder_is_deterministic() {
    let key = quick_key();
    let stamp = PaEncTsEnc {
        patimestamp: 1_700_000_000,
        pausec: Some(5),
    };
    let first = key.encrypt_pa_enc_timestamp_with(&stamp, &[7u8; 16]).unwrap();
    let second = key.encrypt_pa_enc_timestamp_with(&stamp, &[7u8; 16]).unwrap();
    assert_eq!(first, second);
    let expected = encrypt_with_confounder(&key_bytes(&key), &stamp.encode().unwrap(), 1, &[7u8; 16]);
    assert_eq!(
        first,
        EncryptedData::Aes256CtsHmacSha196 {
            kvno: None,
            data: expected
        }
    );
    let other = key.encrypt_pa_enc_timestamp_with(&stamp, &[8u8; 16]).unwrap();
    assert_ne!(first, other);
    assert_eq!(other.decrypt_pa_enc_timestamp(&key), Ok((1_700_000_000, 5)));
}

#[test]
fn a_timestamp_that_cannot_be_written_is_an_encoding_error() {
    let key = quick_key();
    let stamp = PaEncTsEnc {
        patimestamp: u64::MAX,
        pausec: None,
    };
    assert_eq!(
        key.encrypt_pa_enc_timestamp(&stamp),
        Err(KrbError::DerEncodePaEncTsEnc)
    );
    assert_eq!(
        key.encrypt_pa_enc_timestamp_with(&stamp, &[0u8; 16]),
        Err(KrbError::DerEncodePaEncTsEnc)
    );
}

#[test]
fn a_timestamp_that_is_none_is_a_decoding_error() {
    let key = quick_key();
    let data = encrypt_aes256_cts_hmac_sha1_96(&key_bytes(&key), b"not a timestamp", 1);
    let payload = EncryptedData::Aes256CtsHmacSha196 { kvno: None, data };
    assert_eq!(
        payload.decrypt_pa_enc_timestamp(&key),
        Err(KrbError::DerDecodePaEncTsEnc)
    );
    let wrong = DerivedKey::new_aes256_cts_hmac_sha1_96("other", "salt").unwrap();
    assert_eq!(
        payload.decrypt_pa_enc_timestamp(&wrong),
        Err(KrbError::DecryptionFailed)
    );
}

// ---- what a server says about pre-authentication ----------------------------------

#[test]
fn items_are_folded_into_what_the_server_accepts() {
    let hints = ETypeInfo2Entry::encode_list(&vec![
        ETypeInfo2Entry {
            etype: 17,
            salt: Some(b"dropped".to_vec()),
            s2kparams: None,
        },
        ETypeInfo2Entry {
            etype: 18,
            salt: Some(b"EXAMPLE.COMalice".to_vec()),
            s2kparams: Some(vec![0, 0, 0x10, 0]),
        },
        ETypeInfo2Entry {
            etype: 4242,
            salt: None,
            s2kparams: Some(vec![1, 2, 3]),
        },
        ETypeInfo2Entry {
            etype: 18,
            salt: None,
            s2kparams: None,
        },
    ])
    .unwrap();
    let items = vec![
        PreAuthData {
            pa_type: 136,
            pa_value: vec![],
        },
        PreAuthData {
            pa_type: 19,
            pa_value: hints,
        },
        PreAuthData {
            pa_type: 2,
            pa_value: vec![],
        },
        PreAuthData {
            pa_type: 99_999,
            pa_value: vec![0xff],
        },
        PreAuthData {
            pa_type: 11,
            pa_value: vec![0xff],
        },
        PreAuthData {
            pa_type: 133,
            pa_value: b"cookie".to_vec(),
        },
    ];
    let data = PreauthData::try_from(items.clone()).unwrap();
    assert!(data.pa_fx_fast());
    assert!(data.enc_timestamp());
    assert_eq!(data.pa_fx_cookie(), Some(&b"cookie"[..]));
    assert_eq!(
        data.etype_info2().to_vec(),
        vec![
            EtypeInfo2::new(
                EncryptionType::AES256_CTS_HMAC_SHA1_96,
                Some("EXAMPLE.COMalice".to_string()),
                Some(vec![0, 0, 0x10, 0])
            ),
            EtypeInfo2::new(EncryptionType::AES256_CTS_HMAC_SHA1_96, None, None),
        ]
    );
    let rep = KerberosPaRep::try_from(items).unwrap();
    assert!(rep.pa_fx_fast());
    assert!(rep.enc_timestamp());
    assert_eq!(rep.pa_fx_cookie(), Some(&b"cookie"[..]));
    assert_eq!(rep.etype_info2().to_vec(), data.etype_info2().to_vec());
}

#[test]
fn no_items_say_nothing() {
    let data = PreauthData::try_from(vec![]).unwrap();
    assert!(!data.pa_fx_fast());
    assert!(!data.enc_timestamp());
    assert_eq!(data.pa_fx_cookie(), None);
    assert!(data.etype_info2().is_empty());
}

#[test]
fn hints_from_several_items_are_gathered_in_order() {
    let first = ETypeInfo2Entry::encode_list(&vec![ETypeInfo2Entry {
        etype: 18,
        salt: Some(b"first".to_vec()),
        s2kparams: None,
    }])
    .unwrap();
    let second = ETypeInfo2Entry::encode_list(&vec![ETypeInfo2Entry {
        etype: 18,
        salt: Some(b"second".to_vec()),
        s2kparams: None,
    }])
    .unwrap();
    let data = PreauthData::try_from(vec![
        PreAuthData {
            pa_type: 19,
            pa_value: first,
        },
        PreAuthData {
            pa_type: 19,
            pa_value: second,
        },
    ])
    .unwrap();
    let salts: Vec<Option<&str>> = data.etype_info2().iter().map(|h| h.salt()).collect();
    assert_eq!(salts, vec![Some("first"), Some("second")]);
}

#[test]
fn hints_that_cannot_be_read_are_an_error() {
    let items = vec![PreAuthData {
        pa_type: 19,
        pa_value: vec![0x30, 0x02, 0xff, 0xff],
    }];
    assert_eq!(
        PreauthData::try_from(items.clone()),
        Err(KrbError::DerDecodeEtypeInfo2)
    );
    assert_eq!(
        KerberosPaRep::try_from(items),
        Err(KrbError::DerDecodeEtypeInfo2)
    );
}

#[test]
fn parameters_of_another_length_are_an_error_when_hints_are_read() {
    for params in [vec![], vec![0, 0, 16], vec![0, 0, 0, 16, 0]] {
        let hints = ETypeInfo2Entry::encode_list(&vec![
            ETypeInfo2Entry {
                etype: 18,
                salt: None,
                s2kparams: None,
            },
            ETypeInfo2Entry {
                etype: 18,
                salt: None,
                s2kparams: Some(params),
            },
        ])
        .unwrap();
        assert_eq!(
            PreauthData::try_from(vec![PreAuthData {
                pa_type: 19,
                pa_value: hints
            }]),
            Err(KrbError::PreauthInvalidS2KParams)
        );
    }
}

#[test]
fn the_pre_authentication_of_a_request_is_read_from_its_items() {
    let sealed = EncryptedData::Aes256CtsHmacSha196 {
        kvno: None,
        data: vec![9; 40],
    };
    let items = vec![
        pa_enc_timestamp(sealed.clone()).unwrap(),
        PreAuthData {
            pa_type: 19,
            pa_value: vec![0xff],
        },
        pa_fx_cookie(b"state".to_vec()),
    ];
    assert_eq!(items[0].pa_type, 2);
    assert_eq!(items[2].pa_type, 133);
    let preauth = Preauth::try_from(items).unwrap();
    assert_eq!(preauth.enc_timestamp(), Some(&sealed));
    assert_eq!(preauth.pa_fx_cookie(), Some(&b"state"[..]));
    let nothing = Preauth::default();
    assert_eq!(nothing.enc_timestamp(), None);
    assert_eq!(nothing.pa_fx_cookie(), None);
    assert_eq!(Preauth::try_from(vec![]), Ok(nothing));
}

#[test]
fn a_timestamp_item_that_cannot_be_used_is_an_error() {
    assert_eq!(
        Preauth::try_from(vec![PreAuthData {
            pa_type: 2,
            pa_value: vec![0x30, 0x00]
        }]),
        Err(KrbError::DerDecodePaData)
    );
    let other = KdcEncryptedData {
        etype: 17,
        kvno: None,
        cipher: vec![1],
    };
    assert_eq!(
        Preauth::try_from(vec![PreAuthData {
            pa_type: 2,
            pa_value: other.encode().unwrap()
        }]),
        Err(KrbError::UnsupportedEncryption)
    );
}

// ---- requests -----------------------------------------------------------------------

#[test]
fn a_request_is_built_encoded_and_read_back() {
    let now: u64 = 1_700_000_000;
    let request = KerberosRequest::build_asreq(
        "alice".to_string(),
        "krbtgt".to_string(),
        "EXAMPLE.COM".to_string(),
        None,
        now + 3600,
        None,
    )
    .build();
    let sent = as_req(&request);
    let der = request.to_der().unwrap();
    assert_eq!(der[0], 0x6a);
    let read = KerberosRequest::from_der(&der).unwrap();
    let got = as_req(&read);
    assert_eq!(got.nonce(), sent.nonce());
    assert_eq!(got.client_name(), "alice");
    assert_eq!(got.service_name(), "krbtgt");
    assert_eq!(got.realm(), "EXAMPLE.COM");
    assert_eq!(got.until(), now + 3600);
    assert_eq!(got.from(), None);
    assert_eq!(got.renew(), None);
    assert_eq!(read, request);
}

#[test]
fn a_request_offers_exactly_the_implemented_encryption_type() {
    let request = alice_request(0x0102_0304);
    let asn = as_req(&request).to_asn().unwrap();
    assert_eq!(asn.pvno, 5);
    assert_eq!(asn.msg_type, 10);
    assert_eq!(asn.padata, None);
    assert_eq!(asn.req_body.etype, vec![18]);
    assert_eq!(asn.req_body.kdc_options, 0);
    assert_eq!(asn.req_body.nonce, 0x0102_0304);
    assert_eq!(asn.req_body.cname, Some(wire_name(1, &["alice"])));
    assert_eq!(
        asn.req_body.sname,
        Some(wire_name(2, &["krbtgt", "EXAMPLE.COM"]))
    );
    assert_eq!(asn.req_body.realm, b"EXAMPLE.COM".to_vec());
    assert_eq!(asn.req_body.from, None);
    assert_eq!(asn.req_body.till, 1_700_003_600);
    assert_eq!(asn.req_body.rtime, None);
    assert_eq!(asn.req_body.addresses, None);
}

#[test]
fn a_request_keeps_its_times() {
    let request = KerberosRequest::build_asreq(
        "bob".to_string(),
        "krbtgt".to_string(),
        "R".to_string(),
        Some(10),
        20,
        Some(30),
    )
    .build_with_nonce(9);
    let read = KerberosRequest::from_der(&request.to_der().unwrap()).unwrap();
    let got = as_req(&read);
    assert_eq!(got.from(), Some(10));
    assert_eq!(got.until(), 20);
    assert_eq!(got.renew(), Some(30));
    assert_eq!(got.nonce(), 9);
    assert_eq!(got.preauth(), None);
}

#[test]
fn the_same_request_has_the_same_bytes() {
    assert_eq!(alice_request(5).to_der(), alice_request(5).to_der());
    assert_ne!(alice_request(5).to_der(), alice_request(6).to_der());
}

#[test]
fn pre_authentication_is_attached_to_a_new_request() {
    let request = alice_request(77);
    let items = vec![pa_fx_cookie(b"state".to_vec())];
    let with = request.add_preauth(items.clone());
    assert_eq!(as_req(&request).preauth(), None);
    assert_eq!(as_req(&with).preauth(), Some(&items));
    assert_eq!(as_req(&with).nonce(), 77);
    assert_eq!(as_req(&with).client_name(), "alice");
    let read = KerberosRequest::from_der(&with.to_der().unwrap()).unwrap();
    assert_eq!(read, with);
    assert_ne!(with.to_der(), request.to_der());
}

#[test]
fn a_request_with_a_name_outside_the_alphabet_cannot_be_written() {
    for (client, service, realm) in [
        ("al\u{e9}ce", "krbtgt", "EXAMPLE.COM"),
        ("alice", "krbtgt\u{2603}", "EXAMPLE.COM"),
        ("alice", "krbtgt", "EX\u{c4}MPLE"),
    ] {
        let request = KerberosRequest::build_asreq(
            client.to_string(),
            service.to_string(),
            realm.to_string(),
            None,
            1,
            None,
        )
        .build_with_nonce(1);
        assert_eq!(request.to_der(), Err(KrbError::DerEncodeKdcReq));
        assert_eq!(as_req(&request).to_asn(), Err(KrbError::DerEncodeKdcReq));
        assert_eq!(KrbError::DerEncodeKdcReq.kind(), ErrorKind::Encoding);
    }
}

#[test]
fn bytes_that_are_no_request_are_refused() {
    assert_eq!(
        KerberosRequest::from_der(&[]),
        Err(KrbError::DerDecodeKdcReq)
    );
    assert_eq!(
        KerberosRequest::from_der(&[0x6a, 0x00]),
        Err(KrbError::DerDecodeKdcReq)
    );
    let der = alice_request(1).to_der().unwrap();
    assert_eq!(
        KerberosRequest::from_der(&der[..der.len() - 1]),
        Err(KrbError::DerDecodeKdcReq)
    );
    let mut other_tag = der.clone();
    other_tag[0] = 0x6c;
    assert_eq!(
        KerberosRequest::from_der(&other_tag),
        Err(KrbError::DerDecodeKdcReq)
    );
    let mut asn = as_req(&alice_request(1)).to_asn().unwrap();
    asn.pvno = 4;
    let bytes = write_element(application_tag(10), &asn.encode().unwrap()).unwrap();
    assert_eq!(KerberosRequest::from_der(&bytes), Err(KrbError::InvalidPvno(4)));
    let mut asn = as_req(&alice_request(1)).to_asn().unwrap();
    asn.msg_type = 12;
    let bytes = write_element(application_tag(10), &asn.encode().unwrap()).unwrap();
    assert_eq!(
        KerberosRequest::from_der(&bytes),
        Err(KrbError::InvalidMessageType(12, 10))
    );
    let mut asn = as_req(&alice_request(1)).to_asn().unwrap();
    asn.req_body.cname = None;
    let bytes = write_element(application_tag(10), &asn.encode().unwrap()).unwrap();
    assert_eq!(
        KerberosRequest::from_der(&bytes),
        Err(KrbError::NameComponentsMissing)
    );
}

// ---- replies ------------------------------------------------------------------------

#[test]
fn a_call_for_pre_authentication_is_no_refusal() {
    let message = error_message(25, Some(alice_method_data()));
    let response = KerberosResponse::decode(&error_bytes(&message)).unwrap();
    match response {
        KerberosResponse::PaRep(rep) => {
            assert!(!rep.enc_timestamp());
            assert!(!rep.pa_fx_fast());
            assert_eq!(rep.pa_fx_cookie(), None);
            assert_eq!(rep.etype_info2().len(), 1);
        }
        other => panic!("unexpected response {:?}", other),
    }
    match KerberosErrRep::try_from(message) {
        Ok(KerberosErrRep::Pa(_)) => {}
        other => panic!("unexpected result {:?}", other),
    }
}

#[test]
fn a_captured_challenge_leads_to_the_reference_key() {
    let captured = unhex(CAPTURED_ERROR);
    let built = error_bytes(&error_message(25, Some(alice_method_data())));
    assert_eq!(hex(&built), CAPTURED_ERROR);
    assert_eq!(
        hex(&alice_method_data()),
        "30283026a103020113a21f041d301b3019a003020112a1121b104558414d504c452e434f4d616c696365"
    );
    let rep = match KerberosResponse::decode(&captured) {
        Ok(KerberosResponse::PaRep(rep)) => rep,
        other => panic!("unexpected response {:?}", other),
    };
    let hints = rep.etype_info2();
    assert_eq!(hints.len(), 1);
    assert_eq!(hints[0].etype(), EncryptionType::AES256_CTS_HMAC_SHA1_96);
    assert_eq!(hints[0].salt(), Some("EXAMPLE.COMalice"));
    assert_eq!(hints[0].s2kparams(), None);
    let key = DerivedKey::from_etype_info2(&hints[0], "EXAMPLE.COM", "alice", "Password123").unwrap();
    assert_eq!(hex(&key_bytes(&key)), ALICE_KEY);
    assert_eq!(key.iterations(), 4096);
    let payload = EncryptedData::Aes256CtsHmacSha196 {
        kvno: None,
        data: vec![],
    };
    let again = DerivedKey::from_encrypted_reply(
        &payload,
        Some(hints),
        "EXAMPLE.COM",
        "alice",
        "Password123",
    )
    .unwrap();
    assert_eq!(hex(&key_bytes(&again)), ALICE_KEY);
}

#[test]
fn a_call_for_pre_authentication_without_data_is_an_error() {
    let message = error_message(25, None);
    assert_eq!(
        KerberosResponse::decode(&error_bytes(&message)),
        Err(KrbError::MissingPaData)
    );
    assert_eq!(
        KerberosErrRep::try_from(message),
        Err(KrbError::MissingPaData)
    );
}

#[test]
fn a_call_for_pre_authentication_with_unreadable_data_is_an_error() {
    let message = error_message(25, Some(vec![1, 2, 3]));
    assert_eq!(
        KerberosResponse::decode(&error_bytes(&message)),
        Err(KrbError::DerDecodePaData)
    );
    let inner = PreAuthData::encode_list(&vec![PreAuthData {
        pa_type: 19,
        pa_value: vec![0xff],
    }])
    .unwrap();
    let message = error_message(25, Some(inner));
    assert_eq!(
        KerberosResponse::decode(&error_bytes(&message)),
        Err(KrbError::DerDecodeEtypeInfo2)
    );
}

#[test]
fn other_error_codes_are_refusals() {
    for (raw, code) in [
        (6, KrbErrorCode::KdcErrCPrincipalUnknown),
        (24, KrbErrorCode::KdcErrPreauthFailed),
        (0, KrbErrorCode::KdcErrNone),
        (68, KrbErrorCode::KdcErrWrongRealm),
        (76, KrbErrorCode::KdcErrKdcNameMismatch),
    ] {
        let message = error_message(raw, Some(alice_method_data()));
        assert_eq!(
            KerberosResponse::decode(&error_bytes(&message)),
            Ok(KerberosResponse::ErrRep(code))
        );
        assert_eq!(
            KerberosErrRep::try_from(message),
            Ok(KerberosErrRep::Refused(code))
        );
    }
}

#[test]
fn error_codes_outside_the_registry_are_never_taken_for_another() {
    for raw in [30, 43, 53, 77, 9999, -1, i32::MAX, i32::MIN] {
        let message = error_message(raw, None);
        assert_eq!(
            KerberosResponse::decode(&error_bytes(&message)),
            Err(KrbError::UnknownErrorCode(raw))
        );
    }
}

#[test]
fn an_error_message_of_the_wrong_version_or_type_is_an_error() {
    let mut message = error_message(6, None);
    message.pvno = 4;
    assert_eq!(
        KerberosResponse::decode(&error_bytes(&message)),
        Err(KrbError::InvalidPvno(4))
    );
    let mut message = error_message(25, Some(alice_method_data()));
    message.msg_type = 11;
    assert_eq!(
        KerberosResponse::decode(&error_bytes(&message)),
        Err(KrbError::InvalidMessageType(11, 30))
    );
    let mut message = error_message(6, None);
    message.msg_type = 99;
    assert_eq!(
        KerberosResponse::decode(&error_bytes(&message)),
        Err(KrbError::InvalidMessageType(99, 30))
    );
}

#[test]
fn any_other_first_byte_is_an_unexpected_tag() {
    assert_eq!(
        KerberosResponse::decode(&[]),
        Err(KrbError::UnexpectedTag(0))
    );
    assert_eq!(
        KerberosResponse::decode(&[0x30, 0x00]),
        Err(KrbError::UnexpectedTag(0x30))
    );
    let request = alice_request(1).to_der().unwrap();
    assert_eq!(
        KerberosResponse::decode(&request),
        Err(KrbError::UnexpectedTag(0x6a))
    );
    assert_eq!(
        KerberosResponse::decode(&[0x0b, 0x00]),
        Err(KrbError::UnexpectedTag(0x0b))
    );
    assert_eq!(
        KerberosResponse::decode(&[0x4b, 0x00]),
        Err(KrbError::UnexpectedTag(0x4b))
    );
}

#[test]
fn replies_that_are_cut_short_are_decoding_errors() {
    assert_eq!(
        KerberosResponse::decode(&[0x6b]),
        Err(KrbError::DerDecodeKdcRep)
    );
    assert_eq!(
        KerberosResponse::decode(&[0x6b, 0x00]),
        Err(KrbError::DerDecodeKdcRep)
    );
    assert_eq!(
        KerberosResponse::decode(&[0x6d, 0x02, 0x30, 0x00]),
        Err(KrbError::DerDecodeKdcRep)
    );
    assert_eq!(
        KerberosResponse::decode(&[0x7e, 0x02, 0x30, 0x00]),
        Err(KrbError::DerDecodeKrbError)
    );
    let bytes = reply_bytes(11, &sample_reply(11, 18));
    assert_eq!(
        KerberosResponse::decode(&bytes[..bytes.len() - 1]),
        Err(KrbError::DerDecodeKdcRep)
    );
    let mut longer = bytes.clone();
    longer.push(0);
    assert_eq!(
        KerberosResponse::decode(&longer),
        Err(KrbError::DerDecodeKdcRep)
    );
}

#[test]
fn a_reply_of_the_authentication_service_is_read() {
    let bytes = reply_bytes(11, &sample_reply(11, 18));
    match KerberosResponse::decode(&bytes) {
        Ok(KerberosResponse::AsRep(rep)) => {
            assert_eq!(rep.client_realm(), "EXAMPLE.COM");
            assert_eq!(rep.client_name(), "alice");
            assert_eq!(
                rep.enc_part(),
                &EncryptedData::Aes256CtsHmacSha196 {
                    kvno: Some(3),
                    data: vec![5; 60]
                }
            );
        }
        other => panic!("unexpected response {:?}", other),
    }
}

#[test]
fn the_components_of_a_client_name_are_joined() {
    let mut reply = sample_reply(11, 18);
    reply.cname = wire_name(1, &["alice", "admin"]);
    let rep = KerberosAsRep::try_from(reply).unwrap();
    assert_eq!(rep.client_name(), "alice/admin");
    let mut reply = sample_reply(11, 18);
    reply.cname = wire_name(1, &[]);
    let rep = KerberosAsRep::try_from(reply).unwrap();
    assert_eq!(rep.client_name(), "");
}

#[test]
fn a_reply_with_the_wrong_version_or_type_is_an_error() {
    assert_eq!(
        KerberosResponse::decode(&reply_bytes(11, &sample_reply(13, 18))),
        Err(KrbError::InvalidMessageType(13, 11))
    );
    assert_eq!(
        KerberosResponse::decode(&reply_bytes(13, &sample_reply(11, 18))),
        Err(KrbError::InvalidMessageType(11, 13))
    );
    assert_eq!(
        KerberosResponse::decode(&reply_bytes(11, &sample_reply(200, 18))),
        Err(KrbError::InvalidMessageType(200, 11))
    );
    let mut reply = sample_reply(11, 18);
    reply.pvno = 6;
    assert_eq!(
        KerberosResponse::decode(&reply_bytes(11, &reply)),
        Err(KrbError::InvalidPvno(6))
    );
    assert_eq!(
        KerberosAsRep::try_from(reply.clone()),
        Err(KrbError::InvalidPvno(6))
    );
    assert_eq!(
        KerberosTgsRep::try_from(reply),
        Err(KrbError::InvalidPvno(6))
    );
}

#[test]
fn a_reply_with_another_encryption_type_is_an_error() {
    assert_eq!(
        KerberosResponse::decode(&reply_bytes(11, &sample_reply(11, 17))),
        Err(KrbError::UnsupportedEncryption)
    );
    assert_eq!(
        KerberosAsRep::try_from(sample_reply(11, 23)),
        Err(KrbError::UnsupportedEncryption)
    );
}

#[test]
fn a_reply_of_the_ticket_granting_service_is_read() {
    assert_eq!(
        KerberosResponse::decode(&reply_bytes(13, &sample_reply(13, 18))),
        Ok(KerberosResponse::TgsRep(KerberosTgsRep {}))
    );
    assert_eq!(
        KerberosTgsRep::try_from(sample_reply(13, 17)),
        Ok(KerberosTgsRep {})
    );
    assert_eq!(
        KerberosTgsRep::try_from(sample_reply(11, 18)),
        Err(KrbError::InvalidMessageType(11, 13))
    );
}

#[test]
fn the_encrypted_part_of_a_reply_is_decrypted_and_read() {
    let key = quick_key();
    for tag_number in [25u8, 26] {
        let plaintext =
            write_element(application_tag(tag_number), &sample_part(32).encode().unwrap()).unwrap();
        let data = encrypt_aes256_cts_hmac_sha1_96(&key_bytes(&key), &plaintext, 3);
        let payload = EncryptedData::Aes256CtsHmacSha196 {
            kvno: Some(1),
            data,
        };
        let reply = match payload.decrypt_enc_kdc_rep(&key) {
            Ok(reply) => reply,
            Err(e) => panic!("unexpected error {:?}", e),
        };
        assert_eq!(reply.nonce(), 0xdead_beef);
        assert_eq!(reply.key_expiration(), Some(1_800_000_000));
        assert_eq!(reply.flags(), 0x4081_0000);
        assert_eq!(reply.auth_time(), 1_700_000_000);
        assert_eq!(reply.start_time(), None);
        assert_eq!(reply.end_time(), 1_700_036_000);
        assert_eq!(reply.renew_until(), Some(1_700_600_000));
        assert_eq!(reply.server(), &Name::service_krbtgt("EXAMPLE.COM"));
        assert!(reply.server().is_service_krbtgt("EXAMPLE.COM"));
        match reply.key() {
            SessionKey::Aes256CtsHmacSha196 { k } => assert_eq!(k, &[3u8; 32]),
        }
    }
}

#[test]
fn the_encrypted_part_of_a_reply_fails_cleanly() {
    let key = quick_key();
    let plaintext = write_element(application_tag(25), &sample_part(32).encode().unwrap()).unwrap();
    let for_timestamps = EncryptedData::Aes256CtsHmacSha196 {
        kvno: None,
        data: encrypt_aes256_cts_hmac_sha1_96(&key_bytes(&key), &plaintext, 1),
    };
    assert!(matches!(
        for_timestamps.decrypt_enc_kdc_rep(&key),
        Err(KrbError::DecryptionFailed)
    ));
    let good = EncryptedData::Aes256CtsHmacSha196 {
        kvno: None,
        data: encrypt_aes256_cts_hmac_sha1_96(&key_bytes(&key), &plaintext, 3),
    };
    let wrong = DerivedKey::new_aes256_cts_hmac_sha1_96("other", "salt").unwrap();
    assert!(matches!(
        good.decrypt_enc_kdc_rep(&wrong),
        Err(KrbError::DecryptionFailed)
    ));
    let garbage = EncryptedData::Aes256CtsHmacSha196 {
        kvno: None,
        data: encrypt_aes256_cts_hmac_sha1_96(&key_bytes(&key), b"garbage", 3),
    };
    assert!(matches!(
        garbage.decrypt_enc_kdc_rep(&key),
        Err(KrbError::DerDecodeEncKdcRepPart)
    ));
    let untagged = EncryptedData::Aes256CtsHmacSha196 {
        kvno: None,
        data: encrypt_aes256_cts_hmac_sha1_96(
            &key_bytes(&key),
            &sample_part(32).encode().unwrap(),
            3,
        ),
    };
    assert!(matches!(
        untagged.decrypt_enc_kdc_rep(&key),
        Err(KrbError::DerDecodeEncKdcRepPart)
    ));
    let short_key = write_element(application_tag(25), &sample_part(16).encode().unwrap()).unwrap();
    let weak = EncryptedData::Aes256CtsHmacSha196 {
        kvno: None,
        data: encrypt_aes256_cts_hmac_sha1_96(&key_bytes(&key), &short_key, 3),
    };
    assert!(matches!(
        weak.decrypt_enc_kdc_rep(&key),
        Err(KrbError::InvalidEncryptionKey)
    ));
}

#[test]
fn the_decrypted_part_of_a_reply_is_checked() {
    assert!(KdcReplyPart::try_from(sample_part(32)).is_ok());
    assert!(matches!(
        KdcReplyPart::try_from(sample_part(31)),
        Err(KrbError::InvalidEncryptionKey)
    ));
    let mut part = sample_part(32);
    part.key.key_type = 17;
    assert!(matches!(
        KdcReplyPart::try_from(part),
        Err(KrbError::UnsupportedEncryption)
    ));
    let mut part = sample_part(32);
    part.server_name = wire_name(9, &["x"]);
    assert!(matches!(
        KdcReplyPart::try_from(part),
        Err(KrbError::NameTypeUnsupported(9))
    ));
    let mut part = sample_part(32);
    part.server_name = wire_name(2, &[]);
    assert!(matches!(
        KdcReplyPart::try_from(part),
        Err(KrbError::NameComponentsMissing)
    ));
}

#[test]
fn tickets_are_read_from_and_written_to_the_wire() {
    let ticket = Ticket::try_from(sample_ticket()).unwrap();
    assert_eq!(ticket.tkt_vno(), 5);
    assert_eq!(ticket.service(), &Name::service_krbtgt("EXAMPLE.COM"));
    assert_eq!(ticket.clone().try_into(), Ok(sample_ticket()));
    let mut other = sample_ticket();
    other.enc_part.etype = 17;
    assert_eq!(Ticket::try_from(other), Err(KrbError::UnsupportedEncryption));
    let mut other = sample_ticket();
    other.sname = wire_name(4, &["x"]);
    assert_eq!(Ticket::try_from(other), Err(KrbError::NameTypeUnsupported(4)));
}

#[test]
fn a_challenge_derives_its_key_from_the_strongest_hint() {
    let captured = unhex(CAPTURED_ERROR);
    let rep = match KerberosResponse::decode(&captured) {
        Ok(KerberosResponse::PaRep(rep)) => rep,
        other => panic!("unexpected response {:?}", other),
    };
    let key = rep
        .derive_key_for_challenge("IGNORED", "ignored", "Password123")
        .unwrap();
    assert_eq!(hex(&key_bytes(&key)), ALICE_KEY);
    assert_eq!(key.salt(), "EXAMPLE.COMalice");
    let nothing = PreauthData::try_from(vec![]).unwrap();
    let key = nothing
        .derive_key_for_challenge("EXAMPLE.COM", "alice", "Password123")
        .unwrap();
    assert_eq!(hex(&key_bytes(&key)), ALICE_KEY);
    let hints = ETypeInfo2Entry::encode_list(&vec![ETypeInfo2Entry {
        etype: 18,
        salt: Some(b"ATHENA.MIT.EDUraeburn".to_vec()),
        s2kparams: Some(vec![0, 0, 0, 1]),
    }])
    .unwrap();
    let data = PreauthData::try_from(vec![PreAuthData {
        pa_type: 19,
        pa_value: hints,
    }])
    .unwrap();
    let key = data.derive_key_for_challenge("R", "u", "password").unwrap();
    assert_eq!(
        hex(&key_bytes(&key)),
        "fe697b52bc0d3ce14432ba036a92e65bbb52280990a2fa27883998d72af30161"
    );
    assert_eq!(key.iterations(), 1);
}

#[test]
fn a_ciphertext_beyond_the_length_limit_cannot_be_wrapped() {
    let limit: usize = 0xfff_ffff;
    let within = EncryptedData::Aes256CtsHmacSha196 { kvno: None, data: vec![0u8; 64] };
    assert!(pa_enc_timestamp(within).is_ok());
    let beyond = EncryptedData::Aes256CtsHmacSha196 { kvno: None, data: vec![0u8; limit + 1] };
    assert!(pa_enc_timestamp(beyond) == Err(KrbError::DerEncodeEncryptedData));
    assert_eq!(KrbError::DerEncodeEncryptedData.kind(), ErrorKind::Encoding);
}
