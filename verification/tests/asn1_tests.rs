use kerberos_proto::asn1::der::{
    be32_bytes, is_ia5, read_exact, read_field, read_flags, read_general_string, read_header,
    read_i32, read_i8, read_items, read_octets, read_optional_field, read_raw, read_time,
    read_u32, read_u8, write_element, write_flags, write_general_string, write_i32, write_i8,
    write_octets, write_raw, write_time, write_u32, write_u8,
};
use kerberos_proto::asn1::encrypted_data::{EncryptionKey, KdcEncryptedData};
use kerberos_proto::asn1::kdc_rep::{EncKdcRepPart, KdcRep};
use kerberos_proto::asn1::kdc_req::{read_i32_list, write_i32_list, KdcReq, KdcReqBody};
use kerberos_proto::asn1::krb_error::KrbErrorMsg;
use kerberos_proto::asn1::pa_data::{ETypeInfo2Entry, PaEncTsEnc, PreAuthData};
use kerberos_proto::asn1::principal_name::{read_string_list, write_string_list, PrincipalName};
use kerberos_proto::asn1::ticket::TaggedTicket;

fn principal(name_type: i32, parts: &[&str]) -> PrincipalName {
    PrincipalName {
        name_type,
        name_string: parts.iter().map(|p| p.as_bytes().to_vec()).collect(),
    }
}

fn sample_ticket() -> TaggedTicket {
    TaggedTicket {
        tkt_vno: 5,
        realm: b"EXAMPLE.COM".to_vec(),
        sname: principal(2, &["krbtgt", "EXAMPLE.COM"]),
        enc_part: KdcEncryptedData {
            etype: 18,
            kvno: Some(1),
            cipher: vec![1, 2, 3, 4],
        },
    }
}

#[test]
fn elements_are_written_with_the_shortest_length() {
    assert_eq!(write_element(0x04, &[]), Some(vec![0x04, 0x00]));
    assert_eq!(write_element(0x04, &[7]), Some(vec![0x04, 0x01, 7]));
    let body = vec![9u8; 127];
    let written = write_element(0x30, &body).unwrap();
    assert_eq!(&written[..2], &[0x30, 0x7f]);
    let body = vec![9u8; 128];
    let written = write_element(0x30, &body).unwrap();
    assert_eq!(&written[..3], &[0x30, 0x81, 0x80]);
    let body = vec![9u8; 255];
    let written = write_element(0x30, &body).unwrap();
    assert_eq!(&written[..3], &[0x30, 0x81, 0xff]);
    let body = vec![9u8; 256];
    let written = write_element(0x30, &body).unwrap();
    assert_eq!(&written[..4], &[0x30, 0x82, 0x01, 0x00]);
    let body = vec![9u8; 70_000];
    let written = write_element(0x30, &body).unwrap();
    assert_eq!(&written[..5], &[0x30, 0x83, 0x01, 0x11, 0x70]);
    assert_eq!(written.len(), 70_005);
}

#[test]
fn headers_are_read_with_tag_and_lengths() {
    assert_eq!(read_header(&[0x04, 0x02, 1, 2, 3]), Some((0x04, 2, 2)));
    assert_eq!(read_header(&[0x30, 0x81, 0x80]), None);
    let mut long = vec![0x30, 0x81, 0x80];
    long.extend(vec![0u8; 128]);
    assert_eq!(read_header(&long), Some((0x30, 3, 128)));
    assert_eq!(read_header(&[]), None);
    assert_eq!(read_header(&[0x04]), None);
    assert_eq!(read_header(&[0x04, 0x03, 1, 2]), None);
}

#[test]
fn lengths_that_are_longer_than_needed_are_refused() {
    let mut padded = vec![0x04, 0x81, 0x05];
    padded.extend(vec![0u8; 5]);
    assert_eq!(read_header(&padded), None);
    let mut padded = vec![0x04, 0x82, 0x00, 0x80];
    padded.extend(vec![0u8; 128]);
    assert_eq!(read_header(&padded), None);
    assert_eq!(read_header(&[0x04, 0x80, 0, 0]), None);
    assert_eq!(read_header(&[0x04, 0x85, 1, 0, 0, 0, 0]), None);
}

#[test]
fn tags_of_more_than_one_byte_are_refused() {
    assert_eq!(read_header(&[0x1f, 0x01, 0x00]), None);
    assert_eq!(read_header(&[0xbf, 0x01, 0x00]), None);
}

#[test]
fn an_element_is_read_exactly_or_not_at_all() {
    assert_eq!(read_exact(&[0x04, 0x01, 9], 0x04), Some(&[9u8][..]));
    assert_eq!(read_exact(&[0x04, 0x01, 9], 0x30), None);
    assert_eq!(read_exact(&[0x04, 0x01, 9, 9], 0x04), None);
    assert_eq!(read_raw(&[0x04, 0x01, 9]), Some(&[0x04u8, 0x01, 9][..]));
    assert_eq!(read_raw(&[0x04, 0x01, 9, 9]), None);
    assert_eq!(write_raw(&[0x04, 0x01, 9]), Some(vec![0x04, 0x01, 9]));
}

#[test]
fn fields_are_taken_from_the_front() {
    let bytes = [0xa0, 0x01, 5, 0xa2, 0x00];
    let (contents, rest) = read_field(&bytes, 0xa0).unwrap();
    assert_eq!(contents, &[5u8][..]);
    assert_eq!(rest, &[0xa2u8, 0x00][..]);
    assert!(read_field(&bytes, 0xa1).is_none());
    let (absent, rest) = read_optional_field(rest, 0xa1);
    assert!(absent.is_none());
    assert_eq!(rest, &[0xa2u8, 0x00][..]);
    let (present, rest) = read_optional_field(rest, 0xa2);
    assert_eq!(present, Some(&[][..]));
    assert!(rest.is_empty());
}

#[test]
fn a_run_of_elements_is_cut_into_its_elements() {
    let bytes = [0x02, 0x01, 5, 0x04, 0x00, 0x30, 0x02, 1, 2];
    let items = read_items(&bytes).unwrap();
    assert_eq!(items.len(), 3);
    assert_eq!(items[0], &[0x02u8, 0x01, 5][..]);
    assert_eq!(items[1], &[0x04u8, 0x00][..]);
    assert_eq!(items[2], &[0x30u8, 0x02, 1, 2][..]);
    assert_eq!(read_items(&[]).unwrap().len(), 0);
    assert!(read_items(&[0x02, 0x01]).is_none());
}

#[test]
fn integers_are_written_and_read() {
    assert_eq!(write_i32(18), Some(vec![0x02, 0x01, 0x12]));
    assert_eq!(write_i32(0), Some(vec![0x02, 0x01, 0x00]));
    assert_eq!(write_i32(128), Some(vec![0x02, 0x02, 0x00, 0x80]));
    assert_eq!(write_i32(-1), Some(vec![0x02, 0x01, 0xff]));
    assert_eq!(write_i32(-129), Some(vec![0x02, 0x02, 0xff, 0x7f]));
    assert_eq!(write_u8(5), Some(vec![0x02, 0x01, 0x05]));
    assert_eq!(write_i8(-128), Some(vec![0x02, 0x01, 0x80]));
    assert_eq!(
        write_u32(4_294_967_295),
        Some(vec![0x02, 0x05, 0x00, 0xff, 0xff, 0xff, 0xff])
    );
    assert_eq!(read_i32(&[0x02, 0x01, 0x12]), Some(18));
    assert_eq!(read_i32(&[0x02, 0x01, 0xff]), Some(-1));
    assert_eq!(read_i32(&[0x02, 0x04, 0x80, 0, 0, 0]), Some(i32::MIN));
    assert_eq!(read_i32(&[0x02, 0x05, 0x00, 0x80, 0, 0, 0]), None);
    assert_eq!(read_u32(&[0x02, 0x05, 0x00, 0xff, 0xff, 0xff, 0xff]), Some(u32::MAX));
    assert_eq!(read_u32(&[0x02, 0x01, 0xff]), None);
    assert_eq!(read_u8(&[0x02, 0x02, 0x00, 0xff]), Some(255));
    assert_eq!(read_u8(&[0x02, 0x02, 0x01, 0x00]), None);
    assert_eq!(read_i8(&[0x02, 0x01, 0x80]), Some(-128));
    assert_eq!(read_i8(&[0x02, 0x02, 0x00, 0x80]), None);
}

#[test]
fn integers_that_are_not_well_formed_are_refused() {
    assert_eq!(read_i32(&[0x02, 0x02, 0x00, 0x12]), None);
    assert_eq!(read_i32(&[0x04, 0x01, 0x12]), None);
    assert_eq!(read_i32(&[0x02, 0x01, 0x12, 0x00]), None);
    assert_eq!(read_i32(&[0x02, 0x00]), None);
    assert_eq!(read_i32(&[]), None);
}

#[test]
fn times_are_written_and_read_as_seconds() {
    let written = write_time(1_700_000_000).unwrap();
    assert_eq!(&written[..2], &[0x18, 0x0f]);
    assert_eq!(&written[2..], b"20231114221320Z");
    assert_eq!(read_time(&written), Some(1_700_000_000));
    assert_eq!(write_time(0).unwrap()[2..].to_vec(), b"19700101000000Z".to_vec());
    assert_eq!(read_time(b"\x18\x0f19700101000001Z"), Some(1));
    assert_eq!(read_time(b"\x18\x0f19700101000001X"), None);
    assert_eq!(read_time(b"\x18\x0d7001010000Z"), None);
    assert_eq!(write_time(u64::MAX), None);
}

#[test]
fn strings_keep_to_the_seven_bit_alphabet() {
    assert!(is_ia5(b"EXAMPLE.COM"));
    assert!(is_ia5(b""));
    assert!(!is_ia5(&[b'a', 0x80]));
    assert_eq!(
        write_general_string(b"ab"),
        Some(vec![0x1b, 0x02, b'a', b'b'])
    );
    assert_eq!(write_general_string(&[0xc3, 0xa9]), None);
    assert_eq!(read_general_string(&[0x1b, 0x02, b'a', b'b']), Some(&b"ab"[..]));
    assert_eq!(read_general_string(&[0x1b, 0x02, 0xc3, 0xa9]), None);
    assert_eq!(read_general_string(&[0x16, 0x02, b'a', b'b']), None);
    assert_eq!(write_octets(&[1, 2]), Some(vec![0x04, 0x02, 1, 2]));
    assert_eq!(read_octets(&[0x04, 0x02, 1, 2]), Some(&[1u8, 2][..]));
}

#[test]
fn flags_are_thirty_two_bits_in_network_order() {
    assert_eq!(be32_bytes(0x0a0b0c0d), vec![0x0a, 0x0b, 0x0c, 0x0d]);
    assert_eq!(
        write_flags(0x4081_0000),
        Some(vec![0x03, 0x05, 0x00, 0x40, 0x81, 0x00, 0x00])
    );
    assert_eq!(
        read_flags(&[0x03, 0x05, 0x00, 0x40, 0x81, 0x00, 0x00]),
        Some(0x4081_0000)
    );
    assert_eq!(read_flags(&[0x03, 0x04, 0x00, 0x40, 0x81, 0x00]), None);
    assert_eq!(read_flags(&[0x03, 0x05, 0x01, 0x40, 0x81, 0x00, 0x00]), None);
    assert_eq!(
        read_flags(&[0x03, 0x06, 0x04, 0x40, 0x81, 0x00, 0x00, 0xf0]),
        Some(0x4081_0000)
    );
}

#[test]
fn lists_of_numbers_and_strings_round_trip() {
    let numbers = vec![18, 17, -5];
    let written = write_i32_list(&numbers).unwrap();
    assert_eq!(
        written,
        vec![0x30, 0x09, 0x02, 0x01, 0x12, 0x02, 0x01, 0x11, 0x02, 0x01, 0xfb]
    );
    assert_eq!(read_i32_list(&written), Some(numbers));
    assert_eq!(read_i32_list(&[0x30, 0x00]), Some(vec![]));
    assert_eq!(read_i32_list(&[0x30, 0x02, 0x04, 0x00]), None);
    let strings = vec![b"krbtgt".to_vec(), b"EXAMPLE.COM".to_vec()];
    let written = write_string_list(&strings).unwrap();
    assert_eq!(read_string_list(&written), Some(strings));
    assert_eq!(write_string_list(&vec![vec![0xffu8]]), None);
}

#[test]
fn a_pre_authentication_item_has_the_published_layout() {
    let item = PreAuthData {
        pa_type: 19,
        pa_value: vec![0x30, 0x00],
    };
    let written = item.encode().unwrap();
    assert_eq!(
        written,
        vec![0x30, 0x0b, 0xa1, 0x03, 0x02, 0x01, 0x13, 0xa2, 0x04, 0x04, 0x02, 0x30, 0x00]
    );
    assert_eq!(PreAuthData::decode(&written), Some(item));
}

#[test]
fn pre_authentication_items_round_trip_as_a_list() {
    let items = vec![
        PreAuthData {
            pa_type: 2,
            pa_value: vec![],
        },
        PreAuthData {
            pa_type: 133,
            pa_value: vec![1, 2, 3],
        },
    ];
    let written = PreAuthData::encode_list(&items).unwrap();
    assert_eq!(PreAuthData::decode_list(&written), Some(items));
    assert_eq!(PreAuthData::decode_list(&[0x30, 0x00]), Some(vec![]));
    assert_eq!(PreAuthData::decode_list(&[0x30, 0x02, 0x30, 0x00]), None);
    assert_eq!(PreAuthData::decode_list(&[]), None);
}

#[test]
fn a_field_out_of_order_or_left_over_is_refused() {
    let swapped = vec![0x30, 0x0b, 0xa2, 0x04, 0x04, 0x02, 0x30, 0x00, 0xa1, 0x03, 0x02, 0x01, 0x13];
    assert_eq!(PreAuthData::decode(&swapped), None);
    let extra = vec![
        0x30, 0x0d, 0xa1, 0x03, 0x02, 0x01, 0x13, 0xa2, 0x04, 0x04, 0x02, 0x30, 0x00, 0xa3, 0x00,
    ];
    assert_eq!(PreAuthData::decode(&extra), None);
    let negative = vec![0x30, 0x09, 0xa1, 0x03, 0x02, 0x01, 0xff, 0xa2, 0x02, 0x04, 0x00];
    assert_eq!(PreAuthData::decode(&negative), None);
}

#[test]
fn encryption_type_hints_round_trip() {
    let entries = vec![
        ETypeInfo2Entry {
            etype: 18,
            salt: Some(b"EXAMPLE.COMalice".to_vec()),
            s2kparams: Some(vec![0, 0, 0x10, 0]),
        },
        ETypeInfo2Entry {
            etype: 17,
            salt: None,
            s2kparams: None,
        },
    ];
    let written = ETypeInfo2Entry::encode_list(&entries).unwrap();
    assert_eq!(ETypeInfo2Entry::decode_list(&written), Some(entries));
}

#[test]
fn a_timestamp_round_trips_with_and_without_microseconds() {
    let with = PaEncTsEnc {
        patimestamp: 1_700_000_000,
        pausec: Some(999_999),
    };
    assert_eq!(PaEncTsEnc::decode(&with.encode().unwrap()), Some(with));
    let without = PaEncTsEnc {
        patimestamp: 1_700_000_000,
        pausec: None,
    };
    let written = without.encode().unwrap();
    assert_eq!(written.len(), 21);
    assert_eq!(PaEncTsEnc::decode(&written), Some(without));
}

#[test]
fn encrypted_payloads_and_keys_round_trip() {
    let payload = KdcEncryptedData {
        etype: 18,
        kvno: None,
        cipher: vec![9; 40],
    };
    assert_eq!(
        KdcEncryptedData::decode(&payload.encode().unwrap()),
        Some(payload)
    );
    let key = EncryptionKey {
        key_type: 18,
        key_value: vec![7; 32],
    };
    assert!(EncryptionKey::decode(&key.encode().unwrap()) == Some(key));
}

#[test]
fn names_and_tickets_round_trip() {
    let name = principal(3, &["host", "server.example.com"]);
    assert_eq!(PrincipalName::decode(&name.encode().unwrap()), Some(name));
    let ticket = sample_ticket();
    let tagged = ticket.encode_tagged().unwrap();
    assert_eq!(tagged[0], 0x61);
    assert_eq!(TaggedTicket::decode_tagged(&tagged), Some(ticket.clone()));
    assert_eq!(TaggedTicket::decode_tagged(&ticket.encode().unwrap()), None);
}

#[test]
fn a_reply_round_trips() {
    let reply = KdcRep {
        pvno: 5,
        msg_type: 11,
        padata: Some(vec![PreAuthData {
            pa_type: 19,
            pa_value: vec![0x30, 0x00],
        }]),
        crealm: b"EXAMPLE.COM".to_vec(),
        cname: principal(1, &["alice"]),
        ticket: sample_ticket(),
        enc_part: KdcEncryptedData {
            etype: 18,
            kvno: Some(3),
            cipher: vec![5; 60],
        },
    };
    assert_eq!(KdcRep::decode(&reply.encode().unwrap()), Some(reply));
}

#[test]
fn the_decrypted_part_of_a_reply_round_trips() {
    let part = EncKdcRepPart {
        key: EncryptionKey {
            key_type: 18,
            key_value: vec![3; 32],
        },
        last_req: vec![0x30, 0x00],
        nonce: 0xdead_beef,
        key_expiration: Some(1_800_000_000),
        flags: 0x4081_0000,
        auth_time: 1_700_000_000,
        start_time: None,
        end_time: 1_700_036_000,
        renew_till: Some(1_700_600_000),
        server_realm: b"EXAMPLE.COM".to_vec(),
        server_name: principal(2, &["krbtgt", "EXAMPLE.COM"]),
        client_addresses: None,
        encrypted_pa_data: Some(vec![0x30, 0x00]),
    };
    assert!(EncKdcRepPart::decode(&part.encode().unwrap()) == Some(part));
}

#[test]
fn an_error_message_round_trips() {
    let message = KrbErrorMsg {
        pvno: 5,
        msg_type: 30,
        ctime: None,
        cusec: None,
        stime: 1_700_000_000,
        susec: 12,
        error_code: 25,
        crealm: Some(b"EXAMPLE.COM".to_vec()),
        cname: Some(principal(1, &["alice"])),
        realm: b"EXAMPLE.COM".to_vec(),
        sname: principal(2, &["krbtgt", "EXAMPLE.COM"]),
        error_text: Some(b"NEEDED_PREAUTH".to_vec()),
        error_data: Some(vec![0x30, 0x00]),
    };
    assert_eq!(KrbErrorMsg::decode(&message.encode().unwrap()), Some(message));
}

#[test]
fn a_request_round_trips() {
    let request = KdcReq {
        pvno: 5,
        msg_type: 10,
        padata: None,
        req_body: KdcReqBody {
            kdc_options: 0,
            cname: Some(principal(1, &["alice"])),
            realm: b"EXAMPLE.COM".to_vec(),
            sname: Some(principal(2, &["krbtgt", "EXAMPLE.COM"])),
            from: None,
            till: 1_700_003_600,
            rtime: Some(1_700_600_000),
            nonce: 77,
            etype: vec![18],
            addresses: None,
            enc_authorization_data: None,
            additional_tickets: None,
        },
    };
    assert_eq!(KdcReq::decode(&request.encode().unwrap()), Some(request));
}

#[test]
fn a_name_with_a_character_outside_the_alphabet_cannot_be_written() {
    let name = PrincipalName {
        name_type: 1,
        name_string: vec![vec![0xc3, 0xa9]],
    };
    assert_eq!(name.encode(), None);
}
