use kerberos_proto::codec::{KerberosTcpCodec, DEFAULT_MAX_SIZE, MAX_FRAGMENT_SIZE};
use kerberos_proto::error::KrbError;
use kerberos_proto::proto::{KerberosRequest, KerberosResponse};

fn fragments(stream: &[u8]) -> Vec<(usize, bool)> {
    let mut found = Vec::new();
    let mut at = 0;
    while at < stream.len() {
        let header = u32::from_be_bytes([stream[at], stream[at + 1], stream[at + 2], stream[at + 3]]);
        let len = (header & 0x7fff_ffff) as usize;
        found.push((len, header & 0x8000_0000 != 0));
        at += 4 + len;
    }
    assert_eq!(at, stream.len());
    found
}

fn message(len: usize) -> Vec<u8> {
    (0..len).map(|i| (i * 251 + i / 256) as u8).collect()
}

fn decode_in_chunks(stream: &[u8], chunk: usize, max: usize) -> Vec<u8> {
    let mut codec = KerberosTcpCodec::new(max, true).unwrap();
    let mut buf: Vec<u8> = Vec::new();
    let mut at = 0;
    loop {
        match codec.decode_record(&mut buf) {
            Ok(Some(record)) => {
                assert_eq!(at, stream.len());
                assert!(buf.is_empty());
                return record;
            }
            Ok(None) => {
                assert!(at < stream.len());
                let end = (at + chunk).min(stream.len());
                buf.extend_from_slice(&stream[at..end]);
                at = end;
            }
            Err(e) => panic!("unexpected error {:?}", e),
        }
    }
}

#[test]
fn default_codec_uses_the_default_size_and_marks_the_last_fragment() {
    let codec = KerberosTcpCodec::default();
    assert_eq!(codec.max_fragment_size(), DEFAULT_MAX_SIZE);
    assert_eq!(DEFAULT_MAX_SIZE, 32768);
    assert!(codec.marks_last_fragment());
    assert_eq!(codec.pending_len(), 0);
}

#[test]
fn a_codec_is_refused_for_sizes_that_no_header_can_announce() {
    assert!(KerberosTcpCodec::new(0, true).is_none());
    assert!(KerberosTcpCodec::new(MAX_FRAGMENT_SIZE + 1, true).is_none());
    assert!(KerberosTcpCodec::new(1, false).is_some());
    assert!(KerberosTcpCodec::new(MAX_FRAGMENT_SIZE, true).is_some());
}

#[test]
fn a_large_message_is_cut_into_four_fragments() {
    let codec = KerberosTcpCodec::new(32768, true).unwrap();
    let sent = message(100_000);
    let mut stream = Vec::new();
    codec.encode_record(&sent, &mut stream);
    let found = fragments(&stream);
    assert_eq!(
        found,
        vec![(32768, false), (32768, false), (32768, false), (1696, true)]
    );
    assert_eq!(found.iter().map(|f| f.0).sum::<usize>(), 100_000);
    assert_eq!(stream.len(), 100_000 + 16);
}

#[test]
fn a_large_message_comes_back_whatever_the_chunks() {
    let codec = KerberosTcpCodec::new(32768, true).unwrap();
    let sent = message(100_000);
    let mut stream = Vec::new();
    codec.encode_record(&sent, &mut stream);
    for chunk in [1usize, 3, 4, 5, 1000, 32768, 32772, 40_000, 100_016, 200_000] {
        assert_eq!(decode_in_chunks(&stream, chunk, 32768), sent);
    }
}

#[test]
fn a_small_message_is_one_marked_fragment() {
    let codec = KerberosTcpCodec::default();
    let mut stream = Vec::new();
    codec.encode_record(b"hello", &mut stream);
    assert_eq!(stream, vec![0x80, 0, 0, 5, b'h', b'e', b'l', b'l', b'o']);
}

#[test]
fn an_empty_message_is_one_empty_marked_fragment() {
    let codec = KerberosTcpCodec::default();
    let mut stream = Vec::new();
    codec.encode_record(b"", &mut stream);
    assert_eq!(stream, vec![0x80, 0, 0, 0]);
    assert_eq!(decode_in_chunks(&stream, 1, 32768), Vec::<u8>::new());
}

#[test]
fn a_message_of_exactly_the_maximum_is_one_fragment() {
    let codec = KerberosTcpCodec::new(8, true).unwrap();
    let mut stream = Vec::new();
    codec.encode_record(&message(8), &mut stream);
    assert_eq!(fragments(&stream), vec![(8, true)]);
    let mut stream = Vec::new();
    codec.encode_record(&message(16), &mut stream);
    assert_eq!(fragments(&stream), vec![(8, false), (8, true)]);
    let mut stream = Vec::new();
    codec.encode_record(&message(17), &mut stream);
    assert_eq!(fragments(&stream), vec![(8, false), (8, false), (1, true)]);
}

#[test]
fn encoding_appends_to_what_the_buffer_holds() {
    let codec = KerberosTcpCodec::default();
    let mut stream = vec![1u8, 2, 3];
    codec.encode_record(b"ab", &mut stream);
    assert_eq!(stream, vec![1, 2, 3, 0x80, 0, 0, 2, b'a', b'b']);
}

#[test]
fn without_the_marker_on_data_an_empty_marked_fragment_follows() {
    let codec = KerberosTcpCodec::new(32768, false).unwrap();
    assert!(!codec.marks_last_fragment());
    let sent = message(100_000);
    let mut stream = Vec::new();
    codec.encode_record(&sent, &mut stream);
    assert_eq!(
        fragments(&stream),
        vec![
            (32768, false),
            (32768, false),
            (32768, false),
            (1696, false),
            (0, true)
        ]
    );
    assert_eq!(decode_in_chunks(&stream, 777, 32768), sent);
    let mut stream = Vec::new();
    codec.encode_record(b"", &mut stream);
    assert_eq!(stream, vec![0x80, 0, 0, 0]);
}

#[test]
fn a_partial_header_waits_for_more_bytes() {
    let mut codec = KerberosTcpCodec::default();
    let mut buf = vec![0x80u8, 0, 0];
    assert_eq!(codec.decode_record(&mut buf), Ok(None));
    assert_eq!(buf, vec![0x80, 0, 0]);
    buf.push(2);
    assert_eq!(codec.decode_record(&mut buf), Ok(None));
    assert_eq!(buf, vec![0x80, 0, 0, 2]);
    buf.push(b'o');
    assert_eq!(codec.decode_record(&mut buf), Ok(None));
    buf.push(b'k');
    assert_eq!(codec.decode_record(&mut buf), Ok(Some(b"ok".to_vec())));
    assert!(buf.is_empty());
}

#[test]
fn complete_fragments_are_held_while_the_record_is_open() {
    let mut codec = KerberosTcpCodec::default();
    let mut buf = vec![0, 0, 0, 2, b'a', b'b', 0x80, 0, 0];
    assert_eq!(codec.decode_record(&mut buf), Ok(None));
    assert_eq!(codec.pending_len(), 2);
    assert_eq!(buf, vec![0x80, 0, 0]);
    buf.extend_from_slice(&[1, b'c']);
    assert_eq!(codec.decode_record(&mut buf), Ok(Some(b"abc".to_vec())));
    assert_eq!(codec.pending_len(), 0);
}

#[test]
fn what_follows_a_record_stays_in_the_buffer() {
    let mut codec = KerberosTcpCodec::default();
    let mut buf = vec![0x80, 0, 0, 1, b'x', 0x80, 0, 0, 1, b'y', 0x80];
    assert_eq!(codec.decode_record(&mut buf), Ok(Some(b"x".to_vec())));
    assert_eq!(buf, vec![0x80, 0, 0, 1, b'y', 0x80]);
    assert_eq!(codec.decode_record(&mut buf), Ok(Some(b"y".to_vec())));
    assert_eq!(buf, vec![0x80]);
    assert_eq!(codec.decode_record(&mut buf), Ok(None));
}

#[test]
fn an_oversized_frame_is_refused_before_bytes_are_taken() {
    let mut codec = KerberosTcpCodec::new(16, true).unwrap();
    let mut buf = vec![0x80, 0, 0, 17, 1, 2, 3];
    let before = buf.clone();
    assert_eq!(codec.decode_record(&mut buf), Err(KrbError::FrameTooLarge));
    assert_eq!(buf, before);
    assert_eq!(codec.pending_len(), 0);
    assert_eq!(KrbError::FrameTooLarge.kind(), kerberos_proto::error::ErrorKind::Frame);
}

#[test]
fn an_oversized_frame_after_good_fragments_keeps_what_was_gathered() {
    let mut codec = KerberosTcpCodec::new(4, true).unwrap();
    let mut buf = vec![0, 0, 0, 2, 7, 8, 0x7f, 0xff, 0xff, 0xff, 9];
    assert_eq!(codec.decode_record(&mut buf), Err(KrbError::FrameTooLarge));
    assert_eq!(buf, vec![0x7f, 0xff, 0xff, 0xff, 9]);
    assert_eq!(codec.pending_len(), 2);
}

#[test]
fn a_frame_of_exactly_the_maximum_is_accepted() {
    let mut codec = KerberosTcpCodec::new(3, true).unwrap();
    let mut buf = vec![0x80, 0, 0, 3, 1, 2, 3];
    assert_eq!(codec.decode_record(&mut buf), Ok(Some(vec![1, 2, 3])));
}

#[test]
fn a_request_travels_as_a_record_of_its_bytes() {
    let request = KerberosRequest::build_asreq(
        "alice".to_string(),
        "krbtgt".to_string(),
        "EXAMPLE.COM".to_string(),
        None,
        1_700_003_600,
        None,
    )
    .build_with_nonce(12345);
    let der = request.to_der().unwrap();
    let codec = KerberosTcpCodec::default();
    let mut stream = Vec::new();
    assert_eq!(codec.encode(&request, &mut stream), Ok(()));
    assert_eq!(stream.len(), der.len() + 4);
    assert_eq!(decode_in_chunks(&stream, 5, 32768), der);
}

#[test]
fn a_request_that_cannot_be_written_leaves_the_buffer_alone() {
    let request = KerberosRequest::build_asreq(
        "al\u{e9}ce".to_string(),
        "krbtgt".to_string(),
        "EXAMPLE.COM".to_string(),
        None,
        1_700_003_600,
        None,
    )
    .build_with_nonce(1);
    let codec = KerberosTcpCodec::default();
    let mut stream = vec![42u8];
    assert_eq!(
        codec.encode(&request, &mut stream),
        Err(KrbError::DerEncodeKdcReq)
    );
    assert_eq!(stream, vec![42]);
}

#[test]
fn a_record_that_is_no_reply_is_an_error_of_reading_it() {
    let mut codec = KerberosTcpCodec::default();
    let mut buf = vec![0x80, 0, 0, 2, 0x30, 0x00];
    assert_eq!(codec.decode(&mut buf), Err(KrbError::UnexpectedTag(0x30)));
    assert!(buf.is_empty());
    let mut buf = vec![0x80, 0, 0];
    assert!(matches!(codec.decode(&mut buf), Ok(None)));
    let mut buf = vec![0x80, 0, 0, 0];
    let got: Result<Option<KerberosResponse>, KrbError> = codec.decode(&mut buf);
    assert_eq!(got, Err(KrbError::UnexpectedTag(0)));
}
