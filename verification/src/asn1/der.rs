//! The distinguished encoding rules, as far as the protocol's messages need
//! them: tag, length and contents, with tags of one byte and lengths of up to
//! 256 MiB. Lengths, integers and times are read and written by the `der`
//! crate; how the pieces nest is decided here.

use der::{Decode, Encode, Reader};
use vstd::prelude::*;

verus! {

/// Tag of a BIT STRING.
pub const TAG_BIT_STRING: u8 = 0x03;

/// Tag of an OCTET STRING.
pub const TAG_OCTET_STRING: u8 = 0x04;

/// Tag of a GeneralString, which carries the protocol's strings.
pub const TAG_GENERAL_STRING: u8 = 0x1b;

/// Tag of a SEQUENCE.
pub const TAG_SEQUENCE: u8 = 0x30;

/// Largest number of content bytes that a length can announce.
pub const MAX_CONTENT_LEN: u32 = 0xfff_ffff;

/// Tag of the constructed context-specific field `[number]`.
pub open spec fn spec_context_tag(number: u8) -> u8
    recommends
        number <= 30,
{
    (0xa0 + number) as u8
}

/// Tag of the constructed application type `[APPLICATION number]`.
pub open spec fn spec_application_tag(number: u8) -> u8
    recommends
        number <= 30,
{
    (0x60 + number) as u8
}

/// Tag of the constructed context-specific field `[number]`.
pub(crate) fn context_tag(number: u8) -> (tag: u8)
    requires
        number <= 30,
    ensures
        tag == spec_context_tag(number),
{
    0xa0 + number
}

/// Tag of the constructed application type `[APPLICATION number]`.
pub(crate) fn application_tag(number: u8) -> (tag: u8)
    requires
        number <= 30,
    ensures
        tag == spec_application_tag(number),
{
    0x60 + number
}

/// The length that starts `b`, and the number of bytes that spell it: one
/// byte below 128, or a count byte and up to four bytes in network order, never
/// more bytes than the value needs, and never more than `MAX_CONTENT_LEN`.
pub open spec fn spec_length_prefix(b: Seq<u8>) -> Option<(nat, nat)> {
    if b.len() == 0 {
        None
    } else if b[0] < 0x80 {
        Some((b[0] as nat, 1nat))
    } else if b[0] == 0x81 && b.len() >= 2 && b[1] >= 0x80 {
        Some((b[1] as nat, 2nat))
    } else if b[0] == 0x82 && b.len() >= 3 && b[1] != 0 {
        Some(((b[1] as nat) * 0x100 + b[2] as nat, 3nat))
    } else if b[0] == 0x83 && b.len() >= 4 && b[1] != 0 {
        Some(((b[1] as nat) * 0x1_0000 + (b[2] as nat) * 0x100 + b[3] as nat, 4nat))
    } else if b[0] == 0x84 && b.len() >= 5 && b[1] != 0 && b[1] < 0x10 {
        Some(
            (
                (b[1] as nat) * 0x100_0000 + (b[2] as nat) * 0x1_0000 + (b[3] as nat) * 0x100
                    + b[4] as nat,
                5nat,
            ),
        )
    } else {
        None
    }
}

/// The bytes that spell the length `len`, where it can be spelled.
pub open spec fn spec_length_encoding(len: nat) -> Option<Seq<u8>> {
    if len < 0x80 {
        Some(seq![len as u8])
    } else if len < 0x100 {
        Some(seq![0x81u8, len as u8])
    } else if len < 0x1_0000 {
        Some(seq![0x82u8, (len / 0x100) as u8, (len % 0x100) as u8])
    } else if len < 0x100_0000 {
        Some(seq![0x83u8, (len / 0x1_0000) as u8, (len / 0x100 % 0x100) as u8, (len % 0x100) as u8])
    } else if len <= MAX_CONTENT_LEN {
        Some(
            seq![
                0x84u8,
                (len / 0x100_0000) as u8,
                (len / 0x1_0000 % 0x100) as u8,
                (len / 0x100 % 0x100) as u8,
                (len % 0x100) as u8,
            ],
        )
    } else {
        None
    }
}

/// The bytes of a vector that may be absent.
pub open spec fn opt_view(bytes: Option<Vec<u8>>) -> Option<Seq<u8>> {
    match bytes {
        Some(b) => Some(b@),
        None => None,
    }
}

/// The number that `der` reads from an INTEGER given as tag, length and
/// contents, where it reads one that fits 64 bits.
pub uninterp spec fn der_int_value(bytes: Seq<u8>) -> Option<i64>;

/// The tag, length and contents that `der` writes for an INTEGER.
pub uninterp spec fn der_int_encoding(value: i64) -> Option<Seq<u8>>;

/// The seconds since the start of 1970 that `der` reads from a
/// GeneralizedTime given as tag, length and contents, where it reads one.
pub uninterp spec fn der_time_value(bytes: Seq<u8>) -> Option<u64>;

/// The tag, length and contents that `der` writes for the GeneralizedTime
/// that lies `secs` seconds after the start of 1970, where it has one.
pub uninterp spec fn der_time_encoding(secs: u64) -> Option<Seq<u8>>;

/// `der::Length::decode` on a `der::SliceReader` over `bytes`, with the number
/// of bytes that the reader has then passed.
///
/// The contract restates the crate's rules for a length: the short form below
/// 128, the long form with one to four bytes, refused where it is longer than
/// the value needs or the value is over 256 MiB.
#[verifier::external_body]
fn der_read_length(bytes: &[u8]) -> (r: Option<(u32, u32)>)
    requires
        bytes.len() <= 5,
    ensures
        match r {
            Some((len, used)) => spec_length_prefix(bytes@) == Some((len as nat, used as nat)),
            None => spec_length_prefix(bytes@) is None,
        },
{
    let mut reader = der::SliceReader::new(bytes).ok()?;
    let length = der::Length::decode(&mut reader).ok()?;
    Some((u32::from(length), u32::from(reader.position())))
}

/// `der::Length::try_from` and `to_der`: the bytes that spell `len`, or nothing
/// where `len` is over 256 MiB.
#[verifier::external_body]
fn der_write_length(len: u32) -> (r: Option<Vec<u8>>)
    ensures
        opt_view(r) == spec_length_encoding(len as nat),
{
    der::Length::try_from(len).ok()?.to_der().ok()
}

/// `i64::from_der`: reads an INTEGER that spans all of `bytes`.
#[verifier::external_body]
fn der_read_int(bytes: &[u8]) -> (r: Option<i64>)
    ensures
        r == der_int_value(bytes@),
{
    i64::from_der(bytes).ok()
}

/// `i64::to_der`: writes an INTEGER.
#[verifier::external_body]
fn der_write_int(value: i64) -> (r: Option<Vec<u8>>)
    ensures
        opt_view(r) == der_int_encoding(value),
{
    value.to_der().ok()
}

/// `der::asn1::GeneralizedTime::from_der` and `to_unix_duration`: reads a
/// time that spans all of `bytes`, as whole seconds since the start of 1970.
#[verifier::external_body]
fn der_read_time(bytes: &[u8]) -> (r: Option<u64>)
    ensures
        r == der_time_value(bytes@),
{
    let time = der::asn1::GeneralizedTime::from_der(bytes).ok()?;
    Some(time.to_unix_duration().as_secs())
}

/// `der::asn1::GeneralizedTime::from_unix_duration` and `to_der`: writes the
/// time that lies `secs` seconds after the start of 1970.
#[verifier::external_body]
fn der_write_time(secs: u64) -> (r: Option<Vec<u8>>)
    ensures
        opt_view(r) == der_time_encoding(secs),
{
    let duration = core::time::Duration::from_secs(secs);
    der::asn1::GeneralizedTime::from_unix_duration(duration).ok()?.to_der().ok()
}

/// Where `bytes` starts with a tag of one byte, a length and as many bytes as
/// the length announces: the tag, the number of bytes before the contents, and
/// the number of bytes of contents.
pub open spec fn spec_header(bytes: Seq<u8>) -> Option<(u8, nat, nat)> {
    if bytes.len() < 2 || bytes[0] % 0x20 == 0x1f {
        None
    } else {
        match spec_length_prefix(bytes.subrange(1, bytes.len() as int)) {
            Some((len, used)) => if 1 + used + len <= bytes.len() {
                Some((bytes[0], 1 + used, len))
            } else {
                None
            },
            None => None,
        }
    }
}

/// The contents of the element that `bytes` is, if it is exactly one element
/// with tag `tag`.
pub open spec fn spec_exact(bytes: Seq<u8>, tag: u8) -> Option<Seq<u8>> {
    match spec_header(bytes) {
        Some((t, h, n)) => if t == tag && h + n == bytes.len() {
            Some(bytes.subrange(h as int, (h + n) as int))
        } else {
            None
        },
        None => None,
    }
}

/// The contents of the element with tag `tag` that `bytes` starts with, and
/// what follows it.
pub open spec fn spec_field(bytes: Seq<u8>, tag: u8) -> Option<(Seq<u8>, Seq<u8>)> {
    match spec_header(bytes) {
        Some((t, h, n)) => if t == tag {
            Some(
                (
                    bytes.subrange(h as int, (h + n) as int),
                    bytes.subrange((h + n) as int, bytes.len() as int),
                ),
            )
        } else {
            None
        },
        None => None,
    }
}

/// As `spec_field`, for a field that may be absent: then nothing is taken.
pub open spec fn spec_optional_field(bytes: Seq<u8>, tag: u8) -> (Option<Seq<u8>>, Seq<u8>) {
    match spec_field(bytes, tag) {
        Some((contents, rest)) => (Some(contents), rest),
        None => (None, bytes),
    }
}

/// The elements that `bytes` is a run of, each with its tag and length.
pub open spec fn spec_items(bytes: Seq<u8>) -> Option<Seq<Seq<u8>>>
    decreases bytes.len(),
{
    if bytes.len() == 0 {
        Some(Seq::empty())
    } else {
        match spec_header(bytes) {
            Some((t, h, n)) => match spec_items(bytes.subrange((h + n) as int,
                bytes.len() as int)) {
                Some(rest) => Some(seq![bytes.subrange(0, (h + n) as int)] + rest),
                None => None,
            },
            None => None,
        }
    }
}

/// The element with tag `tag` and contents `contents`, where the length can be
/// spelled.
pub open spec fn spec_element(tag: u8, contents: Seq<u8>) -> Option<Seq<u8>> {
    match spec_length_encoding(contents.len()) {
        Some(length) => Some(seq![tag] + length + contents),
        None => None,
    }
}

/// Whether every byte is a character of the international alphabet no. 5,
/// the seven-bit set that the protocol's strings are limited to.
pub open spec fn spec_is_ia5(bytes: Seq<u8>) -> bool {
    forall|i: int| 0 <= i < bytes.len() ==> #[trigger] bytes[i] < 0x80
}

/// The number of an INTEGER that fits 32 bits with a sign.
pub open spec fn spec_i32(bytes: Seq<u8>) -> Option<i32> {
    match der_int_value(bytes) {
        Some(v) => if -0x8000_0000 <= v <= 0x7fff_ffff {
            Some(v as i32)
        } else {
            None
        },
        None => None,
    }
}

/// The number of an INTEGER that fits 32 bits without a sign.
pub open spec fn spec_u32(bytes: Seq<u8>) -> Option<u32> {
    match der_int_value(bytes) {
        Some(v) => if 0 <= v <= 0xffff_ffff {
            Some(v as u32)
        } else {
            None
        },
        None => None,
    }
}

/// The number of an INTEGER that fits 8 bits without a sign.
pub open spec fn spec_u8(bytes: Seq<u8>) -> Option<u8> {
    match der_int_value(bytes) {
        Some(v) => if 0 <= v <= 0xff {
            Some(v as u8)
        } else {
            None
        },
        None => None,
    }
}

/// The number of an INTEGER that fits 8 bits with a sign.
pub open spec fn spec_i8(bytes: Seq<u8>) -> Option<i8> {
    match der_int_value(bytes) {
        Some(v) => if -0x80 <= v <= 0x7f {
            Some(v as i8)
        } else {
            None
        },
        None => None,
    }
}

/// The bytes of an OCTET STRING.
pub open spec fn spec_octets(bytes: Seq<u8>) -> Option<Seq<u8>> {
    spec_exact(bytes, TAG_OCTET_STRING)
}

/// The bytes of a GeneralString that keeps to the seven-bit alphabet.
pub open spec fn spec_general_string(bytes: Seq<u8>) -> Option<Seq<u8>> {
    match spec_exact(bytes, TAG_GENERAL_STRING) {
        Some(contents) => if spec_is_ia5(contents) {
            Some(contents)
        } else {
            None
        },
        None => None,
    }
}

/// The number that four bytes spell in network order.
pub open spec fn spec_be32(b: Seq<u8>) -> u32
    recommends
        b.len() == 4,
{
    ((b[0] as nat) * 0x100_0000 + (b[1] as nat) * 0x1_0000 + (b[2] as nat) * 0x100
        + b[3] as nat) as u32
}

/// The four bytes that spell `v` in network order.
pub open spec fn spec_be32_bytes(v: u32) -> Seq<u8> {
    seq![
        (v / 0x100_0000) as u8,
        (v / 0x1_0000 % 0x100) as u8,
        (v / 0x100 % 0x100) as u8,
        (v % 0x100) as u8,
    ]
}

/// The first 32 flags of a BIT STRING that holds at least that many, as a
/// number whose top bit is flag 0.
pub open spec fn spec_flags(bytes: Seq<u8>) -> Option<u32> {
    match spec_exact(bytes, TAG_BIT_STRING) {
        Some(contents) => if contents.len() >= 5 && contents[0] < 8 && (contents.len() == 5
            ==> contents[0] == 0) {
            Some(spec_be32(contents.subrange(1, 5)))
        } else {
            None
        },
        None => None,
    }
}

/// The BIT STRING that holds exactly the 32 flags of `flags`.
pub open spec fn spec_flags_encoding(flags: u32) -> Option<Seq<u8>> {
    spec_element(TAG_BIT_STRING, seq![0u8] + spec_be32_bytes(flags))
}

/// A length is read from the bytes that spell it alone: what follows them does
/// not matter.
proof fn lemma_length_prefix_window(b: Seq<u8>)
    ensures
        spec_length_prefix(b) == spec_length_prefix(
            b.subrange(0, if b.len() < 5 {
                b.len() as int
            } else {
                5
            }),
        ),
{
}

/// A length that was written is read back, whatever follows it.
pub proof fn lemma_length_roundtrip(len: nat, tail: Seq<u8>)
    requires
        len <= MAX_CONTENT_LEN,
    ensures
        spec_length_encoding(len) matches Some(enc) && spec_length_prefix(enc + tail) == Some(
            (len, enc.len()),
        ),
{
    let enc = spec_length_encoding(len)->0;
    let s = enc + tail;
    assert(forall|i: int| 0 <= i < enc.len() ==> s[i] == enc[i]);
    if len >= 0x80 {
        assert(s[0] == enc[0] && s[1] == enc[1]);
    }
    if len >= 0x100 {
        assert(s[2] == enc[2]);
    }
    if len >= 0x1_0000 {
        assert(s[3] == enc[3]);
    }
    if len >= 0x100_0000 {
        assert(s[4] == enc[4]);
    }
}

/// An element that was written is read back: its tag, its contents, and
/// nothing left over.
pub proof fn lemma_element_roundtrip(tag: u8, contents: Seq<u8>)
    requires
        tag % 0x20 != 0x1f,
        contents.len() <= MAX_CONTENT_LEN,
    ensures
        spec_element(tag, contents) matches Some(bytes) && spec_exact(bytes, tag) == Some(contents),
{
    let length = spec_length_encoding(contents.len())->0;
    let bytes = seq![tag] + length + contents;
    lemma_length_roundtrip(contents.len(), contents);
    assert(bytes.subrange(1, bytes.len() as int) =~= length + contents);
    let h = 1 + length.len();
    assert(bytes.subrange(h as int, (h + contents.len()) as int) =~= contents);
}

/// Reads the tag and the length that `bytes` starts with.
pub fn read_header(bytes: &[u8]) -> (r: Option<(u8, usize, usize)>)
    ensures
        match r {
            Some((tag, h, n)) => spec_header(bytes@) == Some((tag, h as nat, n as nat)) && 2 <= h
                && h + n <= bytes.len(),
            None => spec_header(bytes@) is None,
        },
{
    if bytes.len() < 2 {
        return None;
    }
    let tag: u8 = bytes[0];
    if tag % 0x20 == 0x1f {
        return None;
    }
    let end: usize = if bytes.len() < 6 {
        bytes.len()
    } else {
        6
    };
    let window = vstd::slice::slice_subrange(bytes, 1, end);
    proof {
        let after = bytes@.subrange(1, bytes@.len() as int);
        lemma_length_prefix_window(after);
        assert(window@ =~= after.subrange(0, if after.len() < 5 {
            after.len() as int
        } else {
            5
        }));
    }
    match der_read_length(window) {
        Some((len, used)) => {
            let h: usize = 1 + used as usize;
            let n: usize = len as usize;
            if n <= bytes.len() - h {
                Some((tag, h, n))
            } else {
                None
            }
        },
        None => None,
    }
}

/// The contents of `bytes`, if it is exactly one element with tag `tag`.
pub fn read_exact<'a>(bytes: &'a [u8], tag: u8) -> (r: Option<&'a [u8]>)
    ensures
        match r {
            Some(contents) => spec_exact(bytes@, tag) == Some(contents@),
            None => spec_exact(bytes@, tag) is None,
        },
{
    match read_header(bytes) {
        Some((t, h, n)) => {
            if t == tag && h + n == bytes.len() {
                Some(vstd::slice::slice_subrange(bytes, h, h + n))
            } else {
                None
            }
        },
        None => None,
    }
}

/// The contents of the element with tag `tag` that `bytes` starts with, and
/// what follows it.
pub fn read_field<'a>(bytes: &'a [u8], tag: u8) -> (r: Option<(&'a [u8], &'a [u8])>)
    ensures
        match r {
            Some((contents, rest)) => spec_field(bytes@, tag) == Some((contents@, rest@)),
            None => spec_field(bytes@, tag) is None,
        },
{
    match read_header(bytes) {
        Some((t, h, n)) => {
            if t == tag {
                Some(
                    (
                        vstd::slice::slice_subrange(bytes, h, h + n),
                        vstd::slice::slice_subrange(bytes, h + n, bytes.len()),
                    ),
                )
            } else {
                None
            }
        },
        None => None,
    }
}

/// As `read_field`, for a field that may be absent.
pub fn read_optional_field<'a>(bytes: &'a [u8], tag: u8) -> (r: (Option<&'a [u8]>, &'a [u8]))
    ensures
        match r.0 {
            Some(contents) => spec_optional_field(bytes@, tag) == (Some(contents@), r.1@),
            None => spec_optional_field(bytes@, tag) == (None::<Seq<u8>>, r.1@),
        },
{
    match read_field(bytes, tag) {
        Some((contents, rest)) => (Some(contents), rest),
        None => (None, bytes),
    }
}

/// Cuts `bytes` into the elements that it is a run of.
pub fn read_items<'a>(bytes: &'a [u8]) -> (r: Option<Vec<&'a [u8]>>)
    ensures
        match r {
            Some(items) => spec_items(bytes@) == Some(Seq::new(items@.len(), |i: int| items@[i]@)),
            None => spec_items(bytes@) is None,
        },
{
    let mut items: Vec<&'a [u8]> = Vec::new();
    let mut pos: usize = 0;
    assert(bytes@.subrange(0, bytes@.len() as int) =~= bytes@);
    while pos < bytes.len()
        invariant
            pos <= bytes.len(),
            spec_items(bytes@) == match spec_items(bytes@.subrange(pos as int,
                bytes@.len() as int)) {
                Some(rest) => Some(Seq::new(items@.len(), |i: int| items@[i]@) + rest),
                None => None,
            },
        decreases bytes.len() - pos,
    {
        let remaining = vstd::slice::slice_subrange(bytes, pos, bytes.len());
        match read_header(remaining) {
            Some((_, h, n)) => {
                let item = vstd::slice::slice_subrange(remaining, 0, h + n);
                let ghost before = Seq::new(items@.len(), |i: int| items@[i]@);
                items.push(item);
                proof {
                    let after = Seq::new(items@.len(), |i: int| items@[i]@);
                    assert(after =~= before + seq![item@]);
                    let next = remaining@.subrange((h + n) as int, remaining@.len() as int);
                    assert(next =~= bytes@.subrange(pos + h + n, bytes@.len() as int));
                    match spec_items(next) {
                        Some(rest) => {
                            assert(before + (seq![item@] + rest) =~= after + rest);
                        },
                        None => {},
                    }
                }
                pos = pos + h + n;
            },
            None => {
                return None;
            },
        }
    }
    proof {
        let done = Seq::new(items@.len(), |i: int| items@[i]@);
        assert(done + Seq::<Seq<u8>>::empty() =~= done);
    }
    Some(items)
}

/// Writes the element with tag `tag` and contents `contents`.
pub fn write_element(tag: u8, contents: &[u8]) -> (r: Option<Vec<u8>>)
    ensures
        opt_view(r) == spec_element(tag, contents@),
{
    if contents.len() > MAX_CONTENT_LEN as usize {
        return None;
    }
    match der_write_length(contents.len() as u32) {
        Some(length) => {
            let mut bytes: Vec<u8> = Vec::new();
            bytes.push(tag);
            let mut length = length;
            bytes.append(&mut length);
            let mut body = vstd::slice::slice_to_vec(contents);
            bytes.append(&mut body);
            Some(bytes)
        },
        None => None,
    }
}

/// Whether every byte is a character of the seven-bit alphabet.
pub fn is_ia5(bytes: &[u8]) -> (r: bool)
    ensures
        r == spec_is_ia5(bytes@),
{
    let mut i: usize = 0;
    while i < bytes.len()
        invariant
            i <= bytes.len(),
            forall|j: int| 0 <= j < i ==> #[trigger] bytes@[j] < 0x80,
        decreases bytes.len() - i,
    {
        if bytes[i] >= 0x80 {
            return false;
        }
        i = i + 1;
    }
    true
}

/// Reads an INTEGER that fits 32 bits with a sign.
pub fn read_i32(bytes: &[u8]) -> (r: Option<i32>)
    ensures
        r == spec_i32(bytes@),
{
    match der_read_int(bytes) {
        Some(v) => if -0x8000_0000 <= v && v <= 0x7fff_ffff {
            Some(v as i32)
        } else {
            None
        },
        None => None,
    }
}

/// Reads an INTEGER that fits 32 bits without a sign.
pub fn read_u32(bytes: &[u8]) -> (r: Option<u32>)
    ensures
        r == spec_u32(bytes@),
{
    match der_read_int(bytes) {
        Some(v) => if 0 <= v && v <= 0xffff_ffff {
            Some(v as u32)
        } else {
            None
        },
        None => None,
    }
}

/// Reads an INTEGER that fits 8 bits without a sign.
pub fn read_u8(bytes: &[u8]) -> (r: Option<u8>)
    ensures
        r == spec_u8(bytes@),
{
    match der_read_int(bytes) {
        Some(v) => if 0 <= v && v <= 0xff {
            Some(v as u8)
        } else {
            None
        },
        None => None,
    }
}

/// Reads an INTEGER that fits 8 bits with a sign.
pub fn read_i8(bytes: &[u8]) -> (r: Option<i8>)
    ensures
        r == spec_i8(bytes@),
{
    match der_read_int(bytes) {
        Some(v) => if -0x80 <= v && v <= 0x7f {
            Some(v as i8)
        } else {
            None
        },
        None => None,
    }
}

/// The INTEGER that holds `value`.
pub open spec fn spec_write_i32(value: i32) -> Option<Seq<u8>> {
    der_int_encoding(value as i64)
}

/// The INTEGER that holds `value`.
pub open spec fn spec_write_u32(value: u32) -> Option<Seq<u8>> {
    der_int_encoding(value as i64)
}

/// The INTEGER that holds `value`.
pub open spec fn spec_write_u8(value: u8) -> Option<Seq<u8>> {
    der_int_encoding(value as i64)
}

/// The INTEGER that holds `value`.
pub open spec fn spec_write_i8(value: i8) -> Option<Seq<u8>> {
    der_int_encoding(value as i64)
}

/// Writes an INTEGER.
pub fn write_i32(value: i32) -> (r: Option<Vec<u8>>)
    ensures
        opt_view(r) == spec_write_i32(value),
{
    der_write_int(value as i64)
}

/// Writes an INTEGER.
pub fn write_u32(value: u32) -> (r: Option<Vec<u8>>)
    ensures
        opt_view(r) == spec_write_u32(value),
{
    der_write_int(value as i64)
}

/// Writes an INTEGER.
pub fn write_u8(value: u8) -> (r: Option<Vec<u8>>)
    ensures
        opt_view(r) == spec_write_u8(value),
{
    der_write_int(value as i64)
}

/// Writes an INTEGER.
pub fn write_i8(value: i8) -> (r: Option<Vec<u8>>)
    ensures
        opt_view(r) == spec_write_i8(value),
{
    der_write_int(value as i64)
}

/// Reads a time, as whole seconds since the start of 1970.
pub fn read_time(bytes: &[u8]) -> (r: Option<u64>)
    ensures
        r == der_time_value(bytes@),
{
    der_read_time(bytes)
}

/// Writes the time that lies `secs` seconds after the start of 1970.
pub fn write_time(secs: u64) -> (r: Option<Vec<u8>>)
    ensures
        opt_view(r) == der_time_encoding(secs),
{
    der_write_time(secs)
}

/// Reads an OCTET STRING.
pub fn read_octets<'a>(bytes: &'a [u8]) -> (r: Option<&'a [u8]>)
    ensures
        match r {
            Some(contents) => spec_octets(bytes@) == Some(contents@),
            None => spec_octets(bytes@) is None,
        },
{
    read_exact(bytes, TAG_OCTET_STRING)
}

/// Reads a GeneralString that keeps to the seven-bit alphabet.
pub fn read_general_string<'a>(bytes: &'a [u8]) -> (r: Option<&'a [u8]>)
    ensures
        match r {
            Some(contents) => spec_general_string(bytes@) == Some(contents@),
            None => spec_general_string(bytes@) is None,
        },
{
    match read_exact(bytes, TAG_GENERAL_STRING) {
        Some(contents) => if is_ia5(contents) {
            Some(contents)
        } else {
            None
        },
        None => None,
    }
}

/// The number that the four bytes from `at` on spell in network order.
pub(crate) fn be32(bytes: &[u8], at: usize) -> (v: u32)
    requires
        at + 4 <= bytes.len(),
    ensures
        v == spec_be32(bytes@.subrange(at as int, at + 4)),
{
    (bytes[at] as u32) * 0x100_0000 + (bytes[at + 1] as u32) * 0x1_0000 + (bytes[at + 2] as u32)
        * 0x100 + (bytes[at + 3] as u32)
}

/// The four bytes that spell `v` in network order.
pub fn be32_bytes(v: u32) -> (bytes: Vec<u8>)
    ensures
        bytes@ == spec_be32_bytes(v),
{
    let mut bytes: Vec<u8> = Vec::new();
    bytes.push((v / 0x100_0000) as u8);
    bytes.push((v / 0x1_0000 % 0x100) as u8);
    bytes.push((v / 0x100 % 0x100) as u8);
    bytes.push((v % 0x100) as u8);
    assert(bytes@ =~= spec_be32_bytes(v));
    bytes
}

/// Four bytes in network order spell the number that they were made from.
pub proof fn lemma_be32_roundtrip(v: u32)
    ensures
        spec_be32(spec_be32_bytes(v)) == v,
        spec_be32_bytes(v).len() == 4,
{
}

/// Flags that were written are read back.
pub proof fn lemma_flags_roundtrip(flags: u32)
    ensures
        spec_flags_encoding(flags) matches Some(bytes) && spec_flags(bytes) == Some(flags),
{
    let contents = seq![0u8] + spec_be32_bytes(flags);
    lemma_be32_roundtrip(flags);
    lemma_element_roundtrip(TAG_BIT_STRING, contents);
    assert(contents.subrange(1, 5) =~= spec_be32_bytes(flags));
}

/// Reads the first 32 flags of a BIT STRING.
pub fn read_flags(bytes: &[u8]) -> (r: Option<u32>)
    ensures
        r == spec_flags(bytes@),
{
    match read_exact(bytes, TAG_BIT_STRING) {
        Some(contents) => {
            if contents.len() >= 5 && contents[0] < 8 && (contents.len() != 5 || contents[0]
                == 0) {
                Some(be32(contents, 1))
            } else {
                None
            }
        },
        None => None,
    }
}

/// Writes the BIT STRING that holds exactly the 32 flags of `flags`.
pub fn write_flags(flags: u32) -> (r: Option<Vec<u8>>)
    ensures
        opt_view(r) == spec_flags_encoding(flags),
{
    let mut contents: Vec<u8> = Vec::new();
    contents.push(0u8);
    let mut value = be32_bytes(flags);
    contents.append(&mut value);
    assert(contents@ =~= seq![0u8] + spec_be32_bytes(flags));
    write_element(TAG_BIT_STRING, contents.as_slice())
}

/// The OCTET STRING that holds `bytes`.
pub open spec fn spec_write_octets(bytes: Seq<u8>) -> Option<Seq<u8>> {
    spec_element(TAG_OCTET_STRING, bytes)
}

/// Writes an OCTET STRING.
pub fn write_octets(bytes: &[u8]) -> (r: Option<Vec<u8>>)
    ensures
        opt_view(r) == spec_write_octets(bytes@),
{
    write_element(TAG_OCTET_STRING, bytes)
}

/// The GeneralString that holds `bytes`, where they keep to the seven-bit
/// alphabet.
pub open spec fn spec_write_general_string(bytes: Seq<u8>) -> Option<Seq<u8>> {
    if spec_is_ia5(bytes) {
        spec_element(TAG_GENERAL_STRING, bytes)
    } else {
        None
    }
}

/// Writes a GeneralString, unless a byte is outside the seven-bit alphabet.
pub fn write_general_string(bytes: &[u8]) -> (r: Option<Vec<u8>>)
    ensures
        opt_view(r) == spec_write_general_string(bytes@),
{
    if is_ia5(bytes) {
        write_element(TAG_GENERAL_STRING, bytes)
    } else {
        None
    }
}

/// `bytes` itself, if it is exactly one element, whatever its tag.
pub open spec fn spec_raw(bytes: Seq<u8>) -> Option<Seq<u8>> {
    match spec_header(bytes) {
        Some((t, h, n)) => if h + n == bytes.len() {
            Some(bytes)
        } else {
            None
        },
        None => None,
    }
}

/// Accepts one element of any tag and hands it back as it is.
pub fn read_raw<'a>(bytes: &'a [u8]) -> (r: Option<&'a [u8]>)
    ensures
        match r {
            Some(element) => spec_raw(bytes@) == Some(element@),
            None => spec_raw(bytes@) is None,
        },
{
    match read_header(bytes) {
        Some((_, h, n)) => if h + n == bytes.len() {
            Some(bytes)
        } else {
            None
        },
        None => None,
    }
}

/// An element that is kept as bytes is written as it is.
pub open spec fn spec_write_raw(bytes: Seq<u8>) -> Option<Seq<u8>> {
    Some(bytes)
}

/// Writes an element that is kept as bytes.
pub fn write_raw(bytes: &[u8]) -> (r: Option<Vec<u8>>)
    ensures
        opt_view(r) == spec_write_raw(bytes@),
{
    Some(vstd::slice::slice_to_vec(bytes))
}

/// The field `[number]` around `inner`, where `inner` could be written.
pub open spec fn spec_explicit(number: u8, inner: Option<Seq<u8>>) -> Option<Seq<u8>>
    recommends
        number <= 30,
{
    match inner {
        Some(bytes) => spec_element(spec_context_tag(number), bytes),
        None => None,
    }
}

/// Writes the field `[number]` around `inner`.
pub(crate) fn write_explicit(number: u8, inner: Option<Vec<u8>>) -> (r: Option<Vec<u8>>)
    requires
        number <= 30,
    ensures
        opt_view(r) == spec_explicit(number, opt_view(inner)),
{
    match inner {
        Some(bytes) => write_element(context_tag(number), bytes.as_slice()),
        None => None,
    }
}

/// The bytes of each vector of a sequence.
pub open spec fn spec_bytes_of(items: Seq<Vec<u8>>) -> Seq<Seq<u8>> {
    Seq::new(items.len(), |i: int| items[i]@)
}

} // verus!
