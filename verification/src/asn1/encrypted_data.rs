//! Encrypted payloads and keys.

use crate::asn1::der::{
    TAG_SEQUENCE,
    context_tag,
    opt_view,
    read_exact,
    read_field,
    read_i32,
    read_octets,
    read_optional_field,
    read_u32,
    spec_context_tag,
    spec_element,
    spec_exact,
    spec_explicit,
    spec_field,
    spec_i32,
    spec_octets,
    spec_optional_field,
    spec_u32,
    spec_write_i32,
    spec_write_octets,
    spec_write_u32,
    write_element,
    write_explicit,
    write_i32,
    write_octets,
    write_u32,
};
use vstd::prelude::*;

verus! {

/// A ciphertext with the encryption type and the version of the key that made
/// it.
#[derive(Debug, Clone, PartialEq, Eq)]
pub struct KdcEncryptedData {
    /// Number of the encryption type.
    pub etype: i32,
    /// Version of the key, where the sender tells it.
    pub kvno: Option<u32>,
    /// The ciphertext.
    pub cipher: Vec<u8>,
}

/// What an encrypted payload holds, as plain values.
pub struct KdcEncryptedDataView {
    pub etype: i32,
    pub kvno: Option<u32>,
    pub cipher: Seq<u8>,
}

impl DeepView for KdcEncryptedData {
    type V = KdcEncryptedDataView;

    open spec fn deep_view(&self) -> KdcEncryptedDataView {
        KdcEncryptedDataView {
            etype: self.etype,
            kvno: self.kvno,
            cipher: self.cipher@,
        }
    }
}

impl KdcEncryptedData {
    /// What the bytes hold, if they are an encrypted payload in the wire encoding: a SEQUENCE
    /// of the fields in their order, each inside its numbered tag, and nothing
    /// else.
    #[verifier::opaque]
    pub open spec fn spec_decode(bytes: Seq<u8>) -> Option<KdcEncryptedDataView> {
        let body = spec_exact(bytes, TAG_SEQUENCE);
        let field0 = spec_field(body->0, spec_context_tag(0));
        let etype = spec_i32((field0->0).0);
        let field1 = spec_optional_field((field0->0).1, spec_context_tag(1));
        let kvno = match field1.0 {
            Some(c) => spec_u32(c),
            None => None,
        };
        let field2 = spec_field(field1.1, spec_context_tag(2));
        let cipher = spec_octets((field2->0).0);
        if body is Some
            && field0 is Some
            && etype is Some
            && (field1.0 is Some ==> kvno is Some)
            && field2 is Some
            && cipher is Some
            && (field2->0).1.len() == 0 {
            Some(KdcEncryptedDataView { etype: etype->0, kvno, cipher: cipher->0 })
        } else {
            None
        }
    }

    /// Reads an encrypted payload from its wire encoding.
    pub fn decode(bytes: &[u8]) -> (r: Option<KdcEncryptedData>)
        ensures
            match r {
                Some(v) => KdcEncryptedData::spec_decode(bytes@) == Some(v.deep_view()),
                None => KdcEncryptedData::spec_decode(bytes@) is None,
            },
    {
        proof {
            reveal(KdcEncryptedData::spec_decode);
        }
        let rest = match read_exact(bytes, TAG_SEQUENCE) {
            Some(body) => body,
            None => {
                return None;
            },
        };
        let (c, rest) = match read_field(rest, context_tag(0)) {
            Some(found) => found,
            None => {
                return None;
            },
        };
        let etype = match read_i32(c) {
            Some(v) => v,
            None => {
                return None;
            },
        };
        let (c, rest) = read_optional_field(rest, context_tag(1));
        let kvno = match c {
            Some(c) => match read_u32(c) {
                Some(v) => Some(v),
                None => {
                    return None;
                },
            },
            None => None,
        };
        let (c, rest) = match read_field(rest, context_tag(2)) {
            Some(found) => found,
            None => {
                return None;
            },
        };
        let cipher = match read_octets(c) {
            Some(v) => vstd::slice::slice_to_vec(v),
            None => {
                return None;
            },
        };
        if rest.len() != 0 {
            return None;
        }
        Some(KdcEncryptedData { etype, kvno, cipher })
    }

    /// The wire encoding of an encrypted payload, where every field can be written.
    #[verifier::opaque]
    pub open spec fn spec_encode(v: KdcEncryptedDataView) -> Option<Seq<u8>> {
        let part0 = spec_explicit(0, spec_write_i32(v.etype));
        let part1 = match v.kvno {
            Some(x) => spec_explicit(1, spec_write_u32(x)),
            None => Some(Seq::empty()),
        };
        let part2 = spec_explicit(2, spec_write_octets(v.cipher));
        if part0 is Some && part1 is Some && part2 is Some {
            spec_element(TAG_SEQUENCE, part0->0 + part1->0 + part2->0)
        } else {
            None
        }
    }

    /// Writes an encrypted payload in its wire encoding.
    pub fn encode(&self) -> (r: Option<Vec<u8>>)
        ensures
            opt_view(r) == KdcEncryptedData::spec_encode(self.deep_view()),
    {
        proof {
            reveal(KdcEncryptedData::spec_encode);
        }
        let mut body: Vec<u8> = Vec::new();
        match write_explicit(0, write_i32(self.etype)) {
            Some(part) => {
                let mut part = part;
                body.append(&mut part);
            },
            None => {
                return None;
            },
        }
        match &self.kvno {
            Some(x) => match write_explicit(1, write_u32(*x)) {
                Some(part) => {
                    let mut part = part;
                    body.append(&mut part);
                },
                None => {
                    return None;
                },
            },
            None => {
                assert(body@ + Seq::<u8>::empty() =~= body@);
            },
        }
        match write_explicit(2, write_octets(self.cipher.as_slice())) {
            Some(part) => {
                let mut part = part;
                body.append(&mut part);
            },
            None => {
                return None;
            },
        }
        write_element(TAG_SEQUENCE, body.as_slice())
    }
}
/// A key with the encryption type that it is for.
#[derive(Clone, PartialEq, Eq)]
pub struct EncryptionKey {
    /// Number of the encryption type.
    pub key_type: i32,
    /// The key.
    pub key_value: Vec<u8>,
}

/// What a key holds, as plain values.
pub struct EncryptionKeyView {
    pub key_type: i32,
    pub key_value: Seq<u8>,
}

impl DeepView for EncryptionKey {
    type V = EncryptionKeyView;

    open spec fn deep_view(&self) -> EncryptionKeyView {
        EncryptionKeyView {
            key_type: self.key_type,
            key_value: self.key_value@,
        }
    }
}

impl EncryptionKey {
    /// What the bytes hold, if they are a key in the wire encoding: a SEQUENCE
    /// of the fields in their order, each inside its numbered tag, and nothing
    /// else.
    #[verifier::opaque]
    pub open spec fn spec_decode(bytes: Seq<u8>) -> Option<EncryptionKeyView> {
        let body = spec_exact(bytes, TAG_SEQUENCE);
        let field0 = spec_field(body->0, spec_context_tag(0));
        let key_type = spec_i32((field0->0).0);
        let field1 = spec_field((field0->0).1, spec_context_tag(1));
        let key_value = spec_octets((field1->0).0);
        if body is Some
            && field0 is Some
            && key_type is Some
            && field1 is Some
            && key_value is Some
            && (field1->0).1.len() == 0 {
            Some(EncryptionKeyView { key_type: key_type->0, key_value: key_value->0 })
        } else {
            None
        }
    }

    /// Reads a key from its wire encoding.
    pub fn decode(bytes: &[u8]) -> (r: Option<EncryptionKey>)
        ensures
            match r {
                Some(v) => EncryptionKey::spec_decode(bytes@) == Some(v.deep_view()),
                None => EncryptionKey::spec_decode(bytes@) is None,
            },
    {
        proof {
            reveal(EncryptionKey::spec_decode);
        }
        let rest = match read_exact(bytes, TAG_SEQUENCE) {
            Some(body) => body,
            None => {
                return None;
            },
        };
        let (c, rest) = match read_field(rest, context_tag(0)) {
            Some(found) => found,
            None => {
                return None;
            },
        };
        let key_type = match read_i32(c) {
            Some(v) => v,
            None => {
                return None;
            },
        };
        let (c, rest) = match read_field(rest, context_tag(1)) {
            Some(found) => found,
            None => {
                return None;
            },
        };
        let key_value = match read_octets(c) {
            Some(v) => vstd::slice::slice_to_vec(v),
            None => {
                return None;
            },
        };
        if rest.len() != 0 {
            return None;
        }
        Some(EncryptionKey { key_type, key_value })
    }

    /// The wire encoding of a key, where every field can be written.
    #[verifier::opaque]
    pub open spec fn spec_encode(v: EncryptionKeyView) -> Option<Seq<u8>> {
        let part0 = spec_explicit(0, spec_write_i32(v.key_type));
        let part1 = spec_explicit(1, spec_write_octets(v.key_value));
        if part0 is Some && part1 is Some {
            spec_element(TAG_SEQUENCE, part0->0 + part1->0)
        } else {
            None
        }
    }

    /// Writes a key in its wire encoding.
    pub fn encode(&self) -> (r: Option<Vec<u8>>)
        ensures
            opt_view(r) == EncryptionKey::spec_encode(self.deep_view()),
    {
        proof {
            reveal(EncryptionKey::spec_encode);
        }
        let mut body: Vec<u8> = Vec::new();
        match write_explicit(0, write_i32(self.key_type)) {
            Some(part) => {
                let mut part = part;
                body.append(&mut part);
            },
            None => {
                return None;
            },
        }
        match write_explicit(1, write_octets(self.key_value.as_slice())) {
            Some(part) => {
                let mut part = part;
                body.append(&mut part);
            },
            None => {
                return None;
            },
        }
        write_element(TAG_SEQUENCE, body.as_slice())
    }
}
} // verus!
