//! Pre-authentication data and what it carries.

use crate::asn1::der::{
    TAG_SEQUENCE,
    context_tag,
    der_time_encoding,
    der_time_value,
    opt_view,
    read_exact,
    read_field,
    read_general_string,
    read_i32,
    read_items,
    read_octets,
    read_optional_field,
    read_time,
    read_u32,
    spec_context_tag,
    spec_element,
    spec_exact,
    spec_explicit,
    spec_field,
    spec_general_string,
    spec_i32,
    spec_items,
    spec_octets,
    spec_optional_field,
    spec_u32,
    spec_write_general_string,
    spec_write_i32,
    spec_write_octets,
    spec_write_u32,
    write_element,
    write_explicit,
    write_general_string,
    write_i32,
    write_octets,
    write_time,
    write_u32,
};
use vstd::prelude::*;

verus! {

/// One item of pre-authentication data: a type and bytes whose meaning depends
/// on the type.
#[derive(Debug, Clone, PartialEq, Eq)]
pub struct PreAuthData {
    /// Number of the item's type.
    pub pa_type: u32,
    /// The item's contents, to be read according to its type.
    pub pa_value: Vec<u8>,
}

/// What an item of pre-authentication data holds, as plain values.
pub struct PreAuthDataView {
    pub pa_type: u32,
    pub pa_value: Seq<u8>,
}

impl DeepView for PreAuthData {
    type V = PreAuthDataView;

    open spec fn deep_view(&self) -> PreAuthDataView {
        PreAuthDataView {
            pa_type: self.pa_type,
            pa_value: self.pa_value@,
        }
    }
}

impl PreAuthData {
    /// What the bytes hold, if they are an item of pre-authentication data in the wire encoding: a SEQUENCE
    /// of the fields in their order, each inside its numbered tag, and nothing
    /// else.
    #[verifier::opaque]
    pub open spec fn spec_decode(bytes: Seq<u8>) -> Option<PreAuthDataView> {
        let body = spec_exact(bytes, TAG_SEQUENCE);
        let field0 = spec_field(body->0, spec_context_tag(1));
        let pa_type = spec_u32((field0->0).0);
        let field1 = spec_field((field0->0).1, spec_context_tag(2));
        let pa_value = spec_octets((field1->0).0);
        if body is Some
            && field0 is Some
            && pa_type is Some
            && field1 is Some
            && pa_value is Some
            && (field1->0).1.len() == 0 {
            Some(PreAuthDataView { pa_type: pa_type->0, pa_value: pa_value->0 })
        } else {
            None
        }
    }

    /// Reads an item of pre-authentication data from its wire encoding.
    pub fn decode(bytes: &[u8]) -> (r: Option<PreAuthData>)
        ensures
            match r {
                Some(v) => PreAuthData::spec_decode(bytes@) == Some(v.deep_view()),
                None => PreAuthData::spec_decode(bytes@) is None,
            },
    {
        proof {
            reveal(PreAuthData::spec_decode);
        }
        let rest = match read_exact(bytes, TAG_SEQUENCE) {
            Some(body) => body,
            None => {
                return None;
            },
        };
        let (c, rest) = match read_field(rest, context_tag(1)) {
            Some(found) => found,
            None => {
                return None;
            },
        };
        let pa_type = match read_u32(c) {
            Some(v) => v,
            None => {
                return None;
            },
        };
        let (c, rest) = match read_field(rest, context_tag(2)) {
            Some(found) => found,
            None => {
                return None;
            },
        };
        let pa_value = match read_octets(c) {
            Some(v) => vstd::slice::slice_to_vec(v),
            None => {
                return None;
            },
        };
        if rest.len() != 0 {
            return None;
        }
        Some(PreAuthData { pa_type, pa_value })
    }

    /// The wire encoding of an item of pre-authentication data, where every field can be written.
    #[verifier::opaque]
    pub open spec fn spec_encode(v: PreAuthDataView) -> Option<Seq<u8>> {
        let part0 = spec_explicit(1, spec_write_u32(v.pa_type));
        let part1 = spec_explicit(2, spec_write_octets(v.pa_value));
        if part0 is Some && part1 is Some {
            spec_element(TAG_SEQUENCE, part0->0 + part1->0)
        } else {
            None
        }
    }

    /// Writes an item of pre-authentication data in its wire encoding.
    pub fn encode(&self) -> (r: Option<Vec<u8>>)
        ensures
            opt_view(r) == PreAuthData::spec_encode(self.deep_view()),
    {
        proof {
            reveal(PreAuthData::spec_encode);
        }
        let mut body: Vec<u8> = Vec::new();
        match write_explicit(1, write_u32(self.pa_type)) {
            Some(part) => {
                let mut part = part;
                body.append(&mut part);
            },
            None => {
                return None;
            },
        }
        match write_explicit(2, write_octets(self.pa_value.as_slice())) {
            Some(part) => {
                let mut part = part;
                body.append(&mut part);
            },
            None => {
                return None;
            },
        }
        write_element(TAG_SEQUENCE, body.as_slice())
    }
}
impl PreAuthData {
    /// What the bytes hold, if they are a SEQUENCE of items of pre-authentication data.
    pub open spec fn spec_decode_list(bytes: Seq<u8>) -> Option<Seq<PreAuthDataView>> {
        let body = spec_exact(bytes, TAG_SEQUENCE);
        let items = spec_items(body->0);
        if body is Some && items is Some && (forall|i: int|
            0 <= i < items->0.len() ==> (#[trigger] PreAuthData::spec_decode(items->0[i])) is Some) {
            Some(Seq::new(items->0.len(), |i: int| PreAuthData::spec_decode(items->0[i])->0))
        } else {
            None
        }
    }

    /// Reads a SEQUENCE of items of pre-authentication data.
    pub fn decode_list(bytes: &[u8]) -> (r: Option<Vec<PreAuthData>>)
        ensures
            match r {
                Some(v) => PreAuthData::spec_decode_list(bytes@) == Some(v.deep_view()),
                None => PreAuthData::spec_decode_list(bytes@) is None,
            },
    {
        let body = match read_exact(bytes, TAG_SEQUENCE) {
            Some(body) => body,
            None => {
                return None;
            },
        };
        let items = match read_items(body) {
            Some(items) => items,
            None => {
                return None;
            },
        };
        let ghost cut = spec_items(body@)->0;
        let mut out: Vec<PreAuthData> = Vec::new();
        let mut i: usize = 0;
        while i < items.len()
            invariant
                i <= items.len(),
                out.len() == i,
                spec_exact(bytes@, TAG_SEQUENCE) == Some(body@),
                spec_items(body@) == Some(cut),
                cut.len() == items.len(),
                forall|j: int| 0 <= j < items.len() ==> cut[j] == #[trigger] items@[j]@,
                forall|j: int|
                    0 <= j < i ==> (#[trigger] PreAuthData::spec_decode(cut[j])) == Some(out.deep_view()[j]),
            decreases items.len() - i,
        {
            let item = items[i];
            assert(cut[i as int] == items@[i as int]@);
            match PreAuthData::decode(item) {
                Some(v) => {
                    let ghost before = out.deep_view();
                    out.push(v);
                    assert(forall|j: int| 0 <= j < i ==> out.deep_view()[j] == before[j]);
                },
                None => {
                    assert(PreAuthData::spec_decode(cut[i as int]) is None);
                    return None;
                },
            }
            i = i + 1;
        }
        assert(out.deep_view() =~= Seq::new(cut.len(),
            |i: int| PreAuthData::spec_decode(cut[i])->0));
        Some(out)
    }

    /// The wire encodings of items of pre-authentication data, one after the other.
    pub open spec fn spec_encode_items(v: Seq<PreAuthDataView>) -> Option<Seq<u8>>
        decreases v.len(),
    {
        if v.len() == 0 {
            Some(Seq::empty())
        } else {
            match (PreAuthData::spec_encode_items(v.drop_last()),
                PreAuthData::spec_encode(v.last())) {
                (Some(front), Some(last)) => Some(front + last),
                _ => None,
            }
        }
    }

    /// The wire encoding of a SEQUENCE of items of pre-authentication data.
    pub open spec fn spec_encode_list(v: Seq<PreAuthDataView>) -> Option<Seq<u8>> {
        match PreAuthData::spec_encode_items(v) {
            Some(body) => spec_element(TAG_SEQUENCE, body),
            None => None,
        }
    }

    /// Writes a SEQUENCE of items of pre-authentication data.
    pub fn encode_list(v: &Vec<PreAuthData>) -> (r: Option<Vec<u8>>)
        ensures
            opt_view(r) == PreAuthData::spec_encode_list(v.deep_view()),
    {
        let ghost all = v.deep_view();
        let mut body: Vec<u8> = Vec::new();
        let mut i: usize = 0;
        while i < v.len()
            invariant
                i <= v.len(),
                all == v.deep_view(),
                all.len() == v.len(),
                PreAuthData::spec_encode_items(all.take(i as int)) == Some(body@),
            decreases v.len() - i,
        {
            proof {
                assert(all.take(i + 1).drop_last() =~= all.take(i as int));
                assert(all.take(i + 1).last() == all[i as int]);
            }
            match v[i].encode() {
                Some(part) => {
                    let mut part = part;
                    body.append(&mut part);
                },
                None => {
                    proof {
                        PreAuthData::lemma_encode_items_fails(all, i as int);
                    }
                    return None;
                },
            }
            i = i + 1;
        }
        assert(all.take(v.len() as int) =~= all);
        write_element(TAG_SEQUENCE, body.as_slice())
    }

    /// Where one of them cannot be written, the run cannot be written.
    proof fn lemma_encode_items_fails(v: Seq<PreAuthDataView>, at: int)
        requires
            0 <= at < v.len(),
            PreAuthData::spec_encode(v[at]) is None,
        ensures
            PreAuthData::spec_encode_items(v) is None,
        decreases v.len(),
    {
        if at < v.len() - 1 {
            PreAuthData::lemma_encode_items_fails(v.drop_last(), at);
        }
    }
}

/// A hint of the server on how the client's key is derived for one encryption
/// type.
#[derive(Debug, Clone, PartialEq, Eq)]
pub struct ETypeInfo2Entry {
    /// Number of the encryption type.
    pub etype: i32,
    /// Salt to derive the key with, where it is not the default.
    pub salt: Option<Vec<u8>>,
    /// Parameters of the key derivation, to be read according to the encryption
    /// type.
    pub s2kparams: Option<Vec<u8>>,
}

/// What an encryption type hint holds, as plain values.
pub struct ETypeInfo2EntryView {
    pub etype: i32,
    pub salt: Option<Seq<u8>>,
    pub s2kparams: Option<Seq<u8>>,
}

impl DeepView for ETypeInfo2Entry {
    type V = ETypeInfo2EntryView;

    open spec fn deep_view(&self) -> ETypeInfo2EntryView {
        ETypeInfo2EntryView {
            etype: self.etype,
            salt: match self.salt {
                Some(v) => Some(v@),
                None => None,
            },
            s2kparams: match self.s2kparams {
                Some(v) => Some(v@),
                None => None,
            },
        }
    }
}

impl ETypeInfo2Entry {
    /// What the bytes hold, if they are an encryption type hint in the wire encoding: a SEQUENCE
    /// of the fields in their order, each inside its numbered tag, and nothing
    /// else.
    #[verifier::opaque]
    pub open spec fn spec_decode(bytes: Seq<u8>) -> Option<ETypeInfo2EntryView> {
        let body = spec_exact(bytes, TAG_SEQUENCE);
        let field0 = spec_field(body->0, spec_context_tag(0));
        let etype = spec_i32((field0->0).0);
        let field1 = spec_optional_field((field0->0).1, spec_context_tag(1));
        let salt = match field1.0 {
            Some(c) => spec_general_string(c),
            None => None,
        };
        let field2 = spec_optional_field(field1.1, spec_context_tag(2));
        let s2kparams = match field2.0 {
            Some(c) => spec_octets(c),
            None => None,
        };
        if body is Some
            && field0 is Some
            && etype is Some
            && (field1.0 is Some ==> salt is Some)
            && (field2.0 is Some ==> s2kparams is Some)
            && field2.1.len() == 0 {
            Some(ETypeInfo2EntryView { etype: etype->0, salt, s2kparams })
        } else {
            None
        }
    }

    /// Reads an encryption type hint from its wire encoding.
    pub fn decode(bytes: &[u8]) -> (r: Option<ETypeInfo2Entry>)
        ensures
            match r {
                Some(v) => ETypeInfo2Entry::spec_decode(bytes@) == Some(v.deep_view()),
                None => ETypeInfo2Entry::spec_decode(bytes@) is None,
            },
    {
        proof {
            reveal(ETypeInfo2Entry::spec_decode);
        }
        let rest = match read_exact(bytes, TAG_SEQUENCE) {
            Some(body) => body,
            None => {
                return None;
            },
        };
        let (c, rest) = match read_field(rest, context_tag(0)) {
            Some(found) => found,
            None => {
                return None;
            },
        };
        let etype = match read_i32(c) {
            Some(v) => v,
            None => {
                return None;
            },
        };
        let (c, rest) = read_optional_field(rest, context_tag(1));
        let salt = match c {
            Some(c) => match read_general_string(c) {
                Some(v) => Some(vstd::slice::slice_to_vec(v)),
                None => {
                    return None;
                },
            },
            None => None,
        };
        let (c, rest) = read_optional_field(rest, context_tag(2));
        let s2kparams = match c {
            Some(c) => match read_octets(c) {
                Some(v) => Some(vstd::slice::slice_to_vec(v)),
                None => {
                    return None;
                },
            },
            None => None,
        };
        if rest.len() != 0 {
            return None;
        }
        Some(ETypeInfo2Entry { etype, salt, s2kparams })
    }

    /// The wire encoding of an encryption type hint, where every field can be written.
    #[verifier::opaque]
    pub open spec fn spec_encode(v: ETypeInfo2EntryView) -> Option<Seq<u8>> {
        let part0 = spec_explicit(0, spec_write_i32(v.etype));
        let part1 = match v.salt {
            Some(x) => spec_explicit(1, spec_write_general_string(x)),
            None => Some(Seq::empty()),
        };
        let part2 = match v.s2kparams {
            Some(x) => spec_explicit(2, spec_write_octets(x)),
            None => Some(Seq::empty()),
        };
        if part0 is Some && part1 is Some && part2 is Some {
            spec_element(TAG_SEQUENCE, part0->0 + part1->0 + part2->0)
        } else {
            None
        }
    }

    /// Writes an encryption type hint in its wire encoding.
    pub fn encode(&self) -> (r: Option<Vec<u8>>)
        ensures
            opt_view(r) == ETypeInfo2Entry::spec_encode(self.deep_view()),
    {
        proof {
            reveal(ETypeInfo2Entry::spec_encode);
        }
        let mut body: Vec<u8> = Vec::new();
        match write_explicit(0, write_i32(self.etype)) {
            Some(part) => {
                let mut part = part;
                body.append(&mut part);
            },
            None => {
                return None;
            },
        }
        match &self.salt {
            Some(x) => match write_explicit(1, write_general_string(x.as_slice())) {
                Some(part) => {
                    let mut part = part;
                    body.append(&mut part);
                },
                None => {
                    return None;
                },
            },
            None => {
                assert(body@ + Seq::<u8>::empty() =~= body@);
            },
        }
        match &self.s2kparams {
            Some(x) => match write_explicit(2, write_octets(x.as_slice())) {
                Some(part) => {
                    let mut part = part;
                    body.append(&mut part);
                },
                None => {
                    return None;
                },
            },
            None => {
                assert(body@ + Seq::<u8>::empty() =~= body@);
            },
        }
        write_element(TAG_SEQUENCE, body.as_slice())
    }
}
impl ETypeInfo2Entry {
    /// What the bytes hold, if they are a SEQUENCE of encryption type hints.
    pub open spec fn spec_decode_list(bytes: Seq<u8>) -> Option<Seq<ETypeInfo2EntryView>> {
        let body = spec_exact(bytes, TAG_SEQUENCE);
        let items = spec_items(body->0);
        if body is Some && items is Some && (forall|i: int|
            0 <= i < items->0.len() ==> (#[trigger] ETypeInfo2Entry::spec_decode(items->0[i])) is Some) {
            Some(Seq::new(items->0.len(), |i: int| ETypeInfo2Entry::spec_decode(items->0[i])->0))
        } else {
            None
        }
    }

    /// Reads a SEQUENCE of encryption type hints.
    pub fn decode_list(bytes: &[u8]) -> (r: Option<Vec<ETypeInfo2Entry>>)
        ensures
            match r {
                Some(v) => ETypeInfo2Entry::spec_decode_list(bytes@) == Some(v.deep_view()),
                None => ETypeInfo2Entry::spec_decode_list(bytes@) is None,
            },
    {
        let body = match read_exact(bytes, TAG_SEQUENCE) {
            Some(body) => body,
            None => {
                return None;
            },
        };
        let items = match read_items(body) {
            Some(items) => items,
            None => {
                return None;
            },
        };
        let ghost cut = spec_items(body@)->0;
        let mut out: Vec<ETypeInfo2Entry> = Vec::new();
        let mut i: usize = 0;
        while i < items.len()
            invariant
                i <= items.len(),
                out.len() == i,
                spec_exact(bytes@, TAG_SEQUENCE) == Some(body@),
                spec_items(body@) == Some(cut),
                cut.len() == items.len(),
                forall|j: int| 0 <= j < items.len() ==> cut[j] == #[trigger] items@[j]@,
                forall|j: int|
                    0 <= j < i ==> (#[trigger] ETypeInfo2Entry::spec_decode(cut[j])) == Some(out.deep_view()[j]),
            decreases items.len() - i,
        {
            let item = items[i];
            assert(cut[i as int] == items@[i as int]@);
            match ETypeInfo2Entry::decode(item) {
                Some(v) => {
                    let ghost before = out.deep_view();
                    out.push(v);
                    assert(forall|j: int| 0 <= j < i ==> out.deep_view()[j] == before[j]);
                },
                None => {
                    assert(ETypeInfo2Entry::spec_decode(cut[i as int]) is None);
                    return None;
                },
            }
            i = i + 1;
        }
        assert(out.deep_view() =~= Seq::new(cut.len(),
            |i: int| ETypeInfo2Entry::spec_decode(cut[i])->0));
        Some(out)
    }

    /// The wire encodings of encryption type hints, one after the other.
    pub open spec fn spec_encode_items(v: Seq<ETypeInfo2EntryView>) -> Option<Seq<u8>>
        decreases v.len(),
    {
        if v.len() == 0 {
            Some(Seq::empty())
        } else {
            match (ETypeInfo2Entry::spec_encode_items(v.drop_last()),
                ETypeInfo2Entry::spec_encode(v.last())) {
                (Some(front), Some(last)) => Some(front + last),
                _ => None,
            }
        }
    }

    /// The wire encoding of a SEQUENCE of encryption type hints.
    pub open spec fn spec_encode_list(v: Seq<ETypeInfo2EntryView>) -> Option<Seq<u8>> {
        match ETypeInfo2Entry::spec_encode_items(v) {
            Some(body) => spec_element(TAG_SEQUENCE, body),
            None => None,
        }
    }

    /// Writes a SEQUENCE of encryption type hints.
    pub fn encode_list(v: &Vec<ETypeInfo2Entry>) -> (r: Option<Vec<u8>>)
        ensures
            opt_view(r) == ETypeInfo2Entry::spec_encode_list(v.deep_view()),
    {
        let ghost all = v.deep_view();
        let mut body: Vec<u8> = Vec::new();
        let mut i: usize = 0;
        while i < v.len()
            invariant
                i <= v.len(),
                all == v.deep_view(),
                all.len() == v.len(),
                ETypeInfo2Entry::spec_encode_items(all.take(i as int)) == Some(body@),
            decreases v.len() - i,
        {
            proof {
                assert(all.take(i + 1).drop_last() =~= all.take(i as int));
                assert(all.take(i + 1).last() == all[i as int]);
            }
            match v[i].encode() {
                Some(part) => {
                    let mut part = part;
                    body.append(&mut part);
                },
                None => {
                    proof {
                        ETypeInfo2Entry::lemma_encode_items_fails(all, i as int);
                    }
                    return None;
                },
            }
            i = i + 1;
        }
        assert(all.take(v.len() as int) =~= all);
        write_element(TAG_SEQUENCE, body.as_slice())
    }

    /// Where one of them cannot be written, the run cannot be written.
    proof fn lemma_encode_items_fails(v: Seq<ETypeInfo2EntryView>, at: int)
        requires
            0 <= at < v.len(),
            ETypeInfo2Entry::spec_encode(v[at]) is None,
        ensures
            ETypeInfo2Entry::spec_encode_items(v) is None,
        decreases v.len(),
    {
        if at < v.len() - 1 {
            ETypeInfo2Entry::lemma_encode_items_fails(v.drop_last(), at);
        }
    }
}

/// The client's time, which it encrypts to prove that it holds its key.
#[derive(Debug, Clone, PartialEq, Eq)]
pub struct PaEncTsEnc {
    /// Seconds since the start of 1970.
    pub patimestamp: u64,
    /// Microseconds past the second.
    pub pausec: Option<u32>,
}

/// What a pre-authentication timestamp holds, as plain values.
pub struct PaEncTsEncView {
    pub patimestamp: u64,
    pub pausec: Option<u32>,
}

impl DeepView for PaEncTsEnc {
    type V = PaEncTsEncView;

    open spec fn deep_view(&self) -> PaEncTsEncView {
        PaEncTsEncView {
            patimestamp: self.patimestamp,
            pausec: self.pausec,
        }
    }
}

impl PaEncTsEnc {
    /// What the bytes hold, if they are a pre-authentication timestamp in the wire encoding: a SEQUENCE
    /// of the fields in their order, each inside its numbered tag, and nothing
    /// else.
    #[verifier::opaque]
    pub open spec fn spec_decode(bytes: Seq<u8>) -> Option<PaEncTsEncView> {
        let body = spec_exact(bytes, TAG_SEQUENCE);
        let field0 = spec_field(body->0, spec_context_tag(0));
        let patimestamp = der_time_value((field0->0).0);
        let field1 = spec_optional_field((field0->0).1, spec_context_tag(1));
        let pausec = match field1.0 {
            Some(c) => spec_u32(c),
            None => None,
        };
        if body is Some
            && field0 is Some
            && patimestamp is Some
            && (field1.0 is Some ==> pausec is Some)
            && field1.1.len() == 0 {
            Some(PaEncTsEncView { patimestamp: patimestamp->0, pausec })
        } else {
            None
        }
    }

    /// Reads a pre-authentication timestamp from its wire encoding.
    pub fn decode(bytes: &[u8]) -> (r: Option<PaEncTsEnc>)
        ensures
            match r {
                Some(v) => PaEncTsEnc::spec_decode(bytes@) == Some(v.deep_view()),
                None => PaEncTsEnc::spec_decode(bytes@) is None,
            },
    {
        proof {
            reveal(PaEncTsEnc::spec_decode);
        }
        let rest = match read_exact(bytes, TAG_SEQUENCE) {
            Some(body) => body,
            None => {
                return None;
            },
        };
        let (c, rest) = match read_field(rest, context_tag(0)) {
            Some(found) => found,
            None => {
                return None;
            },
        };
        let patimestamp = match read_time(c) {
            Some(v) => v,
            None => {
                return None;
            },
        };
        let (c, rest) = read_optional_field(rest, context_tag(1));
        let pausec = match c {
            Some(c) => match read_u32(c) {
                Some(v) => Some(v),
                None => {
                    return None;
                },
            },
            None => None,
        };
        if rest.len() != 0 {
            return None;
        }
        Some(PaEncTsEnc { patimestamp, pausec })
    }

    /// The wire encoding of a pre-authentication timestamp, where every field can be written.
    #[verifier::opaque]
    pub open spec fn spec_encode(v: PaEncTsEncView) -> Option<Seq<u8>> {
        let part0 = spec_explicit(0, der_time_encoding(v.patimestamp));
        let part1 = match v.pausec {
            Some(x) => spec_explicit(1, spec_write_u32(x)),
            None => Some(Seq::empty()),
        };
        if part0 is Some && part1 is Some {
            spec_element(TAG_SEQUENCE, part0->0 + part1->0)
        } else {
            None
        }
    }

    /// Writes a pre-authentication timestamp in its wire encoding.
    pub fn encode(&self) -> (r: Option<Vec<u8>>)
        ensures
            opt_view(r) == PaEncTsEnc::spec_encode(self.deep_view()),
    {
        proof {
            reveal(PaEncTsEnc::spec_encode);
        }
        let mut body: Vec<u8> = Vec::new();
        match write_explicit(0, write_time(self.patimestamp)) {
            Some(part) => {
                let mut part = part;
                body.append(&mut part);
            },
            None => {
                return None;
            },
        }
        match &self.pausec {
            Some(x) => match write_explicit(1, write_u32(*x)) {
                Some(part) => {
                    let mut part = part;
                    body.append(&mut part);
                },
                None => {
                    return None;
                },
            },
            None => {
                assert(body@ + Seq::<u8>::empty() =~= body@);
            },
        }
        write_element(TAG_SEQUENCE, body.as_slice())
    }
}
} // verus!
