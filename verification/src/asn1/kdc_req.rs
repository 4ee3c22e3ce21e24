//! Requests on the wire.

use crate::asn1::der::{
    TAG_SEQUENCE,
    context_tag,
    der_time_encoding,
    der_time_value,
    opt_view,
    read_exact,
    read_field,
    read_flags,
    read_general_string,
    read_i32,
    read_items,
    read_optional_field,
    read_raw,
    read_time,
    read_u32,
    read_u8,
    spec_context_tag,
    spec_element,
    spec_exact,
    spec_explicit,
    spec_field,
    spec_flags,
    spec_flags_encoding,
    spec_general_string,
    spec_i32,
    spec_items,
    spec_optional_field,
    spec_raw,
    spec_u32,
    spec_u8,
    spec_write_general_string,
    spec_write_i32,
    spec_write_raw,
    spec_write_u32,
    spec_write_u8,
    write_element,
    write_explicit,
    write_flags,
    write_general_string,
    write_i32,
    write_raw,
    write_time,
    write_u32,
    write_u8,
};
use crate::asn1::pa_data::{PreAuthData, PreAuthDataView};
use crate::asn1::principal_name::{PrincipalName, PrincipalNameView};
use vstd::prelude::*;

verus! {

/// What the bytes hold, if they are a SEQUENCE of numbers.
pub open spec fn spec_i32_list(bytes: Seq<u8>) -> Option<Seq<i32>> {
    let body = spec_exact(bytes, TAG_SEQUENCE);
    let items = spec_items(body->0);
    if body is Some && items is Some && (forall|i: int|
        0 <= i < items->0.len() ==> (#[trigger] spec_i32(items->0[i])) is Some) {
        Some(Seq::new(items->0.len(), |i: int| spec_i32(items->0[i])->0))
    } else {
        None
    }
}

/// Reads a SEQUENCE of numbers.
pub fn read_i32_list(bytes: &[u8]) -> (r: Option<Vec<i32>>)
    ensures
        match r {
            Some(v) => spec_i32_list(bytes@) == Some(v@),
            None => spec_i32_list(bytes@) is None,
        },
{
    let body = match read_exact(bytes, TAG_SEQUENCE) {
        Some(body) => body,
        None => {
            return None;
        },
    };
    let items = match read_items(body) {
        Some(items) => items,
        None => {
            return None;
        },
    };
    let ghost cut = spec_items(body@)->0;
    let mut out: Vec<i32> = Vec::new();
    let mut i: usize = 0;
    while i < items.len()
        invariant
            i <= items.len(),
            out.len() == i,
            spec_exact(bytes@, TAG_SEQUENCE) == Some(body@),
            spec_items(body@) == Some(cut),
            cut.len() == items.len(),
            forall|j: int| 0 <= j < items.len() ==> cut[j] == #[trigger] items@[j]@,
            forall|j: int|
                0 <= j < i ==> (#[trigger] spec_i32(cut[j])) == Some(out@[j]),
        decreases items.len() - i,
    {
        let item = items[i];
        assert(cut[i as int] == items@[i as int]@);
        match read_i32(item) {
            Some(v) => {
                let ghost before = out@;
                out.push(v);
                assert(forall|j: int| 0 <= j < i ==> out@[j] == before[j]);
            },
            None => {
                assert(spec_i32(cut[i as int]) is None);
                return None;
            },
        }
        i = i + 1;
    }
    assert(out@ =~= Seq::new(cut.len(), |i: int| spec_i32(cut[i])->0));
    Some(out)
}

/// The wire encodings of numbers, one after the other.
pub open spec fn spec_write_i32s(v: Seq<i32>) -> Option<Seq<u8>>
    decreases v.len(),
{
    if v.len() == 0 {
        Some(Seq::empty())
    } else {
        match (spec_write_i32s(v.drop_last()), spec_write_i32(v.last())) {
            (Some(front), Some(last)) => Some(front + last),
            _ => None,
        }
    }
}

/// The wire encoding of a SEQUENCE of numbers.
pub open spec fn spec_write_i32_list(v: Seq<i32>) -> Option<Seq<u8>> {
    match spec_write_i32s(v) {
        Some(body) => spec_element(TAG_SEQUENCE, body),
        None => None,
    }
}

/// Writes a SEQUENCE of numbers.
pub fn write_i32_list(v: &Vec<i32>) -> (r: Option<Vec<u8>>)
    ensures
        opt_view(r) == spec_write_i32_list(v@),
{
    let ghost all = v@;
    let mut body: Vec<u8> = Vec::new();
    let mut i: usize = 0;
    while i < v.len()
        invariant
            i <= v.len(),
            all == v@,
            all.len() == v.len(),
            spec_write_i32s(all.take(i as int)) == Some(body@),
        decreases v.len() - i,
    {
        proof {
            assert(all.take(i + 1).drop_last() =~= all.take(i as int));
            assert(all.take(i + 1).last() == all[i as int]);
        }
        match write_i32(v[i]) {
            Some(part) => {
                let mut part = part;
                body.append(&mut part);
            },
            None => {
                proof {
                    lemma_write_i32s_fails(all, i as int);
                }
                return None;
            },
        }
        i = i + 1;
    }
    assert(all.take(v.len() as int) =~= all);
    write_element(TAG_SEQUENCE, body.as_slice())
}

/// Where one of them cannot be written, the run cannot be written.
proof fn lemma_write_i32s_fails(v: Seq<i32>, at: int)
    requires
        0 <= at < v.len(),
        spec_write_i32(v[at]) is None,
    ensures
        spec_write_i32s(v) is None,
    decreases v.len(),
{
    if at < v.len() - 1 {
        lemma_write_i32s_fails(v.drop_last(), at);
    }
}
/// What a request asks for.
#[derive(Debug, Clone, PartialEq, Eq)]
pub struct KdcReqBody {
    /// Options of the request.
    pub kdc_options: u32,
    /// Name of the client.
    pub cname: Option<PrincipalName>,
    /// Realm of the service, and of the client in a first request.
    pub realm: Vec<u8>,
    /// Name of the service.
    pub sname: Option<PrincipalName>,
    /// From when the ticket is to be valid.
    pub from: Option<u64>,
    /// Until when the ticket is to be valid.
    pub till: u64,
    /// Until when the ticket is to be renewable.
    pub rtime: Option<u64>,
    /// A number that the reply has to repeat.
    pub nonce: u32,
    /// Numbers of the encryption types that the client accepts, the preferred
    /// one first.
    pub etype: Vec<i32>,
    /// Addresses to limit the ticket to, kept as the element that carries them.
    pub addresses: Option<Vec<u8>>,
    /// Encrypted authorization data, kept as the element that carries it.
    pub enc_authorization_data: Option<Vec<u8>>,
    /// Additional tickets, kept as the element that carries them.
    pub additional_tickets: Option<Vec<u8>>,
}

/// What the body of a request holds, as plain values.
pub struct KdcReqBodyView {
    pub kdc_options: u32,
    pub cname: Option<PrincipalNameView>,
    pub realm: Seq<u8>,
    pub sname: Option<PrincipalNameView>,
    pub from: Option<u64>,
    pub till: u64,
    pub rtime: Option<u64>,
    pub nonce: u32,
    pub etype: Seq<i32>,
    pub addresses: Option<Seq<u8>>,
    pub enc_authorization_data: Option<Seq<u8>>,
    pub additional_tickets: Option<Seq<u8>>,
}

impl DeepView for KdcReqBody {
    type V = KdcReqBodyView;

    open spec fn deep_view(&self) -> KdcReqBodyView {
        KdcReqBodyView {
            kdc_options: self.kdc_options,
            cname: match self.cname {
                Some(v) => Some(v.deep_view()),
                None => None,
            },
            realm: self.realm@,
            sname: match self.sname {
                Some(v) => Some(v.deep_view()),
                None => None,
            },
            from: self.from,
            till: self.till,
            rtime: self.rtime,
            nonce: self.nonce,
            etype: self.etype@,
            addresses: match self.addresses {
                Some(v) => Some(v@),
                None => None,
            },
            enc_authorization_data: match self.enc_authorization_data {
                Some(v) => Some(v@),
                None => None,
            },
            additional_tickets: match self.additional_tickets {
                Some(v) => Some(v@),
                None => None,
            },
        }
    }
}

impl KdcReqBody {
    /// What the bytes hold, if they are the body of a request in the wire encoding: a SEQUENCE
    /// of the fields in their order, each inside its numbered tag, and nothing
    /// else.
    #[verifier::opaque]
    #[verifier::opaque]
    pub open spec fn spec_decode(bytes: Seq<u8>) -> Option<KdcReqBodyView> {
        let body = spec_exact(bytes, TAG_SEQUENCE);
        let head = KdcReqBody::spec_decode_head(body->0);
        let middle = KdcReqBody::spec_decode_middle((head->0).1);
        let tail = KdcReqBody::spec_decode_tail((middle->0).1);
        if body is Some && head is Some && middle is Some && tail is Some
            && (tail->0).1.len() == 0 {
            Some(
                KdcReqBodyView {
                    kdc_options: ((head->0).0).0,
                    cname: ((head->0).0).1,
                    realm: ((head->0).0).2,
                    sname: ((head->0).0).3,
                    from: ((middle->0).0).0,
                    till: ((middle->0).0).1,
                    rtime: ((middle->0).0).2,
                    nonce: ((middle->0).0).3,
                    etype: ((tail->0).0).0,
                    addresses: ((tail->0).0).1,
                    enc_authorization_data: ((tail->0).0).2,
                    additional_tickets: ((tail->0).0).3,
                },
            )
        } else {
            None
        }
    }

    /// Reads the body of a request from its wire encoding.
    pub fn decode(bytes: &[u8]) -> (r: Option<KdcReqBody>)
        ensures
            match r {
                Some(v) => KdcReqBody::spec_decode(bytes@) == Some(v.deep_view()),
                None => KdcReqBody::spec_decode(bytes@) is None,
            },
    {
        proof {
            reveal(KdcReqBody::spec_decode);
        }
        let rest = match read_exact(bytes, TAG_SEQUENCE) {
            Some(body) => body,
            None => {
                return None;
            },
        };
        let (head, rest) = match KdcReqBody::decode_head(rest) {
            Some(found) => found,
            None => {
                return None;
            },
        };
        let (kdc_options, cname, realm, sname) = head;
        let (middle, rest) = match KdcReqBody::decode_middle(rest) {
            Some(found) => found,
            None => {
                return None;
            },
        };
        let (from, till, rtime, nonce) = middle;
        let (tail, rest) = match KdcReqBody::decode_tail(rest) {
            Some(found) => found,
            None => {
                return None;
            },
        };
        let (etype, addresses, enc_authorization_data, additional_tickets) = tail;
        if rest.len() != 0 {
            return None;
        }
        Some(KdcReqBody { kdc_options, cname, realm, sname, from, till, rtime, nonce, etype,
            addresses, enc_authorization_data, additional_tickets })
    }

    /// The fields `kdc_options`, `cname`, `realm`, `sname` at the start of
    /// `bytes`, and what follows them.
    pub open spec fn spec_decode_head(bytes: Seq<u8>) -> Option<((u32, Option<PrincipalNameView>,
        Seq<u8>, Option<PrincipalNameView>), Seq<u8>)> {
        let field0 = spec_field(bytes, spec_context_tag(0));
        let kdc_options = spec_flags((field0->0).0);
        let field1 = spec_optional_field((field0->0).1, spec_context_tag(1));
        let cname = match field1.0 {
            Some(c) => PrincipalName::spec_decode(c),
            None => None,
        };
        let field2 = spec_field(field1.1, spec_context_tag(2));
        let realm = spec_general_string((field2->0).0);
        let field3 = spec_optional_field((field2->0).1, spec_context_tag(3));
        let sname = match field3.0 {
            Some(c) => PrincipalName::spec_decode(c),
            None => None,
        };
        if field0 is Some
            && kdc_options is Some
            && (field1.0 is Some ==> cname is Some)
            && field2 is Some
            && realm is Some
            && (field3.0 is Some ==> sname is Some) {
            Some(((kdc_options->0, cname, realm->0, sname), field3.1))
        } else {
            None
        }
    }

    /// Reads the fields `kdc_options`, `cname`, `realm`, `sname`.
    fn decode_head<'a>(bytes: &'a [u8]) -> (r: Option<((u32, Option<PrincipalName>, Vec<u8>,
        Option<PrincipalName>), &'a [u8])>)
        ensures
            match r {
                Some((v, rest)) => KdcReqBody::spec_decode_head(bytes@) == Some(
                    ((v.0, v.1.deep_view(), v.2@, v.3.deep_view()), rest@),
                ),
                None => KdcReqBody::spec_decode_head(bytes@) is None,
            },
    {
        let rest = bytes;
        let (c, rest) = match read_field(rest, context_tag(0)) {
            Some(found) => found,
            None => {
                return None;
            },
        };
        let kdc_options = match read_flags(c) {
            Some(v) => v,
            None => {
                return None;
            },
        };
        let (c, rest) = read_optional_field(rest, context_tag(1));
        let cname = match c {
            Some(c) => match PrincipalName::decode(c) {
                Some(v) => Some(v),
                None => {
                    return None;
                },
            },
            None => None,
        };
        let (c, rest) = match read_field(rest, context_tag(2)) {
            Some(found) => found,
            None => {
                return None;
            },
        };
        let realm = match read_general_string(c) {
            Some(v) => vstd::slice::slice_to_vec(v),
            None => {
                return None;
            },
        };
        let (c, rest) = read_optional_field(rest, context_tag(3));
        let sname = match c {
            Some(c) => match PrincipalName::decode(c) {
                Some(v) => Some(v),
                None => {
                    return None;
                },
            },
            None => None,
        };
        Some(((kdc_options, cname, realm, sname), rest))
    }

    /// The fields `from`, `till`, `rtime`, `nonce` at the start of `bytes`, and
    /// what follows them.
    pub open spec fn spec_decode_middle(bytes: Seq<u8>) -> Option<((Option<u64>, u64, Option<u64>,
        u32), Seq<u8>)> {
        let field0 = spec_optional_field(bytes, spec_context_tag(4));
        let from = match field0.0 {
            Some(c) => der_time_value(c),
            None => None,
        };
        let field1 = spec_field(field0.1, spec_context_tag(5));
        let till = der_time_value((field1->0).0);
        let field2 = spec_optional_field((field1->0).1, spec_context_tag(6));
        let rtime = match field2.0 {
            Some(c) => der_time_value(c),
            None => None,
        };
        let field3 = spec_field(field2.1, spec_context_tag(7));
        let nonce = spec_u32((field3->0).0);
        if (field0.0 is Some ==> from is Some)
            && field1 is Some
            && till is Some
            && (field2.0 is Some ==> rtime is Some)
            && field3 is Some
            && nonce is Some {
            Some(((from, till->0, rtime, nonce->0), (field3->0).1))
        } else {
            None
        }
    }

    /// Reads the fields `from`, `till`, `rtime`, `nonce`.
    fn decode_middle<'a>(bytes: &'a [u8]) -> (r: Option<((Option<u64>, u64, Option<u64>, u32),
        &'a [u8])>)
        ensures
            match r {
                Some((v, rest)) => KdcReqBody::spec_decode_middle(bytes@) == Some(
                    ((v.0, v.1, v.2, v.3), rest@),
                ),
                None => KdcReqBody::spec_decode_middle(bytes@) is None,
            },
    {
        let rest = bytes;
        let (c, rest) = read_optional_field(rest, context_tag(4));
        let from = match c {
            Some(c) => match read_time(c) {
                Some(v) => Some(v),
                None => {
                    return None;
                },
            },
            None => None,
        };
        let (c, rest) = match read_field(rest, context_tag(5)) {
            Some(found) => found,
            None => {
                return None;
            },
        };
        let till = match read_time(c) {
            Some(v) => v,
            None => {
                return None;
            },
        };
        let (c, rest) = read_optional_field(rest, context_tag(6));
        let rtime = match c {
            Some(c) => match read_time(c) {
                Some(v) => Some(v),
                None => {
                    return None;
                },
            },
            None => None,
        };
        let (c, rest) = match read_field(rest, context_tag(7)) {
            Some(found) => found,
            None => {
                return None;
            },
        };
        let nonce = match read_u32(c) {
            Some(v) => v,
            None => {
                return None;
            },
        };
        Some(((from, till, rtime, nonce), rest))
    }

    /// The fields `etype`, `addresses`, `enc_authorization_data`,
    /// `additional_tickets` at the start of `bytes`, and what follows them.
    pub open spec fn spec_decode_tail(bytes: Seq<u8>) -> Option<((Seq<i32>, Option<Seq<u8>>,
        Option<Seq<u8>>, Option<Seq<u8>>), Seq<u8>)> {
        let field0 = spec_field(bytes, spec_context_tag(8));
        let etype = spec_i32_list((field0->0).0);
        let field1 = spec_optional_field((field0->0).1, spec_context_tag(9));
        let addresses = match field1.0 {
            Some(c) => spec_raw(c),
            None => None,
        };
        let field2 = spec_optional_field(field1.1, spec_context_tag(10));
        let enc_authorization_data = match field2.0 {
            Some(c) => spec_raw(c),
            None => None,
        };
        let field3 = spec_optional_field(field2.1, spec_context_tag(11));
        let additional_tickets = match field3.0 {
            Some(c) => spec_raw(c),
            None => None,
        };
        if field0 is Some
            && etype is Some
            && (field1.0 is Some ==> addresses is Some)
            && (field2.0 is Some ==> enc_authorization_data is Some)
            && (field3.0 is Some ==> additional_tickets is Some) {
            Some(((etype->0, addresses, enc_authorization_data, additional_tickets), field3.1))
        } else {
            None
        }
    }

    /// Reads the fields `etype`, `addresses`, `enc_authorization_data`,
    /// `additional_tickets`.
    fn decode_tail<'a>(bytes: &'a [u8]) -> (r: Option<((Vec<i32>, Option<Vec<u8>>, Option<Vec<u8>>,
        Option<Vec<u8>>), &'a [u8])>)
        ensures
            match r {
                Some((v, rest)) => KdcReqBody::spec_decode_tail(bytes@) == Some(
                    ((v.0@, opt_view(v.1), opt_view(v.2), opt_view(v.3)), rest@),
                ),
                None => KdcReqBody::spec_decode_tail(bytes@) is None,
            },
    {
        let rest = bytes;
        let (c, rest) = match read_field(rest, context_tag(8)) {
            Some(found) => found,
            None => {
                return None;
            },
        };
        let etype = match read_i32_list(c) {
            Some(v) => v,
            None => {
                return None;
            },
        };
        let (c, rest) = read_optional_field(rest, context_tag(9));
        let addresses = match c {
            Some(c) => match read_raw(c) {
                Some(v) => Some(vstd::slice::slice_to_vec(v)),
                None => {
                    return None;
                },
            },
            None => None,
        };
        let (c, rest) = read_optional_field(rest, context_tag(10));
        let enc_authorization_data = match c {
            Some(c) => match read_raw(c) {
                Some(v) => Some(vstd::slice::slice_to_vec(v)),
                None => {
                    return None;
                },
            },
            None => None,
        };
        let (c, rest) = read_optional_field(rest, context_tag(11));
        let additional_tickets = match c {
            Some(c) => match read_raw(c) {
                Some(v) => Some(vstd::slice::slice_to_vec(v)),
                None => {
                    return None;
                },
            },
            None => None,
        };
        Some(((etype, addresses, enc_authorization_data, additional_tickets), rest))
    }

    /// The wire encoding of the body of a request, where every field can be written.
    #[verifier::opaque]
    pub open spec fn spec_encode(v: KdcReqBodyView) -> Option<Seq<u8>> {
        let part0 = spec_explicit(0, spec_flags_encoding(v.kdc_options));
        let part1 = match v.cname {
            Some(x) => spec_explicit(1, PrincipalName::spec_encode(x)),
            None => Some(Seq::empty()),
        };
        let part2 = spec_explicit(2, spec_write_general_string(v.realm));
        let part3 = match v.sname {
            Some(x) => spec_explicit(3, PrincipalName::spec_encode(x)),
            None => Some(Seq::empty()),
        };
        let part4 = match v.from {
            Some(x) => spec_explicit(4, der_time_encoding(x)),
            None => Some(Seq::empty()),
        };
        let part5 = spec_explicit(5, der_time_encoding(v.till));
        let part6 = match v.rtime {
            Some(x) => spec_explicit(6, der_time_encoding(x)),
            None => Some(Seq::empty()),
        };
        let part7 = spec_explicit(7, spec_write_u32(v.nonce));
        let part8 = spec_explicit(8, spec_write_i32_list(v.etype));
        let part9 = match v.addresses {
            Some(x) => spec_explicit(9, spec_write_raw(x)),
            None => Some(Seq::empty()),
        };
        let part10 = match v.enc_authorization_data {
            Some(x) => spec_explicit(10, spec_write_raw(x)),
            None => Some(Seq::empty()),
        };
        let part11 = match v.additional_tickets {
            Some(x) => spec_explicit(11, spec_write_raw(x)),
            None => Some(Seq::empty()),
        };
        if part0 is Some && part1 is Some && part2 is Some && part3 is Some && part4 is Some
            && part5 is Some
            && part6 is Some && part7 is Some && part8 is Some && part9 is Some && part10 is Some
                && part11 is Some {
            spec_element(TAG_SEQUENCE, part0->0 + part1->0 + part2->0 + part3->0 + part4->0
                + part5->0 + part6->0 + part7->0
                + part8->0 + part9->0 + part10->0 + part11->0)
        } else {
            None
        }
    }

    /// Writes the body of a request in its wire encoding.
    pub fn encode(&self) -> (r: Option<Vec<u8>>)
        ensures
            opt_view(r) == KdcReqBody::spec_encode(self.deep_view()),
    {
        proof {
            reveal(KdcReqBody::spec_encode);
        }
        let mut body: Vec<u8> = Vec::new();
        match write_explicit(0, write_flags(self.kdc_options)) {
            Some(part) => {
                let mut part = part;
                body.append(&mut part);
            },
            None => {
                return None;
            },
        }
        match &self.cname {
            Some(x) => match write_explicit(1, x.encode()) {
                Some(part) => {
                    let mut part = part;
                    body.append(&mut part);
                },
                None => {
                    return None;
                },
            },
            None => {
                assert(body@ + Seq::<u8>::empty() =~= body@);
            },
        }
        match write_explicit(2, write_general_string(self.realm.as_slice())) {
            Some(part) => {
                let mut part = part;
                body.append(&mut part);
            },
            None => {
                return None;
            },
        }
        match &self.sname {
            Some(x) => match write_explicit(3, x.encode()) {
                Some(part) => {
                    let mut part = part;
                    body.append(&mut part);
                },
                None => {
                    return None;
                },
            },
            None => {
                assert(body@ + Seq::<u8>::empty() =~= body@);
            },
        }
        match &self.from {
            Some(x) => match write_explicit(4, write_time(*x)) {
                Some(part) => {
                    let mut part = part;
                    body.append(&mut part);
                },
                None => {
                    return None;
                },
            },
            None => {
                assert(body@ + Seq::<u8>::empty() =~= body@);
            },
        }
        match write_explicit(5, write_time(self.till)) {
            Some(part) => {
                let mut part = part;
                body.append(&mut part);
            },
            None => {
                return None;
            },
        }
        match &self.rtime {
            Some(x) => match write_explicit(6, write_time(*x)) {
                Some(part) => {
                    let mut part = part;
                    body.append(&mut part);
                },
                None => {
                    return None;
                },
            },
            None => {
                assert(body@ + Seq::<u8>::empty() =~= body@);
            },
        }
        match write_explicit(7, write_u32(self.nonce)) {
            Some(part) => {
                let mut part = part;
                body.append(&mut part);
            },
            None => {
                return None;
            },
        }
        match write_explicit(8, write_i32_list(&self.etype)) {
            Some(part) => {
                let mut part = part;
                body.append(&mut part);
            },
            None => {
                return None;
            },
        }
        match &self.addresses {
            Some(x) => match write_explicit(9, write_raw(x.as_slice())) {
                Some(part) => {
                    let mut part = part;
                    body.append(&mut part);
                },
                None => {
                    return None;
                },
            },
            None => {
                assert(body@ + Seq::<u8>::empty() =~= body@);
            },
        }
        match &self.enc_authorization_data {
            Some(x) => match write_explicit(10, write_raw(x.as_slice())) {
                Some(part) => {
                    let mut part = part;
                    body.append(&mut part);
                },
                None => {
                    return None;
                },
            },
            None => {
                assert(body@ + Seq::<u8>::empty() =~= body@);
            },
        }
        match &self.additional_tickets {
            Some(x) => match write_explicit(11, write_raw(x.as_slice())) {
                Some(part) => {
                    let mut part = part;
                    body.append(&mut part);
                },
                None => {
                    return None;
                },
            },
            None => {
                assert(body@ + Seq::<u8>::empty() =~= body@);
            },
        }
        write_element(TAG_SEQUENCE, body.as_slice())
    }
}
/// A request to the authentication service or to the ticket-granting service.
#[derive(Debug, Clone, PartialEq, Eq)]
pub struct KdcReq {
    /// Protocol version.
    pub pvno: u8,
    /// Number of the message type.
    pub msg_type: u8,
    /// Pre-authentication data of the request.
    pub padata: Option<Vec<PreAuthData>>,
    /// What is asked for.
    pub req_body: KdcReqBody,
}

/// What a request holds, as plain values.
pub struct KdcReqView {
    pub pvno: u8,
    pub msg_type: u8,
    pub padata: Option<Seq<PreAuthDataView>>,
    pub req_body: KdcReqBodyView,
}

impl DeepView for KdcReq {
    type V = KdcReqView;

    open spec fn deep_view(&self) -> KdcReqView {
        KdcReqView {
            pvno: self.pvno,
            msg_type: self.msg_type,
            padata: match self.padata {
                Some(v) => Some(v.deep_view()),
                None => None,
            },
            req_body: self.req_body.deep_view(),
        }
    }
}

impl KdcReq {
    /// What the bytes hold, if they are a request in the wire encoding: a SEQUENCE
    /// of the fields in their order, each inside its numbered tag, and nothing
    /// else.
    #[verifier::opaque]
    pub open spec fn spec_decode(bytes: Seq<u8>) -> Option<KdcReqView> {
        let body = spec_exact(bytes, TAG_SEQUENCE);
        let field0 = spec_field(body->0, spec_context_tag(1));
        let pvno = spec_u8((field0->0).0);
        let field1 = spec_field((field0->0).1, spec_context_tag(2));
        let msg_type = spec_u8((field1->0).0);
        let field2 = spec_optional_field((field1->0).1, spec_context_tag(3));
        let padata = match field2.0 {
            Some(c) => PreAuthData::spec_decode_list(c),
            None => None,
        };
        let field3 = spec_field(field2.1, spec_context_tag(4));
        let req_body = KdcReqBody::spec_decode((field3->0).0);
        if body is Some
            && field0 is Some
            && pvno is Some
            && field1 is Some
            && msg_type is Some
            && (field2.0 is Some ==> padata is Some)
            && field3 is Some
            && req_body is Some
            && (field3->0).1.len() == 0 {
            Some(KdcReqView { pvno: pvno->0, msg_type: msg_type->0, padata, req_body: req_body->0 })
        } else {
            None
        }
    }

    /// Reads a request from its wire encoding.
    pub fn decode(bytes: &[u8]) -> (r: Option<KdcReq>)
        ensures
            match r {
                Some(v) => KdcReq::spec_decode(bytes@) == Some(v.deep_view()),
                None => KdcReq::spec_decode(bytes@) is None,
            },
    {
        proof {
            reveal(KdcReq::spec_decode);
        }
        let rest = match read_exact(bytes, TAG_SEQUENCE) {
            Some(body) => body,
            None => {
                return None;
            },
        };
        let (c, rest) = match read_field(rest, context_tag(1)) {
            Some(found) => found,
            None => {
                return None;
            },
        };
        let pvno = match read_u8(c) {
            Some(v) => v,
            None => {
                return None;
            },
        };
        let (c, rest) = match read_field(rest, context_tag(2)) {
            Some(found) => found,
            None => {
                return None;
            },
        };
        let msg_type = match read_u8(c) {
            Some(v) => v,
            None => {
                return None;
            },
        };
        let (c, rest) = read_optional_field(rest, context_tag(3));
        let padata = match c {
            Some(c) => match PreAuthData::decode_list(c) {
                Some(v) => Some(v),
                None => {
                    return None;
                },
            },
            None => None,
        };
        let (c, rest) = match read_field(rest, context_tag(4)) {
            Some(found) => found,
            None => {
                return None;
            },
        };
        let req_body = match KdcReqBody::decode(c) {
            Some(v) => v,
            None => {
                return None;
            },
        };
        if rest.len() != 0 {
            return None;
        }
        Some(KdcReq { pvno, msg_type, padata, req_body })
    }

    /// The wire encoding of a request, where every field can be written.
    #[verifier::opaque]
    pub open spec fn spec_encode(v: KdcReqView) -> Option<Seq<u8>> {
        let part0 = spec_explicit(1, spec_write_u8(v.pvno));
        let part1 = spec_explicit(2, spec_write_u8(v.msg_type));
        let part2 = match v.padata {
            Some(x) => spec_explicit(3, PreAuthData::spec_encode_list(x)),
            None => Some(Seq::empty()),
        };
        let part3 = spec_explicit(4, KdcReqBody::spec_encode(v.req_body));
        if part0 is Some && part1 is Some && part2 is Some && part3 is Some {
            spec_element(TAG_SEQUENCE, part0->0 + part1->0 + part2->0 + part3->0)
        } else {
            None
        }
    }

    /// Writes a request in its wire encoding.
    pub fn encode(&self) -> (r: Option<Vec<u8>>)
        ensures
            opt_view(r) == KdcReq::spec_encode(self.deep_view()),
    {
        proof {
            reveal(KdcReq::spec_encode);
        }
        let mut body: Vec<u8> = Vec::new();
        match write_explicit(1, write_u8(self.pvno)) {
            Some(part) => {
                let mut part = part;
                body.append(&mut part);
            },
            None => {
                return None;
            },
        }
        match write_explicit(2, write_u8(self.msg_type)) {
            Some(part) => {
                let mut part = part;
                body.append(&mut part);
            },
            None => {
                return None;
            },
        }
        match &self.padata {
            Some(x) => match write_explicit(3, PreAuthData::encode_list(x)) {
                Some(part) => {
                    let mut part = part;
                    body.append(&mut part);
                },
                None => {
                    return None;
                },
            },
            None => {
                assert(body@ + Seq::<u8>::empty() =~= body@);
            },
        }
        match write_explicit(4, self.req_body.encode()) {
            Some(part) => {
                let mut part = part;
                body.append(&mut part);
            },
            None => {
                return None;
            },
        }
        write_element(TAG_SEQUENCE, body.as_slice())
    }
}
} // verus!
