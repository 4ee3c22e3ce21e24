//! Error messages on the wire.

use crate::asn1::der::{
    TAG_SEQUENCE,
    context_tag,
    der_time_encoding,
    der_time_value,
    opt_view,
    read_exact,
    read_field,
    read_general_string,
    read_i32,
    read_octets,
    read_optional_field,
    read_time,
    read_u32,
    read_u8,
    spec_context_tag,
    spec_element,
    spec_exact,
    spec_explicit,
    spec_field,
    spec_general_string,
    spec_i32,
    spec_octets,
    spec_optional_field,
    spec_u32,
    spec_u8,
    spec_write_general_string,
    spec_write_i32,
    spec_write_octets,
    spec_write_u32,
    spec_write_u8,
    write_element,
    write_explicit,
    write_general_string,
    write_i32,
    write_octets,
    write_time,
    write_u32,
    write_u8,
};
use crate::asn1::principal_name::{PrincipalName, PrincipalNameView};
use vstd::prelude::*;

verus! {

/// The message with which a server reports that it cannot satisfy a request.
#[derive(Debug, Clone, PartialEq, Eq)]
pub struct KrbErrorMsg {
    /// Protocol version.
    pub pvno: u8,
    /// Number of the message type.
    pub msg_type: u8,
    /// Time of the client, from the request.
    pub ctime: Option<u64>,
    /// Microseconds of the client's time.
    pub cusec: Option<u32>,
    /// Time of the server.
    pub stime: u64,
    /// Microseconds of the server's time.
    pub susec: u32,
    /// Number of the error.
    pub error_code: i32,
    /// Realm of the client.
    pub crealm: Option<Vec<u8>>,
    /// Name of the client.
    pub cname: Option<PrincipalName>,
    /// Realm of the service.
    pub realm: Vec<u8>,
    /// Name of the service.
    pub sname: PrincipalName,
    /// Text for a person to read.
    pub error_text: Option<Vec<u8>>,
    /// Data to be read according to the error code.
    pub error_data: Option<Vec<u8>>,
}

/// What an error message holds, as plain values.
pub struct KrbErrorMsgView {
    pub pvno: u8,
    pub msg_type: u8,
    pub ctime: Option<u64>,
    pub cusec: Option<u32>,
    pub stime: u64,
    pub susec: u32,
    pub error_code: i32,
    pub crealm: Option<Seq<u8>>,
    pub cname: Option<PrincipalNameView>,
    pub realm: Seq<u8>,
    pub sname: PrincipalNameView,
    pub error_text: Option<Seq<u8>>,
    pub error_data: Option<Seq<u8>>,
}

impl DeepView for KrbErrorMsg {
    type V = KrbErrorMsgView;

    open spec fn deep_view(&self) -> KrbErrorMsgView {
        KrbErrorMsgView {
            pvno: self.pvno,
            msg_type: self.msg_type,
            ctime: self.ctime,
            cusec: self.cusec,
            stime: self.stime,
            susec: self.susec,
            error_code: self.error_code,
            crealm: match self.crealm {
                Some(v) => Some(v@),
                None => None,
            },
            cname: match self.cname {
                Some(v) => Some(v.deep_view()),
                None => None,
            },
            realm: self.realm@,
            sname: self.sname.deep_view(),
            error_text: match self.error_text {
                Some(v) => Some(v@),
                None => None,
            },
            error_data: match self.error_data {
                Some(v) => Some(v@),
                None => None,
            },
        }
    }
}

impl KrbErrorMsg {
    /// What the bytes hold, if they are an error message in the wire encoding: a SEQUENCE
    /// of the fields in their order, each inside its numbered tag, and nothing
    /// else.
    #[verifier::opaque]
    #[verifier::opaque]
    pub open spec fn spec_decode(bytes: Seq<u8>) -> Option<KrbErrorMsgView> {
        let body = spec_exact(bytes, TAG_SEQUENCE);
        let head = KrbErrorMsg::spec_decode_head(body->0);
        let middle = KrbErrorMsg::spec_decode_middle((head->0).1);
        let tail = KrbErrorMsg::spec_decode_tail((middle->0).1);
        if body is Some && head is Some && middle is Some && tail is Some
            && (tail->0).1.len() == 0 {
            Some(
                KrbErrorMsgView {
                    pvno: ((head->0).0).0,
                    msg_type: ((head->0).0).1,
                    ctime: ((head->0).0).2,
                    cusec: ((head->0).0).3,
                    stime: ((head->0).0).4,
                    susec: ((middle->0).0).0,
                    error_code: ((middle->0).0).1,
                    crealm: ((middle->0).0).2,
                    cname: ((middle->0).0).3,
                    realm: ((middle->0).0).4,
                    sname: ((tail->0).0).0,
                    error_text: ((tail->0).0).1,
                    error_data: ((tail->0).0).2,
                },
            )
        } else {
            None
        }
    }

    /// Reads an error message from its wire encoding.
    pub fn decode(bytes: &[u8]) -> (r: Option<KrbErrorMsg>)
        ensures
            match r {
                Some(v) => KrbErrorMsg::spec_decode(bytes@) == Some(v.deep_view()),
                None => KrbErrorMsg::spec_decode(bytes@) is None,
            },
    {
        proof {
            reveal(KrbErrorMsg::spec_decode);
        }
        let rest = match read_exact(bytes, TAG_SEQUENCE) {
            Some(body) => body,
            None => {
                return None;
            },
        };
        let (head, rest) = match KrbErrorMsg::decode_head(rest) {
            Some(found) => found,
            None => {
                return None;
            },
        };
        let (pvno, msg_type, ctime, cusec, stime) = head;
        let (middle, rest) = match KrbErrorMsg::decode_middle(rest) {
            Some(found) => found,
            None => {
                return None;
            },
        };
        let (susec, error_code, crealm, cname, realm) = middle;
        let (tail, rest) = match KrbErrorMsg::decode_tail(rest) {
            Some(found) => found,
            None => {
                return None;
            },
        };
        let (sname, error_text, error_data) = tail;
        if rest.len() != 0 {
            return None;
        }
        Some(KrbErrorMsg { pvno, msg_type, ctime, cusec, stime, susec, error_code, crealm, cname,
            realm, sname, error_text, error_data })
    }

    /// The fields `pvno`, `msg_type`, `ctime`, `cusec`, `stime` at the start of
    /// `bytes`, and what follows them.
    pub open spec fn spec_decode_head(bytes: Seq<u8>) -> Option<((u8, u8, Option<u64>, Option<u32>,
        u64), Seq<u8>)> {
        let field0 = spec_field(bytes, spec_context_tag(0));
        let pvno = spec_u8((field0->0).0);
        let field1 = spec_field((field0->0).1, spec_context_tag(1));
        let msg_type = spec_u8((field1->0).0);
        let field2 = spec_optional_field((field1->0).1, spec_context_tag(2));
        let ctime = match field2.0 {
            Some(c) => der_time_value(c),
            None => None,
        };
        let field3 = spec_optional_field(field2.1, spec_context_tag(3));
        let cusec = match field3.0 {
            Some(c) => spec_u32(c),
            None => None,
        };
        let field4 = spec_field(field3.1, spec_context_tag(4));
        let stime = der_time_value((field4->0).0);
        if field0 is Some
            && pvno is Some
            && field1 is Some
            && msg_type is Some
            && (field2.0 is Some ==> ctime is Some)
            && (field3.0 is Some ==> cusec is Some)
            && field4 is Some
            && stime is Some {
            Some(((pvno->0, msg_type->0, ctime, cusec, stime->0), (field4->0).1))
        } else {
            None
        }
    }

    /// Reads the fields `pvno`, `msg_type`, `ctime`, `cusec`, `stime`.
    fn decode_head<'a>(bytes: &'a [u8]) -> (r: Option<((u8, u8, Option<u64>, Option<u32>, u64),
        &'a [u8])>)
        ensures
            match r {
                Some((v, rest)) => KrbErrorMsg::spec_decode_head(bytes@) == Some(
                    ((v.0, v.1, v.2, v.3, v.4), rest@),
                ),
                None => KrbErrorMsg::spec_decode_head(bytes@) is None,
            },
    {
        let rest = bytes;
        let (c, rest) = match read_field(rest, context_tag(0)) {
            Some(found) => found,
            None => {
                return None;
            },
        };
        let pvno = match read_u8(c) {
            Some(v) => v,
            None => {
                return None;
            },
        };
        let (c, rest) = match read_field(rest, context_tag(1)) {
            Some(found) => found,
            None => {
                return None;
            },
        };
        let msg_type = match read_u8(c) {
            Some(v) => v,
            None => {
                return None;
            },
        };
        let (c, rest) = read_optional_field(rest, context_tag(2));
        let ctime = match c {
            Some(c) => match read_time(c) {
                Some(v) => Some(v),
                None => {
                    return None;
                },
            },
            None => None,
        };
        let (c, rest) = read_optional_field(rest, context_tag(3));
        let cusec = match c {
            Some(c) => match read_u32(c) {
                Some(v) => Some(v),
                None => {
                    return None;
                },
            },
            None => None,
        };
        let (c, rest) = match read_field(rest, context_tag(4)) {
            Some(found) => found,
            None => {
                return None;
            },
        };
        let stime = match read_time(c) {
            Some(v) => v,
            None => {
                return None;
            },
        };
        Some(((pvno, msg_type, ctime, cusec, stime), rest))
    }

    /// The fields `susec`, `error_code`, `crealm`, `cname`, `realm` at the
    /// start of `bytes`, and what follows them.
    pub open spec fn spec_decode_middle(bytes: Seq<u8>) -> Option<((u32, i32, Option<Seq<u8>>,
        Option<PrincipalNameView>, Seq<u8>), Seq<u8>)> {
        let field0 = spec_field(bytes, spec_context_tag(5));
        let susec = spec_u32((field0->0).0);
        let field1 = spec_field((field0->0).1, spec_context_tag(6));
        let error_code = spec_i32((field1->0).0);
        let field2 = spec_optional_field((field1->0).1, spec_context_tag(7));
        let crealm = match field2.0 {
            Some(c) => spec_general_string(c),
            None => None,
        };
        let field3 = spec_optional_field(field2.1, spec_context_tag(8));
        let cname = match field3.0 {
            Some(c) => PrincipalName::spec_decode(c),
            None => None,
        };
        let field4 = spec_field(field3.1, spec_context_tag(9));
        let realm = spec_general_string((field4->0).0);
        if field0 is Some
            && susec is Some
            && field1 is Some
            && error_code is Some
            && (field2.0 is Some ==> crealm is Some)
            && (field3.0 is Some ==> cname is Some)
            && field4 is Some
            && realm is Some {
            Some(((susec->0, error_code->0, crealm, cname, realm->0), (field4->0).1))
        } else {
            None
        }
    }

    /// Reads the fields `susec`, `error_code`, `crealm`, `cname`, `realm`.
    fn decode_middle<'a>(bytes: &'a [u8]) -> (r: Option<((u32, i32, Option<Vec<u8>>,
        Option<PrincipalName>, Vec<u8>), &'a [u8])>)
        ensures
            match r {
                Some((v, rest)) => KrbErrorMsg::spec_decode_middle(bytes@) == Some(
                    ((v.0, v.1, opt_view(v.2), v.3.deep_view(), v.4@), rest@),
                ),
                None => KrbErrorMsg::spec_decode_middle(bytes@) is None,
            },
    {
        let rest = bytes;
        let (c, rest) = match read_field(rest, context_tag(5)) {
            Some(found) => found,
            None => {
                return None;
            },
        };
        let susec = match read_u32(c) {
            Some(v) => v,
            None => {
                return None;
            },
        };
        let (c, rest) = match read_field(rest, context_tag(6)) {
            Some(found) => found,
            None => {
                return None;
            },
        };
        let error_code = match read_i32(c) {
            Some(v) => v,
            None => {
                return None;
            },
        };
        let (c, rest) = read_optional_field(rest, context_tag(7));
        let crealm = match c {
            Some(c) => match read_general_string(c) {
                Some(v) => Some(vstd::slice::slice_to_vec(v)),
                None => {
                    return None;
                },
            },
            None => None,
        };
        let (c, rest) = read_optional_field(rest, context_tag(8));
        let cname = match c {
            Some(c) => match PrincipalName::decode(c) {
                Some(v) => Some(v),
                None => {
                    return None;
                },
            },
            None => None,
        };
        let (c, rest) = match read_field(rest, context_tag(9)) {
            Some(found) => found,
            None => {
                return None;
            },
        };
        let realm = match read_general_string(c) {
            Some(v) => vstd::slice::slice_to_vec(v),
            None => {
                return None;
            },
        };
        Some(((susec, error_code, crealm, cname, realm), rest))
    }

    /// The fields `sname`, `error_text`, `error_data` at the start of `bytes`,
    /// and what follows them.
    pub open spec fn spec_decode_tail(bytes: Seq<u8>) -> Option<((PrincipalNameView,
        Option<Seq<u8>>, Option<Seq<u8>>), Seq<u8>)> {
        let field0 = spec_field(bytes, spec_context_tag(10));
        let sname = PrincipalName::spec_decode((field0->0).0);
        let field1 = spec_optional_field((field0->0).1, spec_context_tag(11));
        let error_text = match field1.0 {
            Some(c) => spec_general_string(c),
            None => None,
        };
        let field2 = spec_optional_field(field1.1, spec_context_tag(12));
        let error_data = match field2.0 {
            Some(c) => spec_octets(c),
            None => None,
        };
        if field0 is Some
            && sname is Some
            && (field1.0 is Some ==> error_text is Some)
            && (field2.0 is Some ==> error_data is Some) {
            Some(((sname->0, error_text, error_data), field2.1))
        } else {
            None
        }
    }

    /// Reads the fields `sname`, `error_text`, `error_data`.
    fn decode_tail<'a>(bytes: &'a [u8]) -> (r: Option<((PrincipalName, Option<Vec<u8>>,
        Option<Vec<u8>>), &'a [u8])>)
        ensures
            match r {
                Some((v, rest)) => KrbErrorMsg::spec_decode_tail(bytes@) == Some(
                    ((v.0.deep_view(), opt_view(v.1), opt_view(v.2)), rest@),
                ),
                None => KrbErrorMsg::spec_decode_tail(bytes@) is None,
            },
    {
        let rest = bytes;
        let (c, rest) = match read_field(rest, context_tag(10)) {
            Some(found) => found,
            None => {
                return None;
            },
        };
        let sname = match PrincipalName::decode(c) {
            Some(v) => v,
            None => {
                return None;
            },
        };
        let (c, rest) = read_optional_field(rest, context_tag(11));
        let error_text = match c {
            Some(c) => match read_general_string(c) {
                Some(v) => Some(vstd::slice::slice_to_vec(v)),
                None => {
                    return None;
                },
            },
            None => None,
        };
        let (c, rest) = read_optional_field(rest, context_tag(12));
        let error_data = match c {
            Some(c) => match read_octets(c) {
                Some(v) => Some(vstd::slice::slice_to_vec(v)),
                None => {
                    return None;
                },
            },
            None => None,
        };
        Some(((sname, error_text, error_data), rest))
    }

    /// The wire encoding of an error message, where every field can be written.
    #[verifier::opaque]
    pub open spec fn spec_encode(v: KrbErrorMsgView) -> Option<Seq<u8>> {
        let part0 = spec_explicit(0, spec_write_u8(v.pvno));
        let part1 = spec_explicit(1, spec_write_u8(v.msg_type));
        let part2 = match v.ctime {
            Some(x) => spec_explicit(2, der_time_encoding(x)),
            None => Some(Seq::empty()),
        };
        let part3 = match v.cusec {
            Some(x) => spec_explicit(3, spec_write_u32(x)),
            None => Some(Seq::empty()),
        };
        let part4 = spec_explicit(4, der_time_encoding(v.stime));
        let part5 = spec_explicit(5, spec_write_u32(v.susec));
        let part6 = spec_explicit(6, spec_write_i32(v.error_code));
        let part7 = match v.crealm {
            Some(x) => spec_explicit(7, spec_write_general_string(x)),
            None => Some(Seq::empty()),
        };
        let part8 = match v.cname {
            Some(x) => spec_explicit(8, PrincipalName::spec_encode(x)),
            None => Some(Seq::empty()),
        };
        let part9 = spec_explicit(9, spec_write_general_string(v.realm));
        let part10 = spec_explicit(10, PrincipalName::spec_encode(v.sname));
        let part11 = match v.error_text {
            Some(x) => spec_explicit(11, spec_write_general_string(x)),
            None => Some(Seq::empty()),
        };
        let part12 = match v.error_data {
            Some(x) => spec_explicit(12, spec_write_octets(x)),
            None => Some(Seq::empty()),
        };
        if part0 is Some && part1 is Some && part2 is Some && part3 is Some && part4 is Some
            && part5 is Some
            && part6 is Some && part7 is Some && part8 is Some && part9 is Some && part10 is Some
                && part11 is Some
            && part12 is Some {
            spec_element(TAG_SEQUENCE, part0->0 + part1->0 + part2->0 + part3->0 + part4->0
                + part5->0 + part6->0 + part7->0
                + part8->0 + part9->0 + part10->0 + part11->0 + part12->0)
        } else {
            None
        }
    }

    /// Writes an error message in its wire encoding.
    pub fn encode(&self) -> (r: Option<Vec<u8>>)
        ensures
            opt_view(r) == KrbErrorMsg::spec_encode(self.deep_view()),
    {
        proof {
            reveal(KrbErrorMsg::spec_encode);
        }
        let mut body: Vec<u8> = Vec::new();
        match write_explicit(0, write_u8(self.pvno)) {
            Some(part) => {
                let mut part = part;
                body.append(&mut part);
            },
            None => {
                return None;
            },
        }
        match write_explicit(1, write_u8(self.msg_type)) {
            Some(part) => {
                let mut part = part;
                body.append(&mut part);
            },
            None => {
                return None;
            },
        }
        match &self.ctime {
            Some(x) => match write_explicit(2, write_time(*x)) {
                Some(part) => {
                    let mut part = part;
                    body.append(&mut part);
                },
                None => {
                    return None;
                },
            },
            None => {
                assert(body@ + Seq::<u8>::empty() =~= body@);
            },
        }
        match &self.cusec {
            Some(x) => match write_explicit(3, write_u32(*x)) {
                Some(part) => {
                    let mut part = part;
                    body.append(&mut part);
                },
                None => {
                    return None;
                },
            },
            None => {
                assert(body@ + Seq::<u8>::empty() =~= body@);
            },
        }
        match write_explicit(4, write_time(self.stime)) {
            Some(part) => {
                let mut part = part;
                body.append(&mut part);
            },
            None => {
                return None;
            },
        }
        match write_explicit(5, write_u32(self.susec)) {
            Some(part) => {
                let mut part = part;
                body.append(&mut part);
            },
            None => {
                return None;
            },
        }
        match write_explicit(6, write_i32(self.error_code)) {
            Some(part) => {
                let mut part = part;
                body.append(&mut part);
            },
            None => {
                return None;
            },
        }
        match &self.crealm {
            Some(x) => match write_explicit(7, write_general_string(x.as_slice())) {
                Some(part) => {
                    let mut part = part;
                    body.append(&mut part);
                },
                None => {
                    return None;
                },
            },
            None => {
                assert(body@ + Seq::<u8>::empty() =~= body@);
            },
        }
        match &self.cname {
            Some(x) => match write_explicit(8, x.encode()) {
                Some(part) => {
                    let mut part = part;
                    body.append(&mut part);
                },
                None => {
                    return None;
                },
            },
            None => {
                assert(body@ + Seq::<u8>::empty() =~= body@);
            },
        }
        match write_explicit(9, write_general_string(self.realm.as_slice())) {
            Some(part) => {
                let mut part = part;
                body.append(&mut part);
            },
            None => {
                return None;
            },
        }
        match write_explicit(10, self.sname.encode()) {
            Some(part) => {
                let mut part = part;
                body.append(&mut part);
            },
            None => {
                return None;
            },
        }
        match &self.error_text {
            Some(x) => match write_explicit(11, write_general_string(x.as_slice())) {
                Some(part) => {
                    let mut part = part;
                    body.append(&mut part);
                },
                None => {
                    return None;
                },
            },
            None => {
                assert(body@ + Seq::<u8>::empty() =~= body@);
            },
        }
        match &self.error_data {
            Some(x) => match write_explicit(12, write_octets(x.as_slice())) {
                Some(part) => {
                    let mut part = part;
                    body.append(&mut part);
                },
                None => {
                    return None;
                },
            },
            None => {
                assert(body@ + Seq::<u8>::empty() =~= body@);
            },
        }
        write_element(TAG_SEQUENCE, body.as_slice())
    }
}
} // verus!
