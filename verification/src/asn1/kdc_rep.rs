//! Replies on the wire.

use crate::asn1::der::{
    TAG_SEQUENCE,
    context_tag,
    der_time_encoding,
    der_time_value,
    opt_view,
    read_exact,
    read_field,
    read_flags,
    read_general_string,
    read_optional_field,
    read_raw,
    read_time,
    read_u32,
    read_u8,
    spec_context_tag,
    spec_element,
    spec_exact,
    spec_explicit,
    spec_field,
    spec_flags,
    spec_flags_encoding,
    spec_general_string,
    spec_optional_field,
    spec_raw,
    spec_u32,
    spec_u8,
    spec_write_general_string,
    spec_write_raw,
    spec_write_u32,
    spec_write_u8,
    write_element,
    write_explicit,
    write_flags,
    write_general_string,
    write_raw,
    write_time,
    write_u32,
    write_u8,
};
use crate::asn1::encrypted_data::{EncryptionKey, EncryptionKeyView, KdcEncryptedData,
    KdcEncryptedDataView};
use crate::asn1::pa_data::{PreAuthData, PreAuthDataView};
use crate::asn1::principal_name::{PrincipalName, PrincipalNameView};
use crate::asn1::ticket::{TaggedTicket, TaggedTicketView};
use vstd::prelude::*;

verus! {

/// The reply of the authentication service or of the ticket-granting service.
#[derive(Debug, Clone, PartialEq, Eq)]
pub struct KdcRep {
    /// Protocol version.
    pub pvno: u8,
    /// Number of the message type.
    pub msg_type: u8,
    /// Pre-authentication data of the reply.
    pub padata: Option<Vec<PreAuthData>>,
    /// Realm of the client.
    pub crealm: Vec<u8>,
    /// Name of the client.
    pub cname: PrincipalName,
    /// The ticket that was asked for.
    pub ticket: TaggedTicket,
    /// The part that is encrypted for the client.
    pub enc_part: KdcEncryptedData,
}

/// What a reply holds, as plain values.
pub struct KdcRepView {
    pub pvno: u8,
    pub msg_type: u8,
    pub padata: Option<Seq<PreAuthDataView>>,
    pub crealm: Seq<u8>,
    pub cname: PrincipalNameView,
    pub ticket: TaggedTicketView,
    pub enc_part: KdcEncryptedDataView,
}

impl DeepView for KdcRep {
    type V = KdcRepView;

    open spec fn deep_view(&self) -> KdcRepView {
        KdcRepView {
            pvno: self.pvno,
            msg_type: self.msg_type,
            padata: match self.padata {
                Some(v) => Some(v.deep_view()),
                None => None,
            },
            crealm: self.crealm@,
            cname: self.cname.deep_view(),
            ticket: self.ticket.deep_view(),
            enc_part: self.enc_part.deep_view(),
        }
    }
}

impl KdcRep {
    /// What the bytes hold, if they are a reply in the wire encoding: a SEQUENCE
    /// of the fields in their order, each inside its numbered tag, and nothing
    /// else.
    #[verifier::opaque]
    pub open spec fn spec_decode(bytes: Seq<u8>) -> Option<KdcRepView> {
        let body = spec_exact(bytes, TAG_SEQUENCE);
        let field0 = spec_field(body->0, spec_context_tag(0));
        let pvno = spec_u8((field0->0).0);
        let field1 = spec_field((field0->0).1, spec_context_tag(1));
        let msg_type = spec_u8((field1->0).0);
        let field2 = spec_optional_field((field1->0).1, spec_context_tag(2));
        let padata = match field2.0 {
            Some(c) => PreAuthData::spec_decode_list(c),
            None => None,
        };
        let field3 = spec_field(field2.1, spec_context_tag(3));
        let crealm = spec_general_string((field3->0).0);
        let field4 = spec_field((field3->0).1, spec_context_tag(4));
        let cname = PrincipalName::spec_decode((field4->0).0);
        let field5 = spec_field((field4->0).1, spec_context_tag(5));
        let ticket = TaggedTicket::spec_decode_tagged((field5->0).0);
        let field6 = spec_field((field5->0).1, spec_context_tag(6));
        let enc_part = KdcEncryptedData::spec_decode((field6->0).0);
        if body is Some
            && field0 is Some
            && pvno is Some
            && field1 is Some
            && msg_type is Some
            && (field2.0 is Some ==> padata is Some)
            && field3 is Some
            && crealm is Some
            && field4 is Some
            && cname is Some
            && field5 is Some
            && ticket is Some
            && field6 is Some
            && enc_part is Some
            && (field6->0).1.len() == 0 {
            Some(KdcRepView { pvno: pvno->0, msg_type: msg_type->0, padata, crealm: crealm->0,
                cname: cname->0, ticket: ticket->0, enc_part: enc_part->0 })
        } else {
            None
        }
    }

    /// Reads a reply from its wire encoding.
    pub fn decode(bytes: &[u8]) -> (r: Option<KdcRep>)
        ensures
            match r {
                Some(v) => KdcRep::spec_decode(bytes@) == Some(v.deep_view()),
                None => KdcRep::spec_decode(bytes@) is None,
            },
    {
        proof {
            reveal(KdcRep::spec_decode);
        }
        let rest = match read_exact(bytes, TAG_SEQUENCE) {
            Some(body) => body,
            None => {
                return None;
            },
        };
        let (c, rest) = match read_field(rest, context_tag(0)) {
            Some(found) => found,
            None => {
                return None;
            },
        };
        let pvno = match read_u8(c) {
            Some(v) => v,
            None => {
                return None;
            },
        };
        let (c, rest) = match read_field(rest, context_tag(1)) {
            Some(found) => found,
            None => {
                return None;
            },
        };
        let msg_type = match read_u8(c) {
            Some(v) => v,
            None => {
                return None;
            },
        };
        let (c, rest) = read_optional_field(rest, context_tag(2));
        let padata = match c {
            Some(c) => match PreAuthData::decode_list(c) {
                Some(v) => Some(v),
                None => {
                    return None;
                },
            },
            None => None,
        };
        let (c, rest) = match read_field(rest, context_tag(3)) {
            Some(found) => found,
            None => {
                return None;
            },
        };
        let crealm = match read_general_string(c) {
            Some(v) => vstd::slice::slice_to_vec(v),
            None => {
                return None;
            },
        };
        let (c, rest) = match read_field(rest, context_tag(4)) {
            Some(found) => found,
            None => {
                return None;
            },
        };
        let cname = match PrincipalName::decode(c) {
            Some(v) => v,
            None => {
                return None;
            },
        };
        let (c, rest) = match read_field(rest, context_tag(5)) {
            Some(found) => found,
            None => {
                return None;
            },
        };
        let ticket = match TaggedTicket::decode_tagged(c) {
            Some(v) => v,
            None => {
                return None;
            },
        };
        let (c, rest) = match read_field(rest, context_tag(6)) {
            Some(found) => found,
            None => {
                return None;
            },
        };
        let enc_part = match KdcEncryptedData::decode(c) {
            Some(v) => v,
            None => {
                return None;
            },
        };
        if rest.len() != 0 {
            return None;
        }
        Some(KdcRep { pvno, msg_type, padata, crealm, cname, ticket, enc_part })
    }

    /// The wire encoding of a reply, where every field can be written.
    #[verifier::opaque]
    pub open spec fn spec_encode(v: KdcRepView) -> Option<Seq<u8>> {
        let part0 = spec_explicit(0, spec_write_u8(v.pvno));
        let part1 = spec_explicit(1, spec_write_u8(v.msg_type));
        let part2 = match v.padata {
            Some(x) => spec_explicit(2, PreAuthData::spec_encode_list(x)),
            None => Some(Seq::empty()),
        };
        let part3 = spec_explicit(3, spec_write_general_string(v.crealm));
        let part4 = spec_explicit(4, PrincipalName::spec_encode(v.cname));
        let part5 = spec_explicit(5, TaggedTicket::spec_encode_tagged(v.ticket));
        let part6 = spec_explicit(6, KdcEncryptedData::spec_encode(v.enc_part));
        if part0 is Some && part1 is Some && part2 is Some && part3 is Some && part4 is Some
            && part5 is Some
            && part6 is Some {
            spec_element(TAG_SEQUENCE, part0->0 + part1->0 + part2->0 + part3->0 + part4->0
                + part5->0 + part6->0)
        } else {
            None
        }
    }

    /// Writes a reply in its wire encoding.
    pub fn encode(&self) -> (r: Option<Vec<u8>>)
        ensures
            opt_view(r) == KdcRep::spec_encode(self.deep_view()),
    {
        proof {
            reveal(KdcRep::spec_encode);
        }
        let mut body: Vec<u8> = Vec::new();
        match write_explicit(0, write_u8(self.pvno)) {
            Some(part) => {
                let mut part = part;
                body.append(&mut part);
            },
            None => {
                return None;
            },
        }
        match write_explicit(1, write_u8(self.msg_type)) {
            Some(part) => {
                let mut part = part;
                body.append(&mut part);
            },
            None => {
                return None;
            },
        }
        match &self.padata {
            Some(x) => match write_explicit(2, PreAuthData::encode_list(x)) {
                Some(part) => {
                    let mut part = part;
                    body.append(&mut part);
                },
                None => {
                    return None;
                },
            },
            None => {
                assert(body@ + Seq::<u8>::empty() =~= body@);
            },
        }
        match write_explicit(3, write_general_string(self.crealm.as_slice())) {
            Some(part) => {
                let mut part = part;
                body.append(&mut part);
            },
            None => {
                return None;
            },
        }
        match write_explicit(4, self.cname.encode()) {
            Some(part) => {
                let mut part = part;
                body.append(&mut part);
            },
            None => {
                return None;
            },
        }
        match write_explicit(5, self.ticket.encode_tagged()) {
            Some(part) => {
                let mut part = part;
                body.append(&mut part);
            },
            None => {
                return None;
            },
        }
        match write_explicit(6, self.enc_part.encode()) {
            Some(part) => {
                let mut part = part;
                body.append(&mut part);
            },
            None => {
                return None;
            },
        }
        write_element(TAG_SEQUENCE, body.as_slice())
    }
}
/// What the encrypted part of a reply holds once the client has decrypted it.
#[derive(Clone, PartialEq, Eq)]
pub struct EncKdcRepPart {
    /// The session key.
    pub key: EncryptionKey,
    /// Times of the client's last requests, kept as the element that carries
    /// them.
    pub last_req: Vec<u8>,
    /// The nonce of the request that this reply answers.
    pub nonce: u32,
    /// When the client's key expires.
    pub key_expiration: Option<u64>,
    /// Flags of the ticket.
    pub flags: u32,
    /// When the client authenticated.
    pub auth_time: u64,
    /// From when the ticket is valid.
    pub start_time: Option<u64>,
    /// Until when the ticket is valid.
    pub end_time: u64,
    /// Until when the ticket can be renewed.
    pub renew_till: Option<u64>,
    /// Realm of the service.
    pub server_realm: Vec<u8>,
    /// Name of the service.
    pub server_name: PrincipalName,
    /// Addresses that the ticket is limited to, kept as the element that
    /// carries them.
    pub client_addresses: Option<Vec<u8>>,
    /// Pre-authentication data of the reply, kept as the element that carries
    /// it.
    pub encrypted_pa_data: Option<Vec<u8>>,
}

/// What the decrypted part of a reply holds, as plain values.
pub struct EncKdcRepPartView {
    pub key: EncryptionKeyView,
    pub last_req: Seq<u8>,
    pub nonce: u32,
    pub key_expiration: Option<u64>,
    pub flags: u32,
    pub auth_time: u64,
    pub start_time: Option<u64>,
    pub end_time: u64,
    pub renew_till: Option<u64>,
    pub server_realm: Seq<u8>,
    pub server_name: PrincipalNameView,
    pub client_addresses: Option<Seq<u8>>,
    pub encrypted_pa_data: Option<Seq<u8>>,
}

impl DeepView for EncKdcRepPart {
    type V = EncKdcRepPartView;

    open spec fn deep_view(&self) -> EncKdcRepPartView {
        EncKdcRepPartView {
            key: self.key.deep_view(),
            last_req: self.last_req@,
            nonce: self.nonce,
            key_expiration: self.key_expiration,
            flags: self.flags,
            auth_time: self.auth_time,
            start_time: self.start_time,
            end_time: self.end_time,
            renew_till: self.renew_till,
            server_realm: self.server_realm@,
            server_name: self.server_name.deep_view(),
            client_addresses: match self.client_addresses {
                Some(v) => Some(v@),
                None => None,
            },
            encrypted_pa_data: match self.encrypted_pa_data {
                Some(v) => Some(v@),
                None => None,
            },
        }
    }
}

impl EncKdcRepPart {
    /// What the bytes hold, if they are the decrypted part of a reply in the wire encoding: a SEQUENCE
    /// of the fields in their order, each inside its numbered tag, and nothing
    /// else.
    #[verifier::opaque]
    #[verifier::opaque]
    pub open spec fn spec_decode(bytes: Seq<u8>) -> Option<EncKdcRepPartView> {
        let body = spec_exact(bytes, TAG_SEQUENCE);
        let head = EncKdcRepPart::spec_decode_head(body->0);
        let middle = EncKdcRepPart::spec_decode_middle((head->0).1);
        let tail = EncKdcRepPart::spec_decode_tail((middle->0).1);
        if body is Some && head is Some && middle is Some && tail is Some
            && (tail->0).1.len() == 0 {
            Some(
                EncKdcRepPartView {
                    key: ((head->0).0).0,
                    last_req: ((head->0).0).1,
                    nonce: ((head->0).0).2,
                    key_expiration: ((head->0).0).3,
                    flags: ((head->0).0).4,
                    auth_time: ((middle->0).0).0,
                    start_time: ((middle->0).0).1,
                    end_time: ((middle->0).0).2,
                    renew_till: ((middle->0).0).3,
                    server_realm: ((middle->0).0).4,
                    server_name: ((tail->0).0).0,
                    client_addresses: ((tail->0).0).1,
                    encrypted_pa_data: ((tail->0).0).2,
                },
            )
        } else {
            None
        }
    }

    /// Reads the decrypted part of a reply from its wire encoding.
    pub fn decode(bytes: &[u8]) -> (r: Option<EncKdcRepPart>)
        ensures
            match r {
                Some(v) => EncKdcRepPart::spec_decode(bytes@) == Some(v.deep_view()),
                None => EncKdcRepPart::spec_decode(bytes@) is None,
            },
    {
        proof {
            reveal(EncKdcRepPart::spec_decode);
        }
        let rest = match read_exact(bytes, TAG_SEQUENCE) {
            Some(body) => body,
            None => {
                return None;
            },
        };
        let (head, rest) = match EncKdcRepPart::decode_head(rest) {
            Some(found) => found,
            None => {
                return None;
            },
        };
        let (key, last_req, nonce, key_expiration, flags) = head;
        let (middle, rest) = match EncKdcRepPart::decode_middle(rest) {
            Some(found) => found,
            None => {
                return None;
            },
        };
        let (auth_time, start_time, end_time, renew_till, server_realm) = middle;
        let (tail, rest) = match EncKdcRepPart::decode_tail(rest) {
            Some(found) => found,
            None => {
                return None;
            },
        };
        let (server_name, client_addresses, encrypted_pa_data) = tail;
        if rest.len() != 0 {
            return None;
        }
        Some(EncKdcRepPart { key, last_req, nonce, key_expiration, flags, auth_time, start_time,
            end_time, renew_till, server_realm, server_name, client_addresses, encrypted_pa_data })
    }

    /// The fields `key`, `last_req`, `nonce`, `key_expiration`, `flags` at the
    /// start of `bytes`, and what follows them.
    pub open spec fn spec_decode_head(bytes: Seq<u8>) -> Option<((EncryptionKeyView, Seq<u8>, u32,
        Option<u64>, u32), Seq<u8>)> {
        let field0 = spec_field(bytes, spec_context_tag(0));
        let key = EncryptionKey::spec_decode((field0->0).0);
        let field1 = spec_field((field0->0).1, spec_context_tag(1));
        let last_req = spec_raw((field1->0).0);
        let field2 = spec_field((field1->0).1, spec_context_tag(2));
        let nonce = spec_u32((field2->0).0);
        let field3 = spec_optional_field((field2->0).1, spec_context_tag(3));
        let key_expiration = match field3.0 {
            Some(c) => der_time_value(c),
            None => None,
        };
        let field4 = spec_field(field3.1, spec_context_tag(4));
        let flags = spec_flags((field4->0).0);
        if field0 is Some
            && key is Some
            && field1 is Some
            && last_req is Some
            && field2 is Some
            && nonce is Some
            && (field3.0 is Some ==> key_expiration is Some)
            && field4 is Some
            && flags is Some {
            Some(((key->0, last_req->0, nonce->0, key_expiration, flags->0), (field4->0).1))
        } else {
            None
        }
    }

    /// Reads the fields `key`, `last_req`, `nonce`, `key_expiration`, `flags`.
    fn decode_head<'a>(bytes: &'a [u8]) -> (r: Option<((EncryptionKey, Vec<u8>, u32, Option<u64>,
        u32), &'a [u8])>)
        ensures
            match r {
                Some((v, rest)) => EncKdcRepPart::spec_decode_head(bytes@) == Some(
                    ((v.0.deep_view(), v.1@, v.2, v.3, v.4), rest@),
                ),
                None => EncKdcRepPart::spec_decode_head(bytes@) is None,
            },
    {
        let rest = bytes;
        let (c, rest) = match read_field(rest, context_tag(0)) {
            Some(found) => found,
            None => {
                return None;
            },
        };
        let key = match EncryptionKey::decode(c) {
            Some(v) => v,
            None => {
                return None;
            },
        };
        let (c, rest) = match read_field(rest, context_tag(1)) {
            Some(found) => found,
            None => {
                return None;
            },
        };
        let last_req = match read_raw(c) {
            Some(v) => vstd::slice::slice_to_vec(v),
            None => {
                return None;
            },
        };
        let (c, rest) = match read_field(rest, context_tag(2)) {
            Some(found) => found,
            None => {
                return None;
            },
        };
        let nonce = match read_u32(c) {
            Some(v) => v,
            None => {
                return None;
            },
        };
        let (c, rest) = read_optional_field(rest, context_tag(3));
        let key_expiration = match c {
            Some(c) => match read_time(c) {
                Some(v) => Some(v),
                None => {
                    return None;
                },
            },
            None => None,
        };
        let (c, rest) = match read_field(rest, context_tag(4)) {
            Some(found) => found,
            None => {
                return None;
            },
        };
        let flags = match read_flags(c) {
            Some(v) => v,
            None => {
                return None;
            },
        };
        Some(((key, last_req, nonce, key_expiration, flags), rest))
    }

    /// The fields `auth_time`, `start_time`, `end_time`, `renew_till`,
    /// `server_realm` at the start of `bytes`, and what follows them.
    pub open spec fn spec_decode_middle(bytes: Seq<u8>) -> Option<((u64, Option<u64>, u64,
        Option<u64>, Seq<u8>), Seq<u8>)> {
        let field0 = spec_field(bytes, spec_context_tag(5));
        let auth_time = der_time_value((field0->0).0);
        let field1 = spec_optional_field((field0->0).1, spec_context_tag(6));
        let start_time = match field1.0 {
            Some(c) => der_time_value(c),
            None => None,
        };
        let field2 = spec_field(field1.1, spec_context_tag(7));
        let end_time = der_time_value((field2->0).0);
        let field3 = spec_optional_field((field2->0).1, spec_context_tag(8));
        let renew_till = match field3.0 {
            Some(c) => der_time_value(c),
            None => None,
        };
        let field4 = spec_field(field3.1, spec_context_tag(9));
        let server_realm = spec_general_string((field4->0).0);
        if field0 is Some
            && auth_time is Some
            && (field1.0 is Some ==> start_time is Some)
            && field2 is Some
            && end_time is Some
            && (field3.0 is Some ==> renew_till is Some)
            && field4 is Some
            && server_realm is Some {
            Some(((auth_time->0, start_time, end_time->0, renew_till, server_realm->0),
                (field4->0).1))
        } else {
            None
        }
    }

    /// Reads the fields `auth_time`, `start_time`, `end_time`, `renew_till`,
    /// `server_realm`.
    fn decode_middle<'a>(bytes: &'a [u8]) -> (r: Option<((u64, Option<u64>, u64, Option<u64>,
        Vec<u8>), &'a [u8])>)
        ensures
            match r {
                Some((v, rest)) => EncKdcRepPart::spec_decode_middle(bytes@) == Some(
                    ((v.0, v.1, v.2, v.3, v.4@), rest@),
                ),
                None => EncKdcRepPart::spec_decode_middle(bytes@) is None,
            },
    {
        let rest = bytes;
        let (c, rest) = match read_field(rest, context_tag(5)) {
            Some(found) => found,
            None => {
                return None;
            },
        };
        let auth_time = match read_time(c) {
            Some(v) => v,
            None => {
                return None;
            },
        };
        let (c, rest) = read_optional_field(rest, context_tag(6));
        let start_time = match c {
            Some(c) => match read_time(c) {
                Some(v) => Some(v),
                None => {
                    return None;
                },
            },
            None => None,
        };
        let (c, rest) = match read_field(rest, context_tag(7)) {
            Some(found) => found,
            None => {
                return None;
            },
        };
        let end_time = match read_time(c) {
            Some(v) => v,
            None => {
                return None;
            },
        };
        let (c, rest) = read_optional_field(rest, context_tag(8));
        let renew_till = match c {
            Some(c) => match read_time(c) {
                Some(v) => Some(v),
                None => {
                    return None;
                },
            },
            None => None,
        };
        let (c, rest) = match read_field(rest, context_tag(9)) {
            Some(found) => found,
            None => {
                return None;
            },
        };
        let server_realm = match read_general_string(c) {
            Some(v) => vstd::slice::slice_to_vec(v),
            None => {
                return None;
            },
        };
        Some(((auth_time, start_time, end_time, renew_till, server_realm), rest))
    }

    /// The fields `server_name`, `client_addresses`, `encrypted_pa_data` at the
    /// start of `bytes`, and what follows them.
    pub open spec fn spec_decode_tail(bytes: Seq<u8>) -> Option<((PrincipalNameView,
        Option<Seq<u8>>, Option<Seq<u8>>), Seq<u8>)> {
        let field0 = spec_field(bytes, spec_context_tag(10));
        let server_name = PrincipalName::spec_decode((field0->0).0);
        let field1 = spec_optional_field((field0->0).1, spec_context_tag(11));
        let client_addresses = match field1.0 {
            Some(c) => spec_raw(c),
            None => None,
        };
        let field2 = spec_optional_field(field1.1, spec_context_tag(12));
        let encrypted_pa_data = match field2.0 {
            Some(c) => spec_raw(c),
            None => None,
        };
        if field0 is Some
            && server_name is Some
            && (field1.0 is Some ==> client_addresses is Some)
            && (field2.0 is Some ==> encrypted_pa_data is Some) {
            Some(((server_name->0, client_addresses, encrypted_pa_data), field2.1))
        } else {
            None
        }
    }

    /// Reads the fields `server_name`, `client_addresses`, `encrypted_pa_data`.
    fn decode_tail<'a>(bytes: &'a [u8]) -> (r: Option<((PrincipalName, Option<Vec<u8>>,
        Option<Vec<u8>>), &'a [u8])>)
        ensures
            match r {
                Some((v, rest)) => EncKdcRepPart::spec_decode_tail(bytes@) == Some(
                    ((v.0.deep_view(), opt_view(v.1), opt_view(v.2)), rest@),
                ),
                None => EncKdcRepPart::spec_decode_tail(bytes@) is None,
            },
    {
        let rest = bytes;
        let (c, rest) = match read_field(rest, context_tag(10)) {
            Some(found) => found,
            None => {
                return None;
            },
        };
        let server_name = match PrincipalName::decode(c) {
            Some(v) => v,
            None => {
                return None;
            },
        };
        let (c, rest) = read_optional_field(rest, context_tag(11));
        let client_addresses = match c {
            Some(c) => match read_raw(c) {
                Some(v) => Some(vstd::slice::slice_to_vec(v)),
                None => {
                    return None;
                },
            },
            None => None,
        };
        let (c, rest) = read_optional_field(rest, context_tag(12));
        let encrypted_pa_data = match c {
            Some(c) => match read_raw(c) {
                Some(v) => Some(vstd::slice::slice_to_vec(v)),
                None => {
                    return None;
                },
            },
            None => None,
        };
        Some(((server_name, client_addresses, encrypted_pa_data), rest))
    }

    /// The wire encoding of the decrypted part of a reply, where every field can be written.
    #[verifier::opaque]
    pub open spec fn spec_encode(v: EncKdcRepPartView) -> Option<Seq<u8>> {
        let part0 = spec_explicit(0, EncryptionKey::spec_encode(v.key));
        let part1 = spec_explicit(1, spec_write_raw(v.last_req));
        let part2 = spec_explicit(2, spec_write_u32(v.nonce));
        let part3 = match v.key_expiration {
            Some(x) => spec_explicit(3, der_time_encoding(x)),
            None => Some(Seq::empty()),
        };
        let part4 = spec_explicit(4, spec_flags_encoding(v.flags));
        let part5 = spec_explicit(5, der_time_encoding(v.auth_time));
        let part6 = match v.start_time {
            Some(x) => spec_explicit(6, der_time_encoding(x)),
            None => Some(Seq::empty()),
        };
        let part7 = spec_explicit(7, der_time_encoding(v.end_time));
        let part8 = match v.renew_till {
            Some(x) => spec_explicit(8, der_time_encoding(x)),
            None => Some(Seq::empty()),
        };
        let part9 = spec_explicit(9, spec_write_general_string(v.server_realm));
        let part10 = spec_explicit(10, PrincipalName::spec_encode(v.server_name));
        let part11 = match v.client_addresses {
            Some(x) => spec_explicit(11, spec_write_raw(x)),
            None => Some(Seq::empty()),
        };
        let part12 = match v.encrypted_pa_data {
            Some(x) => spec_explicit(12, spec_write_raw(x)),
            None => Some(Seq::empty()),
        };
        if part0 is Some && part1 is Some && part2 is Some && part3 is Some && part4 is Some
            && part5 is Some
            && part6 is Some && part7 is Some && part8 is Some && part9 is Some && part10 is Some
                && part11 is Some
            && part12 is Some {
            spec_element(TAG_SEQUENCE, part0->0 + part1->0 + part2->0 + part3->0 + part4->0
                + part5->0 + part6->0 + part7->0
                + part8->0 + part9->0 + part10->0 + part11->0 + part12->0)
        } else {
            None
        }
    }

    /// Writes the decrypted part of a reply in its wire encoding.
    pub fn encode(&self) -> (r: Option<Vec<u8>>)
        ensures
            opt_view(r) == EncKdcRepPart::spec_encode(self.deep_view()),
    {
        proof {
            reveal(EncKdcRepPart::spec_encode);
        }
        let mut body: Vec<u8> = Vec::new();
        match write_explicit(0, self.key.encode()) {
            Some(part) => {
                let mut part = part;
                body.append(&mut part);
            },
            None => {
                return None;
            },
        }
        match write_explicit(1, write_raw(self.last_req.as_slice())) {
            Some(part) => {
                let mut part = part;
                body.append(&mut part);
            },
            None => {
                return None;
            },
        }
        match write_explicit(2, write_u32(self.nonce)) {
            Some(part) => {
                let mut part = part;
                body.append(&mut part);
            },
            None => {
                return None;
            },
        }
        match &self.key_expiration {
            Some(x) => match write_explicit(3, write_time(*x)) {
                Some(part) => {
                    let mut part = part;
                    body.append(&mut part);
                },
                None => {
                    return None;
                },
            },
            None => {
                assert(body@ + Seq::<u8>::empty() =~= body@);
            },
        }
        match write_explicit(4, write_flags(self.flags)) {
            Some(part) => {
                let mut part = part;
                body.append(&mut part);
            },
            None => {
                return None;
            },
        }
        match write_explicit(5, write_time(self.auth_time)) {
            Some(part) => {
                let mut part = part;
                body.append(&mut part);
            },
            None => {
                return None;
            },
        }
        match &self.start_time {
            Some(x) => match write_explicit(6, write_time(*x)) {
                Some(part) => {
                    let mut part = part;
                    body.append(&mut part);
                },
                None => {
                    return None;
                },
            },
            None => {
                assert(body@ + Seq::<u8>::empty() =~= body@);
            },
        }
        match write_explicit(7, write_time(self.end_time)) {
            Some(part) => {
                let mut part = part;
                body.append(&mut part);
            },
            None => {
                return None;
            },
        }
        match &self.renew_till {
            Some(x) => match write_explicit(8, write_time(*x)) {
                Some(part) => {
                    let mut part = part;
                    body.append(&mut part);
                },
                None => {
                    return None;
                },
            },
            None => {
                assert(body@ + Seq::<u8>::empty() =~= body@);
            },
        }
        match write_explicit(9, write_general_string(self.server_realm.as_slice())) {
            Some(part) => {
                let mut part = part;
                body.append(&mut part);
            },
            None => {
                return None;
            },
        }
        match write_explicit(10, self.server_name.encode()) {
            Some(part) => {
                let mut part = part;
                body.append(&mut part);
            },
            None => {
                return None;
            },
        }
        match &self.client_addresses {
            Some(x) => match write_explicit(11, write_raw(x.as_slice())) {
                Some(part) => {
                    let mut part = part;
                    body.append(&mut part);
                },
                None => {
                    return None;
                },
            },
            None => {
                assert(body@ + Seq::<u8>::empty() =~= body@);
            },
        }
        match &self.encrypted_pa_data {
            Some(x) => match write_explicit(12, write_raw(x.as_slice())) {
                Some(part) => {
                    let mut part = part;
                    body.append(&mut part);
                },
                None => {
                    return None;
                },
            },
            None => {
                assert(body@ + Seq::<u8>::empty() =~= body@);
            },
        }
        write_element(TAG_SEQUENCE, body.as_slice())
    }
}
} // verus!
