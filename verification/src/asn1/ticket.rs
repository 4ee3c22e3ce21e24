//! Tickets on the wire.

use crate::asn1::der::{
    TAG_SEQUENCE,
    application_tag,
    context_tag,
    opt_view,
    read_exact,
    read_field,
    read_general_string,
    read_i8,
    read_optional_field,
    spec_application_tag,
    spec_context_tag,
    spec_element,
    spec_exact,
    spec_explicit,
    spec_field,
    spec_general_string,
    spec_i8,
    spec_optional_field,
    spec_write_general_string,
    spec_write_i8,
    write_element,
    write_explicit,
    write_general_string,
    write_i8,
};
use crate::asn1::encrypted_data::{KdcEncryptedData, KdcEncryptedDataView};
use crate::asn1::principal_name::{PrincipalName, PrincipalNameView};
use vstd::prelude::*;

verus! {

/// Number of the application tag around a ticket.
pub const TICKET_TAG_NUMBER: u8 = 1;

/// A ticket: the service it is for and a part that only the service can read.
#[derive(Debug, Clone, PartialEq, Eq)]
pub struct TaggedTicket {
    /// Version of the ticket format.
    pub tkt_vno: i8,
    /// Realm of the service.
    pub realm: Vec<u8>,
    /// Name of the service.
    pub sname: PrincipalName,
    /// The part that is encrypted for the service.
    pub enc_part: KdcEncryptedData,
}

/// What a ticket holds, as plain values.
pub struct TaggedTicketView {
    pub tkt_vno: i8,
    pub realm: Seq<u8>,
    pub sname: PrincipalNameView,
    pub enc_part: KdcEncryptedDataView,
}

impl DeepView for TaggedTicket {
    type V = TaggedTicketView;

    open spec fn deep_view(&self) -> TaggedTicketView {
        TaggedTicketView {
            tkt_vno: self.tkt_vno,
            realm: self.realm@,
            sname: self.sname.deep_view(),
            enc_part: self.enc_part.deep_view(),
        }
    }
}

impl TaggedTicket {
    /// What the bytes hold, if they are a ticket in the wire encoding: a SEQUENCE
    /// of the fields in their order, each inside its numbered tag, and nothing
    /// else.
    #[verifier::opaque]
    pub open spec fn spec_decode(bytes: Seq<u8>) -> Option<TaggedTicketView> {
        let body = spec_exact(bytes, TAG_SEQUENCE);
        let field0 = spec_field(body->0, spec_context_tag(0));
        let tkt_vno = spec_i8((field0->0).0);
        let field1 = spec_field((field0->0).1, spec_context_tag(1));
        let realm = spec_general_string((field1->0).0);
        let field2 = spec_field((field1->0).1, spec_context_tag(2));
        let sname = PrincipalName::spec_decode((field2->0).0);
        let field3 = spec_field((field2->0).1, spec_context_tag(3));
        let enc_part = KdcEncryptedData::spec_decode((field3->0).0);
        if body is Some
            && field0 is Some
            && tkt_vno is Some
            && field1 is Some
            && realm is Some
            && field2 is Some
            && sname is Some
            && field3 is Some
            && enc_part is Some
            && (field3->0).1.len() == 0 {
            Some(TaggedTicketView { tkt_vno: tkt_vno->0, realm: realm->0, sname: sname->0,
                enc_part: enc_part->0 })
        } else {
            None
        }
    }

    /// Reads a ticket from its wire encoding.
    pub fn decode(bytes: &[u8]) -> (r: Option<TaggedTicket>)
        ensures
            match r {
                Some(v) => TaggedTicket::spec_decode(bytes@) == Some(v.deep_view()),
                None => TaggedTicket::spec_decode(bytes@) is None,
            },
    {
        proof {
            reveal(TaggedTicket::spec_decode);
        }
        let rest = match read_exact(bytes, TAG_SEQUENCE) {
            Some(body) => body,
            None => {
                return None;
            },
        };
        let (c, rest) = match read_field(rest, context_tag(0)) {
            Some(found) => found,
            None => {
                return None;
            },
        };
        let tkt_vno = match read_i8(c) {
            Some(v) => v,
            None => {
                return None;
            },
        };
        let (c, rest) = match read_field(rest, context_tag(1)) {
            Some(found) => found,
            None => {
                return None;
            },
        };
        let realm = match read_general_string(c) {
            Some(v) => vstd::slice::slice_to_vec(v),
            None => {
                return None;
            },
        };
        let (c, rest) = match read_field(rest, context_tag(2)) {
            Some(found) => found,
            None => {
                return None;
            },
        };
        let sname = match PrincipalName::decode(c) {
            Some(v) => v,
            None => {
                return None;
            },
        };
        let (c, rest) = match read_field(rest, context_tag(3)) {
            Some(found) => found,
            None => {
                return None;
            },
        };
        let enc_part = match KdcEncryptedData::decode(c) {
            Some(v) => v,
            None => {
                return None;
            },
        };
        if rest.len() != 0 {
            return None;
        }
        Some(TaggedTicket { tkt_vno, realm, sname, enc_part })
    }

    /// The wire encoding of a ticket, where every field can be written.
    #[verifier::opaque]
    pub open spec fn spec_encode(v: TaggedTicketView) -> Option<Seq<u8>> {
        let part0 = spec_explicit(0, spec_write_i8(v.tkt_vno));
        let part1 = spec_explicit(1, spec_write_general_string(v.realm));
        let part2 = spec_explicit(2, PrincipalName::spec_encode(v.sname));
        let part3 = spec_explicit(3, KdcEncryptedData::spec_encode(v.enc_part));
        if part0 is Some && part1 is Some && part2 is Some && part3 is Some {
            spec_element(TAG_SEQUENCE, part0->0 + part1->0 + part2->0 + part3->0)
        } else {
            None
        }
    }

    /// Writes a ticket in its wire encoding.
    pub fn encode(&self) -> (r: Option<Vec<u8>>)
        ensures
            opt_view(r) == TaggedTicket::spec_encode(self.deep_view()),
    {
        proof {
            reveal(TaggedTicket::spec_encode);
        }
        let mut body: Vec<u8> = Vec::new();
        match write_explicit(0, write_i8(self.tkt_vno)) {
            Some(part) => {
                let mut part = part;
                body.append(&mut part);
            },
            None => {
                return None;
            },
        }
        match write_explicit(1, write_general_string(self.realm.as_slice())) {
            Some(part) => {
                let mut part = part;
                body.append(&mut part);
            },
            None => {
                return None;
            },
        }
        match write_explicit(2, self.sname.encode()) {
            Some(part) => {
                let mut part = part;
                body.append(&mut part);
            },
            None => {
                return None;
            },
        }
        match write_explicit(3, self.enc_part.encode()) {
            Some(part) => {
                let mut part = part;
                body.append(&mut part);
            },
            None => {
                return None;
            },
        }
        write_element(TAG_SEQUENCE, body.as_slice())
    }
}
impl TaggedTicket {
    /// What the bytes hold, if they are a ticket inside its application tag.
    pub open spec fn spec_decode_tagged(bytes: Seq<u8>) -> Option<TaggedTicketView> {
        match spec_exact(bytes, spec_application_tag(TICKET_TAG_NUMBER)) {
            Some(inner) => TaggedTicket::spec_decode(inner),
            None => None,
        }
    }

    /// Reads a ticket inside its application tag.
    pub fn decode_tagged(bytes: &[u8]) -> (r: Option<TaggedTicket>)
        ensures
            match r {
                Some(v) => TaggedTicket::spec_decode_tagged(bytes@) == Some(v.deep_view()),
                None => TaggedTicket::spec_decode_tagged(bytes@) is None,
            },
    {
        match read_exact(bytes, application_tag(TICKET_TAG_NUMBER)) {
            Some(inner) => TaggedTicket::decode(inner),
            None => None,
        }
    }

    /// The wire encoding of a ticket inside its application tag.
    pub open spec fn spec_encode_tagged(v: TaggedTicketView) -> Option<Seq<u8>> {
        match TaggedTicket::spec_encode(v) {
            Some(inner) => spec_element(spec_application_tag(TICKET_TAG_NUMBER), inner),
            None => None,
        }
    }

    /// Writes a ticket inside its application tag.
    pub fn encode_tagged(&self) -> (r: Option<Vec<u8>>)
        ensures
            opt_view(r) == TaggedTicket::spec_encode_tagged(self.deep_view()),
    {
        match self.encode() {
            Some(inner) => write_element(application_tag(TICKET_TAG_NUMBER), inner.as_slice()),
            None => None,
        }
    }
}

} // verus!
