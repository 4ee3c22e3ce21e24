//! Replies of the key distribution centre, and what a client makes of them.

use crate::asn1::der::{
    application_tag, read_exact, spec_application_tag, spec_exact, spec_is_ia5,
};
use crate::asn1::encrypted_data::KdcEncryptedDataView;
use crate::asn1::kdc_rep::{EncKdcRepPart, EncKdcRepPartView, KdcRep, KdcRepView};
use crate::asn1::krb_error::{KrbErrorMsg, KrbErrorMsgView};
use crate::asn1::pa_data::{PaEncTsEnc, PreAuthData};
use crate::asn1::principal_name::PrincipalNameView;
use crate::asn1::ticket::{TaggedTicket, TaggedTicketView};
use crate::constants::{
    EncryptionType, KrbErrorCode, KrbMessageType, AES_256_KEY_LEN, KEY_USAGE_KDC_REP_ENC_PART,
    KEY_USAGE_PA_ENC_TIMESTAMP, KRB_PVNO,
};
use crate::crypto::spec_decrypt;
use crate::error::KrbError;
use crate::proto::keys::{DerivedKey, EncryptedData, SessionKey};
use crate::proto::name::{spec_name_from_wire, wire_to_string, Name, NameView};
use crate::proto::preauth::{spec_parse, KerberosPaRep, PreauthDataView};
use vstd::prelude::*;
use vstd::utf8::{decode_utf8, encode_utf8};

verus! {

/// Number of the application tag around a reply of the authentication
/// service.
pub const AS_REP_TAG_NUMBER: u8 = 11;

/// Number of the application tag around a reply of the ticket-granting
/// service.
pub const TGS_REP_TAG_NUMBER: u8 = 13;

/// Number of the application tag around an error message.
pub const KRB_ERROR_TAG_NUMBER: u8 = 30;

/// Number of the application tag around the decrypted part of a reply of the
/// authentication service.
pub const ENC_AS_REP_PART_TAG_NUMBER: u8 = 25;

/// Number of the application tag around the decrypted part of a reply of the
/// ticket-granting service.
pub const ENC_TGS_REP_PART_TAG_NUMBER: u8 = 26;

/// The byte that stands between the components of a name when it is written
/// as one string.
pub const NAME_SEPARATOR: u8 = 0x2f;

/// What a client can make of a reply.
#[derive(Debug, Clone, PartialEq, Eq)]
pub enum KerberosResponse {
    /// The authentication service granted a ticket.
    AsRep(KerberosAsRep),
    /// The ticket-granting service granted a ticket.
    TgsRep(KerberosTgsRep),
    /// The server asks for pre-authentication. This comes as an error message
    /// on the wire; it is a step of the exchange, not a failure.
    PaRep(KerberosPaRep),
    /// The server refused the request.
    ErrRep(KrbErrorCode),
}

/// A reply of the authentication service.
#[derive(Debug, Clone, PartialEq, Eq)]
pub struct KerberosAsRep {
    client_realm: String,
    client_name: String,
    enc_part: EncryptedData,
}

/// A reply of the ticket-granting service.
#[derive(Debug, Clone, PartialEq, Eq)]
pub struct KerberosTgsRep {}

/// What an error message says: a refusal, or a call for pre-authentication.
#[derive(Debug, Clone, PartialEq, Eq)]
pub enum KerberosErrRep {
    Refused(KrbErrorCode),
    Pa(KerberosPaRep),
}

/// A ticket. The encrypted part is for the service, not for the client.
#[derive(Debug, Clone, PartialEq, Eq)]
pub struct Ticket {
    tkt_vno: i8,
    service: Name,
    enc_part: EncryptedData,
}

/// What the encrypted part of a reply tells the client. Times are seconds
/// since the start of 1970.
#[derive(Clone, PartialEq, Eq)]
pub struct KdcReplyPart {
    key: SessionKey,
    nonce: u32,
    key_expiration: Option<u64>,
    flags: u32,
    auth_time: u64,
    start_time: Option<u64>,
    end_time: u64,
    renew_until: Option<u64>,
    server: Name,
}

/// A reply of the authentication service as plain values.
pub struct KerberosAsRepView {
    pub client_realm: Seq<char>,
    pub client_name: Seq<char>,
    pub kvno: Option<u32>,
    pub data: Seq<u8>,
}

/// What a client can make of a reply, as plain values.
pub enum KerberosResponseView {
    AsRep(KerberosAsRepView),
    TgsRep,
    PaRep(PreauthDataView),
    ErrRep(KrbErrorCode),
}

/// A ticket as plain values.
pub struct TicketView {
    pub tkt_vno: i8,
    pub service: NameView,
    pub kvno: Option<u32>,
    pub data: Seq<u8>,
}

/// The encrypted part of a reply as plain values.
pub struct KdcReplyPartView {
    pub key: Seq<u8>,
    pub nonce: u32,
    pub key_expiration: Option<u64>,
    pub flags: u32,
    pub auth_time: u64,
    pub start_time: Option<u64>,
    pub end_time: u64,
    pub renew_until: Option<u64>,
    pub server: NameView,
}

impl View for KerberosAsRep {
    type V = KerberosAsRepView;

    closed spec fn view(&self) -> KerberosAsRepView {
        match self.enc_part {
            EncryptedData::Aes256CtsHmacSha196 { kvno, data } => KerberosAsRepView {
                client_realm: self.client_realm@,
                client_name: self.client_name@,
                kvno,
                data: data@,
            },
        }
    }
}

impl View for KerberosErrRep {
    type V = KerberosResponseView;

    open spec fn view(&self) -> KerberosResponseView {
        match self {
            KerberosErrRep::Refused(code) => KerberosResponseView::ErrRep(*code),
            KerberosErrRep::Pa(rep) => KerberosResponseView::PaRep(rep@),
        }
    }
}

impl View for KerberosResponse {
    type V = KerberosResponseView;

    open spec fn view(&self) -> KerberosResponseView {
        match self {
            KerberosResponse::AsRep(rep) => KerberosResponseView::AsRep(rep@),
            KerberosResponse::TgsRep(_) => KerberosResponseView::TgsRep,
            KerberosResponse::PaRep(rep) => KerberosResponseView::PaRep(rep@),
            KerberosResponse::ErrRep(code) => KerberosResponseView::ErrRep(*code),
        }
    }
}

impl View for Ticket {
    type V = TicketView;

    closed spec fn view(&self) -> TicketView {
        match self.enc_part {
            EncryptedData::Aes256CtsHmacSha196 { kvno, data } => TicketView {
                tkt_vno: self.tkt_vno,
                service: self.service@,
                kvno,
                data: data@,
            },
        }
    }
}

impl View for KdcReplyPart {
    type V = KdcReplyPartView;

    closed spec fn view(&self) -> KdcReplyPartView {
        match self.key {
            SessionKey::Aes256CtsHmacSha196 { k } => KdcReplyPartView {
                key: k@,
                nonce: self.nonce,
                key_expiration: self.key_expiration,
                flags: self.flags,
                auth_time: self.auth_time,
                start_time: self.start_time,
                end_time: self.end_time,
                renew_until: self.renew_until,
                server: self.server@,
            },
        }
    }
}

/// The components of a name written as one string, with a stroke between
/// them.
pub open spec fn spec_join(parts: Seq<Seq<u8>>) -> Seq<u8>
    decreases parts.len(),
{
    if parts.len() == 0 {
        Seq::empty()
    } else if parts.len() == 1 {
        parts[0]
    } else {
        spec_join(parts.drop_last()) + seq![NAME_SEPARATOR] + parts.last()
    }
}

/// Whether the protocol version and the message type of a message are what
/// its envelope calls for, and the error where they are not.
pub open spec fn spec_check_envelope(pvno: u8, msg_type: u8, expected: u8) -> Option<KrbError> {
    if pvno != KRB_PVNO {
        Some(KrbError::InvalidPvno(pvno))
    } else if msg_type != expected {
        Some(KrbError::InvalidMessageType(msg_type as i32, expected as i32))
    } else {
        None
    }
}

/// What a reply of the authentication service tells the client.
pub open spec fn spec_as_rep(rep: KdcRepView) -> Result<KerberosAsRepView, KrbError> {
    match spec_check_envelope(rep.pvno, rep.msg_type, 11) {
        Some(e) => Err(e),
        None => if rep.enc_part.etype != EncryptionType::AES256_CTS_HMAC_SHA1_96.code() {
            Err(KrbError::UnsupportedEncryption)
        } else if !spec_is_ia5(rep.crealm) || !spec_is_ia5(spec_join(rep.cname.name_string)) {
            Err(KrbError::NameNotRepresentable)
        } else {
            Ok(
                KerberosAsRepView {
                    client_realm: decode_utf8(rep.crealm),
                    client_name: decode_utf8(spec_join(rep.cname.name_string)),
                    kvno: rep.enc_part.kvno,
                    data: rep.enc_part.cipher,
                },
            )
        },
    }
}

/// What a reply of the ticket-granting service tells the client.
pub open spec fn spec_tgs_rep(rep: KdcRepView) -> Result<(), KrbError> {
    match spec_check_envelope(rep.pvno, rep.msg_type, 13) {
        Some(e) => Err(e),
        None => Ok(()),
    }
}

/// What an error message tells the client. A call for pre-authentication is
/// read from the data of the message; every other code that the registry
/// knows is a refusal.
pub open spec fn spec_err_rep(rep: KrbErrorMsgView) -> Result<KerberosResponseView, KrbError> {
    match spec_check_envelope(rep.pvno, rep.msg_type, 30) {
        Some(e) => Err(e),
        None => if !KrbErrorCode::is_registered(rep.error_code as int) {
            Err(KrbError::UnknownErrorCode(rep.error_code))
        } else if rep.error_code == KrbErrorCode::KdcErrPreauthRequired.code() {
            match rep.error_data {
                None => Err(KrbError::MissingPaData),
                Some(data) => match PreAuthData::spec_decode_list(data) {
                    None => Err(KrbError::DerDecodePaData),
                    Some(items) => match spec_parse(items) {
                        Err(e) => Err(e),
                        Ok(preauth) => Ok(KerberosResponseView::PaRep(preauth)),
                    },
                },
            }
        } else {
            Ok(KerberosResponseView::ErrRep(KrbErrorCode::spec_from_code(rep.error_code as int)->0))
        },
    }
}

/// What bytes tell the client that are a reply of the authentication
/// service inside its tag.
pub open spec fn spec_decode_as_rep(bytes: Seq<u8>) -> Result<KerberosResponseView, KrbError> {
    match spec_exact(bytes, spec_application_tag(AS_REP_TAG_NUMBER)) {
        None => Err(KrbError::DerDecodeKdcRep),
        Some(inner) => match KdcRep::spec_decode(inner) {
            None => Err(KrbError::DerDecodeKdcRep),
            Some(rep) => match spec_as_rep(rep) {
                Err(e) => Err(e),
                Ok(as_rep) => Ok(KerberosResponseView::AsRep(as_rep)),
            },
        },
    }
}

/// What bytes tell the client that are a reply of the ticket-granting
/// service inside its tag.
pub open spec fn spec_decode_tgs_rep(bytes: Seq<u8>) -> Result<KerberosResponseView, KrbError> {
    match spec_exact(bytes, spec_application_tag(TGS_REP_TAG_NUMBER)) {
        None => Err(KrbError::DerDecodeKdcRep),
        Some(inner) => match KdcRep::spec_decode(inner) {
            None => Err(KrbError::DerDecodeKdcRep),
            Some(rep) => match spec_tgs_rep(rep) {
                Err(e) => Err(e),
                Ok(_) => Ok(KerberosResponseView::TgsRep),
            },
        },
    }
}

/// What bytes tell the client that are an error message inside its tag.
pub open spec fn spec_decode_error(bytes: Seq<u8>) -> Result<KerberosResponseView, KrbError> {
    match spec_exact(bytes, spec_application_tag(KRB_ERROR_TAG_NUMBER)) {
        None => Err(KrbError::DerDecodeKrbError),
        Some(inner) => match KrbErrorMsg::spec_decode(inner) {
            None => Err(KrbError::DerDecodeKrbError),
            Some(rep) => spec_err_rep(rep),
        },
    }
}

/// What the bytes of a reply tell the client. The first byte says which of
/// the three kinds of reply follows; any other first byte is an error.
pub open spec fn spec_decode_response(bytes: Seq<u8>) -> Result<KerberosResponseView, KrbError> {
    if bytes.len() == 0 {
        Err(KrbError::UnexpectedTag(0))
    } else if bytes[0] == spec_application_tag(AS_REP_TAG_NUMBER) {
        spec_decode_as_rep(bytes)
    } else if bytes[0] == spec_application_tag(TGS_REP_TAG_NUMBER) {
        spec_decode_tgs_rep(bytes)
    } else if bytes[0] == spec_application_tag(KRB_ERROR_TAG_NUMBER) {
        spec_decode_error(bytes)
    } else {
        Err(KrbError::UnexpectedTag(bytes[0]))
    }
}

/// The ticket that a wire ticket stands for.
pub open spec fn spec_ticket(tkt: TaggedTicketView) -> Result<TicketView, KrbError> {
    match spec_name_from_wire(tkt.sname, tkt.realm) {
        Err(e) => Err(e),
        Ok(service) => if tkt.enc_part.etype != EncryptionType::AES256_CTS_HMAC_SHA1_96.code() {
            Err(KrbError::UnsupportedEncryption)
        } else {
            Ok(
                TicketView {
                    tkt_vno: tkt.tkt_vno,
                    service,
                    kvno: tkt.enc_part.kvno,
                    data: tkt.enc_part.cipher,
                },
            )
        },
    }
}

/// What the decrypted part of a reply on the wire tells the client.
pub open spec fn spec_reply_part(part: EncKdcRepPartView) -> Result<KdcReplyPartView, KrbError> {
    if part.key.key_type != EncryptionType::AES256_CTS_HMAC_SHA1_96.code() {
        Err(KrbError::UnsupportedEncryption)
    } else if part.key.key_value.len() != AES_256_KEY_LEN {
        Err(KrbError::InvalidEncryptionKey)
    } else {
        match spec_name_from_wire(part.server_name, part.server_realm) {
            Err(e) => Err(e),
            Ok(server) => Ok(
                KdcReplyPartView {
                    key: part.key.key_value,
                    nonce: part.nonce,
                    key_expiration: part.key_expiration,
                    flags: part.flags,
                    auth_time: part.auth_time,
                    start_time: part.start_time,
                    end_time: part.end_time,
                    renew_until: part.renew_till,
                    server,
                },
            ),
        }
    }
}

/// What the plaintext of the encrypted part of a reply tells the client. The
/// tags of both kinds of reply are accepted.
pub open spec fn spec_reply_part_from_der(plaintext: Seq<u8>) -> Result<
    KdcReplyPartView,
    KrbError,
> {
    let inner = if plaintext.len() > 0 && plaintext[0] == spec_application_tag(
        ENC_TGS_REP_PART_TAG_NUMBER,
    ) {
        spec_exact(plaintext, spec_application_tag(ENC_TGS_REP_PART_TAG_NUMBER))
    } else {
        spec_exact(plaintext, spec_application_tag(ENC_AS_REP_PART_TAG_NUMBER))
    };
    match inner {
        None => Err(KrbError::DerDecodeEncKdcRepPart),
        Some(inner) => match EncKdcRepPart::spec_decode(inner) {
            None => Err(KrbError::DerDecodeEncKdcRepPart),
            Some(part) => spec_reply_part(part),
        },
    }
}

/// An error message that calls for pre-authentication is never read as a
/// refusal: it is read as the call that it is, or it is an error.
pub proof fn lemma_preauth_required_is_no_refusal(rep: KrbErrorMsgView)
    requires
        rep.error_code == KrbErrorCode::KdcErrPreauthRequired.code(),
    ensures
        !(spec_err_rep(rep) matches Ok(KerberosResponseView::ErrRep(_))),
        (rep.pvno == KRB_PVNO && rep.msg_type == 30 && rep.error_data is Some
            && PreAuthData::spec_decode_list(rep.error_data->0) is Some && spec_parse(
            PreAuthData::spec_decode_list(rep.error_data->0)->0,
        ) is Ok) ==> (spec_err_rep(rep) matches Ok(KerberosResponseView::PaRep(_))),
{
    assert(KrbErrorCode::KdcErrPreauthRequired.code() == rep.error_code as int);
}

/// The components of a name written as one string.
fn join(parts: &Vec<Vec<u8>>) -> (joined: Vec<u8>)
    ensures
        joined@ == spec_join(crate::asn1::der::spec_bytes_of(parts@)),
{
    let ghost all = crate::asn1::der::spec_bytes_of(parts@);
    let mut joined: Vec<u8> = Vec::new();
    let mut i: usize = 0;
    assert(all.take(0) =~= Seq::<Seq<u8>>::empty());
    while i < parts.len()
        invariant
            i <= parts.len(),
            all == crate::asn1::der::spec_bytes_of(parts@),
            joined@ == spec_join(all.take(i as int)),
        decreases parts.len() - i,
    {
        proof {
            assert(all.take(i + 1).drop_last() =~= all.take(i as int));
            assert(all.take(i + 1).last() == parts@[i as int]@);
            if i == 0 {
                assert(all.take(1)[0] == parts@[0]@);
                assert(Seq::<u8>::empty() + parts@[0]@ =~= parts@[0]@);
            }
        }
        if i > 0 {
            joined.push(NAME_SEPARATOR);
            assert(joined@ =~= spec_join(all.take(i as int)) + seq![NAME_SEPARATOR]);
        }
        let mut part = vstd::slice::slice_to_vec(parts[i].as_slice());
        joined.append(&mut part);
        i = i + 1;
    }
    assert(all.take(parts.len() as int) =~= all);
    joined
}

/// Checks the protocol version and the message type of a message.
fn check_envelope(pvno: u8, msg_type: u8, expected: KrbMessageType) -> (r: Result<(), KrbError>)
    ensures
        match r {
            Ok(()) => spec_check_envelope(pvno, msg_type, expected.code() as u8) is None,
            Err(e) => spec_check_envelope(pvno, msg_type, expected.code() as u8) == Some(e),
        },
{
    let wanted = expected.to_code();
    if pvno != KRB_PVNO {
        Err(KrbError::InvalidPvno(pvno))
    } else if msg_type != wanted {
        Err(KrbError::InvalidMessageType(msg_type as i32, wanted as i32))
    } else {
        Ok(())
    }
}

impl KerberosAsRep {
    /// What a reply of the authentication service tells the client. A reply
    /// with another protocol version or message type, or with an encryption
    /// type that this library does not implement, is an error.
    pub fn try_from(rep: KdcRep) -> (r: Result<Self, KrbError>)
        ensures
            match r {
                Ok(as_rep) => spec_as_rep(rep.deep_view()) == Ok::<KerberosAsRepView, KrbError>(
                    as_rep@,
                ),
                Err(e) => spec_as_rep(rep.deep_view()) == Err::<KerberosAsRepView, KrbError>(e),
            },
    {
        match check_envelope(rep.pvno, rep.msg_type, KrbMessageType::KrbAsRep) {
            Ok(()) => {},
            Err(e) => {
                return Err(e);
            },
        }
        let KdcRep { pvno: _, msg_type: _, padata: _, crealm, cname, ticket: _, enc_part } = rep;
        let enc_part = match EncryptedData::try_from(enc_part) {
            Ok(enc_part) => enc_part,
            Err(e) => {
                return Err(e);
            },
        };
        let client_realm = match wire_to_string(crealm.as_slice()) {
            Some(s) => s,
            None => {
                return Err(KrbError::NameNotRepresentable);
            },
        };
        let joined = join(&cname.name_string);
        let client_name = match wire_to_string(joined.as_slice()) {
            Some(s) => s,
            None => {
                return Err(KrbError::NameNotRepresentable);
            },
        };
        Ok(KerberosAsRep { client_realm, client_name, enc_part })
    }

    /// The realm of the client.
    pub fn client_realm(&self) -> (r: &str)
        ensures
            r@ == self@.client_realm,
    {
        self.client_realm.as_str()
    }

    /// The name of the client, its components joined by strokes.
    pub fn client_name(&self) -> (r: &str)
        ensures
            r@ == self@.client_name,
    {
        self.client_name.as_str()
    }

    /// The part of the reply that is encrypted for the client.
    pub fn enc_part(&self) -> (r: &EncryptedData)
        ensures
            r matches EncryptedData::Aes256CtsHmacSha196 { kvno, data } && *kvno == self@.kvno
                && data@ == self@.data,
    {
        &self.enc_part
    }
}

impl KerberosTgsRep {
    /// What a reply of the ticket-granting service tells the client.
    pub fn try_from(rep: KdcRep) -> (r: Result<Self, KrbError>)
        ensures
            match r {
                Ok(_) => spec_tgs_rep(rep.deep_view()) is Ok,
                Err(e) => spec_tgs_rep(rep.deep_view()) == Err::<(), KrbError>(e),
            },
    {
        match check_envelope(rep.pvno, rep.msg_type, KrbMessageType::KrbTgsRep) {
            Ok(()) => Ok(KerberosTgsRep {  }),
            Err(e) => Err(e),
        }
    }
}

impl KerberosErrRep {
    /// What an error message tells the client.
    ///
    /// The code that calls for pre-authentication is no refusal: the data of
    /// the message then says what the server accepts, and a message without
    /// such data is an error. A code that the registry does not know is an
    /// error and is never taken for another.
    pub fn try_from(rep: KrbErrorMsg) -> (r: Result<Self, KrbError>)
        ensures
            match r {
                Ok(err_rep) => spec_err_rep(rep.deep_view()) == Ok::<
                    KerberosResponseView,
                    KrbError,
                >(err_rep@),
                Err(e) => spec_err_rep(rep.deep_view()) == Err::<KerberosResponseView, KrbError>(
                    e,
                ),
            },
            r matches Ok(KerberosErrRep::Refused(code)) ==> code != KrbErrorCode::KdcErrPreauthRequired,
    {
        match check_envelope(rep.pvno, rep.msg_type, KrbMessageType::KrbError) {
            Ok(()) => {},
            Err(e) => {
                return Err(e);
            },
        }
        let error_code = match KrbErrorCode::from_code(rep.error_code) {
            Some(code) => code,
            None => {
                return Err(KrbError::UnknownErrorCode(rep.error_code));
            },
        };
        match error_code {
            KrbErrorCode::KdcErrPreauthRequired => {
                let edata = match &rep.error_data {
                    Some(edata) => edata,
                    None => {
                        return Err(KrbError::MissingPaData);
                    },
                };
                let pavec = match PreAuthData::decode_list(edata.as_slice()) {
                    Some(pavec) => pavec,
                    None => {
                        return Err(KrbError::DerDecodePaData);
                    },
                };
                match KerberosPaRep::try_from(pavec) {
                    Ok(pa_rep) => Ok(KerberosErrRep::Pa(pa_rep)),
                    Err(e) => Err(e),
                }
            },
            err_code => Ok(KerberosErrRep::Refused(err_code)),
        }
    }
}

impl KerberosResponse {
    /// Reads a reply of the authentication service inside its tag.
    fn decode_as_rep(bytes: &[u8]) -> (r: Result<Self, KrbError>)
        ensures
            match r {
                Ok(response) => spec_decode_as_rep(bytes@) == Ok::<KerberosResponseView, KrbError>(
                    response@,
                ) && response is AsRep,
                Err(e) => spec_decode_as_rep(bytes@) == Err::<KerberosResponseView, KrbError>(e),
            },
    {
        let inner = match read_exact(bytes, application_tag(AS_REP_TAG_NUMBER)) {
            Some(inner) => inner,
            None => {
                return Err(KrbError::DerDecodeKdcRep);
            },
        };
        let rep = match KdcRep::decode(inner) {
            Some(rep) => rep,
            None => {
                return Err(KrbError::DerDecodeKdcRep);
            },
        };
        match KerberosAsRep::try_from(rep) {
            Ok(as_rep) => Ok(KerberosResponse::AsRep(as_rep)),
            Err(e) => Err(e),
        }
    }

    /// Reads a reply of the ticket-granting service inside its tag.
    fn decode_tgs_rep(bytes: &[u8]) -> (r: Result<Self, KrbError>)
        ensures
            match r {
                Ok(response) => spec_decode_tgs_rep(bytes@) == Ok::<
                    KerberosResponseView,
                    KrbError,
                >(response@) && response is TgsRep,
                Err(e) => spec_decode_tgs_rep(bytes@) == Err::<KerberosResponseView, KrbError>(e),
            },
    {
        let inner = match read_exact(bytes, application_tag(TGS_REP_TAG_NUMBER)) {
            Some(inner) => inner,
            None => {
                return Err(KrbError::DerDecodeKdcRep);
            },
        };
        let rep = match KdcRep::decode(inner) {
            Some(rep) => rep,
            None => {
                return Err(KrbError::DerDecodeKdcRep);
            },
        };
        match KerberosTgsRep::try_from(rep) {
            Ok(tgs_rep) => Ok(KerberosResponse::TgsRep(tgs_rep)),
            Err(e) => Err(e),
        }
    }

    /// Reads an error message inside its tag.
    fn decode_error(bytes: &[u8]) -> (r: Result<Self, KrbError>)
        ensures
            match r {
                Ok(response) => spec_decode_error(bytes@) == Ok::<KerberosResponseView, KrbError>(
                    response@,
                ),
                Err(e) => spec_decode_error(bytes@) == Err::<KerberosResponseView, KrbError>(e),
            },
            r matches Ok(KerberosResponse::ErrRep(code)) ==> code
                != KrbErrorCode::KdcErrPreauthRequired,
            r matches Ok(response) ==> response is ErrRep || response is PaRep,
    {
        let inner = match read_exact(bytes, application_tag(KRB_ERROR_TAG_NUMBER)) {
            Some(inner) => inner,
            None => {
                return Err(KrbError::DerDecodeKrbError);
            },
        };
        let rep = match KrbErrorMsg::decode(inner) {
            Some(rep) => rep,
            None => {
                return Err(KrbError::DerDecodeKrbError);
            },
        };
        match KerberosErrRep::try_from(rep) {
            Ok(KerberosErrRep::Pa(pa_rep)) => Ok(KerberosResponse::PaRep(pa_rep)),
            Ok(KerberosErrRep::Refused(code)) => Ok(KerberosResponse::ErrRep(code)),
            Err(e) => Err(e),
        }
    }

    /// Reads a reply from its bytes.
    ///
    /// The first byte says what follows: a reply of the authentication
    /// service, a reply of the ticket-granting service, or an error message.
    /// Any other first byte is an error. An error message that calls for
    /// pre-authentication is read as that call, never as a refusal.
    pub fn decode(bytes: &[u8]) -> (r: Result<Self, KrbError>)
        ensures
            match r {
                Ok(response) => spec_decode_response(bytes@) == Ok::<
                    KerberosResponseView,
                    KrbError,
                >(response@),
                Err(e) => spec_decode_response(bytes@) == Err::<KerberosResponseView, KrbError>(
                    e,
                ),
            },
            r matches Ok(KerberosResponse::ErrRep(code)) ==> code
                != KrbErrorCode::KdcErrPreauthRequired,
    {
        if bytes.len() == 0 {
            return Err(KrbError::UnexpectedTag(0));
        }
        let tag: u8 = bytes[0];
        if tag == application_tag(AS_REP_TAG_NUMBER) {
            KerberosResponse::decode_as_rep(bytes)
        } else if tag == application_tag(TGS_REP_TAG_NUMBER) {
            KerberosResponse::decode_tgs_rep(bytes)
        } else if tag == application_tag(KRB_ERROR_TAG_NUMBER) {
            KerberosResponse::decode_error(bytes)
        } else {
            Err(KrbError::UnexpectedTag(tag))
        }
    }
}

impl Ticket {
    /// The ticket that a wire ticket stands for.
    pub fn try_from(tkt: TaggedTicket) -> (r: Result<Self, KrbError>)
        ensures
            match r {
                Ok(ticket) => spec_ticket(tkt.deep_view()) == Ok::<TicketView, KrbError>(ticket@),
                Err(e) => spec_ticket(tkt.deep_view()) == Err::<TicketView, KrbError>(e),
            },
    {
        let service = match Name::try_from(&tkt.sname, tkt.realm.as_slice()) {
            Ok(service) => service,
            Err(e) => {
                return Err(e);
            },
        };
        let TaggedTicket { tkt_vno, realm: _, sname: _, enc_part } = tkt;
        let enc_part = match EncryptedData::try_from(enc_part) {
            Ok(enc_part) => enc_part,
            Err(e) => {
                return Err(e);
            },
        };
        Ok(Ticket { tkt_vno, service, enc_part })
    }

    /// The ticket as the wire carries it. The name of the service carries the
    /// realm as its last component. A name with a character outside the
    /// seven-bit alphabet is an error.
    pub fn try_into(self) -> (r: Result<TaggedTicket, KrbError>)
        ensures
            match r {
                Ok(tkt) => {
                    &&& self@.service.representable()
                    &&& tkt.deep_view() == (TaggedTicketView {
                        tkt_vno: self@.tkt_vno,
                        realm: encode_utf8(self@.service.realm()),
                        sname: self@.service.wire_name_with_realm(),
                        enc_part: KdcEncryptedDataView {
                            etype: EncryptionType::AES256_CTS_HMAC_SHA1_96.code() as i32,
                            kvno: self@.kvno,
                            cipher: self@.data,
                        },
                    })
                },
                Err(e) => e == KrbError::NameNotRepresentable && !self@.service.representable(),
            },
    {
        let sname = match self.service.try_into_principal_name() {
            Ok(sname) => sname,
            Err(e) => {
                return Err(e);
            },
        };
        let realm = match self.service.try_into_realm() {
            Ok(realm) => realm,
            Err(e) => {
                return Err(e);
            },
        };
        let Ticket { tkt_vno, service: _, enc_part } = self;
        let enc_part = match enc_part.try_into() {
            Ok(enc_part) => enc_part,
            Err(e) => {
                return Err(e);
            },
        };
        Ok(TaggedTicket { tkt_vno, realm, sname, enc_part })
    }

    /// The version of the ticket format.
    pub fn tkt_vno(&self) -> (r: i8)
        ensures
            r == self@.tkt_vno,
    {
        self.tkt_vno
    }

    /// The service that the ticket is for.
    pub fn service(&self) -> (r: &Name)
        ensures
            r@ == self@.service,
    {
        &self.service
    }
}

impl KdcReplyPart {
    /// What the decrypted part of a reply on the wire tells the client. A
    /// session key of another encryption type or of the wrong length is an
    /// error, and so is a name of the service that cannot be read.
    pub fn try_from(part: EncKdcRepPart) -> (r: Result<Self, KrbError>)
        ensures
            match r {
                Ok(reply) => spec_reply_part(part.deep_view()) == Ok::<KdcReplyPartView, KrbError>(
                    reply@,
                ),
                Err(e) => spec_reply_part(part.deep_view()) == Err::<KdcReplyPartView, KrbError>(
                    e,
                ),
            },
    {
        let server = Name::try_from(&part.server_name, part.server_realm.as_slice());
        let EncKdcRepPart {
            key,
            last_req: _,
            nonce,
            key_expiration,
            flags,
            auth_time,
            start_time,
            end_time,
            renew_till,
            server_realm: _,
            server_name: _,
            client_addresses: _,
            encrypted_pa_data: _,
        } = part;
        let key = match SessionKey::try_from(key) {
            Ok(key) => key,
            Err(e) => {
                return Err(e);
            },
        };
        let server = match server {
            Ok(server) => server,
            Err(e) => {
                return Err(e);
            },
        };
        Ok(
            KdcReplyPart {
                key,
                nonce,
                key_expiration,
                flags,
                auth_time,
                start_time,
                end_time,
                renew_until: renew_till,
                server,
            },
        )
    }

    /// The session key.
    pub fn key(&self) -> (r: &SessionKey)
        ensures
            r matches SessionKey::Aes256CtsHmacSha196 { k } && k@ == self@.key,
    {
        &self.key
    }

    /// The nonce of the request that the reply answers. The caller has to
    /// hold it against the nonce that it sent.
    pub fn nonce(&self) -> (r: u32)
        ensures
            r == self@.nonce,
    {
        self.nonce
    }

    /// When the client's key expires.
    pub fn key_expiration(&self) -> (r: Option<u64>)
        ensures
            r == self@.key_expiration,
    {
        self.key_expiration
    }

    /// The flags of the ticket.
    pub fn flags(&self) -> (r: u32)
        ensures
            r == self@.flags,
    {
        self.flags
    }

    /// When the client authenticated.
    pub fn auth_time(&self) -> (r: u64)
        ensures
            r == self@.auth_time,
    {
        self.auth_time
    }

    /// From when the ticket is valid.
    pub fn start_time(&self) -> (r: Option<u64>)
        ensures
            r == self@.start_time,
    {
        self.start_time
    }

    /// Until when the ticket is valid.
    pub fn end_time(&self) -> (r: u64)
        ensures
            r == self@.end_time,
    {
        self.end_time
    }

    /// Until when the ticket can be renewed.
    pub fn renew_until(&self) -> (r: Option<u64>)
        ensures
            r == self@.renew_until,
    {
        self.renew_until
    }

    /// The service that the ticket is for.
    pub fn server(&self) -> (r: &Name)
        ensures
            r@ == self@.server,
    {
        &self.server
    }
}

impl EncryptedData {
    /// Decrypts the encrypted part of a reply for the key usage of replies
    /// and reads what it tells the client. The tags of both kinds of reply
    /// are accepted around it.
    pub fn decrypt_enc_kdc_rep(&self, base_key: &DerivedKey) -> (r: Result<KdcReplyPart, KrbError>)
        ensures
            match self {
                EncryptedData::Aes256CtsHmacSha196 { data, .. } => match spec_decrypt(
                    base_key@.key,
                    data@,
                    KEY_USAGE_KDC_REP_ENC_PART,
                ) {
                    None => r == Err::<KdcReplyPart, KrbError>(KrbError::DecryptionFailed),
                    Some(plaintext) => match r {
                        Ok(reply) => spec_reply_part_from_der(plaintext) == Ok::<
                            KdcReplyPartView,
                            KrbError,
                        >(reply@),
                        Err(e) => spec_reply_part_from_der(plaintext) == Err::<
                            KdcReplyPartView,
                            KrbError,
                        >(e),
                    },
                },
            },
    {
        let key = base_key.base_key();
        let plaintext = match self.decrypt_data(&key, KEY_USAGE_KDC_REP_ENC_PART) {
            Ok(plaintext) => plaintext,
            Err(e) => {
                return Err(e);
            },
        };
        let tag = if plaintext.len() > 0 && plaintext[0] == application_tag(
            ENC_TGS_REP_PART_TAG_NUMBER,
        ) {
            application_tag(ENC_TGS_REP_PART_TAG_NUMBER)
        } else {
            application_tag(ENC_AS_REP_PART_TAG_NUMBER)
        };
        let inner = match read_exact(plaintext.as_slice(), tag) {
            Some(inner) => inner,
            None => {
                return Err(KrbError::DerDecodeEncKdcRepPart);
            },
        };
        let part = match EncKdcRepPart::decode(inner) {
            Some(part) => part,
            None => {
                return Err(KrbError::DerDecodeEncKdcRepPart);
            },
        };
        KdcReplyPart::try_from(part)
    }

    /// Decrypts an encrypted timestamp for the key usage of
    /// pre-authentication: the seconds since the start of 1970 and the
    /// microseconds past the second, which are zero where none were sent.
    pub fn decrypt_pa_enc_timestamp(&self, base_key: &DerivedKey) -> (r: Result<
        (u64, u32),
        KrbError,
    >)
        ensures
            match self {
                EncryptedData::Aes256CtsHmacSha196 { data, .. } => match spec_decrypt(
                    base_key@.key,
                    data@,
                    KEY_USAGE_PA_ENC_TIMESTAMP,
                ) {
                    None => r == Err::<(u64, u32), KrbError>(KrbError::DecryptionFailed),
                    Some(plaintext) => match PaEncTsEnc::spec_decode(plaintext) {
                        None => r == Err::<(u64, u32), KrbError>(KrbError::DerDecodePaEncTsEnc),
                        Some(ts) => r == Ok::<(u64, u32), KrbError>(
                            (
                                ts.patimestamp,
                                match ts.pausec {
                                    Some(usec) => usec,
                                    None => 0u32,
                                },
                            ),
                        ),
                    },
                },
            },
    {
        let key = base_key.base_key();
        let plaintext = match self.decrypt_data(&key, KEY_USAGE_PA_ENC_TIMESTAMP) {
            Ok(plaintext) => plaintext,
            Err(e) => {
                return Err(e);
            },
        };
        match PaEncTsEnc::decode(plaintext.as_slice()) {
            Some(ts) => Ok(
                (
                    ts.patimestamp,
                    match ts.pausec {
                        Some(usec) => usec,
                        None => 0,
                    },
                ),
            ),
            None => Err(KrbError::DerDecodePaEncTsEnc),
        }
    }
}

} // verus!
