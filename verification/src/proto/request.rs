//! Requests to the authentication service.

use crate::asn1::der::{
    application_tag, opt_view, read_exact, spec_application_tag, spec_element, spec_exact,
    write_element,
};
use crate::asn1::kdc_req::{KdcReq, KdcReqBody, KdcReqBodyView, KdcReqView};
use crate::asn1::pa_data::{PreAuthData, PreAuthDataView};
use crate::asn1::principal_name::{PrincipalName, PrincipalNameView};
use crate::constants::{EncryptionType, KrbMessageType, KRB_PVNO};
use crate::error::KrbError;
use crate::proto::name::{
    spec_representable, string_to_wire, wire_to_string, NT_PRINCIPAL, NT_SRV_INST,
};
use rand::Rng;
use vstd::prelude::*;
use vstd::utf8::{decode_utf8, encode_utf8};

verus! {

/// Number of the application tag around a request to the authentication
/// service.
pub const AS_REQ_TAG_NUMBER: u8 = 10;

/// A request that a client sends.
#[derive(Debug, Clone, PartialEq, Eq)]
pub enum KerberosRequest {
    AsReq(KerberosAsReq),
}

/// What a request to the authentication service is made from, before it has
/// its nonce.
#[derive(Debug, Clone, PartialEq, Eq)]
pub struct KerberosAsReqBuilder {
    client_name: String,
    service_name: String,
    realm: String,
    from: Option<u64>,
    until: u64,
    renew: Option<u64>,
}

/// A request to the authentication service. Times are seconds since the
/// start of 1970.
#[derive(Debug, Clone, PartialEq, Eq)]
pub struct KerberosAsReq {
    nonce: u32,
    client_name: String,
    service_name: String,
    realm: String,
    from: Option<u64>,
    until: u64,
    renew: Option<u64>,
    preauth: Option<Vec<PreAuthData>>,
}

/// A request to the authentication service as plain values.
pub struct KerberosAsReqView {
    pub nonce: u32,
    pub client_name: Seq<char>,
    pub service_name: Seq<char>,
    pub realm: Seq<char>,
    pub from: Option<u64>,
    pub until: u64,
    pub renew: Option<u64>,
    pub preauth: Option<Seq<PreAuthDataView>>,
}

impl View for KerberosAsReq {
    type V = KerberosAsReqView;

    closed spec fn view(&self) -> KerberosAsReqView {
        KerberosAsReqView {
            nonce: self.nonce,
            client_name: self.client_name@,
            service_name: self.service_name@,
            realm: self.realm@,
            from: self.from,
            until: self.until,
            renew: self.renew,
            preauth: self.preauth.deep_view(),
        }
    }
}

impl View for KerberosAsReqBuilder {
    type V = KerberosAsReqView;

    /// The request that is built, but for its nonce, which reads zero here.
    closed spec fn view(&self) -> KerberosAsReqView {
        KerberosAsReqView {
            nonce: 0,
            client_name: self.client_name@,
            service_name: self.service_name@,
            realm: self.realm@,
            from: self.from,
            until: self.until,
            renew: self.renew,
            preauth: None,
        }
    }
}

impl View for KerberosRequest {
    type V = KerberosAsReqView;

    open spec fn view(&self) -> KerberosAsReqView {
        match self {
            KerberosRequest::AsReq(req) => req@,
        }
    }
}

/// The encryption types that a request offers: those that this library
/// implements, and no other.
pub open spec fn spec_offered_etypes() -> Seq<i32> {
    seq![18i32]
}

/// The request as the wire carries it, where its names can be carried: the
/// client by its name, the service by its name and the realm.
pub open spec fn spec_to_asn(req: KerberosAsReqView) -> Option<KdcReqView> {
    if spec_representable(req.client_name) && spec_representable(req.service_name)
        && spec_representable(req.realm) {
        Some(
            KdcReqView {
                pvno: KRB_PVNO,
                msg_type: 10u8,
                padata: req.preauth,
                req_body: KdcReqBodyView {
                    kdc_options: 0,
                    cname: Some(
                        PrincipalNameView {
                            name_type: NT_PRINCIPAL,
                            name_string: seq![encode_utf8(req.client_name)],
                        },
                    ),
                    realm: encode_utf8(req.realm),
                    sname: Some(
                        PrincipalNameView {
                            name_type: NT_SRV_INST,
                            name_string: seq![
                                encode_utf8(req.service_name),
                                encode_utf8(req.realm),
                            ],
                        },
                    ),
                    from: req.from,
                    till: req.until,
                    rtime: req.renew,
                    nonce: req.nonce,
                    etype: spec_offered_etypes(),
                    addresses: None,
                    enc_authorization_data: None,
                    additional_tickets: None,
                },
            },
        )
    } else {
        None
    }
}

/// The bytes of a request, where it can be written.
pub open spec fn spec_to_der(req: KerberosAsReqView) -> Option<Seq<u8>> {
    match spec_to_asn(req) {
        Some(asn) => match KdcReq::spec_encode(asn) {
            Some(inner) => spec_element(spec_application_tag(AS_REQ_TAG_NUMBER), inner),
            None => None,
        },
        None => None,
    }
}

/// The request that a wire request stands for.
pub open spec fn spec_from_asn(asn: KdcReqView) -> Result<KerberosAsReqView, KrbError> {
    if asn.pvno != KRB_PVNO {
        Err(KrbError::InvalidPvno(asn.pvno))
    } else if asn.msg_type != 10u8 {
        Err(KrbError::InvalidMessageType(asn.msg_type as i32, 10))
    } else if asn.req_body.cname is None || asn.req_body.sname is None
        || asn.req_body.cname->0.name_string.len() < 1 || asn.req_body.sname->0.name_string.len()
        < 1 {
        Err(KrbError::NameComponentsMissing)
    } else if !crate::asn1::der::spec_is_ia5(asn.req_body.cname->0.name_string[0])
        || !crate::asn1::der::spec_is_ia5(asn.req_body.sname->0.name_string[0])
        || !crate::asn1::der::spec_is_ia5(asn.req_body.realm) {
        Err(KrbError::NameNotRepresentable)
    } else {
        Ok(
            KerberosAsReqView {
                nonce: asn.req_body.nonce,
                client_name: decode_utf8(asn.req_body.cname->0.name_string[0]),
                service_name: decode_utf8(asn.req_body.sname->0.name_string[0]),
                realm: decode_utf8(asn.req_body.realm),
                from: asn.req_body.from,
                until: asn.req_body.till,
                renew: asn.req_body.rtime,
                preauth: asn.padata,
            },
        )
    }
}

/// The request that bytes are, if they are one.
pub open spec fn spec_from_der(bytes: Seq<u8>) -> Result<KerberosAsReqView, KrbError> {
    match spec_exact(bytes, spec_application_tag(AS_REQ_TAG_NUMBER)) {
        None => Err(KrbError::DerDecodeKdcReq),
        Some(inner) => match KdcReq::spec_decode(inner) {
            None => Err(KrbError::DerDecodeKdcReq),
            Some(asn) => spec_from_asn(asn),
        },
    }
}

/// `rand::thread_rng` and `gen`: a number that nobody can predict. Nothing is
/// promised of it.
#[verifier::external_body]
fn random_nonce() -> (nonce: u32) {
    rand::thread_rng().gen()
}

impl KerberosAsReqBuilder {
    /// The request, with a nonce that nobody can predict.
    pub fn build(self) -> (r: KerberosRequest)
        ensures
            r@ == (KerberosAsReqView { nonce: r@.nonce, ..self@ }),
    {
        let nonce = random_nonce();
        self.build_with_nonce(nonce)
    }

    /// The request with the nonce given.
    pub fn build_with_nonce(self, nonce: u32) -> (r: KerberosRequest)
        ensures
            r@ == (KerberosAsReqView { nonce, ..self@ }),
    {
        let KerberosAsReqBuilder { client_name, service_name, realm, from, until, renew } = self;
        KerberosRequest::AsReq(
            KerberosAsReq {
                nonce,
                client_name,
                service_name,
                realm,
                from,
                until,
                renew,
                preauth: None,
            },
        )
    }
}

impl KerberosAsReq {
    /// The nonce that the reply has to repeat.
    pub fn nonce(&self) -> (r: u32)
        ensures
            r == self@.nonce,
    {
        self.nonce
    }

    /// The name of the client.
    pub fn client_name(&self) -> (r: &str)
        ensures
            r@ == self@.client_name,
    {
        self.client_name.as_str()
    }

    /// The name of the service.
    pub fn service_name(&self) -> (r: &str)
        ensures
            r@ == self@.service_name,
    {
        self.service_name.as_str()
    }

    /// The realm of the client and the service.
    pub fn realm(&self) -> (r: &str)
        ensures
            r@ == self@.realm,
    {
        self.realm.as_str()
    }

    /// From when the ticket is to be valid.
    pub fn from(&self) -> (r: Option<u64>)
        ensures
            r == self@.from,
    {
        self.from
    }

    /// Until when the ticket is to be valid.
    pub fn until(&self) -> (r: u64)
        ensures
            r == self@.until,
    {
        self.until
    }

    /// Until when the ticket is to be renewable.
    pub fn renew(&self) -> (r: Option<u64>)
        ensures
            r == self@.renew,
    {
        self.renew
    }

    /// The pre-authentication items of the request.
    pub fn preauth(&self) -> (r: Option<&Vec<PreAuthData>>)
        ensures
            match r {
                Some(items) => self@.preauth == Some(items.deep_view()),
                None => self@.preauth is None,
            },
    {
        self.preauth.as_ref()
    }

    /// The request as the wire carries it. It offers the encryption types that
    /// this library implements and no other. A name with a character outside
    /// the seven-bit alphabet is an error.
    pub fn to_asn(&self) -> (r: Result<KdcReq, KrbError>)
        ensures
            match r {
                Ok(asn) => spec_to_asn(self@) == Some(asn.deep_view()),
                Err(e) => e == KrbError::DerEncodeKdcReq && spec_to_asn(self@) is None,
            },
    {
        let client = match string_to_wire(self.client_name.as_str()) {
            Some(bytes) => bytes,
            None => {
                return Err(KrbError::DerEncodeKdcReq);
            },
        };
        let service = match string_to_wire(self.service_name.as_str()) {
            Some(bytes) => bytes,
            None => {
                return Err(KrbError::DerEncodeKdcReq);
            },
        };
        let realm = match string_to_wire(self.realm.as_str()) {
            Some(bytes) => bytes,
            None => {
                return Err(KrbError::DerEncodeKdcReq);
            },
        };
        let realm_again = vstd::slice::slice_to_vec(realm.as_slice());
        let mut cname_string: Vec<Vec<u8>> = Vec::new();
        cname_string.push(client);
        let mut sname_string: Vec<Vec<u8>> = Vec::new();
        sname_string.push(service);
        sname_string.push(realm_again);
        let mut etype: Vec<i32> = Vec::new();
        etype.push(EncryptionType::AES256_CTS_HMAC_SHA1_96.to_code());
        let padata = match &self.preauth {
            Some(items) => Some(copy_items(items)),
            None => None,
        };
        let cname = PrincipalName { name_type: NT_PRINCIPAL, name_string: cname_string };
        let sname = PrincipalName { name_type: NT_SRV_INST, name_string: sname_string };
        let asn = KdcReq {
            pvno: KRB_PVNO,
            msg_type: KrbMessageType::KrbAsReq.to_code(),
            padata,
            req_body: KdcReqBody {
                kdc_options: 0,
                cname: Some(cname),
                realm,
                sname: Some(sname),
                from: self.from,
                till: self.until,
                rtime: self.renew,
                nonce: self.nonce,
                etype,
                addresses: None,
                enc_authorization_data: None,
                additional_tickets: None,
            },
        };
        proof {
            let want = spec_to_asn(self@)->0;
            assert(asn.deep_view().req_body.cname->0.name_string
                =~= want.req_body.cname->0.name_string);
            assert(asn.deep_view().req_body.sname->0.name_string
                =~= want.req_body.sname->0.name_string);
            assert(asn.deep_view().req_body.etype =~= want.req_body.etype);
        }
        Ok(asn)
    }
}

/// A copy of a run of pre-authentication items.
fn copy_items(items: &Vec<PreAuthData>) -> (copy: Vec<PreAuthData>)
    ensures
        copy.deep_view() == items.deep_view(),
{
    let mut copy: Vec<PreAuthData> = Vec::new();
    let mut i: usize = 0;
    while i < items.len()
        invariant
            i <= items.len(),
            copy.len() == i,
            forall|j: int| 0 <= j < i ==> (#[trigger] copy@[j]).deep_view() == items@[j].deep_view(),
        decreases items.len() - i,
    {
        copy.push(
            PreAuthData {
                pa_type: items[i].pa_type,
                pa_value: vstd::slice::slice_to_vec(items[i].pa_value.as_slice()),
            },
        );
        i = i + 1;
    }
    assert(copy.deep_view() =~= items.deep_view());
    copy
}

impl KerberosRequest {
    /// What a request to the authentication service is made from: the client
    /// `client_name` of `realm` asks for a ticket for `service_name`, valid
    /// from `from` until `until` and renewable until `renew`.
    pub fn build_asreq(
        client_name: String,
        service_name: String,
        realm: String,
        from: Option<u64>,
        until: u64,
        renew: Option<u64>,
    ) -> (r: KerberosAsReqBuilder)
        ensures
            r@ == (KerberosAsReqView {
                nonce: 0,
                client_name: client_name@,
                service_name: service_name@,
                realm: realm@,
                from,
                until,
                renew,
                preauth: None,
            }),
    {
        KerberosAsReqBuilder { client_name, service_name, realm, from, until, renew }
    }

    /// The same request with the pre-authentication items given. The request
    /// itself stays as it is.
    pub fn add_preauth(&self, preauth: Vec<PreAuthData>) -> (r: KerberosRequest)
        ensures
            r@ == (KerberosAsReqView { preauth: Some(preauth.deep_view()), ..self@ }),
    {
        match self {
            KerberosRequest::AsReq(req) => KerberosRequest::AsReq(
                KerberosAsReq {
                    nonce: req.nonce,
                    client_name: req.client_name.clone(),
                    service_name: req.service_name.clone(),
                    realm: req.realm.clone(),
                    from: req.from,
                    until: req.until,
                    renew: req.renew,
                    preauth: Some(preauth),
                },
            ),
        }
    }

    /// The bytes of the request. A request that cannot be written, for
    /// instance because a name holds a character outside the seven-bit
    /// alphabet, is an error.
    pub fn to_der(&self) -> (r: Result<Vec<u8>, KrbError>)
        ensures
            match r {
                Ok(bytes) => spec_to_der(self@) == Some(bytes@),
                Err(e) => e == KrbError::DerEncodeKdcReq && spec_to_der(self@) is None,
            },
    {
        match self {
            KerberosRequest::AsReq(req) => {
                let asn = match req.to_asn() {
                    Ok(asn) => asn,
                    Err(e) => {
                        return Err(e);
                    },
                };
                let inner = match asn.encode() {
                    Some(inner) => inner,
                    None => {
                        return Err(KrbError::DerEncodeKdcReq);
                    },
                };
                match write_element(application_tag(AS_REQ_TAG_NUMBER), inner.as_slice()) {
                    Some(bytes) => Ok(bytes),
                    None => Err(KrbError::DerEncodeKdcReq),
                }
            },
        }
    }

    /// Reads a request from its bytes.
    pub fn from_der(der: &[u8]) -> (r: Result<Self, KrbError>)
        ensures
            match r {
                Ok(req) => spec_from_der(der@) == Ok::<KerberosAsReqView, KrbError>(req@),
                Err(e) => spec_from_der(der@) == Err::<KerberosAsReqView, KrbError>(e),
            },
    {
        let inner = match read_exact(der, application_tag(AS_REQ_TAG_NUMBER)) {
            Some(inner) => inner,
            None => {
                return Err(KrbError::DerDecodeKdcReq);
            },
        };
        let asn = match KdcReq::decode(inner) {
            Some(asn) => asn,
            None => {
                return Err(KrbError::DerDecodeKdcReq);
            },
        };
        if asn.pvno != KRB_PVNO {
            return Err(KrbError::InvalidPvno(asn.pvno));
        }
        if asn.msg_type != KrbMessageType::KrbAsReq.to_code() {
            return Err(KrbError::InvalidMessageType(asn.msg_type as i32, 10));
        }
        let KdcReq { pvno: _, msg_type: _, padata, req_body } = asn;
        let (cname, sname) = match (&req_body.cname, &req_body.sname) {
            (Some(cname), Some(sname)) => (cname, sname),
            _ => {
                return Err(KrbError::NameComponentsMissing);
            },
        };
        if cname.name_string.len() < 1 || sname.name_string.len() < 1 {
            return Err(KrbError::NameComponentsMissing);
        }
        assert(cname.deep_view().name_string[0] == cname.name_string@[0]@);
        assert(sname.deep_view().name_string[0] == sname.name_string@[0]@);
        let client_name = match wire_to_string(cname.name_string[0].as_slice()) {
            Some(s) => s,
            None => {
                return Err(KrbError::NameNotRepresentable);
            },
        };
        let service_name = match wire_to_string(sname.name_string[0].as_slice()) {
            Some(s) => s,
            None => {
                return Err(KrbError::NameNotRepresentable);
            },
        };
        let realm = match wire_to_string(req_body.realm.as_slice()) {
            Some(s) => s,
            None => {
                return Err(KrbError::NameNotRepresentable);
            },
        };
        Ok(
            KerberosRequest::AsReq(
                KerberosAsReq {
                    nonce: req_body.nonce,
                    client_name,
                    service_name,
                    realm,
                    from: req_body.from,
                    until: req_body.till,
                    renew: req_body.rtime,
                    preauth: padata,
                },
            ),
        )
    }
}

} // verus!
