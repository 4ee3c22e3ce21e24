//! Keys, encrypted payloads, and the hints from which a client derives its
//! key.

use crate::asn1::der::{be32, spec_be32};
use crate::asn1::encrypted_data::{
    EncryptionKey, EncryptionKeyView, KdcEncryptedData, KdcEncryptedDataView,
};
use crate::asn1::pa_data::{PaEncTsEnc, PaEncTsEncView};
use crate::constants::{
    EncryptionType, AES_256_KEY_LEN, AES_BLOCK_LEN, KEY_USAGE_PA_ENC_TIMESTAMP,
    RFC_PKBDF2_SHA1_ITER,
};
use crate::crypto::primitives::key_from_slice;
use crate::crypto::{
    decrypt_aes256_cts_hmac_sha1_96, derive_key_aes256_cts_hmac_sha1_96,
    encrypt_aes256_cts_hmac_sha1_96, encrypt_with_confounder, spec_decrypt,
    spec_effective_iterations, spec_encrypt, spec_string_to_key,
};
use crate::error::KrbError;
use vstd::prelude::*;
use vstd::string::{StringExecFns, StringSliceAdditionalSpecFns};
use vstd::utf8::encode_utf8;

verus! {

/// A key for AES-256 without what it was derived from.
#[derive(Clone, PartialEq, Eq)]
pub enum BaseKey {
    Aes256 { k: [u8; AES_256_KEY_LEN] },
}

/// The key of a client, with the iteration count as the wire carries it and
/// the salt that it was derived with.
#[derive(Clone, PartialEq, Eq)]
pub enum DerivedKey {
    Aes256CtsHmacSha196 { k: [u8; AES_256_KEY_LEN], i: u32, s: String },
}

/// The key of a session between a client and a service.
#[derive(Clone, PartialEq, Eq)]
pub enum SessionKey {
    Aes256CtsHmacSha196 { k: [u8; AES_256_KEY_LEN] },
}

/// The key of a key distribution centre.
#[derive(Clone, PartialEq, Eq)]
pub enum KdcPrimaryKey {
    Aes256 { k: [u8; AES_256_KEY_LEN] },
}

/// A ciphertext with the version of the key that made it, for an encryption
/// type that this library implements.
#[derive(Debug, Clone, PartialEq, Eq)]
pub enum EncryptedData {
    Aes256CtsHmacSha196 { kvno: Option<u32>, data: Vec<u8> },
}

/// A hint of the server on how the client's key is derived.
#[derive(Debug, Clone, PartialEq, Eq)]
pub struct EtypeInfo2 {
    etype: EncryptionType,
    salt: Option<String>,
    s2kparams: Option<Vec<u8>>,
}

/// A hint as plain values.
pub struct EtypeInfo2View {
    pub etype: EncryptionType,
    pub salt: Option<Seq<char>>,
    pub s2kparams: Option<Seq<u8>>,
}

/// A client's key as plain values.
pub struct DerivedKeyView {
    pub key: Seq<u8>,
    pub iterations: u32,
    pub salt: Seq<char>,
}

impl View for EtypeInfo2 {
    type V = EtypeInfo2View;

    closed spec fn view(&self) -> EtypeInfo2View {
        EtypeInfo2View {
            etype: self.etype,
            salt: match self.salt {
                Some(s) => Some(s@),
                None => None,
            },
            s2kparams: match self.s2kparams {
                Some(p) => Some(p@),
                None => None,
            },
        }
    }
}

impl View for DerivedKey {
    type V = DerivedKeyView;

    open spec fn view(&self) -> DerivedKeyView {
        match self {
            DerivedKey::Aes256CtsHmacSha196 { k, i, s } => DerivedKeyView {
                key: k@,
                iterations: *i,
                salt: s@,
            },
        }
    }
}

/// The views of a run of hints.
pub open spec fn spec_hint_views(hints: Seq<EtypeInfo2>) -> Seq<EtypeInfo2View> {
    Seq::new(hints.len(), |i: int| hints[i]@)
}

/// The salt that is used where the server names none: the realm and then the
/// user's name.
pub open spec fn spec_default_salt(realm: Seq<char>, username: Seq<char>) -> Seq<char> {
    realm + username
}

/// The iteration count that string-to-key parameters carry: four bytes in
/// network order. Without parameters it is the count that the standard
/// prescribes; parameters of another length are an error.
pub open spec fn spec_iterations(s2kparams: Option<Seq<u8>>) -> Result<u32, KrbError> {
    match s2kparams {
        None => Ok(RFC_PKBDF2_SHA1_ITER),
        Some(p) => if p.len() != 4 {
            Err(KrbError::PreauthInvalidS2KParams)
        } else {
            Ok(spec_be32(p))
        },
    }
}

/// The key of `passphrase` with `salt` and `iterations`.
pub open spec fn spec_derived(passphrase: Seq<char>, salt: Seq<char>,
    iterations: u32) -> DerivedKeyView {
    DerivedKeyView {
        key: spec_string_to_key(encode_utf8(passphrase), encode_utf8(salt), iterations),
        iterations,
        salt,
    }
}

/// The key that a hint asks for: its salt and its iteration count where it
/// has them, the defaults where it has not.
pub open spec fn spec_from_hint(
    hint: EtypeInfo2View,
    realm: Seq<char>,
    username: Seq<char>,
    passphrase: Seq<char>,
) -> Result<DerivedKeyView, KrbError> {
    if hint.etype != EncryptionType::AES256_CTS_HMAC_SHA1_96 {
        Err(KrbError::UnsupportedEncryption)
    } else {
        match spec_iterations(hint.s2kparams) {
            Err(e) => Err(e),
            Ok(iterations) => Ok(
                spec_derived(
                    passphrase,
                    match hint.salt {
                        Some(s) => s,
                        None => spec_default_salt(realm, username),
                    },
                    iterations,
                ),
            ),
        }
    }
}

/// The first hint for an encryption type that this library implements.
pub open spec fn spec_first_supported(hints: Seq<EtypeInfo2View>) -> Option<EtypeInfo2View>
    decreases hints.len(),
{
    if hints.len() == 0 {
        None
    } else if hints[0].etype == EncryptionType::AES256_CTS_HMAC_SHA1_96 {
        Some(hints[0])
    } else {
        spec_first_supported(hints.drop_first())
    }
}

/// The key for a challenge: from the first hint that can be used, and from
/// the defaults where there is none.
pub open spec fn spec_for_challenge(
    hints: Option<Seq<EtypeInfo2View>>,
    realm: Seq<char>,
    username: Seq<char>,
    passphrase: Seq<char>,
) -> Result<DerivedKeyView, KrbError> {
    let chosen = match hints {
        Some(h) => spec_first_supported(h),
        None => None,
    };
    match chosen {
        Some(hint) => spec_from_hint(hint, realm, username, passphrase),
        None => Ok(
            spec_derived(passphrase, spec_default_salt(realm, username), RFC_PKBDF2_SHA1_ITER),
        ),
    }
}

/// Four zero bytes ask for 2^32 iterations, not for none.
pub proof fn lemma_zero_parameters()
    ensures
        spec_iterations(Some(seq![0u8, 0u8, 0u8, 0u8])) == Ok::<u32, KrbError>(0u32),
        spec_effective_iterations(0) == 0x1_0000_0000,
{
}

impl EtypeInfo2 {
    /// A hint for `etype` with the salt and the parameters given.
    pub fn new(etype: EncryptionType, salt: Option<String>, s2kparams: Option<Vec<u8>>) -> (r: Self)
        ensures
            r@ == (EtypeInfo2View {
                etype,
                salt: match salt {
                    Some(s) => Some(s@),
                    None => None,
                },
                s2kparams: match s2kparams {
                    Some(p) => Some(p@),
                    None => None,
                },
            }),
    {
        EtypeInfo2 { etype, salt, s2kparams }
    }

    /// The encryption type that the hint is for.
    pub fn etype(&self) -> (etype: EncryptionType)
        ensures
            etype == self@.etype,
    {
        self.etype
    }

    /// The salt that the hint names.
    pub fn salt(&self) -> (salt: Option<&str>)
        ensures
            match salt {
                Some(s) => self@.salt == Some(s@),
                None => self@.salt is None,
            },
    {
        match &self.salt {
            Some(s) => Some(s.as_str()),
            None => None,
        }
    }

    /// The string-to-key parameters that the hint carries.
    pub fn s2kparams(&self) -> (params: Option<&[u8]>)
        ensures
            match params {
                Some(p) => self@.s2kparams == Some(p@),
                None => self@.s2kparams is None,
            },
    {
        match &self.s2kparams {
            Some(p) => Some(p.as_slice()),
            None => None,
        }
    }

    /// The iteration count as the wire carries it.
    pub fn wire_iterations(&self) -> (r: Result<u32, KrbError>)
        ensures
            r == spec_iterations(self@.s2kparams),
    {
        match &self.s2kparams {
            None => Ok(RFC_PKBDF2_SHA1_ITER),
            Some(p) => {
                if p.len() != 4 {
                    Err(KrbError::PreauthInvalidS2KParams)
                } else {
                    assert(p@.subrange(0, 4) =~= p@);
                    Ok(be32(p.as_slice(), 0))
                }
            },
        }
    }

    /// The number of iterations that the hint asks for. Four zero bytes ask
    /// for 2^32 iterations.
    pub fn iteration_count(&self) -> (r: Result<u64, KrbError>)
        ensures
            match r {
                Ok(n) => spec_iterations(self@.s2kparams) matches Ok(i) && n
                    == spec_effective_iterations(i),
                Err(e) => spec_iterations(self@.s2kparams) == Err::<u32, KrbError>(e),
            },
    {
        match self.wire_iterations() {
            Ok(i) => if i == 0 {
                Ok(0x1_0000_0000)
            } else {
                Ok(i as u64)
            },
            Err(e) => Err(e),
        }
    }
}

/// The salt of a hint, or the default where the hint names none.
fn salt_for(salt: &Option<String>, realm: &str, username: &str) -> (r: String)
    ensures
        r@ == match salt {
            Some(s) => s@,
            None => spec_default_salt(realm@, username@),
        },
{
    match salt {
        Some(s) => s.clone(),
        None => {
            let mut joined = realm.to_owned();
            joined.append(username);
            joined
        },
    }
}

/// The key of `passphrase` with `salt` and the iteration count `iterations`
/// as the wire carries it.
fn derive(passphrase: &str, salt: String, iterations: u32) -> (key: DerivedKey)
    ensures
        key@ == spec_derived(passphrase@, salt@, iterations),
{
    let k = derive_key_aes256_cts_hmac_sha1_96(
        passphrase.as_bytes(),
        salt.as_str().as_bytes(),
        iterations,
    );
    DerivedKey::Aes256CtsHmacSha196 { k, i: iterations, s: salt }
}

impl DerivedKey {
    /// The key of `passphrase` with `salt` and the iteration count that the
    /// standard prescribes.
    pub fn new_aes256_cts_hmac_sha1_96(passphrase: &str, salt: &str) -> (r: Result<Self, KrbError>)
        ensures
            r matches Ok(key) && key@ == spec_derived(passphrase@, salt@, RFC_PKBDF2_SHA1_ITER),
    {
        Ok(derive(passphrase, salt.to_owned(), RFC_PKBDF2_SHA1_ITER))
    }

    /// The key with which a reply is to be decrypted: derived as the first
    /// hint for the reply's encryption type asks, and from the default salt
    /// and count where there is no such hint. A hint whose parameters are not
    /// four bytes is an error, never a reason to fall back.
    pub fn from_encrypted_reply(
        encrypted_data: &EncryptedData,
        pa_data_etype_info2: Option<&[EtypeInfo2]>,
        realm: &str,
        username: &str,
        passphrase: &str,
    ) -> (r: Result<Self, KrbError>)
        ensures
            match r {
                Ok(key) => Ok::<DerivedKeyView, KrbError>(key@) == spec_for_challenge(
                    match pa_data_etype_info2 {
                        Some(h) => Some(spec_hint_views(h@)),
                        None => None,
                    },
                    realm@,
                    username@,
                    passphrase@,
                ),
                Err(e) => Err::<DerivedKeyView, KrbError>(e) == spec_for_challenge(
                    match pa_data_etype_info2 {
                        Some(h) => Some(spec_hint_views(h@)),
                        None => None,
                    },
                    realm@,
                    username@,
                    passphrase@,
                ),
            },
    {
        match encrypted_data {
            EncryptedData::Aes256CtsHmacSha196 { .. } => {},
        }
        if let Some(hints) = pa_data_etype_info2 {
            let ghost views = spec_hint_views(hints@);
            let mut i: usize = 0;
            assert(views.subrange(0, views.len() as int) =~= views);
            while i < hints.len()
                invariant
                    i <= hints.len(),
                    pa_data_etype_info2 == Some(hints),
                    views == spec_hint_views(hints@),
                    spec_first_supported(views) == spec_first_supported(
                        views.subrange(i as int, views.len() as int),
                    ),
                decreases hints.len() - i,
            {
                let ghost rest = views.subrange(i as int, views.len() as int);
                assert(rest[0] == hints@[i as int]@);
                assert(rest.drop_first() =~= views.subrange(i + 1, views.len() as int));
                match hints[i].etype {
                    EncryptionType::AES256_CTS_HMAC_SHA1_96 => {
                        assert(rest[0].etype == EncryptionType::AES256_CTS_HMAC_SHA1_96);
                        assert(spec_first_supported(rest) == Some(rest[0]));
                        return DerivedKey::from_etype_info2(&hints[i], realm, username, passphrase);
                    },
                    _ => {
                        assert(rest[0].etype != EncryptionType::AES256_CTS_HMAC_SHA1_96);
                        assert(spec_first_supported(rest) == spec_first_supported(
                            rest.drop_first(),
                        ));
                    },
                }
                i = i + 1;
            }
        }
        proof {
            if let Some(hints) = pa_data_etype_info2 {
                let views = spec_hint_views(hints@);
                assert(views.subrange(views.len() as int, views.len() as int).len() == 0);
            }
        }
        let salt = salt_for(&None, realm, username);
        Ok(derive(passphrase, salt, RFC_PKBDF2_SHA1_ITER))
    }

    /// The key that a hint asks for. A hint for an encryption type that this
    /// library does not implement is an error, and so are parameters that are
    /// not four bytes.
    pub fn from_etype_info2(
        etype_info2: &EtypeInfo2,
        realm: &str,
        username: &str,
        passphrase: &str,
    ) -> (r: Result<Self, KrbError>)
        ensures
            match r {
                Ok(key) => Ok::<DerivedKeyView, KrbError>(key@) == spec_from_hint(
                    etype_info2@,
                    realm@,
                    username@,
                    passphrase@,
                ),
                Err(e) => Err::<DerivedKeyView, KrbError>(e) == spec_from_hint(
                    etype_info2@,
                    realm@,
                    username@,
                    passphrase@,
                ),
            },
    {
        match etype_info2.etype {
            EncryptionType::AES256_CTS_HMAC_SHA1_96 => {
                let iterations = match etype_info2.wire_iterations() {
                    Ok(i) => i,
                    Err(e) => {
                        return Err(e);
                    },
                };
                let salt = salt_for(&etype_info2.salt, realm, username);
                Ok(derive(passphrase, salt, iterations))
            },
            _ => Err(KrbError::UnsupportedEncryption),
        }
    }

    /// The key without what it was derived from.
    pub fn base_key(&self) -> (base: BaseKey)
        ensures
            base matches BaseKey::Aes256 { k } && k@ == self@.key,
    {
        match self {
            DerivedKey::Aes256CtsHmacSha196 { k, .. } => BaseKey::Aes256 { k: *k },
        }
    }

    /// The number of iterations that the key was derived with.
    pub fn iterations(&self) -> (n: u64)
        ensures
            n == spec_effective_iterations(self@.iterations),
    {
        match self {
            DerivedKey::Aes256CtsHmacSha196 { i, .. } => if *i == 0 {
                0x1_0000_0000
            } else {
                *i as u64
            },
        }
    }

    /// The salt that the key was derived with.
    pub fn salt(&self) -> (salt: &str)
        ensures
            salt@ == self@.salt,
    {
        match self {
            DerivedKey::Aes256CtsHmacSha196 { s, .. } => s.as_str(),
        }
    }

    /// Encrypts a pre-authentication timestamp for the key usage of
    /// pre-authentication, with a confounder that nobody can predict. What
    /// comes out decrypts to the wire encoding of the timestamp.
    pub fn encrypt_pa_enc_timestamp(&self, paenctsenc: &PaEncTsEnc) -> (r: Result<
        EncryptedData,
        KrbError,
    >)
        ensures
            match r {
                Ok(EncryptedData::Aes256CtsHmacSha196 { kvno, data }) => {
                    &&& kvno is None
                    &&& PaEncTsEnc::spec_encode(paenctsenc.deep_view()) matches Some(encoded)
                    &&& spec_decrypt(self@.key, data@, KEY_USAGE_PA_ENC_TIMESTAMP) == Some(encoded)
                },
                Err(e) => e == KrbError::DerEncodePaEncTsEnc && PaEncTsEnc::spec_encode(
                    paenctsenc.deep_view(),
                ) is None,
            },
    {
        let encoded = match paenctsenc.encode() {
            Some(bytes) => bytes,
            None => {
                return Err(KrbError::DerEncodePaEncTsEnc);
            },
        };
        match self {
            DerivedKey::Aes256CtsHmacSha196 { k, .. } => {
                let data = encrypt_aes256_cts_hmac_sha1_96(
                    k,
                    encoded.as_slice(),
                    KEY_USAGE_PA_ENC_TIMESTAMP,
                );
                Ok(EncryptedData::Aes256CtsHmacSha196 { kvno: None, data })
            },
        }
    }

    /// As `encrypt_pa_enc_timestamp`, with the confounder given: the same
    /// key, timestamp and confounder give the same ciphertext.
    pub fn encrypt_pa_enc_timestamp_with(
        &self,
        paenctsenc: &PaEncTsEnc,
        confounder: &[u8; AES_BLOCK_LEN],
    ) -> (r: Result<EncryptedData, KrbError>)
        ensures
            match r {
                Ok(EncryptedData::Aes256CtsHmacSha196 { kvno, data }) => {
                    &&& kvno is None
                    &&& PaEncTsEnc::spec_encode(paenctsenc.deep_view()) matches Some(encoded)
                    &&& data@ == spec_encrypt(
                        self@.key,
                        encoded,
                        KEY_USAGE_PA_ENC_TIMESTAMP,
                        confounder@,
                    )
                    &&& spec_decrypt(self@.key, data@, KEY_USAGE_PA_ENC_TIMESTAMP) == Some(encoded)
                },
                Err(e) => e == KrbError::DerEncodePaEncTsEnc && PaEncTsEnc::spec_encode(
                    paenctsenc.deep_view(),
                ) is None,
            },
    {
        let encoded = match paenctsenc.encode() {
            Some(bytes) => bytes,
            None => {
                return Err(KrbError::DerEncodePaEncTsEnc);
            },
        };
        match self {
            DerivedKey::Aes256CtsHmacSha196 { k, .. } => {
                let data = encrypt_with_confounder(
                    k,
                    encoded.as_slice(),
                    KEY_USAGE_PA_ENC_TIMESTAMP,
                    confounder,
                );
                Ok(EncryptedData::Aes256CtsHmacSha196 { kvno: None, data })
            },
        }
    }
}

impl EncryptedData {
    /// The key for this payload from a passphrase, with the realm and the
    /// client's name as salt and the iteration count that the standard
    /// prescribes.
    pub fn derive_key(&self, passphrase: &[u8], realm: &[u8], cname: &[u8]) -> (r: Result<
        BaseKey,
        KrbError,
    >)
        ensures
            r matches Ok(BaseKey::Aes256 { k }) && k@ == spec_string_to_key(
                passphrase@,
                realm@ + cname@,
                RFC_PKBDF2_SHA1_ITER,
            ),
    {
        match self {
            EncryptedData::Aes256CtsHmacSha196 { .. } => {
                let mut salt = vstd::slice::slice_to_vec(realm);
                let mut name = vstd::slice::slice_to_vec(cname);
                salt.append(&mut name);
                let k = derive_key_aes256_cts_hmac_sha1_96(
                    passphrase,
                    salt.as_slice(),
                    RFC_PKBDF2_SHA1_ITER,
                );
                Ok(BaseKey::Aes256 { k })
            },
        }
    }

    /// Decrypts the payload for `key_usage`. A tag that does not protect what
    /// the key yields is an error: a wrong key, a wrong usage and a changed
    /// ciphertext all end here.
    pub fn decrypt_data(&self, base_key: &BaseKey, key_usage: i32) -> (r: Result<Vec<u8>, KrbError>)
        ensures
            match (self, base_key) {
                (EncryptedData::Aes256CtsHmacSha196 { data, .. },
                    BaseKey::Aes256 { k }) => match r {
                    Ok(plaintext) => spec_decrypt(k@, data@, key_usage) == Some(plaintext@),
                    Err(e) => e == KrbError::DecryptionFailed && spec_decrypt(
                        k@,
                        data@,
                        key_usage,
                    ) is None,
                },
            },
    {
        match (self, base_key) {
            (EncryptedData::Aes256CtsHmacSha196 { kvno: _, data }, BaseKey::Aes256 { k }) => {
                decrypt_aes256_cts_hmac_sha1_96(k, data.as_slice(), key_usage)
            },
        }
    }

    /// The payload of a wire payload, if its encryption type is one that this
    /// library implements.
    pub fn try_from(enc_data: KdcEncryptedData) -> (r: Result<Self, KrbError>)
        ensures
            match r {
                Ok(EncryptedData::Aes256CtsHmacSha196 { kvno, data }) => {
                    &&& enc_data.etype == EncryptionType::AES256_CTS_HMAC_SHA1_96.code()
                    &&& kvno == enc_data.kvno
                    &&& data@ == enc_data.cipher@
                },
                Err(e) => e == KrbError::UnsupportedEncryption && enc_data.etype
                    != EncryptionType::AES256_CTS_HMAC_SHA1_96.code(),
            },
    {
        match EncryptionType::from_code(enc_data.etype) {
            Some(EncryptionType::AES256_CTS_HMAC_SHA1_96) => {
                Ok(
                    EncryptedData::Aes256CtsHmacSha196 {
                        kvno: enc_data.kvno,
                        data: enc_data.cipher,
                    },
                )
            },
            _ => Err(KrbError::UnsupportedEncryption),
        }
    }

    /// The payload as the wire carries it.
    pub fn try_into(self) -> (r: Result<KdcEncryptedData, KrbError>)
        ensures
            r matches Ok(wire) && self matches EncryptedData::Aes256CtsHmacSha196 { kvno, data }
                && wire.deep_view() == (KdcEncryptedDataView {
                etype: EncryptionType::AES256_CTS_HMAC_SHA1_96.code() as i32,
                kvno,
                cipher: data@,
            }),
    {
        match self {
            EncryptedData::Aes256CtsHmacSha196 { kvno, data } => Ok(
                KdcEncryptedData {
                    etype: EncryptionType::AES256_CTS_HMAC_SHA1_96.to_code(),
                    kvno,
                    cipher: data,
                },
            ),
        }
    }
}

impl SessionKey {
    /// The session key of a wire key, if its encryption type is one that this
    /// library implements and it has the length that the type calls for.
    pub fn try_from(kdc_key: EncryptionKey) -> (r: Result<Self, KrbError>)
        ensures
            match r {
                Ok(SessionKey::Aes256CtsHmacSha196 { k }) => {
                    &&& kdc_key.key_type == EncryptionType::AES256_CTS_HMAC_SHA1_96.code()
                    &&& k@ == kdc_key.key_value@
                },
                Err(e) => if kdc_key.key_type != EncryptionType::AES256_CTS_HMAC_SHA1_96.code() {
                    e == KrbError::UnsupportedEncryption
                } else {
                    e == KrbError::InvalidEncryptionKey && kdc_key.key_value@.len()
                        != AES_256_KEY_LEN
                },
            },
    {
        match EncryptionType::from_code(kdc_key.key_type) {
            Some(EncryptionType::AES256_CTS_HMAC_SHA1_96) => {
                if kdc_key.key_value.len() == AES_256_KEY_LEN {
                    Ok(
                        SessionKey::Aes256CtsHmacSha196 {
                            k: key_from_slice(kdc_key.key_value.as_slice()),
                        },
                    )
                } else {
                    Err(KrbError::InvalidEncryptionKey)
                }
            },
            _ => Err(KrbError::UnsupportedEncryption),
        }
    }
}

impl KdcPrimaryKey {
    /// The key that 32 bytes are; any other number of bytes is an error.
    pub fn try_from(key: &[u8]) -> (r: Result<Self, KrbError>)
        ensures
            match r {
                Ok(KdcPrimaryKey::Aes256 { k }) => k@ == key@,
                Err(e) => e == KrbError::InvalidEncryptionKey && key@.len() != AES_256_KEY_LEN,
            },
    {
        if key.len() == AES_256_KEY_LEN {
            Ok(KdcPrimaryKey::Aes256 { k: key_from_slice(key) })
        } else {
            Err(KrbError::InvalidEncryptionKey)
        }
    }
}

} // verus!
