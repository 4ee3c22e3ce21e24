use vstd::prelude::*;

verus! {

/// Length in bytes of an AES-256 key.
pub const AES_256_KEY_LEN: usize = 32;

/// Length in bytes of an AES block.
pub const AES_BLOCK_LEN: usize = 16;

/// Length in bytes of the truncated HMAC-SHA-1 tag that protects a ciphertext.
pub const AES_MAC_LEN: usize = 12;

/// Length in bytes of an untruncated HMAC-SHA-1 tag.
pub const SHA1_HMAC_LEN: usize = 20;

/// Iteration count that the string-to-key profile prescribes when the server
/// sends no parameters.
pub const RFC_PKBDF2_SHA1_ITER: u32 = 4096;

/// Iteration count that this library recommends to servers.
pub const PKBDF2_SHA1_ITER: u32 = 32768;

/// Protocol version carried by every message.
pub const KRB_PVNO: u8 = 5;

/// Key usage of the encrypted timestamp in a pre-authenticated request.
pub const KEY_USAGE_PA_ENC_TIMESTAMP: i32 = 1;

/// Key usage of the encrypted part of a reply from the authentication or the
/// ticket-granting service.
pub const KEY_USAGE_KDC_REP_ENC_PART: i32 = 3;

/// Encryption types of the registry.
#[allow(non_camel_case_types)]
#[derive(Debug, Clone, Copy, PartialEq, Eq, Structural)]
pub enum EncryptionType {
    /// DES in CBC mode with CRC-32 (1).
    DES_CBC_CRC,
    /// DES in CBC mode with MD4 (2).
    DES_CBC_MD4,
    /// DES in CBC mode with MD5 (3).
    DES_CBC_MD5,
    /// Triple DES in CBC mode with MD5 (5).
    DES3_CBC_MD5,
    /// Triple DES in CBC mode with SHA-1 (7).
    DES3_CBC_SHA1,
    /// Triple DES in CBC mode with SHA-1 and key derivation (16).
    DES3_CBC_SHA1_KD,
    /// AES-128 in CTS mode with a 96-bit HMAC-SHA-1 tag (17).
    AES128_CTS_HMAC_SHA1_96,
    /// AES-256 in CTS mode with a 96-bit HMAC-SHA-1 tag (18).
    AES256_CTS_HMAC_SHA1_96,
    /// AES-128 in CTS mode with a 128-bit HMAC-SHA-256 tag (19).
    AES128_CTS_HMAC_SHA256_128,
    /// AES-256 in CTS mode with a 192-bit HMAC-SHA-384 tag (20).
    AES256_CTS_HMAC_SHA384_192,
    /// RC4 with HMAC-MD5 (23).
    RC4_HMAC,
    /// Export-strength RC4 with HMAC-MD5 (24).
    RC4_HMAC_EXP,
    /// Camellia-128 in CTS mode with CMAC (25).
    CAMELLIA128_CTS_CMAC,
    /// Camellia-256 in CTS mode with CMAC (26).
    CAMELLIA256_CTS_CMAC,
}

impl EncryptionType {
    /// The number that the registry assigns to this value.
    pub open spec fn code(self) -> int {
        match self {
            EncryptionType::DES_CBC_CRC => 1,
            EncryptionType::DES_CBC_MD4 => 2,
            EncryptionType::DES_CBC_MD5 => 3,
            EncryptionType::DES3_CBC_MD5 => 5,
            EncryptionType::DES3_CBC_SHA1 => 7,
            EncryptionType::DES3_CBC_SHA1_KD => 16,
            EncryptionType::AES128_CTS_HMAC_SHA1_96 => 17,
            EncryptionType::AES256_CTS_HMAC_SHA1_96 => 18,
            EncryptionType::AES128_CTS_HMAC_SHA256_128 => 19,
            EncryptionType::AES256_CTS_HMAC_SHA384_192 => 20,
            EncryptionType::RC4_HMAC => 23,
            EncryptionType::RC4_HMAC_EXP => 24,
            EncryptionType::CAMELLIA128_CTS_CMAC => 25,
            EncryptionType::CAMELLIA256_CTS_CMAC => 26,
        }
    }

    /// Whether the registry, as far as this library knows it, assigns `raw`.
    pub open spec fn is_registered(raw: int) -> bool {
        exists|v: EncryptionType| #[trigger] v.code() == raw
    }

    /// The value that `raw` is registered for, if there is one.
    pub open spec fn spec_from_code(raw: int) -> Option<EncryptionType> {
        if EncryptionType::is_registered(raw) {
            Some(choose|v: EncryptionType| v.code() == raw)
        } else {
            None
        }
    }

    /// The registered number of this value.
    pub fn to_code(&self) -> (raw: i32)
        ensures
            raw == self.code(),
    {
        match self {
            EncryptionType::DES_CBC_CRC => 1,
            EncryptionType::DES_CBC_MD4 => 2,
            EncryptionType::DES_CBC_MD5 => 3,
            EncryptionType::DES3_CBC_MD5 => 5,
            EncryptionType::DES3_CBC_SHA1 => 7,
            EncryptionType::DES3_CBC_SHA1_KD => 16,
            EncryptionType::AES128_CTS_HMAC_SHA1_96 => 17,
            EncryptionType::AES256_CTS_HMAC_SHA1_96 => 18,
            EncryptionType::AES128_CTS_HMAC_SHA256_128 => 19,
            EncryptionType::AES256_CTS_HMAC_SHA384_192 => 20,
            EncryptionType::RC4_HMAC => 23,
            EncryptionType::RC4_HMAC_EXP => 24,
            EncryptionType::CAMELLIA128_CTS_CMAC => 25,
            EncryptionType::CAMELLIA256_CTS_CMAC => 26,
        }
    }

    /// The value that `raw` is registered for, if there is one.
    pub fn from_code(raw: i32) -> (r: Option<EncryptionType>)
        ensures
            r == EncryptionType::spec_from_code(raw as int),
            r matches Some(v) ==> v.code() == raw,
            r is None <==> !EncryptionType::is_registered(raw as int),
    {
        let r = match raw {
            1 => Some(EncryptionType::DES_CBC_CRC),
            2 => Some(EncryptionType::DES_CBC_MD4),
            3 => Some(EncryptionType::DES_CBC_MD5),
            5 => Some(EncryptionType::DES3_CBC_MD5),
            7 => Some(EncryptionType::DES3_CBC_SHA1),
            16 => Some(EncryptionType::DES3_CBC_SHA1_KD),
            17 => Some(EncryptionType::AES128_CTS_HMAC_SHA1_96),
            18 => Some(EncryptionType::AES256_CTS_HMAC_SHA1_96),
            19 => Some(EncryptionType::AES128_CTS_HMAC_SHA256_128),
            20 => Some(EncryptionType::AES256_CTS_HMAC_SHA384_192),
            23 => Some(EncryptionType::RC4_HMAC),
            24 => Some(EncryptionType::RC4_HMAC_EXP),
            25 => Some(EncryptionType::CAMELLIA128_CTS_CMAC),
            26 => Some(EncryptionType::CAMELLIA256_CTS_CMAC),
            _ => None,
        };
        proof {
            if let Some(v) = r {
                assert(v.code() == raw as int);
                let chosen = choose|w: EncryptionType| w.code() == raw as int;
                EncryptionType::lemma_code_injective(chosen, v);
            }
            if r is None {
                assert forall|v: EncryptionType| #[trigger] v.code() != raw as int by {
                    EncryptionType::lemma_code_range(v);
                }
            }
        }
        r
    }

    /// Every value carries one of the numbers listed above.
    pub proof fn lemma_code_range(v: EncryptionType)
        ensures
            v.code() == 1 || v.code() == 2 || v.code() == 3 || v.code() == 5 || v.code()
                == 7 || v.code() == 16 || v.code() == 17 || v.code() == 18 || v.code()
                == 19 || v.code() == 20 || v.code() == 23 || v.code() == 24 || v.code()
                == 25 || v.code() == 26,
    {
    }

    /// Two values with the same number are the same value.
    pub proof fn lemma_code_injective(a: EncryptionType, b: EncryptionType)
        requires
            a.code() == b.code(),
        ensures
            a == b,
    {
    }
}

/// Message types of the protocol.
#[derive(Debug, Clone, Copy, PartialEq, Eq, Structural)]
pub enum KrbMessageType {
    /// Request for initial authentication (10).
    KrbAsReq,
    /// Response to an initial authentication request (11).
    KrbAsRep,
    /// Request for a ticket based on a ticket-granting ticket (12).
    KrbTgsReq,
    /// Response to a ticket-granting request (13).
    KrbTgsRep,
    /// Application request to a server (14).
    KrbApReq,
    /// Response to an application request (15).
    KrbApRep,
    /// Reserved for user-to-user requests (16).
    KrbReserved16,
    /// Reserved for user-to-user responses (17).
    KrbReserved17,
    /// Integrity-protected application message (20).
    KrbSafe,
    /// Confidential application message (21).
    KrbPriv,
    /// Message that forwards credentials (22).
    KrbCred,
    /// Error response (30).
    KrbError,
}

impl KrbMessageType {
    /// The number that the registry assigns to this value.
    pub open spec fn code(self) -> int {
        match self {
            KrbMessageType::KrbAsReq => 10,
            KrbMessageType::KrbAsRep => 11,
            KrbMessageType::KrbTgsReq => 12,
            KrbMessageType::KrbTgsRep => 13,
            KrbMessageType::KrbApReq => 14,
            KrbMessageType::KrbApRep => 15,
            KrbMessageType::KrbReserved16 => 16,
            KrbMessageType::KrbReserved17 => 17,
            KrbMessageType::KrbSafe => 20,
            KrbMessageType::KrbPriv => 21,
            KrbMessageType::KrbCred => 22,
            KrbMessageType::KrbError => 30,
        }
    }

    /// Whether the registry, as far as this library knows it, assigns `raw`.
    pub open spec fn is_registered(raw: int) -> bool {
        exists|v: KrbMessageType| #[trigger] v.code() == raw
    }

    /// The value that `raw` is registered for, if there is one.
    pub open spec fn spec_from_code(raw: int) -> Option<KrbMessageType> {
        if KrbMessageType::is_registered(raw) {
            Some(choose|v: KrbMessageType| v.code() == raw)
        } else {
            None
        }
    }

    /// The registered number of this value.
    pub fn to_code(&self) -> (raw: u8)
        ensures
            raw == self.code(),
    {
        match self {
            KrbMessageType::KrbAsReq => 10,
            KrbMessageType::KrbAsRep => 11,
            KrbMessageType::KrbTgsReq => 12,
            KrbMessageType::KrbTgsRep => 13,
            KrbMessageType::KrbApReq => 14,
            KrbMessageType::KrbApRep => 15,
            KrbMessageType::KrbReserved16 => 16,
            KrbMessageType::KrbReserved17 => 17,
            KrbMessageType::KrbSafe => 20,
            KrbMessageType::KrbPriv => 21,
            KrbMessageType::KrbCred => 22,
            KrbMessageType::KrbError => 30,
        }
    }

    /// The value that `raw` is registered for, if there is one.
    pub fn from_code(raw: u8) -> (r: Option<KrbMessageType>)
        ensures
            r == KrbMessageType::spec_from_code(raw as int),
            r matches Some(v) ==> v.code() == raw,
            r is None <==> !KrbMessageType::is_registered(raw as int),
    {
        let r = match raw {
            10 => Some(KrbMessageType::KrbAsReq),
            11 => Some(KrbMessageType::KrbAsRep),
            12 => Some(KrbMessageType::KrbTgsReq),
            13 => Some(KrbMessageType::KrbTgsRep),
            14 => Some(KrbMessageType::KrbApReq),
            15 => Some(KrbMessageType::KrbApRep),
            16 => Some(KrbMessageType::KrbReserved16),
            17 => Some(KrbMessageType::KrbReserved17),
            20 => Some(KrbMessageType::KrbSafe),
            21 => Some(KrbMessageType::KrbPriv),
            22 => Some(KrbMessageType::KrbCred),
            30 => Some(KrbMessageType::KrbError),
            _ => None,
        };
        proof {
            if let Some(v) = r {
                assert(v.code() == raw as int);
                let chosen = choose|w: KrbMessageType| w.code() == raw as int;
                KrbMessageType::lemma_code_injective(chosen, v);
            }
            if r is None {
                assert forall|v: KrbMessageType| #[trigger] v.code() != raw as int by {
                    KrbMessageType::lemma_code_range(v);
                }
            }
        }
        r
    }

    /// Every value carries one of the numbers listed above.
    pub proof fn lemma_code_range(v: KrbMessageType)
        ensures
            v.code() == 10 || v.code() == 11 || v.code() == 12 || v.code() == 13 ||
                v.code() == 14 || v.code() == 15 || v.code() == 16 || v.code() == 17 ||
                v.code() == 20 || v.code() == 21 || v.code() == 22 || v.code() == 30,
    {
    }

    /// Two values with the same number are the same value.
    pub proof fn lemma_code_injective(a: KrbMessageType, b: KrbMessageType)
        requires
            a.code() == b.code(),
        ensures
            a == b,
    {
    }
}

/// Types of pre-authentication data.
#[derive(Debug, Clone, Copy, PartialEq, Eq, Structural)]
pub enum PaDataType {
    /// Ticket-granting request authenticator (1).
    PaTgsReq,
    /// Encrypted timestamp (2).
    PaEncTimestamp,
    /// Password salt (3).
    PaPwSalt,
    /// Encrypted Unix time, deprecated (5).
    PaEncUnixTime,
    /// SecurID (6).
    PaSandiaSecureid,
    /// Sesame (7).
    PaSesame,
    /// OSF DCE (8).
    PaOsfDce,
    /// CyberSafe SecurID (9).
    PaCybersafeSecureid,
    /// AFS3 salt (10).
    PaAfs3Salt,
    /// Encryption type hints, first form (11).
    PaEtypeInfo,
    /// Single-use authentication mechanism challenge (12).
    PaSamChallenge,
    /// Single-use authentication mechanism response (13).
    PaSamResponse,
    /// Public-key request, draft form (14).
    PaPkAsReqOld,
    /// Public-key response, draft form (15).
    PaPkAsRepOld,
    /// Public-key request (16).
    PaPkAsReq,
    /// Public-key response (17).
    PaPkAsRep,
    /// Encryption type hints, second form (19).
    PaEtypeInfo2,
    /// Use of a given key version (20).
    PaUseSpecifiedKvno,
    /// Single-use authentication mechanism redirect (21).
    PaSamRedirect,
    /// Pre-authentication data embedded in typed data (22).
    PaGetFromTypedData,
    /// Encryption type hints for single-use mechanisms (23).
    PaSamEtypeInfo,
    /// Alternative principal (24).
    PaAltPrinc,
    /// Single-use authentication mechanism challenge, second form (30).
    PaSamChallenge2,
    /// Single-use authentication mechanism response, second form (31).
    PaSamResponse2,
    /// Additional ticket-granting ticket (41).
    PaExtraTgt,
    /// Request for a privilege attribute certificate (128).
    PaPacRequest,
    /// Opaque state that the client echoes back (133).
    PaFxCookie,
    /// Armoured pre-authentication tunnel (136).
    PaFxFast,
    /// Error inside an armoured tunnel (137).
    PaFxError,
    /// Encrypted challenge inside an armoured tunnel (138).
    PaEncryptedChallenge,
}

impl PaDataType {
    /// The number that the registry assigns to this value.
    pub open spec fn code(self) -> int {
        match self {
            PaDataType::PaTgsReq => 1,
            PaDataType::PaEncTimestamp => 2,
            PaDataType::PaPwSalt => 3,
            PaDataType::PaEncUnixTime => 5,
            PaDataType::PaSandiaSecureid => 6,
            PaDataType::PaSesame => 7,
            PaDataType::PaOsfDce => 8,
            PaDataType::PaCybersafeSecureid => 9,
            PaDataType::PaAfs3Salt => 10,
            PaDataType::PaEtypeInfo => 11,
            PaDataType::PaSamChallenge => 12,
            PaDataType::PaSamResponse => 13,
            PaDataType::PaPkAsReqOld => 14,
            PaDataType::PaPkAsRepOld => 15,
            PaDataType::PaPkAsReq => 16,
            PaDataType::PaPkAsRep => 17,
            PaDataType::PaEtypeInfo2 => 19,
            PaDataType::PaUseSpecifiedKvno => 20,
            PaDataType::PaSamRedirect => 21,
            PaDataType::PaGetFromTypedData => 22,
            PaDataType::PaSamEtypeInfo => 23,
            PaDataType::PaAltPrinc => 24,
            PaDataType::PaSamChallenge2 => 30,
            PaDataType::PaSamResponse2 => 31,
            PaDataType::PaExtraTgt => 41,
            PaDataType::PaPacRequest => 128,
            PaDataType::PaFxCookie => 133,
            PaDataType::PaFxFast => 136,
            PaDataType::PaFxError => 137,
            PaDataType::PaEncryptedChallenge => 138,
        }
    }

    /// Whether the registry, as far as this library knows it, assigns `raw`.
    pub open spec fn is_registered(raw: int) -> bool {
        exists|v: PaDataType| #[trigger] v.code() == raw
    }

    /// The value that `raw` is registered for, if there is one.
    pub open spec fn spec_from_code(raw: int) -> Option<PaDataType> {
        if PaDataType::is_registered(raw) {
            Some(choose|v: PaDataType| v.code() == raw)
        } else {
            None
        }
    }

    /// The registered number of this value.
    pub fn to_code(&self) -> (raw: u32)
        ensures
            raw == self.code(),
    {
        match self {
            PaDataType::PaTgsReq => 1,
            PaDataType::PaEncTimestamp => 2,
            PaDataType::PaPwSalt => 3,
            PaDataType::PaEncUnixTime => 5,
            PaDataType::PaSandiaSecureid => 6,
            PaDataType::PaSesame => 7,
            PaDataType::PaOsfDce => 8,
            PaDataType::PaCybersafeSecureid => 9,
            PaDataType::PaAfs3Salt => 10,
            PaDataType::PaEtypeInfo => 11,
            PaDataType::PaSamChallenge => 12,
            PaDataType::PaSamResponse => 13,
            PaDataType::PaPkAsReqOld => 14,
            PaDataType::PaPkAsRepOld => 15,
            PaDataType::PaPkAsReq => 16,
            PaDataType::PaPkAsRep => 17,
            PaDataType::PaEtypeInfo2 => 19,
            PaDataType::PaUseSpecifiedKvno => 20,
            PaDataType::PaSamRedirect => 21,
            PaDataType::PaGetFromTypedData => 22,
            PaDataType::PaSamEtypeInfo => 23,
            PaDataType::PaAltPrinc => 24,
            PaDataType::PaSamChallenge2 => 30,
            PaDataType::PaSamResponse2 => 31,
            PaDataType::PaExtraTgt => 41,
            PaDataType::PaPacRequest => 128,
            PaDataType::PaFxCookie => 133,
            PaDataType::PaFxFast => 136,
            PaDataType::PaFxError => 137,
            PaDataType::PaEncryptedChallenge => 138,
        }
    }

    /// The value that `raw` is registered for, if there is one.
    pub fn from_code(raw: u32) -> (r: Option<PaDataType>)
        ensures
            r == PaDataType::spec_from_code(raw as int),
            r matches Some(v) ==> v.code() == raw,
            r is None <==> !PaDataType::is_registered(raw as int),
    {
        let r = match raw {
            1 => Some(PaDataType::PaTgsReq),
            2 => Some(PaDataType::PaEncTimestamp),
            3 => Some(PaDataType::PaPwSalt),
            5 => Some(PaDataType::PaEncUnixTime),
            6 => Some(PaDataType::PaSandiaSecureid),
            7 => Some(PaDataType::PaSesame),
            8 => Some(PaDataType::PaOsfDce),
            9 => Some(PaDataType::PaCybersafeSecureid),
            10 => Some(PaDataType::PaAfs3Salt),
            11 => Some(PaDataType::PaEtypeInfo),
            12 => Some(PaDataType::PaSamChallenge),
            13 => Some(PaDataType::PaSamResponse),
            14 => Some(PaDataType::PaPkAsReqOld),
            15 => Some(PaDataType::PaPkAsRepOld),
            16 => Some(PaDataType::PaPkAsReq),
            17 => Some(PaDataType::PaPkAsRep),
            19 => Some(PaDataType::PaEtypeInfo2),
            20 => Some(PaDataType::PaUseSpecifiedKvno),
            21 => Some(PaDataType::PaSamRedirect),
            22 => Some(PaDataType::PaGetFromTypedData),
            23 => Some(PaDataType::PaSamEtypeInfo),
            24 => Some(PaDataType::PaAltPrinc),
            30 => Some(PaDataType::PaSamChallenge2),
            31 => Some(PaDataType::PaSamResponse2),
            41 => Some(PaDataType::PaExtraTgt),
            128 => Some(PaDataType::PaPacRequest),
            133 => Some(PaDataType::PaFxCookie),
            136 => Some(PaDataType::PaFxFast),
            137 => Some(PaDataType::PaFxError),
            138 => Some(PaDataType::PaEncryptedChallenge),
            _ => None,
        };
        proof {
            if let Some(v) = r {
                assert(v.code() == raw as int);
                let chosen = choose|w: PaDataType| w.code() == raw as int;
                PaDataType::lemma_code_injective(chosen, v);
            }
            if r is None {
                assert forall|v: PaDataType| #[trigger] v.code() != raw as int by {
                    PaDataType::lemma_code_range(v);
                }
            }
        }
        r
    }

    /// Every value carries one of the numbers listed above.
    pub proof fn lemma_code_range(v: PaDataType)
        ensures
            v.code() == 1 || v.code() == 2 || v.code() == 3 || v.code() == 5 || v.code()
                == 6 || v.code() == 7 || v.code() == 8 || v.code() == 9 || v.code() ==
                10 || v.code() == 11 || v.code() == 12 || v.code() == 13 || v.code() ==
                14 || v.code() == 15 || v.code() == 16 || v.code() == 17 || v.code() ==
                19 || v.code() == 20 || v.code() == 21 || v.code() == 22 || v.code() ==
                23 || v.code() == 24 || v.code() == 30 || v.code() == 31 || v.code() ==
                41 || v.code() == 128 || v.code() == 133 || v.code() == 136 || v.code()
                == 137 || v.code() == 138,
    {
    }

    /// Two values with the same number are the same value.
    pub proof fn lemma_code_injective(a: PaDataType, b: PaDataType)
        requires
            a.code() == b.code(),
        ensures
            a == b,
    {
    }
}

/// Error codes that a server reports in an error message.
#[derive(Debug, Clone, Copy, PartialEq, Eq, Structural)]
pub enum KrbErrorCode {
    /// No error (0).
    KdcErrNone,
    /// Client's entry in the database has expired (1).
    KdcErrNameExp,
    /// Server's entry in the database has expired (2).
    KdcErrServiceExp,
    /// Requested protocol version number not supported (3).
    KdcErrBadPvno,
    /// Client's key encrypted in old master key (4).
    KdcErrCOldMastKvno,
    /// Server's key encrypted in old master key (5).
    KdcErrSOldMastKvno,
    /// Client not found in the database (6).
    KdcErrCPrincipalUnknown,
    /// Server not found in the database (7).
    KdcErrSPrincipalUnknown,
    /// Multiple principal entries in the database (8).
    KdcErrPrincipalNotUnique,
    /// The client or server has a null key (9).
    KdcErrNullKey,
    /// Ticket not eligible for postdating (10).
    KdcErrCannotPostdate,
    /// Requested start time is later than the end time (11).
    KdcErrNeverValid,
    /// Policy rejects the request (12).
    KdcErrPolicy,
    /// Requested option cannot be accommodated (13).
    KdcErrBadoption,
    /// No support for the encryption type (14).
    KdcErrEtypeNosupp,
    /// No support for the checksum type (15).
    KdcErrSumtypeNosupp,
    /// No support for the pre-authentication data type (16).
    KdcErrPadataTypeNosupp,
    /// No support for the transited type (17).
    KdcErrTrtypeNosupp,
    /// Client's credentials have been revoked (18).
    KdcErrClientRevoked,
    /// Credentials for the server have been revoked (19).
    KdcErrServiceRevoked,
    /// Ticket-granting ticket has been revoked (20).
    KdcErrTgtRevoked,
    /// Client not yet valid (21).
    KdcErrClientNotyet,
    /// Server not yet valid (22).
    KdcErrServiceNotyet,
    /// Password has expired (23).
    KdcErrKeyExpired,
    /// Pre-authentication information was invalid (24).
    KdcErrPreauthFailed,
    /// Additional pre-authentication required (25).
    KdcErrPreauthRequired,
    /// Requested server and ticket do not match (26).
    KdcErrServerNomatch,
    /// Server principal valid for user-to-user only (27).
    KdcErrMustUseUser2user,
    /// Policy rejects the transited path (28).
    KdcErrPathNotAccepted,
    /// A service is not available (29).
    KdcErrSvcUnavailable,
    /// Integrity check on a decrypted field failed (31).
    KrbApErrBadIntegrity,
    /// Ticket expired (32).
    KrbApErrTktExpired,
    /// Ticket not yet valid (33).
    KrbApErrTktNyv,
    /// Request is a replay (34).
    KrbApErrRepeat,
    /// The ticket is not for this server (35).
    KrbApErrNotUs,
    /// Ticket and authenticator do not match (36).
    KrbApErrBadmatch,
    /// Clock skew too great (37).
    KrbApErrSkew,
    /// Incorrect network address (38).
    KrbApErrBadaddr,
    /// Protocol version mismatch (39).
    KrbApErrBadversion,
    /// Invalid message type (40).
    KrbApErrMsgType,
    /// Message stream modified (41).
    KrbApErrModified,
    /// Message out of order (42).
    KrbApErrBadorder,
    /// Specified version of the key is not available (44).
    KrbApErrBadkeyver,
    /// Service key not available (45).
    KrbApErrNokey,
    /// Mutual authentication failed (46).
    KrbApErrMutFail,
    /// Incorrect message direction (47).
    KrbApErrBaddirection,
    /// Alternative authentication method required (48).
    KrbApErrMethod,
    /// Incorrect sequence number in the message (49).
    KrbApErrBadseq,
    /// Inappropriate type of checksum in the message (50).
    KrbApErrInappCksum,
    /// Policy rejects the transited path (51).
    KrbApPathNotAccepted,
    /// Response too big for a datagram, retry over a stream (52).
    KrbErrResponseTooBig,
    /// Generic error (60).
    KrbErrGeneric,
    /// Field is too long for this implementation (61).
    KrbErrFieldToolong,
    /// Client certificate not trusted (62).
    KdcErrorClientNotTrusted,
    /// Server certificate not trusted (63).
    KdcErrorKdcNotTrusted,
    /// Invalid signature (64).
    KdcErrorInvalidSig,
    /// Key too weak (65).
    KdcErrKeyTooWeak,
    /// Certificate mismatch (66).
    KdcErrCertificateMismatch,
    /// No ticket-granting ticket available (67).
    KrbApErrNoTgt,
    /// Wrong realm (68).
    KdcErrWrongRealm,
    /// User-to-user authentication required (69).
    KrbApErrUserToUserRequired,
    /// Certificate cannot be verified (70).
    KdcErrCantVerifyCertificate,
    /// Invalid certificate (71).
    KdcErrInvalidCertificate,
    /// Revoked certificate (72).
    KdcErrRevokedCertificate,
    /// Revocation status unknown (73).
    KdcErrRevocationStatusUnknown,
    /// Revocation status unavailable (74).
    KdcErrRevocationStatusUnavailable,
    /// Client name mismatch (75).
    KdcErrClientNameMismatch,
    /// Server name mismatch (76).
    KdcErrKdcNameMismatch,
}

impl KrbErrorCode {
    /// The number that the registry assigns to this value.
    pub open spec fn code(self) -> int {
        match self {
            KrbErrorCode::KdcErrNone => 0,
            KrbErrorCode::KdcErrNameExp => 1,
            KrbErrorCode::KdcErrServiceExp => 2,
            KrbErrorCode::KdcErrBadPvno => 3,
            KrbErrorCode::KdcErrCOldMastKvno => 4,
            KrbErrorCode::KdcErrSOldMastKvno => 5,
            KrbErrorCode::KdcErrCPrincipalUnknown => 6,
            KrbErrorCode::KdcErrSPrincipalUnknown => 7,
            KrbErrorCode::KdcErrPrincipalNotUnique => 8,
            KrbErrorCode::KdcErrNullKey => 9,
            KrbErrorCode::KdcErrCannotPostdate => 10,
            KrbErrorCode::KdcErrNeverValid => 11,
            KrbErrorCode::KdcErrPolicy => 12,
            KrbErrorCode::KdcErrBadoption => 13,
            KrbErrorCode::KdcErrEtypeNosupp => 14,
            KrbErrorCode::KdcErrSumtypeNosupp => 15,
            KrbErrorCode::KdcErrPadataTypeNosupp => 16,
            KrbErrorCode::KdcErrTrtypeNosupp => 17,
            KrbErrorCode::KdcErrClientRevoked => 18,
            KrbErrorCode::KdcErrServiceRevoked => 19,
            KrbErrorCode::KdcErrTgtRevoked => 20,
            KrbErrorCode::KdcErrClientNotyet => 21,
            KrbErrorCode::KdcErrServiceNotyet => 22,
            KrbErrorCode::KdcErrKeyExpired => 23,
            KrbErrorCode::KdcErrPreauthFailed => 24,
            KrbErrorCode::KdcErrPreauthRequired => 25,
            KrbErrorCode::KdcErrServerNomatch => 26,
            KrbErrorCode::KdcErrMustUseUser2user => 27,
            KrbErrorCode::KdcErrPathNotAccepted => 28,
            KrbErrorCode::KdcErrSvcUnavailable => 29,
            KrbErrorCode::KrbApErrBadIntegrity => 31,
            KrbErrorCode::KrbApErrTktExpired => 32,
            KrbErrorCode::KrbApErrTktNyv => 33,
            KrbErrorCode::KrbApErrRepeat => 34,
            KrbErrorCode::KrbApErrNotUs => 35,
            KrbErrorCode::KrbApErrBadmatch => 36,
            KrbErrorCode::KrbApErrSkew => 37,
            KrbErrorCode::KrbApErrBadaddr => 38,
            KrbErrorCode::KrbApErrBadversion => 39,
            KrbErrorCode::KrbApErrMsgType => 40,
            KrbErrorCode::KrbApErrModified => 41,
            KrbErrorCode::KrbApErrBadorder => 42,
            KrbErrorCode::KrbApErrBadkeyver => 44,
            KrbErrorCode::KrbApErrNokey => 45,
            KrbErrorCode::KrbApErrMutFail => 46,
            KrbErrorCode::KrbApErrBaddirection => 47,
            KrbErrorCode::KrbApErrMethod => 48,
            KrbErrorCode::KrbApErrBadseq => 49,
            KrbErrorCode::KrbApErrInappCksum => 50,
            KrbErrorCode::KrbApPathNotAccepted => 51,
            KrbErrorCode::KrbErrResponseTooBig => 52,
            KrbErrorCode::KrbErrGeneric => 60,
            KrbErrorCode::KrbErrFieldToolong => 61,
            KrbErrorCode::KdcErrorClientNotTrusted => 62,
            KrbErrorCode::KdcErrorKdcNotTrusted => 63,
            KrbErrorCode::KdcErrorInvalidSig => 64,
            KrbErrorCode::KdcErrKeyTooWeak => 65,
            KrbErrorCode::KdcErrCertificateMismatch => 66,
            KrbErrorCode::KrbApErrNoTgt => 67,
            KrbErrorCode::KdcErrWrongRealm => 68,
            KrbErrorCode::KrbApErrUserToUserRequired => 69,
            KrbErrorCode::KdcErrCantVerifyCertificate => 70,
            KrbErrorCode::KdcErrInvalidCertificate => 71,
            KrbErrorCode::KdcErrRevokedCertificate => 72,
            KrbErrorCode::KdcErrRevocationStatusUnknown => 73,
            KrbErrorCode::KdcErrRevocationStatusUnavailable => 74,
            KrbErrorCode::KdcErrClientNameMismatch => 75,
            KrbErrorCode::KdcErrKdcNameMismatch => 76,
        }
    }

    /// Whether the registry, as far as this library knows it, assigns `raw`.
    pub open spec fn is_registered(raw: int) -> bool {
        exists|v: KrbErrorCode| #[trigger] v.code() == raw
    }

    /// The value that `raw` is registered for, if there is one.
    pub open spec fn spec_from_code(raw: int) -> Option<KrbErrorCode> {
        if KrbErrorCode::is_registered(raw) {
            Some(choose|v: KrbErrorCode| v.code() == raw)
        } else {
            None
        }
    }

    /// The registered number of this value.
    pub fn to_code(&self) -> (raw: i32)
        ensures
            raw == self.code(),
    {
        match self {
            KrbErrorCode::KdcErrNone => 0,
            KrbErrorCode::KdcErrNameExp => 1,
            KrbErrorCode::KdcErrServiceExp => 2,
            KrbErrorCode::KdcErrBadPvno => 3,
            KrbErrorCode::KdcErrCOldMastKvno => 4,
            KrbErrorCode::KdcErrSOldMastKvno => 5,
            KrbErrorCode::KdcErrCPrincipalUnknown => 6,
            KrbErrorCode::KdcErrSPrincipalUnknown => 7,
            KrbErrorCode::KdcErrPrincipalNotUnique => 8,
            KrbErrorCode::KdcErrNullKey => 9,
            KrbErrorCode::KdcErrCannotPostdate => 10,
            KrbErrorCode::KdcErrNeverValid => 11,
            KrbErrorCode::KdcErrPolicy => 12,
            KrbErrorCode::KdcErrBadoption => 13,
            KrbErrorCode::KdcErrEtypeNosupp => 14,
            KrbErrorCode::KdcErrSumtypeNosupp => 15,
            KrbErrorCode::KdcErrPadataTypeNosupp => 16,
            KrbErrorCode::KdcErrTrtypeNosupp => 17,
            KrbErrorCode::KdcErrClientRevoked => 18,
            KrbErrorCode::KdcErrServiceRevoked => 19,
            KrbErrorCode::KdcErrTgtRevoked => 20,
            KrbErrorCode::KdcErrClientNotyet => 21,
            KrbErrorCode::KdcErrServiceNotyet => 22,
            KrbErrorCode::KdcErrKeyExpired => 23,
            KrbErrorCode::KdcErrPreauthFailed => 24,
            KrbErrorCode::KdcErrPreauthRequired => 25,
            KrbErrorCode::KdcErrServerNomatch => 26,
            KrbErrorCode::KdcErrMustUseUser2user => 27,
            KrbErrorCode::KdcErrPathNotAccepted => 28,
            KrbErrorCode::KdcErrSvcUnavailable => 29,
            KrbErrorCode::KrbApErrBadIntegrity => 31,
            KrbErrorCode::KrbApErrTktExpired => 32,
            KrbErrorCode::KrbApErrTktNyv => 33,
            KrbErrorCode::KrbApErrRepeat => 34,
            KrbErrorCode::KrbApErrNotUs => 35,
            KrbErrorCode::KrbApErrBadmatch => 36,
            KrbErrorCode::KrbApErrSkew => 37,
            KrbErrorCode::KrbApErrBadaddr => 38,
            KrbErrorCode::KrbApErrBadversion => 39,
            KrbErrorCode::KrbApErrMsgType => 40,
            KrbErrorCode::KrbApErrModified => 41,
            KrbErrorCode::KrbApErrBadorder => 42,
            KrbErrorCode::KrbApErrBadkeyver => 44,
            KrbErrorCode::KrbApErrNokey => 45,
            KrbErrorCode::KrbApErrMutFail => 46,
            KrbErrorCode::KrbApErrBaddirection => 47,
            KrbErrorCode::KrbApErrMethod => 48,
            KrbErrorCode::KrbApErrBadseq => 49,
            KrbErrorCode::KrbApErrInappCksum => 50,
            KrbErrorCode::KrbApPathNotAccepted => 51,
            KrbErrorCode::KrbErrResponseTooBig => 52,
            KrbErrorCode::KrbErrGeneric => 60,
            KrbErrorCode::KrbErrFieldToolong => 61,
            KrbErrorCode::KdcErrorClientNotTrusted => 62,
            KrbErrorCode::KdcErrorKdcNotTrusted => 63,
            KrbErrorCode::KdcErrorInvalidSig => 64,
            KrbErrorCode::KdcErrKeyTooWeak => 65,
            KrbErrorCode::KdcErrCertificateMismatch => 66,
            KrbErrorCode::KrbApErrNoTgt => 67,
            KrbErrorCode::KdcErrWrongRealm => 68,
            KrbErrorCode::KrbApErrUserToUserRequired => 69,
            KrbErrorCode::KdcErrCantVerifyCertificate => 70,
            KrbErrorCode::KdcErrInvalidCertificate => 71,
            KrbErrorCode::KdcErrRevokedCertificate => 72,
            KrbErrorCode::KdcErrRevocationStatusUnknown => 73,
            KrbErrorCode::KdcErrRevocationStatusUnavailable => 74,
            KrbErrorCode::KdcErrClientNameMismatch => 75,
            KrbErrorCode::KdcErrKdcNameMismatch => 76,
        }
    }

    /// The value that `raw` is registered for, if there is one.
    pub fn from_code(raw: i32) -> (r: Option<KrbErrorCode>)
        ensures
            r == KrbErrorCode::spec_from_code(raw as int),
            r matches Some(v) ==> v.code() == raw,
            r is None <==> !KrbErrorCode::is_registered(raw as int),
    {
        let r = match raw {
            0 => Some(KrbErrorCode::KdcErrNone),
            1 => Some(KrbErrorCode::KdcErrNameExp),
            2 => Some(KrbErrorCode::KdcErrServiceExp),
            3 => Some(KrbErrorCode::KdcErrBadPvno),
            4 => Some(KrbErrorCode::KdcErrCOldMastKvno),
            5 => Some(KrbErrorCode::KdcErrSOldMastKvno),
            6 => Some(KrbErrorCode::KdcErrCPrincipalUnknown),
            7 => Some(KrbErrorCode::KdcErrSPrincipalUnknown),
            8 => Some(KrbErrorCode::KdcErrPrincipalNotUnique),
            9 => Some(KrbErrorCode::KdcErrNullKey),
            10 => Some(KrbErrorCode::KdcErrCannotPostdate),
            11 => Some(KrbErrorCode::KdcErrNeverValid),
            12 => Some(KrbErrorCode::KdcErrPolicy),
            13 => Some(KrbErrorCode::KdcErrBadoption),
            14 => Some(KrbErrorCode::KdcErrEtypeNosupp),
            15 => Some(KrbErrorCode::KdcErrSumtypeNosupp),
            16 => Some(KrbErrorCode::KdcErrPadataTypeNosupp),
            17 => Some(KrbErrorCode::KdcErrTrtypeNosupp),
            18 => Some(KrbErrorCode::KdcErrClientRevoked),
            19 => Some(KrbErrorCode::KdcErrServiceRevoked),
            20 => Some(KrbErrorCode::KdcErrTgtRevoked),
            21 => Some(KrbErrorCode::KdcErrClientNotyet),
            22 => Some(KrbErrorCode::KdcErrServiceNotyet),
            23 => Some(KrbErrorCode::KdcErrKeyExpired),
            24 => Some(KrbErrorCode::KdcErrPreauthFailed),
            25 => Some(KrbErrorCode::KdcErrPreauthRequired),
            26 => Some(KrbErrorCode::KdcErrServerNomatch),
            27 => Some(KrbErrorCode::KdcErrMustUseUser2user),
            28 => Some(KrbErrorCode::KdcErrPathNotAccepted),
            29 => Some(KrbErrorCode::KdcErrSvcUnavailable),
            31 => Some(KrbErrorCode::KrbApErrBadIntegrity),
            32 => Some(KrbErrorCode::KrbApErrTktExpired),
            33 => Some(KrbErrorCode::KrbApErrTktNyv),
            34 => Some(KrbErrorCode::KrbApErrRepeat),
            35 => Some(KrbErrorCode::KrbApErrNotUs),
            36 => Some(KrbErrorCode::KrbApErrBadmatch),
            37 => Some(KrbErrorCode::KrbApErrSkew),
            38 => Some(KrbErrorCode::KrbApErrBadaddr),
            39 => Some(KrbErrorCode::KrbApErrBadversion),
            40 => Some(KrbErrorCode::KrbApErrMsgType),
            41 => Some(KrbErrorCode::KrbApErrModified),
            42 => Some(KrbErrorCode::KrbApErrBadorder),
            44 => Some(KrbErrorCode::KrbApErrBadkeyver),
            45 => Some(KrbErrorCode::KrbApErrNokey),
            46 => Some(KrbErrorCode::KrbApErrMutFail),
            47 => Some(KrbErrorCode::KrbApErrBaddirection),
            48 => Some(KrbErrorCode::KrbApErrMethod),
            49 => Some(KrbErrorCode::KrbApErrBadseq),
            50 => Some(KrbErrorCode::KrbApErrInappCksum),
            51 => Some(KrbErrorCode::KrbApPathNotAccepted),
            52 => Some(KrbErrorCode::KrbErrResponseTooBig),
            60 => Some(KrbErrorCode::KrbErrGeneric),
            61 => Some(KrbErrorCode::KrbErrFieldToolong),
            62 => Some(KrbErrorCode::KdcErrorClientNotTrusted),
            63 => Some(KrbErrorCode::KdcErrorKdcNotTrusted),
            64 => Some(KrbErrorCode::KdcErrorInvalidSig),
            65 => Some(KrbErrorCode::KdcErrKeyTooWeak),
            66 => Some(KrbErrorCode::KdcErrCertificateMismatch),
            67 => Some(KrbErrorCode::KrbApErrNoTgt),
            68 => Some(KrbErrorCode::KdcErrWrongRealm),
            69 => Some(KrbErrorCode::KrbApErrUserToUserRequired),
            70 => Some(KrbErrorCode::KdcErrCantVerifyCertificate),
            71 => Some(KrbErrorCode::KdcErrInvalidCertificate),
            72 => Some(KrbErrorCode::KdcErrRevokedCertificate),
            73 => Some(KrbErrorCode::KdcErrRevocationStatusUnknown),
            74 => Some(KrbErrorCode::KdcErrRevocationStatusUnavailable),
            75 => Some(KrbErrorCode::KdcErrClientNameMismatch),
            76 => Some(KrbErrorCode::KdcErrKdcNameMismatch),
            _ => None,
        };
        proof {
            if let Some(v) = r {
                assert(v.code() == raw as int);
                let chosen = choose|w: KrbErrorCode| w.code() == raw as int;
                KrbErrorCode::lemma_code_injective(chosen, v);
            }
            if r is None {
                assert forall|v: KrbErrorCode| #[trigger] v.code() != raw as int by {
                    KrbErrorCode::lemma_code_range(v);
                }
            }
        }
        r
    }

    /// Every value carries one of the numbers listed above.
    pub proof fn lemma_code_range(v: KrbErrorCode)
        ensures
            v.code() == 0 || v.code() == 1 || v.code() == 2 || v.code() == 3 || v.code()
                == 4 || v.code() == 5 || v.code() == 6 || v.code() == 7 || v.code() == 8
                || v.code() == 9 || v.code() == 10 || v.code() == 11 || v.code() == 12
                || v.code() == 13 || v.code() == 14 || v.code() == 15 || v.code() == 16
                || v.code() == 17 || v.code() == 18 || v.code() == 19 || v.code() == 20
                || v.code() == 21 || v.code() == 22 || v.code() == 23 || v.code() == 24
                || v.code() == 25 || v.code() == 26 || v.code() == 27 || v.code() == 28
                || v.code() == 29 || v.code() == 31 || v.code() == 32 || v.code() == 33
                || v.code() == 34 || v.code() == 35 || v.code() == 36 || v.code() == 37
                || v.code() == 38 || v.code() == 39 || v.code() == 40 || v.code() == 41
                || v.code() == 42 || v.code() == 44 || v.code() == 45 || v.code() == 46
                || v.code() == 47 || v.code() == 48 || v.code() == 49 || v.code() == 50
                || v.code() == 51 || v.code() == 52 || v.code() == 60 || v.code() == 61
                || v.code() == 62 || v.code() == 63 || v.code() == 64 || v.code() == 65
                || v.code() == 66 || v.code() == 67 || v.code() == 68 || v.code() == 69
                || v.code() == 70 || v.code() == 71 || v.code() == 72 || v.code() == 73
                || v.code() == 74 || v.code() == 75 || v.code() == 76,
    {
    }

    /// Two values with the same number are the same value.
    pub proof fn lemma_code_injective(a: KrbErrorCode, b: KrbErrorCode)
        requires
            a.code() == b.code(),
        ensures
            a == b,
    {
    }
}

} // verus!
