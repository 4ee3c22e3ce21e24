use vstd::prelude::*;

verus! {

/// Everything that can go wrong in this library. Each value is an answer that
/// the caller can act on: none of them ends the process.
#[derive(Debug, Clone, Copy, PartialEq, Eq, Structural)]
pub enum KrbError {
    /// A request cannot be written in the wire encoding, for instance because a
    /// name holds a character outside the wire character set.
    DerEncodeKdcReq,
    /// The timestamp of a pre-authentication cannot be written in the wire encoding.
    DerEncodePaEncTsEnc,
    /// An encrypted payload cannot be written in the wire encoding.
    DerEncodeEncryptedData,
    /// The bytes are not the wire encoding of a request.
    DerDecodeKdcReq,
    /// The bytes are not the wire encoding of a reply.
    DerDecodeKdcRep,
    /// The bytes are not the wire encoding of an error message.
    DerDecodeKrbError,
    /// The bytes are not the wire encoding of a sequence of pre-authentication
    /// data.
    DerDecodePaData,
    /// The bytes are not the wire encoding of a sequence of encryption type hints.
    DerDecodeEtypeInfo2,
    /// The bytes are not the wire encoding of a pre-authentication timestamp.
    DerDecodePaEncTsEnc,
    /// The bytes are not the wire encoding of the encrypted part of a reply.
    DerDecodeEncKdcRepPart,
    /// The message starts with a tag that is none of the expected replies.
    UnexpectedTag(u8),
    /// The message carries a protocol version other than 5.
    InvalidPvno(u8),
    /// The message type is not the one that its envelope calls for. The first
    /// number is the type found, the second the type expected.
    InvalidMessageType(i32, i32),
    /// The server reports an error code that the registry does not assign.
    UnknownErrorCode(i32),
    /// The server asks for pre-authentication and says nothing about how.
    MissingPaData,
    /// The name is not that of a principal.
    NameNotPrincipal,
    /// The name type on the wire is none of the three that this library models.
    NameTypeUnsupported(i32),
    /// The name on the wire has too few components for its type.
    NameComponentsMissing,
    /// A name holds a character outside the wire character set.
    NameNotRepresentable,
    /// The encryption type is not one that this library implements.
    UnsupportedEncryption,
    /// The key does not have the length that its encryption type calls for.
    InvalidEncryptionKey,
    /// The string-to-key parameters of a hint are not exactly four bytes.
    PreauthInvalidS2KParams,
    /// The ciphertext is too short, or its integrity tag does not protect the
    /// plaintext that the key yields.
    DecryptionFailed,
    /// A fragment header announces more bytes than the configured maximum.
    FrameTooLarge,
}

/// The five families of failure.
#[derive(Debug, Clone, Copy, PartialEq, Eq, Structural)]
pub enum ErrorKind {
    /// A value of this side cannot be built or written.
    Encoding,
    /// Bytes from the peer are malformed.
    Decoding,
    /// A well-formed message means something that the protocol does not allow.
    Protocol,
    /// A key, an algorithm or an integrity tag is not acceptable.
    Crypto,
    /// The framing of the byte stream is not acceptable.
    Frame,
}

impl KrbError {
    /// The family that this error belongs to.
    pub open spec fn spec_kind(self) -> ErrorKind {
        match self {
            KrbError::DerEncodeKdcReq
            | KrbError::DerEncodePaEncTsEnc
            | KrbError::DerEncodeEncryptedData
            | KrbError::NameNotRepresentable => ErrorKind::Encoding,
            KrbError::DerDecodeKdcReq
            | KrbError::DerDecodeKdcRep
            | KrbError::DerDecodeKrbError
            | KrbError::DerDecodePaData
            | KrbError::DerDecodeEtypeInfo2
            | KrbError::DerDecodePaEncTsEnc
            | KrbError::DerDecodeEncKdcRepPart => ErrorKind::Decoding,
            KrbError::UnexpectedTag(_)
            | KrbError::InvalidPvno(_)
            | KrbError::InvalidMessageType(_, _)
            | KrbError::UnknownErrorCode(_)
            | KrbError::MissingPaData
            | KrbError::NameNotPrincipal
            | KrbError::NameTypeUnsupported(_)
            | KrbError::NameComponentsMissing => ErrorKind::Protocol,
            KrbError::UnsupportedEncryption
            | KrbError::InvalidEncryptionKey
            | KrbError::PreauthInvalidS2KParams
            | KrbError::DecryptionFailed => ErrorKind::Crypto,
            KrbError::FrameTooLarge => ErrorKind::Frame,
        }
    }

    /// The family that this error belongs to.
    pub fn kind(&self) -> (k: ErrorKind)
        ensures
            k == self.spec_kind(),
    {
        match self {
            KrbError::DerEncodeKdcReq
            | KrbError::DerEncodePaEncTsEnc
            | KrbError::DerEncodeEncryptedData
            | KrbError::NameNotRepresentable => ErrorKind::Encoding,
            KrbError::DerDecodeKdcReq
            | KrbError::DerDecodeKdcRep
            | KrbError::DerDecodeKrbError
            | KrbError::DerDecodePaData
            | KrbError::DerDecodeEtypeInfo2
            | KrbError::DerDecodePaEncTsEnc
            | KrbError::DerDecodeEncKdcRepPart => ErrorKind::Decoding,
            KrbError::UnexpectedTag(_)
            | KrbError::InvalidPvno(_)
            | KrbError::InvalidMessageType(_, _)
            | KrbError::UnknownErrorCode(_)
            | KrbError::MissingPaData
            | KrbError::NameNotPrincipal
            | KrbError::NameTypeUnsupported(_)
            | KrbError::NameComponentsMissing => ErrorKind::Protocol,
            KrbError::UnsupportedEncryption
            | KrbError::InvalidEncryptionKey
            | KrbError::PreauthInvalidS2KParams
            | KrbError::DecryptionFailed => ErrorKind::Crypto,
            KrbError::FrameTooLarge => ErrorKind::Frame,
        }
    }
}

} // verus!
