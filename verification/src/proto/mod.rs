//! The protocol as a client sees it: names, keys, pre-authentication, requests
//! and replies.

pub mod keys;
pub mod name;
pub mod preauth;
pub mod reply;
pub mod request;
pub mod strength;

pub use self::keys::{BaseKey, DerivedKey, EncryptedData, EtypeInfo2, KdcPrimaryKey, SessionKey};
pub use self::name::Name;
pub use self::preauth::{KerberosPaRep, Preauth, PreauthData};
pub use self::reply::{
    KdcReplyPart, KerberosAsRep, KerberosErrRep, KerberosResponse, KerberosTgsRep, Ticket,
};
pub use self::request::{KerberosAsReq, KerberosAsReqBuilder, KerberosRequest};
pub use self::strength::sort_cryptographic_strength;
pub use crate::asn1::pa_data::PreAuthData;
