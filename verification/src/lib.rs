//! Client side of the Kerberos authentication protocol: requests, replies,
//! pre-authentication, key derivation, encrypted payloads and the record
//! marking that carries one message over a byte stream.

pub mod asn1;
pub mod codec;
pub mod constants;
pub mod crypto;
pub mod error;
pub mod proto;

pub use crate::codec::KerberosTcpCodec;
