//! How encryption types rank against each other.

use crate::constants::EncryptionType;
use crate::proto::keys::EtypeInfo2;
use std::cmp::Ordering;
use vstd::prelude::*;

verus! {

/// Rank of the strongest encryption type that hints are ranked by.
pub const STRENGTH_AES256: u8 = 2;

/// Rank of the second strongest encryption type that hints are ranked by.
pub const STRENGTH_AES128: u8 = 1;

/// Rank of every other encryption type.
pub const STRENGTH_OTHER: u8 = 0;

/// The rank of an encryption type: AES-256 with HMAC-SHA-1 before AES-128
/// with HMAC-SHA-1 before everything else.
pub open spec fn spec_strength(etype: EncryptionType) -> u8 {
    match etype {
        EncryptionType::AES256_CTS_HMAC_SHA1_96 => STRENGTH_AES256,
        EncryptionType::AES128_CTS_HMAC_SHA1_96 => STRENGTH_AES128,
        _ => STRENGTH_OTHER,
    }
}

/// The rank of an encryption type.
pub fn strength(etype: EncryptionType) -> (rank: u8)
    ensures
        rank == spec_strength(etype),
{
    match etype {
        EncryptionType::AES256_CTS_HMAC_SHA1_96 => STRENGTH_AES256,
        EncryptionType::AES128_CTS_HMAC_SHA1_96 => STRENGTH_AES128,
        _ => STRENGTH_OTHER,
    }
}

/// Orders two hints so that the stronger one comes first. Hints of the same
/// rank are equal.
pub fn sort_cryptographic_strength(a: &EtypeInfo2, b: &EtypeInfo2) -> (order: Ordering)
    ensures
        match order {
            Ordering::Less => spec_strength(a@.etype) > spec_strength(b@.etype),
            Ordering::Equal => spec_strength(a@.etype) == spec_strength(b@.etype),
            Ordering::Greater => spec_strength(a@.etype) < spec_strength(b@.etype),
        },
{
    let left = strength(a.etype());
    let right = strength(b.etype());
    if left > right {
        Ordering::Less
    } else if left < right {
        Ordering::Greater
    } else {
        Ordering::Equal
    }
}

} // verus!
