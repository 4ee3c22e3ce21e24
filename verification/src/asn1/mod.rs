//! The protocol's messages as they stand on the wire, and how they are read
//! from and written to bytes.

pub mod der;
pub mod encrypted_data;
pub mod kdc_rep;
pub mod kdc_req;
pub mod krb_error;
pub mod pa_data;
pub mod principal_name;
pub mod ticket;
