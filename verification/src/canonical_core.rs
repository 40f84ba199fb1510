//! The canonicalization pipeline of SCED offers: key order, canonical text,
//! hashing, CSV intake and chain construction.

pub mod canonicalize;
pub mod hash;
pub mod serialize;
pub mod sort;
