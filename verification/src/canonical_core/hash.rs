//! Record and chain-link hashes.

use vstd::prelude::*;
use crate::digest::sha256_hex_str;
use crate::text::{push_str, string_push};
use crate::canonical_core::serialize::canonical_record_string_utf8;
use crate::sced_offer_chain::{ScedResourceOfferRecord, record_hash_of, link_hash};

verus! {

/// Lowercase hex SHA-256 of the UTF-8 bytes of `input`.
pub fn sha256_hex(input: &str) -> (res: String)
    ensures
        res@ == crate::digest::sha256_hex_of(vstd::utf8::encode_utf8(input@)),
        res@.len() == 64,
{
    sha256_hex_str(input)
}

/// The record hash of `record`.
pub fn record_hash_hex(record: &ScedResourceOfferRecord) -> (res: String)
    ensures
        res@ == record_hash_of(record@),
        res@.len() == 64,
{
    let text = canonical_record_string_utf8(record);
    sha256_hex_str(text.as_str())
}

/// The chain hash that follows `previous_chain_hash` for a record with `record_hash`.
pub fn chain_hash_hex(previous_chain_hash: &str, record_hash: &str) -> (res: String)
    ensures
        res@ == link_hash(previous_chain_hash@, record_hash@),
        res@ == crate::digest::sha256_hex_of(
            vstd::utf8::encode_utf8(previous_chain_hash@ + seq!['|'] + record_hash@),
        ),
        res@.len() == 64,
{
    let mut joined = String::new();
    push_str(&mut joined, previous_chain_hash);
    string_push(&mut joined, '|');
    push_str(&mut joined, record_hash);
    proof {
        assert(joined@ =~= previous_chain_hash@ + seq!['|'] + record_hash@);
    }
    sha256_hex_str(joined.as_str())
}

} // verus!
