//! SHA-256 and lowercase hexadecimal encoding, and the little-endian integer
//! layouts that the hashed records are built from.

use vstd::prelude::*;
use sha2::{Digest, Sha256};

verus! {

/// The SHA-256 digest of `data`.
pub uninterp spec fn sha256(data: Seq<u8>) -> Seq<u8>;

/// `sha2::Sha256::digest`: the SHA-256 digest of `data`, as 32 bytes.
/// Claimed: the result is `sha256(data)` and is 32 bytes long (the digest size
/// of SHA-256); nothing else is said of the digest function.
#[verifier::external_body]
pub(crate) fn sha256_digest(data: &[u8]) -> (res: Vec<u8>)
    ensures
        res@ == sha256(data@),
        res@.len() == 32,
{
    Sha256::digest(data).to_vec()
}

/// The lowercase hexadecimal digit of `n` (`n < 16`).
pub open spec fn hex_digit(n: int) -> char {
    if n < 10 {
        crate::text::digit_char(n)
    } else if n == 10 {
        'a'
    } else if n == 11 {
        'b'
    } else if n == 12 {
        'c'
    } else if n == 13 {
        'd'
    } else if n == 14 {
        'e'
    } else {
        'f'
    }
}

/// Lowercase hexadecimal text of `bytes`: two digits per byte, high nibble first.
pub open spec fn hex_lower(bytes: Seq<u8>) -> Seq<char>
    decreases bytes.len(),
{
    if bytes.len() == 0 {
        Seq::empty()
    } else {
        hex_lower(bytes.drop_last()) + seq![
            hex_digit((bytes.last() / 16) as int),
            hex_digit((bytes.last() % 16) as int),
        ]
    }
}

/// `hex::encode`: lowercase hexadecimal text of `data`.
/// Claimed: two lowercase digits per byte, high nibble first, in byte order
/// (the table `0123456789abcdef` of the `hex` crate).
#[verifier::external_body]
pub(crate) fn hex_encode(data: &[u8]) -> (res: String)
    ensures
        res@ == hex_lower(data@),
{
    hex::encode(data)
}

/// `hex_lower` has two characters per byte.
pub proof fn lemma_hex_lower_len(bytes: Seq<u8>)
    ensures
        hex_lower(bytes).len() == 2 * bytes.len(),
    decreases bytes.len(),
{
    if bytes.len() > 0 {
        lemma_hex_lower_len(bytes.drop_last());
    }
}

/// Lowercase hex of the SHA-256 digest of `data`.
pub open spec fn sha256_hex_of(data: Seq<u8>) -> Seq<char> {
    hex_lower(sha256(data))
}

/// The `n`-byte little-endian layout of `x` (the low `n` bytes).
pub open spec fn le_bytes(x: nat, n: nat) -> Seq<u8>
    decreases n,
{
    if n == 0 {
        Seq::empty()
    } else {
        seq![(x % 256) as u8] + le_bytes(x / 256, (n - 1) as nat)
    }
}

/// Appends the `n`-byte little-endian layout of `x` to `out` (`to_le_bytes` of
/// the `n`-byte unsigned integer type).
pub fn push_le_bytes(out: &mut Vec<u8>, x: u128, n: usize)
    requires
        n <= 16,
    ensures
        final(out)@ == old(out)@ + le_bytes(x as nat, n as nat),
    decreases n,
{
    if n > 0 {
        out.push((x % 256) as u8);
        push_le_bytes(out, x / 256, n - 1);
        proof {
            assert(le_bytes(x as nat, n as nat) == seq![(x % 256) as u8] + le_bytes(
                (x / 256) as nat,
                (n - 1) as nat,
            ));
            assert(old(out)@ + le_bytes(x as nat, n as nat) =~= old(out)@.push((x % 256) as u8)
                + le_bytes((x / 256) as nat, (n - 1) as nat));
        }
    }
}

/// Appends all of `data` to `out`.
pub fn push_all(out: &mut Vec<u8>, data: &[u8])
    ensures
        final(out)@ == old(out)@ + data@,
{
    let mut i: usize = 0;
    while i < data.len()
        invariant
            i <= data@.len(),
            out@ == old(out)@ + data@.subrange(0, i as int),
        decreases data@.len() - i,
    {
        out.push(data[i]);
        i += 1;
        proof {
            assert(data@.subrange(0, i as int) =~= data@.subrange(0, i - 1).push(data@[i - 1]));
        }
    }
    proof {
        assert(data@.subrange(0, data@.len() as int) =~= data@);
    }
}

/// Lowercase hex of the SHA-256 digest of `data`.
pub fn sha256_hex(data: &[u8]) -> (res: String)
    ensures
        res@ == sha256_hex_of(data@),
        res@.len() == 64,
{
    let d = sha256_digest(data);
    proof {
        lemma_hex_lower_len(d@);
    }
    hex_encode(d.as_slice())
}

/// Lowercase hex of the SHA-256 digest of the UTF-8 bytes of `text`.
pub fn sha256_hex_str(text: &str) -> (res: String)
    ensures
        res@ == sha256_hex_of(vstd::utf8::encode_utf8(text@)),
        res@.len() == 64,
{
    sha256_hex(text.as_bytes())
}

} // verus!
