//! Checksums of release files: SHA-256 and SHA-512 digests from the `sha2`
//! crate written as lower-case hex, and the fallback length fingerprint.

use vstd::prelude::*;
use crate::text::{digits, digits_exec, digit_char};

verus! {

/// The SHA-256 digest of some bytes, as the `sha2` crate computes it.
pub uninterp spec fn sha256_digest(data: Seq<u8>) -> Seq<u8>;

/// The SHA-512 digest of some bytes, as the `sha2` crate computes it.
pub uninterp spec fn sha512_digest(data: Seq<u8>) -> Seq<u8>;

/// Calls `sha2::Sha256::digest`. Claimed: the result is the digest of
/// `data` (a function of `data` alone) and is 32 bytes long, as the crate's
/// output size says; what the digest is, is not stated.
#[verifier::external_body]
fn sha256(data: &[u8]) -> (r: Vec<u8>)
    ensures
        r@ == sha256_digest(data@),
        r@.len() == 32,
{
    <sha2::Sha256 as sha2::Digest>::digest(data).to_vec()
}

/// Calls `sha2::Sha512::digest`. Claimed: the result is the digest of
/// `data` (a function of `data` alone) and is 64 bytes long, as the crate's
/// output size says; what the digest is, is not stated.
#[verifier::external_body]
fn sha512(data: &[u8]) -> (r: Vec<u8>)
    ensures
        r@ == sha512_digest(data@),
        r@.len() == 64,
{
    <sha2::Sha512 as sha2::Digest>::digest(data).to_vec()
}

/// Bytes written as two lower-case hex digits each.
pub open spec fn hex_bytes(b: Seq<u8>) -> Seq<char>
    decreases b.len(),
{
    if b.len() == 0 {
        seq![]
    } else {
        hex_bytes(b.drop_last()) + seq![digit_char((b.last() / 16) as nat), digit_char((b.last() % 16) as nat)]
    }
}

/// `n` in lower-case hex, padded with zeros to at least `width` digits.
pub open spec fn padded_hex(n: nat, width: nat) -> Seq<char> {
    let d = digits(n, 16);
    if d.len() < width {
        Seq::new((width - d.len()) as nat, |i: int| '0') + d
    } else {
        d
    }
}

/// Writes bytes as lower-case hex.
pub fn hex_of_bytes(b: &[u8]) -> (r: String)
    ensures
        r@ == hex_bytes(b@),
{
    let mut out: Vec<char> = Vec::new();
    let mut i: usize = 0;
    while i < b.len()
        invariant
            i <= b@.len(),
            out@ == hex_bytes(b@.subrange(0, i as int)),
        decreases b@.len() - i,
    {
        let x = b[i];
        let hi = digits_exec((x / 16) as u64, 16);
        let lo = digits_exec((x % 16) as u64, 16);
        assert(hi@ == seq![digit_char((x / 16) as nat)]);
        assert(lo@ == seq![digit_char((x % 16) as nat)]);
        out.push(hi[0]);
        out.push(lo[0]);
        i = i + 1;
        proof {
            let t = b@.subrange(0, i as int);
            assert(t.drop_last() =~= b@.subrange(0, i - 1));
            assert(t.last() == x);
        }
    }
    assert(b@.subrange(0, b@.len() as int) =~= b@);
    crate::text::string_from_chars(out.as_slice())
}

/// `n` in lower-case hex, padded with zeros to at least eight digits (as
/// `format!("{:08x}", n)`).
pub fn hex8(n: u64) -> (r: String)
    ensures
        r@ == padded_hex(n as nat, 8),
{
    let d = digits_exec(n, 16);
    let mut out: Vec<char> = Vec::new();
    if d.len() < 8 {
        let pad = 8 - d.len();
        let mut i: usize = 0;
        while i < pad
            invariant
                i <= pad,
                out@ == Seq::new(i as nat, |j: int| '0'),
            decreases pad - i,
        {
            out.push('0');
            i = i + 1;
            assert(out@ =~= Seq::new(i as nat, |j: int| '0'));
        }
    }
    let ghost zeros = out@;
    let mut k: usize = 0;
    while k < d.len()
        invariant
            k <= d@.len(),
            out@ == zeros + d@.subrange(0, k as int),
        decreases d@.len() - k,
    {
        out.push(d[k]);
        k = k + 1;
        assert(out@ =~= zeros + d@.subrange(0, k as int));
    }
    assert(d@.subrange(0, d@.len() as int) =~= d@);
    assert(out@ =~= padded_hex(n as nat, 8));
    crate::text::string_from_chars(out.as_slice())
}

/// The SHA-256 digest of `data` in lower-case hex.
pub fn sha256_hex(data: &[u8]) -> (r: String)
    ensures
        r@ == hex_bytes(sha256_digest(data@)),
{
    let d = sha256(data);
    hex_of_bytes(d.as_slice())
}

/// The SHA-512 digest of `data` in lower-case hex.
pub fn sha512_hex(data: &[u8]) -> (r: String)
    ensures
        r@ == hex_bytes(sha512_digest(data@)),
{
    let d = sha512(data);
    hex_of_bytes(d.as_slice())
}

} // verus!
