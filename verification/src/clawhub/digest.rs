//! Content hashes: the SHA-256 digest of an artifact, in lower-case
//! hexadecimal.

use vstd::prelude::*;

verus! {

/// The SHA-256 digest of `data`.
pub uninterp spec fn sha256(data: Seq<u8>) -> Seq<u8>;

/// `sha2::Sha256::digest`: the digest is a function of the bytes alone.
#[verifier::external_body]
fn sha256_digest(data: &[u8]) -> (r: Vec<u8>)
    ensures
        r@ == sha256(data@),
{
    let digest = <sha2::Sha256 as sha2::Digest>::digest(data);
    digest.to_vec()
}

/// The hexadecimal digit of a value below 16.
pub open spec fn hex_digit(nibble: int) -> char {
    "0123456789abcdef"@[nibble]
}

/// Two lower-case hexadecimal digits per byte, the high half first.
pub open spec fn hex(data: Seq<u8>) -> Seq<char> {
    Seq::new(
        2 * data.len(),
        |i: int|
            if i % 2 == 0 {
                hex_digit(data[i / 2] as int / 16)
            } else {
                hex_digit(data[i / 2] as int % 16)
            },
    )
}

/// The content hash of an artifact.
pub open spec fn content_hash_of(data: Seq<u8>) -> Seq<char> {
    hex(sha256(data))
}

/// Writes bytes in lower-case hexadecimal.
pub fn to_hex(data: &[u8]) -> (r: String)
    ensures
        r@ == hex(data@),
{
    let digits = "0123456789abcdef";
    proof {
        reveal_strlit("0123456789abcdef");
    }
    let mut out = String::new();
    let mut i: usize = 0;
    while i < data.len()
        invariant
            i <= data.len(),
            digits@ == "0123456789abcdef"@,
            digits@.len() == 16,
            out@ == hex(data@.take(i as int)),
        decreases data.len() - i,
    {
        let byte: u8 = data[i];
        let high: usize = (byte / 16) as usize;
        let low: usize = (byte % 16) as usize;
        let ghost before = out@;
        out.push(digits.get_char(high));
        out.push(digits.get_char(low));
        proof {
            let next = hex(data@.take(i + 1));
            assert(out@.len() == next.len());
            assert forall|k: int| 0 <= k < next.len() implies out@[k] == next[k] by {
                if k < 2 * i {
                    assert(out@[k] == before[k]);
                    assert(data@.take(i + 1)[k / 2] == data@.take(i as int)[k / 2]);
                } else {
                    assert(k / 2 == i);
                    assert(data@.take(i + 1)[k / 2] == byte);
                }
            }
            assert(out@ =~= next);
        }
        i += 1;
    }
    assert(data@.take(data@.len() as int) =~= data@);
    out
}

/// The content hash of an artifact: its SHA-256 digest in lower-case
/// hexadecimal.
pub fn content_hash(data: &[u8]) -> (r: String)
    ensures
        r@ == content_hash_of(data@),
{
    let digest = sha256_digest(data);
    to_hex(digest.as_slice())
}

} // verus!
