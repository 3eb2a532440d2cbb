//! SHA-256 digests, and the fingerprints made of them.
use sha2::{Digest, Sha256};
use vstd::prelude::*;

use crate::hexadecimal;

verus! {

/// The SHA-256 digest of some bytes.
pub uninterp spec fn digest_of(bytes: Seq<u8>) -> Seq<u8>;

/// `sha2::Sha256::digest` (`Digest`), the digest of the bytes, which is 32
/// bytes long.
#[verifier::external_body]
fn sha256(bytes: &[u8]) -> (r: Vec<u8>)
    ensures
        r@ == digest_of(bytes@),
        r@.len() == 32,
{
    Sha256::digest(bytes).to_vec()
}

/// The digest of some bytes in hexadecimal digits.
pub open spec fn fingerprint_of(bytes: Seq<u8>) -> Seq<char> {
    hexadecimal::hex_encoded(digest_of(bytes))
}

/// The digest of some bytes in hexadecimal digits, by which a certificate is
/// known; see [`fingerprint_of`].
pub fn fingerprint(bytes: &[u8]) -> (r: String)
    ensures
        r@ == fingerprint_of(bytes@),
{
    let digest = sha256(bytes);
    hexadecimal::encode(digest.as_slice())
}

/// A fingerprint spells the digest: two lower-case digits for each byte, the
/// upper half first.
pub proof fn fingerprints_spell_digests(bytes: Seq<u8>)
    ensures
        hexadecimal::spells(fingerprint_of(bytes), digest_of(bytes)),
        forall|i: int|
            0 <= i < fingerprint_of(bytes).len() ==> !('A' <= #[trigger] fingerprint_of(bytes)[i]
                <= 'F'),
{
    hexadecimal::decoding_keeps_every_byte(fingerprint_of(bytes), digest_of(bytes));
}

} // verus!
