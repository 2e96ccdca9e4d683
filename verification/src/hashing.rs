//! One-way hashing of plaintext secrets into the stored credential form:
//! a SHA-256 digest rendered as lowercase hexadecimal.

use vstd::prelude::*;

verus! {

/// The SHA-256 digest of the UTF-8 encoding of a character string.
/// Left uninterpreted: the digest is a fixed function of the input alone,
/// computed by the `ring` crate.
pub uninterp spec fn sha256_of(s: Seq<char>) -> Seq<u8>;

/// Strings surely within the digest's input limit: SHA-256 accepts a little
/// under 2^61 bytes, and a character takes at most four bytes of UTF-8.
/// Every string that fits in memory is far below this bound.
pub open spec fn hashable(s: Seq<char>) -> bool {
    s.len() < 0x0800000000000000
}

/// The sixteen lowercase hexadecimal digit characters, in value order.
pub open spec fn hex_digit(d: int) -> char
    recommends
        0 <= d < 16,
{
    if d == 0 {
        '0'
    } else if d == 1 {
        '1'
    } else if d == 2 {
        '2'
    } else if d == 3 {
        '3'
    } else if d == 4 {
        '4'
    } else if d == 5 {
        '5'
    } else if d == 6 {
        '6'
    } else if d == 7 {
        '7'
    } else if d == 8 {
        '8'
    } else if d == 9 {
        '9'
    } else if d == 10 {
        'a'
    } else if d == 11 {
        'b'
    } else if d == 12 {
        'c'
    } else if d == 13 {
        'd'
    } else if d == 14 {
        'e'
    } else {
        'f'
    }
}

/// Lowercase hexadecimal rendering of a byte string: two digits per byte,
/// high nibble first.
pub open spec fn hex_of(bytes: Seq<u8>) -> Seq<char>
    decreases bytes.len(),
{
    if bytes.len() == 0 {
        Seq::<char>::empty()
    } else {
        seq![hex_digit(bytes.first() as int / 16), hex_digit(bytes.first() as int % 16)]
            + hex_of(bytes.drop_first())
    }
}

/// The stored form of a secret: its SHA-256 digest as lowercase hex.
pub open spec fn spec_hash(s: Seq<char>) -> Seq<char> {
    hex_of(sha256_of(s))
}

/// A hexadecimal rendering is exactly twice as long as the bytes it renders.
pub proof fn lemma_hex_of_len(bytes: Seq<u8>)
    ensures
        hex_of(bytes).len() == 2 * bytes.len(),
    decreases bytes.len(),
{
    if bytes.len() > 0 {
        lemma_hex_of_len(bytes.drop_first());
    }
}

/// Every character of a hexadecimal rendering is one of the sixteen digit
/// characters; in particular it is neither a comma nor a line break.
pub proof fn lemma_hex_of_digits(bytes: Seq<u8>)
    ensures
        forall|i: int|
            0 <= i < hex_of(bytes).len() ==> exists|d: int|
                0 <= d < 16 && #[trigger] hex_of(bytes)[i] == hex_digit(d),
    decreases bytes.len(),
{
    if bytes.len() > 0 {
        lemma_hex_of_digits(bytes.drop_first());
        assert forall|i: int| 0 <= i < hex_of(bytes).len() implies exists|d: int|
            0 <= d < 16 && #[trigger] hex_of(bytes)[i] == hex_digit(d) by {
            if i == 0 {
                let d = bytes.first() as int / 16;
                assert(0 <= d < 16 && hex_of(bytes)[i] == hex_digit(d));
            } else if i == 1 {
                let d = bytes.first() as int % 16;
                assert(0 <= d < 16 && hex_of(bytes)[i] == hex_digit(d));
            } else {
                assert(hex_of(bytes)[i] == hex_of(bytes.drop_first())[i - 2]);
            }
        }
    }
}

/// Relies on `ring::digest::digest` with the SHA-256 algorithm: the digest
/// depends on the input bytes alone and is 32 bytes long. The function
/// panics past the algorithm's input limit, which `hashable` keeps out.
#[verifier::external_body]
fn sha256_digest(s: &str) -> (r: Vec<u8>)
    requires
        hashable(s@),
    ensures
        r@ == sha256_of(s@),
        r@.len() == 32,
{
    let digest = ring::digest::digest(&ring::digest::SHA256, s.as_bytes());
    digest.as_ref().to_vec()
}

/// Relies on `hex::encode`: lowercase output, two digits per byte, high
/// nibble first.
#[verifier::external_body]
fn hex_encode(bytes: &[u8]) -> (r: String)
    ensures
        r@ == hex_of(bytes@),
{
    hex::encode(bytes)
}

/// Hash a plaintext secret into its stored credential form: a 64-character
/// lowercase hexadecimal digest. Pure, and defined for every string the
/// digest's input limit admits.
pub fn hash_secret(secret: &str) -> (r: String)
    requires
        hashable(secret@),
    ensures
        r@ == spec_hash(secret@),
        r@.len() == 64,
{
    let digest = sha256_digest(secret);
    let rendered = hex_encode(digest.as_slice());
    proof {
        lemma_hex_of_len(sha256_of(secret@));
    }
    rendered
}

/// Hashing is deterministic: two equal plaintexts always hash to the same
/// stored credential.
pub proof fn lemma_hash_deterministic(s1: Seq<char>, s2: Seq<char>)
    requires
        s1 == s2,
    ensures
        spec_hash(s1) == spec_hash(s2),
{
}

} // verus!
