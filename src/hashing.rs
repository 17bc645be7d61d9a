//! Hash algorithms offered for text, and the lowercase hex form of a digest.

use sha3::{Digest, Sha3_224, Sha3_256, Sha3_384, Sha3_512};
use vstd::prelude::*;
use vstd::string::{StrSliceExecFns, StringExecFns, StringSliceAdditionalSpecFns};

verus! {

/// The SHA3-224 digest of `b`.
pub uninterp spec fn sha3_224_of(b: Seq<u8>) -> Seq<u8>;

/// The SHA3-256 digest of `b`.
pub uninterp spec fn sha3_256_of(b: Seq<u8>) -> Seq<u8>;

/// The SHA3-384 digest of `b`.
pub uninterp spec fn sha3_384_of(b: Seq<u8>) -> Seq<u8>;

/// The SHA3-512 digest of `b`.
pub uninterp spec fn sha3_512_of(b: Seq<u8>) -> Seq<u8>;

/// Relies on `sha3::Sha3_224` through `Digest::digest`: a 28-byte digest that depends
/// on the input alone.
#[verifier::external_body]
fn sha3_224_digest(data: &[u8]) -> (r: Vec<u8>)
    ensures
        r@ == sha3_224_of(data@),
        r@.len() == 28,
{
    Sha3_224::digest(data).to_vec()
}

/// Relies on `sha3::Sha3_256` through `Digest::digest`: a 32-byte digest that depends
/// on the input alone.
#[verifier::external_body]
fn sha3_256_digest(data: &[u8]) -> (r: Vec<u8>)
    ensures
        r@ == sha3_256_of(data@),
        r@.len() == 32,
{
    Sha3_256::digest(data).to_vec()
}

/// Relies on `sha3::Sha3_384` through `Digest::digest`: a 48-byte digest that depends
/// on the input alone.
#[verifier::external_body]
fn sha3_384_digest(data: &[u8]) -> (r: Vec<u8>)
    ensures
        r@ == sha3_384_of(data@),
        r@.len() == 48,
{
    Sha3_384::digest(data).to_vec()
}

/// Relies on `sha3::Sha3_512` through `Digest::digest`: a 64-byte digest that depends
/// on the input alone.
#[verifier::external_body]
fn sha3_512_digest(data: &[u8]) -> (r: Vec<u8>)
    ensures
        r@ == sha3_512_of(data@),
        r@.len() == 64,
{
    Sha3_512::digest(data).to_vec()
}

/// The digest functions offered for text.
#[derive(Clone, Copy, Debug, PartialEq, Eq, Structural)]
pub enum HashAlgorithm {
    Sha3_224,
    Sha3_256,
    Sha3_384,
    Sha3_512,
}

/// The name shown for an algorithm.
pub open spec fn algorithm_name(a: HashAlgorithm) -> Seq<char> {
    match a {
        HashAlgorithm::Sha3_224 => "SHA3-224"@,
        HashAlgorithm::Sha3_256 => "SHA3-256"@,
        HashAlgorithm::Sha3_384 => "SHA3-384"@,
        HashAlgorithm::Sha3_512 => "SHA3-512"@,
    }
}

/// Every algorithm, in the order in which they are offered.
pub open spec fn all_algorithms() -> Seq<HashAlgorithm> {
    seq![
        HashAlgorithm::Sha3_224,
        HashAlgorithm::Sha3_256,
        HashAlgorithm::Sha3_384,
        HashAlgorithm::Sha3_512,
    ]
}

/// The digest of `b` under `a`.
pub open spec fn digest_of(a: HashAlgorithm, b: Seq<u8>) -> Seq<u8> {
    match a {
        HashAlgorithm::Sha3_224 => sha3_224_of(b),
        HashAlgorithm::Sha3_256 => sha3_256_of(b),
        HashAlgorithm::Sha3_384 => sha3_384_of(b),
        HashAlgorithm::Sha3_512 => sha3_512_of(b),
    }
}

/// The length in bytes of a digest under `a`.
pub open spec fn digest_len(a: HashAlgorithm) -> nat {
    match a {
        HashAlgorithm::Sha3_224 => 28,
        HashAlgorithm::Sha3_256 => 32,
        HashAlgorithm::Sha3_384 => 48,
        HashAlgorithm::Sha3_512 => 64,
    }
}

/// The sixteen lowercase hex digits.
pub open spec fn hex_digits() -> Seq<char> {
    seq!['0', '1', '2', '3', '4', '5', '6', '7', '8', '9', 'a', 'b', 'c', 'd', 'e', 'f']
}

/// Two lowercase hex digits per byte, high nibble first.
pub open spec fn hex_of(b: Seq<u8>) -> Seq<char>
    decreases b.len(),
{
    if b.len() == 0 {
        Seq::empty()
    } else {
        hex_of(b.drop_last()) + seq![
            hex_digits()[(b.last() / 16) as int],
            hex_digits()[(b.last() % 16) as int],
        ]
    }
}

/// A lowercase hex digit.
pub open spec fn is_hex_digit(c: char) -> bool {
    ('0' <= c && c <= '9') || ('a' <= c && c <= 'f')
}

proof fn lemma_hex_digits()
    ensures
        forall|j: int| 0 <= j < 16 ==> is_hex_digit(#[trigger] hex_digits()[j]),
{
    assert forall|j: int| 0 <= j < 16 implies is_hex_digit(#[trigger] hex_digits()[j]) by {
        if j < 8 {
            if j < 4 {
                if j == 0 {} else if j == 1 {} else if j == 2 {} else {}
            } else {
                if j == 4 {} else if j == 5 {} else if j == 6 {} else {}
            }
        } else {
            if j < 12 {
                if j == 8 {} else if j == 9 {} else if j == 10 {} else {}
            } else {
                if j == 12 {} else if j == 13 {} else if j == 14 {} else {}
            }
        }
    }
}

/// The hex form has two characters per byte, each a lowercase hex digit.
pub proof fn lemma_hex_of(b: Seq<u8>)
    ensures
        hex_of(b).len() == 2 * b.len(),
        forall|i: int| 0 <= i < hex_of(b).len() ==> is_hex_digit(#[trigger] hex_of(b)[i]),
    decreases b.len(),
{
    if b.len() > 0 {
        lemma_hex_of(b.drop_last());
        lemma_hex_digits();
        let h = hex_of(b.drop_last());
        let hi = hex_digits()[(b.last() / 16) as int];
        let lo = hex_digits()[(b.last() % 16) as int];
        assert(is_hex_digit(hi));
        assert(is_hex_digit(lo));
        assert forall|i: int| 0 <= i < hex_of(b).len() implies is_hex_digit(#[trigger] hex_of(b)[i]) by {
            if i < h.len() {
                assert(hex_of(b)[i] == h[i]);
            } else if i == h.len() {
                assert(hex_of(b)[i] == hi);
            } else {
                assert(hex_of(b)[i] == lo);
            }
        }
    }
}

impl HashAlgorithm {
    /// The name shown for this algorithm.
    pub fn to_string(&self) -> (r: String)
        ensures
            r@ == algorithm_name(*self),
    {
        match self {
            HashAlgorithm::Sha3_224 => String::from_str("SHA3-224"),
            HashAlgorithm::Sha3_256 => String::from_str("SHA3-256"),
            HashAlgorithm::Sha3_384 => String::from_str("SHA3-384"),
            HashAlgorithm::Sha3_512 => String::from_str("SHA3-512"),
        }
    }

    /// Every algorithm, in the order in which they are offered.
    pub fn to_vec(&self) -> (r: Vec<HashAlgorithm>)
        ensures
            r@ == all_algorithms(),
    {
        let r = vec![
            HashAlgorithm::Sha3_224,
            HashAlgorithm::Sha3_256,
            HashAlgorithm::Sha3_384,
            HashAlgorithm::Sha3_512,
        ];
        assert(r@ =~= all_algorithms());
        r
    }
}

/// The digest of `data` under `algorithm`.
pub fn digest(algorithm: HashAlgorithm, data: &[u8]) -> (r: Vec<u8>)
    ensures
        r@ == digest_of(algorithm, data@),
        r@.len() == digest_len(algorithm),
{
    match algorithm {
        HashAlgorithm::Sha3_224 => sha3_224_digest(data),
        HashAlgorithm::Sha3_256 => sha3_256_digest(data),
        HashAlgorithm::Sha3_384 => sha3_384_digest(data),
        HashAlgorithm::Sha3_512 => sha3_512_digest(data),
    }
}

/// The lowercase hex form of `bytes`.
pub fn hex_text(bytes: &[u8]) -> (r: String)
    ensures
        r@ == hex_of(bytes@),
{
    let digits: &str = "0123456789abcdef";
    proof {
        reveal_strlit("0123456789abcdef");
    }
    assert(digits@ =~= hex_digits());
    let mut out = String::new();
    let mut i: usize = 0;
    while i < bytes.len()
        invariant
            i <= bytes@.len(),
            out@ == hex_of(bytes@.subrange(0, i as int)),
            digits@ == hex_digits(),
        decreases bytes@.len() - i,
    {
        let b = bytes[i];
        let hi = (b / 16) as usize;
        let lo = (b % 16) as usize;
        let hi_digit = digits.substring_char(hi, hi + 1);
        let lo_digit = digits.substring_char(lo, lo + 1);
        out.append(hi_digit);
        out.append(lo_digit);
        proof {
            let next = bytes@.subrange(0, i + 1);
            assert(next.drop_last() =~= bytes@.subrange(0, i as int));
            assert(hi_digit@ =~= seq![hex_digits()[hi as int]]);
            assert(lo_digit@ =~= seq![hex_digits()[lo as int]]);
            assert(out@ =~= hex_of(next));
        }
        i += 1;
    }
    assert(bytes@.subrange(0, bytes@.len() as int) =~= bytes@);
    out
}

/// The lowercase hex digest of the UTF-8 bytes of `text` under `algorithm`.
pub fn hash_text(algorithm: HashAlgorithm, text: &str) -> (r: String)
    ensures
        r@ == hex_of(digest_of(algorithm, text.spec_bytes())),
        r@.len() == 2 * digest_len(algorithm),
        forall|i: int| 0 <= i < r@.len() ==> is_hex_digit(#[trigger] r@[i]),
{
    let d = digest(algorithm, text.as_bytes());
    proof {
        lemma_hex_of(d@);
    }
    hex_text(d.as_slice())
}

} // verus!
