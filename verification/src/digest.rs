//! Digests of artifacts, and their comparison with the hexadecimal digest
//! that a build server publishes.

use vstd::prelude::*;
use vstd::string::*;

use sha2::Digest;

use crate::text::chars_of;

verus! {

/// The digest that a backend publishes for its artifacts.
#[derive(Debug, Clone, Copy, PartialEq, Eq, Structural)]
pub enum HashAlgorithm {
    Sha256,
    Md5,
}

/// The artifact does not have the digest that the server published.
#[derive(Debug, Clone, PartialEq, Eq)]
pub struct IntegrityError {
    /// The digest that the artifact has, in upper-case hexadecimal.
    pub actual: String,
}

/// The SHA-256 digest of `data`.
pub uninterp spec fn sha256_of(data: Seq<u8>) -> Seq<u8>;

/// The MD5 digest of `data`.
pub uninterp spec fn md5_of(data: Seq<u8>) -> Seq<u8>;

/// Computes the SHA-256 digest of `data` with `sha2::Sha256::digest`.
///
/// Nothing is proved of the hash function. The contract only gives the
/// digest a name: the same data always have the same digest.
#[verifier::external_body]
fn sha256_digest(data: &[u8]) -> (r: Vec<u8>)
    ensures
        r@ == sha256_of(data@),
{
    sha2::Sha256::digest(data).to_vec()
}

/// Computes the MD5 digest of `data` with `md5::Md5::digest`.
///
/// Nothing is proved of the hash function. The contract only gives the
/// digest a name: the same data always have the same digest.
#[verifier::external_body]
fn md5_digest(data: &[u8]) -> (r: Vec<u8>)
    ensures
        r@ == md5_of(data@),
{
    md5::Md5::digest(data).to_vec()
}

/// The digest of `data` under `algorithm`.
pub open spec fn digest_of(algorithm: HashAlgorithm, data: Seq<u8>) -> Seq<u8> {
    match algorithm {
        HashAlgorithm::Sha256 => sha256_of(data),
        HashAlgorithm::Md5 => md5_of(data),
    }
}

/// Computes the digest of `data` under `algorithm`.
pub fn compute_digest(algorithm: HashAlgorithm, data: &[u8]) -> (r: Vec<u8>)
    ensures
        r@ == digest_of(algorithm, data@),
{
    match algorithm {
        HashAlgorithm::Sha256 => sha256_digest(data),
        HashAlgorithm::Md5 => md5_digest(data),
    }
}

/// The upper-case hexadecimal digit for `v`, which is below 16.
pub open spec fn hex_digit(v: nat) -> char {
    if v == 0 {
        '0'
    } else if v == 1 {
        '1'
    } else if v == 2 {
        '2'
    } else if v == 3 {
        '3'
    } else if v == 4 {
        '4'
    } else if v == 5 {
        '5'
    } else if v == 6 {
        '6'
    } else if v == 7 {
        '7'
    } else if v == 8 {
        '8'
    } else if v == 9 {
        '9'
    } else if v == 10 {
        'A'
    } else if v == 11 {
        'B'
    } else if v == 12 {
        'C'
    } else if v == 13 {
        'D'
    } else if v == 14 {
        'E'
    } else {
        'F'
    }
}

/// `bytes` in upper-case hexadecimal: two digits for each byte, the high
/// half first.
pub open spec fn upper_hex(bytes: Seq<u8>) -> Seq<char>
    decreases bytes.len(),
{
    if bytes.len() == 0 {
        Seq::empty()
    } else {
        upper_hex(bytes.drop_last()).push(hex_digit(bytes.last() as nat / 16)).push(
            hex_digit(bytes.last() as nat % 16),
        )
    }
}

/// A hexadecimal letter in upper case; any other character is left as it is.
pub open spec fn hex_upper(c: char) -> char {
    if c == 'a' {
        'A'
    } else if c == 'b' {
        'B'
    } else if c == 'c' {
        'C'
    } else if c == 'd' {
        'D'
    } else if c == 'e' {
        'E'
    } else if c == 'f' {
        'F'
    } else {
        c
    }
}

/// `s` with its hexadecimal letters in upper case.
pub open spec fn hex_folded(s: Seq<char>) -> Seq<char> {
    Seq::new(s.len(), |i: int| hex_upper(s[i]))
}

/// Whether `expected` is `digest` in hexadecimal, in upper or lower case or
/// a mix of both.
pub open spec fn hash_matches(digest: Seq<u8>, expected: Seq<char>) -> bool {
    hex_folded(expected) == upper_hex(digest)
}

/// One hexadecimal digit as text.
fn hex_digit_str(v: u8) -> (r: &'static str)
    requires
        v < 16,
    ensures
        r@ == seq![hex_digit(v as nat)],
{
    proof {
        reveal_strlit("0");
        reveal_strlit("1");
        reveal_strlit("2");
        reveal_strlit("3");
        reveal_strlit("4");
        reveal_strlit("5");
        reveal_strlit("6");
        reveal_strlit("7");
        reveal_strlit("8");
        reveal_strlit("9");
        reveal_strlit("A");
        reveal_strlit("B");
        reveal_strlit("C");
        reveal_strlit("D");
        reveal_strlit("E");
        reveal_strlit("F");
    }
    let r = if v == 0 {
        "0"
    } else if v == 1 {
        "1"
    } else if v == 2 {
        "2"
    } else if v == 3 {
        "3"
    } else if v == 4 {
        "4"
    } else if v == 5 {
        "5"
    } else if v == 6 {
        "6"
    } else if v == 7 {
        "7"
    } else if v == 8 {
        "8"
    } else if v == 9 {
        "9"
    } else if v == 10 {
        "A"
    } else if v == 11 {
        "B"
    } else if v == 12 {
        "C"
    } else if v == 13 {
        "D"
    } else if v == 14 {
        "E"
    } else {
        "F"
    };
    assert(r@ =~= seq![hex_digit(v as nat)]);
    r
}

/// `bytes` in upper-case hexadecimal.
pub fn to_upper_hex(bytes: &[u8]) -> (r: String)
    ensures
        r@ == upper_hex(bytes@),
{
    let mut out = String::new();
    let mut i: usize = 0;
    while i < bytes.len()
        invariant
            i <= bytes.len(),
            out@ == upper_hex(bytes@.take(i as int)),
        decreases bytes.len() - i,
    {
        let b = bytes[i];
        out.append(hex_digit_str(b / 16));
        out.append(hex_digit_str(b % 16));
        proof {
            let more = bytes@.take(i + 1);
            assert(more.drop_last() =~= bytes@.take(i as int));
            assert(out@ =~= upper_hex(more));
        }
        i += 1;
    }
    assert(bytes@.take(bytes@.len() as int) =~= bytes@);
    out
}

/// A hexadecimal letter in upper case; any other character as it is.
fn fold_hex(c: char) -> (r: char)
    ensures
        r == hex_upper(c),
{
    if c == 'a' {
        'A'
    } else if c == 'b' {
        'B'
    } else if c == 'c' {
        'C'
    } else if c == 'd' {
        'D'
    } else if c == 'e' {
        'E'
    } else if c == 'f' {
        'F'
    } else {
        c
    }
}

/// Whether `a` and `b` are the same but for the case of their hexadecimal
/// letters.
pub fn same_hex(a: &str, b: &str) -> (r: bool)
    ensures
        r == (hex_folded(a@) == hex_folded(b@)),
{
    let x = chars_of(a);
    let y = chars_of(b);
    if x.len() != y.len() {
        assert(hex_folded(a@).len() != hex_folded(b@).len());
        return false;
    }
    let mut i: usize = 0;
    while i < x.len()
        invariant
            i <= x.len() == y.len(),
            x@ == a@,
            y@ == b@,
            forall|j: int| 0 <= j < i ==> hex_upper(#[trigger] x@[j]) == hex_upper(y@[j]),
        decreases x.len() - i,
    {
        if fold_hex(x[i]) != fold_hex(y[i]) {
            assert(hex_folded(a@)[i as int] != hex_folded(b@)[i as int]);
            return false;
        }
        i += 1;
    }
    assert(hex_folded(a@) =~= hex_folded(b@));
    true
}

/// Upper-case hexadecimal holds no lower-case letter.
pub proof fn lemma_upper_hex_is_folded(bytes: Seq<u8>)
    ensures
        hex_folded(upper_hex(bytes)) == upper_hex(bytes),
        upper_hex(bytes).len() == 2 * bytes.len(),
    decreases bytes.len(),
{
    if bytes.len() > 0 {
        lemma_upper_hex_is_folded(bytes.drop_last());
        let shorter = upper_hex(bytes.drop_last());
        assert forall|i: int| 0 <= i < upper_hex(bytes).len() implies hex_upper(
            #[trigger] upper_hex(bytes)[i],
        ) == upper_hex(bytes)[i] by {
            if i < shorter.len() {
                assert(upper_hex(bytes)[i] == shorter[i]);
                assert(hex_folded(shorter)[i] == shorter[i]);
            }
        }
    }
    assert(hex_folded(upper_hex(bytes)) =~= upper_hex(bytes));
}

/// A digest matches its own upper-case hexadecimal form.
pub proof fn lemma_own_hex_matches(digest: Seq<u8>)
    ensures
        hash_matches(digest, upper_hex(digest)),
{
    lemma_upper_hex_is_folded(digest);
}

/// Whether a digest matches does not depend on the case in which the
/// expected digest is written.
pub proof fn lemma_case_does_not_matter(digest: Seq<u8>, a: Seq<char>, b: Seq<char>)
    requires
        hex_folded(a) == hex_folded(b),
    ensures
        hash_matches(digest, a) == hash_matches(digest, b),
{
}

/// A text that matches a digest is twice as long as the digest, and is
/// matched by no other digest of that length.
pub proof fn lemma_match_pins_digest(a: Seq<u8>, b: Seq<u8>, expected: Seq<char>)
    requires
        hash_matches(a, expected),
        hash_matches(b, expected),
    ensures
        a == b,
        expected.len() == 2 * a.len(),
    decreases a.len(),
{
    lemma_upper_hex_is_folded(a);
    lemma_upper_hex_is_folded(b);
    if a.len() > 0 {
        let ha = upper_hex(a);
        let hb = upper_hex(b);
        assert(ha.drop_last().drop_last() =~= upper_hex(a.drop_last()));
        assert(hb.drop_last().drop_last() =~= upper_hex(b.drop_last()));
        lemma_upper_hex_is_folded(a.drop_last());
        lemma_match_pins_digest(a.drop_last(), b.drop_last(), upper_hex(a.drop_last()));
        assert(ha[ha.len() - 1] == hb[hb.len() - 1]);
        assert(ha[ha.len() - 2] == hb[hb.len() - 2]);
        lemma_hex_digit_injective(a.last() as nat / 16, b.last() as nat / 16);
        lemma_hex_digit_injective(a.last() as nat % 16, b.last() as nat % 16);
        assert(a.last() == b.last());
        assert(a =~= a.drop_last().push(a.last()));
        assert(b =~= b.drop_last().push(b.last()));
    } else {
        assert(a =~= b);
    }
}

/// Different values below 16 have different hexadecimal digits.
pub proof fn lemma_hex_digit_injective(x: nat, y: nat)
    requires
        x < 16,
        y < 16,
        hex_digit(x) == hex_digit(y),
    ensures
        x == y,
{
}

/// Whether `expected` is `digest` in hexadecimal, in either case.
pub fn digest_matches(digest: &[u8], expected: &str) -> (r: bool)
    ensures
        r == hash_matches(digest@, expected@),
{
    let actual = to_upper_hex(digest);
    proof {
        lemma_upper_hex_is_folded(digest@);
    }
    same_hex(expected, actual.as_str())
}

/// Checks the contents of an artifact against the digest that the server
/// published for it.
///
/// The result is `Ok` exactly where `expected` is the digest of `contents`
/// under `algorithm`, in hexadecimal in either case. Otherwise the error
/// holds the digest that `contents` has, and the artifact is to be removed.
pub fn verify_contents(algorithm: HashAlgorithm, contents: &[u8], expected: &str) -> (r: Result<
    (),
    IntegrityError,
>)
    ensures
        r is Ok <==> hash_matches(digest_of(algorithm, contents@), expected@),
        r matches Err(e) ==> e.actual@ == upper_hex(digest_of(algorithm, contents@)),
{
    let digest = compute_digest(algorithm, contents);
    check_digest(digest.as_slice(), expected)
}

/// Checks a digest against the one that the server published.
///
/// The result is `Ok` exactly where `expected` is `digest` in hexadecimal,
/// in either case; otherwise the error holds `digest` in upper-case
/// hexadecimal.
pub fn check_digest(digest: &[u8], expected: &str) -> (r: Result<(), IntegrityError>)
    ensures
        r is Ok <==> hash_matches(digest@, expected@),
        r matches Err(e) ==> e.actual@ == upper_hex(digest@),
{
    if digest_matches(digest, expected) {
        Ok(())
    } else {
        Err(IntegrityError { actual: to_upper_hex(digest) })
    }
}

} // verus!
