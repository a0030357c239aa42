use vstd::prelude::*;
use vstd::string::StrSliceExecFns;
use sha2::Digest;

use crate::error::InstallerError;
use crate::text::{ascii_lower, chars_of, lower_chars, has_prefix, starts_with_chars};

verus! {

/// The SHA-256 digest of `data`, as the `sha2` crate computes it.
pub uninterp spec fn sha256(data: Seq<u8>) -> Seq<u8>;

/// Hashes `data` with `sha2::Sha256::digest`. Claims the digest named by
/// [`sha256`], and that it is 32 bytes long (the output size of SHA-256).
#[verifier::external_body]
fn sha256_digest(data: &[u8]) -> (r: Vec<u8>)
    ensures
        r@ == sha256(data@),
        r@.len() == 32,
{
    sha2::Sha256::digest(data).to_vec()
}

/// The lower-case hexadecimal digit for a value below 16.
pub open spec fn hex_digit(n: int) -> char {
    if n < 10 {
        (('0' as int) + n) as char
    } else {
        (('a' as int) + n - 10) as char
    }
}

/// Two lower-case hexadecimal digits per byte, high half first.
pub open spec fn hex_lower(bytes: Seq<u8>) -> Seq<char>
    decreases bytes.len(),
{
    if bytes.len() == 0 {
        Seq::empty()
    } else {
        seq![hex_digit(bytes[0] as int / 16), hex_digit(bytes[0] as int % 16)] + hex_lower(bytes.drop_first())
    }
}

/// Encodes bytes with `hex::encode`, which writes two lower-case hexadecimal
/// digits per byte, high half first.
#[verifier::external_body]
fn hex_encode(bytes: &[u8]) -> (r: String)
    ensures
        r@ == hex_lower(bytes@),
{
    hex::encode(bytes)
}

/// The characters after `sha256:` where the digest begins so, else `None`.
pub open spec fn expected_sha256_spec(digest: Seq<char>) -> Option<Seq<char>> {
    if has_prefix(digest, "sha256:"@) {
        Some(digest.skip(7))
    } else {
        None
    }
}

/// The hexadecimal SHA-256 value that a published digest such as
/// `sha256:ab12...` asks for; `None` for a digest of another kind, which is
/// not checked.
pub fn expected_sha256(digest: &str) -> (r: Option<&str>)
    ensures
        match r {
            Some(e) => expected_sha256_spec(digest@) == Some(e@),
            None => expected_sha256_spec(digest@) is None,
        },
{
    let chars = chars_of(digest);
    if starts_with_chars(&chars, "sha256:") {
        proof {
            reveal_strlit("sha256:");
        }
        let n = digest.unicode_len();
        let rest = digest.substring_char(7, n);
        Some(rest)
    } else {
        None
    }
}

/// Whether two strings are equal when ASCII letters are compared without
/// regard to case.
pub fn eq_ignore_ascii_case(a: &str, b: &str) -> (r: bool)
    ensures
        r == (ascii_lower(a@) == ascii_lower(b@)),
{
    let la = lower_chars(&chars_of(a));
    let lb = lower_chars(&chars_of(b));
    if la.len() != lb.len() {
        return false;
    }
    let mut i: usize = 0;
    while i < la.len()
        invariant
            la@ == ascii_lower(a@),
            lb@ == ascii_lower(b@),
            la.len() == lb.len(),
            i <= la.len(),
            forall|j: int| 0 <= j < i ==> la@[j] == lb@[j],
        decreases la.len() - i,
    {
        if la[i] != lb[i] {
            assert(la@[i as int] != lb@[i as int]);
            return false;
        }
        i = i + 1;
    }
    assert(la@ =~= lb@);
    true
}

/// The contents match the expected hexadecimal SHA-256 value, whatever the
/// case of its letters.
pub open spec fn sha256_matches(expected_hex: Seq<char>, contents: Seq<u8>) -> bool {
    ascii_lower(hex_lower(sha256(contents))) == ascii_lower(expected_hex)
}

/// Checks downloaded contents against the expected hexadecimal SHA-256 value.
pub fn verify_sha256_contents(expected_hex: &str, contents: &[u8]) -> (r: Result<(), InstallerError>)
    ensures
        sha256_matches(expected_hex@, contents@) ==> r is Ok,
        !sha256_matches(expected_hex@, contents@) ==> r matches Err(InstallerError::DigestMismatch),
{
    let actual = hex_encode(sha256_digest(contents).as_slice());
    if eq_ignore_ascii_case(actual.as_str(), expected_hex) {
        Ok(())
    } else {
        Err(InstallerError::DigestMismatch)
    }
}

/// Checks downloaded contents against a published digest: a `sha256:` digest
/// must match, any other kind of digest is not checked.
pub fn verify_sha256(digest: &str, contents: &[u8]) -> (r: Result<(), InstallerError>)
    ensures
        match expected_sha256_spec(digest@) {
            Some(e) => if sha256_matches(e, contents@) {
                r is Ok
            } else {
                r matches Err(InstallerError::DigestMismatch)
            },
            None => r is Ok,
        },
{
    match expected_sha256(digest) {
        Some(expected) => verify_sha256_contents(expected, contents),
        None => Ok(()),
    }
}


/// Lower-casing twice changes nothing more.
pub proof fn lemma_ascii_lower_idempotent(s: Seq<char>)
    ensures
        ascii_lower(ascii_lower(s)) == ascii_lower(s),
{
    assert(ascii_lower(ascii_lower(s)) =~= ascii_lower(s));
}

/// The case of the letters of an expected digest does not matter: two
/// expected values that agree up to ASCII case accept the same contents.
pub proof fn lemma_digest_check_ignores_case(e1: Seq<char>, e2: Seq<char>, contents: Seq<u8>)
    requires
        ascii_lower(e1) == ascii_lower(e2),
    ensures
        sha256_matches(e1, contents) == sha256_matches(e2, contents),
{
}

/// A hex-encoded digest is written in lower case already.
pub proof fn lemma_hex_is_lower_case(bytes: Seq<u8>)
    ensures
        ascii_lower(hex_lower(bytes)) == hex_lower(bytes),
    decreases bytes.len(),
{
    if bytes.len() > 0 {
        lemma_hex_is_lower_case(bytes.drop_first());
        let head = seq![hex_digit(bytes[0] as int / 16), hex_digit(bytes[0] as int % 16)];
        assert(hex_lower(bytes) == head + hex_lower(bytes.drop_first()));
        assert(ascii_lower(head + hex_lower(bytes.drop_first())) =~= ascii_lower(head) + ascii_lower(
            hex_lower(bytes.drop_first()),
        ));
        assert(ascii_lower(head) =~= head);
    } else {
        assert(ascii_lower(hex_lower(bytes)) =~= hex_lower(bytes));
    }
}

} // verus!
