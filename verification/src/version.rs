use vstd::prelude::*;
use vstd::string::StrSliceExecFns;

use crate::error::InstallerError;

verus! {

/// Declares `semver::Version`, the parsed value that a [`SemanticVersion`]
/// carries; nothing inside it is visible to proofs.
#[verifier::external_type_specification]
#[verifier::external_body]
pub struct ExSemverVersion(semver::Version);

/// A version as the `semver` crate parses it: major, minor and patch numbers,
/// pre-release text and build-metadata text.
pub type VersionParts = (u64, u64, u64, Seq<char>, Seq<char>);

/// A parsed semantic version. The plain fields hold the parts of the parsed
/// value; they are set together with it, when the text is parsed, and never
/// changed afterwards.
pub struct SemanticVersion {
    major: u64,
    minor: u64,
    patch: u64,
    pre: String,
    build: String,
    parsed: semver::Version,
}

impl View for SemanticVersion {
    type V = VersionParts;

    closed spec fn view(&self) -> VersionParts {
        (self.major, self.minor, self.patch, self.pre@, self.build@)
    }
}

/// What `semver::Version::parse` makes of a text: its parts, or `None` where
/// the text is not a semantic version.
pub uninterp spec fn semver_parse(text: Seq<char>) -> Option<VersionParts>;

/// Whether `semver` orders the first version after the second (`>` of its
/// derived `Ord`: major, minor, patch, then pre-release and build metadata as
/// the crate orders them).
pub uninterp spec fn semver_greater(a: VersionParts, b: VersionParts) -> bool;

/// The major, minor and patch numbers of `a` come strictly before those of `b`.
pub open spec fn core_less(a: VersionParts, b: VersionParts) -> bool {
    ||| a.0 < b.0
    ||| a.0 == b.0 && a.1 < b.1
    ||| a.0 == b.0 && a.1 == b.1 && a.2 < b.2
}

/// Parses `text` with `semver::Version::parse`, keeping the parts of the
/// result. Claims that the parts are those named by [`semver_parse`].
#[verifier::external_body]
fn parse_semver(text: &str) -> (r: Option<SemanticVersion>)
    ensures
        match r {
            Some(v) => semver_parse(text@) == Some(v@),
            None => semver_parse(text@) is None,
        },
{
    let parsed = semver::Version::parse(text).ok()?;
    Some(
        SemanticVersion {
            major: parsed.major,
            minor: parsed.minor,
            patch: parsed.patch,
            pre: parsed.pre.as_str().to_string(),
            build: parsed.build.as_str().to_string(),
            parsed,
        },
    )
}

/// `>` on two `semver::Version` values. Claims the result named by
/// [`semver_greater`] on their parts, and what the derived lexicographic
/// `Ord` of `semver::Version` gives directly: the major, minor and patch
/// numbers decide first, and no version is greater than itself or than a
/// version greater than it.
#[verifier::external_body]
fn version_greater(a: &SemanticVersion, b: &SemanticVersion) -> (r: bool)
    ensures
        r == semver_greater(a@, b@),
        core_less(b@, a@) ==> r,
        core_less(a@, b@) ==> !r,
        a@ == b@ ==> !r,
        r ==> !semver_greater(b@, a@),
{
    a.parsed > b.parsed
}

/// The decimal digits of `n`.
pub open spec fn decimal(n: nat) -> Seq<char>
    decreases n,
{
    if n < 10 {
        seq![(('0' as u32) + n) as char]
    } else {
        decimal(n / 10).push((('0' as u32) + (n % 10)) as char)
    }
}

/// The text of a version: `major.minor.patch`, then `-pre` and `+build`
/// where those are not empty.
pub open spec fn version_text_spec(v: VersionParts) -> Seq<char> {
    decimal(v.0 as nat) + "."@ + decimal(v.1 as nat) + "."@ + decimal(v.2 as nat) + (if v.3.len()
        > 0 {
        "-"@ + v.3
    } else {
        Seq::empty()
    }) + (if v.4.len() > 0 {
        "+"@ + v.4
    } else {
        Seq::empty()
    })
}

/// The text that `Display` of `semver::Version` writes.
#[verifier::external_body]
fn version_text(v: &SemanticVersion) -> (r: String)
    ensures
        r@ == version_text_spec(v@),
{
    v.parsed.to_string()
}

impl SemanticVersion {
    /// Parses a semantic version.
    pub fn parse(text: &str) -> (r: Option<SemanticVersion>)
        ensures
            match r {
                Some(v) => semver_parse(text@) == Some(v@),
                None => semver_parse(text@) is None,
            },
    {
        parse_semver(text)
    }

    /// Whether `self` is a later version than `other`.
    pub fn is_greater_than(&self, other: &SemanticVersion) -> (r: bool)
        ensures
            r == semver_greater(self@, other@),
            core_less(other@, self@) ==> r,
            core_less(self@, other@) ==> !r,
            self@ == other@ ==> !r,
    {
        version_greater(self, other)
    }

    /// The canonical text of the version.
    pub fn text(&self) -> (r: String)
        ensures
            r@ == version_text_spec(self@),
    {
        version_text(self)
    }
}

/// A release tag without the `v`/`V` characters that lead it.
pub open spec fn without_leading_v(s: Seq<char>) -> Seq<char>
    decreases s.len(),
{
    if s.len() > 0 && (s[0] == 'v' || s[0] == 'V') {
        without_leading_v(s.drop_first())
    } else {
        s
    }
}

/// Removes every `v` and `V` at the start of a release tag.
pub fn trim_leading_v(tag: &str) -> (r: &str)
    ensures
        r@ == without_leading_v(tag@),
{
    let n = tag.unicode_len();
    let mut k: usize = 0;
    assert(tag@.skip(0) =~= tag@);
    while k < n
        invariant
            n == tag@.len(),
            k <= n,
            without_leading_v(tag@) == without_leading_v(tag@.skip(k as int)),
        ensures
            k <= n,
            without_leading_v(tag@) == tag@.skip(k as int),
        decreases n - k,
    {
        let c = tag.get_char(k);
        if c != 'v' && c != 'V' {
            break;
        }
        assert(tag@.skip(k as int).drop_first() =~= tag@.skip(k + 1));
        k = k + 1;
    }
    let r = tag.substring_char(k, n);
    assert(r@ =~= tag@.skip(k as int));
    r
}

/// Whether a release tag names a later version than the running one:
/// `Err(InvalidCurrentVersion)` where the running version does not parse,
/// `Err(InvalidReleaseVersion)` where the tag (without its leading `v`s)
/// does not, and otherwise whether the release version is greater.
pub fn is_newer_version(current: &str, latest_tag: &str) -> (r: Result<bool, InstallerError>)
    ensures
        semver_parse(current@) is None ==> r matches Err(InstallerError::InvalidCurrentVersion),
        semver_parse(current@) is Some && semver_parse(without_leading_v(latest_tag@)) is None ==> (
        r matches Err(InstallerError::InvalidReleaseVersion { tag: t }) && t@ == latest_tag@),
        semver_parse(current@) matches Some(c) ==> (semver_parse(without_leading_v(latest_tag@))
            matches Some(l) ==> r == Ok::<bool, InstallerError>(semver_greater(l, c))),
        semver_parse(current@) matches Some(c) ==> (semver_parse(without_leading_v(latest_tag@))
            == Some(c) ==> r == Ok::<bool, InstallerError>(false)),
        semver_parse(current@) matches Some(c) ==> (semver_parse(without_leading_v(latest_tag@))
            matches Some(l) ==> (core_less(c, l) ==> r == Ok::<bool, InstallerError>(true))),
        semver_parse(current@) matches Some(c) ==> (semver_parse(without_leading_v(latest_tag@))
            matches Some(l) ==> (core_less(l, c) ==> r == Ok::<bool, InstallerError>(false))),
{
    let current_version = match SemanticVersion::parse(current) {
        Some(v) => v,
        None => return Err(InstallerError::InvalidCurrentVersion),
    };
    let latest_text = trim_leading_v(latest_tag);
    let latest_version = match SemanticVersion::parse(latest_text) {
        Some(v) => v,
        None => return Err(InstallerError::InvalidReleaseVersion { tag: latest_tag.to_string() }),
    };
    Ok(latest_version.is_greater_than(&current_version))
}

} // verus!
