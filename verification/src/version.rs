//! Semantic versions: the package version and the updater version.

use vstd::prelude::*;
use crate::text::{decimal_string, decimal_text};

verus! {

/// The version of this updater, compared with a package's minimum updater version.
pub const UPDATER_VERSION: &'static str = "0.1.0";

/// A semantic version: `major.minor.patch[-pre][+build]`.
#[derive(Debug, PartialEq, Eq)]
pub struct SemVer {
    pub major: u64,
    pub minor: u64,
    pub patch: u64,
    /// Pre-release identifiers, dot separated (empty for a release).
    pub pre: String,
    /// Build metadata, dot separated (empty when absent).
    pub build: String,
}

/// The plain value of a [`SemVer`].
pub struct SemVerView {
    pub major: u64,
    pub minor: u64,
    pub patch: u64,
    pub pre: Seq<char>,
    pub build: Seq<char>,
}

impl View for SemVer {
    type V = SemVerView;

    open spec fn view(&self) -> SemVerView {
        SemVerView {
            major: self.major,
            minor: self.minor,
            patch: self.patch,
            pre: self.pre@,
            build: self.build@,
        }
    }
}

impl Clone for SemVer {
    fn clone(&self) -> (r: Self)
        ensures
            r == *self,
    {
        SemVer {
            major: self.major,
            minor: self.minor,
            patch: self.patch,
            pre: self.pre.clone(),
            build: self.build.clone(),
        }
    }
}

/// Name for what `semver::Version::parse` yields for a text: the version's
/// parts on success, the error's message otherwise.
pub uninterp spec fn semver_parse(text: Seq<char>) -> Result<SemVerView, Seq<char>>;

/// Name for `semver::Version`'s `<` on the versions built from two values'
/// parts (false where a pre-release or build text is not a valid identifier list).
pub uninterp spec fn semver_less(a: SemVerView, b: SemVerView) -> bool;

/// Numeric order of the `major.minor.patch` triples.
pub open spec fn triple_less(a: SemVerView, b: SemVerView) -> bool {
    ||| a.major < b.major
    ||| (a.major == b.major && a.minor < b.minor)
    ||| (a.major == b.major && a.minor == b.minor && a.patch < b.patch)
}

/// `semver::Version::parse`. The result is the one named by `semver_parse`.
#[verifier::external_body]
pub(crate) fn parse_semver(text: &str) -> (r: Result<SemVer, String>)
    ensures
        match r {
            Ok(v) => semver_parse(text@) == Ok::<SemVerView, Seq<char>>(v@),
            Err(m) => semver_parse(text@) == Err::<SemVerView, Seq<char>>(m@),
        },
{
    match semver::Version::parse(text) {
        Ok(v) => Ok(SemVer { major: v.major, minor: v.minor, patch: v.patch, pre: v.pre.as_str().to_string(), build: v.build.as_str().to_string() }),
        Err(e) => Err(e.to_string()),
    }
}

/// `<` on `semver::Version`, whose order is derived field by field (major,
/// minor, patch, pre-release, build). The result is named by `semver_less`;
/// stated besides: for versions without pre-release and build parts, the
/// order is the numeric order of the triples.
#[verifier::external_body]
pub(crate) fn version_less(a: &SemVer, b: &SemVer) -> (r: bool)
    ensures
        r == semver_less(a@, b@),
        (a.pre@.len() == 0 && a.build@.len() == 0 && b.pre@.len() == 0 && b.build@.len() == 0)
            ==> r == triple_less(a@, b@),
{
    match (semver::Prerelease::new(&a.pre), semver::BuildMetadata::new(&a.build), semver::Prerelease::new(&b.pre), semver::BuildMetadata::new(&b.build)) {
        (Ok(ap), Ok(ab), Ok(bp), Ok(bb)) => {
            let x = semver::Version { major: a.major, minor: a.minor, patch: a.patch, pre: ap, build: ab };
            let y = semver::Version { major: b.major, minor: b.minor, patch: b.patch, pre: bp, build: bb };
            x < y
        }
        _ => false,
    }
}

/// The text of a version, as `semver::Version`'s `Display` writes it.
pub open spec fn semver_text(v: SemVerView) -> Seq<char> {
    let core = decimal_text(v.major as nat) + seq!['.'] + decimal_text(v.minor as nat) + seq!['.']
        + decimal_text(v.patch as nat);
    let with_pre = if v.pre.len() == 0 { core } else { core + seq!['-'] + v.pre };
    if v.build.len() == 0 { with_pre } else { with_pre + seq!['+'] + v.build }
}

impl SemVer {
    /// Renders the version as text.
    pub fn text(&self) -> (s: String)
        ensures
            s@ == semver_text(self@),
    {
        let mut s = decimal_string(self.major);
        s.append(".");
        s.append(decimal_string(self.minor).as_str());
        s.append(".");
        s.append(decimal_string(self.patch).as_str());
        proof { reveal_strlit("."); }
        if self.pre.as_str().unicode_len() != 0 {
            s.append("-");
            s.append(self.pre.as_str());
            proof { reveal_strlit("-"); }
        }
        if self.build.as_str().unicode_len() != 0 {
            s.append("+");
            s.append(self.build.as_str());
            proof { reveal_strlit("+"); }
        }
        assert(s@ =~= semver_text(self@));
        s
    }
}

} // verus!
