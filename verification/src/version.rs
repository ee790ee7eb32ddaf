//! Semantic versions and version ranges, kept as the text they were written as.
//!
//! Whether a text is a version, whether it is a range, and whether a version
//! lies in a range is decided by the `semver` crate. The types here hold only
//! texts that it accepted.

use vstd::prelude::*;

verus! {

/// Whether `semver::Version::parse` accepts `text`.
pub uninterp spec fn semver_version_parses(text: Seq<char>) -> bool;

/// Whether `semver::VersionReq::parse` accepts `text`.
pub uninterp spec fn semver_range_parses(text: Seq<char>) -> bool;

/// Whether the version that `semver` reads from `version` satisfies the
/// range that it reads from `range`, by `semver::VersionReq::matches`.
pub uninterp spec fn semver_range_matches(range: Seq<char>, version: Seq<char>) -> bool;

/// Calls `semver::Version::parse` and tells whether it accepted the text.
#[verifier::external_body]
fn semver_accepts_version(text: &str) -> (ok: bool)
    ensures
        ok == semver_version_parses(text@),
{
    semver::Version::parse(text).is_ok()
}

/// Calls `semver::VersionReq::parse` and tells whether it accepted the text.
#[verifier::external_body]
fn semver_accepts_range(text: &str) -> (ok: bool)
    ensures
        ok == semver_range_parses(text@),
{
    semver::VersionReq::parse(text).is_ok()
}

/// Calls `semver::VersionReq::matches` on the range and the version that
/// `semver` reads from the two texts. Both must be texts that it accepts.
#[verifier::external_body]
fn semver_matches(range: &str, version: &str) -> (r: bool)
    requires
        semver_range_parses(range@),
        semver_version_parses(version@),
    ensures
        r == semver_range_matches(range@, version@),
{
    match (semver::VersionReq::parse(range), semver::Version::parse(version)) {
        (Ok(r), Ok(v)) => r.matches(&v),
        _ => false,
    }
}

/// A semantic version, such as `1.2.3` or `2.0.0-rc.1+build.5`.
///
/// It is kept as written. A semantic version has one spelling only (no
/// leading zeros, no blanks), so the text is also what the version prints as.
#[derive(Debug, PartialEq, Eq)]
pub struct AppVersion {
    text: String,
}

impl View for AppVersion {
    type V = Seq<char>;

    closed spec fn view(&self) -> Seq<char> {
        self.text@
    }
}

impl DeepView for AppVersion {
    type V = Seq<char>;

    open spec fn deep_view(&self) -> Seq<char> {
        self@
    }
}

impl AppVersion {
    #[verifier::type_invariant]
    spec fn accepted(&self) -> bool {
        semver_version_parses(self.text@)
    }

    /// Reads a version. `None` when the text is not a semantic version.
    pub fn parse(text: &str) -> (r: Option<AppVersion>)
        ensures
            r is Some <==> semver_version_parses(text@),
            r matches Some(v) ==> v@ == text@,
    {
        if semver_accepts_version(text) {
            Some(AppVersion { text: text.to_owned() })
        } else {
            None
        }
    }

    /// The version as text. It is a text that `semver` accepts as a version.
    pub fn as_str(&self) -> (r: &str)
        ensures
            r@ == self@,
            semver_version_parses(r@),
    {
        proof {
            use_type_invariant(self);
        }
        self.text.as_str()
    }

    /// The version as text.
    pub fn to_string(&self) -> (r: String)
        ensures
            r@ == self@,
    {
        self.text.clone()
    }
}

impl Clone for AppVersion {
    fn clone(&self) -> (r: Self)
        ensures
            r@ == self@,
    {
        proof {
            use_type_invariant(self);
        }
        AppVersion { text: self.text.clone() }
    }
}

/// A range of semantic versions, such as `>=1.2, <2` or `^1.4`.
#[derive(Debug, PartialEq, Eq)]
pub struct VersionRange {
    text: String,
}

impl View for VersionRange {
    type V = Seq<char>;

    closed spec fn view(&self) -> Seq<char> {
        self.text@
    }
}

impl DeepView for VersionRange {
    type V = Seq<char>;

    open spec fn deep_view(&self) -> Seq<char> {
        self@
    }
}

impl VersionRange {
    #[verifier::type_invariant]
    spec fn accepted(&self) -> bool {
        semver_range_parses(self.text@)
    }

    /// Reads a range. `None` when the text is not a version range.
    pub fn parse(text: &str) -> (r: Option<VersionRange>)
        ensures
            r is Some <==> semver_range_parses(text@),
            r matches Some(v) ==> v@ == text@,
    {
        if semver_accepts_range(text) {
            Some(VersionRange { text: text.to_owned() })
        } else {
            None
        }
    }

    /// The range as text. It is a text that `semver` accepts as a range.
    pub fn as_str(&self) -> (r: &str)
        ensures
            r@ == self@,
            semver_range_parses(r@),
    {
        proof {
            use_type_invariant(self);
        }
        self.text.as_str()
    }

    /// Whether `version` lies in the range.
    pub fn matches(&self, version: &AppVersion) -> (r: bool)
        ensures
            r == semver_range_matches(self@, version@),
    {
        proof {
            use_type_invariant(self);
            use_type_invariant(version);
        }
        semver_matches(self.text.as_str(), version.text.as_str())
    }
}

impl Clone for VersionRange {
    fn clone(&self) -> (r: Self)
        ensures
            r@ == self@,
    {
        proof {
            use_type_invariant(self);
        }
        VersionRange { text: self.text.clone() }
    }
}

} // verus!
