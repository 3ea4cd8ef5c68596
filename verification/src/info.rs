//! The information page: the program version it shows.

use vstd::prelude::*;

verus! {

/// A semantic version: numbers, pre-release and build metadata texts
/// (empty when absent).
#[derive(Debug, Clone, PartialEq)]
pub struct SemVersion {
    pub major: u64,
    pub minor: u64,
    pub patch: u64,
    pub pre: String,
    pub build: String,
}

/// What `semver::Version::parse` gives for a text: the three numbers and the
/// pre-release and build texts of a valid SemVer 2.0 version, or nothing.
pub uninterp spec fn semver_parse(text: Seq<char>) -> Option<(u64, u64, u64, Seq<char>, Seq<char>)>;

/// `semver::Version::parse`, the version taken apart into plain values.
/// Claimed: the result is `semver_parse` of the text (a function of the text
/// alone); which texts parse is the SemVer grammar of the `semver` crate and
/// is not restated here.
#[verifier::external_body]
fn parse_version(text: &str) -> (res: Option<SemVersion>)
    ensures
        match res {
            Some(v) => semver_parse(text@) == Some((v.major, v.minor, v.patch, v.pre@, v.build@)),
            None => semver_parse(text@) is None,
        },
{
    match semver::Version::parse(text) {
        Ok(v) => Some(
            SemVersion {
                major: v.major,
                minor: v.minor,
                patch: v.patch,
                pre: v.pre.as_str().to_string(),
                build: v.build.as_str().to_string(),
            },
        ),
        Err(_) => None,
    }
}

/// The information page.
#[derive(Debug, Clone, PartialEq)]
pub struct InfoPage {
    pub version: SemVersion,
}

impl InfoPage {
    /// The page for a parsed version; version 0.0.1 when there is none.
    pub fn from_parsed(parsed: Option<SemVersion>) -> (res: InfoPage)
        ensures
            match parsed {
                Some(v) => res.version == v,
                None => res.version.major == 0 && res.version.minor == 0 && res.version.patch == 1
                    && res.version.pre@.len() == 0 && res.version.build@.len() == 0,
            },
    {
        match parsed {
            Some(v) => InfoPage { version: v },
            None => InfoPage {
                version: SemVersion {
                    major: 0,
                    minor: 0,
                    patch: 1,
                    pre: String::new(),
                    build: String::new(),
                },
            },
        }
    }

    /// The page for the version text of the program (its package version);
    /// 0.0.1 when the text is not a semantic version.
    pub fn with_version_text(text: &str) -> (res: InfoPage)
        ensures
            match semver_parse(text@) {
                Some((major, minor, patch, pre, build)) => res.version.major == major
                    && res.version.minor == minor && res.version.patch == patch && res.version.pre@
                    == pre && res.version.build@ == build,
                None => res.version.major == 0 && res.version.minor == 0 && res.version.patch == 1
                    && res.version.pre@.len() == 0 && res.version.build@.len() == 0,
            },
    {
        InfoPage::from_parsed(parse_version(text))
    }
}

} // verus!
