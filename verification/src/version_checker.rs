//! Whether a new version of the application is available.

use vstd::prelude::*;
use crate::text::spec_opt_text;

verus! {

/// Whether `version_compare::Version::from` reads `s` as a version.
pub uninterp spec fn spec_version_parses(s: Seq<char>) -> bool;

/// Whether version `a` is at most version `b`, as `version_compare` orders versions.
pub uninterp spec fn spec_version_le(a: Seq<char>, b: Seq<char>) -> bool;

/// Whether `version_compare::Version::from(s)` reads `s` as a version. The contract names the
/// result; it is a function of the text alone.
#[verifier::external_body]
fn version_parses(s: &str) -> (b: bool)
    ensures
        b == spec_version_parses(s@),
{
    version_compare::Version::from(s).is_some()
}

/// Whether version `a` is at most version `b`, by the `<=` of `version_compare::Version` (whose
/// `partial_cmp` is `Some` of the result of `Version::compare`). The contract names the result,
/// which is a function of the two texts alone. Both texts must read as versions, as the body
/// unwraps their readings.
#[verifier::external_body]
fn version_le(a: &str, b: &str) -> (r: bool)
    requires
        spec_version_parses(a@),
        spec_version_parses(b@),
    ensures
        r == spec_version_le(a@, b@),
{
    version_compare::Version::from(a).unwrap() <= version_compare::Version::from(b).unwrap()
}

/// The new version on offer, given the current version, the latest released version (if it
/// could be found) and the version to ignore: the latest version, where it and the current
/// version read as versions, it is later than the current version, and it is not at most a
/// readable ignored version.
pub open spec fn spec_new_version(current: Seq<char>, latest: Option<Seq<char>>, ignore: Seq<char>)
    -> Option<Seq<char>>
{
    match latest {
        None => None,
        Some(l) => if !spec_version_parses(current) || !spec_version_parses(l) {
            None
        } else if spec_version_le(l, current) {
            None
        } else if spec_version_parses(ignore) && spec_version_le(l, ignore) {
            None
        } else {
            Some(l)
        },
    }
}

/// A utility for checking whether a new version of the application is available.
pub struct VersionChecker {
    current_version: String,
}

impl VersionChecker {
    pub closed spec fn spec_current_version(&self) -> Seq<char> {
        self.current_version@
    }

    /// A checker for an application at version `current_version`.
    pub fn new(current_version: String) -> (c: Self)
        ensures
            c.spec_current_version() == current_version@,
    {
        VersionChecker { current_version }
    }

    /// Whether the current version reads as a version (without which no release is looked up).
    pub fn can_check(&self) -> (b: bool)
        ensures
            b == spec_version_parses(self.spec_current_version()),
    {
        version_parses(self.current_version.as_str())
    }

    /// Returns the new version, if one is available and it is not a version being ignored:
    /// `latest_version` is the latest release for this platform, if one could be found, and
    /// versions at most `ignore_version` are ignored.
    pub fn check_for_new_version(&self, latest_version: Option<String>, ignore_version: &str)
        -> (r: Option<String>)
        ensures
            r matches Some(v) ==> spec_new_version(
                self.spec_current_version(), spec_opt_text(latest_version), ignore_version@) == Some(v@),
            r is None ==> spec_new_version(
                self.spec_current_version(), spec_opt_text(latest_version), ignore_version@) is None,
    {
        if !version_parses(self.current_version.as_str()) {
            return None;
        }
        let latest = match latest_version {
            Some(l) => l,
            None => return None,
        };
        if !version_parses(latest.as_str()) {
            return None;
        }
        if version_le(latest.as_str(), self.current_version.as_str()) {
            return None;
        }
        if version_parses(ignore_version) {
            if version_le(latest.as_str(), ignore_version) {
                return None;
            }
        }
        Some(latest)
    }
}

} // verus!
