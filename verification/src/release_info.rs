//! Which release of the application is the latest for the current platform.

use vstd::prelude::*;
use crate::text::{spec_opt_text, ends_with, spec_ends_with, spec_starts_with, strip_prefix, strip_suffix};

verus! {

broadcast use vstd::string::group_string_axioms;

/// A release of the application as GitHub lists it: its tag and, if it has one, its name.
pub struct GitHubRelease {
    pub tag_name: String,
    pub name: Option<String>,
}

/// The platforms for which releases are built.
#[derive(Clone, Copy, Debug, PartialEq, Eq, Structural)]
pub enum Platform {
    Windows64,
    MacOs,
    Other,
}

pub open spec fn spec_release_name(r: GitHubRelease) -> Option<Seq<char>> {
    spec_opt_text(r.name)
}

/// The latest version for the platform whose release names end with `suffix`, from releases
/// listed latest first: the tag, less its "v" prefix, of the first release whose name ends with
/// the suffix, passing over releases without a name. There is none (`None`) where no release
/// matches, or where the tag of the first that matches has no "v" prefix.
pub open spec fn spec_latest_version(releases: Seq<GitHubRelease>, suffix: Seq<char>) -> Option<Seq<char>>
    decreases releases.len(),
{
    if releases.len() == 0 {
        None
    } else {
        match spec_release_name(releases[0]) {
            None => spec_latest_version(releases.drop_first(), suffix),
            Some(name) => if spec_ends_with(name, suffix) {
                let tag = releases[0].tag_name@;
                if spec_starts_with(tag, "v"@) {
                    Some(tag.subrange("v"@.len() as int, tag.len() as int))
                } else {
                    None
                }
            } else {
                spec_latest_version(releases.drop_first(), suffix)
            },
        }
    }
}

/// The GitHub API address of the releases of the repository whose releases page is `link`.
pub open spec fn spec_releases_api_url(link: Seq<char>) -> Option<Seq<char>> {
    let prefix = "https://github.com/"@;
    let suffix = "/releases"@;
    if spec_starts_with(link, prefix) && spec_ends_with(link.subrange(prefix.len() as int, link.len() as int), suffix) {
        let repo = link.subrange(prefix.len() as int, link.len() - suffix.len());
        Some("https://api.github.com/repos/"@ + repo + "/releases"@)
    } else {
        None
    }
}

/// A source of information on the releases of this application.
pub trait IReleaseInfo {
    /// The version of the latest release of the application for the current platform, if any.
    fn get_latest_version_for_platform(&self) -> Option<String>;
}

/// Information on releases of this application.
pub struct ReleaseInfo {}

impl ReleaseInfo {
    pub fn new() -> Self {
        ReleaseInfo {}
    }

    /// The release name suffix that marks a release for `platform`: 64-bit Windows and macOS
    /// have releases; other platforms have none.
    pub fn current_platform_release_name_suffix(platform: Platform) -> (s: Option<&'static str>)
        ensures
            platform == Platform::Windows64 ==> (s matches Some(t) && t@ == " (64-bit Windows)"@),
            platform == Platform::MacOs ==> (s matches Some(t) && t@ == " (macOS)"@),
            platform == Platform::Other ==> s is None,
    {
        match platform {
            Platform::Windows64 => Some(" (64-bit Windows)"),
            Platform::MacOs => Some(" (macOS)"),
            Platform::Other => None,
        }
    }

    /// The GitHub API address of the releases, from the address of the releases page.
    pub fn github_releases_api_url(releases_link: &str) -> (url: Option<String>)
        ensures
            url matches Some(u) ==> spec_releases_api_url(releases_link@) == Some(u@),
            url is None ==> spec_releases_api_url(releases_link@) is None,
    {
        let path = match strip_prefix(releases_link, "https://github.com/") {
            Some(p) => p,
            None => return None,
        };
        let repo_path = match strip_suffix(path.as_str(), "/releases") {
            Some(r) => r,
            None => return None,
        };
        let url = String::from_str("https://api.github.com/repos/");
        let url = url.concat(repo_path.as_str());
        let url = url.concat("/releases");
        Some(url)
    }

    /// The latest version for the platform whose release names end with `platform_suffix`,
    /// from `releases` listed latest first: see `spec_latest_version`.
    pub fn latest_version_for_platform(releases: &Vec<GitHubRelease>, platform_suffix: &str)
        -> (v: Option<String>)
        ensures
            v matches Some(t) ==> spec_latest_version(releases@, platform_suffix@) == Some(t@),
            v is None ==> spec_latest_version(releases@, platform_suffix@) is None,
    {
        let n = releases.len();
        let mut i: usize = 0;
        assert(releases@.skip(0) =~= releases@);
        while i < n
            invariant
                n == releases@.len(),
                0 <= i <= n,
                spec_latest_version(releases@, platform_suffix@)
                    == spec_latest_version(releases@.skip(i as int), platform_suffix@),
            decreases n - i,
        {
            let release = &releases[i];
            assert(releases@.skip(i as int)[0] == releases@[i as int]);
            assert(releases@.skip(i as int).drop_first() =~= releases@.skip(i + 1));
            // A release without a name cannot be for the platform.
            if let Some(release_name) = &release.name {
                if ends_with(release_name.as_str(), platform_suffix) {
                    // The version is the release tag less its "v" prefix.
                    return strip_prefix(release.tag_name.as_str(), "v");
                }
            }
            i = i + 1;
        }
        None
    }
}

} // verus!
