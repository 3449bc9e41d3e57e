//! Where the launcher keeps its files.

use crate::platform::{Platform, CHECKED_MARKER_NAME, DOWNLOADS_NAME};
use crate::text::push_char;
use vstd::prelude::*;
use vstd::string::StringExecFns;

verus! {

/// The places that a run works with, all of them below the directory that
/// holds the launcher itself.
#[derive(Debug)]
pub struct InstallationPaths {
    /// The directory that archives are fetched and unpacked into.
    pub downloads: String,
    /// The wrapped binary.
    pub binary: String,
    /// The cooldown marker.
    pub marker: String,
}

/// The path of `name` in the directory `dir`.
pub open spec fn child_path(dir: Seq<char>, separator: char, name: Seq<char>) -> Seq<char> {
    dir + seq![separator] + name
}

/// Writes the path of `name` in the directory `dir`.
pub fn child(dir: &str, separator: char, name: &str) -> (r: String)
    ensures
        r@ == child_path(dir@, separator, name@),
{
    let mut path = dir.to_owned();
    push_char(&mut path, separator);
    path.append(name);
    proof {
        assert(path@ =~= child_path(dir@, separator, name@));
    }
    path
}

/// Lays out the places of a run below `launcher_dir`, the directory of the
/// running launcher, on a platform that parts the names of a path with
/// `separator`.
pub fn installation_paths(launcher_dir: &str, separator: char, platform: Platform) -> (r:
    InstallationPaths)
    ensures
        r.downloads@ == child_path(launcher_dir@, separator, DOWNLOADS_NAME@),
        r.binary@ == child_path(r.downloads@, separator, platform.binary()),
        r.marker@ == child_path(r.downloads@, separator, CHECKED_MARKER_NAME@),
{
    let downloads = child(launcher_dir, separator, DOWNLOADS_NAME);
    let binary = child(downloads.as_str(), separator, platform.binary_name());
    let marker = child(downloads.as_str(), separator, CHECKED_MARKER_NAME);
    InstallationPaths { downloads, binary, marker }
}

} // verus!
