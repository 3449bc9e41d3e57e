//! The two platforms the launcher runs on, and the asset that fits each.

use crate::github::{asset_views, AssetData, ReleaseAsset};
use crate::text::{ends_with, str_ends_with};
use vstd::prelude::*;

verus! {

/// Name of the directory, beside the launcher, that holds what was downloaded.
pub const DOWNLOADS_NAME: &'static str = "dist";

/// Name of the empty file whose modification time records the last check.
pub const CHECKED_MARKER_NAME: &'static str = "CHECKED";

/// Name of the environment variable that may hold a key for the release host.
pub const APIKEY_ENV_VAR: &'static str = "REPAKSTRAP_APIKEY";

/// A platform that releases are built for.
#[derive(Clone, Copy, Debug, PartialEq, Eq, Structural)]
pub enum Platform {
    Windows,
    Linux,
}

impl Platform {
    /// What the name of this platform's archive ends with.
    pub open spec fn suffix(self) -> Seq<char> {
        match self {
            Platform::Windows => "windows-msvc.zip"@,
            Platform::Linux => "linux-gnu.tar.xz"@,
        }
    }

    /// The extension of this platform's archive.
    pub open spec fn extension(self) -> Seq<char> {
        match self {
            Platform::Windows => ".zip"@,
            Platform::Linux => ".tar.xz"@,
        }
    }

    /// The file name of the wrapped binary on this platform.
    pub open spec fn binary(self) -> Seq<char> {
        match self {
            Platform::Windows => "repak.exe"@,
            Platform::Linux => "repak"@,
        }
    }

    /// The file name of the graphical front end on this platform.
    pub open spec fn gui(self) -> Seq<char> {
        match self {
            Platform::Windows => "repak-gui.exe"@,
            Platform::Linux => "repak-gui"@,
        }
    }

    /// What the name of this platform's archive ends with: a zip archive on
    /// one, a compressed tar archive on the other.
    pub fn archive_suffix(self) -> (r: &'static str)
        ensures
            r@ == self.suffix(),
    {
        match self {
            Platform::Windows => "windows-msvc.zip",
            Platform::Linux => "linux-gnu.tar.xz",
        }
    }

    /// The extension of this platform's archive.
    pub fn archive_extension(self) -> (r: &'static str)
        ensures
            r@ == self.extension(),
    {
        match self {
            Platform::Windows => ".zip",
            Platform::Linux => ".tar.xz",
        }
    }

    /// The file name of the graphical front end on this platform, which
    /// comes in the archive and is put beside the launcher.
    pub fn gui_name(self) -> (r: &'static str)
        ensures
            r@ == self.gui(),
    {
        match self {
            Platform::Windows => "repak-gui.exe",
            Platform::Linux => "repak-gui",
        }
    }

    /// The file name of the wrapped binary on this platform.
    pub fn binary_name(self) -> (r: &'static str)
        ensures
            r@ == self.binary(),
    {
        match self {
            Platform::Windows => "repak.exe",
            Platform::Linux => "repak",
        }
    }
}

/// Whether `assets[i]` is the first asset whose name ends with `suffix`.
pub open spec fn is_first_match(assets: Seq<AssetData>, suffix: Seq<char>, i: int) -> bool {
    &&& 0 <= i < assets.len()
    &&& ends_with(assets[i].name, suffix)
    &&& forall|j: int| 0 <= j < i ==> !ends_with(#[trigger] assets[j].name, suffix)
}

/// The view of an asset that may be missing.
pub open spec fn asset_view(asset: Option<ReleaseAsset>) -> Option<AssetData> {
    match asset {
        Some(a) => Some(a@),
        None => None,
    }
}

/// Whether `choice` is what is to be picked among `assets`: the first asset
/// whose name ends with `suffix`, or nothing where no name does.
pub open spec fn is_selection(
    assets: Seq<AssetData>,
    suffix: Seq<char>,
    choice: Option<AssetData>,
) -> bool {
    match choice {
        Some(a) => exists|i: int| is_first_match(assets, suffix, i) && a == assets[i],
        None => forall|i: int|
            0 <= i < assets.len() ==> !ends_with(#[trigger] assets[i].name, suffix),
    }
}

/// Find the asset to download among those of a release: the first whose name
/// ends with the platform's suffix, or none where no name does.
pub fn find_download(assets: Vec<ReleaseAsset>, platform: Platform) -> (r: Option<ReleaseAsset>)
    ensures
        is_selection(asset_views(assets@), platform.suffix(), asset_view(r)),
{
    let suffix = platform.archive_suffix();
    let mut rest = assets;
    let mut i: usize = 0;
    while i < rest.len()
        invariant
            i <= rest.len(),
            rest@ == assets@,
            suffix@ == platform.suffix(),
            forall|j: int|
                0 <= j < i ==> !ends_with(#[trigger] assets@[j]@.name, platform.suffix()),
        decreases rest.len() - i,
    {
        if str_ends_with(rest[i].name.as_str(), suffix) {
            let found = rest.remove(i);
            proof {
                let k = i as int;
                let views = asset_views(assets@);
                assert(views[k] == assets@[k]@);
                assert forall|j: int| 0 <= j < k implies !ends_with(
                    #[trigger] views[j].name,
                    platform.suffix(),
                ) by {
                    assert(views[j] == assets@[j]@);
                }
                assert(is_first_match(views, platform.suffix(), k) && found@ == views[k]);
            }
            return Some(found);
        }
        i = i + 1;
    }
    proof {
        let views = asset_views(assets@);
        assert forall|j: int| 0 <= j < views.len() implies !ends_with(
            #[trigger] views[j].name,
            platform.suffix(),
        ) by {
            assert(views[j] == assets@[j]@);
        }
    }
    None
}

} // verus!
