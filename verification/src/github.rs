//! What the release host says of a release.

use vstd::prelude::*;

verus! {

/// A release's asset. Does not contain all fields.
#[derive(Debug)]
pub struct ReleaseAsset {
    pub name: String,
    pub browser_download_url: String,
}

/// What a [`ReleaseAsset`] holds, as mathematical values.
pub struct AssetData {
    pub name: Seq<char>,
    pub browser_download_url: Seq<char>,
}

impl View for ReleaseAsset {
    type V = AssetData;

    open spec fn view(&self) -> AssetData {
        AssetData { name: self.name@, browser_download_url: self.browser_download_url@ }
    }
}

impl Clone for ReleaseAsset {
    fn clone(&self) -> (r: Self)
        ensures
            r == *self,
    {
        ReleaseAsset {
            name: self.name.clone(),
            browser_download_url: self.browser_download_url.clone(),
        }
    }
}

/// A release of the wrapped binary. Does not contain all fields.
#[derive(Debug)]
pub struct Release {
    pub name: String,
    pub tag_name: String,
    pub assets: Vec<ReleaseAsset>,
}

/// What a [`Release`] holds, as mathematical values.
pub struct ReleaseData {
    pub name: Seq<char>,
    pub tag_name: Seq<char>,
    pub assets: Seq<AssetData>,
}

/// The assets of a list, each as mathematical values, in the list's order.
pub open spec fn asset_views(assets: Seq<ReleaseAsset>) -> Seq<AssetData> {
    Seq::new(assets.len(), |i: int| assets[i]@)
}

impl View for Release {
    type V = ReleaseData;

    open spec fn view(&self) -> ReleaseData {
        ReleaseData {
            name: self.name@,
            tag_name: self.tag_name@,
            assets: asset_views(self.assets@),
        }
    }
}

} // verus!
