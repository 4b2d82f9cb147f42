//! What GitHub tells of a release.
use vstd::prelude::*;
use vstd::string::*;

verus! {

/// GitHub release asset.
#[derive(Debug, PartialEq, Eq)]
pub struct ReleaseAsset {
    pub name: String,
    pub browser_download_url: String,
    pub size: u64,
}

/// GitHub release information.
#[derive(Debug, PartialEq, Eq)]
pub struct ReleaseInfo {
    pub tag_name: String,
    pub name: String,
    pub body: Option<String>,
    pub html_url: String,
    pub assets: Vec<ReleaseAsset>,
}

/// Download progress information.
#[derive(Debug, Clone, Copy, PartialEq, Eq)]
pub struct DownloadProgress {
    pub downloaded: u64,
    pub total_size: u64,
}

/// A [`ReleaseAsset`] with its texts.
pub struct ReleaseAssetView {
    pub name: Seq<char>,
    pub browser_download_url: Seq<char>,
    pub size: u64,
}

/// A [`ReleaseInfo`] with its texts.
pub struct ReleaseInfoView {
    pub tag_name: Seq<char>,
    pub name: Seq<char>,
    pub body: Option<Seq<char>>,
    pub html_url: Seq<char>,
    pub assets: Seq<ReleaseAssetView>,
}

impl View for ReleaseAsset {
    type V = ReleaseAssetView;

    open spec fn view(&self) -> ReleaseAssetView {
        ReleaseAssetView {
            name: self.name@,
            browser_download_url: self.browser_download_url@,
            size: self.size,
        }
    }
}

impl View for ReleaseInfo {
    type V = ReleaseInfoView;

    open spec fn view(&self) -> ReleaseInfoView {
        ReleaseInfoView {
            tag_name: self.tag_name@,
            name: self.name@,
            body: match self.body {
                Some(text) => Some(text@),
                None => None,
            },
            html_url: self.html_url@,
            assets: Seq::new(self.assets@.len(), |i: int| self.assets@[i]@),
        }
    }
}

impl Clone for ReleaseAsset {
    fn clone(&self) -> (copy: Self)
        ensures
            copy@ == self@,
    {
        ReleaseAsset {
            name: self.name.clone(),
            browser_download_url: self.browser_download_url.clone(),
            size: self.size,
        }
    }
}

impl Clone for ReleaseInfo {
    fn clone(&self) -> (copy: Self)
        ensures
            copy@ == self@,
    {
        let mut assets: Vec<ReleaseAsset> = Vec::new();
        let mut index: usize = 0;
        while index < self.assets.len()
            invariant
                index <= self.assets@.len(),
                assets@.len() == index,
                forall|i: int| 0 <= i < index ==> (#[trigger] assets@[i])@ == self.assets@[i]@,
            decreases self.assets@.len() - index,
        {
            assets.push(self.assets[index].clone());
            index = index + 1;
        }
        let copy = ReleaseInfo {
            tag_name: self.tag_name.clone(),
            name: self.name.clone(),
            body: match &self.body {
                Some(text) => Some(text.clone()),
                None => None,
            },
            html_url: self.html_url.clone(),
            assets,
        };
        assert(copy@.assets =~= self@.assets);
        copy
    }
}

} // verus!
