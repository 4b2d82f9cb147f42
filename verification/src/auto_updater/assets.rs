//! Which asset of a release is the one for this platform.
use crate::auto_updater::release::ReleaseAsset;
use crate::auto_updater::release::ReleaseAssetView;
use crate::auto_updater::release::ReleaseInfo;
use crate::text::join2;
use crate::text::lowercase;
use crate::text::occurs_in;
use crate::text::same_text;
use crate::text::text_contains;
use crate::text::to_lowercase;
use vstd::prelude::*;
use vstd::string::*;

verus! {

/// The words by which asset names tell the operating system `os`.
pub open spec fn os_words(os: Seq<char>) -> Seq<Seq<char>> {
    if os == "macos"@ {
        seq!["macos"@, "darwin"@, "osx"@, "mac"@]
    } else if os == "linux"@ {
        seq!["linux"@]
    } else if os == "windows"@ {
        seq!["windows"@, "win"@]
    } else {
        seq![os]
    }
}

/// The words by which asset names tell the architecture `arch`.
pub open spec fn arch_words(arch: Seq<char>) -> Seq<Seq<char>> {
    if arch == "x86_64"@ {
        seq!["x86_64"@, "amd64"@, "x64"@]
    } else if arch == "aarch64"@ {
        seq!["aarch64"@, "arm64"@]
    } else if arch == "x86"@ {
        seq!["x86"@, "i686"@]
    } else if arch == "arm"@ {
        seq!["arm"@, "armv7"@]
    } else {
        seq![arch]
    }
}

/// The texts of a list of words.
pub open spec fn word_texts(words: Seq<&str>) -> Seq<Seq<char>> {
    Seq::new(words.len(), |i: int| words[i]@)
}

/// Whether the asset name `name`, in lower case, holds one of `words`.
pub open spec fn mentions(name: Seq<char>, words: Seq<Seq<char>>) -> bool {
    exists|w: int| 0 <= w < words.len() && occurs_in(#[trigger] words[w], lowercase(name))
}

/// The words by which asset names tell the operating system `os`.
pub fn os_patterns<'a>(os: &'a str) -> (words: Vec<&'a str>)
    ensures
        word_texts(words@) == os_words(os@),
{
    let words = if same_text(os, "macos") {
        vec!["macos", "darwin", "osx", "mac"]
    } else if same_text(os, "linux") {
        vec!["linux"]
    } else if same_text(os, "windows") {
        vec!["windows", "win"]
    } else {
        vec![os]
    };
    assert(word_texts(words@) =~= os_words(os@));
    words
}

/// The words by which asset names tell the architecture `arch`.
pub fn arch_patterns<'a>(arch: &'a str) -> (words: Vec<&'a str>)
    ensures
        word_texts(words@) == arch_words(arch@),
{
    let words = if same_text(arch, "x86_64") {
        vec!["x86_64", "amd64", "x64"]
    } else if same_text(arch, "aarch64") {
        vec!["aarch64", "arm64"]
    } else if same_text(arch, "x86") {
        vec!["x86", "i686"]
    } else if same_text(arch, "arm") {
        vec!["arm", "armv7"]
    } else {
        vec![arch]
    };
    assert(word_texts(words@) =~= arch_words(arch@));
    words
}

/// Whether `name`, in lower case, holds one of `words`.
pub fn mentions_any(name: &str, words: &Vec<&str>) -> (found: bool)
    ensures
        found == mentions(name@, word_texts(words@)),
{
    let lowered = to_lowercase(name);
    let mut index: usize = 0;
    while index < words.len()
        invariant
            index <= words@.len(),
            lowered@ == lowercase(name@),
            forall|w: int| 0 <= w < index ==> !occurs_in(word_texts(words@)[w], lowercase(name@)),
        decreases words@.len() - index,
    {
        if text_contains(lowered.as_str(), words[index]) {
            assert(occurs_in(word_texts(words@)[index as int], lowercase(name@)));
            return true;
        }
        index = index + 1;
    }
    false
}

/// Whether the asset named `name` is one for the platform: under the full
/// rule its name tells both the operating system and the architecture, under
/// the relaxed rule the operating system alone.
pub open spec fn suits(name: Seq<char>, os: Seq<char>, arch: Seq<char>, full: bool) -> bool {
    mentions(name, os_words(os)) && (full ==> mentions(name, arch_words(arch)))
}

/// Whether `found` is the first asset of `assets` that suits the platform
/// under the rule `full`, or `None` where no asset does.
pub open spec fn is_first_suiting(
    assets: Seq<ReleaseAssetView>,
    os: Seq<char>,
    arch: Seq<char>,
    full: bool,
    found: Option<int>,
) -> bool {
    match found {
        Some(index) => {
            &&& 0 <= index < assets.len()
            &&& suits(assets[index].name, os, arch, full)
            &&& forall|j: int| 0 <= j < index ==> !suits(assets[j].name, os, arch, full)
        },
        None => forall|j: int| 0 <= j < assets.len() ==> !suits(assets[j].name, os, arch, full),
    }
}

/// The first asset of `release` that suits the platform under the rule
/// `full`.
fn first_suiting(release: &ReleaseInfo, os: &str, arch: &str, full: bool) -> (found: Option<usize>)
    ensures
        is_first_suiting(
            release@.assets,
            os@,
            arch@,
            full,
            match found {
                Some(index) => Some(index as int),
                None => None,
            },
        ),
{
    let os_list = os_patterns(os);
    let arch_list = arch_patterns(arch);
    let mut index: usize = 0;
    while index < release.assets.len()
        invariant
            index <= release.assets@.len(),
            word_texts(os_list@) == os_words(os@),
            word_texts(arch_list@) == arch_words(arch@),
            forall|j: int| 0 <= j < index ==> !suits(release@.assets[j].name, os@, arch@, full),
        decreases release.assets@.len() - index,
    {
        let name = release.assets[index].name.as_str();
        let has_os = mentions_any(name, &os_list);
        let has_arch = mentions_any(name, &arch_list);
        if has_os && (!full || has_arch) {
            return Some(index);
        }
        index = index + 1;
    }
    None
}

/// The first asset of `assets` that suits the platform under the rule `full`,
/// if there is one.
pub open spec fn first_suiting_index(
    assets: Seq<ReleaseAssetView>,
    os: Seq<char>,
    arch: Seq<char>,
    full: bool,
) -> Option<int> {
    if exists|index: int| is_first_suiting(assets, os, arch, full, Some(index)) {
        Some(choose|index: int| is_first_suiting(assets, os, arch, full, Some(index)))
    } else {
        None
    }
}

/// There is one answer to which asset suits first.
proof fn lemma_first_suiting_is_unique(
    assets: Seq<ReleaseAssetView>,
    os: Seq<char>,
    arch: Seq<char>,
    full: bool,
    found: Option<int>,
)
    requires
        is_first_suiting(assets, os, arch, full, found),
    ensures
        first_suiting_index(assets, os, arch, full) == found,
{
    match found {
        Some(index) => {
            let chosen = choose|index: int| is_first_suiting(assets, os, arch, full, Some(index));
            if chosen < index {
                assert(!suits(assets[chosen].name, os, arch, full));
            }
            if index < chosen {
                assert(!suits(assets[index].name, os, arch, full));
            }
        },
        None => {
            if exists|index: int| is_first_suiting(assets, os, arch, full, Some(index)) {
                let chosen = choose|index: int|
                    is_first_suiting(assets, os, arch, full, Some(index));
                assert(!suits(assets[chosen].name, os, arch, full));
            }
        },
    }
}

/// The asset that a platform takes from `assets`: the first whose name tells
/// both the operating system and the architecture; where there is none, the
/// first whose name tells the operating system; where there is none either,
/// nothing.
pub open spec fn platform_asset(assets: Seq<ReleaseAssetView>, os: Seq<char>, arch: Seq<char>) -> Option<
    ReleaseAssetView,
> {
    match first_suiting_index(assets, os, arch, true) {
        Some(index) => Some(assets[index]),
        None => match first_suiting_index(assets, os, arch, false) {
            Some(index) => Some(assets[index]),
            None => None,
        },
    }
}

/// An optional asset with its texts.
pub open spec fn asset_view(asset: Option<ReleaseAsset>) -> Option<ReleaseAssetView> {
    match asset {
        Some(asset) => Some(asset@),
        None => None,
    }
}

/// Find the appropriate asset of `release` for the operating system `os` on
/// the architecture `arch`.
pub fn find_platform_asset(release: &ReleaseInfo, os: &str, arch: &str) -> (found: Option<
    ReleaseAsset,
>)
    ensures
        asset_view(found) == platform_asset(release@.assets, os@, arch@),
{
    let strict = first_suiting(release, os, arch, true);
    let relaxed = first_suiting(release, os, arch, false);
    proof {
        lemma_first_suiting_is_unique(
            release@.assets,
            os@,
            arch@,
            true,
            match strict {
                Some(index) => Some(index as int),
                None => None,
            },
        );
        lemma_first_suiting_is_unique(
            release@.assets,
            os@,
            arch@,
            false,
            match relaxed {
                Some(index) => Some(index as int),
                None => None,
            },
        );
    }
    match strict {
        Some(index) => Some(release.assets[index].clone()),
        None => match relaxed {
            Some(index) => Some(release.assets[index].clone()),
            None => None,
        },
    }
}

/// The name of the checksum file of the asset `asset_name`.
pub open spec fn checksum_name(asset_name: Seq<char>) -> Seq<char> {
    asset_name + ".sha256"@
}

/// Whether `found` is the first asset of `assets` with the name `name`, or
/// `None` where no asset has that name.
pub open spec fn is_first_named(assets: Seq<ReleaseAssetView>, name: Seq<char>, found: Option<int>) -> bool {
    match found {
        Some(index) => {
            &&& 0 <= index < assets.len()
            &&& assets[index].name == name
            &&& forall|j: int| 0 <= j < index ==> assets[j].name != name
        },
        None => forall|j: int| 0 <= j < assets.len() ==> assets[j].name != name,
    }
}

/// The checksum asset of the asset `asset_name`: the first asset of `assets`
/// that is named `<asset_name>.sha256`, if there is one.
pub open spec fn sha256_asset(assets: Seq<ReleaseAssetView>, asset_name: Seq<char>) -> Option<
    ReleaseAssetView,
> {
    if exists|index: int| is_first_named(assets, checksum_name(asset_name), Some(index)) {
        Some(
            assets[choose|index: int|
                is_first_named(assets, checksum_name(asset_name), Some(index))],
        )
    } else {
        None
    }
}

/// Find the SHA256 file for an asset: the first asset of the release that is
/// named `<asset_name>.sha256`.
pub fn find_sha256_asset(release: &ReleaseInfo, asset_name: &str) -> (found: Option<ReleaseAsset>)
    ensures
        asset_view(found) == sha256_asset(release@.assets, asset_name@),
{
    let expected_name = join2(asset_name, ".sha256");
    let ghost assets = release@.assets;
    let ghost name = checksum_name(asset_name@);
    let mut index: usize = 0;
    while index < release.assets.len()
        invariant
            index <= release.assets@.len(),
            assets == release@.assets,
            name == checksum_name(asset_name@),
            expected_name@ == name,
            forall|j: int| 0 <= j < index ==> assets[j].name != name,
        decreases release.assets@.len() - index,
    {
        if same_text(release.assets[index].name.as_str(), expected_name.as_str()) {
            let asset = release.assets[index].clone();
            proof {
                assert(is_first_named(assets, name, Some(index as int)));
                let chosen = choose|c: int| is_first_named(assets, name, Some(c));
                if chosen < index {
                    assert(assets[chosen].name != name);
                }
                if index < chosen {
                    assert(assets[index as int].name != name);
                }
            }
            return Some(asset);
        }
        index = index + 1;
    }
    proof {
        if exists|c: int| is_first_named(assets, name, Some(c)) {
            let chosen = choose|c: int| is_first_named(assets, name, Some(c));
            assert(assets[chosen].name != name);
        }
    }
    None
}

} // verus!
