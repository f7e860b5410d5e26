//! Self-update decisions: which release asset fits this platform, what a
//! release answer holds, and which asset to download.
use vstd::prelude::*;

use crate::text::{chars_of, concat, concat3, owned, str_eq, string_from_chars};
use crate::version::strip_v;

verus! {

/// The operating systems that releases are built for.
#[derive(PartialEq, Eq, Structural, Clone, Copy, Debug)]
pub enum Os {
    Windows,
    MacOs,
    /// Linux and every other system.
    Other,
}

/// The release asset built for `os` (`arm64` tells whether the processor is
/// a 64-bit ARM one).
pub open spec fn asset_for(os: Os, arm64: bool) -> Seq<char> {
    match os {
        Os::Windows => "gate-windows-amd64.exe"@,
        Os::MacOs => if arm64 {
            "gate-macos-arm64"@
        } else {
            "gate-macos-amd64"@
        },
        Os::Other => "gate-linux-amd64"@,
    }
}

/// The name of the release asset for this platform.
pub fn asset_name(os: Os, arm64: bool) -> (name: &'static str)
    ensures
        name@ == asset_for(os, arm64),
{
    match os {
        Os::Windows => "gate-windows-amd64.exe",
        Os::MacOs => if arm64 {
            "gate-macos-arm64"
        } else {
            "gate-macos-amd64"
        },
        Os::Other => "gate-linux-amd64",
    }
}

/// A downloadable file of a release.
#[derive(Clone, Debug)]
pub struct AssetInfo {
    pub name: String,
    pub download_url: String,
}

/// The latest release: its tag, the version it names, its files.
#[derive(Clone, Debug)]
pub struct ReleaseInfo {
    pub tag: String,
    pub version: String,
    pub assets: Vec<AssetInfo>,
}

/// Why a release answer could not be used.
#[derive(Clone, Debug)]
pub enum UpdateError {
    /// The answer names no tag.
    MissingTag,
    /// No asset of the release is named for this platform; the message lists
    /// the assets there are.
    AssetNotFound(String),
}

/// The assets of the answer that have both a name and a download address,
/// in order.
pub open spec fn complete_assets(raw: Seq<(Option<String>, Option<String>)>) -> Seq<(Seq<char>, Seq<char>)>
    decreases raw.len(),
{
    if raw.len() == 0 {
        Seq::empty()
    } else {
        let rest = complete_assets(raw.drop_last());
        match raw.last() {
            (Some(n), Some(u)) => rest.push((n@, u@)),
            _ => rest,
        }
    }
}

pub open spec fn asset_view(assets: Seq<AssetInfo>) -> Seq<(Seq<char>, Seq<char>)> {
    assets.map_values(|a: AssetInfo| (a.name@, a.download_url@))
}

/// Builds the release from the fields of the answer: the tag (the version is
/// the tag without its leading `v`s) and, for each listed asset, its name and
/// download address where present. Without a tag there is no release.
pub fn release_from(tag: Option<String>, raw_assets: Vec<(Option<String>, Option<String>)>) -> (r: Result<ReleaseInfo, UpdateError>)
    ensures
        match tag {
            None => r matches Err(UpdateError::MissingTag),
            Some(t) => r matches Ok(rel) && rel.tag@ == t@ && rel.version@ == strip_v(t@)
                && asset_view(rel.assets@) == complete_assets(raw_assets@),
        },
{
    let t = match tag {
        Some(t) => t,
        None => {
            return Err(UpdateError::MissingTag);
        },
    };
    let tv = chars_of(t.as_str());
    let mut i: usize = 0;
    assert(tv@.skip(0) =~= tv@);
    while i < tv.len() && tv[i] == 'v'
        invariant
            i <= tv@.len(),
            strip_v(tv@) == strip_v(tv@.skip(i as int)),
        decreases tv@.len() - i,
    {
        assert(tv@.skip(i as int).drop_first() =~= tv@.skip(i + 1));
        i = i + 1;
    }
    let rest = crate::text::slice_chars(&tv, i, tv.len());
    assert(rest@ =~= tv@.skip(i as int));
    let version = string_from_chars(rest.as_slice());
    let mut assets: Vec<AssetInfo> = Vec::new();
    let mut k: usize = 0;
    assert(raw_assets@.take(0) =~= Seq::<(Option<String>, Option<String>)>::empty());
    while k < raw_assets.len()
        invariant
            k <= raw_assets@.len(),
            asset_view(assets@) == complete_assets(raw_assets@.take(k as int)),
        decreases raw_assets@.len() - k,
    {
        assert(raw_assets@.take(k + 1).drop_last() =~= raw_assets@.take(k as int));
        let ghost before = assets@;
        match &raw_assets[k] {
            (Some(n), Some(u)) => {
                assets.push(AssetInfo { name: n.clone(), download_url: u.clone() });
                assert(asset_view(assets@) =~= asset_view(before).push((n@, u@)));
            },
            _ => {},
        }
        k = k + 1;
    }
    assert(raw_assets@.take(k as int) =~= raw_assets@);
    Ok(ReleaseInfo { tag: t, version, assets })
}

/// Index of the first asset named `target`, if any.
pub open spec fn first_named(assets: Seq<AssetInfo>, target: Seq<char>, i: int) -> bool {
    0 <= i < assets.len() && assets[i].name@ == target && forall|j: int|
        0 <= j < i ==> #[trigger] assets[j].name@ != target
}

/// The names of `assets` joined by `", "`.
pub open spec fn joined_names(assets: Seq<AssetInfo>) -> Seq<char>
    decreases assets.len(),
{
    if assets.len() == 0 {
        Seq::empty()
    } else if assets.len() == 1 {
        assets[0].name@
    } else {
        joined_names(assets.drop_last()) + ", "@ + assets.last().name@
    }
}

/// The message when no asset is named `target`.
pub open spec fn not_found_message(target: Seq<char>, assets: Seq<AssetInfo>) -> Seq<char> {
    "Asset '"@ + target + "' não encontrado na release. Assets disponíveis: "@ + joined_names(
        assets,
    )
}

/// The asset of `release` named `target`: the first one, or an error that
/// lists the names of all assets.
pub fn find_asset(release: &ReleaseInfo, target: &str) -> (r: Result<usize, UpdateError>)
    ensures
        match r {
            Ok(i) => first_named(release.assets@, target@, i as int),
            Err(e) => {
                &&& forall|j: int|
                    0 <= j < release.assets@.len() ==> #[trigger] release.assets@[j].name@ != target@
                &&& e matches UpdateError::AssetNotFound(m) && m@ == not_found_message(
                    target@,
                    release.assets@,
                )
            },
        },
{
    let n = release.assets.len();
    let mut i: usize = 0;
    while i < n
        invariant
            i <= n,
            n == release.assets@.len(),
            forall|j: int| 0 <= j < i ==> #[trigger] release.assets@[j].name@ != target@,
        decreases n - i,
    {
        if str_eq(release.assets[i].name.as_str(), target) {
            return Ok(i);
        }
        i = i + 1;
    }
    let mut names: Vec<char> = Vec::new();
    let mut k: usize = 0;
    while k < n
        invariant
            k <= n,
            n == release.assets@.len(),
            names@ == joined_names(release.assets@.take(k as int)),
        decreases n - k,
    {
        let name = chars_of(release.assets[k].name.as_str());
        let ghost before = names@;
        assert(release.assets@.take(k + 1).drop_last() =~= release.assets@.take(k as int));
        assert(release.assets@.take(k + 1).last() == release.assets@[k as int]);
        if k > 0 {
            names.push(',');
            names.push(' ');
            proof {
                reveal_strlit(", ");
            }
        }
        let mut j: usize = 0;
        let ghost mid = names@;
        while j < name.len()
            invariant
                j <= name@.len(),
                names@ == mid + name@.take(j as int),
            decreases name@.len() - j,
        {
            names.push(name[j]);
            assert(name@.take(j + 1) =~= name@.take(j as int).push(name@[j as int]));
            j = j + 1;
        }
        assert(name@.take(j as int) =~= name@);
        if k == 0 {
            assert(names@ =~= joined_names(release.assets@.take(1)));
        } else {
            assert(names@ =~= joined_names(release.assets@.take(k + 1)));
        }
        k = k + 1;
    }
    assert(release.assets@.take(n as int) =~= release.assets@);
    let joined = string_from_chars(names.as_slice());
    let front = concat3("Asset '", target, "' não encontrado na release. Assets disponíveis: ");
    Err(UpdateError::AssetNotFound(concat(front.as_str(), joined.as_str())))
}

} // verus!
