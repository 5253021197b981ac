//! The remote catalog: merging the two release feeds, choosing the release that a
//! query names, and choosing the download of that release for the running platform.
use vstd::prelude::*;
use crate::text::{has_prefix, has_suffix, has_infix, starts_with, contains, same_text, ends_with};
use crate::version::{self, Version, VersionView};
use crate::utils::views;

verus! {

/// One downloadable file of a release.
pub struct Asset {
    pub name: String,
    pub browser_download_url: String,
}

/// One entry of a release feed.
pub struct Release {
    pub tag_name: String,
    pub prerelease: bool,
    pub assets: Vec<Asset>,
}

/// Why no download could be chosen at all.
#[derive(PartialEq, Eq, Structural, Clone, Copy, Debug)]
pub enum PlatformError {
    /// The operating system is none of Windows, macOS and Linux.
    UnsupportedPlatform,
}

/// The entries of a feed whose preview flag is `prerelease`.
pub open spec fn on_track(feed: Seq<Release>, prerelease: bool) -> Seq<Release> {
    feed.filter(|r: Release| r.prerelease == prerelease)
}

/// Keeps the entries of a feed that belong to its track: the preview entries of the
/// preview feed (`prerelease`), the others of the stable feed. Order is kept.
pub fn get_releases(feed: Vec<Release>, prerelease: bool) -> (r: Vec<Release>)
    ensures
        r@ == on_track(feed@, prerelease),
{
    let ghost orig = feed@;
    let mut feed = feed;
    let mut kept: Vec<Release> = Vec::new();
    let mut i: usize = 0;
    let n = feed.len();
    while i < n
        invariant
            n == orig.len(),
            i <= n,
            feed@ == orig.subrange(i as int, n as int),
            kept@ == on_track(orig.subrange(0, i as int), prerelease),
        decreases n - i,
    {
        let item = feed.remove(0);
        proof {
            reveal(Seq::filter);
            let next = orig.subrange(0, i + 1);
            assert(next.drop_last() =~= orig.subrange(0, i as int));
            assert(next.last() == item);
        }
        if item.prerelease == prerelease {
            kept.push(item);
        }
        proof {
            assert(feed@ =~= orig.subrange(i + 1, n as int));
        }
        i = i + 1;
    }
    assert(orig.subrange(0, n as int) =~= orig);
    kept
}

/// The catalog: when preview releases are wanted, the stable feed as it is followed
/// by the preview entries of the preview feed; else the stable entries of the stable feed.
pub open spec fn catalog(stable_feed: Seq<Release>, preview_feed: Seq<Release>, prerelease: bool) -> Seq<Release> {
    if prerelease {
        stable_feed + on_track(preview_feed, true)
    } else {
        on_track(stable_feed, false)
    }
}

/// Merges the two feeds into the catalog that a query is resolved against.
pub fn get_all_releases(stable_feed: Vec<Release>, preview_feed: Vec<Release>, prerelease: bool) -> (r: Vec<Release>)
    ensures
        r@ == catalog(stable_feed@, preview_feed@, prerelease),
{
    if prerelease {
        let mut results = stable_feed;
        let mut preview = get_releases(preview_feed, true);
        results.append(&mut preview);
        results
    } else {
        get_releases(stable_feed, false)
    }
}

/// A query that names a preview release: it holds a dash and does not end in "stable".
pub open spec fn names_prerelease(version: Option<Seq<char>>) -> bool {
    match version {
        Some(q) => has_infix(q, "-"@) && !has_suffix(q, "stable"@),
        None => false,
    }
}

/// Whether resolving this query needs the preview feed too.
pub fn wants_prerelease(version: &Option<String>) -> (r: bool)
    ensures
        r == names_prerelease(crate::utils::opt_text(*version)),
{
    match version {
        Some(q) => contains(q.as_str(), "-") && !ends_with(q.as_str(), "stable"),
        None => false,
    }
}

/// The platform token of an operating system, if it is a supported one.
pub open spec fn os_token(os: Seq<char>) -> Option<Seq<char>> {
    if os == "windows"@ {
        Some("win"@)
    } else if os == "macos"@ {
        Some("macos"@)
    } else if os == "linux"@ {
        Some("linux"@)
    } else {
        None
    }
}

/// The architecture token of an operating system and a CPU architecture.
pub open spec fn arch_token(os: Seq<char>, arch: Seq<char>) -> Seq<char> {
    if arch == "x86_64"@ {
        if os == "windows"@ { "win64"@ } else { "x86_64"@ }
    } else if arch == "x86"@ {
        if os == "windows"@ { "win32"@ } else { "x86_32"@ }
    } else if os == "macos"@ {
        "universal"@
    } else if has_suffix(arch, "64"@) {
        "arm64"@
    } else {
        "arm32"@
    }
}

/// An asset name fits the platform and the variant: it holds the platform token and
/// the architecture token, and holds "mono" exactly when the mono build is wanted.
pub open spec fn fits(name: Seq<char>, os: Seq<char>, arch: Seq<char>, mono: bool) -> bool {
    &&& os_token(os) matches Some(t) && has_infix(name, t)
    &&& has_infix(name, arch_token(os, arch))
    &&& has_infix(name, "mono"@) == mono
}

/// `k` is the first asset that fits.
pub open spec fn first_fit(assets: Seq<Asset>, os: Seq<char>, arch: Seq<char>, mono: bool, k: int) -> bool {
    &&& 0 <= k < assets.len()
    &&& fits(assets[k].name@, os, arch, mono)
    &&& forall|j: int| 0 <= j < k ==> !fits(#[trigger] assets[j].name@, os, arch, mono)
}

/// No asset fits.
pub open spec fn none_fits(assets: Seq<Asset>, os: Seq<char>, arch: Seq<char>, mono: bool) -> bool {
    forall|j: int| 0 <= j < assets.len() ==> !fits(#[trigger] assets[j].name@, os, arch, mono)
}

/// The platform token of an operating system, if supported.
fn platform_token(os: &str) -> (r: Option<&'static str>)
    ensures
        match r {
            Some(t) => os_token(os@) == Some(t@),
            None => os_token(os@) is None,
        },
{
    if same_text(os, "windows") {
        Some("win")
    } else if same_text(os, "macos") {
        Some("macos")
    } else if same_text(os, "linux") {
        Some("linux")
    } else {
        None
    }
}

/// The architecture token of an operating system and a CPU architecture.
fn architecture_token(os: &str, arch: &str) -> (r: &'static str)
    ensures
        r@ == arch_token(os@, arch@),
{
    let windows = same_text(os, "windows");
    if same_text(arch, "x86_64") {
        if windows { "win64" } else { "x86_64" }
    } else if same_text(arch, "x86") {
        if windows { "win32" } else { "x86_32" }
    } else if same_text(os, "macos") {
        "universal"
    } else if ends_with(arch, "64") {
        "arm64"
    } else {
        "arm32"
    }
}

/// Picks the first asset whose name fits the platform and the variant. Fails only
/// for an unsupported operating system; `Ok(None)` when no asset fits.
pub fn select_asset(assets: &Vec<Asset>, os: &str, arch: &str, mono: bool) -> (r: Result<Option<usize>, PlatformError>)
    ensures
        match r {
            Err(_) => os_token(os@) is None,
            Ok(None) => os_token(os@) is Some && none_fits(assets@, os@, arch@, mono),
            Ok(Some(k)) => os_token(os@) is Some && first_fit(assets@, os@, arch@, mono, k as int),
        },
{
    let platform = match platform_token(os) {
        Some(t) => t,
        None => return Err(PlatformError::UnsupportedPlatform),
    };
    let architecture = architecture_token(os, arch);
    let mut k: usize = 0;
    while k < assets.len()
        invariant
            k <= assets.len(),
            os_token(os@) == Some(platform@),
            architecture@ == arch_token(os@, arch@),
            forall|j: int| 0 <= j < k ==> !fits(#[trigger] assets@[j].name@, os@, arch@, mono),
        decreases assets.len() - k,
    {
        let name = assets[k].name.as_str();
        if contains(name, platform) && contains(name, architecture) && contains(name, "mono") == mono {
            return Ok(Some(k));
        }
        k = k + 1;
    }
    Ok(None)
}

/// `i` is the release that a query chooses: the first whose tag starts with the
/// query, or the first release where there is no query.
pub open spec fn chosen(releases: Seq<Release>, query: Option<Seq<char>>, i: int) -> bool {
    &&& 0 <= i < releases.len()
    &&& match query {
        None => i == 0,
        Some(q) => has_prefix(releases[i].tag_name@, q) && forall|j: int|
            0 <= j < i ==> !has_prefix(#[trigger] releases[j].tag_name@, q),
    }
}

/// The index of the release that a query chooses, if any.
fn find_release(releases: &Vec<Release>, version: &Option<String>) -> (r: Option<usize>)
    ensures
        match r {
            Some(i) => chosen(releases@, crate::utils::opt_text(*version), i as int),
            None => forall|i: int| !chosen(releases@, crate::utils::opt_text(*version), i),
        },
{
    match version {
        Some(q) => {
            let mut idx: usize = 0;
            while idx < releases.len()
                invariant
                    idx <= releases.len(),
                    crate::utils::opt_text(*version) == Some(q@),
                    forall|j: int| 0 <= j < idx ==> !has_prefix(#[trigger] releases@[j].tag_name@, q@),
                decreases releases.len() - idx,
            {
                if starts_with(releases[idx].tag_name.as_str(), q.as_str()) {
                    return Some(idx);
                }
                idx = idx + 1;
            }
            None
        },
        None => {
            if releases.len() == 0 {
                None
            } else {
                Some(0)
            }
        },
    }
}

/// Resolves a query against the catalog: chooses the release as `chosen` says, then
/// its first asset that fits the platform and the variant. Yields the version (the
/// release's tag with the wanted variant) and the asset's download address; nothing
/// where no release is chosen or no asset of it fits; an error for an unsupported
/// operating system once a release is chosen.
pub fn search_remote_version(
    releases: &Vec<Release>,
    version: &Option<String>,
    mono: bool,
    os: &str,
    arch: &str,
) -> (r: Result<Option<(Version, String)>, PlatformError>)
    ensures
        match r {
            Err(_) => os_token(os@) is None && exists|i: int|
                chosen(releases@, crate::utils::opt_text(*version), i),
            Ok(None) => (forall|i: int| !chosen(releases@, crate::utils::opt_text(*version), i)) || (
            os_token(os@) is Some && forall|i: int|
                chosen(releases@, crate::utils::opt_text(*version), i) ==> none_fits(
                    #[trigger] releases@[i].assets@,
                    os@,
                    arch@,
                    mono,
                )),
            Ok(Some((v, url))) => os_token(os@) is Some && exists|i: int, k: int|
                chosen(releases@, crate::utils::opt_text(*version), i) && #[trigger] first_fit(
                    releases@[i].assets@,
                    os@,
                    arch@,
                    mono,
                    k,
                ) && v@ == (VersionView { tag: releases@[i].tag_name@, mono })
                    && url@ == releases@[i].assets@[k].browser_download_url@,
        },
{
    let ghost query = crate::utils::opt_text(*version);
    let idx = match find_release(releases, version) {
        Some(i) => i,
        None => {
            assert forall|i: int| !chosen(releases@, query, i) by {}
            return Ok(None);
        },
    };
    assert(chosen(releases@, query, idx as int));
    let release = &releases[idx];
    match select_asset(&release.assets, os, arch, mono) {
        Ok(Some(k)) => {
            let ver = version::new(release.tag_name.clone(), mono);
            let url = release.assets[k].browser_download_url.clone();
            assert(first_fit(releases@[idx as int].assets@, os@, arch@, mono, k as int));
            Ok(Some((ver, url)))
        },
        Err(e) => Err(e),
        Ok(None) => {
            assert forall|i: int| chosen(releases@, query, i) implies i == idx by {
                if i < idx {
                }
                if i > idx {
                    assert(has_prefix(releases@[idx as int].tag_name@, query->0));
                }
            }
            Ok(None)
        },
    }
}

/// The column of the catalog table that a tag goes to: with preview releases,
/// 4.x stable, 4.x preview, older stable, older preview; else 4.x, older.
pub open spec fn column_index(tag: Seq<char>, prerelease: bool) -> int {
    let major4 = has_prefix(tag, "4"@);
    if prerelease {
        if major4 {
            if has_suffix(tag, "stable"@) { 0 } else { 1 }
        } else {
            if has_suffix(tag, "stable"@) { 2 } else { 3 }
        }
    } else {
        if major4 { 0 } else { 1 }
    }
}

/// The tags of column `col`, in catalog order.
pub open spec fn column(releases: Seq<Release>, prerelease: bool, col: int) -> Seq<Seq<char>>
    decreases releases.len(),
{
    if releases.len() == 0 {
        Seq::empty()
    } else {
        let pre = column(releases.drop_last(), prerelease, col);
        if column_index(releases.last().tag_name@, prerelease) == col {
            pre.push(releases.last().tag_name@)
        } else {
            pre
        }
    }
}

/// The tags of one column of the catalog table.
fn column_of(releases: &Vec<Release>, prerelease: bool, col: usize) -> (r: Vec<String>)
    ensures
        views(r@) == column(releases@, prerelease, col as int),
{
    let mut tags: Vec<String> = Vec::new();
    let mut i: usize = 0;
    while i < releases.len()
        invariant
            i <= releases.len(),
            views(tags@) == column(releases@.subrange(0, i as int), prerelease, col as int),
        decreases releases.len() - i,
    {
        let tag = releases[i].tag_name.as_str();
        let major4 = starts_with(tag, "4");
        let stable = ends_with(tag, "stable");
        let index: usize = if prerelease {
            if major4 {
                if stable { 0 } else { 1 }
            } else {
                if stable { 2 } else { 3 }
            }
        } else {
            if major4 { 0 } else { 1 }
        };
        proof {
            let next = releases@.subrange(0, i + 1);
            assert(next.drop_last() =~= releases@.subrange(0, i as int));
            assert(next.last() == releases@[i as int]);
        }
        if index == col {
            tags.push(releases[i].tag_name.clone());
        }
        proof {
            let next = releases@.subrange(0, i + 1);
            assert(views(tags@) =~= column(next, prerelease, col as int));
        }
        i = i + 1;
    }
    assert(releases@.subrange(0, releases.len() as int) =~= releases@);
    tags
}

/// The columns of the catalog table: four with preview releases (4.x stable, 4.x
/// preview, older stable, older preview), else two (4.x, older); each in catalog order.
pub fn avail_columns(releases: &Vec<Release>, prerelease: bool) -> (r: Vec<Vec<String>>)
    ensures
        r@.len() == if prerelease { 4int } else { 2int },
        forall|c: int| 0 <= c < r@.len() ==> views(#[trigger] r@[c]@) == column(releases@, prerelease, c),
{
    let mut columns: Vec<Vec<String>> = Vec::new();
    let count: usize = if prerelease { 4 } else { 2 };
    let mut c: usize = 0;
    while c < count
        invariant
            c <= count,
            count == if prerelease { 4int } else { 2int },
            columns@.len() == c,
            forall|j: int| 0 <= j < c ==> views(#[trigger] columns@[j]@) == column(releases@, prerelease, j),
        decreases count - c,
    {
        let col = column_of(releases, prerelease, c);
        columns.push(col);
        c = c + 1;
    }
    columns
}

} // verus!
