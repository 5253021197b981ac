//! The local registry: decoding installed directories, resolving a query against
//! them, and choosing an executable inside an installation.
use vstd::prelude::*;
use std::cmp::Ordering;
use crate::text::{has_prefix, has_suffix, has_infix, starts_with, ends_with, contains};
use crate::version::{self, Version, VersionView, decode, compare_tags};

verus! {

/// The views of a sequence of strings.
pub open spec fn views(s: Seq<String>) -> Seq<Seq<char>> {
    s.map_values(|d: String| d@)
}

/// The view of an optional string.
pub open spec fn opt_text(s: Option<String>) -> Option<Seq<char>> {
    match s {
        Some(t) => Some(t@),
        None => None,
    }
}

/// The view of an optional version.
pub open spec fn opt_version(v: Option<Version>) -> Option<VersionView> {
    match v {
        Some(x) => Some(x@),
        None => None,
    }
}

/// A tag that denotes a stable build.
pub open spec fn is_stable(tag: Seq<char>) -> bool {
    has_suffix(tag, "stable"@)
}

/// `v` passes the variant filter and the tag-prefix filter, each where given.
pub open spec fn is_candidate(v: VersionView, keyword: Option<Seq<char>>, mono: Option<bool>) -> bool {
    &&& match mono {
        Some(m) => v.mono == m,
        None => true,
    }
    &&& match keyword {
        Some(k) => has_prefix(v.tag, k),
        None => true,
    }
}

/// Whether candidate `cand` takes the place of the held candidate `held`: never a
/// non-stable tag over a stable one; otherwise a greater tag, or on an equal tag
/// the mono build over the standard one.
pub open spec fn replaces(held: VersionView, cand: VersionView) -> bool {
    &&& !(is_stable(held.tag) && !is_stable(cand.tag))
    &&& (compare_tags(cand.tag, held.tag) == Ordering::Greater || (compare_tags(cand.tag, held.tag)
        == Ordering::Equal && !held.mono && cand.mono))
}

/// The directory name `d` decodes to a candidate.
pub open spec fn candidate_of(d: Seq<char>, keyword: Option<Seq<char>>, mono: Option<bool>) -> bool {
    decode(d) matches Some(v) && is_candidate(v, keyword, mono)
}

/// The installed version that a query resolves to, scanning the directory names
/// in order and keeping the best candidate seen so far.
pub open spec fn resolve_local(dirs: Seq<Seq<char>>, keyword: Option<Seq<char>>, mono: Option<bool>) -> Option<VersionView>
    decreases dirs.len(),
{
    if dirs.len() == 0 {
        None
    } else {
        let held = resolve_local(dirs.drop_last(), keyword, mono);
        if candidate_of(dirs.last(), keyword, mono) {
            let v = decode(dirs.last())->0;
            match held {
                None => Some(v),
                Some(h) => if replaces(h, v) { Some(v) } else { held },
            }
        } else {
            held
        }
    }
}

/// Resolution finds nothing exactly when no directory name decodes to a candidate,
/// and what it finds is a decoded candidate.
pub proof fn lemma_resolve_local_found(dirs: Seq<Seq<char>>, keyword: Option<Seq<char>>, mono: Option<bool>)
    ensures
        resolve_local(dirs, keyword, mono) is None <==> forall|i: int|
            0 <= i < dirs.len() ==> !candidate_of(#[trigger] dirs[i], keyword, mono),
        resolve_local(dirs, keyword, mono) matches Some(v) ==> exists|i: int|
            0 <= i < dirs.len() && candidate_of(#[trigger] dirs[i], keyword, mono) && decode(dirs[i]) == Some(v),
    decreases dirs.len(),
{
    if dirs.len() > 0 {
        let pre = dirs.drop_last();
        lemma_resolve_local_found(pre, keyword, mono);
        assert forall|i: int| 0 <= i < pre.len() implies pre[i] == dirs[i] by {}
        if resolve_local(dirs, keyword, mono) is None {
            assert forall|i: int| 0 <= i < dirs.len() implies !candidate_of(#[trigger] dirs[i], keyword, mono) by {
                if i < pre.len() {
                    assert(pre[i] == dirs[i]);
                }
            }
        }
        if let Some(v) = resolve_local(dirs, keyword, mono) {
            if candidate_of(dirs.last(), keyword, mono) && v == decode(dirs.last())->0 {
                assert(candidate_of(dirs[dirs.len() - 1], keyword, mono));
            } else {
                let i = choose|i: int|
                    0 <= i < pre.len() && candidate_of(#[trigger] pre[i], keyword, mono) && decode(pre[i]) == Some(v);
                assert(candidate_of(dirs[i], keyword, mono));
            }
        }
    }
}

/// Decodes every directory name, skipping those that do not decode.
pub fn get_installed_versions(dirs: Vec<String>) -> (r: Vec<Version>)
    ensures
        r@.map_values(|v: Version| v@) == views(dirs@).filter_map(|d: Seq<char>| decode(d)),
{
    let mut vers: Vec<Version> = Vec::new();
    let mut i: usize = 0;
    while i < dirs.len()
        invariant
            i <= dirs.len(),
            vers@.map_values(|v: Version| v@) == views(dirs@.subrange(0, i as int)).filter_map(|d: Seq<char>| decode(d)),
        decreases dirs.len() - i,
    {
        let d = dirs[i].clone();
        let parsed = version::parse(d);
        proof {
            let pre = views(dirs@.subrange(0, i as int));
            let next = views(dirs@.subrange(0, i + 1));
            assert(next.drop_last() =~= pre);
            assert(next.last() == dirs@[i as int]@);
        }
        if let Some(ver) = parsed {
            vers.push(ver);
        }
        proof {
            let next = views(dirs@.subrange(0, i + 1));
            assert(vers@.map_values(|v: Version| v@) =~= next.filter_map(|d: Seq<char>| decode(d)));
        }
        i = i + 1;
    }
    assert(dirs@.subrange(0, dirs.len() as int) =~= dirs@);
    vers
}

/// The short names of the installed versions, in the order of their directories;
/// directories whose names do not decode are left out.
pub fn installed_short_names(dirs: Vec<String>) -> (r: Vec<String>)
    ensures
        views(r@) == views(dirs@).filter_map(|d: Seq<char>| decode(d)).map_values(|v: VersionView| version::short_name_of(v)),
{
    let vers = get_installed_versions(dirs);
    let ghost decoded = vers@.map_values(|v: Version| v@);
    let mut names: Vec<String> = Vec::new();
    let mut i: usize = 0;
    while i < vers.len()
        invariant
            i <= vers.len(),
            decoded == vers@.map_values(|v: Version| v@),
            views(names@) == decoded.subrange(0, i as int).map_values(|v: VersionView| version::short_name_of(v)),
        decreases vers.len() - i,
    {
        let name = vers[i].short_name();
        assert(decoded[i as int] == vers@[i as int]@);
        let ghost before = names@;
        names.push(name);
        proof {
            assert(views(names@) =~= views(before).push(name@));
            assert(decoded.subrange(0, i + 1).map_values(|v: VersionView| version::short_name_of(v)) =~= decoded.subrange(
                0,
                i as int,
            ).map_values(|v: VersionView| version::short_name_of(v)).push(version::short_name_of(decoded[i as int])));
            assert(views(names@) =~= decoded.subrange(0, i + 1).map_values(|v: VersionView| version::short_name_of(v)));
        }
        i = i + 1;
    }
    assert(decoded.subrange(0, vers.len() as int) =~= decoded);
    names
}

/// Resolves a query against the installed directory names: the variant filter and
/// the tag-prefix filter apply where given, and among the candidates the best one
/// by the scan-order rules of `resolve_local` is returned.
pub fn search_installed_version(keyword: &Option<String>, mono: Option<bool>, dirs: Vec<String>) -> (r: Option<Version>)
    ensures
        opt_version(r) == resolve_local(views(dirs@), opt_text(*keyword), mono),
        r is None <==> forall|i: int| 0 <= i < dirs.len() ==> !candidate_of(#[trigger] dirs@[i]@, opt_text(*keyword), mono),
{
    let ghost kw = opt_text(*keyword);
    let mut result: Option<Version> = None;
    let mut i: usize = 0;
    while i < dirs.len()
        invariant
            i <= dirs.len(),
            kw == opt_text(*keyword),
            opt_version(result) == resolve_local(views(dirs@.subrange(0, i as int)), kw, mono),
        decreases dirs.len() - i,
    {
        let ghost pre = views(dirs@.subrange(0, i as int));
        let ghost next = views(dirs@.subrange(0, i + 1));
        proof {
            assert(next.drop_last() =~= pre);
            assert(next.last() == dirs@[i as int]@);
        }
        let d = dirs[i].clone();
        let parsed = version::parse(d);
        if let Some(ver) = parsed {
            let fits_keyword = match keyword {
                Some(k) => starts_with(ver.tag().as_str(), k.as_str()),
                None => true,
            };
            let fits_mono = match mono {
                Some(m) => m == ver.mono(),
                None => true,
            };
            if fits_keyword && fits_mono {
                match result {
                    None => {
                        result = Some(ver);
                    },
                    Some(cur) => {
                        let skip = ends_with(cur.tag().as_str(), "stable") && !ends_with(ver.tag().as_str(), "stable");
                        if skip {
                            result = Some(cur);
                        } else {
                            match version::compare(ver.tag(), cur.tag()) {
                                Ordering::Equal => {
                                    if !cur.mono() && ver.mono() {
                                        result = Some(ver);
                                    } else {
                                        result = Some(cur);
                                    }
                                },
                                Ordering::Greater => {
                                    result = Some(ver);
                                },
                                Ordering::Less => {
                                    result = Some(cur);
                                },
                            }
                        }
                    },
                }
            }
        }
        i = i + 1;
    }
    proof {
        assert(dirs@.subrange(0, dirs.len() as int) =~= dirs@);
        lemma_resolve_local_found(views(dirs@), kw, mono);
        assert forall|i: int| 0 <= i < dirs.len() implies views(dirs@)[i] == #[trigger] dirs@[i]@ by {}
    }
    result
}

/// A file name of a Windows executable.
pub open spec fn is_exe(f: Seq<char>) -> bool {
    has_suffix(f, ".exe"@)
}

/// An executable of the kind asked for: a console build exactly when `console` holds.
pub open spec fn preferred(f: Seq<char>, console: bool) -> bool {
    is_exe(f) && has_infix(f, "console"@) == console
}

/// What `get_executable` picks from `files`: the first executable of the kind asked
/// for, else the first executable, else nothing.
pub open spec fn executable_choice(files: Seq<Seq<char>>, console: bool, r: Option<Seq<char>>) -> bool {
    match r {
        None => forall|j: int| 0 <= j < files.len() ==> !is_exe(#[trigger] files[j]),
        Some(f) => exists|k: int|
            #![trigger files[k]]
            0 <= k < files.len() && f == files[k] && is_exe(files[k]) && (forall|j: int|
                0 <= j < k ==> !preferred(#[trigger] files[j], console)) && (preferred(files[k], console)
                || ((forall|j: int| 0 <= j < files.len() ==> !preferred(#[trigger] files[j], console))
                && forall|j: int| 0 <= j < k ==> !is_exe(#[trigger] files[j]))),
    }
}

/// Picks the executable to launch among the files of an installation: a console
/// build when `console` is asked for, else a non-console one, falling back to the
/// first executable when none of the preferred kind is there.
pub fn get_executable(files: Vec<String>, console: bool) -> (r: Option<String>)
    ensures
        executable_choice(views(files@), console, opt_text(r)),
{
    let ghost fs = views(files@);
    let mut result: Option<String> = None;
    let ghost mut idx: int = 0;
    let mut i: usize = 0;
    while i < files.len()
        invariant
            i <= files.len(),
            fs == views(files@),
            fs.len() == files.len(),
            match result {
                None => forall|j: int| 0 <= j < i ==> !is_exe(#[trigger] fs[j]),
                Some(f) => {
                    &&& 0 <= idx < i
                    &&& f@ == fs[idx]
                    &&& is_exe(fs[idx])
                    &&& forall|j: int| 0 <= j < idx ==> !preferred(#[trigger] fs[j], console)
                    &&& (preferred(fs[idx], console) || ((forall|j: int| 0 <= j < i ==> !preferred(#[trigger] fs[j], console))
                        && forall|j: int| 0 <= j < idx ==> !is_exe(#[trigger] fs[j])))
                },
            },
        decreases files.len() - i,
    {
        let file = files[i].clone();
        assert(file@ == fs[i as int]);
        if ends_with(file.as_str(), ".exe") {
            let file_console = contains(file.as_str(), "console");
            match result {
                None => {
                    result = Some(file);
                    proof {
                        idx = i as int;
                    }
                },
                Some(held) => {
                    let held_console = contains(held.as_str(), "console");
                    if held_console != console && file_console == console {
                        result = Some(file);
                        proof {
                            idx = i as int;
                        }
                    } else {
                        result = Some(held);
                    }
                },
            }
        }
        i = i + 1;
    }
    result
}

} // verus!
