//! The version entity, its directory-name codec and the tag comparator.
use vstd::prelude::*;
use std::cmp::Ordering;
use vstd::string::StringExecFns;
use crate::text::{find_from, lex_cmp, lemma_find_from_bounds, compare_text, find_char};

verus! {

/// What a `Version` denotes: a release tag and whether it is the mono (extended-runtime) build.
pub struct VersionView {
    pub tag: Seq<char>,
    pub mono: bool,
}

/// An engine version: a release tag together with the build variant.
#[derive(Debug)]
pub struct Version {
    tag: String,
    mono: bool,
}

impl View for Version {
    type V = VersionView;

    closed spec fn view(&self) -> VersionView {
        VersionView { tag: self.tag@, mono: self.mono }
    }
}

impl PartialEq for Version {
    fn eq(&self, other: &Version) -> (r: bool) {
        self.mono == other.mono && self.tag == other.tag
    }
}

impl vstd::std_specs::cmp::PartialEqSpecImpl for Version {
    open spec fn obeys_eq_spec() -> bool {
        true
    }

    open spec fn eq_spec(&self, other: &Version) -> bool {
        self@ == other@
    }
}

/// Characters that separate the parts of an installation directory name.
pub open spec fn is_sep(c: char) -> bool {
    c == ' ' || c == '_'
}

/// Index of the first separator in `s` at or after `start`, or `s.len()` if none.
pub open spec fn find_sep(s: Seq<char>, start: int) -> int
    decreases s.len() - start,
{
    if start >= s.len() {
        s.len() as int
    } else if is_sep(s[start]) {
        start
    } else {
        find_sep(s, start + 1)
    }
}

/// The version that an installation directory name denotes: the name's second
/// separator-delimited part is the tag, and a third part marks the mono build.
pub open spec fn decode(name: Seq<char>) -> Option<VersionView> {
    let i = find_sep(name, 0);
    if i >= name.len() {
        None
    } else {
        let j = find_sep(name, i + 1);
        Some(VersionView { tag: name.subrange(i + 1, j), mono: j < name.len() })
    }
}

/// The installation directory name of a version.
pub open spec fn encode(v: VersionView) -> Seq<char> {
    "Godot_"@ + v.tag + if v.mono { "_mono"@ } else { Seq::empty() }
}

/// Tag followed by " mono" for the mono build.
pub open spec fn short_name_of(v: VersionView) -> Seq<char> {
    v.tag + if v.mono { " mono"@ } else { Seq::empty() }
}

/// A tag holds no separator character.
pub open spec fn plain_tag(tag: Seq<char>) -> bool {
    forall|k: int| 0 <= k < tag.len() ==> !is_sep(#[trigger] tag[k])
}

/// Start index of the `k`-th dot-separated segment of `s`, if `s` has that many.
pub open spec fn seg_start(s: Seq<char>, k: nat) -> Option<int>
    decreases k,
{
    if k == 0 {
        Some(0)
    } else {
        match seg_start(s, (k - 1) as nat) {
            Some(st) => {
                let d = find_from(s, '.', st);
                if d < s.len() { Some(d + 1) } else { None }
            },
            None => None,
        }
    }
}

/// The `k`-th dot-separated segment of a tag, or "0" where the tag has fewer segments.
pub open spec fn segment(s: Seq<char>, k: nat) -> Seq<char> {
    match seg_start(s, k) {
        Some(st) => s.subrange(st, find_from(s, '.', st)),
        None => seq!['0'],
    }
}

/// Order of two tags: their first three segments compared as strings, major first.
pub open spec fn compare_tags(a: Seq<char>, b: Seq<char>) -> Ordering {
    let c0 = lex_cmp(segment(a, 0), segment(b, 0));
    let c1 = lex_cmp(segment(a, 1), segment(b, 1));
    if c0 != Ordering::Equal {
        c0
    } else if c1 != Ordering::Equal {
        c1
    } else {
        lex_cmp(segment(a, 2), segment(b, 2))
    }
}

proof fn lemma_seg_start_none(s: Seq<char>, m: nat, k: nat)
    requires
        m <= k,
        seg_start(s, m) is None,
    ensures
        seg_start(s, k) is None,
    decreases k - m,
{
    if m < k {
        lemma_seg_start_none(s, m + 1, k);
    }
}

proof fn lemma_find_sep_bounds(s: Seq<char>, start: int)
    requires
        0 <= start <= s.len(),
    ensures
        start <= find_sep(s, start) <= s.len(),
        find_sep(s, start) < s.len() ==> is_sep(s[find_sep(s, start)]),
        forall|k: int| start <= k < find_sep(s, start) ==> !is_sep(s[k]),
    decreases s.len() - start,
{
    if start < s.len() && !is_sep(s[start]) {
        lemma_find_sep_bounds(s, start + 1);
    }
}

proof fn lemma_find_sep_at(s: Seq<char>, start: int, j: int)
    requires
        0 <= start <= j <= s.len(),
        j < s.len() ==> is_sep(s[j]),
        forall|k: int| start <= k < j ==> !is_sep(s[k]),
    ensures
        find_sep(s, start) == j,
    decreases j - start,
{
    if start < j {
        lemma_find_sep_at(s, start + 1, j);
    }
}

/// Decoding the directory name of a version gives that version back, for
/// every tag without separator characters and both variants.
pub proof fn lemma_decode_encode(v: VersionView)
    requires
        plain_tag(v.tag),
    ensures
        decode(encode(v)) == Some(v),
{
    reveal_strlit("Godot_");
    reveal_strlit("_mono");
    let name = encode(v);
    let n = v.tag.len() as int;
    assert(name[5] == '_');
    assert forall|k: int| 0 <= k < 5 implies !is_sep(name[k]) by {}
    lemma_find_sep_at(name, 0, 5);
    assert forall|k: int| 6 <= k < 6 + n implies !is_sep(name[k]) by {
        assert(name[k] == v.tag[k - 6]);
    }
    if v.mono {
        assert(name[6 + n] == '_');
    } else {
        assert(name.len() == 6 + n);
    }
    lemma_find_sep_at(name, 6, 6 + n);
    assert(name.subrange(6, 6 + n) =~= v.tag);
}

/// Tag comparison is antisymmetric: `a` is below `b` exactly when `b` is above `a`,
/// and equal exactly when `b` is equal to `a`.
pub proof fn lemma_compare_antisymmetric(a: Seq<char>, b: Seq<char>)
    ensures
        compare_tags(a, b) == Ordering::Less <==> compare_tags(b, a) == Ordering::Greater,
        compare_tags(a, b) == Ordering::Equal <==> compare_tags(b, a) == Ordering::Equal,
{
    crate::text::lemma_lex_cmp_antisymmetric(segment(a, 0), segment(b, 0));
    crate::text::lemma_lex_cmp_antisymmetric(segment(a, 1), segment(b, 1));
    crate::text::lemma_lex_cmp_antisymmetric(segment(a, 2), segment(b, 2));
}

/// Tag comparison is transitive: equality chains, and a chain of "below or equal"
/// steps with at least one strict step is strict.
pub proof fn lemma_compare_transitive(a: Seq<char>, b: Seq<char>, c: Seq<char>)
    ensures
        compare_tags(a, b) == Ordering::Equal && compare_tags(b, c) == Ordering::Equal
            ==> compare_tags(a, c) == Ordering::Equal,
        compare_tags(a, b) == Ordering::Less && compare_tags(b, c) != Ordering::Greater
            ==> compare_tags(a, c) == Ordering::Less,
        compare_tags(a, b) != Ordering::Greater && compare_tags(b, c) == Ordering::Less
            ==> compare_tags(a, c) == Ordering::Less,
{
    lemma_segment_cmp(a, b, c, 0);
    lemma_segment_cmp(a, b, c, 1);
    lemma_segment_cmp(a, b, c, 2);
}

proof fn lemma_segment_cmp(a: Seq<char>, b: Seq<char>, c: Seq<char>, i: nat)
    ensures
        lex_cmp(segment(a, i), segment(b, i)) == Ordering::Equal <==> segment(a, i) == segment(b, i),
        lex_cmp(segment(b, i), segment(c, i)) == Ordering::Equal <==> segment(b, i) == segment(c, i),
        lex_cmp(segment(a, i), segment(c, i)) == Ordering::Equal <==> segment(a, i) == segment(c, i),
        lex_cmp(segment(a, i), segment(b, i)) == Ordering::Less
            && lex_cmp(segment(b, i), segment(c, i)) == Ordering::Less
            ==> lex_cmp(segment(a, i), segment(c, i)) == Ordering::Less,
{
    crate::text::lemma_lex_cmp_equal(segment(a, i), segment(b, i));
    crate::text::lemma_lex_cmp_equal(segment(b, i), segment(c, i));
    crate::text::lemma_lex_cmp_equal(segment(a, i), segment(c, i));
    if lex_cmp(segment(a, i), segment(b, i)) == Ordering::Less
        && lex_cmp(segment(b, i), segment(c, i)) == Ordering::Less {
        crate::text::lemma_lex_cmp_transitive(segment(a, i), segment(b, i), segment(c, i), Ordering::Less);
    }
}


/// Builds a version from a tag and a variant.
pub fn new(tag: String, mono: bool) -> (r: Version)
    ensures
        r@ == (VersionView { tag: tag@, mono }),
{
    Version { tag, mono }
}

/// Index of the first separator in `s` at or after `start`, or the length of `s` if none.
fn find_separator(s: &str, start: usize) -> (r: usize)
    requires
        start <= s@.len(),
    ensures
        r == find_sep(s@, start as int),
{
    let n = s.unicode_len();
    let mut i = start;
    while i < n
        invariant
            n == s@.len(),
            start <= i <= n,
            find_sep(s@, start as int) == find_sep(s@, i as int),
        decreases n - i,
    {
        let c = s.get_char(i);
        if c == ' ' || c == '_' {
            return i;
        }
        i = i + 1;
    }
    i
}

/// Decodes an installation directory name; `None` for a name without a separator.
pub fn parse(name: String) -> (r: Option<Version>)
    ensures
        match r {
            None => decode(name@) is None,
            Some(v) => decode(name@) == Some(v@),
        },
{
    let s = name.as_str();
    let n = s.unicode_len();
    let i = find_separator(s, 0);
    proof {
        lemma_find_sep_bounds(s@, 0);
    }
    if i >= n {
        return None;
    }
    let j = find_separator(s, i + 1);
    proof {
        lemma_find_sep_bounds(s@, i + 1);
    }
    let tag = String::from_str(s.substring_char(i + 1, j));
    Some(Version { tag, mono: j < n })
}

/// The `k`-th dot-separated segment of `tag`, "0" where it has fewer segments.
fn segment_of(tag: &str, k: usize) -> (r: String)
    ensures
        r@ == segment(tag@, k as nat),
{
    let n = tag.unicode_len();
    let mut st: usize = 0;
    let mut i: usize = 0;
    while i < k
        invariant
            n == tag@.len(),
            i <= k,
            st <= n,
            seg_start(tag@, i as nat) == Some(st as int),
        decreases k - i,
    {
        let d = find_char(tag, '.', st);
        proof {
            lemma_find_from_bounds(tag@, '.', st as int);
        }
        if d >= n {
            proof {
                lemma_seg_start_none(tag@, (i + 1) as nat, k as nat);
            }
            proof {
                reveal_strlit("0");
            }
            let zero = String::from_str("0");
            assert(zero@ =~= seq!['0']);
            return zero;
        }
        st = d + 1;
        i = i + 1;
    }
    let d = find_char(tag, '.', st);
    proof {
        lemma_find_from_bounds(tag@, '.', st as int);
    }
    String::from_str(tag.substring_char(st, d))
}

/// Orders two tags by their first three dot-separated segments, compared as strings.
pub fn compare(tag1: String, tag2: String) -> (r: Ordering)
    ensures
        r == compare_tags(tag1@, tag2@),
{
    let a0 = segment_of(tag1.as_str(), 0);
    let b0 = segment_of(tag2.as_str(), 0);
    let c0 = compare_text(a0.as_str(), b0.as_str());
    if !matches!(c0, Ordering::Equal) {
        return c0;
    }
    let a1 = segment_of(tag1.as_str(), 1);
    let b1 = segment_of(tag2.as_str(), 1);
    let c1 = compare_text(a1.as_str(), b1.as_str());
    if !matches!(c1, Ordering::Equal) {
        return c1;
    }
    let a2 = segment_of(tag1.as_str(), 2);
    let b2 = segment_of(tag2.as_str(), 2);
    compare_text(a2.as_str(), b2.as_str())
}

impl Version {
    /// The installation directory name: "Godot_<tag>", with "_mono" for the mono build.
    pub fn dir_name(&self) -> (r: String)
        ensures
            r@ == encode(self@),
    {
        let result = String::from_str("Godot_").concat(self.tag.as_str());
        if self.mono {
            result.concat("_mono")
        } else {
            assert(result@ =~= result@ + Seq::<char>::empty());
            result
        }
    }

    /// The display name: "Godot " followed by the short name.
    pub fn version_name(&self) -> (r: String)
        ensures
            r@ == "Godot "@ + short_name_of(self@),
    {
        let short = self.short_name();
        String::from_str("Godot ").concat(short.as_str())
    }

    /// The tag, followed by " mono" for the mono build.
    pub fn short_name(&self) -> (r: String)
        ensures
            r@ == short_name_of(self@),
    {
        let result = self.tag.clone();
        if self.mono {
            result.concat(" mono")
        } else {
            assert(result@ =~= result@ + Seq::<char>::empty());
            result
        }
    }

    /// The release tag.
    pub fn tag(&self) -> (r: String)
        ensures
            r@ == self@.tag,
    {
        self.tag.clone()
    }

    /// Whether this is the mono build.
    pub fn mono(&self) -> (r: bool)
        ensures
            r == self@.mono,
    {
        self.mono
    }
}

} // verus!
