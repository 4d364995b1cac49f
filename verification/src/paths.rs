//! Path text rules: mount roots of target roots, temporary and backup paths,
//! home-relative source paths, and the targets of links.

use crate::text::{chars_of, join2, join3, matches_at, owned, starts_with, str_eq, string_of, trim, trim_str};
use vstd::prelude::*;

verus! {

/// `s` with leading `/` characters removed.
pub open spec fn skip_slashes(s: Seq<char>) -> Seq<char>
    decreases s.len(),
{
    if s.len() > 0 && s[0] == '/' {
        skip_slashes(s.skip(1))
    } else {
        s
    }
}

/// The leading run of `s` up to (not including) the first `/`.
pub open spec fn leading_segment(s: Seq<char>) -> Seq<char>
    decreases s.len(),
{
    if s.len() == 0 || s[0] == '/' {
        Seq::empty()
    } else {
        seq![s[0]] + leading_segment(s.skip(1))
    }
}

/// The first non-empty `/`-separated segment of `s`.
pub open spec fn first_segment(s: Seq<char>) -> Option<Seq<char>> {
    if skip_slashes(s).len() == 0 {
        None
    } else {
        Some(leading_segment(skip_slashes(s)))
    }
}

pub open spec fn volumes_prefix() -> Seq<char> {
    "/Volumes/"@
}

/// The volume mount point named by a target root under `/Volumes`, if any.
pub open spec fn volume_root(target_root: Seq<char>) -> Option<Seq<char>> {
    let t = trim(target_root);
    if t.len() == 0 || t == "/Volumes"@ || t == "/Volumes/"@ {
        None
    } else if matches_at(t, 0, volumes_prefix()) {
        match first_segment(t.skip(volumes_prefix().len() as int)) {
            Some(name) => Some(volumes_prefix() + name),
            None => None,
        }
    } else {
        None
    }
}

proof fn lemma_skip_slashes_at(s: Seq<char>, i: int)
    requires
        0 <= i <= s.len(),
        forall|k: int| 0 <= k < i ==> s[k] == '/',
    ensures
        skip_slashes(s) == skip_slashes(s.skip(i)),
    decreases i,
{
    if i > 0 {
        assert(s.skip(1).skip(i - 1) =~= s.skip(i));
        lemma_skip_slashes_at(s.skip(1), i - 1);
    } else {
        assert(s.skip(0) =~= s);
    }
}

proof fn lemma_leading_segment(s: Seq<char>, j: int)
    requires
        0 <= j <= s.len(),
        forall|k: int| 0 <= k < j ==> s[k] != '/',
        j == s.len() || s[j] == '/',
    ensures
        leading_segment(s) == s.take(j),
    decreases j,
{
    if j > 0 {
        lemma_leading_segment(s.skip(1), j - 1);
        assert(seq![s[0]] + s.skip(1).take(j - 1) =~= s.take(j));
    } else {
        assert(s.take(0) =~= Seq::<char>::empty());
    }
}

/// The first non-empty segment of `v[from..]`.
fn first_segment_of(v: &Vec<char>, from: usize) -> (r: Option<String>)
    requires
        from <= v.len(),
    ensures
        match r {
            Some(s) => first_segment(v@.skip(from as int)) == Some(s@),
            None => first_segment(v@.skip(from as int)) is None,
        },
{
    let ghost rest = v@.skip(from as int);
    let mut i = from;
    while i < v.len() && v[i] == '/'
        invariant
            from <= i <= v.len(),
            forall|k: int| from <= k < i ==> v@[k] == '/',
        decreases v.len() - i,
    {
        i = i + 1;
    }
    proof {
        lemma_skip_slashes_at(rest, i - from);
        assert(rest.skip(i - from) =~= v@.skip(i as int));
        if i < v.len() {
            assert(skip_slashes(v@.skip(i as int)) == v@.skip(i as int));
        } else {
            assert(v@.skip(i as int).len() == 0);
        }
    }
    if i == v.len() {
        return None;
    }
    let mut j = i;
    while j < v.len() && v[j] != '/'
        invariant
            i <= j <= v.len(),
            forall|k: int| i <= k < j ==> v@[k] != '/',
        decreases v.len() - j,
    {
        j = j + 1;
    }
    proof {
        let t = v@.skip(i as int);
        lemma_leading_segment(t, j - i);
        assert(t.take(j - i) =~= v@.subrange(i as int, j as int));
    }
    Some(string_of(v, i, j))
}

/// The mount point `/Volumes/<name>` of a target root on an external volume;
/// `None` for an empty root, `/Volumes` itself, or a root elsewhere.
pub fn volume_mount_root(target_root: &str) -> (r: Option<String>)
    ensures
        match r {
            Some(s) => volume_root(target_root@) == Some(s@),
            None => volume_root(target_root@) is None,
        },
{
    let t = trim_str(target_root);
    if t.unicode_len() == 0 || str_eq(t, "/Volumes") || str_eq(t, "/Volumes/") {
        return None;
    }
    if !starts_with(t, "/Volumes/") {
        return None;
    }
    let v = chars_of(t);
    let p = chars_of("/Volumes/");
    proof {
        assert(p@ == volumes_prefix());
    }
    match first_segment_of(&v, p.len()) {
        Some(name) => Some(join2("/Volumes/", &name)),
        None => None,
    }
}

/// Temporary copy path of a migration: `<target>.tmp.<relocation_id>`.
pub open spec fn temp_path_spec(target_path: Seq<char>, relocation_id: Seq<char>) -> Seq<char> {
    target_path + ".tmp."@ + relocation_id
}

pub fn temp_path_for(target_path: &str, relocation_id: &str) -> (r: String)
    ensures
        r@ == temp_path_spec(target_path@, relocation_id@),
{
    join3(target_path, ".tmp.", relocation_id)
}

/// Backup path of a migrated source: `<source>.bak`.
pub open spec fn backup_path_spec(source_path: Seq<char>) -> Seq<char> {
    source_path + ".bak"@
}

pub fn backup_path_for(source_path: &str) -> (r: String)
    ensures
        r@ == backup_path_spec(source_path@),
{
    join2(source_path, ".bak")
}

/// A `~/`-relative path expanded against the home directory, when known.
pub open spec fn expand_tilde_spec(path: Seq<char>, home: Option<Seq<char>>) -> Seq<char> {
    match home {
        Some(h) => if matches_at(path, 0, "~/"@) {
            h + "/"@ + path.skip(2)
        } else {
            path
        },
        None => path,
    }
}

pub fn expand_tilde(path: &str, home: Option<&str>) -> (r: String)
    ensures
        r@ == expand_tilde_spec(
            path@,
            match home {
                Some(h) => Some(h@),
                None => None,
            },
        ),
{
    match home {
        Some(h) => {
            if starts_with(path, "~/") {
                let v = chars_of(path);
                let tilde = chars_of("~/");
                proof {
                    reveal_strlit("~/");
                    assert(tilde@.len() == 2);
                }
                let rest = string_of(&v, 2, v.len());
                assert(rest@ =~= path@.skip(2));
                join3(h, "/", &rest)
            } else {
                owned(path)
            }
        },
        None => owned(path),
    }
}

/// The parent of a path, as `std::path::Path::parent` finds it.
pub uninterp spec fn parent_of(path: Seq<char>) -> Option<Seq<char>>;

/// `std::path::Path::parent`: the path without its final component; none for
/// a path that ends in a root or is empty.
#[verifier::external_body]
fn path_parent(path: &str) -> (r: Option<String>)
    ensures
        match r {
            Some(p) => parent_of(path@) == Some(p@),
            None => parent_of(path@) is None,
        },
{
    match std::path::Path::new(path).parent() {
        Some(parent) => Some(parent.to_string_lossy().to_string()),
        None => None,
    }
}

/// `base` extended by `rest`, as `std::path::Path::join` builds it.
pub uninterp spec fn joined_path(base: Seq<char>, rest: Seq<char>) -> Seq<char>;

/// `std::path::Path::join`: `rest` appended to `base` as a further component
/// (an absolute `rest` would replace `base`).
#[verifier::external_body]
pub(crate) fn path_join(base: &str, rest: &str) -> (r: String)
    ensures
        r@ == joined_path(base@, rest@),
{
    std::path::Path::new(base).join(rest).to_string_lossy().to_string()
}

/// The target of a link at `source_path` that reads `raw_target`: an
/// absolute target as it is (on Unix, a path is absolute when it starts at
/// the root `/`), a relative one taken from the link's parent directory.
pub open spec fn resolved_link_target(source_path: Seq<char>, raw_target: Seq<char>) -> Seq<char> {
    if matches_at(raw_target, 0, "/"@) {
        raw_target
    } else {
        match parent_of(source_path) {
            Some(parent) => joined_path(parent, raw_target),
            None => raw_target,
        }
    }
}

/// Where the link at `source_path` that reads `raw_target` points.
pub fn resolve_link_target(source_path: &str, raw_target: &str) -> (r: String)
    ensures
        r@ == resolved_link_target(source_path@, raw_target@),
{
    if starts_with(raw_target, "/") {
        return owned(raw_target);
    }
    match path_parent(source_path) {
        Some(parent) => path_join(parent.as_str(), raw_target),
        None => owned(raw_target),
    }
}

} // verus!
