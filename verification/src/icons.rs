//! Choosing an application's icon file inside its bundle, and the data URL
//! through which the interface shows it.

use crate::planning::{extension_of, icon_mime_from_ext, lower_ext, mime_for_ext, path_extension};
use crate::prechecks::{insert_sorted_unique, lex_lt, strictly_sorted};
use crate::profiles::{opt_view, strings_view};
use crate::text::{contains, contains_str, join2, join3, lower, matches_at, str_eq, to_lower, trim, trim_str, chars_of, string_of};
use vstd::prelude::*;

verus! {

/// `s` without leading `"` characters.
pub open spec fn strip_leading_quotes(s: Seq<char>) -> Seq<char>
    decreases s.len(),
{
    if s.len() > 0 && s[0] == '"' {
        strip_leading_quotes(s.drop_first())
    } else {
        s
    }
}

/// `s` without trailing `"` characters.
pub open spec fn strip_trailing_quotes(s: Seq<char>) -> Seq<char>
    decreases s.len(),
{
    if s.len() > 0 && s.last() == '"' {
        strip_trailing_quotes(s.drop_last())
    } else {
        s
    }
}

/// The icon name an `Info.plist` gives: trimmed, quotes stripped
/// (`str::trim_matches('"')`).
pub open spec fn icon_name_spec(icon_file: Seq<char>) -> Seq<char> {
    strip_trailing_quotes(strip_leading_quotes(trim(icon_file)))
}

proof fn lemma_strip_leading(s: Seq<char>, i: int)
    requires
        0 <= i <= s.len(),
        forall|k: int| 0 <= k < i ==> s[k] == '"',
        i == s.len() || s[i] != '"',
    ensures
        strip_leading_quotes(s) == s.skip(i),
    decreases i,
{
    if i > 0 {
        assert(s.drop_first().skip(i - 1) =~= s.skip(i));
        lemma_strip_leading(s.drop_first(), i - 1);
    } else {
        assert(s.skip(0) =~= s);
    }
}

proof fn lemma_strip_trailing(s: Seq<char>, j: int)
    requires
        0 <= j <= s.len(),
        forall|k: int| j <= k < s.len() ==> s[k] == '"',
        j == 0 || s[j - 1] != '"',
    ensures
        strip_trailing_quotes(s) == s.take(j),
    decreases s.len() - j,
{
    if j < s.len() {
        assert(s.drop_last().take(j) =~= s.take(j));
        lemma_strip_trailing(s.drop_last(), j);
    } else {
        assert(s.take(j) =~= s);
    }
}

fn icon_name(icon_file: &str) -> (r: String)
    ensures
        r@ == icon_name_spec(icon_file@),
{
    let t = trim_str(icon_file);
    let v = chars_of(t);
    let mut i: usize = 0;
    while i < v.len() && v[i] == '"'
        invariant
            i <= v@.len(),
            forall|k: int| 0 <= k < i ==> v@[k] == '"',
        decreases v@.len() - i,
    {
        i = i + 1;
    }
    let mut j: usize = v.len();
    while j > i && v[j - 1] == '"'
        invariant
            i <= j <= v@.len(),
            forall|k: int| j <= k < v@.len() ==> v@[k] == '"',
        decreases j,
    {
        j = j - 1;
    }
    proof {
        lemma_strip_leading(v@, i as int);
        let s = v@.skip(i as int);
        assert forall|k: int| j - i <= k < s.len() implies s[k] == '"' by {
            assert(s[k] == v@[i + k]);
        }
        if j > i {
            assert(s[j - i - 1] == v@[j - 1]);
        }
        lemma_strip_trailing(s, j - i);
        assert(s.take(j - i) =~= v@.subrange(i as int, j as int));
    }
    string_of(&v, i, j)
}

/// The files to try for the icon an `Info.plist` names: the name itself and,
/// unless it already ends in `.icns` (in any case), the name with `.icns`.
pub open spec fn icon_candidates_spec(icon_file: Seq<char>) -> Seq<Seq<char>> {
    let name = icon_name_spec(icon_file);
    if name.len() == 0 {
        Seq::empty()
    } else if lower(name).len() >= 5 && matches_at(lower(name), lower(name).len() - 5, ".icns"@) {
        seq![name]
    } else {
        seq![name, name + ".icns"@]
    }
}

pub fn icon_file_candidates(icon_file: &str) -> (r: Vec<String>)
    ensures
        strings_view(r@) == icon_candidates_spec(icon_file@),
{
    let name = icon_name(icon_file);
    if name.unicode_len() == 0 {
        let r: Vec<String> = Vec::new();
        assert(strings_view(r@) =~= Seq::empty());
        return r;
    }
    let lowered = to_lower(name.as_str());
    let lv = chars_of(lowered.as_str());
    let suffix = chars_of(".icns");
    proof {
        reveal_strlit(".icns");
    }
    let has_suffix = lv.len() >= 5 && crate::text::match_at(&lv, lv.len() - 5, &suffix);
    if has_suffix {
        let r = vec![name];
        assert(strings_view(r@) =~= icon_candidates_spec(icon_file@));
        r
    } else {
        let with_ext = join2(name.as_str(), ".icns");
        let r = vec![name, with_ext];
        assert(strings_view(r@) =~= icon_candidates_spec(icon_file@));
        r
    }
}

/// The stem of a path's file name, as `std::path::Path::file_stem` finds it.
pub uninterp spec fn file_stem_of(path: Seq<char>) -> Option<Seq<char>>;

/// `std::path::Path::file_stem`: the file name without its extension; a
/// non-UTF-8 stem is taken as absent.
#[verifier::external_body]
fn path_file_stem(path: &str) -> (r: Option<String>)
    ensures
        opt_view(r) == file_stem_of(path@),
{
    match std::path::Path::new(path).file_stem() {
        Some(stem) => match stem.to_str() {
            Some(s) => Some(s.to_string()),
            None => None,
        },
        None => None,
    }
}

pub open spec fn is_icns(path: Seq<char>) -> bool {
    match extension_of(path) {
        Some(e) => lower(e) == "icns"@,
        None => false,
    }
}

pub open spec fn is_app_icon(path: Seq<char>) -> bool {
    match file_stem_of(path) {
        Some(s) => contains(lower(s), "appicon"@),
        None => false,
    }
}

/// The icon file among a bundle's resources when `Info.plist` names none
/// that exists: of the `.icns` files in sorted order, the first whose stem
/// contains `appicon` (in any case), else the first.
pub fn choose_icns(paths: &Vec<String>) -> (r: Option<String>)
    ensures
        ({
            let icns = Set::new(|p: Seq<char>| strings_view(paths@).contains(p) && is_icns(p));
            match r {
                None => icns.is_empty(),
                Some(p) => icns.contains(p@) && (is_app_icon(p@) && forall|q: Seq<char>|
                    icns.contains(q) && is_app_icon(q) ==> q == p@ || lex_lt(p@, q)) || (forall|q: Seq<char>|
                    icns.contains(q) ==> !is_app_icon(q)) && forall|q: Seq<char>| icns.contains(q) ==> q == p@ || lex_lt(
                    p@,
                    q,
                ),
            }
        }),
{
    let ghost pv = strings_view(paths@);
    let ghost icns = Set::new(|p: Seq<char>| pv.contains(p) && is_icns(p));
    let mut sorted: Vec<String> = Vec::new();
    let mut i: usize = 0;
    while i < paths.len()
        invariant
            i <= paths@.len(),
            pv == strings_view(paths@),
            strictly_sorted(strings_view(sorted@)),
            strings_view(sorted@).to_set() == Set::new(|p: Seq<char>| pv.take(i as int).contains(p) && is_icns(p)),
        decreases paths@.len() - i,
    {
        let ghost x = paths@[i as int]@;
        let ghost t0 = pv.take(i as int);
        let ghost t1 = pv.take(i + 1);
        assert(t1 =~= t0.push(x));
        let ok = match path_extension(paths[i].as_str()) {
            Some(e) => {
                let l = to_lower(e.as_str());
                str_eq(l.as_str(), "icns")
            },
            None => false,
        };
        if ok {
            insert_sorted_unique(&mut sorted, paths[i].clone());
        }
        assert(strings_view(sorted@).to_set() =~= Set::new(|p: Seq<char>| t1.contains(p) && is_icns(p))) by {
            assert forall|p: Seq<char>| #[trigger] strings_view(sorted@).to_set().contains(p) == (t1.contains(p) && is_icns(
                p,
            )) by {
                if t1.contains(p) {
                    let k = choose|k: int| 0 <= k < t1.len() && t1[k] == p;
                    if k < i {
                        assert(t0[k] == p);
                    }
                }
                if t0.contains(p) {
                    let k = choose|k: int| 0 <= k < t0.len() && t0[k] == p;
                    assert(t1[k] == p);
                }
                if p == x {
                    assert(t1[i as int] == p);
                }
            }
        }
        i = i + 1;
    }
    assert(pv.take(i as int) =~= pv);
    let ghost sv = strings_view(sorted@);
    assert(sv.to_set() =~= icns);
    if sorted.len() == 0 {
        assert(icns =~= Set::empty()) by {
            assert forall|q: Seq<char>| !icns.contains(q) by {
                if icns.contains(q) {
                    assert(sv.to_set().contains(q));
                }
            }
        }
        return None;
    }
    let mut k: usize = 0;
    while k < sorted.len()
        invariant
            k <= sorted@.len(),
            sv == strings_view(sorted@),
            strictly_sorted(sv),
            sv.to_set() == icns,
            icns == Set::new(|p: Seq<char>| pv.contains(p) && is_icns(p)),
            pv == strings_view(paths@),
            forall|m: int| 0 <= m < k ==> !is_app_icon(sv[m]),
        decreases sorted@.len() - k,
    {
        let hit = match path_file_stem(sorted[k].as_str()) {
            Some(s) => {
                let l = to_lower(s.as_str());
                contains_str(l.as_str(), "appicon")
            },
            None => false,
        };
        assert(sv[k as int] == sorted@[k as int]@);
        if hit {
            let p = sorted[k].clone();
            proof {
                assert(sv.to_set().contains(p@));
                assert forall|q: Seq<char>| icns.contains(q) && is_app_icon(q) implies q == p@ || lex_lt(p@, q) by {
                    assert(sv.to_set().contains(q));
                    let m = choose|m: int| 0 <= m < sv.len() && sv[m] == q;
                    if m < k {
                    } else if m > k {
                    }
                }
            }
            return Some(p);
        }
        k = k + 1;
    }
    let p = sorted[0].clone();
    proof {
        assert(sv[0] == p@);
        assert(sv.to_set().contains(p@));
        assert forall|q: Seq<char>| icns.contains(q) implies !is_app_icon(q) && (q == p@ || lex_lt(p@, q)) by {
            assert(sv.to_set().contains(q));
            let m = choose|m: int| 0 <= m < sv.len() && sv[m] == q;
            if m > 0 {
            }
        }
    }
    Some(p)
}

/// `base64::engine::general_purpose::STANDARD` encoding of a byte sequence.
pub uninterp spec fn base64_standard(bytes: Seq<u8>) -> Seq<char>;

/// `base64::Engine::encode` with the standard alphabet and padding; its
/// output-length computation must not overflow (it panics otherwise).
#[verifier::external_body]
fn base64_encode(bytes: &[u8]) -> (r: String)
    requires
        bytes@.len() <= usize::MAX / 4 * 3,
    ensures
        r@ == base64_standard(bytes@),
{
    base64::Engine::encode(&base64::engine::general_purpose::STANDARD, bytes)
}

/// The data URL of an icon file's bytes, typed by the file's extension; none
/// for an empty file.
pub fn icon_data_url(icon_path: &str, bytes: &Vec<u8>) -> (r: Option<String>)
    requires
        bytes@.len() <= usize::MAX / 4 * 3,
    ensures
        bytes@.len() == 0 ==> r is None,
        bytes@.len() > 0 ==> (r matches Some(u) && u@ == data_url_spec(
            mime_for_ext(lower_ext(extension_of(icon_path@))),
            base64_standard(bytes@),
        )),
{
    if bytes.len() == 0 {
        return None;
    }
    let mime = icon_mime_from_ext(icon_path);
    let payload = base64_encode(bytes.as_slice());
    Some(data_url(mime.as_str(), payload.as_str()))
}

pub open spec fn data_url_spec(mime: Seq<char>, payload: Seq<char>) -> Seq<char> {
    "data:"@ + mime + ";base64,"@ + payload
}

/// A base64 data URL of type `mime` with the encoded `payload`.
pub fn data_url(mime: &str, payload: &str) -> (r: String)
    ensures
        r@ == data_url_spec(mime@, payload@),
{
    let head = join3("data:", mime, ";base64,");
    join2(head.as_str(), payload)
}

} // verus!
