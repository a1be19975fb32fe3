use vstd::prelude::*;
use crate::separator::{path_separator, separator_at};
use crate::text::{chars_of, matches_at};
use crate::whitelist::{check, permitted};

verus! {

/// What `path_clean::clean` makes of a path: `.` components dropped, `..`
/// components folded into their parent, repeated separators merged.
pub uninterp spec fn cleaned(p: Seq<char>) -> Seq<char>;

/// Relies on path_clean::clean for the lexical cleaning of a path; the result
/// depends on the path's text alone.
#[verifier::external_body]
fn clean_path(p: &str) -> (r: String)
    ensures
        r@ == cleaned(p@),
{
    path_clean::clean(p).to_string_lossy().into_owned()
}

/// Relies on std::path::Path::is_dir: whether an existing directory stands at `p`
/// now. Nothing is known of the answer.
#[verifier::external_body]
fn existing_dir(p: &str) -> (r: bool) {
    std::path::Path::new(p).is_dir()
}

/// The directory under which every file that may be written lies.
pub open spec fn sandbox_root() -> Seq<char> {
    "garrysmod/data"@
}

/// Whether the identifier ends in a path separator.
pub open spec fn ends_with_separator(name: Seq<char>) -> bool {
    name.len() > 0 && (name.last() == '/' || name.last() == '\\')
}

/// Whether a cleaned path is the sandbox root or lies below it: its first two
/// components are `garrysmod` and `data`.
pub open spec fn within_root(p: Seq<char>) -> bool {
    &&& p.len() >= 14
    &&& p.subrange(0, 9) == "garrysmod"@
    &&& path_separator(p[9])
    &&& p.subrange(10, 14) == "data"@
    &&& (p.len() == 14 || path_separator(p[14]))
}

/// Whether a `..` component starts at position `i` of the path.
pub open spec fn parent_at(p: Seq<char>, i: int) -> bool {
    &&& 0 <= i
    &&& i + 2 <= p.len()
    &&& p[i] == '.'
    &&& p[i + 1] == '.'
    &&& (i == 0 || path_separator(p[i - 1]))
    &&& (i + 2 == p.len() || path_separator(p[i + 2]))
}

/// Whether the path climbs to a parent directory anywhere.
pub open spec fn has_parent_component(p: Seq<char>) -> bool {
    exists|i: int| parent_at(p, i)
}

/// Whether a cleaned path may be written: below the sandbox root, with no `..`
/// component, and of a permitted file type.
pub open spec fn acceptable(p: Seq<char>) -> bool {
    within_root(p) && !has_parent_component(p) && permitted(p)
}

/// The path that an identifier names: the identifier under the sandbox root,
/// cleaned.
pub open spec fn candidate_of(name: Seq<char>) -> Seq<char> {
    cleaned(sandbox_root() + "/"@ + name)
}

/// The path an identifier resolves to by the lexical rules, if they accept it:
/// no trailing separator, and a cleaned path that is acceptable.
pub open spec fn resolved(name: Seq<char>) -> Option<Seq<char>> {
    if ends_with_separator(name) {
        None
    } else if acceptable(candidate_of(name)) {
        Some(candidate_of(name))
    } else {
        None
    }
}

fn is_within_root(v: &Vec<char>) -> (r: bool)
    ensures
        r == within_root(v@),
{
    let garrysmod = chars_of("garrysmod");
    let data = chars_of("data");
    proof {
        reveal_strlit("garrysmod");
        reveal_strlit("data");
    }
    if v.len() < 14 {
        return false;
    }
    matches_at(v, 0, &garrysmod) && separator_at(v, 9) && matches_at(v, 10, &data) && (v.len()
        == 14 || separator_at(v, 14))
}

fn climbs_to_parent(v: &Vec<char>) -> (r: bool)
    ensures
        r == has_parent_component(v@),
{
    let mut i: usize = 0;
    while v.len() - i >= 2
        invariant
            i <= v.len(),
            forall|k: int| 0 <= k < i ==> !parent_at(v@, k),
        decreases v.len() - i,
    {
        if v[i] == '.' && v[i + 1] == '.' && (i == 0 || separator_at(v, i - 1)) && (i + 2
            == v.len() || separator_at(v, i + 2)) {
            assert(parent_at(v@, i as int));
            return true;
        }
        i = i + 1;
    }
    assert forall|k: int| !parent_at(v@, k) by {
        if 0 <= k < i {
        }
    }
    false
}

/// Whether a cleaned path may be written: it lies below the sandbox root, has
/// no `..` component, and names a file of a permitted type.
pub fn accepts_cleaned(p: &str) -> (r: bool)
    ensures
        r == acceptable(p@),
{
    let v = chars_of(p);
    is_within_root(&v) && !climbs_to_parent(&v) && check(p)
}

/// Applies the lexical rules to an identifier: the path it names, or `None` when
/// it ends in a separator, or its cleaned path is not `acceptable`.
pub fn resolve_path(file_name: &str) -> (r: Option<String>)
    ensures
        match r {
            Some(p) => resolved(file_name@) == Some(p@),
            None => resolved(file_name@) is None,
        },
{
    let name = chars_of(file_name);
    if name.len() > 0 && (name[name.len() - 1] == '/' || name[name.len() - 1] == '\\') {
        return None;
    }
    let mut joined = "garrysmod/data/".to_owned();
    joined.append(file_name);
    assert(joined@ =~= sandbox_root() + "/"@ + file_name@) by {
        reveal_strlit("garrysmod/data/");
        reveal_strlit("garrysmod/data");
        reveal_strlit("/");
    }
    let p = clean_path(joined.as_str());
    if accepts_cleaned(p.as_str()) {
        Some(p)
    } else {
        None
    }
}

/// Validates an identifier: it must pass the lexical rules of `resolve_path`, and
/// no directory may stand at the path it names. Whether one does is read from the
/// file system, so only the rejections owed by the lexical rules are certain.
pub fn validate_path(file_name: &str) -> (r: Option<String>)
    ensures
        resolved(file_name@) is None ==> r is None,
        r matches Some(p) ==> resolved(file_name@) == Some(p@),
{
    match resolve_path(file_name) {
        Some(p) => {
            if existing_dir(p.as_str()) {
                None
            } else {
                Some(p)
            }
        },
        None => None,
    }
}

} // verus!
