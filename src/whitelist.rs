use vstd::prelude::*;
use crate::separator::{last_separator, last_separator_position, trim_end, trimmed_len};
use crate::text::{chars_of, last_index, last_position, prefix_of, suffix_from, tail_equals};

verus! {

/// The extensions of the file types that may be written.
pub open spec fn whitelisted(ext: Seq<char>) -> bool {
    ext == "txt"@ || ext == "dat"@ || ext == "json"@ || ext == "xml"@ || ext == "csv"@
        || ext == "jpg"@ || ext == "jpeg"@ || ext == "png"@ || ext == "vtf"@ || ext == "vmt"@
        || ext == "mp3"@ || ext == "wav"@ || ext == "ogg"@
}

/// The last component of a path: once trailing separators and trailing `.`
/// components are set aside, what follows the last separator.
pub open spec fn file_name_of(p: Seq<char>) -> Seq<char> {
    let t = trim_end(p);
    t.subrange(last_separator(t) + 1, t.len() as int)
}

/// The extension of a path's last component: what follows its last `.`, where
/// that dot is not the component's first character. A component `..` has none.
pub open spec fn extension_of(p: Seq<char>) -> Option<Seq<char>> {
    let f = file_name_of(p);
    let d = last_index(f, '.');
    if f == ".."@ || d <= 0 {
        None
    } else {
        Some(f.subrange(d + 1, f.len() as int))
    }
}

/// Whether the path names a file of a permitted type.
pub open spec fn permitted(p: Seq<char>) -> bool {
    match extension_of(p) {
        Some(e) => whitelisted(e),
        None => false,
    }
}

fn is_whitelisted(v: &Vec<char>, start: usize) -> (r: bool)
    requires
        start <= v.len(),
    ensures
        r == whitelisted(v@.subrange(start as int, v.len() as int)),
{
    tail_equals(v, start, &chars_of("txt")) || tail_equals(v, start, &chars_of("dat"))
        || tail_equals(v, start, &chars_of("json")) || tail_equals(v, start, &chars_of("xml"))
        || tail_equals(v, start, &chars_of("csv")) || tail_equals(v, start, &chars_of("jpg"))
        || tail_equals(v, start, &chars_of("jpeg")) || tail_equals(v, start, &chars_of("png"))
        || tail_equals(v, start, &chars_of("vtf")) || tail_equals(v, start, &chars_of("vmt"))
        || tail_equals(v, start, &chars_of("mp3")) || tail_equals(v, start, &chars_of("wav"))
        || tail_equals(v, start, &chars_of("ogg"))
}

/// Whether the path's extension is one of the permitted file types.
pub fn check(path: &str) -> (r: bool)
    ensures
        r == permitted(path@),
{
    let full = chars_of(path);
    let p = prefix_of(&full, trimmed_len(&full));
    let name_start: usize = match last_separator_position(&p) {
        Some(i) => i + 1,
        None => 0,
    };
    let f = suffix_from(&p, name_start);
    assert(f@ == file_name_of(path@));
    if tail_equals(&f, 0, &chars_of("..")) {
        assert(f@.subrange(0, f@.len() as int) =~= f@);
        return false;
    }
    assert(f@.subrange(0, f@.len() as int) =~= f@);
    match last_position(&f, '.') {
        Some(d) => {
            if d == 0 {
                false
            } else {
                is_whitelisted(&f, d + 1)
            }
        },
        None => false,
    }
}

} // verus!
