use vstd::prelude::*;

verus! {

/// Whether `c` separates path components on the platform the crate is built
/// for: `/` everywhere, and `\` as well on Windows.
pub uninterp spec fn path_separator(c: char) -> bool;

/// Relies on std::path::is_separator: whether `c` is a path separator of the
/// target platform; `/` is one on every platform.
#[verifier::external_body]
fn is_separator(c: char) -> (r: bool)
    ensures
        r == path_separator(c),
        c == '/' ==> r,
{
    std::path::is_separator(c)
}

/// Position of the last separator in `s`, or -1 when `s` holds none.
pub open spec fn last_separator(s: Seq<char>) -> int
    decreases s.len(),
{
    if s.len() == 0 {
        -1
    } else if path_separator(s.last()) {
        s.len() - 1
    } else {
        last_separator(s.drop_last())
    }
}

/// The last separator lies inside the sequence.
pub proof fn lemma_last_separator_bounds(s: Seq<char>)
    ensures
        -1 <= last_separator(s) < s.len(),
    decreases s.len(),
{
    if s.len() > 0 && !path_separator(s.last()) {
        lemma_last_separator_bounds(s.drop_last());
    }
}

/// Whether the path ends in a separator, or in a `.` component that follows a
/// separator: an ending that does not change which component is the last.
pub open spec fn strippable_end(p: Seq<char>) -> bool {
    (p.len() > 0 && path_separator(p.last())) || (p.len() >= 2 && p.last() == '.'
        && path_separator(p[p.len() - 2]))
}

/// The path without trailing separators and trailing `.` components.
pub open spec fn trim_end(p: Seq<char>) -> Seq<char>
    decreases p.len(),
{
    if strippable_end(p) {
        trim_end(p.drop_last())
    } else {
        p
    }
}

/// Whether the characters of `v` before `end` end in a strippable way.
pub fn strippable_at(v: &Vec<char>, end: usize) -> (r: bool)
    requires
        end <= v.len(),
    ensures
        r == strippable_end(v@.take(end as int)),
{
    if end > 0 && is_separator(v[end - 1]) {
        true
    } else {
        end >= 2 && v[end - 1] == '.' && is_separator(v[end - 2])
    }
}

/// Whether `v[i]` is a separator.
pub fn separator_at(v: &Vec<char>, i: usize) -> (r: bool)
    requires
        i < v.len(),
    ensures
        r == path_separator(v@[i as int]),
{
    is_separator(v[i])
}

/// The length of `v` once trailing separators and `.` components are removed.
pub fn trimmed_len(v: &Vec<char>) -> (r: usize)
    ensures
        r <= v.len(),
        v@.take(r as int) == trim_end(v@),
{
    let mut end: usize = v.len();
    assert(v@.take(end as int) =~= v@);
    while strippable_at(v, end)
        invariant
            end <= v.len(),
            trim_end(v@.take(end as int)) == trim_end(v@),
        decreases end,
    {
        assert(v@.take(end as int).drop_last() =~= v@.take(end - 1));
        end = end - 1;
    }
    end
}

/// The position of the last separator in `v`, if any.
pub fn last_separator_position(v: &Vec<char>) -> (r: Option<usize>)
    ensures
        match r {
            Some(i) => i == last_separator(v@),
            None => last_separator(v@) == -1,
        },
        r matches Some(i) ==> i < v.len(),
{
    let mut found: Option<usize> = None;
    for i in 0..v.len()
        invariant
            match found {
                Some(k) => k == last_separator(v@.take(i as int)),
                None => last_separator(v@.take(i as int)) == -1,
            },
    {
        assert(v@.take(i + 1).drop_last() =~= v@.take(i as int));
        if separator_at(v, i) {
            found = Some(i);
        }
    }
    assert(v@.take(v.len() as int) =~= v@);
    proof {
        lemma_last_separator_bounds(v@);
    }
    found
}

} // verus!
