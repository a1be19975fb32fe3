use vstd::prelude::*;

verus! {

broadcast use vstd::string::axiom_spec_iter;

/// The characters of `s`, one by one.
pub fn chars_of(s: &str) -> (r: Vec<char>)
    ensures
        r@ == s@,
{
    let mut r: Vec<char> = Vec::new();
    for c in it: s.chars()
        invariant
            r@ == it.seq().subrange(0, it.index() as int),
    {
        r.push(c);
    }
    r
}

/// Position of the last `c` in `s`, or -1 when `s` holds none.
pub open spec fn last_index(s: Seq<char>, c: char) -> int
    decreases s.len(),
{
    if s.len() == 0 {
        -1
    } else if s.last() == c {
        s.len() - 1
    } else {
        last_index(s.drop_last(), c)
    }
}

/// The last position of a character lies inside the sequence, and holds it.
pub proof fn lemma_last_index_bounds(s: Seq<char>, c: char)
    ensures
        -1 <= last_index(s, c) < s.len(),
        last_index(s, c) >= 0 ==> s[last_index(s, c)] == c,
    decreases s.len(),
{
    if s.len() > 0 && s.last() != c {
        lemma_last_index_bounds(s.drop_last(), c);
    }
}

/// The position of the last `c` in `v`, if any.
pub fn last_position(v: &Vec<char>, c: char) -> (r: Option<usize>)
    ensures
        match r {
            Some(i) => i == last_index(v@, c),
            None => last_index(v@, c) == -1,
        },
        r matches Some(i) ==> i < v.len() && v@[i as int] == c,
{
    let mut found: Option<usize> = None;
    for i in 0..v.len()
        invariant
            match found {
                Some(k) => k == last_index(v@.take(i as int), c),
                None => last_index(v@.take(i as int), c) == -1,
            },
    {
        assert(v@.take(i + 1).drop_last() =~= v@.take(i as int));
        if v[i] == c {
            found = Some(i);
        }
    }
    assert(v@.take(v.len() as int) =~= v@);
    proof {
        lemma_last_index_bounds(v@, c);
    }
    found
}

/// The characters of `v` from `start` on.
pub fn suffix_from(v: &Vec<char>, start: usize) -> (r: Vec<char>)
    requires
        start <= v.len(),
    ensures
        r@ == v@.subrange(start as int, v.len() as int),
{
    let mut r: Vec<char> = Vec::new();
    let mut i: usize = start;
    while i < v.len()
        invariant
            start <= i <= v.len(),
            r@ == v@.subrange(start as int, i as int),
        decreases v.len() - i,
    {
        r.push(v[i]);
        i = i + 1;
        assert(r@ =~= v@.subrange(start as int, i as int));
    }
    r
}

/// Whether `v`, from `start` on, holds exactly the characters of `w`.
pub fn tail_equals(v: &Vec<char>, start: usize, w: &Vec<char>) -> (r: bool)
    requires
        start <= v.len(),
    ensures
        r == (v@.subrange(start as int, v.len() as int) == w@),
{
    if v.len() - start != w.len() {
        return false;
    }
    let mut i: usize = 0;
    while i < w.len()
        invariant
            v.len() - start == w.len(),
            start <= v.len(),
            i <= w.len(),
            forall|j: int| 0 <= j < i ==> v@[start + j] == w@[j],
        decreases w.len() - i,
    {
        if v[start + i] != w[i] {
            assert(v@.subrange(start as int, v.len() as int)[i as int] != w@[i as int]);
            return false;
        }
        i = i + 1;
    }
    assert(v@.subrange(start as int, v.len() as int) =~= w@);
    true
}

/// The characters of `v` before `end`.
pub fn prefix_of(v: &Vec<char>, end: usize) -> (r: Vec<char>)
    requires
        end <= v.len(),
    ensures
        r@ == v@.take(end as int),
{
    let mut r: Vec<char> = Vec::new();
    let mut i: usize = 0;
    while i < end
        invariant
            i <= end <= v.len(),
            r@ == v@.take(i as int),
        decreases end - i,
    {
        r.push(v[i]);
        i = i + 1;
        assert(r@ =~= v@.take(i as int));
    }
    r
}

/// Whether `v` holds the characters of `w` starting at `start`.
pub fn matches_at(v: &Vec<char>, start: usize, w: &Vec<char>) -> (r: bool)
    ensures
        r == (start + w.len() <= v.len() && v@.subrange(start as int, start + w.len()) == w@),
{
    if start > v.len() || v.len() - start < w.len() {
        return false;
    }
    let mut i: usize = 0;
    while i < w.len()
        invariant
            start + w.len() <= v.len(),
            i <= w.len(),
            forall|j: int| 0 <= j < i ==> v@[start + j] == w@[j],
        decreases w.len() - i,
    {
        if v[start + i] != w[i] {
            assert(v@.subrange(start as int, start + w.len())[i as int] != w@[i as int]);
            return false;
        }
        i = i + 1;
    }
    assert(v@.subrange(start as int, start + w.len()) =~= w@);
    true
}

} // verus!
