//! Character-level helpers on strings.

use vstd::prelude::*;

verus! {

/// `String::push`: appends one character at the end.
#[verifier::external_body]
pub(crate) fn push_char(s: &mut String, c: char)
    ensures
        final(s)@ == old(s)@.push(c),
{
    s.push(c);
}

/// Whether two strings hold the same characters.
pub(crate) fn text_equals(a: &str, b: &str) -> (res: bool)
    ensures
        res == (a@ == b@),
{
    let n = a.unicode_len();
    let m = b.unicode_len();
    if n != m {
        return false;
    }
    let mut i: usize = 0;
    while i < n
        invariant
            n == a@.len(),
            n == b@.len(),
            i <= n,
            forall|j: int| 0 <= j < i ==> a@[j] == b@[j],
        decreases n - i,
    {
        if a.get_char(i) != b.get_char(i) {
            return false;
        }
        i = i + 1;
    }
    assert(a@ =~= b@);
    true
}

/// The characters of a string, one by one.
pub(crate) fn chars_of(s: &str) -> (res: Vec<char>)
    ensures
        res@ == s@,
{
    let mut res: Vec<char> = Vec::new();
    let n = s.unicode_len();
    let mut i: usize = 0;
    while i < n
        invariant
            n == s@.len(),
            i <= n,
            res@ == s@.take(i as int),
        decreases n - i,
    {
        res.push(s.get_char(i));
        assert(res@ =~= s@.take(i + 1));
        i = i + 1;
    }
    assert(res@ =~= s@);
    res
}

/// A new string made of `v[from..to]`.
pub(crate) fn string_of_range(v: &Vec<char>, from: usize, to: usize) -> (res: String)
    requires
        from <= to <= v@.len(),
    ensures
        res@ == v@.subrange(from as int, to as int),
{
    let mut res = String::new();
    let mut i: usize = from;
    while i < to
        invariant
            from <= i <= to,
            to <= v@.len(),
            res@ == v@.subrange(from as int, i as int),
        decreases to - i,
    {
        push_char(&mut res, v[i]);
        assert(res@ =~= v@.subrange(from as int, i + 1));
        i = i + 1;
    }
    res
}

/// The first position at or after `from` that holds `c`, if any.
pub(crate) fn find_char(v: &Vec<char>, from: usize, c: char) -> (res: Option<usize>)
    requires
        from <= v@.len(),
    ensures
        match res {
            Some(j) => from <= j < v@.len() && v@[j as int] == c && forall|i: int|
                from <= i < j ==> v@[i] != c,
            None => forall|i: int| from <= i < v@.len() ==> v@[i] != c,
        },
{
    let mut j: usize = from;
    while j < v.len()
        invariant
            from <= j <= v@.len(),
            forall|i: int| from <= i < j ==> v@[i] != c,
        decreases v@.len() - j,
    {
        if v[j] == c {
            return Some(j);
        }
        j = j + 1;
    }
    None
}

/// Whether `v` holds the characters of `pattern` from position `pos` on.
pub(crate) fn has_at(v: &Vec<char>, pos: usize, pattern: &Vec<char>) -> (res: bool)
    ensures
        res == (pos + pattern@.len() <= v@.len() && v@.subrange(
            pos as int,
            pos + pattern@.len(),
        ) == pattern@),
{
    if pos > v.len() || pattern.len() > v.len() - pos {
        return false;
    }
    let mut i: usize = 0;
    while i < pattern.len()
        invariant
            pos + pattern@.len() <= v.len(),
            i <= pattern@.len(),
            forall|k: int| 0 <= k < i ==> v@[pos + k] == pattern@[k],
        decreases pattern@.len() - i,
    {
        if v[pos + i] != pattern[i] {
            assert(v@.subrange(pos as int, pos + pattern@.len())[i as int] != pattern@[i as int]);
            return false;
        }
        i = i + 1;
    }
    assert(v@.subrange(pos as int, pos + pattern@.len()) =~= pattern@);
    true
}

} // verus!
