use vstd::prelude::*;
use vstd::string::*;

verus! {

/// `i` is the first position of `c` in `s`.
pub open spec fn first_at(s: Seq<char>, c: char, i: int) -> bool {
    0 <= i < s.len() && s[i] == c && forall|j: int| 0 <= j < i ==> s[j] != c
}

/// The first position of `c` in `s`, if it occurs.
pub open spec fn first_index_of(s: Seq<char>, c: char) -> Option<int> {
    if exists|i: int| first_at(s, c, i) {
        Some(choose|i: int| first_at(s, c, i))
    } else {
        None
    }
}

/// A `>>` starts at position `i` of `s`.
pub open spec fn delimiter_at(s: Seq<char>, i: int) -> bool {
    0 <= i && i + 1 < s.len() && s[i] == '>' && s[i + 1] == '>'
}

/// `i` is where the first `>>` of `s` starts.
pub open spec fn first_delimiter_at(s: Seq<char>, i: int) -> bool {
    delimiter_at(s, i) && forall|j: int| 0 <= j < i ==> !delimiter_at(s, j)
}

/// Where the first `>>` of `s` starts, if there is one.
pub open spec fn first_delimiter(s: Seq<char>) -> Option<int> {
    if exists|i: int| first_delimiter_at(s, i) {
        Some(choose|i: int| first_delimiter_at(s, i))
    } else {
        None
    }
}

/// The first position of `c` among the characters `from..to` of `s`,
/// counted from the start of `s`.
pub fn find_char(s: &str, c: char, from: usize, to: usize) -> (r: Option<usize>)
    requires
        from <= to <= s@.len(),
    ensures
        match r {
            Some(i) => from <= i < to && first_index_of(s@.subrange(from as int, to as int), c)
                == Some(i - from),
            None => first_index_of(s@.subrange(from as int, to as int), c) is None,
        },
{
    let ghost t = s@.subrange(from as int, to as int);
    let mut i: usize = from;
    while i < to
        invariant
            from <= i <= to <= s@.len(),
            t == s@.subrange(from as int, to as int),
            forall|j: int| 0 <= j < i - from ==> t[j] != c,
        decreases to - i,
    {
        if s.get_char(i) == c {
            let ghost k = i - from;
            assert(first_at(t, c, k));
            assert forall|m: int| first_at(t, c, m) implies m == k by {
                if m < k {
                    assert(t[m] != c);
                } else if m > k {
                    assert(t[k] != c);
                }
            }
            return Some(i);
        }
        i = i + 1;
    }
    assert forall|m: int| !first_at(t, c, m) by {
        if 0 <= m < t.len() {
            assert(t[m] != c);
        }
    }
    None
}

/// Where the first `>>` of `s` starts, if there is one.
pub fn find_delimiter(s: &str) -> (r: Option<usize>)
    ensures
        match r {
            Some(i) => first_delimiter(s@) == Some(i as int),
            None => first_delimiter(s@) is None,
        },
{
    let n = s.unicode_len();
    let mut i: usize = 0;
    while i < n && i + 1 < n
        invariant
            n == s@.len(),
            i <= n,
            forall|j: int| 0 <= j < i ==> !delimiter_at(s@, j),
        decreases n - i,
    {
        if s.get_char(i) == '>' && s.get_char(i + 1) == '>' {
            let ghost k = i as int;
            assert(first_delimiter_at(s@, k));
            assert forall|m: int| first_delimiter_at(s@, m) implies m == k by {
                if m > k {
                    assert(!delimiter_at(s@, k));
                }
            }
            return Some(i);
        }
        i = i + 1;
    }
    assert forall|m: int| !first_delimiter_at(s@, m) by {
        if 0 <= m < i {
            assert(!delimiter_at(s@, m));
        }
    }
    None
}

/// Whether the characters `from..to` of `s` are exactly `t`.
pub fn range_equals(s: &str, from: usize, to: usize, t: &str) -> (r: bool)
    requires
        from <= to <= s@.len(),
    ensures
        r == (s@.subrange(from as int, to as int) == t@),
{
    let n = t.unicode_len();
    if to - from != n {
        return false;
    }
    let mut i: usize = 0;
    while i < n
        invariant
            n == t@.len(),
            to - from == n,
            from <= to <= s@.len(),
            forall|j: int| 0 <= j < i ==> s@[from + j] == t@[j],
        decreases n - i,
    {
        if s.get_char(from + i) != t.get_char(i) {
            assert(s@.subrange(from as int, to as int)[i as int] != t@[i as int]);
            return false;
        }
        i = i + 1;
    }
    assert(s@.subrange(from as int, to as int) =~= t@);
    true
}

/// Whether two texts are the same.
pub fn text_equals(s: &str, t: &str) -> (r: bool)
    ensures
        r == (s@ == t@),
{
    let n = s.unicode_len();
    let r = range_equals(s, 0, n, t);
    assert(s@.subrange(0, n as int) =~= s@);
    r
}

} // verus!
