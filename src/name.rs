use vstd::prelude::*;

verus! {

/// `s` ends with `suffix`.
pub open spec fn has_suffix(s: Seq<char>, suffix: Seq<char>) -> bool {
    suffix.len() <= s.len() && s.subrange(s.len() - suffix.len(), s.len() as int) == suffix
}

/// Position of the last `c` in `s`, or -1 where `s` holds none.
pub open spec fn last_index_of(s: Seq<char>, c: char) -> int
    decreases s.len(),
{
    if s.len() == 0 {
        -1
    } else if s.last() == c {
        s.len() - 1
    } else {
        last_index_of(s.drop_last(), c)
    }
}

/// A path without its trailing `/` separators and `.` components, which name no
/// file of their own.
pub open spec fn trim_end(s: Seq<char>) -> Seq<char>
    decreases s.len(),
{
    if s.len() == 0 {
        s
    } else if s.last() == '/' {
        trim_end(s.drop_last())
    } else if s.last() == '.' && (s.len() == 1 || s[s.len() - 2] == '/') {
        trim_end(s.drop_last())
    } else {
        s
    }
}

/// The last component of a path: what follows the last `/` once trailing `/`
/// separators and `.` components are dropped.
pub open spec fn file_name_part(s: Seq<char>) -> Seq<char> {
    let t = trim_end(s);
    t.subrange(last_index_of(t, '/') + 1, t.len() as int)
}

/// The extension of a path: what follows the last `.` of its last component.
/// A component without a `.`, one whose only `.` leads it, and `..` have none.
pub open spec fn extension(s: Seq<char>) -> Option<Seq<char>> {
    let f = file_name_part(s);
    let d = last_index_of(f, '.');
    if d <= 0 || f == seq!['.', '.'] {
        None
    } else {
        Some(f.subrange(d + 1, f.len() as int))
    }
}

/// `last_index_of` is the one position of `c` after which `s` holds no `c`.
pub proof fn lemma_last_index_of(s: Seq<char>, c: char, k: int)
    requires
        -1 <= k < s.len(),
        k >= 0 ==> s[k] == c,
        forall|j: int| k < j < s.len() ==> s[j] != c,
    ensures
        last_index_of(s, c) == k,
    decreases s.len(),
{
    if s.len() > 0 && s.last() != c {
        lemma_last_index_of(s.drop_last(), c, k);
    }
}

/// Whether `s` ends with `suffix`.
pub fn ends_with(s: &str, suffix: &str) -> (r: bool)
    ensures
        r == has_suffix(s@, suffix@),
{
    let n = s.unicode_len();
    let m = suffix.unicode_len();
    if m > n {
        return false;
    }
    let mut i: usize = 0;
    while i < m
        invariant
            m <= n,
            n == s@.len(),
            m == suffix@.len(),
            i <= m,
            forall|j: int| 0 <= j < i ==> s@[n - m + j] == suffix@[j],
        decreases m - i,
    {
        if s.get_char(n - m + i) != suffix.get_char(i) {
            proof {
                assert(s@.subrange(n - m, n as int)[i as int] != suffix@[i as int]);
            }
            return false;
        }
        i += 1;
    }
    proof {
        assert(s@.subrange(n - m, n as int) =~= suffix@);
    }
    true
}

/// Whether `a` and `b` hold the same characters.
pub fn str_equal(a: &str, b: &str) -> (r: bool)
    ensures
        r == (a@ == b@),
{
    if a.unicode_len() != b.unicode_len() {
        return false;
    }
    let r = ends_with(a, b);
    proof {
        assert(a@ =~= a@.subrange(0, a@.len() as int));
    }
    r
}

/// The greatest position `i` with `from <= i < to` that holds `c`.
fn rfind_char(s: &str, from: usize, to: usize, c: char) -> (r: Option<usize>)
    requires
        from <= to <= s@.len(),
    ensures
        match r {
            Some(i) => from <= i < to && s@[i as int] == c && forall|j: int|
                i < j < to ==> s@[j] != c,
            None => forall|j: int| from <= j < to ==> s@[j] != c,
        },
{
    let mut i: usize = to;
    while i > from
        invariant
            from <= i <= to <= s@.len(),
            forall|j: int| i <= j < to ==> s@[j] != c,
        decreases i,
    {
        if s.get_char(i - 1) == c {
            return Some(i - 1);
        }
        i -= 1;
    }
    None
}

/// The length of `trim_end(s)`, which is a prefix of `s`.
pub fn trimmed_len(s: &str) -> (r: usize)
    ensures
        r <= s@.len(),
        s@.subrange(0, r as int) == trim_end(s@),
{
    let mut e = s.unicode_len();
    proof {
        assert(s@.subrange(0, e as int) =~= s@);
    }
    loop
        invariant
            e <= s@.len(),
            trim_end(s@.subrange(0, e as int)) == trim_end(s@),
        decreases e,
    {
        let ghost t = s@.subrange(0, e as int);
        if e == 0 {
            return e;
        }
        let c = s.get_char(e - 1);
        let dot_component = c == '.' && (e == 1 || s.get_char(e - 2) == '/');
        if c != '/' && !dot_component {
            return e;
        }
        proof {
            assert(t.drop_last() =~= s@.subrange(0, e - 1));
        }
        e -= 1;
    }
}

/// The extension of the path `s`, as `extension` states it.
pub fn extension_of(s: &str) -> (r: Option<&str>)
    ensures
        match r {
            Some(e) => extension(s@) == Some(e@) && e@.len() <= trim_end(s@).len(),
            None => extension(s@).is_none(),
        },
{
    let n = trimmed_len(s);
    let ghost t = s@.subrange(0, n as int);
    let start: usize = match rfind_char(s, 0, n, '/') {
        Some(i) => {
            proof {
                lemma_last_index_of(t, '/', i as int);
            }
            i + 1
        },
        None => {
            proof {
                lemma_last_index_of(t, '/', -1);
            }
            0
        },
    };
    let ghost f = t.subrange(start as int, n as int);
    assert(f == file_name_part(s@));
    match rfind_char(s, start, n, '.') {
        Some(d) => {
            proof {
                lemma_last_index_of(f, '.', d - start);
            }
            if d == start {
                return None;
            }
            if n - start == 2 && d == start + 1 && s.get_char(start) == '.' {
                proof {
                    assert(f =~= seq!['.', '.']);
                }
                return None;
            }
            let e = s.substring_char(d + 1, n);
            proof {
                assert(f != seq!['.', '.']) by {
                    if f == seq!['.', '.'] {
                        assert(f.len() == 2);
                        assert(f[0] == '.');
                    }
                }
                assert(e@ =~= f.subrange(d - start + 1, f.len() as int));
            }
            Some(e)
        },
        None => {
            proof {
                lemma_last_index_of(f, '.', -1);
            }
            None
        },
    }
}

} // verus!
