use vstd::prelude::*;

verus! {

/// The first position at or after `i` that holds `c`.
pub open spec fn find_from(s: Seq<char>, c: char, i: int) -> Option<int>
    decreases s.len() - i,
{
    if i < 0 || i >= s.len() {
        None
    } else if s[i] == c {
        Some(i)
    } else {
        find_from(s, c, i + 1)
    }
}

/// The last position before `n` that holds `c`.
pub open spec fn rfind_before(s: Seq<char>, c: char, n: int) -> Option<int>
    decreases n,
{
    if n <= 0 || n > s.len() {
        None
    } else if s[n - 1] == c {
        Some(n - 1)
    } else {
        rfind_before(s, c, n - 1)
    }
}

/// The last position that holds `c`.
pub open spec fn rfind(s: Seq<char>, c: char) -> Option<int> {
    rfind_before(s, c, s.len() as int)
}

pub proof fn lemma_find_from(s: Seq<char>, c: char, i: int)
    ensures
        match find_from(s, c, i) {
            Some(p) => 0 <= i <= p < s.len() && s[p] == c && forall|k: int|
                i <= k < p ==> s[k] != c,
            None => forall|k: int| 0 <= i <= k < s.len() ==> s[k] != c,
        },
    decreases s.len() - i,
{
    if 0 <= i < s.len() && s[i] != c {
        lemma_find_from(s, c, i + 1);
    }
}

pub proof fn lemma_rfind_before(s: Seq<char>, c: char, n: int)
    requires
        0 <= n <= s.len(),
    ensures
        match rfind_before(s, c, n) {
            Some(p) => 0 <= p < n && s[p] == c && forall|k: int| p < k < n ==> s[k] != c,
            None => forall|k: int| 0 <= k < n ==> s[k] != c,
        },
    decreases n,
{
    if n > 0 && s[n - 1] != c {
        lemma_rfind_before(s, c, n - 1);
    }
}

/// Where no position in `[j, n)` holds `c`, the search from `n` back goes on at `j`.
pub proof fn lemma_rfind_skip(s: Seq<char>, c: char, j: int, n: int)
    requires
        0 <= j <= n <= s.len(),
        forall|k: int| j <= k < n ==> s[k] != c,
    ensures
        rfind_before(s, c, n) == rfind_before(s, c, j),
    decreases n - j,
{
    if n > j {
        lemma_rfind_skip(s, c, j, n - 1);
    }
}

/// The first position at or after `from` that holds `c`.
pub fn find_char(s: &str, c: char, from: usize) -> (r: Option<usize>)
    ensures
        s@.len() <= usize::MAX,
        match r {
            Some(p) => find_from(s@, c, from as int) == Some(p as int),
            None => find_from(s@, c, from as int) is None,
        },
{
    let n = s.unicode_len();
    let mut i = from;
    while i < n
        invariant
            n == s@.len(),
            from <= i,
            find_from(s@, c, from as int) == find_from(s@, c, i as int),
        decreases n - i,
    {
        if s.get_char(i) == c {
            return Some(i);
        }
        i = i + 1;
    }
    None
}

/// The last position that holds `c`.
pub fn rfind_char(s: &str, c: char) -> (r: Option<usize>)
    ensures
        match r {
            Some(p) => rfind(s@, c) == Some(p as int),
            None => rfind(s@, c) is None,
        },
{
    let mut n = s.unicode_len();
    while n > 0
        invariant
            n <= s@.len(),
            rfind(s@, c) == rfind_before(s@, c, n as int),
        decreases n,
    {
        if s.get_char(n - 1) == c {
            return Some(n - 1);
        }
        n = n - 1;
    }
    None
}

/// White space as `char::is_whitespace` defines it (the Unicode property
/// `White_Space`).
pub open spec fn is_space(c: char) -> bool {
    ('\u{9}' <= c && c <= '\u{d}') || c == ' ' || c == '\u{85}' || c == '\u{a0}'
        || c == '\u{1680}' || ('\u{2000}' <= c && c <= '\u{200a}') || c == '\u{2028}'
        || c == '\u{2029}' || c == '\u{202f}' || c == '\u{205f}' || c == '\u{3000}'
}

fn char_is_space(c: char) -> (r: bool)
    ensures
        r == is_space(c),
{
    ('\u{9}' <= c && c <= '\u{d}') || c == ' ' || c == '\u{85}' || c == '\u{a0}'
        || c == '\u{1680}' || ('\u{2000}' <= c && c <= '\u{200a}') || c == '\u{2028}'
        || c == '\u{2029}' || c == '\u{202f}' || c == '\u{205f}' || c == '\u{3000}'
}

/// The first position at or after `i` that is not white space, or the length.
pub open spec fn skip_space(s: Seq<char>, i: int) -> int
    decreases s.len() - i,
{
    if i < 0 || i >= s.len() {
        s.len() as int
    } else if is_space(s[i]) {
        skip_space(s, i + 1)
    } else {
        i
    }
}

/// The end of `s[..n]` once white space at its end is dropped.
pub open spec fn skip_space_back(s: Seq<char>, n: int) -> int
    decreases n,
{
    if n <= 0 || n > s.len() {
        0
    } else if is_space(s[n - 1]) {
        skip_space_back(s, n - 1)
    } else {
        n
    }
}

/// `s` without white space at either end, as `str::trim` gives it.
pub open spec fn trimmed(s: Seq<char>) -> Seq<char> {
    let a = skip_space(s, 0);
    let b = skip_space_back(s, s.len() as int);
    if a < b {
        s.subrange(a, b)
    } else {
        Seq::empty()
    }
}

/// Drops the white space at both ends of `s`.
pub fn trim_text(s: &str) -> (r: String)
    ensures
        r@ == trimmed(s@),
{
    let n = s.unicode_len();
    let mut a: usize = 0;
    while a < n && char_is_space(s.get_char(a))
        invariant
            n == s@.len(),
            a <= n,
            skip_space(s@, 0) == skip_space(s@, a as int),
        decreases n - a,
    {
        a = a + 1;
    }
    let mut b: usize = n;
    while b > 0 && char_is_space(s.get_char(b - 1))
        invariant
            n == s@.len(),
            b <= n,
            skip_space_back(s@, n as int) == skip_space_back(s@, b as int),
        decreases b,
    {
        b = b - 1;
    }
    if a < b {
        String::from_str(s.substring_char(a, b))
    } else {
        String::new()
    }
}

} // verus!
