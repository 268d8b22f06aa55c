//! Character-level helpers over lines of text.
use vstd::prelude::*;

verus! {

/// The characters of `s`.
pub fn to_chars(s: &str) -> (r: Vec<char>)
    ensures
        r@ == s@,
{
    let n = s.unicode_len();
    let mut v: Vec<char> = Vec::new();
    let mut i: usize = 0;
    while i < n
        invariant
            n == s@.len(),
            i <= n,
            v@ == s@.subrange(0, i as int),
        decreases n - i,
    {
        v.push(s.get_char(i));
        i = i + 1;
        assert(v@ =~= s@.subrange(0, i as int));
    }
    assert(v@ =~= s@);
    v
}

/// Whether `chars[start..end]` spells `lit`.
pub fn eq_lit(chars: &Vec<char>, start: usize, end: usize, lit: &str) -> (r: bool)
    requires
        start <= end <= chars.len(),
    ensures
        r == (chars@.subrange(start as int, end as int) == lit@),
{
    let l = to_chars(lit);
    if end - start != l.len() {
        return false;
    }
    let mut i: usize = 0;
    while i < l.len()
        invariant
            start <= end <= chars.len(),
            end - start == l.len(),
            l@ == lit@,
            i <= l.len(),
            forall|j: int| 0 <= j < i ==> chars@[start + j] == l@[j],
        decreases l.len() - i,
    {
        if chars[start + i] != l[i] {
            assert(chars@.subrange(start as int, end as int)[i as int] != lit@[i as int]);
            return false;
        }
        i = i + 1;
    }
    assert(chars@.subrange(start as int, end as int) =~= lit@);
    true
}

/// Whether `chars` begins with `lit`.
pub fn has_prefix(chars: &Vec<char>, lit: &str) -> (r: bool)
    ensures
        r == (lit@.len() <= chars@.len() && chars@.subrange(0, lit@.len() as int) == lit@),
{
    let n = lit.unicode_len();
    if n > chars.len() {
        return false;
    }
    eq_lit(chars, 0, n, lit)
}

/// The characters `start..end` of `s` as a new string.
pub fn substring(s: &str, start: usize, end: usize) -> (r: String)
    requires
        start <= end <= s@.len(),
    ensures
        r@ == s@.subrange(start as int, end as int),
{
    s.substring_char(start, end).to_owned()
}

/// Index of the last `c` in `s`, or -1 when there is none.
pub open spec fn find_last(s: Seq<char>, c: char) -> int
    decreases s.len(),
{
    if s.len() == 0 {
        -1
    } else if s.last() == c {
        s.len() - 1
    } else {
        find_last(s.drop_last(), c)
    }
}

proof fn lemma_find_last(s: Seq<char>, c: char, k: int)
    requires
        -1 <= k < s.len(),
        k >= 0 ==> s[k] == c,
        forall|j: int| k < j < s.len() ==> s[j] != c,
    ensures
        find_last(s, c) == k,
    decreases s.len(),
{
    if s.len() > 0 && s.last() != c {
        lemma_find_last(s.drop_last(), c, k);
    }
}

/// Index of the last `c` in `chars[start..end]`, if any.
pub fn find_last_char(chars: &Vec<char>, start: usize, end: usize, c: char) -> (r: Option<usize>)
    requires
        start <= end <= chars.len(),
    ensures
        match r {
            Some(i) => start <= i < end && i - start == find_last(
                chars@.subrange(start as int, end as int),
                c,
            ),
            None => find_last(chars@.subrange(start as int, end as int), c) == -1,
        },
{
    let mut i = end;
    while i > start && chars[i - 1] != c
        invariant
            start <= i <= end <= chars.len(),
            forall|j: int| i <= j < end ==> chars@[j] != c,
        decreases i - start,
    {
        i = i - 1;
    }
    let ghost s = chars@.subrange(start as int, end as int);
    if i == start {
        proof {
            lemma_find_last(s, c, -1);
        }
        None
    } else {
        proof {
            lemma_find_last(s, c, i - 1 - start);
        }
        Some(i - 1)
    }
}

/// Whether every character of `chars[start..end]` is a decimal digit.
pub fn digits_only(chars: &Vec<char>, start: usize, end: usize) -> (r: bool)
    requires
        start <= end <= chars.len(),
    ensures
        r == crate::decimal::all_digits(chars@.subrange(start as int, end as int)),
{
    let mut i = start;
    while i < end && chars[i] >= '0' && chars[i] <= '9'
        invariant
            start <= i <= end <= chars.len(),
            forall|j: int| start <= j < i ==> crate::decimal::is_digit(#[trigger] chars@[j]),
        decreases end - i,
    {
        i = i + 1;
    }
    if i < end {
        assert(!crate::decimal::is_digit(chars@.subrange(start as int, end as int)[i - start]));
    }
    i == end
}

} // verus!
