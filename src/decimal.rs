//! Decimal text: unsigned integers and fixed-point numbers with six
//! fractional digits, parsed from and rendered to characters.
use vstd::prelude::*;

verus! {

/// Number of fixed-point units in one whole unit.
pub const SCALE: i64 = 1_000_000;

/// Largest magnitude, in fixed-point units, that a parsed number may have.
pub const LIMIT: i64 = 1_000_000_000_000_000;

pub open spec fn is_digit(c: char) -> bool {
    '0' <= c && c <= '9'
}

pub open spec fn digit_value(c: char) -> int {
    (c as int) - ('0' as int)
}

pub open spec fn all_digits(s: Seq<char>) -> bool {
    forall|i: int| 0 <= i < s.len() ==> is_digit(#[trigger] s[i])
}

/// The number that a string of decimal digits denotes.
pub open spec fn digits_value(s: Seq<char>) -> int
    decreases s.len(),
{
    if s.len() == 0 {
        0
    } else {
        10 * digits_value(s.drop_last()) + digit_value(s.last())
    }
}

/// A non-empty run of decimal digits whose value is at most `max`.
pub open spec fn uint_of(s: Seq<char>, max: int) -> Option<int> {
    if s.len() > 0 && all_digits(s) && digits_value(s) <= max {
        Some(digits_value(s))
    } else {
        None
    }
}

/// Index of the first `c` in `s`, or `s.len()` when there is none.
pub open spec fn find(s: Seq<char>, c: char) -> int
    decreases s.len(),
{
    if s.len() == 0 {
        0
    } else if s[0] == c {
        0
    } else {
        1 + find(s.drop_first(), c)
    }
}

pub open spec fn pow10(n: nat) -> int
    decreases n,
{
    if n == 0 {
        1
    } else {
        10 * pow10((n - 1) as nat)
    }
}

pub open spec fn digit_char(d: int) -> char {
    ((d + ('0' as int)) as u32) as char
}

/// Decimal digits of `n`, without leading zeros.
pub open spec fn decimal(n: nat) -> Seq<char>
    decreases n,
{
    if n < 10 {
        seq![digit_char(n as int)]
    } else {
        decimal(n / 10) + seq![digit_char((n % 10) as int)]
    }
}

pub proof fn lemma_digits_value_nonneg(s: Seq<char>)
    requires
        all_digits(s),
    ensures
        digits_value(s) >= 0,
    decreases s.len(),
{
    if s.len() > 0 {
        lemma_digits_value_nonneg(s.drop_last());
    }
}

/// Appending digits never makes the value smaller.
pub proof fn lemma_digits_value_prefix(s: Seq<char>, k: int)
    requires
        all_digits(s),
        0 <= k <= s.len(),
    ensures
        digits_value(s.subrange(0, k)) <= digits_value(s),
    decreases s.len(),
{
    if k < s.len() {
        let t = s.drop_last();
        assert(t.subrange(0, k) =~= s.subrange(0, k));
        lemma_digits_value_prefix(t, k);
        lemma_digits_value_nonneg(t);
    } else {
        assert(s.subrange(0, k) =~= s);
    }
}

pub proof fn lemma_find(s: Seq<char>, c: char, k: int)
    requires
        0 <= k <= s.len(),
        k < s.len() ==> s[k] == c,
        forall|j: int| 0 <= j < k ==> s[j] != c,
    ensures
        find(s, c) == k,
    decreases s.len(),
{
    if s.len() > 0 && k > 0 {
        lemma_find(s.drop_first(), c, k - 1);
    }
}

/// Index of the first `c` in `chars[start..end]`, or `end`.
pub fn find_char(chars: &Vec<char>, start: usize, end: usize, c: char) -> (r: usize)
    requires
        start <= end <= chars.len(),
    ensures
        start <= r <= end,
        r == start + find(chars@.subrange(start as int, end as int), c),
{
    let mut i = start;
    while i < end && chars[i] != c
        invariant
            start <= i <= end <= chars.len(),
            forall|j: int| start <= j < i ==> chars@[j] != c,
        decreases end - i,
    {
        i = i + 1;
    }
    proof {
        let s = chars@.subrange(start as int, end as int);
        lemma_find(s, c, i - start);
    }
    i
}

/// Parses `chars[start..end]` as an unsigned decimal integer of at most `max`.
pub fn parse_uint(chars: &Vec<char>, start: usize, end: usize, max: u64) -> (r: Option<u64>)
    requires
        start <= end <= chars.len(),
    ensures
        match uint_of(chars@.subrange(start as int, end as int), max as int) {
            Some(v) => r == Some(v as u64),
            None => r is None,
        },
        r matches Some(v) ==> v <= max && v == digits_value(chars@.subrange(start as int, end as int))
            && all_digits(chars@.subrange(start as int, end as int)),
{
    let ghost s = chars@.subrange(start as int, end as int);
    if start == end {
        return None;
    }
    let mut acc: u64 = 0;
    let mut i = start;
    while i < end
        invariant
            start <= i <= end <= chars.len(),
            s == chars@.subrange(start as int, end as int),
            all_digits(chars@.subrange(start as int, i as int)),
            acc as int == digits_value(chars@.subrange(start as int, i as int)),
            acc <= max,
        decreases end - i,
    {
        let c = chars[i];
        assert(chars@.subrange(start as int, i + 1).drop_last() =~= chars@.subrange(
            start as int,
            i as int,
        ));
        if !(c >= '0' && c <= '9') {
            assert(s[i - start] == c);
            return None;
        }
        let d = (c as u32 - '0' as u32) as u64;
        if d > max || acc > (max - d) / 10 {
            proof {
                assert(all_digits(chars@.subrange(start as int, i + 1)));
                assert(digits_value(chars@.subrange(start as int, i + 1)) > max);
                if all_digits(s) {
                    assert(s.subrange(0, i + 1 - start) =~= chars@.subrange(start as int, i + 1));
                    lemma_digits_value_prefix(s, i + 1 - start);
                }
            }
            return None;
        }
        acc = acc * 10 + d;
        i = i + 1;
    }
    assert(chars@.subrange(start as int, i as int) =~= s);
    Some(acc)
}


/// A signed decimal number held as an integer count of millionths.
#[derive(Clone, Copy, Debug, PartialEq, Eq, Structural)]
pub struct Fixed {
    pub raw: i64,
}

impl Fixed {
    /// Whether the magnitude stays within what the parser produces.
    pub open spec fn in_range(self) -> bool {
        -LIMIT <= self.raw <= LIMIT
    }

    pub fn is_in_range(&self) -> (r: bool)
        ensures
            r == self.in_range(),
    {
        -LIMIT <= self.raw && self.raw <= LIMIT
    }

    pub fn zero() -> (r: Fixed)
        ensures
            r.raw == 0,
    {
        Fixed { raw: 0 }
    }

    /// The whole number `n`.
    pub fn from_int(n: i32) -> (r: Fixed)
        ensures
            r.raw == n * SCALE,
    {
        Fixed { raw: n as i64 * SCALE }
    }
}

pub open spec fn sign_len(s: Seq<char>) -> int {
    if s.len() > 0 && (s[0] == '-' || s[0] == '+') {
        1
    } else {
        0
    }
}

/// The integer digits of a number text: what stands between the sign and the point.
pub open spec fn int_part(s: Seq<char>) -> Seq<char> {
    let body = s.subrange(sign_len(s), s.len() as int);
    body.subrange(0, find(body, '.'))
}

/// The fractional digits of a number text: what follows the point, if any.
pub open spec fn frac_part(s: Seq<char>) -> Seq<char> {
    let body = s.subrange(sign_len(s), s.len() as int);
    let p = find(body, '.');
    if p < body.len() {
        body.subrange(p + 1, body.len() as int)
    } else {
        Seq::empty()
    }
}

/// Magnitude, in millionths, of a number text.
pub open spec fn magnitude(s: Seq<char>) -> int {
    digits_value(int_part(s)) * SCALE + digits_value(frac_part(s)) * pow10(
        (6 - frac_part(s).len()) as nat,
    )
}

/// A number text: an optional sign, digits with an optional point, at least
/// one digit, at most six after the point, and a magnitude within `LIMIT`.
/// Its value counts millionths.
pub open spec fn fixed_of(s: Seq<char>) -> Option<int> {
    if all_digits(int_part(s)) && all_digits(frac_part(s)) && int_part(s).len() + frac_part(
        s,
    ).len() > 0 && frac_part(s).len() <= 6 && magnitude(s) <= LIMIT {
        if s.len() > 0 && s[0] == '-' {
            Some(-magnitude(s))
        } else {
            Some(magnitude(s))
        }
    } else {
        None
    }
}

pub proof fn lemma_digits_value_bound(s: Seq<char>)
    requires
        all_digits(s),
    ensures
        0 <= digits_value(s) < pow10(s.len()),
    decreases s.len(),
{
    if s.len() > 0 {
        lemma_digits_value_bound(s.drop_last());
    }
}

pub proof fn lemma_pow10_pos(n: nat)
    ensures
        pow10(n) > 0,
    decreases n,
{
    if n > 0 {
        lemma_pow10_pos((n - 1) as nat);
    }
}

fn pow10_exec(n: usize) -> (r: u64)
    requires
        n <= 6,
    ensures
        r == pow10(n as nat),
        r <= 1_000_000,
{
    proof {
        reveal_with_fuel(pow10, 7);
    }
    if n == 0 {
        1
    } else if n == 1 {
        10
    } else if n == 2 {
        100
    } else if n == 3 {
        1_000
    } else if n == 4 {
        10_000
    } else if n == 5 {
        100_000
    } else {
        1_000_000
    }
}

/// Parses `chars[start..end]` as a possibly empty run of digits of value at most `max`.
fn parse_digits(chars: &Vec<char>, start: usize, end: usize, max: u64) -> (r: Option<u64>)
    requires
        start <= end <= chars.len(),
    ensures
        match r {
            Some(v) => all_digits(chars@.subrange(start as int, end as int)) && v == digits_value(
                chars@.subrange(start as int, end as int),
            ) && v <= max,
            None => !(all_digits(chars@.subrange(start as int, end as int)) && digits_value(
                chars@.subrange(start as int, end as int),
            ) <= max),
        },
{
    if start == end {
        assert(chars@.subrange(start as int, end as int).len() == 0);
        return Some(0);
    }
    parse_uint(chars, start, end, max)
}

/// Parses `chars[start..end]` as a number text.
pub fn parse_fixed(chars: &Vec<char>, start: usize, end: usize) -> (r: Option<Fixed>)
    requires
        start <= end <= chars.len(),
    ensures
        match fixed_of(chars@.subrange(start as int, end as int)) {
            Some(v) => r == Some(Fixed { raw: v as i64 }),
            None => r is None,
        },
        r matches Some(f) ==> f.in_range(),
{
    let ghost s = chars@.subrange(start as int, end as int);
    let mut b = start;
    let mut neg = false;
    if start < end && (chars[start] == '-' || chars[start] == '+') {
        neg = chars[start] == '-';
        b = start + 1;
    }
    let ghost body = s.subrange(sign_len(s), s.len() as int);
    assert(body =~= chars@.subrange(b as int, end as int));
    let p = find_char(chars, b, end, '.');
    let fs = if p < end {
        p + 1
    } else {
        end
    };
    let ghost ip = int_part(s);
    let ghost fp = frac_part(s);
    assert(ip =~= chars@.subrange(b as int, p as int));
    assert(fp =~= chars@.subrange(fs as int, end as int));
    if p == b && fs == end {
        return None;
    }
    if end - fs > 6 {
        return None;
    }
    let ipv = match parse_digits(chars, b, p, 1_000_000_000) {
        Some(v) => v,
        None => {
            proof {
                if all_digits(ip) && all_digits(fp) {
                    lemma_digits_value_nonneg(fp);
                    lemma_pow10_pos((6 - fp.len()) as nat);
                    let x = digits_value(fp);
                    let y = pow10((6 - fp.len()) as nat);
                    assert(x * y >= 0) by (nonlinear_arith)
                        requires
                            x >= 0,
                            y > 0,
                    ;
                }
            }
            return None;
        },
    };
    let fpv = match parse_digits(chars, fs, end, 999_999) {
        Some(v) => v,
        None => {
            proof {
                if all_digits(fp) {
                    lemma_digits_value_bound(fp);
                    reveal_with_fuel(pow10, 7);
                }
            }
            return None;
        },
    };
    let scale = pow10_exec(6 - (end - fs));
    assert(fpv * scale <= 999_999 * 1_000_000) by (nonlinear_arith)
        requires
            fpv <= 999_999,
            scale <= 1_000_000,
    ;
    let mag = ipv * 1_000_000 + fpv * scale;
    assert(magnitude(s) == mag);
    if mag > 1_000_000_000_000_000 {
        return None;
    }
    let raw: i64 = if neg {
        -(mag as i64)
    } else {
        mag as i64
    };
    Some(Fixed { raw })
}

/// `n mod 10^w` as exactly `w` digits, with leading zeros.
pub open spec fn pad(n: nat, w: nat) -> Seq<char>
    decreases w,
{
    if w == 0 {
        Seq::empty()
    } else {
        pad(n / 10, (w - 1) as nat) + seq![digit_char((n % 10) as int)]
    }
}

/// `s` without its trailing zeros.
pub open spec fn trim_zeros(s: Seq<char>) -> Seq<char>
    decreases s.len(),
{
    if s.len() > 0 && s.last() == '0' {
        trim_zeros(s.drop_last())
    } else {
        s
    }
}

pub open spec fn abs(v: int) -> int {
    if v < 0 {
        -v
    } else {
        v
    }
}

/// Shortest text of a fixed-point number: a minus sign when negative, the
/// whole part, and the fractional digits without trailing zeros, if any.
pub open spec fn fixed_text(v: int) -> Seq<char> {
    let sign = if v < 0 {
        seq!['-']
    } else {
        Seq::empty()
    };
    let whole = decimal((abs(v) / (SCALE as int)) as nat);
    let frac = (abs(v) % (SCALE as int)) as nat;
    if frac == 0 {
        sign + whole
    } else {
        sign + whole + seq!['.'] + trim_zeros(pad(frac, 6))
    }
}

fn digit_str(d: u64) -> (r: &'static str)
    requires
        d < 10,
    ensures
        r@ == seq![digit_char(d as int)],
{
    proof {
        reveal_strlit("0");
        reveal_strlit("1");
        reveal_strlit("2");
        reveal_strlit("3");
        reveal_strlit("4");
        reveal_strlit("5");
        reveal_strlit("6");
        reveal_strlit("7");
        reveal_strlit("8");
        reveal_strlit("9");
    }
    let r = if d == 0 {
        "0"
    } else if d == 1 {
        "1"
    } else if d == 2 {
        "2"
    } else if d == 3 {
        "3"
    } else if d == 4 {
        "4"
    } else if d == 5 {
        "5"
    } else if d == 6 {
        "6"
    } else if d == 7 {
        "7"
    } else if d == 8 {
        "8"
    } else {
        "9"
    };
    assert(r@ =~= seq![digit_char(d as int)]);
    r
}

/// Appends the decimal digits of `n`.
pub fn push_decimal(out: &mut String, n: u64)
    ensures
        final(out)@ == old(out)@ + decimal(n as nat),
    decreases n,
{
    if n >= 10 {
        push_decimal(out, n / 10);
    }
    out.append(digit_str(n % 10));
    assert(final(out)@ =~= old(out)@ + decimal(n as nat));
}

/// Appends `n mod 10^w` as exactly `w` digits.
fn push_padded(out: &mut String, n: u64, w: u64)
    ensures
        final(out)@ == old(out)@ + pad(n as nat, w as nat),
    decreases w,
{
    if w > 0 {
        push_padded(out, n / 10, w - 1);
        out.append(digit_str(n % 10));
        assert(final(out)@ =~= old(out)@ + pad(n as nat, w as nat));
    } else {
        assert(final(out)@ =~= old(out)@ + pad(n as nat, w as nat));
    }
}

proof fn lemma_trim_pad(n: nat, w: nat)
    requires
        w > 0,
        n % 10 == 0,
    ensures
        trim_zeros(pad(n, w)) == trim_zeros(pad(n / 10, (w - 1) as nat)),
{
    let p = pad(n, w);
    assert(p.drop_last() =~= pad(n / 10, (w - 1) as nat));
    assert(p.last() == '0');
}

proof fn lemma_trim_pad_end(n: nat, w: nat)
    requires
        w > 0,
        n % 10 != 0,
    ensures
        trim_zeros(pad(n, w)) == pad(n, w),
{
    let p = pad(n, w);
    assert(p.last() == digit_char((n % 10) as int));
}

/// Appends the shortest text of `v`.
pub fn push_fixed(out: &mut String, v: Fixed)
    ensures
        final(out)@ == old(out)@ + fixed_text(v.raw as int),
{
    let m: u64 = if v.raw < 0 {
        (-(v.raw + 1)) as u64 + 1
    } else {
        v.raw as u64
    };
    assert(m == abs(v.raw as int));
    if v.raw < 0 {
        out.append("-");
    }
    proof {
        reveal_strlit("-");
    }
    let ghost signed = out@;
    push_decimal(out, m / 1_000_000);
    let frac = m % 1_000_000;
    if frac != 0 {
        out.append(".");
        proof {
            reveal_strlit(".");
        }
        let mut t = frac;
        let mut w: u64 = 6;
        proof {
            reveal_with_fuel(pow10, 7);
        }
        while t % 10 == 0
            invariant
                0 < t <= frac,
                0 < w <= 6,
                t < pow10(w as nat),
                trim_zeros(pad(t as nat, w as nat)) == trim_zeros(pad(frac as nat, 6)),
            decreases t,
        {
            proof {
                lemma_trim_pad(t as nat, w as nat);
                reveal_with_fuel(pow10, 2);
            }
            t = t / 10;
            w = w - 1;
        }
        proof {
            lemma_trim_pad_end(t as nat, w as nat);
        }
        push_padded(out, t, w);
    }
}

pub proof fn lemma_digit_char(d: int)
    requires
        0 <= d < 10,
    ensures
        is_digit(digit_char(d)),
        digit_value(digit_char(d)) == d,
        digit_char(d) == '0' <==> d == 0,
{
}

/// Digits of `n` are digits, at least one, and denote `n`.
pub proof fn lemma_decimal(n: nat)
    ensures
        all_digits(decimal(n)),
        decimal(n).len() >= 1,
        digits_value(decimal(n)) == n,
    decreases n,
{
    lemma_digit_char((n % 10) as int);
    if n >= 10 {
        lemma_decimal(n / 10);
        let d = decimal(n);
        assert(d.drop_last() =~= decimal(n / 10));
        assert forall|i: int| 0 <= i < d.len() implies is_digit(#[trigger] d[i]) by {
            if i < d.len() - 1 {
                assert(d[i] == decimal(n / 10)[i]);
            }
        }
        assert(d.last() == digit_char((n % 10) as int));
        assert(digits_value(d) == 10 * digits_value(decimal(n / 10)) + digit_value(d.last()));
    } else {
        let d = decimal(n);
        assert(d.drop_last() =~= Seq::<char>::empty());
        assert(digits_value(d.drop_last()) == 0);
        assert(d.last() == digit_char(n as int));
    }
}

pub proof fn lemma_pad(n: nat, w: nat)
    requires
        n < pow10(w),
    ensures
        all_digits(pad(n, w)),
        pad(n, w).len() == w,
        digits_value(pad(n, w)) == n,
    decreases w,
{
    if w > 0 {
        lemma_digit_char((n % 10) as int);
        lemma_pad(n / 10, (w - 1) as nat);
        let p = pad(n, w);
        assert(p.drop_last() =~= pad(n / 10, (w - 1) as nat));
        assert forall|i: int| 0 <= i < p.len() implies is_digit(#[trigger] p[i]) by {
            if i < p.len() - 1 {
                assert(p[i] == pad(n / 10, (w - 1) as nat)[i]);
            }
        }
    }
}

pub proof fn lemma_trim_zeros(s: Seq<char>)
    requires
        all_digits(s),
    ensures
        all_digits(trim_zeros(s)),
        trim_zeros(s).len() <= s.len(),
        trim_zeros(s) == s.subrange(0, trim_zeros(s).len() as int),
        digits_value(trim_zeros(s)) * pow10((s.len() - trim_zeros(s).len()) as nat)
            == digits_value(s),
    decreases s.len(),
{
    if s.len() > 0 && s.last() == '0' {
        let t = s.drop_last();
        lemma_trim_zeros(t);
        let k = trim_zeros(t).len();
        assert(t.subrange(0, k as int) =~= s.subrange(0, k as int));
        let a = digits_value(trim_zeros(t));
        let b = pow10((t.len() - k) as nat);
        assert(pow10((s.len() - k) as nat) == 10 * b);
        assert(a * (10 * b) == 10 * (a * b)) by (nonlinear_arith);
    } else {
        assert(s.subrange(0, s.len() as int) =~= s);
    }
}

/// `c` does not occur in `a`, so the first `c` in `a + b` is the first in `b`.
pub proof fn lemma_find_after(a: Seq<char>, b: Seq<char>, c: char)
    requires
        forall|i: int| 0 <= i < a.len() ==> a[i] != c,
    ensures
        find(a + b, c) == a.len() + find(b, c),
    decreases a.len(),
{
    if a.len() > 0 {
        lemma_find_after(a.drop_first(), b, c);
        assert((a + b).drop_first() =~= a.drop_first() + b);
    } else {
        assert(a + b =~= b);
    }
}

/// Rendering a number and parsing it back gives the number.
pub proof fn lemma_fixed_round_trip(v: int)
    requires
        -LIMIT <= v <= LIMIT,
    ensures
        fixed_of(fixed_text(v)) == Some(v),
{
    let m = abs(v);
    let w = (m / (SCALE as int)) as nat;
    let f = (m % (SCALE as int)) as nat;
    let whole = decimal(w);
    lemma_decimal(w);
    reveal_with_fuel(pow10, 7);
    let sign: Seq<char> = if v < 0 {
        seq!['-']
    } else {
        Seq::empty()
    };
    let tail: Seq<char> = if f == 0 {
        Seq::empty()
    } else {
        seq!['.'] + trim_zeros(pad(f, 6))
    };
    let s = fixed_text(v);
    assert(s =~= sign + (whole + tail));
    let body = s.subrange(sign_len(s), s.len() as int);
    lemma_digit_char(0);
    if v < 0 {
        assert(s[0] == '-');
        assert(body =~= whole + tail);
    } else {
        assert(s[0] == whole[0]);
        assert(body =~= whole + tail);
    }
    assert forall|i: int| 0 <= i < whole.len() implies whole[i] != '.' by {
        assert(is_digit(whole[i]));
    }
    lemma_find_after(whole, tail, '.');
    if f == 0 {
        assert(find(tail, '.') == 0);
        assert(body.subrange(0, find(body, '.')) =~= whole);
        assert(int_part(s) == whole);
        assert(frac_part(s) == Seq::<char>::empty());
        assert(digits_value(Seq::<char>::empty()) == 0);
    } else {
        lemma_pad(f, 6);
        lemma_trim_zeros(pad(f, 6));
        let fr = trim_zeros(pad(f, 6));
        assert(tail[0] == '.');
        assert(body.subrange(0, find(body, '.')) =~= whole);
        assert(body.subrange(find(body, '.') + 1, body.len() as int) =~= fr);
        assert(int_part(s) == whole);
        assert(frac_part(s) == fr);
    }
}

} // verus!
