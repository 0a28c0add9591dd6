//! Character-level helpers on strings: comparison, prefixes, decimal text,
//! and the integer part of a number written in decimal.
use vstd::prelude::*;
use vstd::string::*;

verus! {

/// The ASCII digit for `d` (taken modulo ten).
pub open spec fn digit_char(d: nat) -> char {
    ((d % 10) + 48) as char
}

/// Decimal representation of `n`, most significant digit first, no leading zeros.
pub open spec fn decimal(n: nat) -> Seq<char>
    decreases n,
{
    if n < 10 {
        seq![digit_char(n)]
    } else {
        decimal(n / 10) + seq![digit_char(n % 10)]
    }
}

/// True when `p` is a prefix of `s`.
pub open spec fn has_prefix(s: Seq<char>, p: Seq<char>) -> bool {
    p.len() <= s.len() && s.subrange(0, p.len() as int) == p
}

/// Compares two strings character by character.
pub fn str_eq(a: &str, b: &str) -> (r: bool)
    ensures
        r == (a@ == b@),
{
    let n = a.unicode_len();
    let m = b.unicode_len();
    if n != m {
        return false;
    }
    let mut i: usize = 0;
    while i < n
        invariant
            n == a@.len(),
            m == b@.len(),
            n == m,
            i <= n,
            forall|j: int| 0 <= j < i ==> a@[j] == b@[j],
        decreases n - i,
    {
        if a.get_char(i) != b.get_char(i) {
            return false;
        }
        i = i + 1;
    }
    assert(a@ =~= b@);
    true
}

/// Whether `s` begins with `p`.
pub fn starts_with(s: &str, p: &str) -> (r: bool)
    ensures
        r == has_prefix(s@, p@),
{
    let n = s.unicode_len();
    let m = p.unicode_len();
    if m > n {
        return false;
    }
    let mut i: usize = 0;
    while i < m
        invariant
            n == s@.len(),
            m == p@.len(),
            m <= n,
            i <= m,
            forall|j: int| 0 <= j < i ==> s@[j] == p@[j],
        decreases m - i,
    {
        if s.get_char(i) != p.get_char(i) {
            assert(s@.subrange(0, m as int)[i as int] != p@[i as int]);
            return false;
        }
        i = i + 1;
    }
    assert(s@.subrange(0, m as int) =~= p@);
    true
}

/// The one-character string holding the digit `d`.
fn digit_str(d: u64) -> (r: &'static str)
    requires
        d < 10,
    ensures
        r@ == seq![digit_char(d as nat)],
{
    proof {
        reveal_strlit("0");
        reveal_strlit("1");
        reveal_strlit("2");
        reveal_strlit("3");
        reveal_strlit("4");
        reveal_strlit("5");
        reveal_strlit("6");
        reveal_strlit("7");
        reveal_strlit("8");
        reveal_strlit("9");
    }
    let r = if d == 0 {
        "0"
    } else if d == 1 {
        "1"
    } else if d == 2 {
        "2"
    } else if d == 3 {
        "3"
    } else if d == 4 {
        "4"
    } else if d == 5 {
        "5"
    } else if d == 6 {
        "6"
    } else if d == 7 {
        "7"
    } else if d == 8 {
        "8"
    } else {
        "9"
    };
    assert(r@ =~= seq![digit_char(d as nat)]);
    r
}

/// Appends the digit `d` to `s`.
pub fn push_digit(s: &mut String, d: u64)
    requires
        d < 10,
    ensures
        final(s)@ == old(s)@ + seq![digit_char(d as nat)],
{
    s.append(digit_str(d));
}

/// Appends the decimal form of `n` to `s`.
pub fn push_decimal(s: &mut String, n: u64)
    ensures
        final(s)@ == old(s)@ + decimal(n as nat),
    decreases n,
{
    if n < 10 {
        s.append(digit_str(n));
    } else {
        push_decimal(s, n / 10);
        s.append(digit_str(n % 10));
        assert(final(s)@ =~= old(s)@ + decimal(n as nat));
    }
}

pub open spec fn is_digit(c: char) -> bool {
    '0' <= c <= '9'
}

pub open spec fn all_digits(s: Seq<char>) -> bool {
    forall|i: int| 0 <= i < s.len() ==> is_digit(#[trigger] s[i])
}

/// The number that a run of decimal digits writes.
pub open spec fn digits_value(s: Seq<char>) -> int
    decreases s.len(),
{
    if s.len() == 0 {
        0
    } else {
        digits_value(s.drop_last()) * 10 + (s.last() as int - '0' as int)
    }
}

/// The integer part of a number written `-?D+(.D+)?` with decimal digits D,
/// truncated toward zero; `None` for any other text.
pub open spec fn integer_part(t: Seq<char>) -> Option<int> {
    let neg = t.len() > 0 && t[0] == '-';
    let u = if neg { t.drop_first() } else { t };
    let k = first_non_digit(u);
    let whole = u.subrange(0, k);
    let rest = u.subrange(k, u.len() as int);
    let ok = k > 0 && (rest.len() == 0 || (rest[0] == '.' && rest.len() > 1 && all_digits(rest.drop_first())));
    if ok {
        Some(if neg { -digits_value(whole) } else { digits_value(whole) })
    } else {
        None
    }
}

/// Length of the run of digits that `s` begins with.
pub open spec fn first_non_digit(s: Seq<char>) -> int {
    if all_digits(s) {
        s.len() as int
    } else {
        choose|k: int| 0 <= k < s.len() && !is_digit(s[k]) && all_digits(s.subrange(0, k))
    }
}

proof fn lemma_digits_value_grows(s: Seq<char>, c: char)
    requires
        all_digits(s),
        is_digit(c),
    ensures
        digits_value(s.push(c)) == digits_value(s) * 10 + (c as int - '0' as int),
        digits_value(s) >= 0,
    decreases s.len(),
{
    assert(s.push(c).drop_last() =~= s);
    if s.len() > 0 {
        assert(all_digits(s.drop_last()));
        lemma_digits_value_grows(s.drop_last(), s.last());
        assert(s.drop_last().push(s.last()) =~= s);
    }
}

fn is_digit_char(c: char) -> (r: bool)
    ensures
        r == is_digit(c),
{
    '0' <= c && c <= '9'
}

/// Whether every character of `t` from position `from` on is a digit.
fn digits_from(t: &str, from: usize) -> (r: bool)
    requires
        from <= t@.len(),
    ensures
        r == all_digits(t@.subrange(from as int, t@.len() as int)),
{
    let n = t.unicode_len();
    let mut j: usize = from;
    while j < n
        invariant
            n == t@.len(),
            from <= j <= n,
            all_digits(t@.subrange(from as int, j as int)),
        decreases n - j,
    {
        if !is_digit_char(t.get_char(j)) {
            assert(t@.subrange(from as int, n as int)[j - from] == t@[j as int]);
            return false;
        }
        assert forall|m: int| 0 <= m < j + 1 - from implies is_digit(#[trigger] t@.subrange(from as int, j + 1)[m]) by {
            if m < j - from {
                assert(t@.subrange(from as int, j + 1)[m] == t@.subrange(from as int, j as int)[m]);
            }
        }
        j = j + 1;
    }
    true
}

/// `v` brought into the range of `i32` by taking the nearest bound.
pub open spec fn clamp_i32(v: int) -> i32 {
    if v < i32::MIN {
        i32::MIN
    } else if v > i32::MAX {
        i32::MAX
    } else {
        v as i32
    }
}

/// The integer part of a plain decimal number's text, clamped to `i32`.
pub fn integer_part_i32(t: &str) -> (r: Option<i32>)
    ensures
        r == match integer_part(t@) {
            Some(v) => Some(clamp_i32(v)),
            None => None::<i32>,
        },
{
    let n = t.unicode_len();
    let neg = n > 0 && t.get_char(0) == '-';
    let start: usize = if neg { 1 } else { 0 };
    let ghost u = if neg { t@.drop_first() } else { t@ };
    assert(u =~= t@.subrange(start as int, n as int));
    let mut i: usize = start;
    let mut acc: i64 = 0;
    let mut big = false;
    while i < n && is_digit_char(t.get_char(i))
        invariant
            n == t@.len(),
            start <= i <= n,
            u == t@.subrange(start as int, n as int),
            all_digits(t@.subrange(start as int, i as int)),
            !big ==> 0 <= acc <= 2147483648 && acc == digits_value(t@.subrange(start as int, i as int)),
            big ==> digits_value(t@.subrange(start as int, i as int)) > 2147483648,
        decreases n - i,
    {
        let c = t.get_char(i);
        let ghost before = t@.subrange(start as int, i as int);
        assert(t@.subrange(start as int, i + 1) =~= before.push(c));
        proof {
            lemma_digits_value_grows(before, c);
        }
        let d = (c as u32 - '0' as u32) as i64;
        if !big {
            let next = acc * 10 + d;
            if next > 2147483648 {
                big = true;
            } else {
                acc = next;
            }
        } else {
            assert(digits_value(before) * 10 + d >= digits_value(before)) by (nonlinear_arith)
                requires
                    digits_value(before) > 2147483648,
                    0 <= d,
            ;
        }
        i = i + 1;
    }
    let k = i - start;
    let ghost whole = t@.subrange(start as int, i as int);
    assert(u.subrange(0, k as int) =~= whole);
    proof {
        if i < n {
            assert(!is_digit(u[k as int]));
            assert(all_digits(u.subrange(0, k as int)));
            assert(exists|j: int| 0 <= j < u.len() && !is_digit(u[j]) && all_digits(u.subrange(0, j)));
            let j = choose|j: int| 0 <= j < u.len() && !is_digit(u[j]) && all_digits(u.subrange(0, j));
            if j < k {
                assert(u.subrange(0, k as int)[j] == u[j]);
            } else if j > k {
                assert(u.subrange(0, j)[k as int] == u[k as int]);
            }
            assert(first_non_digit(u) == k);
        } else {
            assert(all_digits(u));
            assert(first_non_digit(u) == k);
        }
    }
    let ghost rest = u.subrange(k as int, u.len() as int);
    assert(rest.len() == n - i);
    assert forall|m: int| 0 <= m < rest.len() implies #[trigger] rest[m] == t@[i + m] by {
        assert(rest[m] == u[k + m]);
        assert(u[k + m] == t@[start + k + m]);
    }
    if k == 0 {
        return None;
    }
    if i < n {
        if t.get_char(i) != '.' || i + 1 >= n {
            return None;
        }
        assert(rest[0] == t@[i + 0]);
        assert(rest.drop_first() =~= t@.subrange(i + 1, n as int));
        if !digits_from(t, i + 1) {
            return None;
        }
    }
    if big {
        return if neg { Some(i32::MIN) } else { Some(i32::MAX) };
    }
    if neg {
        Some((-acc) as i32)
    } else if acc <= 2147483647 {
        Some(acc as i32)
    } else {
        Some(i32::MAX)
    }
}

} // verus!
