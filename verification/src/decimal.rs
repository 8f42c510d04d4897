//! Decimal notation: writing integers and reading unsigned ones back.
use vstd::prelude::*;
use vstd::string::*;

verus! {

/// The decimal digit `d`.
pub open spec fn digit(d: nat) -> char {
    (48 + d) as char
}

/// Whether `c` is one of `0` to `9`.
pub open spec fn is_digit(c: char) -> bool {
    '0' <= c <= '9'
}

/// The number that the digit `c` stands for.
pub open spec fn digit_value(c: char) -> nat {
    (c as int - 48) as nat
}

/// `n` in decimal, without leading zeros.
pub open spec fn decimal(n: nat) -> Seq<char>
    decreases n,
{
    if n < 10 {
        seq![digit(n)]
    } else {
        decimal(n / 10).push(digit(n % 10))
    }
}

/// `i` in decimal, with a minus sign in front when it is negative.
pub open spec fn signed_decimal(i: int) -> Seq<char> {
    if i < 0 {
        seq!['-'] + decimal((-i) as nat)
    } else {
        decimal(i as nat)
    }
}

/// The number that a sequence of digits stands for, read from the most significant digit.
pub open spec fn digits_value(s: Seq<char>) -> nat
    decreases s.len(),
{
    if s.len() == 0 {
        0
    } else {
        digits_value(s.drop_last()) * 10 + digit_value(s.last())
    }
}

/// Whether `s` is a non-empty run of digits.
pub open spec fn is_digits(s: Seq<char>) -> bool {
    s.len() > 0 && forall|i: int| 0 <= i < s.len() ==> is_digit(#[trigger] s[i])
}

/// `s` without one leading plus sign.
pub open spec fn strip_plus(s: Seq<char>) -> Seq<char> {
    if s.len() > 0 && s[0] == '+' {
        s.skip(1)
    } else {
        s
    }
}

/// The `u64` that `s` denotes: an optional plus sign, then only digits, in range.
pub open spec fn u64_of(s: Seq<char>) -> Option<u64> {
    if is_digits(strip_plus(s)) && digits_value(strip_plus(s)) <= u64::MAX {
        Some(digits_value(strip_plus(s)) as u64)
    } else {
        None
    }
}

/// Decimal notation consists of digits and denotes the number it was made from.
pub proof fn law_decimal_reads_back(n: nat)
    ensures
        is_digits(decimal(n)),
        digits_value(decimal(n)) == n,
    decreases n,
{
    reveal_with_fuel(digits_value, 2);
    if n >= 10 {
        law_decimal_reads_back(n / 10);
        assert(decimal(n).drop_last() =~= decimal(n / 10));
    } else {
        assert(decimal(n).drop_last() =~= Seq::<char>::empty());
    }
}

/// A `u64` written in decimal is read back as itself.
pub proof fn law_u64_round_trip(n: u64)
    ensures
        u64_of(decimal(n as nat)) == Some(n),
{
    law_decimal_reads_back(n as nat);
    assert(is_digit(decimal(n as nat)[0]));
    assert(strip_plus(decimal(n as nat)) == decimal(n as nat));
}

/// Dropping digits from the end of a number does not make it larger.
proof fn lemma_prefix_value(s: Seq<char>, k: int)
    requires
        0 <= k <= s.len(),
    ensures
        digits_value(s.take(k)) <= digits_value(s),
    decreases s.len(),
{
    if k == s.len() {
        assert(s.take(k) =~= s);
    } else {
        lemma_prefix_value(s.drop_last(), k);
        assert(s.drop_last().take(k) =~= s.take(k));
    }
}

/// The one-character text of a digit.
fn digit_text(d: u64) -> (r: &'static str)
    requires
        d < 10,
    ensures
        r@ == seq![digit(d as nat)],
{
    proof {
        reveal_strlit("0");
        reveal_strlit("1");
        reveal_strlit("2");
        reveal_strlit("3");
        reveal_strlit("4");
        reveal_strlit("5");
        reveal_strlit("6");
        reveal_strlit("7");
        reveal_strlit("8");
        reveal_strlit("9");
    }
    if d == 0 {
        "0"
    } else if d == 1 {
        "1"
    } else if d == 2 {
        "2"
    } else if d == 3 {
        "3"
    } else if d == 4 {
        "4"
    } else if d == 5 {
        "5"
    } else if d == 6 {
        "6"
    } else if d == 7 {
        "7"
    } else if d == 8 {
        "8"
    } else {
        "9"
    }
}

/// Writes `n` in decimal.
pub fn write_u64(n: u64) -> (r: String)
    ensures
        r@ == decimal(n as nat),
    decreases n,
{
    if n < 10 {
        digit_text(n).to_owned()
    } else {
        let mut r = write_u64(n / 10);
        r.append(digit_text(n % 10));
        r
    }
}

/// Writes `i` in decimal.
pub fn write_i64(i: i64) -> (r: String)
    ensures
        r@ == signed_decimal(i as int),
{
    if i < 0 {
        proof {
            reveal_strlit("-");
        }
        let magnitude: u64 = (-(i + 1)) as u64 + 1;
        let mut r = "-".to_owned();
        r.append(write_u64(magnitude).as_str());
        r
    } else {
        write_u64(i as u64)
    }
}

/// Reads the characters of `v` from `lo` up to `hi` as an unsigned number.
pub fn read_u64(v: &Vec<char>, lo: usize, hi: usize) -> (r: Option<u64>)
    requires
        lo <= hi <= v@.len(),
    ensures
        r == u64_of(v@.subrange(lo as int, hi as int)),
{
    let ghost part = v@.subrange(lo as int, hi as int);
    let start: usize = if lo < hi && v[lo] == '+' {
        lo + 1
    } else {
        lo
    };
    let ghost s = strip_plus(part);
    assert(s =~= v@.subrange(start as int, hi as int));
    if start == hi {
        return None;
    }
    let mut acc: u64 = 0;
    let mut i: usize = start;
    while i < hi
        invariant
            lo <= start <= i <= hi <= v@.len(),
            part == v@.subrange(lo as int, hi as int),
            s == strip_plus(part),
            s == v@.subrange(start as int, hi as int),
            acc == digits_value(s.take(i - start)),
            forall|j: int| 0 <= j < i - start ==> is_digit(#[trigger] s[j]),
        decreases hi - i,
    {
        let c = v[i];
        assert(c == s[i - start]);
        if c < '0' || c > '9' {
            return None;
        }
        let d: u64 = c as u64 - 48;
        proof {
            assert(s.take(i - start + 1).drop_last() =~= s.take(i - start));
            lemma_prefix_value(s, i - start + 1);
        }
        if acc > (u64::MAX - d) / 10 {
            return None;
        }
        acc = acc * 10 + d;
        i += 1;
    }
    assert(s.take(hi - start) =~= s);
    Some(acc)
}

/// Decimal notation has no leading zero: only 0 itself starts with one.
pub proof fn law_decimal_has_no_leading_zero(n: nat)
    ensures
        decimal(n).len() > 0,
        decimal(n)[0] == '0' <==> n == 0,
        n < 10 ==> decimal(n).len() == 1,
    decreases n,
{
    if n >= 10 {
        law_decimal_has_no_leading_zero(n / 10);
        assert(decimal(n)[0] == decimal(n / 10)[0]);
    }
}

/// Each digit that is appended to a number counts as one more unit behind ten times the rest.
pub proof fn law_digits_count_by_ten(s: Seq<char>, c: char)
    requires
        '0' <= c <= '9',
    ensures
        digits_value(Seq::<char>::empty()) == 0,
        digits_value(s.push(c)) == 10 * digits_value(s) + (c as int - '0' as int),
{
    assert(s.push(c).drop_last() =~= s);
}

/// A negative number is written as a minus sign and the number without it; any other number is
/// written without a sign.
pub proof fn law_only_negative_numbers_have_a_sign(n: nat)
    ensures
        signed_decimal(n as int) == decimal(n),
        n > 0 ==> signed_decimal(-(n as int)) == seq!['-'] + decimal(n),
{
}

/// Text is read as a number exactly when it is a run of digits, perhaps behind one plus sign, and
/// the number that these digits stand for fits 64 bits; that number is what is read.
pub proof fn law_numbers_are_read_as_written(s: Seq<char>, n: u64)
    ensures
        u64_of(s) == Some(n) <==> exists|t: Seq<char>|
            (s == t || s == seq!['+'] + t) && t.len() > 0 && (forall|i: int|
                0 <= i < t.len() ==> '0' <= #[trigger] t[i] && t[i] <= '9') && #[trigger]
            digits_value(t) == n,
{
    let t = strip_plus(s);
    if u64_of(s) == Some(n) {
        if s.len() > 0 && s[0] == '+' {
            assert(s =~= seq!['+'] + t);
        }
        assert forall|i: int| 0 <= i < t.len() implies '0' <= #[trigger] t[i] && t[i] <= '9' by {
            assert(is_digit(t[i]));
        }
        assert(digits_value(t) == n);
    }
    if exists|t: Seq<char>|
        (s == t || s == seq!['+'] + t) && t.len() > 0 && (forall|i: int|
            0 <= i < t.len() ==> '0' <= #[trigger] t[i] && t[i] <= '9') && #[trigger]
        digits_value(t) == n {
        let u = choose|t: Seq<char>|
            (s == t || s == seq!['+'] + t) && t.len() > 0 && (forall|i: int|
                0 <= i < t.len() ==> '0' <= #[trigger] t[i] && t[i] <= '9') && #[trigger]
            digits_value(t) == n;
        if s == u {
            assert(u[0] != '+');
        } else {
            assert(s.skip(1) =~= u);
        }
        assert(strip_plus(s) == u);
        assert forall|i: int| 0 <= i < u.len() implies is_digit(#[trigger] u[i]) by {}
    }
}

} // verus!
