//! Decimal numbers as they stand in file names.

use vstd::prelude::*;
use vstd::string::StringExecFns;

verus! {

/// Whether `c` is one of the ten digits `0` to `9`.
pub open spec fn is_digit(c: char) -> bool {
    '0' <= c <= '9'
}

/// The value of a digit.
pub open spec fn digit_value(c: char) -> int {
    c as int - '0' as int
}

/// The digit that writes `d`, for `d` from 0 to 9.
pub open spec fn digit_char(d: int) -> char {
    if d == 0 {
        '0'
    } else if d == 1 {
        '1'
    } else if d == 2 {
        '2'
    } else if d == 3 {
        '3'
    } else if d == 4 {
        '4'
    } else if d == 5 {
        '5'
    } else if d == 6 {
        '6'
    } else if d == 7 {
        '7'
    } else if d == 8 {
        '8'
    } else {
        '9'
    }
}

/// Whether `s` holds digits only.
pub open spec fn all_digits(s: Seq<char>) -> bool {
    forall|i: int| 0 <= i < s.len() ==> is_digit(#[trigger] s[i])
}

/// The number that the digits `s` write in base ten; 0 for no digits.
pub open spec fn number(s: Seq<char>) -> int
    decreases s.len(),
{
    if s.len() == 0 {
        0
    } else {
        number(s.drop_last()) * 10 + digit_value(s.last())
    }
}

/// `n` written in base ten without leading zeros; the single digit `0` for 0.
pub open spec fn numeral(n: nat) -> Seq<char>
    decreases n,
{
    if n < 10 {
        seq![digit_char(n as int)]
    } else {
        numeral(n / 10).push(digit_char((n % 10) as int))
    }
}

/// `n` written with exactly `width` digits, zeros in front; the last
/// `width` digits of `n` where it has more.
pub open spec fn padded(n: nat, width: nat) -> Seq<char>
    decreases width,
{
    if width == 0 {
        Seq::empty()
    } else {
        padded(n / 10, (width - 1) as nat).push(digit_char((n % 10) as int))
    }
}

/// The digit of a value from 0 to 9 has that value.
pub proof fn lemma_digit_char(d: int)
    requires
        0 <= d <= 9,
    ensures
        is_digit(digit_char(d)),
        digit_value(digit_char(d)) == d,
{
}

/// A numeral is made of digits, at least one, and writes its number.
pub proof fn lemma_numeral(n: nat)
    ensures
        numeral(n).len() >= 1,
        all_digits(numeral(n)),
        number(numeral(n)) == n,
    decreases n,
{
    if n < 10 {
        lemma_digit_char(n as int);
        let s = numeral(n);
        assert(s.drop_last() =~= Seq::<char>::empty());
        assert(number(s.drop_last()) == 0);
    } else {
        lemma_numeral(n / 10);
        lemma_digit_char((n % 10) as int);
        let s = numeral(n);
        assert(s.drop_last() =~= numeral(n / 10));
    }
}

/// A padded number is made of `width` digits and writes its number, where
/// the number fits into `width` digits.
pub proof fn lemma_padded(n: nat, width: nat, limit: nat)
    requires
        limit == pow10(width),
        n < limit,
    ensures
        padded(n, width).len() == width,
        all_digits(padded(n, width)),
        number(padded(n, width)) == n,
    decreases width,
{
    if width > 0 {
        lemma_padded(n / 10, (width - 1) as nat, pow10((width - 1) as nat));
        lemma_digit_char((n % 10) as int);
        let s = padded(n, width);
        assert(s.drop_last() =~= padded(n / 10, (width - 1) as nat));
    } else {
        assert(padded(n, width) =~= Seq::<char>::empty());
    }
}

/// Ten to the power `width`.
pub open spec fn pow10(width: nat) -> nat
    decreases width,
{
    if width == 0 {
        1
    } else {
        10 * pow10((width - 1) as nat)
    }
}

/// Digits written after a number do not make it smaller.
pub proof fn lemma_number_grows(s: Seq<char>, n: int)
    requires
        all_digits(s),
        0 <= n <= s.len(),
    ensures
        0 <= number(s.take(n)) <= number(s),
    decreases s.len() - n,
{
    lemma_number_nonnegative(s.take(n));
    if n < s.len() {
        lemma_number_grows(s, n + 1);
        let longer = s.take(n + 1);
        assert(longer.drop_last() =~= s.take(n));
        assert(is_digit(s[n]));
    } else {
        assert(s.take(n) =~= s);
    }
}

/// Digits write a number that is not negative.
pub proof fn lemma_number_nonnegative(s: Seq<char>)
    requires
        all_digits(s),
    ensures
        0 <= number(s),
    decreases s.len(),
{
    if s.len() > 0 {
        lemma_number_nonnegative(s.drop_last());
        assert(is_digit(s.last()));
    }
}

/// Ten to a higher power is not smaller.
pub proof fn lemma_pow10_grows(a: nat, b: nat)
    requires
        a <= b,
    ensures
        1 <= pow10(a) <= pow10(b),
    decreases b,
{
    if a < b {
        lemma_pow10_grows(a, (b - 1) as nat);
    } else if a > 0 {
        lemma_pow10_grows((a - 1) as nat, (b - 1) as nat);
    }
}

/// As many digits as `limit` has zeros write a number below `limit`.
pub proof fn lemma_digits_below(s: Seq<char>, limit: nat)
    requires
        all_digits(s),
        limit == pow10(s.len()),
    ensures
        0 <= number(s) < limit,
    decreases s.len(),
{
    if s.len() > 0 {
        lemma_digits_below(s.drop_last(), pow10((s.len() - 1) as nat));
        assert(is_digit(s.last()));
    }
}

/// Digits that do not start with a zero write a number of their full
/// length: at least ten to the power of one less than their count.
pub proof fn lemma_digits_at_least(s: Seq<char>)
    requires
        all_digits(s),
        s.len() >= 1,
        s[0] != '0',
    ensures
        number(s) >= pow10((s.len() - 1) as nat),
    decreases s.len(),
{
    assert(is_digit(s.last()));
    assert(is_digit(s[0]));
    if s.len() == 1 {
        assert(s.drop_last().len() == 0);
        assert(number(s.drop_last()) == 0);
    } else {
        assert(s.drop_last()[0] == s[0]);
        lemma_digits_at_least(s.drop_last());
    }
}

/// A zero in front changes nothing of the number.
pub proof fn lemma_leading_zero(s: Seq<char>)
    requires
        s.len() >= 1,
        s[0] == '0',
    ensures
        number(s) == number(s.skip(1)),
    decreases s.len(),
{
    if s.len() == 1 {
        assert(s.drop_last().len() == 0);
        assert(s.skip(1).len() == 0);
        assert(number(s.drop_last()) == 0);
        assert(number(s.skip(1)) == 0);
        assert(s.last() == '0');
    } else {
        assert(s.drop_last()[0] == '0');
        lemma_leading_zero(s.drop_last());
        assert(s.skip(1).drop_last() =~= s.drop_last().skip(1));
        assert(s.skip(1).last() == s.last());
    }
}

/// Of two numbers written without a zero in front, the one with more digits
/// is the larger.
pub proof fn lemma_longer_is_larger(a: Seq<char>, b: Seq<char>)
    requires
        all_digits(a),
        all_digits(b),
        a.len() > b.len(),
        a[0] != '0',
    ensures
        number(a) > number(b),
{
    lemma_digits_at_least(a);
    lemma_digits_below(b, pow10(b.len()));
    lemma_pow10_grows(b.len(), (a.len() - 1) as nat);
}

/// Of two numbers written with equally many digits, the one that is larger
/// in its first `k` digits is the larger.
pub proof fn lemma_front_decides(a: Seq<char>, b: Seq<char>, k: int)
    requires
        all_digits(a),
        all_digits(b),
        a.len() == b.len(),
        0 <= k <= a.len(),
        number(a.take(k)) > number(b.take(k)),
    ensures
        number(a) > number(b),
    decreases a.len() - k,
{
    if k < a.len() {
        assert(a.take(k + 1).drop_last() =~= a.take(k));
        assert(b.take(k + 1).drop_last() =~= b.take(k));
        assert(is_digit(a[k]) && is_digit(b[k]));
        assert(a.take(k + 1).last() == a[k] && b.take(k + 1).last() == b[k]);
        lemma_front_decides(a, b, k + 1);
    } else {
        assert(a.take(k) =~= a);
        assert(b.take(k) =~= b);
    }
}

/// The place of the first digit from `from` on that is not a zero, or the
/// end where only zeros follow. The digits from there on write the same
/// number.
pub(crate) fn skip_zeros(chars: &Vec<char>, from: usize) -> (r: usize)
    requires
        from <= chars.len(),
    ensures
        from <= r <= chars.len(),
        forall|m: int| from <= m < r ==> chars@[m] == '0',
        r < chars.len() ==> chars@[r as int] != '0',
        number(chars@.skip(r as int)) == number(chars@.skip(from as int)),
{
    let mut i: usize = from;
    while i < chars.len() && chars[i] == '0'
        invariant
            from <= i <= chars.len(),
            forall|m: int| from <= m < i ==> chars@[m] == '0',
            number(chars@.skip(i as int)) == number(chars@.skip(from as int)),
        decreases chars.len() - i,
    {
        proof {
            let rest = chars@.skip(i as int);
            assert(rest[0] == '0');
            lemma_leading_zero(rest);
            assert(rest.skip(1) =~= chars@.skip(i + 1));
        }
        i += 1;
    }
    i
}

/// Whether the digits of `a` from `a_from` on write a larger number than the
/// digits of `b` from `b_from` on, however many digits there are.
pub(crate) fn number_is_larger(a: &Vec<char>, a_from: usize, b: &Vec<char>, b_from: usize) -> (r: bool)
    requires
        a_from <= a.len(),
        b_from <= b.len(),
        all_digits(a@.skip(a_from as int)),
        all_digits(b@.skip(b_from as int)),
    ensures
        r == (number(a@.skip(a_from as int)) > number(b@.skip(b_from as int))),
{
    let i = skip_zeros(a, a_from);
    let j = skip_zeros(b, b_from);
    let ghost x = a@.skip(i as int);
    let ghost y = b@.skip(j as int);
    proof {
        assert forall|m: int| 0 <= m < x.len() implies is_digit(#[trigger] x[m]) by {
            assert(x[m] == a@.skip(a_from as int)[m + i - a_from]);
        }
        assert forall|m: int| 0 <= m < y.len() implies is_digit(#[trigger] y[m]) by {
            assert(y[m] == b@.skip(b_from as int)[m + j - b_from]);
        }
    }
    let count: usize = a.len() - i;
    if count != b.len() - j {
        proof {
            if x.len() > y.len() {
                lemma_longer_is_larger(x, y);
            } else {
                lemma_longer_is_larger(y, x);
            }
        }
        return count > b.len() - j;
    }
    let mut k: usize = 0;
    while k < count
        invariant
            k <= count,
            count == a.len() - i,
            count == b.len() - j,
            i <= a.len(),
            j <= b.len(),
            x == a@.skip(i as int),
            y == b@.skip(j as int),
            all_digits(x),
            all_digits(y),
            number(x) == number(a@.skip(a_from as int)),
            number(y) == number(b@.skip(b_from as int)),
            forall|m: int| 0 <= m < k ==> x[m] == y[m],
        decreases count - k,
    {
        let c = a[i + k];
        let d = b[j + k];
        if c != d {
            proof {
                assert(x[k as int] == c && y[k as int] == d);
                assert(is_digit(x[k as int]) && is_digit(y[k as int]));
                assert(x.take(k as int) =~= y.take(k as int));
                assert(x.take(k + 1).drop_last() =~= x.take(k as int));
                assert(y.take(k + 1).drop_last() =~= y.take(k as int));
                assert(x.take(k + 1).last() == c && y.take(k + 1).last() == d);
                if c > d {
                    lemma_front_decides(x, y, k + 1);
                } else {
                    lemma_front_decides(y, x, k + 1);
                }
            }
            return c > d;
        }
        k += 1;
    }
    proof {
        assert(x =~= y);
    }
    false
}

/// Whether `chars` holds digits only from place `from` up to, not
/// including, `to`.
pub(crate) fn digits_between(chars: &Vec<char>, from: usize, to: usize) -> (r: bool)
    requires
        from <= to <= chars.len(),
    ensures
        r == all_digits(chars@.subrange(from as int, to as int)),
{
    let mut i: usize = from;
    while i < to
        invariant
            from <= i <= to <= chars.len(),
            forall|j: int| from <= j < i ==> is_digit(#[trigger] chars@[j]),
        decreases to - i,
    {
        let c = chars[i];
        if !(c >= '0' && c <= '9') {
            proof {
                let part = chars@.subrange(from as int, to as int);
                assert(part[i - from] == chars@[i as int]);
            }
            return false;
        }
        i += 1;
    }
    proof {
        let part = chars@.subrange(from as int, to as int);
        assert forall|j: int| 0 <= j < part.len() implies is_digit(#[trigger] part[j]) by {
            assert(part[j] == chars@[from + j]);
        }
    }
    true
}

/// The number that the digits of `chars` from place `from` up to, not
/// including, `to` write, where it fits into 32 bits.
pub(crate) fn number_between(chars: &Vec<char>, from: usize, to: usize) -> (r: Option<u32>)
    requires
        from <= to <= chars.len(),
        all_digits(chars@.subrange(from as int, to as int)),
    ensures
        r is Some <==> number(chars@.subrange(from as int, to as int)) <= u32::MAX,
        r matches Some(n) ==> n == number(chars@.subrange(from as int, to as int)),
{
    let ghost part = chars@.subrange(from as int, to as int);
    let mut value: u32 = 0;
    let mut i: usize = from;
    proof {
        assert(part.take(0) =~= Seq::<char>::empty());
    }
    while i < to
        invariant
            from <= i <= to <= chars.len(),
            part == chars@.subrange(from as int, to as int),
            all_digits(part),
            value == number(part.take(i - from)),
        decreases to - i,
    {
        let c = chars[i];
        proof {
            let longer = part.take(i - from + 1);
            assert(longer.drop_last() =~= part.take(i - from));
            assert(longer.last() == c);
            assert(is_digit(part[i - from]));
            lemma_number_grows(part, i - from + 1);
        }
        let digit: u32 = c as u32 - '0' as u32;
        let tens: u32 = match value.checked_mul(10) {
            Some(tens) => tens,
            None => {
                return None;
            },
        };
        value = match tens.checked_add(digit) {
            Some(sum) => sum,
            None => {
                return None;
            },
        };
        i += 1;
    }
    proof {
        assert(part.take(to - from) =~= part);
    }
    Some(value)
}

/// The digit that writes `d`, as a string.
pub(crate) fn digit_str(d: u32) -> (r: &'static str)
    requires
        d <= 9,
    ensures
        r@ == seq![digit_char(d as int)],
{
    proof {
        reveal_strlit("0");
        reveal_strlit("1");
        reveal_strlit("2");
        reveal_strlit("3");
        reveal_strlit("4");
        reveal_strlit("5");
        reveal_strlit("6");
        reveal_strlit("7");
        reveal_strlit("8");
        reveal_strlit("9");
    }
    let r = if d == 0 {
        "0"
    } else if d == 1 {
        "1"
    } else if d == 2 {
        "2"
    } else if d == 3 {
        "3"
    } else if d == 4 {
        "4"
    } else if d == 5 {
        "5"
    } else if d == 6 {
        "6"
    } else if d == 7 {
        "7"
    } else if d == 8 {
        "8"
    } else {
        "9"
    };
    assert(r@ =~= seq![digit_char(d as int)]);
    r
}

/// Writes `n` after `out` with exactly `width` digits.
pub(crate) fn append_padded(out: &mut String, n: u32, width: u32)
    ensures
        final(out)@ == old(out)@ + padded(n as nat, width as nat),
    decreases width,
{
    if width > 0 {
        append_padded(out, n / 10, width - 1);
        out.append(digit_str(n % 10));
        assert(out@ =~= old(out)@ + padded(n as nat, width as nat));
    } else {
        assert(out@ =~= old(out)@ + padded(n as nat, width as nat));
    }
}

/// Writes `n` after `out` without leading zeros.
pub(crate) fn append_numeral(out: &mut String, n: u32)
    ensures
        final(out)@ == old(out)@ + numeral(n as nat),
    decreases n,
{
    if n >= 10 {
        append_numeral(out, n / 10);
    }
    out.append(digit_str(n % 10));
    assert(out@ =~= old(out)@ + numeral(n as nat));
}

} // verus!
