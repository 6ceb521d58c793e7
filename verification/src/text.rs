//! Characters and numbers in text: whitespace, decimal numerals.

use vstd::prelude::*;
use vstd::arithmetic::power::pow;

verus! {

/// Does `c` have the Unicode `White_Space` property? This is the set of characters
/// that `char::is_whitespace` accepts, and so the separators of `str::split_whitespace`.
pub open spec fn is_whitespace(c: char) -> bool {
    let u = c as u32;
    ||| 0x9 <= u <= 0xd
    ||| u == 0x20
    ||| u == 0x85
    ||| u == 0xa0
    ||| u == 0x1680
    ||| 0x2000 <= u <= 0x200a
    ||| u == 0x2028
    ||| u == 0x2029
    ||| u == 0x202f
    ||| u == 0x205f
    ||| u == 0x3000
}

/// Is `c` one of the ASCII digits `0` to `9`?
pub open spec fn is_digit(c: char) -> bool {
    48 <= (c as u32) <= 57
}

/// The value of an ASCII digit.
pub open spec fn digit_value(c: char) -> int {
    (c as u32) - 48
}

/// The ASCII digit that writes `d`, for `d < 10`.
pub open spec fn digit_char(d: nat) -> char {
    (48 + d) as char
}

/// The value of a string of decimal digits, most significant first.
pub open spec fn digits_value(s: Seq<char>) -> int
    decreases s.len(),
{
    if s.len() == 0 {
        0
    } else {
        digits_value(s.drop_last()) * 10 + digit_value(s.last())
    }
}

/// The shortest decimal numeral of `n`, without sign or leading zeros.
pub open spec fn decimal(n: nat) -> Seq<char>
    decreases n,
{
    if n < 10 {
        seq![digit_char(n)]
    } else {
        decimal(n / 10).push(digit_char(n % 10))
    }
}

/// Does the numeral `s` start with a sign?
pub open spec fn has_sign(s: Seq<char>) -> bool {
    s.len() > 0 && (s[0] == '-' || s[0] == '+')
}

/// The digits of the numeral `s`: what follows its sign, if it has one.
pub open spec fn numeral_digits(s: Seq<char>) -> Seq<char> {
    if has_sign(s) {
        s.skip(1)
    } else {
        s
    }
}

/// Are all characters of `s` ASCII digits?
pub open spec fn all_digits(s: Seq<char>) -> bool {
    forall|i: int| 0 <= i < s.len() ==> is_digit(#[trigger] s[i])
}

/// The value that the numeral `s` writes, sign included.
pub open spec fn numeral_value(s: Seq<char>) -> int {
    if s.len() > 0 && s[0] == '-' {
        -digits_value(numeral_digits(s))
    } else {
        digits_value(numeral_digits(s))
    }
}

/// What `str::parse::<i32>` gives for the text `s`: an optional `+` or `-` sign,
/// then at least one ASCII digit and nothing else, with a value that fits in `i32`.
pub open spec fn parse_i32_spec(s: Seq<char>) -> Option<i32> {
    if numeral_digits(s).len() == 0 || !all_digits(numeral_digits(s)) {
        None
    } else if i32::MIN <= numeral_value(s) <= i32::MAX {
        Some(numeral_value(s) as i32)
    } else {
        None
    }
}

/// The numeral of `n` is a non-empty string of digits whose value is `n`.
pub proof fn lemma_decimal(n: nat)
    ensures
        decimal(n).len() >= 1,
        all_digits(decimal(n)),
        digits_value(decimal(n)) == n,
    decreases n,
{
    let d = digit_char(n % 10);
    assert((48 + n % 10) as char as u32 == 48 + n % 10);
    assert(is_digit(d) && digit_value(d) == n % 10);
    if n >= 10 {
        lemma_decimal(n / 10);
        let s = decimal(n);
        assert(s.drop_last() =~= decimal(n / 10));
        assert(s.last() == d);
        assert(digits_value(s) == digits_value(decimal(n / 10)) * 10 + digit_value(d));
        assert((n / 10) * 10 + n % 10 == n) by (nonlinear_arith);
        assert forall|i: int| 0 <= i < s.len() implies is_digit(#[trigger] s[i]) by {
            if i < s.len() - 1 {
                assert(s[i] == decimal(n / 10)[i]);
            }
        }
    } else {
        let s = decimal(n);
        assert(s.drop_last() =~= seq![]);
        assert(s.last() == d);
        assert(digits_value(s) == digits_value(s.drop_last()) * 10 + digit_value(d));
    }
}

/// Reading back a written numeral: `str::parse::<i32>` gives `n` again for the
/// decimal numeral of every `n` that fits in `i32`.
pub proof fn law_decimal_parses_back(n: nat)
    requires
        n <= i32::MAX,
    ensures
        parse_i32_spec(decimal(n)) == Some(n as i32),
{
    lemma_decimal(n);
    let s = decimal(n);
    assert(is_digit(s[0]));
    assert(!has_sign(s));
    assert(numeral_digits(s) == s);
}

/// The value of a string of digits read from its first (most significant) digit:
/// the first digit times ten to the number of digits after it, plus the value of
/// the rest.
pub open spec fn positional_value(s: Seq<char>) -> int
    decreases s.len(),
{
    if s.len() == 0 {
        0
    } else {
        digit_value(s[0]) * pow(10, (s.len() - 1) as nat) + positional_value(s.skip(1))
    }
}

proof fn lemma_positional_push(s: Seq<char>, c: char)
    ensures
        positional_value(s.push(c)) == positional_value(s) * 10 + digit_value(c),
    decreases s.len(),
{
    reveal(pow);
    if s.len() == 0 {
        assert(s.push(c).skip(1) =~= Seq::<char>::empty());
        assert(s.push(c)[0] == c);
        assert(pow(10, 0) == 1);
        assert(positional_value(Seq::<char>::empty()) == 0);
        assert(positional_value(s) == 0);
        assert(positional_value(s.push(c)) == digit_value(c) * pow(10, 0) + positional_value(
            s.push(c).skip(1),
        ));
    } else {
        let t = s.push(c);
        assert(t.skip(1) =~= s.skip(1).push(c));
        lemma_positional_push(s.skip(1), c);
        assert(t[0] == s[0]);
        let e = (s.len() - 1) as nat;
        assert(pow(10, e + 1) == 10 * pow(10, e));
        let a = digit_value(s[0]);
        let p0 = pow(10, e);
        let p1 = pow(10, e + 1);
        let r = positional_value(s.skip(1));
        assert(positional_value(s) == a * p0 + r);
        assert(positional_value(t) == a * p1 + (r * 10 + digit_value(c)));
        assert(a * p1 + (r * 10 + digit_value(c)) == (a * p0 + r) * 10 + digit_value(c))
            by (nonlinear_arith)
            requires
                p1 == 10 * p0,
        ;
    }
}

/// Numerals are positional: the value of a string of digits is the sum of each
/// digit times ten to the number of digits after it, so the first digit is the
/// most significant.
pub proof fn law_digits_positional(s: Seq<char>)
    ensures
        digits_value(s) == positional_value(s),
    decreases s.len(),
{
    if s.len() > 0 {
        law_digits_positional(s.drop_last());
        lemma_positional_push(s.drop_last(), s.last());
        assert(s.drop_last().push(s.last()) =~= s);
    }
}

/// Is `c` a whitespace character, in the sense of [`is_whitespace`]?
pub fn char_is_whitespace(c: char) -> (b: bool)
    ensures
        b == is_whitespace(c),
{
    let u: u32 = c as u32;
    (0x9 <= u && u <= 0xd) || u == 0x20 || u == 0x85 || u == 0xa0 || u == 0x1680 || (0x2000 <= u
        && u <= 0x200a) || u == 0x2028 || u == 0x2029 || u == 0x202f || u == 0x205f || u == 0x3000
}

proof fn lemma_digits_value_nonneg(s: Seq<char>)
    requires
        forall|i: int| 0 <= i < s.len() ==> is_digit(#[trigger] s[i]),
    ensures
        digits_value(s) >= 0,
    decreases s.len(),
{
    if s.len() > 0 {
        assert(is_digit(s[s.len() - 1]));
        lemma_digits_value_nonneg(s.drop_last());
    }
}

/// Parse the first `end` characters of `word` as `str::parse::<i32>` does:
/// `None` exactly where that parse fails.
pub fn parse_i32(word: &[char], end: usize) -> (r: Option<i32>)
    requires
        end <= word@.len(),
    ensures
        r == parse_i32_spec(word@.take(end as int)),
{
    let ghost s = word@.take(end as int);
    let mut neg = false;
    let mut start: usize = 0;
    if end > 0 && (word[0] == '-' || word[0] == '+') {
        neg = word[0] == '-';
        start = 1;
    }
    let ghost body = s.skip(start as int);
    assert(body =~= numeral_digits(s));
    if start == end {
        return None;
    }
    // magnitude of the digits read so far, capped just above the largest magnitude that fits
    let cap: u64 = 2147483649;
    let mut acc: u64 = 0;
    let mut i: usize = start;
    while i < end
        invariant
            start <= i <= end <= word@.len(),
            s == word@.take(end as int),
            body == s.skip(start as int),
            start == 0 || start == 1,
            neg == (s.len() > 0 && s[0] == '-'),
            (start == 1) == has_sign(s),
            cap == 2147483649,
            forall|j: int| 0 <= j < i - start ==> is_digit(#[trigger] body[j]),
            acc as int == if digits_value(body.take(i - start)) < cap {
                digits_value(body.take(i - start))
            } else {
                cap as int
            },
        decreases end - i,
    {
        let c = word[i];
        let u: u32 = c as u32;
        assert(body[i - start] == s[i as int]);
        assert(s[i as int] == word@[i as int]);
        if !(48 <= u && u <= 57) {
            assert(0 <= i - start < body.len());
            assert(!is_digit(body[i - start]));
            assert(!all_digits(body));
            return None;
        }
        let d: u64 = (u - 48) as u64;
        let ghost prev = body.take(i - start);
        let ghost next = body.take(i - start + 1);
        assert(next.drop_last() =~= prev);
        assert(next.last() == c);
        proof {
            lemma_digits_value_nonneg(prev);
        }
        if acc >= cap || acc * 10 + d >= cap {
            acc = cap;
        } else {
            acc = acc * 10 + d;
        }
        i += 1;
    }
    assert(body.take(end - start) =~= body);
    proof {
        lemma_digits_value_nonneg(body);
    }
    assert(all_digits(body));
    assert(body.len() > 0);
    if neg {
        if acc <= 2147483648 {
            let m: i64 = acc as i64;
            Some((-m) as i32)
        } else {
            None
        }
    } else {
        if acc <= 2147483647 {
            Some(acc as i32)
        } else {
            None
        }
    }
}

/// Append the decimal numeral of `n` to `out`.
pub fn push_decimal(out: &mut Vec<char>, n: usize)
    ensures
        final(out)@ == old(out)@ + decimal(n as nat),
    decreases n,
{
    if n >= 10 {
        push_decimal(out, n / 10);
    }
    let d: u8 = (n % 10) as u8;
    let c = (48u8 + d) as char;
    assert(c == digit_char((n % 10) as nat));
    out.push(c);
    proof {
        if n < 10 {
            assert(old(out)@ + decimal(n as nat) =~= old(out)@.push(c));
        } else {
            assert(decimal(n as nat) == decimal((n / 10) as nat).push(c));
        }
    }
}

} // verus!
