//! Decimal text: how integers are written into, and read back from, text.

use vstd::prelude::*;

verus! {

/// `String::push` appends one character to the end of the string.
pub assume_specification[ String::push ](s: &mut String, c: char)
    ensures
        final(s)@ == old(s)@.push(c),
;

/// The character that writes the digit `d`.
pub open spec fn digit_char(d: nat) -> char
    recommends
        d < 10,
{
    (('0' as u8) + (d as u8)) as char
}

/// The decimal numeral of `n`, most significant digit first, without
/// leading zeros ("0" for zero).
pub open spec fn decimal_digits(n: nat) -> Seq<char>
    decreases n,
{
    if n < 10 {
        seq![digit_char(n)]
    } else {
        decimal_digits(n / 10).push(digit_char(n % 10))
    }
}

/// A decimal numeral is one or more ASCII digits.
pub proof fn lemma_decimal_digits(n: nat)
    ensures
        decimal_digits(n).len() >= 1,
        forall|i: int|
            0 <= i < decimal_digits(n).len() ==> '0' <= (#[trigger] decimal_digits(n)[i]) <= '9',
    decreases n,
{
    if n >= 10 {
        lemma_decimal_digits(n / 10);
    }
}

/// Appends the characters of `rev` to `s`, last one first.
pub fn push_reversed(s: &mut String, rev: &Vec<char>)
    ensures
        final(s)@ == old(s)@ + rev@.reverse(),
{
    let mut i: usize = rev.len();
    while i > 0
        invariant
            i <= rev.len(),
            s@ == old(s)@ + rev@.reverse().subrange(0, rev.len() - i),
        decreases i,
    {
        i = i - 1;
        s.push(rev[i]);
        proof {
            let r = rev@.reverse();
            assert(r[rev.len() - 1 - i] == rev@[i as int]);
            assert(r.subrange(0, rev.len() - i) =~= r.subrange(0, rev.len() - 1 - i).push(
                rev@[i as int],
            ));
            assert(s@ =~= old(s)@ + r.subrange(0, rev.len() - i));
        }
    }
    proof {
        assert(rev@.reverse().subrange(0, rev.len() as int) =~= rev@.reverse());
    }
}

/// Writes `n` in decimal.
pub fn decimal_string(n: u64) -> (s: String)
    ensures
        s@ == decimal_digits(n as nat),
{
    let mut rev: Vec<char> = Vec::new();
    let mut rest: u64 = n;
    while rest >= 10
        invariant
            decimal_digits(n as nat) == decimal_digits(rest as nat) + rev@.reverse(),
        decreases rest,
    {
        let d: u8 = (rest % 10) as u8;
        rev.push((48u8 + d) as char);
        proof {
            let prev = rev@.drop_last();
            assert(rev@.reverse() =~= seq![digit_char((rest % 10) as nat)] + prev.reverse());
            assert(decimal_digits(rest as nat) + prev.reverse() =~= decimal_digits(
                (rest / 10) as nat,
            ) + rev@.reverse());
        }
        rest = rest / 10;
    }
    let mut s = String::new();
    s.push((48u8 + (rest as u8)) as char);
    assert(s@ =~= decimal_digits(rest as nat));
    push_reversed(&mut s, &rev);
    s
}

/// The characters of `s`, in order.
pub fn chars_of(s: &str) -> (v: Vec<char>)
    ensures
        v@ == s@,
{
    let mut v: Vec<char> = Vec::new();
    for c in it: s.chars()
        invariant
            v@ == it.seq().take(it.index@),
    {
        v.push(c);
    }
    v
}

/// Whether `c` is one of the ten ASCII digits.
pub open spec fn is_digit(c: char) -> bool {
    '0' <= c <= '9'
}

/// The value of the ASCII digit `c`.
pub open spec fn digit_of(c: char) -> nat
    recommends
        is_digit(c),
{
    (c as u32 - '0' as u32) as nat
}

/// Whether `s` holds ASCII digits only.
pub open spec fn all_digits(s: Seq<char>) -> bool {
    forall|i: int| 0 <= i < s.len() ==> is_digit(#[trigger] s[i])
}

/// The number that the digits of `s` write in base ten (0 for no digits).
pub open spec fn digits_value(s: Seq<char>) -> nat
    decreases s.len(),
{
    if s.len() == 0 {
        0
    } else {
        digits_value(s.drop_last()) * 10 + digit_of(s.last())
    }
}

/// The digits of an unsigned numeral: the text itself, or what follows one
/// leading `+`.
pub open spec fn numeral_body(s: Seq<char>) -> Seq<char> {
    if s.len() > 0 && s[0] == '+' {
        s.drop_first()
    } else {
        s
    }
}

/// The number that `s` writes as an unsigned decimal numeral: an optional
/// `+`, then one or more ASCII digits. Anything else writes no number.
pub open spec fn unsigned_value(s: Seq<char>) -> Option<nat> {
    let body = numeral_body(s);
    if body.len() > 0 && all_digits(body) {
        Some(digits_value(body))
    } else {
        None
    }
}

/// `unsigned_value`, kept only where the number is at most `max`.
pub open spec fn bounded_value(s: Seq<char>, max: nat) -> Option<nat> {
    match unsigned_value(s) {
        Some(v) if v <= max => Some(v),
        _ => None,
    }
}

/// Reads an unsigned decimal numeral of at most `max` from `chars`.
pub fn parse_chars(chars: &Vec<char>, max: u32) -> (r: Option<u32>)
    ensures
        match bounded_value(chars@, max as nat) {
            Some(v) => r == Some(v as u32),
            None => r is None,
        },
{
    let n = chars.len();
    let start: usize = if n > 0 && chars[0] == '+' {
        1
    } else {
        0
    };
    let ghost body = numeral_body(chars@);
    assert(body =~= chars@.subrange(start as int, n as int));
    if start == n {
        return None;
    }
    let mut acc: u64 = 0;
    let mut over = false;
    let mut i: usize = start;
    while i < n
        invariant
            start <= i <= n,
            n == chars.len(),
            body == numeral_body(chars@),
            body == chars@.subrange(start as int, n as int),
            all_digits(chars@.subrange(start as int, i as int)),
            over ==> digits_value(chars@.subrange(start as int, i as int)) > max,
            !over ==> acc == digits_value(chars@.subrange(start as int, i as int)) && acc <= max,
        decreases n - i,
    {
        let c = chars[i];
        if !(c >= '0' && c <= '9') {
            assert(body[i - start] == c);
            assert(!all_digits(body));
            return None;
        }
        let d: u64 = (c as u32 - 48) as u64;
        proof {
            let next = chars@.subrange(start as int, i + 1);
            assert(next.drop_last() =~= chars@.subrange(start as int, i as int));
            assert(next.last() == c);
            assert(d == digit_of(c));
        }
        if !over {
            acc = acc * 10 + d;
            if acc > max as u64 {
                over = true;
            }
        }
        i = i + 1;
    }
    if over {
        None
    } else {
        Some(acc as u32)
    }
}

/// Reads an unsigned decimal numeral of at most `max` from `text`.
pub fn parse_decimal(text: &str, max: u32) -> (r: Option<u32>)
    ensures
        match bounded_value(text@, max as nat) {
            Some(v) => r == Some(v as u32),
            None => r is None,
        },
{
    let chars = chars_of(text);
    parse_chars(&chars, max)
}

/// Reading a decimal numeral gives back the number that it writes.
pub proof fn lemma_decimal_round_trip(n: nat)
    ensures
        all_digits(decimal_digits(n)),
        digits_value(decimal_digits(n)) == n,
        unsigned_value(decimal_digits(n)) == Some(n),
    decreases n,
{
    lemma_decimal_digits(n);
    let numeral = decimal_digits(n);
    if n < 10 {
        assert(numeral.drop_last() =~= Seq::<char>::empty());
        assert(digits_value(numeral.drop_last()) == 0);
        assert(digit_of(numeral.last()) == n);
    } else {
        lemma_decimal_round_trip(n / 10);
        assert(numeral.drop_last() =~= decimal_digits(n / 10));
        assert(digit_of(numeral.last()) == n % 10);
    }
    assert(numeral[0] != '+');
}

} // verus!
