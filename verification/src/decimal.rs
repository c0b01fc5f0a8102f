//! Unsigned decimal numbers, as `str::parse` reads them into `u32` and `u64`.
use vstd::prelude::*;

verus! {

pub open spec fn is_digit(c: char) -> bool {
    '0' <= c <= '9'
}

pub open spec fn digit_value(c: char) -> int {
    (c as u32) - ('0' as u32)
}

pub open spec fn all_digits(d: Seq<char>) -> bool {
    forall|i: int| 0 <= i < d.len() ==> is_digit(#[trigger] d[i])
}

/// The number that the decimal digits `d` write, most significant first.
pub open spec fn decimal_value(d: Seq<char>) -> int
    decreases d.len(),
{
    if d.len() == 0 {
        0
    } else {
        decimal_value(d.drop_last()) * 10 + digit_value(d.last())
    }
}

/// The digits of an unsigned number: the text after one optional leading `+`.
pub open spec fn unsigned_digits(s: Seq<char>) -> Seq<char> {
    if s.len() > 0 && s[0] == '+' {
        s.drop_first()
    } else {
        s
    }
}

/// What `str::parse` gives for an unsigned integer type whose largest value is
/// `max`: the value when `s` is an optional `+` followed by at least one ASCII
/// digit and nothing else, and that value is at most `max`; no value otherwise.
pub open spec fn spec_parse_unsigned(s: Seq<char>, max: u64) -> Option<u64> {
    let d = unsigned_digits(s);
    if d.len() > 0 && all_digits(d) && decimal_value(d) <= max {
        Some(decimal_value(d) as u64)
    } else {
        None
    }
}

proof fn lemma_decimal_value_nonneg(d: Seq<char>)
    requires
        all_digits(d),
    ensures
        decimal_value(d) >= 0,
    decreases d.len(),
{
    if d.len() > 0 {
        lemma_decimal_value_nonneg(d.drop_last());
    }
}

/// Appending digits never makes a number smaller.
proof fn lemma_decimal_value_prefix(d: Seq<char>, j: int)
    requires
        all_digits(d),
        0 <= j <= d.len(),
    ensures
        decimal_value(d.take(j)) <= decimal_value(d),
    decreases d.len(),
{
    if j < d.len() {
        assert(d.take(j) =~= d.drop_last().take(j));
        lemma_decimal_value_prefix(d.drop_last(), j);
        lemma_decimal_value_nonneg(d.drop_last());
    } else {
        assert(d.take(j) =~= d);
    }
}

/// The digit that writes `d`, for `d` from 0 to 9.
pub open spec fn digit_char(d: nat) -> char {
    if d == 0 {
        '0'
    } else if d == 1 {
        '1'
    } else if d == 2 {
        '2'
    } else if d == 3 {
        '3'
    } else if d == 4 {
        '4'
    } else if d == 5 {
        '5'
    } else if d == 6 {
        '6'
    } else if d == 7 {
        '7'
    } else if d == 8 {
        '8'
    } else {
        '9'
    }
}

/// `n` written in decimal without leading zeros, as `format!("{}", n)` writes
/// it.
pub open spec fn decimal_digits(n: nat) -> Seq<char>
    decreases n,
{
    if n < 10 {
        seq![digit_char(n)]
    } else {
        decimal_digits(n / 10).push(digit_char(n % 10))
    }
}

proof fn lemma_decimal_digits_value(n: nat)
    ensures
        decimal_digits(n).len() > 0,
        all_digits(decimal_digits(n)),
        decimal_value(decimal_digits(n)) == n,
    decreases n,
{
    if n < 10 {
        let d = decimal_digits(n);
        assert(d.drop_last() =~= Seq::<char>::empty());
        assert(decimal_value(Seq::<char>::empty()) == 0);
    } else {
        lemma_decimal_digits_value(n / 10);
        let d = decimal_digits(n);
        assert(d.drop_last() =~= decimal_digits(n / 10));
        assert(is_digit(digit_char(n % 10)));
        assert forall|i: int| 0 <= i < d.len() implies is_digit(#[trigger] d[i]) by {
            if i < d.len() - 1 {
                assert(d[i] == decimal_digits(n / 10)[i]);
            }
        }
        assert(n == (n / 10) * 10 + n % 10);
    }
}

/// Reading undoes writing: a number written in decimal reads back as itself
/// when it fits under `max`, and as nothing when it does not.
pub proof fn lemma_parse_decimal_digits(n: nat, max: u64)
    ensures
        spec_parse_unsigned(decimal_digits(n), max) == (if n <= max {
            Some(n as u64)
        } else {
            None
        }),
{
    lemma_decimal_digits_value(n);
    let d = decimal_digits(n);
    assert(is_digit(d[0]));
    assert(unsigned_digits(d) == d);
}

/// A leading `+` is accepted and changes nothing.
pub proof fn lemma_parse_plus_sign(d: Seq<char>, max: u64)
    requires
        d.len() > 0,
        all_digits(d),
    ensures
        spec_parse_unsigned(seq!['+'] + d, max) == spec_parse_unsigned(d, max),
{
    assert((seq!['+'] + d).drop_first() =~= d);
    assert(is_digit(d[0]));
}

/// Only numbers are read: a text that reads as a value is not empty, not a
/// lone `+`, and holds nothing but ASCII digits after at most one leading `+`;
/// the value is at most `max`.
pub proof fn lemma_parse_accepts_only_digits(s: Seq<char>, max: u64)
    ensures
        spec_parse_unsigned(s, max) matches Some(v) ==> {
            &&& v <= max
            &&& s.len() > 0
            &&& s != seq!['+']
            &&& forall|i: int|
                0 <= i < s.len() ==> ('0' <= #[trigger] s[i] <= '9' || (i == 0 && s[i] == '+'))
        },
{
    if spec_parse_unsigned(s, max) is Some {
        let d = unsigned_digits(s);
        lemma_decimal_value_nonneg(d);
        if s =~= seq!['+'] {
            assert(d.len() == 0);
        }
        if s.len() > 0 && s[0] == '+' {
            assert forall|i: int| 0 < i < s.len() implies '0' <= #[trigger] s[i] <= '9' by {
                assert(s[i] == d[i - 1]);
                assert(is_digit(d[i - 1]));
            }
        } else {
            assert forall|i: int| 0 <= i < s.len() implies '0' <= #[trigger] s[i] <= '9' by {
                assert(is_digit(d[i]));
            }
        }
    }
}

/// Leading zeros change nothing: `0` followed by digits reads as those
/// digits.
pub proof fn lemma_parse_leading_zero(d: Seq<char>, max: u64)
    requires
        d.len() > 0,
        forall|i: int| 0 <= i < d.len() ==> '0' <= #[trigger] d[i] <= '9',
    ensures
        spec_parse_unsigned(seq!['0'] + d, max) == spec_parse_unsigned(d, max),
    decreases d.len(),
{
    let z = seq!['0'] + d;
    assert(all_digits(d));
    assert(all_digits(z)) by {
        assert forall|i: int| 0 <= i < z.len() implies is_digit(#[trigger] z[i]) by {
            if i > 0 {
                assert(z[i] == d[i - 1]);
            }
        }
    }
    lemma_leading_zero_value(d);
    assert(unsigned_digits(z) == z);
    assert(unsigned_digits(d) == d);
}

proof fn lemma_leading_zero_value(d: Seq<char>)
    ensures
        decimal_value(seq!['0'] + d) == decimal_value(d),
    decreases d.len(),
{
    if d.len() == 0 {
        assert((seq!['0'] + d).drop_last() =~= Seq::<char>::empty());
        assert(decimal_value(Seq::<char>::empty()) == 0);
    } else {
        lemma_leading_zero_value(d.drop_last());
        assert((seq!['0'] + d).drop_last() =~= seq!['0'] + d.drop_last());
    }
}

/// Reads `s[from..to]` as an unsigned number no larger than `max`.
pub fn parse_unsigned(s: &Vec<char>, from: usize, to: usize, max: u64) -> (r: Option<u64>)
    requires
        from <= to <= s@.len(),
    ensures
        r == spec_parse_unsigned(s@.subrange(from as int, to as int), max),
{
    let ghost t = s@.subrange(from as int, to as int);
    let mut start = from;
    if from < to && s[from] == '+' {
        start = from + 1;
    }
    let ghost d = s@.subrange(start as int, to as int);
    assert(unsigned_digits(t) =~= d);
    if start == to {
        return None;
    }
    let mut acc: u64 = 0;
    let mut i = start;
    while i < to
        invariant
            from <= start <= i <= to <= s@.len(),
            d == s@.subrange(start as int, to as int),
            unsigned_digits(s@.subrange(from as int, to as int)) == d,
            d.len() > 0,
            all_digits(d.take(i - start)),
            acc == decimal_value(d.take(i - start)),
            acc <= max,
        decreases to - i,
    {
        let c = s[i];
        let ghost k = i - start;
        assert(d[k] == c);
        assert(d.take(k + 1).drop_last() =~= d.take(k));
        if c < '0' || c > '9' {
            assert(!is_digit(d[k]));
            return None;
        }
        let dv = (c as u32 - '0' as u32) as u64;
        let next = match acc.checked_mul(10) {
            Some(x) => x.checked_add(dv),
            None => None,
        };
        match next {
            Some(v) if v <= max => {
                acc = v;
            },
            _ => {
                proof {
                    assert(decimal_value(d.take(k + 1)) == acc * 10 + dv);
                    if all_digits(d) {
                        lemma_decimal_value_prefix(d, k + 1);
                    }
                }
                return None;
            },
        }
        i = i + 1;
    }
    assert(d.take(to - start) =~= d);
    Some(acc)
}

} // verus!
