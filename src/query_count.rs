use vstd::prelude::*;

verus! {

/// The ten decimal digits, in order of value.
pub open spec fn digit_chars() -> Seq<char> {
    seq!['0', '1', '2', '3', '4', '5', '6', '7', '8', '9']
}

pub open spec fn is_digit(c: char) -> bool {
    '0' <= c && c <= '9'
}

pub open spec fn digit_value(c: char) -> int {
    c as int - '0' as int
}

/// Decimal rendering of a natural number, most significant digit first,
/// without leading zeros.
pub open spec fn decimal(n: nat) -> Seq<char>
    decreases n,
{
    if n < 10 {
        seq![digit_chars()[n as int]]
    } else {
        decimal(n / 10).push(digit_chars()[(n % 10) as int])
    }
}

pub open spec fn all_digits(s: Seq<char>) -> bool {
    forall|i: int| 0 <= i < s.len() ==> is_digit(#[trigger] s[i])
}

/// Value of a string of decimal digits.
pub open spec fn digits_value(s: Seq<char>) -> int
    decreases s.len(),
{
    if s.len() == 0 {
        0
    } else {
        digits_value(s.drop_last()) * 10 + digit_value(s.last())
    }
}

/// The integer a text denotes: one or more decimal digits, optionally after
/// a single `+` or `-` sign. Anything else denotes no number.
pub open spec fn numeric_value(s: Seq<char>) -> Option<int> {
    if s.len() > 0 && all_digits(s) {
        Some(digits_value(s))
    } else if s.len() > 1 && s[0] == '+' && all_digits(s.drop_first()) {
        Some(digits_value(s.drop_first()))
    } else if s.len() > 1 && s[0] == '-' && all_digits(s.drop_first()) {
        Some(-digits_value(s.drop_first()))
    } else {
        None
    }
}

pub open spec fn clamp(v: int, min: int, max: int) -> int {
    if v < min {
        min
    } else if v > max {
        max
    } else {
        v
    }
}

/// The row count a request suffix asks for: its numeric value clamped into
/// `[min, max]`, or `min` when it is not a number.
pub open spec fn translated_count(s: Seq<char>, min: int, max: int) -> int {
    match numeric_value(s) {
        Some(v) => clamp(v, min, max),
        None => min,
    }
}

proof fn lemma_digit_chars(d: int)
    requires
        0 <= d < 10,
    ensures
        is_digit(digit_chars()[d]),
        digit_value(digit_chars()[d]) == d,
{
}

proof fn lemma_decimal_digits(n: nat)
    ensures
        decimal(n).len() > 0,
        all_digits(decimal(n)),
        digits_value(decimal(n)) == n,
    decreases n,
{
    if n < 10 {
        lemma_digit_chars(n as int);
        let s = decimal(n);
        assert(s.drop_last() =~= Seq::<char>::empty());
        assert(digits_value(s) == digits_value(s.drop_last()) * 10 + digit_value(s.last()));
    } else {
        lemma_decimal_digits(n / 10);
        lemma_digit_chars((n % 10) as int);
        let s = decimal(n);
        assert(s.drop_last() =~= decimal(n / 10));
        assert(s.last() == digit_chars()[(n % 10) as int]);
        assert(digits_value(s) == digits_value(decimal(n / 10)) * 10 + (n % 10) as int);
        assert((n / 10) * 10 + n % 10 == n) by (nonlinear_arith);
        assert forall|i: int| 0 <= i < s.len() implies is_digit(#[trigger] s[i]) by {
            if i < s.len() - 1 {
                assert(s[i] == decimal(n / 10)[i]);
            }
        }
    }
}

/// Every decimal rendering denotes the number it renders.
pub proof fn lemma_numeric_value_of_decimal(n: nat)
    ensures
        numeric_value(decimal(n)) == Some(n as int),
{
    lemma_decimal_digits(n);
}

/// The translated count always lies in `[min, max]`, and translating the
/// decimal rendering of a translated count gives that count back.
pub proof fn lemma_translated_count_idempotent(s: Seq<char>, min: int, max: int)
    requires
        0 <= min <= max,
    ensures
        min <= translated_count(s, min, max) <= max,
        translated_count(decimal(translated_count(s, min, max) as nat), min, max)
            == translated_count(s, min, max),
{
    let r = translated_count(s, min, max);
    lemma_numeric_value_of_decimal(r as nat);
}

fn digit_str(d: u64) -> (r: &'static str)
    requires
        d < 10,
    ensures
        r@ == seq![digit_chars()[d as int]],
{
    proof {
        reveal_strlit("0");
        reveal_strlit("1");
        reveal_strlit("2");
        reveal_strlit("3");
        reveal_strlit("4");
        reveal_strlit("5");
        reveal_strlit("6");
        reveal_strlit("7");
        reveal_strlit("8");
        reveal_strlit("9");
    }
    let r = if d == 0 {
        "0"
    } else if d == 1 {
        "1"
    } else if d == 2 {
        "2"
    } else if d == 3 {
        "3"
    } else if d == 4 {
        "4"
    } else if d == 5 {
        "5"
    } else if d == 6 {
        "6"
    } else if d == 7 {
        "7"
    } else if d == 8 {
        "8"
    } else {
        "9"
    };
    assert(r@ =~= seq![digit_chars()[d as int]]);
    r
}

/// Decimal text of `n`.
pub fn decimal_text(n: u64) -> (r: String)
    ensures
        r@ == decimal(n as nat),
    decreases n,
{
    if n < 10 {
        String::from_str(digit_str(n))
    } else {
        let mut s = decimal_text(n / 10);
        s.append(digit_str(n % 10));
        s
    }
}

proof fn lemma_digits_value_step(s: Seq<char>, start: int, i: int)
    requires
        0 <= start <= i < s.len(),
    ensures
        digits_value(s.subrange(start, i + 1)) == digits_value(s.subrange(start, i)) * 10
            + digit_value(s[i]),
{
    assert(s.subrange(start, i + 1).drop_last() =~= s.subrange(start, i));
}

/// The row count that the request suffix `value` asks for, clamped into
/// `[min, max]`; `min` where `value` is not a number.
pub fn translate_query_count(value: &str, min: u32, max: u32) -> (r: u32)
    requires
        min <= max,
    ensures
        r == translated_count(value@, min as int, max as int),
{
    let n = value.unicode_len();
    if n == 0 {
        return min;
    }
    let first = value.get_char(0);
    let negative = first == '-';
    let start: usize = if first == '-' || first == '+' {
        1
    } else {
        0
    };
    if start == n {
        return min;
    }
    let ghost s = value@;
    let cap: u64 = max as u64 + 1;
    let mut acc: u64 = 0;
    let mut i: usize = start;
    assert(s.subrange(start as int, start as int) =~= Seq::<char>::empty());
    while i < n
        invariant
            n == s.len(),
            s == value@,
            start <= i <= n,
            start < n,
            start == 1 <==> (s[0] == '-' || s[0] == '+'),
            start == 0 || start == 1,
            cap == max + 1,
            all_digits(s.subrange(start as int, i as int)),
            acc == clamp(digits_value(s.subrange(start as int, i as int)), 0, cap as int),
            digits_value(s.subrange(start as int, i as int)) >= 0,
        decreases n - i,
    {
        let c = value.get_char(i);
        if !('0' <= c && c <= '9') {
            proof {
                assert(!is_digit(s[i as int]));
                if start == 0 {
                    assert(!all_digits(s));
                } else {
                    assert(s.drop_first()[i - 1] == s[i as int]);
                    assert(!all_digits(s.drop_first()));
                    assert(!is_digit(s[0]));
                    assert(!all_digits(s));
                }
            }
            return min;
        }
        proof {
            lemma_digits_value_step(s, start as int, i as int);
        }
        let d: u64 = (c as u32 - '0' as u32) as u64;
        acc = 10 * acc + d;
        if acc > cap {
            acc = cap;
        }
        proof {
            let t = s.subrange(start as int, i + 1);
            assert forall|j: int| 0 <= j < t.len() implies is_digit(#[trigger] t[j]) by {
                if j < t.len() - 1 {
                    assert(t[j] == s.subrange(start as int, i as int)[j]);
                }
            }
        }
        i = i + 1;
    }
    let ghost digits = s.subrange(start as int, n as int);
    proof {
        if start == 0 {
            assert(s =~= digits);
        } else {
            assert(s.drop_first() =~= digits);
            assert(!is_digit(s[0]));
        }
    }
    if negative {
        min
    } else if acc > max as u64 {
        max
    } else if acc < min as u64 {
        min
    } else {
        acc as u32
    }
}

} // verus!
