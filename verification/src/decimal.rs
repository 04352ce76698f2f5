//! Unsigned numbers as decimal text.
//!
//! The spec functions say which text stands for which number; the executable
//! functions write and read that text the way `u64`'s `Display` and `FromStr`
//! do.

use vstd::prelude::*;

verus! {

/// The character of a single decimal digit.
pub open spec fn digit_char(d: nat) -> char {
    (('0' as nat) + d) as char
}

/// Whether a character is one of `0` to `9`.
pub open spec fn is_digit(c: char) -> bool {
    '0' <= c <= '9'
}

/// The decimal text of a number: no sign, and no leading zero but in `0`.
pub open spec fn decimal(n: nat) -> Seq<char>
    decreases n,
{
    if n < 10 {
        seq![digit_char(n)]
    } else {
        decimal(n / 10).push(digit_char(n % 10))
    }
}

/// Whether a text consists of digits alone.
pub open spec fn all_digits(s: Seq<char>) -> bool {
    forall|i: int| 0 <= i < s.len() ==> is_digit(#[trigger] s[i])
}

/// The number that a text of digits stands for, the first digit counting most.
pub open spec fn number(s: Seq<char>) -> nat
    decreases s.len(),
{
    if s.len() == 0 {
        0
    } else {
        (number(s.drop_last()) * 10 + (s.last() as int - '0' as int)) as nat
    }
}

/// A text without the plus sign that it may start with.
pub open spec fn unsigned_part(s: Seq<char>) -> Seq<char> {
    if s.len() > 0 && s[0] == '+' {
        s.skip(1)
    } else {
        s
    }
}

/// The `u64` that a text reads as: an optional plus sign, then digits and
/// nothing else, at least one of them, standing for a number that fits.
pub open spec fn parsed_u64(s: Seq<char>) -> Option<u64> {
    let digits = unsigned_part(s);
    if digits.len() > 0 && all_digits(digits) && number(digits) <= u64::MAX {
        Some(number(digits) as u64)
    } else {
        None
    }
}

/// A decimal text is not empty, holds digits alone, and stands for the number
/// it was made from.
pub proof fn lemma_decimal(n: nat)
    ensures
        decimal(n).len() > 0,
        all_digits(decimal(n)),
        number(decimal(n)) == n,
    decreases n,
{
    if n < 10 {
        let s = decimal(n);
        assert(s.drop_last() =~= Seq::empty());
        assert(number(s.drop_last()) == 0);
    } else {
        lemma_decimal(n / 10);
        let s = decimal(n);
        assert(s.drop_last() =~= decimal(n / 10));
        assert forall|i: int| 0 <= i < s.len() implies is_digit(#[trigger] s[i]) by {
            if i < s.len() - 1 {
                assert(s[i] == decimal(n / 10)[i]);
            }
        }
    }
}

/// Reading the decimal text of a `u64` gives the `u64` back.
pub proof fn law_parse_reads_decimal(n: u64)
    ensures
        parsed_u64(decimal(n as nat)) == Some(n),
{
    lemma_decimal(n as nat);
    assert(is_digit(decimal(n as nat)[0]));
}

/// The number of a prefix is at most the number of the whole text.
proof fn lemma_number_of_prefix(s: Seq<char>, k: int)
    requires
        0 <= k <= s.len(),
        all_digits(s),
    ensures
        number(s.take(k)) <= number(s),
    decreases s.len() - k,
{
    if k < s.len() {
        lemma_number_of_prefix(s, k + 1);
        assert(s.take(k + 1).drop_last() =~= s.take(k));
        assert(is_digit(s[k]));
    } else {
        assert(s.take(k) =~= s);
    }
}

/// The text of one digit.
fn digit_text(d: u64) -> (text: &'static str)
    requires
        d < 10,
    ensures
        text@ == seq![digit_char(d as nat)],
{
    proof {
        reveal_strlit("0");
        reveal_strlit("1");
        reveal_strlit("2");
        reveal_strlit("3");
        reveal_strlit("4");
        reveal_strlit("5");
        reveal_strlit("6");
        reveal_strlit("7");
        reveal_strlit("8");
        reveal_strlit("9");
    }
    let text = match d {
        0 => "0",
        1 => "1",
        2 => "2",
        3 => "3",
        4 => "4",
        5 => "5",
        6 => "6",
        7 => "7",
        8 => "8",
        _ => "9",
    };
    assert(text@ =~= seq![digit_char(d as nat)]);
    text
}

/// Writes a number as decimal text.
pub fn u64_to_string(n: u64) -> (text: String)
    ensures
        text@ == decimal(n as nat),
    decreases n,
{
    if n < 10 {
        digit_text(n).to_owned()
    } else {
        let mut text = u64_to_string(n / 10);
        text.append(digit_text(n % 10));
        assert(text@ =~= decimal(n as nat));
        text
    }
}

/// Reads `chars[from..to]` as a `u64`: an optional plus sign and then digits.
/// `None` where that is not what stands there, or where the number does not
/// fit.
pub fn parse_u64(chars: &Vec<char>, from: usize, to: usize) -> (value: Option<u64>)
    requires
        from <= to <= chars@.len(),
    ensures
        value == parsed_u64(chars@.subrange(from as int, to as int)),
{
    let ghost text = chars@.subrange(from as int, to as int);
    let start: usize = if from < to && chars[from] == '+' {
        from + 1
    } else {
        from
    };
    let ghost digits = unsigned_part(text);
    assert(digits =~= chars@.subrange(start as int, to as int));
    if start == to {
        return None;
    }
    let mut value: u64 = 0;
    let mut i: usize = start;
    while i < to
        invariant
            start <= i <= to <= chars@.len(),
            digits == chars@.subrange(start as int, to as int),
            all_digits(digits.take(i - start)),
            value == number(digits.take(i - start)),
            text == chars@.subrange(from as int, to as int),
            digits == unsigned_part(text),
            digits.len() > 0,
        decreases to - i,
    {
        let c = chars[i];
        assert(digits[i - start] == c);
        if c < '0' || c > '9' {
            assert(!is_digit(digits[i - start]));
            return None;
        }
        let d: u64 = (c as u32 - '0' as u32) as u64;
        let ghost longer = digits.take(i - start + 1);
        proof {
            assert(longer.drop_last() =~= digits.take(i - start));
            assert(number(longer) == value * 10 + d);
        }
        if value > (u64::MAX - d) / 10 {
            proof {
                if all_digits(digits) {
                    lemma_number_of_prefix(digits, i - start + 1);
                }
            }
            return None;
        }
        value = value * 10 + d;
        i = i + 1;
    }
    assert(digits.take(to - start) =~= digits);
    Some(value)
}

} // verus!
