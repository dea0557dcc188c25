//! Decimal text: rendering a number as digits and reading a number back.
//!
//! The mount table and the device registry both speak of devices as
//! `{major}:{minor}` in decimal, so the crate needs both directions: building
//! the registry entry path for a pair, and reading a pair out of a mount-table
//! field.

use vstd::prelude::*;

verus! {

/// The character for one decimal digit value.
pub open spec fn digit_char(d: int) -> char {
    if d == 0 {
        '0'
    } else if d == 1 {
        '1'
    } else if d == 2 {
        '2'
    } else if d == 3 {
        '3'
    } else if d == 4 {
        '4'
    } else if d == 5 {
        '5'
    } else if d == 6 {
        '6'
    } else if d == 7 {
        '7'
    } else if d == 8 {
        '8'
    } else {
        '9'
    }
}

/// The decimal rendering of a number, most significant digit first, with no
/// sign and no leading zero (except for the number zero itself).
pub open spec fn dec_digits(n: nat) -> Seq<char>
    decreases n,
{
    if n < 10 {
        seq![digit_char(n as int)]
    } else {
        dec_digits(n / 10).push(digit_char((n % 10) as int))
    }
}

/// Whether a character is a decimal digit.
pub open spec fn is_digit(c: char) -> bool {
    48 <= c as u32 && c as u32 <= 57
}

/// The value of one digit character.
pub open spec fn digit_val(c: char) -> nat {
    (c as u32 - 48) as nat
}

/// Whether every character of a sequence is a decimal digit.
pub open spec fn all_digits(s: Seq<char>) -> bool {
    forall|i: int| 0 <= i < s.len() ==> is_digit(s[i])
}

/// The value of a digit sequence read as a decimal number.
pub open spec fn dec_val(s: Seq<char>) -> nat
    decreases s.len(),
{
    if s.len() == 0 {
        0
    } else {
        dec_val(s.drop_last()) * 10 + digit_val(s.last())
    }
}

/// What reading a string as an unsigned 32-bit decimal number yields: an
/// optional leading `+`, then at least one digit, and a value that fits.
pub open spec fn parse_u32_spec(s: Seq<char>) -> Option<u32> {
    let digits = if s.len() > 0 && s[0] == '+' {
        s.subrange(1, s.len() as int)
    } else {
        s
    };
    if digits.len() > 0 && all_digits(digits) && dec_val(digits) <= u32::MAX {
        Some(dec_val(digits) as u32)
    } else {
        None
    }
}

/// The text of one decimal digit value.
fn digit_str(d: u32) -> (r: &'static str)
    requires
        d < 10,
    ensures
        r@ == seq![digit_char(d as int)],
{
    let r: &'static str = if d == 0 {
        "0"
    } else if d == 1 {
        "1"
    } else if d == 2 {
        "2"
    } else if d == 3 {
        "3"
    } else if d == 4 {
        "4"
    } else if d == 5 {
        "5"
    } else if d == 6 {
        "6"
    } else if d == 7 {
        "7"
    } else if d == 8 {
        "8"
    } else {
        "9"
    };
    proof {
        reveal_strlit("0");
        reveal_strlit("1");
        reveal_strlit("2");
        reveal_strlit("3");
        reveal_strlit("4");
        reveal_strlit("5");
        reveal_strlit("6");
        reveal_strlit("7");
        reveal_strlit("8");
        reveal_strlit("9");
        assert(r@ =~= seq![digit_char(d as int)]);
    }
    r
}

/// Renders a number as decimal text.
pub fn u32_to_dec(n: u32) -> (s: String)
    ensures
        s@ == dec_digits(n as nat),
    decreases n,
{
    if n < 10 {
        let s = String::from_str(digit_str(n));
        proof {
            assert(s@ =~= dec_digits(n as nat));
        }
        s
    } else {
        let s = u32_to_dec(n / 10).concat(digit_str(n % 10));
        proof {
            assert(s@ =~= dec_digits(n as nat));
        }
        s
    }
}

/// A prefix of the digits never reads as a larger value than the whole.
proof fn lemma_dec_val_prefix_le(s: Seq<char>, i: int, j: int)
    requires
        0 <= i <= j <= s.len(),
    ensures
        dec_val(s.take(i)) <= dec_val(s.take(j)),
    decreases j - i,
{
    if i < j {
        lemma_dec_val_prefix_le(s, i, j - 1);
        assert(s.take(j).drop_last() =~= s.take(j - 1));
        assert(dec_val(s.take(j)) == dec_val(s.take(j - 1)) * 10 + digit_val(s.take(j).last()));
    }
}

/// Reads a string as an unsigned 32-bit decimal number, as `parse_u32_spec`
/// describes; yields nothing on a malformed string or one whose value does
/// not fit.
pub fn parse_u32(s: &str) -> (r: Option<u32>)
    ensures
        r == parse_u32_spec(s@),
{
    let n = s.unicode_len();
    if n == 0 {
        return None;
    }
    let start: usize = if s.get_char(0) == '+' {
        1
    } else {
        0
    };
    let ghost digits: Seq<char> = s@.subrange(start as int, n as int);
    proof {
        if s@[0] == '+' {
        } else {
            assert(digits =~= s@);
        }
    }
    if start == n {
        proof {
            assert(digits.len() == 0);
        }
        return None;
    }
    let mut acc: u32 = 0;
    let mut i: usize = start;
    while i < n
        invariant
            start <= i <= n,
            n == s@.len(),
            start < n,
            start as int == (if s@[0] == '+' {
                1int
            } else {
                0int
            }),
            digits == s@.subrange(start as int, n as int),
            forall|k: int| 0 <= k < i - start ==> is_digit(digits[k]),
            acc as nat == dec_val(digits.take(i - start)),
        decreases n - i,
    {
        let c = s.get_char(i);
        let v = c as u32;
        proof {
            assert(digits[i - start] == c);
            assert(digits.take(i - start + 1).drop_last() =~= digits.take(i - start));
            assert(digits.take(i - start + 1).last() == c);
        }
        if v < 48 || 57 < v {
            proof {
                assert(!is_digit(digits[i - start]));
            }
            return None;
        }
        let d = v - 48;
        if acc > (u32::MAX - d) / 10 {
            proof {
                let q = ((u32::MAX - d) / 10) as int;
                vstd::arithmetic::div_mod::lemma_fundamental_div_mod((u32::MAX - d) as int, 10);
                assert(((u32::MAX - d) as int) < (q + 1) * 10);
                assert(acc as int * 10 >= (q + 1) * 10) by (nonlinear_arith)
                    requires
                        acc as int >= q + 1,
                ;
                assert(dec_val(digits.take(i - start + 1)) == acc as nat * 10 + digit_val(c));
                assert(dec_val(digits.take(i - start + 1)) > u32::MAX);
                lemma_dec_val_prefix_le(digits, i - start + 1, digits.len() as int);
                assert(digits.take(digits.len() as int) =~= digits);
                assert(dec_val(digits) > u32::MAX);
                if s@[0] != '+' {
                    assert(digits =~= s@);
                }
            }
            return None;
        }
        proof {
            let q = ((u32::MAX - d) / 10) as int;
            vstd::arithmetic::div_mod::lemma_fundamental_div_mod((u32::MAX - d) as int, 10);
            assert(q * 10 <= (u32::MAX - d) as int);
            assert(acc as int * 10 <= q * 10) by (nonlinear_arith)
                requires
                    acc as int <= q,
            ;
            assert(acc as int * 10 + d as int <= u32::MAX);
            assert(dec_val(digits.take(i - start + 1)) == acc as nat * 10 + digit_val(c));
        }
        acc = acc * 10 + d;
        i += 1;
    }
    proof {
        assert(digits.take(digits.len() as int) =~= digits);
        assert(acc as nat == dec_val(digits));
        assert(all_digits(digits));
    }
    Some(acc)
}

} // verus!
