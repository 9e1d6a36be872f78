//! The search date: parsing the day, month and year arguments and
//! formatting them as the `dd/mm/yyyy` text the timetable request carries.

use vstd::prelude::*;

use crate::text::chars_of;
use crate::text::string_from_chars;

verus! {

/// A decimal digit.
pub open spec fn is_digit(c: char) -> bool {
    48 <= c as u32 <= 57
}

/// The value of a decimal digit.
pub open spec fn digit_val(c: char) -> nat {
    (c as u32 - 48) as nat
}

/// Every character is a decimal digit.
pub open spec fn all_digits(s: Seq<char>) -> bool {
    forall|i: int| 0 <= i < s.len() ==> is_digit(#[trigger] s[i])
}

/// The number a digit string denotes, most significant digit first.
pub open spec fn dec_value(s: Seq<char>) -> nat
    decreases s.len(),
{
    if s.len() == 0 {
        0
    } else {
        dec_value(s.drop_last()) * 10 + digit_val(s.last())
    }
}

/// A prefix of a digit string never denotes more than the whole string.
proof fn lemma_dec_value_prefix(s: Seq<char>, k: int)
    requires
        0 <= k <= s.len(),
    ensures
        dec_value(s.take(k)) <= dec_value(s),
    decreases s.len() - k,
{
    if k == s.len() {
        assert(s.take(k) =~= s);
    } else {
        assert(s.take(k + 1).drop_last() =~= s.take(k));
        assert(dec_value(s.take(k + 1)) == dec_value(s.take(k)) * 10 + digit_val(
            s.take(k + 1).last(),
        ));
        lemma_dec_value_prefix(s, k + 1);
    }
}

/// Parses a decimal number: `Some` exactly on non-empty all-digit strings
/// whose value fits, and then the denoted value.
pub fn parse_u32(s: &str) -> (r: Option<u32>)
    ensures
        r is Some <==> (s@.len() > 0 && all_digits(s@) && dec_value(s@) <= u32::MAX),
        r matches Some(v) ==> v == dec_value(s@),
{
    let chars = chars_of(s);
    let n = chars.len();
    if n == 0 {
        return None;
    }
    let mut acc: u64 = 0;
    for i in 0..n
        invariant
            n == chars@.len(),
            chars@ == s@,
            n > 0,
            all_digits(s@.take(i as int)),
            acc == dec_value(s@.take(i as int)),
            acc <= u32::MAX,
    {
        let cv = chars[i] as u32;
        if cv < 48 || cv > 57 {
            proof {
                assert(!is_digit(s@[i as int]));
            }
            return None;
        }
        let d = (cv - 48) as u64;
        let next: u64 = acc * 10 + d;
        proof {
            assert(s@.take(i + 1).drop_last() =~= s@.take(i as int));
            assert(s@.take(i + 1).last() == s@[i as int]);
            assert(next == dec_value(s@.take(i + 1)));
        }
        if next > u32::MAX as u64 {
            proof {
                lemma_dec_value_prefix(s@, i + 1);
            }
            return None;
        }
        acc = next;
    }
    proof {
        assert(s@.take(n as int) =~= s@);
    }
    Some(acc as u32)
}

/// The character of a decimal digit.
pub open spec fn digit_char(d: nat) -> char {
    if d == 0 {
        '0'
    } else if d == 1 {
        '1'
    } else if d == 2 {
        '2'
    } else if d == 3 {
        '3'
    } else if d == 4 {
        '4'
    } else if d == 5 {
        '5'
    } else if d == 6 {
        '6'
    } else if d == 7 {
        '7'
    } else if d == 8 {
        '8'
    } else {
        '9'
    }
}

/// The decimal digits of a number, most significant first, no leading
/// zeroes except for zero itself.
pub open spec fn dec_digits(n: nat) -> Seq<char>
    decreases n,
{
    if n < 10 {
        seq![digit_char(n)]
    } else {
        dec_digits(n / 10) + seq![digit_char(n % 10)]
    }
}

/// A number padded with a leading zero to at least two digits.
pub open spec fn pad2(n: nat) -> Seq<char> {
    if n < 10 {
        seq!['0'] + dec_digits(n)
    } else {
        dec_digits(n)
    }
}

/// The request's date text: zero-padded day and month, then the year,
/// separated by slashes.
pub open spec fn spec_date_string(day: nat, month: nat, year: nat) -> Seq<char> {
    pad2(day) + seq!['/'] + pad2(month) + seq!['/'] + dec_digits(year)
}

/// The character of one digit.
fn digit_char_exec(d: u32) -> (c: char)
    requires
        d < 10,
    ensures
        c == digit_char(d as nat),
{
    if d == 0 {
        '0'
    } else if d == 1 {
        '1'
    } else if d == 2 {
        '2'
    } else if d == 3 {
        '3'
    } else if d == 4 {
        '4'
    } else if d == 5 {
        '5'
    } else if d == 6 {
        '6'
    } else if d == 7 {
        '7'
    } else if d == 8 {
        '8'
    } else {
        '9'
    }
}

/// Appends the decimal digits of `n`.
fn push_decimal(n: u32, out: &mut Vec<char>)
    ensures
        final(out)@ == old(out)@ + dec_digits(n as nat),
    decreases n,
{
    if n >= 10 {
        push_decimal(n / 10, out);
    }
    out.push(digit_char_exec(n % 10));
    proof {
        if n < 10 {
            assert(n % 10 == n);
        }
        assert(out@ =~= old(out)@ + dec_digits(n as nat));
    }
}

/// Formats the search date as `dd/mm/yyyy`: day and month zero-padded to
/// two digits, the year as it is.
pub fn format_search_date(day: u32, month: u32, year: u32) -> (r: String)
    ensures
        r@ == spec_date_string(day as nat, month as nat, year as nat),
{
    let mut v: Vec<char> = Vec::new();
    if day < 10 {
        v.push('0');
    }
    push_decimal(day, &mut v);
    proof {
        assert(v@ =~= pad2(day as nat));
    }
    v.push('/');
    if month < 10 {
        v.push('0');
    }
    push_decimal(month, &mut v);
    proof {
        assert(v@ =~= pad2(day as nat) + seq!['/'] + pad2(month as nat));
    }
    v.push('/');
    push_decimal(year, &mut v);
    proof {
        assert(v@ =~= spec_date_string(day as nat, month as nat, year as nat));
    }
    string_from_chars(&v)
}

} // verus!
