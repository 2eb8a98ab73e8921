//! Numeric token text: parsing decimal text into numbers and rendering
//! numbers back as decimal text.
//!
//! Runtime numbers are 64-bit signed integers.  A numeric token is valid
//! when its text is an optional minus sign followed by one or more decimal
//! digits, and the value fits in the number type.

use vstd::prelude::*;
use vstd::string::StrSliceExecFns;
use vstd::string::StringExecFns;

verus! {

/// Whether `c` is a decimal digit.
pub open spec fn is_digit(c: char) -> bool {
    48 <= c as u32 && c as u32 <= 57
}

/// The numeric value of a digit character.
pub open spec fn digit_val(c: char) -> int {
    c as u32 - 48
}

/// Whether every character of `s` is a decimal digit.
pub open spec fn all_digits(s: Seq<char>) -> bool {
    forall|i: int| 0 <= i < s.len() ==> is_digit(#[trigger] s[i])
}

/// The value of a digit string, most significant digit first.
pub open spec fn digits_val(s: Seq<char>) -> int
    decreases s.len(),
{
    if s.len() == 0 {
        0
    } else {
        digits_val(s.drop_last()) * 10 + digit_val(s.last())
    }
}

/// Whether `s` is valid numeric text: an optional leading minus sign, then
/// at least one digit and nothing else, with the value in range of `i64`.
pub open spec fn is_num_text(s: Seq<char>) -> bool {
    if s.len() > 0 && s[0] == '-' {
        let d = s.subrange(1, s.len() as int);
        d.len() > 0 && all_digits(d) && -digits_val(d) >= i64::MIN
    } else {
        s.len() > 0 && all_digits(s) && digits_val(s) <= i64::MAX
    }
}

/// The number denoted by valid numeric text.
pub open spec fn num_text_val(s: Seq<char>) -> i64 {
    if s.len() > 0 && s[0] == '-' {
        (-digits_val(s.subrange(1, s.len() as int))) as i64
    } else {
        digits_val(s) as i64
    }
}

/// A digit string has a nonnegative value.
pub proof fn lemma_digits_val_nonneg(s: Seq<char>)
    requires
        all_digits(s),
    ensures
        digits_val(s) >= 0,
    decreases s.len(),
{
    if s.len() > 0 {
        lemma_digits_val_nonneg(s.drop_last());
    }
}

/// Extending a digit string on the right never decreases its value.
pub proof fn lemma_digits_val_extend(s: Seq<char>, st: int, j: int, k: int)
    requires
        0 <= st <= j <= k <= s.len(),
        all_digits(s.subrange(st, k)),
    ensures
        digits_val(s.subrange(st, j)) <= digits_val(s.subrange(st, k)),
    decreases k - j,
{
    if j < k {
        lemma_digits_val_extend(s, st, j, k - 1);
        assert(s.subrange(st, k - 1) =~= s.subrange(st, k).drop_last());
        assert(all_digits(s.subrange(st, k - 1)));
        let p = s.subrange(st, k - 1);
        lemma_digits_val_nonneg(p);
        assert(digits_val(s.subrange(st, k)) == digits_val(p) * 10 + digit_val(s.subrange(
            st,
            k,
        ).last()));
    }
}

/// Parses decimal text as a 64-bit signed number.  Returns `Some` exactly
/// on valid numeric text, and then returns exactly its value.
pub fn parse_number(s: &str) -> (r: Option<i64>)
    ensures
        is_num_text(s@) ==> r == Some(num_text_val(s@)),
        !is_num_text(s@) ==> r is None,
{
    let n = s.unicode_len();
    let neg = n > 0 && s.get_char(0) == '-';
    let start: usize = if neg {
        1
    } else {
        0
    };
    if n == start {
        return None;
    }
    let mut acc: i64 = 0;
    let mut i: usize = start;
    while i < n
        invariant
            start <= i <= n,
            n == s@.len(),
            start == 1 ==> s@[0] == '-',
            !neg ==> s@[0] != '-',
            start == if neg { 1int } else { 0int },
            all_digits(s@.subrange(start as int, i as int)),
            acc == -digits_val(s@.subrange(start as int, i as int)),
        decreases n - i,
    {
        let c = s.get_char(i);
        let cv = c as u32;
        if cv < 48 || cv > 57 {
            proof {
                assert(!is_digit(s@[i as int]));
                let whole = s@.subrange(start as int, n as int);
                assert(whole[i - start] == s@[i as int]);
                assert(!all_digits(whole));
                if !neg {
                    assert(s@.subrange(0, n as int) =~= s@);
                }
            }
            return None;
        }
        let d: i64 = (cv - 48) as i64;
        let next = match acc.checked_mul(10) {
            Some(m) => m.checked_sub(d),
            None => None,
        };
        proof {
            assert(s@.subrange(start as int, i as int + 1).drop_last() =~= s@.subrange(
                start as int,
                i as int,
            ));
            assert(s@.subrange(start as int, i as int + 1).last() == s@[i as int]);
        }
        match next {
            Some(a) => {
                acc = a;
            },
            None => {
                // The prefix already exceeds the number range, so the whole
                // text does too: its value only grows with more digits.
                proof {
                    let pre = s@.subrange(start as int, i as int);
                    let ext = s@.subrange(start as int, i as int + 1);
                    lemma_digits_val_nonneg(pre);
                    assert(digits_val(ext) == digits_val(pre) * 10 + digit_val(s@[i as int]));
                    assert(digits_val(ext) > i64::MAX + 1);
                    let whole = s@.subrange(start as int, n as int);
                    if all_digits(whole) {
                        assert(all_digits(ext)) by {
                            assert(forall|k: int|
                                0 <= k < ext.len() ==> ext[k] == whole[k] && is_digit(
                                    #[trigger] whole[k],
                                ));
                        }
                        lemma_digits_val_extend(s@, start as int, i as int + 1, n as int);
                        assert(digits_val(whole) > i64::MAX + 1);
                    }
                    if !neg {
                        assert(s@.subrange(0, n as int) =~= s@);
                    }
                    assert(!is_num_text(s@));
                }
                return None;
            },
        }
        i = i + 1;
    }
    proof {
        lemma_digits_val_nonneg(s@.subrange(start as int, i as int));
        if !neg {
            assert(s@.subrange(0, n as int) =~= s@);
        }
    }
    if neg {
        Some(acc)
    } else {
        if acc == i64::MIN {
            return None;
        }
        Some(-acc)
    }
}

/// The digit character for a value below ten.
pub open spec fn digit_char(d: int) -> char {
    if d == 0 {
        '0'
    } else if d == 1 {
        '1'
    } else if d == 2 {
        '2'
    } else if d == 3 {
        '3'
    } else if d == 4 {
        '4'
    } else if d == 5 {
        '5'
    } else if d == 6 {
        '6'
    } else if d == 7 {
        '7'
    } else if d == 8 {
        '8'
    } else {
        '9'
    }
}

/// The decimal text of a nonnegative number, most significant digit first.
pub open spec fn nat_text(n: nat) -> Seq<char>
    decreases n,
{
    if n < 10 {
        seq![digit_char(n as int)]
    } else {
        nat_text(n / 10) + seq![digit_char((n % 10) as int)]
    }
}

/// The decimal text of a number: a minus sign and the magnitude's digits
/// when negative, the digits alone otherwise.
pub open spec fn i64_text(n: i64) -> Seq<char> {
    if n < 0 {
        seq!['-'] + nat_text((-(n as int)) as nat)
    } else {
        nat_text(n as nat)
    }
}

/// The one-character string for a value below ten.
fn digit_str(d: u64) -> (s: &'static str)
    requires
        d < 10,
    ensures
        s@ =~= seq![digit_char(d as int)],
{
    if d == 0 {
        proof {
            reveal_strlit("0");
        }
        "0"
    } else if d == 1 {
        proof {
            reveal_strlit("1");
        }
        "1"
    } else if d == 2 {
        proof {
            reveal_strlit("2");
        }
        "2"
    } else if d == 3 {
        proof {
            reveal_strlit("3");
        }
        "3"
    } else if d == 4 {
        proof {
            reveal_strlit("4");
        }
        "4"
    } else if d == 5 {
        proof {
            reveal_strlit("5");
        }
        "5"
    } else if d == 6 {
        proof {
            reveal_strlit("6");
        }
        "6"
    } else if d == 7 {
        proof {
            reveal_strlit("7");
        }
        "7"
    } else if d == 8 {
        proof {
            reveal_strlit("8");
        }
        "8"
    } else {
        proof {
            reveal_strlit("9");
        }
        "9"
    }
}

/// Renders a nonnegative number as decimal text.
fn nat_to_string(n: u64) -> (s: String)
    ensures
        s@ == nat_text(n as nat),
    decreases n,
{
    if n < 10 {
        String::from_str(digit_str(n))
    } else {
        let mut s = nat_to_string(n / 10);
        s.append(digit_str(n % 10));
        s
    }
}

/// Renders a number as decimal text.
pub fn i64_to_string(n: i64) -> (s: String)
    ensures
        s@ == i64_text(n),
{
    if n >= 0 {
        nat_to_string(n as u64)
    } else {
        let mag: u64 = (-(n as i128)) as u64;
        let mut s = String::from_str("-");
        proof {
            reveal_strlit("-");
            assert("-"@ =~= seq!['-']);
        }
        let tail = nat_to_string(mag);
        s.append(tail.as_str());
        s
    }
}

} // verus!
