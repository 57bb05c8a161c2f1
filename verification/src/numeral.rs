//! Decimal numerals: the shape and value that Rust's unsigned-integer parsing
//! accepts, as a specification, and a verified parser against it.

use vstd::prelude::*;

verus! {

/// An ASCII decimal digit.
pub open spec fn is_digit(c: char) -> bool {
    '0' <= c && c <= '9'
}

/// The value of one digit character.
pub open spec fn digit_val(c: char) -> nat {
    (c as int - '0' as int) as nat
}

/// Every character of `s` is a digit.
pub open spec fn all_digits(s: Seq<char>) -> bool {
    forall|i: int| 0 <= i < s.len() ==> is_digit(s[i])
}

/// The value of a digit string, most significant digit first.
pub open spec fn digits_value(s: Seq<char>) -> nat
    decreases s.len(),
{
    if s.len() == 0 {
        0
    } else {
        digits_value(s.drop_last()) * 10 + digit_val(s.last())
    }
}

/// The digits of a numeral: what stands after an optional leading `+`.
pub open spec fn numeral_digits(s: Seq<char>) -> Seq<char> {
    if s.len() > 0 && s[0] == '+' {
        s.subrange(1, s.len() as int)
    } else {
        s
    }
}

/// A well-formed unsigned numeral: an optional leading `+`, then at least one
/// digit and nothing else. This is the shape `str::parse` accepts for the
/// unsigned integer types.
pub open spec fn is_numeral(s: Seq<char>) -> bool {
    numeral_digits(s).len() > 0 && all_digits(numeral_digits(s))
}

/// The numeric value of a numeral.
pub open spec fn numeral_value(s: Seq<char>) -> nat {
    digits_value(numeral_digits(s))
}

/// What `str::parse::<u64>` returns on `s`: the value when `s` is a numeral
/// whose value fits in 64 bits, and nothing otherwise.
pub open spec fn parsed_u64(s: Seq<char>) -> Option<u64> {
    if is_numeral(s) && numeral_value(s) <= u64::MAX {
        Some(numeral_value(s) as u64)
    } else {
        None
    }
}

/// What `str::parse::<u32>` returns on `s`.
pub open spec fn parsed_u32(s: Seq<char>) -> Option<u32> {
    if is_numeral(s) && numeral_value(s) <= u32::MAX {
        Some(numeral_value(s) as u32)
    } else {
        None
    }
}

/// A digit string is worth at least as much as any of its prefixes.
proof fn lemma_digits_value_prefix_le(s: Seq<char>, i: int)
    requires
        0 <= i <= s.len(),
    ensures
        digits_value(s.subrange(0, i)) <= digits_value(s),
    decreases s.len() - i,
{
    if i == s.len() {
        assert(s.subrange(0, i) =~= s);
    } else {
        let a = s.subrange(0, i);
        let b = s.subrange(0, i + 1);
        assert(b.drop_last() =~= a);
        assert(digits_value(b) == digits_value(a) * 10 + digit_val(b.last()));
        lemma_digits_value_prefix_le(s, i + 1);
    }
}

/// What `str::trim` returns: the string with its leading and trailing
/// whitespace removed.
pub uninterp spec fn trimmed_of(s: Seq<char>) -> Seq<char>;

/// Relies on `str::trim`: it removes leading and trailing Unicode whitespace,
/// so it never returns a longer string, and returns a string of printable
/// ASCII characters (`'!'` through `'~'`, no whitespace among them) unchanged.
#[verifier::external_body]
pub(crate) fn trim_str(s: &str) -> (r: &str)
    ensures
        r@ == trimmed_of(s@),
        r@.len() <= s@.len(),
        (forall|i: int| 0 <= i < s@.len() ==> '!' <= s@[i] && s@[i] <= '~') ==> r@ == s@,
{
    s.trim()
}

/// Parses an unsigned 64-bit decimal numeral exactly as `str::parse::<u64>`
/// does: an optional leading `+`, then at least one decimal digit and nothing
/// else, rejecting values over `u64::MAX`.
pub fn parse_u64(s: &str) -> (r: Option<u64>)
    ensures
        r == parsed_u64(s@),
{
    let len = s.unicode_len();
    if len == 0 {
        return None;
    }
    let first = s.get_char(0);
    let start: usize = if first == '+' {
        1
    } else {
        0
    };
    if start == len {
        // a bare sign with no digits
        return None;
    }
    let ghost digits = numeral_digits(s@);
    proof {
        assert(digits =~= s@.subrange(start as int, len as int));
    }
    let mut i: usize = start;
    let mut acc: u64 = 0;
    while i < len
        invariant
            start <= i <= len,
            len == s@.len(),
            digits == s@.subrange(start as int, len as int),
            digits == numeral_digits(s@),
            digits.len() == len - start,
            acc == digits_value(digits.subrange(0, i - start)),
            all_digits(digits.subrange(0, i - start)),
        decreases len - i,
    {
        let c = s.get_char(i);
        let code = c as u32;
        let ghost pre = digits.subrange(0, i - start);
        let ghost ext = digits.subrange(0, i + 1 - start);
        proof {
            assert(ext.drop_last() =~= pre);
            assert(ext.last() == digits[i - start]);
            assert(digits[i - start] == c);
        }
        if code < 48 || code > 57 {
            proof {
                assert(!is_digit(digits[i - start]));
                assert(!all_digits(digits));
            }
            return None;
        }
        let d = (code - 48) as u64;
        proof {
            assert(digit_val(c) == d);
            assert(digits_value(ext) == digits_value(pre) * 10 + d);
        }
        let scaled = match acc.checked_mul(10) {
            Some(m) => m,
            None => {
                proof {
                    lemma_digits_value_prefix_le(digits, i + 1 - start);
                    assert(digits_value(ext) > u64::MAX);
                }
                return None;
            },
        };
        let next = match scaled.checked_add(d) {
            Some(n) => n,
            None => {
                proof {
                    lemma_digits_value_prefix_le(digits, i + 1 - start);
                    assert(digits_value(ext) > u64::MAX);
                }
                return None;
            },
        };
        acc = next;
        i = i + 1;
    }
    proof {
        assert(digits.subrange(0, len - start) =~= digits);
        assert(is_numeral(s@));
    }
    Some(acc)
}

/// Parses an unsigned 32-bit decimal numeral exactly as `str::parse::<u32>`
/// does.
pub fn parse_u32(s: &str) -> (r: Option<u32>)
    ensures
        r == parsed_u32(s@),
{
    match parse_u64(s) {
        Some(v) => {
            if v <= 0xFFFF_FFFF {
                Some(v as u32)
            } else {
                None
            }
        },
        None => None,
    }
}

} // verus!
