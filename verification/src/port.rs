//! Parsing of the port argument: decimal text in the range 0..=65535.

use vstd::prelude::*;

verus! {

/// A decimal digit, `'0'` through `'9'`.
pub open spec fn is_decimal_digit(c: char) -> bool {
    '0' <= c && c <= '9'
}

/// The numeric value of a decimal digit.
pub open spec fn digit_value(c: char) -> int {
    c as int - '0' as int
}

/// Every character of `s` is a decimal digit.
pub open spec fn all_decimal_digits(s: Seq<char>) -> bool {
    forall|i: int| 0 <= i < s.len() ==> is_decimal_digit(s[i])
}

/// The number denoted by a sequence of decimal digits, most significant first.
pub open spec fn decimal_value(s: Seq<char>) -> int
    decreases s.len(),
{
    if s.len() == 0 {
        0
    } else {
        decimal_value(s.drop_last()) * 10 + digit_value(s.last())
    }
}

/// Text that denotes a port: non-empty, all decimal digits, value at most 65535.
pub open spec fn valid_port_text(s: Seq<char>) -> bool {
    &&& s.len() > 0
    &&& all_decimal_digits(s)
    &&& decimal_value(s) <= 65535
}

proof fn lemma_decimal_value_nonneg(s: Seq<char>)
    requires
        all_decimal_digits(s),
    ensures
        decimal_value(s) >= 0,
    decreases s.len(),
{
    if s.len() > 0 {
        assert(all_decimal_digits(s.drop_last()));
        lemma_decimal_value_nonneg(s.drop_last());
    }
}

proof fn lemma_decimal_value_prefix_le(s: Seq<char>, i: int)
    requires
        all_decimal_digits(s),
        0 <= i <= s.len(),
    ensures
        decimal_value(s.subrange(0, i)) <= decimal_value(s),
    decreases s.len() - i,
{
    if i == s.len() {
        assert(s.subrange(0, i) =~= s);
    } else {
        let shorter = s.subrange(0, i);
        let longer = s.subrange(0, i + 1);
        assert(longer.drop_last() =~= shorter);
        assert(all_decimal_digits(shorter));
        lemma_decimal_value_nonneg(shorter);
        assert(decimal_value(longer) == decimal_value(shorter) * 10 + digit_value(s[i]));
        lemma_decimal_value_prefix_le(s, i + 1);
    }
}

/// Parse the port argument. Returns the denoted port for valid decimal
/// text in range, and `None` for anything else: empty text, a character
/// that is not a decimal digit, or a value above 65535.
pub fn parse_port(s: &str) -> (r: Option<u16>)
    ensures
        match r {
            Some(p) => valid_port_text(s@) && p == decimal_value(s@),
            None => !valid_port_text(s@),
        },
{
    let n = s.unicode_len();
    if n == 0 {
        return None;
    }
    let mut i: usize = 0;
    let mut val: u32 = 0;
    while i < n
        invariant
            0 < n == s@.len(),
            0 <= i <= n,
            all_decimal_digits(s@.subrange(0, i as int)),
            val == decimal_value(s@.subrange(0, i as int)),
            val <= 65535,
        decreases n - i,
    {
        let c = s.get_char(i);
        let code = c as u32;
        if code < 48 || code > 57 {
            assert(!is_decimal_digit(s@[i as int]));
            return None;
        }
        let d = code - 48;
        let next = val * 10 + d;
        proof {
            let prefix = s@.subrange(0, i as int);
            let extended = s@.subrange(0, i as int + 1);
            assert(extended.drop_last() =~= prefix);
            assert(extended.last() == s@[i as int]);
            assert(decimal_value(extended) == decimal_value(prefix) * 10 + digit_value(s@[i as int]));
        }
        if next > 65535 {
            proof {
                if all_decimal_digits(s@) {
                    lemma_decimal_value_prefix_le(s@, i as int + 1);
                }
            }
            return None;
        }
        val = next;
        i = i + 1;
    }
    proof {
        assert(s@.subrange(0, n as int) =~= s@);
    }
    Some(val as u16)
}

} // verus!
