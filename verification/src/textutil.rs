//! Small text primitives: string equality, and the decimal and boolean
//! vocabularies used by typed attribute values.

use vstd::prelude::*;

verus! {

/// Relies on `<str as PartialEq>::eq` of std: equal string slices have
/// equal character sequences, and conversely.
#[verifier::external_body]
pub fn str_eq(a: &str, b: &str) -> (r: bool)
    ensures
        r == (a@ == b@),
{
    a == b
}

/// Whether `c` is an ASCII decimal digit.
pub open spec fn sp_is_digit(c: char) -> bool {
    '0' <= c && c <= '9'
}

/// The value of a digit sequence read as a decimal numeral.
pub open spec fn sp_digits_val(s: Seq<char>) -> int
    decreases s.len(),
{
    if s.len() == 0 {
        0
    } else {
        sp_digits_val(s.drop_last()) * 10 + (s.last() as int - '0' as int)
    }
}

/// The digit part of a numeral: everything after an optional leading
/// `+`.
pub open spec fn sp_digit_part(s: Seq<char>) -> Seq<char> {
    if s.len() > 0 && s[0] == '+' {
        s.drop_first()
    } else {
        s
    }
}

/// The value of the decimal numeral `s`, if `s` is one `u32` admits: an
/// optional leading `+`, then one or more digits, with a value of at
/// most `u32::MAX`.  This is the vocabulary of `u32::from_str` of std.
pub open spec fn sp_u32(s: Seq<char>) -> Option<u32> {
    let d = sp_digit_part(s);
    if d.len() > 0 && (forall|i: int| 0 <= i < d.len() ==> sp_is_digit(#[trigger] d[i]))
        && sp_digits_val(d) <= u32::MAX {
        Some(sp_digits_val(d) as u32)
    } else {
        None
    }
}

proof fn lemma_digits_val_nonneg(s: Seq<char>)
    requires
        forall|i: int| 0 <= i < s.len() ==> sp_is_digit(#[trigger] s[i]),
    ensures
        sp_digits_val(s) >= 0,
    decreases s.len(),
{
    if s.len() > 0 {
        lemma_digits_val_nonneg(s.drop_last());
    }
}

proof fn lemma_digits_val_prefix_le(s: Seq<char>, j: int)
    requires
        0 <= j <= s.len(),
        sp_digits_val(s.take(j)) >= 0,
        forall|i: int| j <= i < s.len() ==> sp_is_digit(#[trigger] s[i]),
    ensures
        sp_digits_val(s.take(j)) <= sp_digits_val(s),
    decreases s.len() - j,
{
    if j < s.len() {
        let t = s.take(j + 1);
        assert(t.drop_last() =~= s.take(j));
        assert(t.last() == s[j]);
        assert(sp_digits_val(t) == sp_digits_val(s.take(j)) * 10 + (t.last() as int - '0' as int));
        assert(sp_is_digit(s[j]));
        assert(sp_digits_val(s.take(j)) <= sp_digits_val(t));
        lemma_digits_val_prefix_le(s, j + 1);
    } else {
        assert(s.take(j) =~= s);
    }
}

/// Parses a decimal `u32`, exactly as `sp_u32` says.
#[verifier::loop_isolation(false)]
pub fn parse_u32(s: &str) -> (r: Option<u32>)
    ensures
        r == sp_u32(s@),
{
    let n = s.unicode_len();
    if n == 0 {
        return None;
    }
    let first = s.get_char(0);
    let start: usize = if first == '+' {
        1
    } else {
        0
    };
    let ghost d = sp_digit_part(s@);
    proof {
        assert(d =~= s@.subrange(start as int, n as int));
    }
    if start == n {
        return None;
    }
    let mut acc: u32 = 0;
    let mut i: usize = start;
    while i < n
        invariant
            start <= i <= n,
            n == s@.len(),
            d == s@.subrange(start as int, n as int),
            forall|k: int| 0 <= k < i - start ==> sp_is_digit(#[trigger] d[k]),
            acc == sp_digits_val(d.take(i - start)),
        decreases n - i,
    {
        let c = s.get_char(i);
        proof {
            assert(d[i - start] == s@[i as int]);
        }
        if c < '0' || c > '9' {
            proof {
                assert(0 <= i - start < d.len() && !sp_is_digit(d[i - start]));
            }
            return None;
        }
        let digit: u32 = (c as u32) - ('0' as u32);
        let wide: u64 = (acc as u64) * 10 + (digit as u64);
        proof {
            assert(d.take(i - start + 1).drop_last() =~= d.take(i - start));
            assert(d.take(i - start + 1).last() == d[i - start]);
            assert(sp_digits_val(d.take(i - start + 1)) == acc * 10 + (c as int - '0' as int));
        }
        if wide > u32::MAX as u64 {
            proof {
                if forall|k: int| 0 <= k < d.len() ==> sp_is_digit(#[trigger] d[k]) {
                    lemma_digits_val_prefix_le(d, i - start + 1);
                }
            }
            return None;
        }
        acc = wide as u32;
        i = i + 1;
    }
    proof {
        assert(d.take(n - start) =~= d);
    }
    Some(acc)
}

/// The boolean vocabulary of the reference reader: the listed words,
/// and nothing else, denote a boolean.
pub open spec fn sp_bool(s: Seq<char>) -> Option<bool> {
    if s == "t"@ || s == "true"@ || s == "y"@ || s == "yes"@ || s == "on"@ || s == "1"@ {
        Some(true)
    } else if s == "f"@ || s == "false"@ || s == "n"@ || s == "no"@ || s == "off"@ || s == "0"@ {
        Some(false)
    } else {
        None
    }
}

/// Parses a boolean attribute value, exactly as `sp_bool` says.
pub fn parse_bool(s: &str) -> (r: Option<bool>)
    ensures
        r == sp_bool(s@),
{
    if str_eq(s, "t") || str_eq(s, "true") || str_eq(s, "y") || str_eq(s, "yes") || str_eq(s, "on")
        || str_eq(s, "1") {
        Some(true)
    } else if str_eq(s, "f") || str_eq(s, "false") || str_eq(s, "n") || str_eq(s, "no") || str_eq(
        s,
        "off",
    ) || str_eq(s, "0") {
        Some(false)
    } else {
        None
    }
}

} // verus!
