//! Decoding of numeric on-chain values.
//!
//! Numbers arrive from the chain as decimal strings. They are parsed into
//! signed 64-bit integers; anything that is not a plain decimal number in
//! range is a decode error, which aborts the pipeline rather than dropping
//! the record.

use vstd::prelude::*;

verus! {

/// A decode error: the event payload did not match the declared schema.
#[derive(Debug)]
pub struct DecodeError {
    pub message: String,
}

/// Whether the character is a decimal digit.
pub open spec fn spec_is_digit(c: char) -> bool {
    48 <= c as u32 <= 57
}

/// The value of a decimal digit.
pub open spec fn spec_digit_value(c: char) -> int {
    c as u32 - 48
}

/// Whether the string is a plain decimal number: nonempty, digits only.
pub open spec fn spec_is_decimal(s: Seq<char>) -> bool {
    s.len() > 0 && forall|i: int| 0 <= i < s.len() ==> spec_is_digit(#[trigger] s[i])
}

/// A decimal string that parses into a signed 64-bit value.
pub open spec fn spec_parses(s: Seq<char>) -> bool {
    spec_is_decimal(s) && spec_decimal_value(s) <= i64::MAX
}

/// The number a digit string denotes.
pub open spec fn spec_decimal_value(s: Seq<char>) -> int
    decreases s.len(),
{
    if s.len() == 0 {
        0
    } else {
        spec_decimal_value(s.drop_last()) * 10 + spec_digit_value(s.last())
    }
}

/// Parses a decimal string into a signed 64-bit integer. Returns the
/// value exactly when the string is nonempty, holds digits only, and the
/// value fits; everything else is refused.
pub fn parse_i64(s: &str) -> (r: Option<i64>)
    ensures
        r is Some <==> spec_is_decimal(s@) && spec_decimal_value(s@) <= i64::MAX,
        r is Some ==> r->0 == spec_decimal_value(s@),
{
    let n = s.unicode_len();
    if n == 0 {
        return None;
    }
    let mut acc: u64 = 0;
    let mut i: usize = 0;
    while i < n
        invariant
            n == s@.len(),
            0 < n,
            i <= n,
            forall|j: int| 0 <= j < i ==> spec_is_digit(#[trigger] s@[j]),
            acc == spec_decimal_value(s@.take(i as int)),
            acc <= i64::MAX,
        decreases n - i,
    {
        let c = s.get_char(i);
        let cv = c as u32;
        if cv < 48 || cv > 57 {
            return None;
        }
        let d: u64 = (cv - 48) as u64;
        let limit: u64 = 9223372036854775807;
        if acc > (limit - d) / 10 {
            // The next digit would push the value past i64::MAX; with the
            // remaining digits appended it only grows, so the whole string
            // is out of range.
            proof {
                lemma_overflow_check(acc, d, limit);
                assert(spec_decimal_value(s@.take(i + 1)) == acc * 10 + d) by {
                    assert(s@.take(i + 1).drop_last() =~= s@.take(i as int));
                    assert(s@.take(i + 1).last() == s@[i as int]);
                };
                if spec_is_decimal(s@) {
                    lemma_decimal_value_monotone(s@, i + 1);
                }
            }
            return None;
        }
        proof {
            lemma_overflow_check(acc, d, limit);
        }
        let next: u64 = acc * 10 + d;
        proof {
            assert(s@.take(i + 1).drop_last() =~= s@.take(i as int));
            assert(s@.take(i + 1).last() == s@[i as int]);
        }
        acc = next;
        i = i + 1;
    }
    assert(s@.take(n as int) =~= s@);
    Some(acc as i64)
}

/// For nonnegative digits, `acc * 10 + d <= limit` exactly when
/// `acc <= (limit - d) / 10`.
proof fn lemma_overflow_check(acc: u64, d: u64, limit: u64)
    requires
        d <= limit,
    ensures
        acc * 10 + d <= limit <==> acc <= (limit - d) / 10,
{
    let x = (limit - d) as int;
    let q = x / 10;
    let rem = x % 10;
    assert(x == q * 10 + rem && 0 <= rem && rem < 10) by (nonlinear_arith)
        requires
            q == x / 10 && rem == x % 10 && x >= 0,
    ;
    if acc <= q {
        assert(acc * 10 <= q * 10) by (nonlinear_arith)
            requires
                acc <= q,
        ;
    } else {
        assert(acc * 10 >= (q + 1) * 10) by (nonlinear_arith)
            requires
                acc >= q + 1,
        ;
    }
}

/// A digit string's value only grows as digits are appended.
proof fn lemma_decimal_value_monotone(s: Seq<char>, k: int)
    requires
        0 <= k <= s.len(),
        forall|i: int| 0 <= i < s.len() ==> spec_is_digit(#[trigger] s[i]),
    ensures
        spec_decimal_value(s) >= spec_decimal_value(s.take(k)),
        spec_decimal_value(s) >= 0,
    decreases s.len(),
{
    if s.len() == 0 {
    } else {
        lemma_decimal_value_monotone(s.drop_last(), if k <= s.len() - 1 {
            k
        } else {
            s.len() - 1
        });
        assert(spec_decimal_value(s.drop_last()) >= 0);
        assert(spec_decimal_value(s) == spec_decimal_value(s.drop_last()) * 10 + spec_digit_value(
            s.last(),
        ));
        assert(spec_decimal_value(s.drop_last()) * 10 >= spec_decimal_value(s.drop_last()))
            by (nonlinear_arith)
            requires
                spec_decimal_value(s.drop_last()) >= 0,
        ;
        if k <= s.len() - 1 {
            assert(s.drop_last().take(k) =~= s.take(k));
        } else {
            assert(s.take(k) =~= s);
        }
    }
}

} // verus!
