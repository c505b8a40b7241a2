//! Validation of the one numeric argument a command takes: the skip
//! count.

use vstd::prelude::*;
use crate::protocol::CommandError;

verus! {

/// Every byte is an ASCII decimal digit.
pub open spec fn all_digits(s: Seq<u8>) -> bool {
    forall|i: int| 0 <= i < s.len() ==> 48 <= #[trigger] s[i] <= 57
}

/// The number a digit string denotes, most significant digit first.
pub open spec fn digits_value(s: Seq<u8>) -> int
    decreases s.len(),
{
    if s.len() == 0 {
        0
    } else {
        digits_value(s.drop_last()) * 10 + (s.last() - 48)
    }
}

/// A digit string denotes nothing negative.
proof fn lemma_digits_value_nonneg(s: Seq<u8>)
    requires
        all_digits(s),
    ensures
        digits_value(s) >= 0,
    decreases s.len(),
{
    if s.len() > 0 {
        assert(all_digits(s.drop_last()));
        lemma_digits_value_nonneg(s.drop_last());
    }
}

/// Appending digits never shrinks the denoted number, so a prefix that
/// already exceeds a bound settles the whole string's fate.
proof fn lemma_digits_prefix_le(s: Seq<u8>, j: int)
    requires
        all_digits(s),
        0 <= j <= s.len(),
    ensures
        digits_value(s.take(j)) <= digits_value(s),
    decreases s.len() - j,
{
    if j == s.len() {
        assert(s.take(j) =~= s);
    } else {
        assert(s.take(j + 1).drop_last() =~= s.take(j));
        assert(all_digits(s.take(j)));
        lemma_digits_value_nonneg(s.take(j));
        lemma_digits_prefix_le(s, j + 1);
    }
}

/// Parses the skip-count argument.
///
/// An absent argument means one track. Otherwise the argument must be a
/// number of at least one written in decimal digits and fitting the
/// count's range; anything else — a sign, other characters, zero, or a
/// number too large — is rejected as `InvalidArgument`. In particular a
/// count of zero or less is never accepted.
pub fn parse_skip_count(arg: &[u8]) -> (r: Result<u64, CommandError>)
    ensures
        arg@.len() == 0 ==> r == Ok::<u64, CommandError>(1u64),
        arg@.len() > 0 ==> r == (if all_digits(arg@) && 1 <= digits_value(arg@) <= u64::MAX {
            Ok::<u64, CommandError>(digits_value(arg@) as u64)
        } else {
            Err::<u64, CommandError>(CommandError::InvalidArgument)
        }),
{
    if arg.len() == 0 {
        return Ok(1);
    }
    let mut acc: u64 = 0;
    let mut i: usize = 0;
    while i < arg.len()
        invariant
            0 <= i <= arg@.len(),
            all_digits(arg@.take(i as int)),
            acc == digits_value(arg@.take(i as int)),
        decreases arg@.len() - i,
    {
        let b = arg[i];
        if b < 48 || b > 57 {
            return Err(CommandError::InvalidArgument);
        }
        let d = (b - 48) as u64;
        proof {
            assert(arg@.take(i + 1).drop_last() =~= arg@.take(i as int));
            vstd::arithmetic::div_mod::lemma_fundamental_div_mod((u64::MAX - d) as int, 10);
        }
        if acc > (u64::MAX - d) / 10 {
            proof {
                if all_digits(arg@) {
                    lemma_digits_prefix_le(arg@, i + 1);
                }
            }
            return Err(CommandError::InvalidArgument);
        }
        acc = acc * 10 + d;
        i = i + 1;
    }
    proof {
        assert(arg@.take(arg@.len() as int) =~= arg@);
    }
    if acc == 0 {
        Err(CommandError::InvalidArgument)
    } else {
        Ok(acc)
    }
}

} // verus!
