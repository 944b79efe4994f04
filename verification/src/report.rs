//! Report-level helpers: actor master data and the operator's fight
//! selection.

use vstd::prelude::*;

verus! {

/// Master data of one actor of a report.
#[derive(Clone, PartialEq, Eq, Debug)]
pub struct ActorInfo {
    pub name: String,
    pub type_: String,
    pub subtype: String,
}

/// A non-empty string of decimal digits (as bytes).
pub open spec fn is_digits(s: Seq<u8>) -> bool {
    s.len() > 0 && forall|i: int| 0 <= i < s.len() ==> (48 <= #[trigger] s[i] && s[i] <= 57)
}

/// The number a digit string denotes, most significant digit first.
pub open spec fn digits_value(s: Seq<u8>) -> int
    decreases s.len(),
{
    if s.len() == 0 {
        0
    } else {
        digits_value(s.drop_last()) * 10 + (s.last() - 48)
    }
}

proof fn lemma_digits_value_nonneg(s: Seq<u8>)
    requires
        forall|i: int| 0 <= i < s.len() ==> 48 <= s[i],
    ensures
        digits_value(s) >= 0,
    decreases s.len(),
{
    if s.len() > 0 {
        lemma_digits_value_nonneg(s.drop_last());
    }
}

/// For a digit string, the value of a prefix never exceeds the value of the
/// whole string.
proof fn lemma_digits_prefix_le(s: Seq<u8>, i: int)
    requires
        0 <= i <= s.len(),
        forall|k: int| 0 <= k < s.len() ==> (48 <= #[trigger] s[k] && s[k] <= 57),
    ensures
        digits_value(s.take(i)) <= digits_value(s),
    decreases s.len() - i,
{
    if i < s.len() {
        assert(s.take(i + 1).drop_last() =~= s.take(i));
        assert(s.take(i + 1).last() == s[i]);
        lemma_digits_value_nonneg(s.take(i));
        lemma_digits_prefix_le(s, i + 1);
    } else {
        assert(s.take(i) =~= s);
    }
}

/// Parses the operator's fight selection: a decimal index that must name one
/// of the `n_fights` listed fights. Anything else (not a digit string, or an
/// index at or past `n_fights`) yields `None`, upon which the caller prompts
/// again.
pub fn parse_selection(input: &Vec<u8>, n_fights: usize) -> (r: Option<usize>)
    ensures
        match r {
            Some(v) => is_digits(input@) && digits_value(input@) == v && v < n_fights,
            None => !is_digits(input@) || digits_value(input@) >= n_fights,
        },
{
    if input.len() == 0 {
        return None;
    }
    let mut acc: usize = 0;
    let mut i: usize = 0;
    while i < input.len()
        invariant
            i <= input.len(),
            forall|k: int| 0 <= k < i ==> (48 <= #[trigger] input@[k] && input@[k] <= 57),
            acc == digits_value(input@.take(i as int)),
        decreases input.len() - i,
    {
        let b = input[i];
        if b < 48 || b > 57 {
            return None;
        }
        let d = (b - 48) as usize;
        proof {
            assert(input@.take(i as int + 1).drop_last() =~= input@.take(i as int));
            assert(input@.take(i as int + 1).last() == input@[i as int]);
        }
        if acc > (usize::MAX - d) / 10 {
            // The accumulated digits already exceed the machine range, and
            // further digits can only grow the value, so no listed fight can
            // be denoted.
            proof {
                assert(acc * 10 + d > usize::MAX) by (nonlinear_arith)
                    requires
                        acc > (usize::MAX - d) / 10,
                        0 <= d <= 9,
                ;
                if is_digits(input@) {
                    lemma_digits_prefix_le(input@, i as int + 1);
                }
            }
            return None;
        }
        proof {
            assert(acc * 10 + d <= usize::MAX) by (nonlinear_arith)
                requires
                    acc <= (usize::MAX - d) / 10,
                    0 <= d <= 9,
            ;
        }
        acc = acc * 10 + d;
        i = i + 1;
    }
    proof {
        assert(input@.take(input@.len() as int) =~= input@);
    }
    if acc < n_fights {
        Some(acc)
    } else {
        None
    }
}

} // verus!
