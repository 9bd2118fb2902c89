//! The limits that are checked before an option is accepted.

use vstd::prelude::*;
use vstd::arithmetic::power2::{is_pow2, is_pow2_equiv, pow2};
use vstd::arithmetic::power::{lemma_pow_positive, pow};
use vstd::utf8::encode_utf8;

verus! {

/// The longest label that a btrfs volume can carry, in bytes.
pub const LABEL_MAX_BYTES: usize = 255;

/// The largest size of a b-tree node, in bytes.
pub const NODESIZE_MAX: usize = 16384;

/// How many bytes `text` takes in UTF-8, the encoding of `str`.
pub open spec fn byte_len(text: Seq<char>) -> nat {
    encode_utf8(text).len()
}

/// `n` is one of 1, 2, 4, 8, ...
pub open spec fn is_power_of_two(n: int) -> bool {
    exists|k: nat| n == #[trigger] pow2(k)
}

/// A node size is accepted if it is a power of two and no larger than
/// [`NODESIZE_MAX`].
pub open spec fn valid_nodesize(n: int) -> bool {
    is_power_of_two(n) && n <= NODESIZE_MAX
}

/// The closed form agrees with the definition by halving, under which a
/// number is a power of two exactly if it is 1, or even with a half that is
/// a power of two.
pub proof fn lemma_power_of_two_by_halving(n: int)
    ensures
        is_power_of_two(n) <==> is_pow2(n),
{
    is_pow2_equiv(n);
    if is_power_of_two(n) {
        let k = choose|k: nat| n == #[trigger] pow2(k);
        lemma_pow_positive(2, k);
    }
    if is_pow2(n) {
        let k = choose|k: nat| pow(2, k) == n;
        lemma_pow_positive(2, k);
        assert(n == pow2(k));
    }
}

/// The byte length of `text`.
pub fn byte_length(text: &str) -> (n: usize)
    ensures
        n == byte_len(text@),
{
    text.as_bytes().len()
}

/// Tells whether `n` is a power of two.
pub fn power_of_two(n: usize) -> (yes: bool)
    ensures
        yes == is_power_of_two(n as int),
{
    let mut m = n;
    while m > 1 && m % 2 == 0
        invariant
            is_pow2(m as int) == is_pow2(n as int),
        decreases m,
    {
        proof {
            reveal(is_pow2);
        }
        m = m / 2;
    }
    proof {
        reveal(is_pow2);
        lemma_power_of_two_by_halving(n as int);
    }
    m == 1
}

/// Tells whether `n` is accepted as a node size.
pub fn nodesize_accepted(n: usize) -> (yes: bool)
    ensures
        yes == valid_nodesize(n as int),
{
    n <= NODESIZE_MAX && power_of_two(n)
}

} // verus!
