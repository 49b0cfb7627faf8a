//! The total order on fungible identifiers.
//!
//! Every `Token` sorts strictly below every `Coin`; within a variant,
//! payloads compare lexicographically by character. The cross-variant order
//! is deliberately *not* the numeric order of the binary discriminants
//! (`Coin` = 0, `Token` = 1): the two orders are inverted relative to each
//! other, and both are fixed by the stored keys that already exist.

use core::cmp::Ordering;
use vstd::prelude::*;

use crate::Fungible;
use crate::FungibleAbs;

verus! {

/// Lexicographic comparison of two character sequences: the first differing
/// position decides; a proper prefix sorts below its extensions.
pub open spec fn lex_cmp(a: Seq<char>, b: Seq<char>) -> Ordering
    decreases a.len(),
{
    if a.len() == 0 && b.len() == 0 {
        Ordering::Equal
    } else if a.len() == 0 {
        Ordering::Less
    } else if b.len() == 0 {
        Ordering::Greater
    } else if a[0] < b[0] {
        Ordering::Less
    } else if b[0] < a[0] {
        Ordering::Greater
    } else {
        lex_cmp(a.drop_first(), b.drop_first())
    }
}

/// The order on identifier models: variant-stratified, lexicographic within
/// a variant.
pub open spec fn fungible_cmp(a: FungibleAbs, b: FungibleAbs) -> Ordering {
    match (a, b) {
        (FungibleAbs::Coin(x), FungibleAbs::Coin(y)) => lex_cmp(x, y),
        (FungibleAbs::Token(x), FungibleAbs::Token(y)) => lex_cmp(x, y),
        (FungibleAbs::Coin(_), FungibleAbs::Token(_)) => Ordering::Greater,
        (FungibleAbs::Token(_), FungibleAbs::Coin(_)) => Ordering::Less,
    }
}

/// Lexicographic comparison yields `Equal` exactly on equal sequences.
pub proof fn lemma_lex_cmp_equal_iff(a: Seq<char>, b: Seq<char>)
    ensures
        lex_cmp(a, b) == Ordering::Equal <==> a == b,
    decreases a.len(),
{
    if a.len() == 0 && b.len() == 0 {
        assert(a =~= b);
    } else if a.len() != 0 && b.len() != 0 {
        lemma_lex_cmp_equal_iff(a.drop_first(), b.drop_first());
        if lex_cmp(a, b) == Ordering::Equal {
            assert forall|i: int| 0 <= i < a.len() implies a[i] == b[i] by {
                if i > 0 {
                    assert(a.drop_first()[i - 1] == a[i]);
                    assert(b.drop_first()[i - 1] == b[i]);
                }
            }
            assert(a =~= b);
        }
        if a == b {
            assert(a.drop_first() =~= b.drop_first());
        }
    }
}

/// `Less` and `Greater` are mirror images under swapping the arguments.
pub proof fn lemma_lex_cmp_flip(a: Seq<char>, b: Seq<char>)
    ensures
        lex_cmp(a, b) == Ordering::Less <==> lex_cmp(b, a) == Ordering::Greater,
    decreases a.len(),
{
    if a.len() != 0 && b.len() != 0 {
        lemma_lex_cmp_flip(a.drop_first(), b.drop_first());
    }
}

/// Lexicographic comparison is transitive in its strict part.
pub proof fn lemma_lex_cmp_trans(a: Seq<char>, b: Seq<char>, c: Seq<char>)
    requires
        lex_cmp(a, b) == Ordering::Less,
        lex_cmp(b, c) == Ordering::Less,
    ensures
        lex_cmp(a, c) == Ordering::Less,
    decreases a.len(),
{
    if a.len() != 0 && b.len() != 0 && c.len() != 0 {
        if a[0] == b[0] && b[0] == c[0] {
            lemma_lex_cmp_trans(a.drop_first(), b.drop_first(), c.drop_first());
        }
    }
}

/// Skipping an equal prefix does not change the comparison.
pub proof fn lemma_lex_cmp_common_prefix(a: Seq<char>, b: Seq<char>, i: int)
    requires
        0 <= i <= a.len(),
        i <= b.len(),
        forall|j: int| 0 <= j < i ==> a[j] == b[j],
    ensures
        lex_cmp(a, b) == lex_cmp(a.skip(i), b.skip(i)),
    decreases i,
{
    if i == 0 {
        assert(a.skip(0) =~= a);
        assert(b.skip(0) =~= b);
    } else {
        assert(a[0] == b[0]);
        lemma_lex_cmp_common_prefix(a.drop_first(), b.drop_first(), i - 1);
        assert(a.drop_first().skip(i - 1) =~= a.skip(i));
        assert(b.drop_first().skip(i - 1) =~= b.skip(i));
    }
}

/// Three-way comparison of two strings in lexicographic character order.
pub fn str_compare(a: &str, b: &str) -> (r: Ordering)
    ensures
        r == lex_cmp(a@, b@),
{
    let a_len = a.unicode_len();
    let b_len = b.unicode_len();
    let mut i: usize = 0;
    while i < a_len && i < b_len
        invariant
            a_len == a@.len(),
            b_len == b@.len(),
            i <= a_len,
            i <= b_len,
            forall|j: int| 0 <= j < i ==> a@[j] == b@[j],
        decreases a_len - i,
    {
        let ca = a.get_char(i);
        let cb = b.get_char(i);
        if ca < cb {
            proof {
                lemma_lex_cmp_common_prefix(a@, b@, i as int);
                assert(a@.skip(i as int)[0] == a@[i as int]);
                assert(b@.skip(i as int)[0] == b@[i as int]);
            }
            return Ordering::Less;
        }
        if cb < ca {
            proof {
                lemma_lex_cmp_common_prefix(a@, b@, i as int);
                assert(a@.skip(i as int)[0] == a@[i as int]);
                assert(b@.skip(i as int)[0] == b@[i as int]);
            }
            return Ordering::Greater;
        }
        i = i + 1;
    }
    proof {
        lemma_lex_cmp_common_prefix(a@, b@, i as int);
    }
    if a_len < b_len {
        Ordering::Less
    } else if b_len < a_len {
        Ordering::Greater
    } else {
        proof {
            assert(a@.skip(i as int) =~= Seq::<char>::empty());
            assert(b@.skip(i as int) =~= Seq::<char>::empty());
        }
        Ordering::Equal
    }
}

impl PartialOrd for Fungible {
    /// The total order of the crate's model: `Token` below `Coin`,
    /// lexicographic within a variant. Always `Some`.
    fn partial_cmp(&self, other: &Self) -> (r: Option<Ordering>) {
        match (self, other) {
            (Fungible::Coin(a), Fungible::Coin(b)) => Some(str_compare(a.as_str(), b.as_str())),
            (Fungible::Token(a), Fungible::Token(b)) => Some(str_compare(a.as_str(), b.as_str())),
            (Fungible::Coin(_), Fungible::Token(_)) => Some(Ordering::Greater),
            (Fungible::Token(_), Fungible::Coin(_)) => Some(Ordering::Less),
        }
    }
}

impl vstd::std_specs::cmp::PartialOrdSpecImpl for Fungible {
    open spec fn obeys_partial_cmp_spec() -> bool {
        true
    }

    open spec fn partial_cmp_spec(&self, other: &Fungible) -> Option<Ordering> {
        Some(fungible_cmp(self@, other@))
    }
}

/// Total order consistency: comparison yields `Equal` exactly on equal
/// models, and `Less` and `Greater` are mirror images under swapping the
/// arguments — so exactly one of `a < b`, `a == b`, `a > b` holds.
pub proof fn lemma_order_total(a: FungibleAbs, b: FungibleAbs)
    ensures
        fungible_cmp(a, b) == Ordering::Equal <==> a == b,
        fungible_cmp(a, b) == Ordering::Less <==> fungible_cmp(b, a) == Ordering::Greater,
{
    match (a, b) {
        (FungibleAbs::Coin(x), FungibleAbs::Coin(y)) => {
            lemma_lex_cmp_equal_iff(x, y);
            lemma_lex_cmp_flip(x, y);
        }
        (FungibleAbs::Token(x), FungibleAbs::Token(y)) => {
            lemma_lex_cmp_equal_iff(x, y);
            lemma_lex_cmp_flip(x, y);
        }
        _ => {}
    }
}

/// Transitivity: if `a` sorts below `b` and `b` below `c`, then `a` sorts
/// below `c`.
pub proof fn lemma_order_trans(a: FungibleAbs, b: FungibleAbs, c: FungibleAbs)
    requires
        fungible_cmp(a, b) == Ordering::Less,
        fungible_cmp(b, c) == Ordering::Less,
    ensures
        fungible_cmp(a, c) == Ordering::Less,
{
    match (a, b, c) {
        (FungibleAbs::Coin(x), FungibleAbs::Coin(y), FungibleAbs::Coin(z)) => {
            lemma_lex_cmp_trans(x, y, z);
        }
        (FungibleAbs::Token(x), FungibleAbs::Token(y), FungibleAbs::Token(z)) => {
            lemma_lex_cmp_trans(x, y, z);
        }
        _ => {}
    }
}

/// Variant stratification: every `Coin` sorts strictly above every `Token`,
/// independent of the payloads.
pub proof fn lemma_variant_stratified(x: Seq<char>, y: Seq<char>)
    ensures
        fungible_cmp(FungibleAbs::Coin(x), FungibleAbs::Token(y)) == Ordering::Greater,
        fungible_cmp(FungibleAbs::Token(y), FungibleAbs::Coin(x)) == Ordering::Less,
{
}

/// Within a variant, the order is exactly the lexicographic order of the
/// payloads.
pub proof fn lemma_within_variant(s1: Seq<char>, s2: Seq<char>)
    ensures
        fungible_cmp(FungibleAbs::Coin(s1), FungibleAbs::Coin(s2)) == lex_cmp(s1, s2),
        fungible_cmp(FungibleAbs::Token(s1), FungibleAbs::Token(s2)) == lex_cmp(s1, s2),
{
}

} // verus!
