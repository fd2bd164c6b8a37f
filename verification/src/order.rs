//! The order of two things that can be compared.

use vstd::prelude::*;

verus! {

/// How two values stand to each other where they can be ordered at all.
#[derive(Debug, Clone, Copy, PartialEq, Eq, Structural)]
pub enum Order {
    Less,
    Equal,
    Greater,
}

/// The lexicographic order of two byte sequences from position `i` on, given that they
/// agree before it: the first differing byte decides, and a sequence that ends first is less.
pub open spec fn lex_order_from(a: Seq<u8>, b: Seq<u8>, i: int) -> Order
    decreases a.len() - i,
{
    if i >= a.len() {
        if i >= b.len() {
            Order::Equal
        } else {
            Order::Less
        }
    } else if i >= b.len() {
        Order::Greater
    } else if a[i] < b[i] {
        Order::Less
    } else if a[i] > b[i] {
        Order::Greater
    } else {
        lex_order_from(a, b, i + 1)
    }
}

/// The lexicographic order of two byte sequences.
pub open spec fn lex_order(a: Seq<u8>, b: Seq<u8>) -> Order {
    lex_order_from(a, b, 0)
}

/// Orders two byte slices lexicographically.
pub fn order_bytes(a: &[u8], b: &[u8]) -> (r: Order)
    ensures
        r == lex_order(a@, b@),
{
    let mut i: usize = 0;
    while i < a.len() && i < b.len()
        invariant
            i <= a.len(),
            i <= b.len(),
            lex_order_from(a@, b@, i as int) == lex_order(a@, b@),
        decreases a.len() - i,
    {
        if a[i] < b[i] {
            return Order::Less;
        }
        if a[i] > b[i] {
            return Order::Greater;
        }
        i += 1;
    }
    if i < b.len() {
        Order::Less
    } else if i < a.len() {
        Order::Greater
    } else {
        Order::Equal
    }
}

/// Two byte sequences are equal in the lexicographic order exactly where they agree from
/// the position on and have the same length.
pub proof fn lemma_lex_equal_from(a: Seq<u8>, b: Seq<u8>, i: int)
    requires
        0 <= i,
    ensures
        lex_order_from(a, b, i) == Order::Equal <==> (a.len() == b.len() || (i >= a.len() && i
            >= b.len())) && forall|k: int| i <= k < a.len() && k < b.len() ==> a[k] == b[k],
    decreases a.len() - i,
{
    if i < a.len() && i < b.len() {
        lemma_lex_equal_from(a, b, i + 1);
    }
}

/// Only a byte sequence itself is equal to it in the lexicographic order.
pub proof fn lemma_lex_equal(a: Seq<u8>, b: Seq<u8>)
    ensures
        lex_order(a, b) == Order::Equal <==> a == b,
{
    lemma_lex_equal_from(a, b, 0);
    if lex_order(a, b) == Order::Equal {
        assert(a =~= b);
    }
}

/// The lexicographic order is a strict one: of two byte sequences at most one is less than
/// the other, and what is less than something less than a third is less than the third.
pub proof fn lemma_lex_strict_from(a: Seq<u8>, b: Seq<u8>, c: Seq<u8>, i: int)
    requires
        0 <= i,
    ensures
        lex_order_from(a, b, i) == Order::Less ==> lex_order_from(b, a, i) == Order::Greater,
        lex_order_from(a, b, i) == Order::Less && lex_order_from(b, c, i) == Order::Less
            ==> lex_order_from(a, c, i) == Order::Less,
    decreases a.len() + b.len() - i,
{
    if i < a.len() || i < b.len() {
        lemma_lex_strict_from(a, b, c, i + 1);
    }
}

} // verus!
