//! Building blocks for orders that go by variant first and payload second.
use std::cmp::Ordering;
use vstd::prelude::*;

verus! {

/// The order of two integers.
pub open spec fn int_order(a: int, b: int) -> Ordering {
    if a < b {
        Ordering::Less
    } else if a == b {
        Ordering::Equal
    } else {
        Ordering::Greater
    }
}

/// Lexicographic chaining: `first` decides unless it is `Equal`, and then
/// `second` does.
pub open spec fn then_order(first: Ordering, second: Ordering) -> Ordering {
    match first {
        Ordering::Equal => second,
        _ => first,
    }
}

/// An order read from the other side.
pub open spec fn flip_order(o: Ordering) -> Ordering {
    match o {
        Ordering::Less => Ordering::Greater,
        Ordering::Equal => Ordering::Equal,
        Ordering::Greater => Ordering::Less,
    }
}

/// The lexicographic order of two triples of integers.
pub open spec fn triple_order(a: (int, int, int), b: (int, int, int)) -> Ordering {
    then_order(int_order(a.0, b.0), then_order(int_order(a.1, b.1), int_order(a.2, b.2)))
}

/// The order of two `usize` values.
pub open spec fn usize_order(a: usize, b: usize) -> Ordering {
    if a < b {
        Ordering::Less
    } else if a == b {
        Ordering::Equal
    } else {
        Ordering::Greater
    }
}

/// The order of two bytes.
pub open spec fn u8_order(a: u8, b: u8) -> Ordering {
    if a < b {
        Ordering::Less
    } else if a == b {
        Ordering::Equal
    } else {
        Ordering::Greater
    }
}

/// The order of two `u64` values.
pub open spec fn u64_order(a: u64, b: u64) -> Ordering {
    if a < b {
        Ordering::Less
    } else if a == b {
        Ordering::Equal
    } else {
        Ordering::Greater
    }
}

/// The order of two characters, by code point.
pub open spec fn char_order(a: char, b: char) -> Ordering {
    if a < b {
        Ordering::Less
    } else if a == b {
        Ordering::Equal
    } else {
        Ordering::Greater
    }
}

/// Compares two `usize` values.
pub(crate) fn compare_usize(a: usize, b: usize) -> (o: Ordering)
    ensures
        o == usize_order(a, b),
{
    if a < b {
        Ordering::Less
    } else if a == b {
        Ordering::Equal
    } else {
        Ordering::Greater
    }
}

/// Compares two bytes.
pub(crate) fn compare_u8(a: u8, b: u8) -> (o: Ordering)
    ensures
        o == u8_order(a, b),
{
    if a < b {
        Ordering::Less
    } else if a == b {
        Ordering::Equal
    } else {
        Ordering::Greater
    }
}

/// Compares two `u64` values.
pub(crate) fn compare_u64(a: u64, b: u64) -> (o: Ordering)
    ensures
        o == u64_order(a, b),
{
    if a < b {
        Ordering::Less
    } else if a == b {
        Ordering::Equal
    } else {
        Ordering::Greater
    }
}

/// Compares two characters by code point.
pub(crate) fn compare_char(a: char, b: char) -> (o: Ordering)
    ensures
        o == char_order(a, b),
{
    if a < b {
        Ordering::Less
    } else if a == b {
        Ordering::Equal
    } else {
        Ordering::Greater
    }
}

/// Chains two comparisons lexicographically.
pub(crate) fn chain(first: Ordering, second: Ordering) -> (o: Ordering)
    ensures
        o == then_order(first, second),
{
    match first {
        Ordering::Equal => second,
        _ => first,
    }
}

/// `triple_order` is a total order: it is `Equal` exactly on equal triples,
/// reading it from the other side flips it, and it is transitive.
pub proof fn lemma_triple_order_total(a: (int, int, int), b: (int, int, int), c: (int, int, int))
    ensures
        triple_order(a, b) == Ordering::Equal <==> a == b,
        triple_order(b, a) == flip_order(triple_order(a, b)),
        triple_order(a, b) != Ordering::Greater && triple_order(b, c) != Ordering::Greater
            ==> triple_order(a, c) != Ordering::Greater,
        triple_order(a, b) == Ordering::Less && triple_order(b, c) != Ordering::Greater
            ==> triple_order(a, c) == Ordering::Less,
        triple_order(a, b) != Ordering::Greater && triple_order(b, c) == Ordering::Less
            ==> triple_order(a, c) == Ordering::Less,
{
}

} // verus!
