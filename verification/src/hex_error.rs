//! Why a hex text could not be decoded.
use crate::ordering::{
    chain, compare_char, compare_u8, compare_usize, flip_order, lemma_triple_order_total,
    triple_order,
};
use std::cmp::Ordering;
use vstd::prelude::*;
use vstd::std_specs::cmp::PartialOrdSpec;

verus! {

/// The error of the `hex` crate's decoders. Its variants are read only by
/// [`mirror`].
#[verifier::external_type_specification]
#[verifier::external_body]
pub struct ExFromHexError(hex::FromHexError);

/// Why a hex text could not be decoded: one variant for each variant of
/// `hex::FromHexError`, with the same payload.
#[derive(Debug, PartialEq, Eq, Structural, Ord)]
pub enum HexError {
    /// A character that is no hex digit (`0...9`, `a...f`, `A...F`), and its
    /// position in the text.
    InvalidHexCharacter { c: char, index: usize },
    /// The text has an odd number of digits; two digits make one byte.
    OddLength,
    /// The text was decoded into a container of fixed size, and its length
    /// does not fit that size.
    InvalidStringLength,
}

/// The cause that a `hex::FromHexError` stands for.
pub uninterp spec fn hex_cause(e: hex::FromHexError) -> HexError;

/// Reads a `hex::FromHexError`: each variant is rewritten as the variant of
/// the same name, with its payload moved over unchanged. The contract only
/// names the outcome; that it is the same variant with the same payload is
/// not proved.
#[verifier::external_body]
pub(crate) fn mirror(e: hex::FromHexError) -> (r: HexError)
    ensures
        r == hex_cause(e),
{
    match e {
        hex::FromHexError::InvalidHexCharacter { c, index } => {
            HexError::InvalidHexCharacter { c, index }
        },
        hex::FromHexError::OddLength => HexError::OddLength,
        hex::FromHexError::InvalidStringLength => HexError::InvalidStringLength,
    }
}

impl HexError {
    /// What the order goes by: the variant's position in the declaration,
    /// then its payload, with zeros where a variant has none.
    pub open spec fn key(self) -> (int, int, int) {
        match self {
            HexError::InvalidHexCharacter { c, index } => (0, c as int, index as int),
            HexError::OddLength => (1, 0, 0),
            HexError::InvalidStringLength => (2, 0, 0),
        }
    }

    /// The order of two causes: by variant, then by character, then by
    /// position.
    pub open spec fn order(self, other: Self) -> Ordering {
        triple_order(self.key(), other.key())
    }

    /// The variant's position in the declaration.
    fn rank(&self) -> (r: u8)
        ensures
            r == self.key().0,
    {
        match self {
            HexError::InvalidHexCharacter { .. } => 0,
            HexError::OddLength => 1,
            HexError::InvalidStringLength => 2,
        }
    }

    /// Compares two causes.
    pub(crate) fn compare(&self, other: &Self) -> (o: Ordering)
        ensures
            o == self.order(*other),
    {
        match (self, other) {
            (
                HexError::InvalidHexCharacter { c: c1, index: i1 },
                HexError::InvalidHexCharacter { c: c2, index: i2 },
            ) => chain(compare_char(*c1, *c2), compare_usize(*i1, *i2)),
            _ => compare_u8(self.rank(), other.rank()),
        }
    }
}

impl PartialOrd for HexError {
    fn partial_cmp(&self, other: &Self) -> (r: Option<Ordering>)
        ensures
            r == Some(self.order(*other)),
    {
        Some(self.compare(other))
    }
}

impl vstd::std_specs::cmp::PartialOrdSpecImpl for HexError {
    open spec fn obeys_partial_cmp_spec() -> bool {
        true
    }

    open spec fn partial_cmp_spec(&self, other: &Self) -> Option<Ordering> {
        Some(self.order(*other))
    }
}

/// The order of hex causes is total: any two causes are comparable, they
/// compare `Equal` exactly when they are the same cause, reading the order
/// from the other side flips it, and it is transitive.
pub proof fn lemma_hex_order_total(a: HexError, b: HexError, c: HexError)
    ensures
        a.partial_cmp_spec(&b) == Some(a.order(b)),
        a.order(b) == Ordering::Equal <==> a == b,
        b.order(a) == flip_order(a.order(b)),
        a.order(b) != Ordering::Greater && b.order(c) != Ordering::Greater ==> a.order(c)
            != Ordering::Greater,
        a.order(b) == Ordering::Less && b.order(c) != Ordering::Greater ==> a.order(c)
            == Ordering::Less,
        a.order(b) != Ordering::Greater && b.order(c) == Ordering::Less ==> a.order(c)
            == Ordering::Less,
{
    lemma_triple_order_total(a.key(), b.key(), c.key());
}

} // verus!
