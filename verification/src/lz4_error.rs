//! Why an LZ4 block could not be decompressed.
use crate::ordering::{
    chain, compare_u8, compare_usize, flip_order, lemma_triple_order_total, triple_order,
};
use lz4_flex::block::DecompressError;
use std::cmp::Ordering;
use vstd::prelude::*;
use vstd::std_specs::cmp::PartialOrdSpec;

verus! {

/// The error of the `lz4_flex` crate's block decompressor. The crate may add
/// variants to it. Its variants are read only by [`known_cause`].
#[verifier::external_type_specification]
#[verifier::external_body]
pub struct ExDecompressError(lz4_flex::block::DecompressError);

/// Why an LZ4 block could not be decompressed: one variant for each variant
/// of `lz4_flex::block::DecompressError` that this library knows, with the
/// same payload, and one for any other.
#[derive(Debug, PartialEq, Eq, Structural, Ord)]
pub enum Lz4Error {
    /// The output buffer is smaller than the decompressed data.
    OutputTooSmall { expected: usize, actual: usize },
    /// The decompressed data has another size than the block announced.
    UncompressedSizeDiffers { expected: usize, actual: usize },
    /// A literal reaches beyond the end of the input.
    LiteralOutOfBounds,
    /// The input ended where another byte was expected.
    ExpectedAnotherByte,
    /// A back-reference points outside the data decompressed so far.
    OffsetOutOfBounds,
    /// A failure that `lz4_flex` reports and this library has no variant for.
    /// Nothing of the reported failure is kept.
    UnsupportedError,
}

/// The cause that a `DecompressError` stands for, where it is one of the
/// five that this library knows, and `None` where it is not.
pub uninterp spec fn lz4_known_cause(e: DecompressError) -> Option<Lz4Error>;

/// Reads a `DecompressError`: each of the five known variants is rewritten as
/// the variant of the same name, with its payload moved over unchanged, and
/// any other variant gives `None`. The contract only names the outcome; which
/// variant comes out is not proved.
#[verifier::external_body]
pub(crate) fn known_cause(e: DecompressError) -> (r: Option<Lz4Error>)
    ensures
        r == lz4_known_cause(e),
{
    match e {
        DecompressError::OutputTooSmall { expected, actual } => {
            Some(Lz4Error::OutputTooSmall { expected, actual })
        },
        DecompressError::UncompressedSizeDiffers { expected, actual } => {
            Some(Lz4Error::UncompressedSizeDiffers { expected, actual })
        },
        DecompressError::LiteralOutOfBounds => Some(Lz4Error::LiteralOutOfBounds),
        DecompressError::ExpectedAnotherByte => Some(Lz4Error::ExpectedAnotherByte),
        DecompressError::OffsetOutOfBounds => Some(Lz4Error::OffsetOutOfBounds),
        _ => None,
    }
}

/// The cause to report for a failure of the decompressor: the known cause
/// where there is one, and `UnsupportedError` for any failure that this
/// library has no variant for.
pub open spec fn known_or_unsupported(known: Option<Lz4Error>) -> Lz4Error {
    match known {
        Some(cause) => cause,
        None => Lz4Error::UnsupportedError,
    }
}

impl Lz4Error {
    /// Settles on the cause to report: a known cause stays as it is, and a
    /// failure without one becomes `UnsupportedError`.
    pub fn from_known(known: Option<Lz4Error>) -> (r: Lz4Error)
        ensures
            r == known_or_unsupported(known),
    {
        match known {
            Some(cause) => cause,
            None => Lz4Error::UnsupportedError,
        }
    }

    /// What the order goes by: the variant's position in the declaration,
    /// then its payload, with zeros where a variant has none.
    pub open spec fn key(self) -> (int, int, int) {
        match self {
            Lz4Error::OutputTooSmall { expected, actual } => (0, expected as int, actual as int),
            Lz4Error::UncompressedSizeDiffers { expected, actual } => (
                1,
                expected as int,
                actual as int,
            ),
            Lz4Error::LiteralOutOfBounds => (2, 0, 0),
            Lz4Error::ExpectedAnotherByte => (3, 0, 0),
            Lz4Error::OffsetOutOfBounds => (4, 0, 0),
            Lz4Error::UnsupportedError => (5, 0, 0),
        }
    }

    /// The order of two causes: by variant, then by expected size, then by
    /// actual size.
    pub open spec fn order(self, other: Self) -> Ordering {
        triple_order(self.key(), other.key())
    }

    /// The variant's position in the declaration.
    fn rank(&self) -> (r: u8)
        ensures
            r == self.key().0,
    {
        match self {
            Lz4Error::OutputTooSmall { .. } => 0,
            Lz4Error::UncompressedSizeDiffers { .. } => 1,
            Lz4Error::LiteralOutOfBounds => 2,
            Lz4Error::ExpectedAnotherByte => 3,
            Lz4Error::OffsetOutOfBounds => 4,
            Lz4Error::UnsupportedError => 5,
        }
    }

    /// Compares two causes.
    pub(crate) fn compare(&self, other: &Self) -> (o: Ordering)
        ensures
            o == self.order(*other),
    {
        match (self, other) {
            (
                Lz4Error::OutputTooSmall { expected: e1, actual: a1 },
                Lz4Error::OutputTooSmall { expected: e2, actual: a2 },
            ) => chain(compare_usize(*e1, *e2), compare_usize(*a1, *a2)),
            (
                Lz4Error::UncompressedSizeDiffers { expected: e1, actual: a1 },
                Lz4Error::UncompressedSizeDiffers { expected: e2, actual: a2 },
            ) => chain(compare_usize(*e1, *e2), compare_usize(*a1, *a2)),
            _ => compare_u8(self.rank(), other.rank()),
        }
    }
}

impl PartialOrd for Lz4Error {
    fn partial_cmp(&self, other: &Self) -> (r: Option<Ordering>)
        ensures
            r == Some(self.order(*other)),
    {
        Some(self.compare(other))
    }
}

impl vstd::std_specs::cmp::PartialOrdSpecImpl for Lz4Error {
    open spec fn obeys_partial_cmp_spec() -> bool {
        true
    }

    open spec fn partial_cmp_spec(&self, other: &Self) -> Option<Ordering> {
        Some(self.order(*other))
    }
}

/// The order of LZ4 causes is total: any two causes are comparable, they
/// compare `Equal` exactly when they are the same cause, reading the order
/// from the other side flips it, and it is transitive.
pub proof fn lemma_lz4_order_total(a: Lz4Error, b: Lz4Error, c: Lz4Error)
    ensures
        a.partial_cmp_spec(&b) == Some(a.order(b)),
        a.order(b) == Ordering::Equal <==> a == b,
        b.order(a) == flip_order(a.order(b)),
        a.order(b) != Ordering::Greater && b.order(c) != Ordering::Greater ==> a.order(c)
            != Ordering::Greater,
        a.order(b) == Ordering::Less && b.order(c) != Ordering::Greater ==> a.order(c)
            == Ordering::Less,
        a.order(b) != Ordering::Greater && b.order(c) == Ordering::Less ==> a.order(c)
            == Ordering::Less,
{
    lemma_triple_order_total(a.key(), b.key(), c.key());
}

} // verus!
