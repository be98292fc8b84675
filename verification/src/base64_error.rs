//! Why a base64 text could not be decoded.
use crate::ordering::{
    chain, compare_u8, compare_usize, flip_order, lemma_triple_order_total, triple_order,
};
use std::cmp::Ordering;
use vstd::prelude::*;
use vstd::std_specs::cmp::PartialOrdSpec;

verus! {

/// The error of the `base64` crate's decoders. Its variants are read only by
/// [`mirror`].
#[verifier::external_type_specification]
#[verifier::external_body]
pub struct ExDecodeError(base64::DecodeError);

/// Why a base64 text could not be decoded: one variant for each variant of
/// `base64::DecodeError`, with the same payload.
#[derive(Debug, PartialEq, Eq, Structural, Ord)]
pub enum Base64DecodeError {
    /// An invalid byte was found in the input: its offset, then the byte.
    /// A padding character (`=`) inside the text counts as an invalid byte.
    InvalidByte(usize, u8),
    /// The length of the input is invalid, often because of trailing
    /// whitespace or separators.
    InvalidLength,
    /// The last symbol before the padding is in the alphabet but carries bits
    /// that would be discarded: its offset, then the byte. The text is
    /// corrupted or truncated.
    InvalidLastSymbol(usize, u8),
    /// The padding is not as the decoder was configured to expect it.
    InvalidPadding,
}

/// The cause that a `base64::DecodeError` stands for.
pub uninterp spec fn base64_cause(e: base64::DecodeError) -> Base64DecodeError;

/// Reads a `base64::DecodeError`: each variant is rewritten as the variant of
/// the same name, with its payload moved over unchanged. The contract only
/// names the outcome; that it is the same variant with the same payload is
/// not proved.
#[verifier::external_body]
pub(crate) fn mirror(e: base64::DecodeError) -> (r: Base64DecodeError)
    ensures
        r == base64_cause(e),
{
    match e {
        base64::DecodeError::InvalidByte(o, b) => Base64DecodeError::InvalidByte(o, b),
        base64::DecodeError::InvalidLength => Base64DecodeError::InvalidLength,
        base64::DecodeError::InvalidLastSymbol(o, b) => {
            Base64DecodeError::InvalidLastSymbol(o, b)
        },
        base64::DecodeError::InvalidPadding => Base64DecodeError::InvalidPadding,
    }
}

impl Base64DecodeError {
    /// What the order goes by: the variant's position in the declaration,
    /// then its payload, with zeros where a variant has none.
    pub open spec fn key(self) -> (int, int, int) {
        match self {
            Base64DecodeError::InvalidByte(offset, byte) => (0, offset as int, byte as int),
            Base64DecodeError::InvalidLength => (1, 0, 0),
            Base64DecodeError::InvalidLastSymbol(offset, byte) => (2, offset as int, byte as int),
            Base64DecodeError::InvalidPadding => (3, 0, 0),
        }
    }

    /// The order of two causes: by variant, then by offset, then by byte.
    pub open spec fn order(self, other: Self) -> Ordering {
        triple_order(self.key(), other.key())
    }

    /// The variant's position in the declaration.
    fn rank(&self) -> (r: u8)
        ensures
            r == self.key().0,
    {
        match self {
            Base64DecodeError::InvalidByte(..) => 0,
            Base64DecodeError::InvalidLength => 1,
            Base64DecodeError::InvalidLastSymbol(..) => 2,
            Base64DecodeError::InvalidPadding => 3,
        }
    }

    /// Compares two causes.
    pub(crate) fn compare(&self, other: &Self) -> (o: Ordering)
        ensures
            o == self.order(*other),
    {
        match (self, other) {
            (Base64DecodeError::InvalidByte(o1, b1), Base64DecodeError::InvalidByte(o2, b2)) => {
                chain(compare_usize(*o1, *o2), compare_u8(*b1, *b2))
            },
            (
                Base64DecodeError::InvalidLastSymbol(o1, b1),
                Base64DecodeError::InvalidLastSymbol(o2, b2),
            ) => chain(compare_usize(*o1, *o2), compare_u8(*b1, *b2)),
            _ => compare_u8(self.rank(), other.rank()),
        }
    }
}

impl PartialOrd for Base64DecodeError {
    fn partial_cmp(&self, other: &Self) -> (r: Option<Ordering>)
        ensures
            r == Some(self.order(*other)),
    {
        Some(self.compare(other))
    }
}

impl vstd::std_specs::cmp::PartialOrdSpecImpl for Base64DecodeError {
    open spec fn obeys_partial_cmp_spec() -> bool {
        true
    }

    open spec fn partial_cmp_spec(&self, other: &Self) -> Option<Ordering> {
        Some(self.order(*other))
    }
}

/// The order of base64 causes is total: any two causes are comparable, they
/// compare `Equal` exactly when they are the same cause, reading the order
/// from the other side flips it, and it is transitive.
pub proof fn lemma_base64_order_total(
    a: Base64DecodeError,
    b: Base64DecodeError,
    c: Base64DecodeError,
)
    ensures
        a.partial_cmp_spec(&b) == Some(a.order(b)),
        a.order(b) == Ordering::Equal <==> a == b,
        b.order(a) == flip_order(a.order(b)),
        a.order(b) != Ordering::Greater && b.order(c) != Ordering::Greater ==> a.order(c)
            != Ordering::Greater,
        a.order(b) == Ordering::Less && b.order(c) != Ordering::Greater ==> a.order(c)
            == Ordering::Less,
        a.order(b) != Ordering::Greater && b.order(c) == Ordering::Less ==> a.order(c)
            == Ordering::Less,
{
    lemma_triple_order_total(a.key(), b.key(), c.key());
}

} // verus!
