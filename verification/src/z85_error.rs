//! Why a Z85 text could not be decoded.
use crate::ordering::{
    chain, compare_u8, compare_usize, flip_order, lemma_triple_order_total, triple_order,
};
use std::cmp::Ordering;
use vstd::prelude::*;
use vstd::std_specs::cmp::PartialOrdSpec;

verus! {

/// The error of the `z85` crate's decoder. Its variants are read only by
/// [`mirror`].
#[verifier::external_type_specification]
#[verifier::external_body]
pub struct ExDecodeError(z85::DecodeError);

/// Why a Z85 text could not be decoded: one variant for each variant of
/// `z85::DecodeError`, with the same payload.
#[derive(Debug, PartialEq, Eq, Structural, Ord)]
pub enum Z85DecodeError {
    /// A byte outside the Z85 alphabet: its position, then the byte.
    InvalidByte(usize, u8),
    /// A group of five symbols that stands for no four bytes: its position.
    InvalidChunk(usize),
    /// The length of the text, which is no multiple of five.
    InvalidLength(usize),
    /// The end of the text is malformed.
    InvalidTail,
}

/// The cause that a `z85::DecodeError` stands for.
pub uninterp spec fn z85_cause(e: z85::DecodeError) -> Z85DecodeError;

/// Reads a `z85::DecodeError`: each variant is rewritten as the variant of
/// the same name, with its payload moved over unchanged. The contract only
/// names the outcome; that it is the same variant with the same payload is
/// not proved.
#[verifier::external_body]
pub(crate) fn mirror(e: z85::DecodeError) -> (r: Z85DecodeError)
    ensures
        r == z85_cause(e),
{
    match e {
        z85::DecodeError::InvalidByte(o, b) => Z85DecodeError::InvalidByte(o, b),
        z85::DecodeError::InvalidChunk(at) => Z85DecodeError::InvalidChunk(at),
        z85::DecodeError::InvalidLength(len) => Z85DecodeError::InvalidLength(len),
        z85::DecodeError::InvalidTail => Z85DecodeError::InvalidTail,
    }
}

impl Z85DecodeError {
    /// What the order goes by: the variant's position in the declaration,
    /// then its payload, with zeros where a variant has none.
    pub open spec fn key(self) -> (int, int, int) {
        match self {
            Z85DecodeError::InvalidByte(offset, byte) => (0, offset as int, byte as int),
            Z85DecodeError::InvalidChunk(at) => (1, at as int, 0),
            Z85DecodeError::InvalidLength(len) => (2, len as int, 0),
            Z85DecodeError::InvalidTail => (3, 0, 0),
        }
    }

    /// The order of two causes: by variant, then by payload.
    pub open spec fn order(self, other: Self) -> Ordering {
        triple_order(self.key(), other.key())
    }

    /// The variant's position in the declaration.
    fn rank(&self) -> (r: u8)
        ensures
            r == self.key().0,
    {
        match self {
            Z85DecodeError::InvalidByte(..) => 0,
            Z85DecodeError::InvalidChunk(..) => 1,
            Z85DecodeError::InvalidLength(..) => 2,
            Z85DecodeError::InvalidTail => 3,
        }
    }

    /// Compares two causes.
    pub(crate) fn compare(&self, other: &Self) -> (o: Ordering)
        ensures
            o == self.order(*other),
    {
        match (self, other) {
            (Z85DecodeError::InvalidByte(o1, b1), Z85DecodeError::InvalidByte(o2, b2)) => {
                chain(compare_usize(*o1, *o2), compare_u8(*b1, *b2))
            },
            (Z85DecodeError::InvalidChunk(a1), Z85DecodeError::InvalidChunk(a2)) => {
                compare_usize(*a1, *a2)
            },
            (Z85DecodeError::InvalidLength(l1), Z85DecodeError::InvalidLength(l2)) => {
                compare_usize(*l1, *l2)
            },
            _ => compare_u8(self.rank(), other.rank()),
        }
    }
}

impl PartialOrd for Z85DecodeError {
    fn partial_cmp(&self, other: &Self) -> (r: Option<Ordering>)
        ensures
            r == Some(self.order(*other)),
    {
        Some(self.compare(other))
    }
}

impl vstd::std_specs::cmp::PartialOrdSpecImpl for Z85DecodeError {
    open spec fn obeys_partial_cmp_spec() -> bool {
        true
    }

    open spec fn partial_cmp_spec(&self, other: &Self) -> Option<Ordering> {
        Some(self.order(*other))
    }
}

/// The order of Z85 causes is total: any two causes are comparable, they
/// compare `Equal` exactly when they are the same cause, reading the order
/// from the other side flips it, and it is transitive.
pub proof fn lemma_z85_order_total(a: Z85DecodeError, b: Z85DecodeError, c: Z85DecodeError)
    ensures
        a.partial_cmp_spec(&b) == Some(a.order(b)),
        a.order(b) == Ordering::Equal <==> a == b,
        b.order(a) == flip_order(a.order(b)),
        a.order(b) != Ordering::Greater && b.order(c) != Ordering::Greater ==> a.order(c)
            != Ordering::Greater,
        a.order(b) == Ordering::Less && b.order(c) != Ordering::Greater ==> a.order(c)
            == Ordering::Less,
        a.order(b) != Ordering::Greater && b.order(c) == Ordering::Less ==> a.order(c)
            == Ordering::Less,
{
    lemma_triple_order_total(a.key(), b.key(), c.key());
}

} // verus!
