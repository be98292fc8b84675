//! One error type for a pipeline that validates files and encodes, decodes
//! and compresses their contents.
//!
//! [`XorError`] gathers every failure such a pipeline can meet: rejected
//! paths, exceeded size limits, unsupported formats, and the failures reported
//! by the base64, hex, Z85 and LZ4 codecs and by the I/O layer. Each codec's
//! own error is mirrored variant by variant, so a caller can match on the
//! precise cause without naming the codec's crate. The conversions from the
//! codecs' and the I/O layer's errors are `From` impls, so `?` applies them.
//!
//! Every type here can be compared for equality and is totally ordered, by
//! variant first and payload second. The orders are stated as spec functions
//! and their laws are proved.
//!
//! What is taken on trust is marked. The codecs' error types and
//! `std::io::Error` are opaque to the verifier, so the functions that read
//! them (`mirror`, `known_cause`, `kind_of`, `compare_kinds`) have contracts
//! that are believed, not proved. The derived `Ord::cmp` is not read by the
//! verifier either: what is proved of the order is proved of `partial_cmp`
//! and of the operators `<`, `<=`, `>`, `>=`.
pub mod base64_error;
pub mod error;
pub mod hex_error;
pub mod io_kind;
pub mod lz4_error;
pub mod ordering;
pub mod text_order;
pub mod z85_error;

pub use base64_error::Base64DecodeError;
pub use error::{ErrorView, XorError, XorResult};
pub use hex_error::HexError;
pub use lz4_error::Lz4Error;
pub use z85_error::Z85DecodeError;
