//! The unified error, its mathematical view, and the conversions into it.
use crate::base64_error::{base64_cause, lemma_base64_order_total, Base64DecodeError};
use crate::hex_error::{hex_cause, lemma_hex_order_total, HexError};
use crate::io_kind::{compare_kinds, io_error_kind, io_kind_rank, kind_of};
use crate::lz4_error::{known_or_unsupported, lemma_lz4_order_total, lz4_known_cause, Lz4Error};
use crate::ordering::{chain, compare_u64, compare_u8, flip_order, int_order, then_order, u64_order};
use crate::text_order::{
    compare_text, lemma_text_order_equal_iff_same, lemma_text_order_flips,
    lemma_text_order_transitive, same_text, text_order,
};
use crate::z85_error::{lemma_z85_order_total, z85_cause, Z85DecodeError};
use std::cmp::Ordering;
use std::io::ErrorKind;
use vstd::prelude::*;
use vstd::std_specs::cmp::{PartialEqSpec, PartialOrdSpec};
use vstd::std_specs::convert::FromSpec;

verus! {

/// What a fallible operation of the pipeline returns: its value, or the
/// [`XorError`] that stopped it.
pub type XorResult<'x, T> = Result<T, XorError<'x>>;

/// Every failure the pipeline can meet.
///
/// The names of formats are borrowed from the caller: an error that holds one
/// lives no longer than that text. An error is not changed once it is made.
///
/// Errors are compared by `==` and ordered by variant first, in the order of
/// this declaration, and payload second; [`ErrorView::order`] is that order.
#[derive(Debug, Eq, Ord)]
pub enum XorError<'x> {
    /// An I/O operation failed. Only the kind of the failure is kept, not its
    /// message.
    Io(ErrorKind),
    /// A file path failed validation: the path.
    FilePath(String),
    /// The extension of a file path failed its check: the cause in words,
    /// and the path.
    FilePathExt { cause: String, path: String },
    /// An image format that is not recognised.
    UnsupportedImageFormat,
    /// The input exceeded the configured size limit: the size allowed, and
    /// the size encountered.
    FileSizeExceeded { capacity_allowed: u64, size_encountered: u64 },
    /// The named encoding or compression format is not built in or not
    /// recognised.
    UnsupportedFormat(&'x str),
    /// Text was asked of the named format, which encodes to bytes.
    UnsupportedStringEncoding(&'x str),
    /// Bytes were asked of the named format, which encodes to text.
    UnsupportedBinaryEncoding(&'x str),
    /// Text was asked of the named format, which decodes to bytes.
    UnsupportedDecodeString(&'x str),
    /// Bytes were asked of the named format, which decodes to text.
    UnsupportedDecodeBinary(&'x str),
    /// A base64 text could not be decoded.
    Base64(Base64DecodeError),
    /// A hex text could not be decoded.
    Hex(HexError),
    /// A Z85 text could not be decoded.
    Z85(Z85DecodeError),
    /// An LZ4 block could not be decompressed.
    Lz4(Lz4Error),
}

/// An [`XorError`] as a mathematical value: texts are sequences of
/// characters, and the kind of an I/O failure is its place in the standard
/// library's order of kinds.
pub enum ErrorView {
    Io(int),
    FilePath(Seq<char>),
    FilePathExt { cause: Seq<char>, path: Seq<char> },
    UnsupportedImageFormat,
    FileSizeExceeded { capacity_allowed: u64, size_encountered: u64 },
    UnsupportedFormat(Seq<char>),
    UnsupportedStringEncoding(Seq<char>),
    UnsupportedBinaryEncoding(Seq<char>),
    UnsupportedDecodeString(Seq<char>),
    UnsupportedDecodeBinary(Seq<char>),
    Base64(Base64DecodeError),
    Hex(HexError),
    Z85(Z85DecodeError),
    Lz4(Lz4Error),
}

impl<'x> View for XorError<'x> {
    type V = ErrorView;

    open spec fn view(&self) -> ErrorView {
        match *self {
            XorError::Io(kind) => ErrorView::Io(io_kind_rank(kind)),
            XorError::FilePath(path) => ErrorView::FilePath(path@),
            XorError::FilePathExt { cause, path } => ErrorView::FilePathExt {
                cause: cause@,
                path: path@,
            },
            XorError::UnsupportedImageFormat => ErrorView::UnsupportedImageFormat,
            XorError::FileSizeExceeded {
                capacity_allowed,
                size_encountered,
            } => ErrorView::FileSizeExceeded { capacity_allowed, size_encountered },
            XorError::UnsupportedFormat(format) => ErrorView::UnsupportedFormat(format@),
            XorError::UnsupportedStringEncoding(format) => ErrorView::UnsupportedStringEncoding(
                format@,
            ),
            XorError::UnsupportedBinaryEncoding(format) => ErrorView::UnsupportedBinaryEncoding(
                format@,
            ),
            XorError::UnsupportedDecodeString(format) => ErrorView::UnsupportedDecodeString(
                format@,
            ),
            XorError::UnsupportedDecodeBinary(format) => ErrorView::UnsupportedDecodeBinary(
                format@,
            ),
            XorError::Base64(cause) => ErrorView::Base64(cause),
            XorError::Hex(cause) => ErrorView::Hex(cause),
            XorError::Z85(cause) => ErrorView::Z85(cause),
            XorError::Lz4(cause) => ErrorView::Lz4(cause),
        }
    }
}

impl ErrorView {
    /// The variant's position in the declaration.
    pub open spec fn tag(self) -> int {
        match self {
            ErrorView::Io(..) => 0,
            ErrorView::FilePath(..) => 1,
            ErrorView::FilePathExt { .. } => 2,
            ErrorView::UnsupportedImageFormat => 3,
            ErrorView::FileSizeExceeded { .. } => 4,
            ErrorView::UnsupportedFormat(..) => 5,
            ErrorView::UnsupportedStringEncoding(..) => 6,
            ErrorView::UnsupportedBinaryEncoding(..) => 7,
            ErrorView::UnsupportedDecodeString(..) => 8,
            ErrorView::UnsupportedDecodeBinary(..) => 9,
            ErrorView::Base64(..) => 10,
            ErrorView::Hex(..) => 11,
            ErrorView::Z85(..) => 12,
            ErrorView::Lz4(..) => 13,
        }
    }

    /// The order of two errors. Errors of different variants go by the
    /// position of the variant; errors of one variant go by their payload,
    /// field after field.
    pub open spec fn order(self, other: ErrorView) -> Ordering {
        match (self, other) {
            (ErrorView::Io(a), ErrorView::Io(b)) => int_order(a, b),
            (ErrorView::FilePath(a), ErrorView::FilePath(b)) => text_order(a, b),
            (
                ErrorView::FilePathExt { cause: c1, path: p1 },
                ErrorView::FilePathExt { cause: c2, path: p2 },
            ) => then_order(text_order(c1, c2), text_order(p1, p2)),
            (
                ErrorView::FileSizeExceeded { capacity_allowed: c1, size_encountered: s1 },
                ErrorView::FileSizeExceeded { capacity_allowed: c2, size_encountered: s2 },
            ) => then_order(u64_order(c1, c2), u64_order(s1, s2)),
            (ErrorView::UnsupportedFormat(a), ErrorView::UnsupportedFormat(b)) => text_order(a, b),
            (
                ErrorView::UnsupportedStringEncoding(a),
                ErrorView::UnsupportedStringEncoding(b),
            ) => text_order(a, b),
            (
                ErrorView::UnsupportedBinaryEncoding(a),
                ErrorView::UnsupportedBinaryEncoding(b),
            ) => text_order(a, b),
            (ErrorView::UnsupportedDecodeString(a), ErrorView::UnsupportedDecodeString(b)) => {
                text_order(a, b)
            },
            (ErrorView::UnsupportedDecodeBinary(a), ErrorView::UnsupportedDecodeBinary(b)) => {
                text_order(a, b)
            },
            (ErrorView::Base64(a), ErrorView::Base64(b)) => a.order(b),
            (ErrorView::Hex(a), ErrorView::Hex(b)) => a.order(b),
            (ErrorView::Z85(a), ErrorView::Z85(b)) => a.order(b),
            (ErrorView::Lz4(a), ErrorView::Lz4(b)) => a.order(b),
            _ => int_order(self.tag(), other.tag()),
        }
    }
}

impl<'x> XorError<'x> {
    /// The variant's position in the declaration.
    fn rank(&self) -> (r: u8)
        ensures
            r == self@.tag(),
    {
        match self {
            XorError::Io(..) => 0,
            XorError::FilePath(..) => 1,
            XorError::FilePathExt { .. } => 2,
            XorError::UnsupportedImageFormat => 3,
            XorError::FileSizeExceeded { .. } => 4,
            XorError::UnsupportedFormat(..) => 5,
            XorError::UnsupportedStringEncoding(..) => 6,
            XorError::UnsupportedBinaryEncoding(..) => 7,
            XorError::UnsupportedDecodeString(..) => 8,
            XorError::UnsupportedDecodeBinary(..) => 9,
            XorError::Base64(..) => 10,
            XorError::Hex(..) => 11,
            XorError::Z85(..) => 12,
            XorError::Lz4(..) => 13,
        }
    }
}

impl<'x> PartialEq for XorError<'x> {
    fn eq(&self, other: &Self) -> (r: bool)
        ensures
            r == (self@ == other@),
    {
        match (self, other) {
            (XorError::Io(a), XorError::Io(b)) => matches!(compare_kinds(a, b), Ordering::Equal),
            (XorError::FilePath(a), XorError::FilePath(b)) => same_text(a.as_str(), b.as_str()),
            (
                XorError::FilePathExt { cause: c1, path: p1 },
                XorError::FilePathExt { cause: c2, path: p2 },
            ) => same_text(c1.as_str(), c2.as_str()) && same_text(p1.as_str(), p2.as_str()),
            (XorError::UnsupportedImageFormat, XorError::UnsupportedImageFormat) => true,
            (
                XorError::FileSizeExceeded { capacity_allowed: c1, size_encountered: s1 },
                XorError::FileSizeExceeded { capacity_allowed: c2, size_encountered: s2 },
            ) => *c1 == *c2 && *s1 == *s2,
            (XorError::UnsupportedFormat(a), XorError::UnsupportedFormat(b)) => same_text(a, b),
            (XorError::UnsupportedStringEncoding(a), XorError::UnsupportedStringEncoding(b)) => {
                same_text(a, b)
            },
            (XorError::UnsupportedBinaryEncoding(a), XorError::UnsupportedBinaryEncoding(b)) => {
                same_text(a, b)
            },
            (XorError::UnsupportedDecodeString(a), XorError::UnsupportedDecodeString(b)) => {
                same_text(a, b)
            },
            (XorError::UnsupportedDecodeBinary(a), XorError::UnsupportedDecodeBinary(b)) => {
                same_text(a, b)
            },
            (XorError::Base64(a), XorError::Base64(b)) => a == b,
            (XorError::Hex(a), XorError::Hex(b)) => a == b,
            (XorError::Z85(a), XorError::Z85(b)) => a == b,
            (XorError::Lz4(a), XorError::Lz4(b)) => a == b,
            _ => false,
        }
    }
}

impl<'x> vstd::std_specs::cmp::PartialEqSpecImpl for XorError<'x> {
    open spec fn obeys_eq_spec() -> bool {
        true
    }

    open spec fn eq_spec(&self, other: &Self) -> bool {
        self@ == other@
    }
}

impl<'x> PartialOrd for XorError<'x> {
    fn partial_cmp(&self, other: &Self) -> (r: Option<Ordering>)
        ensures
            r == Some(self@.order(other@)),
    {
        let o = match (self, other) {
            (XorError::Io(a), XorError::Io(b)) => compare_kinds(a, b),
            (XorError::FilePath(a), XorError::FilePath(b)) => compare_text(
                a.as_str(),
                b.as_str(),
            ),
            (
                XorError::FilePathExt { cause: c1, path: p1 },
                XorError::FilePathExt { cause: c2, path: p2 },
            ) => chain(
                compare_text(c1.as_str(), c2.as_str()),
                compare_text(p1.as_str(), p2.as_str()),
            ),
            (
                XorError::FileSizeExceeded { capacity_allowed: c1, size_encountered: s1 },
                XorError::FileSizeExceeded { capacity_allowed: c2, size_encountered: s2 },
            ) => chain(compare_u64(*c1, *c2), compare_u64(*s1, *s2)),
            (XorError::UnsupportedFormat(a), XorError::UnsupportedFormat(b)) => compare_text(
                a,
                b,
            ),
            (XorError::UnsupportedStringEncoding(a), XorError::UnsupportedStringEncoding(b)) => {
                compare_text(a, b)
            },
            (XorError::UnsupportedBinaryEncoding(a), XorError::UnsupportedBinaryEncoding(b)) => {
                compare_text(a, b)
            },
            (XorError::UnsupportedDecodeString(a), XorError::UnsupportedDecodeString(b)) => {
                compare_text(a, b)
            },
            (XorError::UnsupportedDecodeBinary(a), XorError::UnsupportedDecodeBinary(b)) => {
                compare_text(a, b)
            },
            (XorError::Base64(a), XorError::Base64(b)) => a.compare(b),
            (XorError::Hex(a), XorError::Hex(b)) => a.compare(b),
            (XorError::Z85(a), XorError::Z85(b)) => a.compare(b),
            (XorError::Lz4(a), XorError::Lz4(b)) => a.compare(b),
            _ => compare_u8(self.rank(), other.rank()),
        };
        Some(o)
    }
}

impl<'x> vstd::std_specs::cmp::PartialOrdSpecImpl for XorError<'x> {
    open spec fn obeys_partial_cmp_spec() -> bool {
        true
    }

    open spec fn partial_cmp_spec(&self, other: &Self) -> Option<Ordering> {
        Some(self@.order(other@))
    }
}

impl<'x> From<std::io::Error> for XorError<'x> {
    /// Keeps the kind of an I/O error and drops the rest of it. The error
    /// types of tokio and smol are this one, so theirs convert here too.
    fn from(value: std::io::Error) -> (r: Self)
        ensures
            r == XorError::Io(io_error_kind(value)),
    {
        XorError::Io(kind_of(&value))
    }
}

impl<'x> vstd::std_specs::convert::FromSpecImpl<std::io::Error> for XorError<'x> {
    open spec fn obeys_from_spec() -> bool {
        true
    }

    open spec fn from_spec(value: std::io::Error) -> Self {
        XorError::Io(io_error_kind(value))
    }
}

impl<'x> From<base64::DecodeError> for XorError<'x> {
    /// Wraps the cause of a failed base64 decode.
    fn from(value: base64::DecodeError) -> (r: Self)
        ensures
            r == XorError::Base64(base64_cause(value)),
    {
        XorError::Base64(crate::base64_error::mirror(value))
    }
}

impl<'x> vstd::std_specs::convert::FromSpecImpl<base64::DecodeError> for XorError<'x> {
    open spec fn obeys_from_spec() -> bool {
        true
    }

    open spec fn from_spec(value: base64::DecodeError) -> Self {
        XorError::Base64(base64_cause(value))
    }
}

impl<'x> From<hex::FromHexError> for XorError<'x> {
    /// Wraps the cause of a failed hex decode.
    fn from(value: hex::FromHexError) -> (r: Self)
        ensures
            r == XorError::Hex(hex_cause(value)),
    {
        XorError::Hex(crate::hex_error::mirror(value))
    }
}

impl<'x> vstd::std_specs::convert::FromSpecImpl<hex::FromHexError> for XorError<'x> {
    open spec fn obeys_from_spec() -> bool {
        true
    }

    open spec fn from_spec(value: hex::FromHexError) -> Self {
        XorError::Hex(hex_cause(value))
    }
}

impl<'x> From<z85::DecodeError> for XorError<'x> {
    /// Wraps the cause of a failed Z85 decode.
    fn from(value: z85::DecodeError) -> (r: Self)
        ensures
            r == XorError::Z85(z85_cause(value)),
    {
        XorError::Z85(crate::z85_error::mirror(value))
    }
}

impl<'x> vstd::std_specs::convert::FromSpecImpl<z85::DecodeError> for XorError<'x> {
    open spec fn obeys_from_spec() -> bool {
        true
    }

    open spec fn from_spec(value: z85::DecodeError) -> Self {
        XorError::Z85(z85_cause(value))
    }
}

impl<'x> From<lz4_flex::block::DecompressError> for XorError<'x> {
    /// Wraps the cause of a failed LZ4 decompression. A failure that this
    /// library has no variant for is wrapped as `UnsupportedError`.
    fn from(value: lz4_flex::block::DecompressError) -> (r: Self)
        ensures
            r == XorError::Lz4(known_or_unsupported(lz4_known_cause(value))),
    {
        XorError::Lz4(Lz4Error::from_known(crate::lz4_error::known_cause(value)))
    }
}

impl<'x> vstd::std_specs::convert::FromSpecImpl<lz4_flex::block::DecompressError> for XorError<'x> {
    open spec fn obeys_from_spec() -> bool {
        true
    }

    open spec fn from_spec(value: lz4_flex::block::DecompressError) -> Self {
        XorError::Lz4(known_or_unsupported(lz4_known_cause(value)))
    }
}

/// Two errors compare `Equal` exactly when they are the same error.
pub proof fn lemma_error_order_equal_iff_same(a: ErrorView, b: ErrorView)
    ensures
        a.order(b) == Ordering::Equal <==> a == b,
{
    match (a, b) {
        (ErrorView::FilePath(x), ErrorView::FilePath(y)) => {
            lemma_text_order_equal_iff_same(x, y);
        },
        (
            ErrorView::FilePathExt { cause: c1, path: p1 },
            ErrorView::FilePathExt { cause: c2, path: p2 },
        ) => {
            lemma_text_order_equal_iff_same(c1, c2);
            lemma_text_order_equal_iff_same(p1, p2);
        },
        (ErrorView::UnsupportedFormat(x), ErrorView::UnsupportedFormat(y)) => {
            lemma_text_order_equal_iff_same(x, y);
        },
        (ErrorView::UnsupportedStringEncoding(x), ErrorView::UnsupportedStringEncoding(y)) => {
            lemma_text_order_equal_iff_same(x, y);
        },
        (ErrorView::UnsupportedBinaryEncoding(x), ErrorView::UnsupportedBinaryEncoding(y)) => {
            lemma_text_order_equal_iff_same(x, y);
        },
        (ErrorView::UnsupportedDecodeString(x), ErrorView::UnsupportedDecodeString(y)) => {
            lemma_text_order_equal_iff_same(x, y);
        },
        (ErrorView::UnsupportedDecodeBinary(x), ErrorView::UnsupportedDecodeBinary(y)) => {
            lemma_text_order_equal_iff_same(x, y);
        },
        (ErrorView::Base64(x), ErrorView::Base64(y)) => {
            lemma_base64_order_total(x, y, x);
        },
        (ErrorView::Hex(x), ErrorView::Hex(y)) => {
            lemma_hex_order_total(x, y, x);
        },
        (ErrorView::Z85(x), ErrorView::Z85(y)) => {
            lemma_z85_order_total(x, y, x);
        },
        (ErrorView::Lz4(x), ErrorView::Lz4(y)) => {
            lemma_lz4_order_total(x, y, x);
        },
        _ => {},
    }
}

/// Reading the order of two errors from the other side flips it: no two
/// errors are each before the other, and none is left incomparable.
pub proof fn lemma_error_order_flips(a: ErrorView, b: ErrorView)
    ensures
        b.order(a) == flip_order(a.order(b)),
{
    match (a, b) {
        (ErrorView::FilePath(x), ErrorView::FilePath(y)) => {
            lemma_text_order_flips(x, y);
        },
        (
            ErrorView::FilePathExt { cause: c1, path: p1 },
            ErrorView::FilePathExt { cause: c2, path: p2 },
        ) => {
            lemma_text_order_flips(c1, c2);
            lemma_text_order_flips(p1, p2);
        },
        (ErrorView::UnsupportedFormat(x), ErrorView::UnsupportedFormat(y)) => {
            lemma_text_order_flips(x, y);
        },
        (ErrorView::UnsupportedStringEncoding(x), ErrorView::UnsupportedStringEncoding(y)) => {
            lemma_text_order_flips(x, y);
        },
        (ErrorView::UnsupportedBinaryEncoding(x), ErrorView::UnsupportedBinaryEncoding(y)) => {
            lemma_text_order_flips(x, y);
        },
        (ErrorView::UnsupportedDecodeString(x), ErrorView::UnsupportedDecodeString(y)) => {
            lemma_text_order_flips(x, y);
        },
        (ErrorView::UnsupportedDecodeBinary(x), ErrorView::UnsupportedDecodeBinary(y)) => {
            lemma_text_order_flips(x, y);
        },
        (ErrorView::Base64(x), ErrorView::Base64(y)) => {
            lemma_base64_order_total(x, y, x);
        },
        (ErrorView::Hex(x), ErrorView::Hex(y)) => {
            lemma_hex_order_total(x, y, x);
        },
        (ErrorView::Z85(x), ErrorView::Z85(y)) => {
            lemma_z85_order_total(x, y, x);
        },
        (ErrorView::Lz4(x), ErrorView::Lz4(y)) => {
            lemma_lz4_order_total(x, y, x);
        },
        _ => {},
    }
}

/// The order of errors is transitive, across variants too, and strict where
/// one of the two steps is.
pub proof fn lemma_error_order_transitive(a: ErrorView, b: ErrorView, c: ErrorView)
    ensures
        a.order(b) != Ordering::Greater && b.order(c) != Ordering::Greater ==> a.order(c)
            != Ordering::Greater,
        a.order(b) == Ordering::Less && b.order(c) != Ordering::Greater ==> a.order(c)
            == Ordering::Less,
        a.order(b) != Ordering::Greater && b.order(c) == Ordering::Less ==> a.order(c)
            == Ordering::Less,
{
    match (a, b, c) {
        (ErrorView::FilePath(x), ErrorView::FilePath(y), ErrorView::FilePath(z)) => {
            lemma_text_order_transitive(x, y, z);
        },
        (
            ErrorView::FilePathExt { cause: c1, path: p1 },
            ErrorView::FilePathExt { cause: c2, path: p2 },
            ErrorView::FilePathExt { cause: c3, path: p3 },
        ) => {
            lemma_text_order_transitive(c1, c2, c3);
            lemma_text_order_transitive(p1, p2, p3);
            lemma_text_order_equal_iff_same(c1, c2);
            lemma_text_order_equal_iff_same(c2, c3);
        },
        (
            ErrorView::UnsupportedFormat(x),
            ErrorView::UnsupportedFormat(y),
            ErrorView::UnsupportedFormat(z),
        ) => {
            lemma_text_order_transitive(x, y, z);
        },
        (
            ErrorView::UnsupportedStringEncoding(x),
            ErrorView::UnsupportedStringEncoding(y),
            ErrorView::UnsupportedStringEncoding(z),
        ) => {
            lemma_text_order_transitive(x, y, z);
        },
        (
            ErrorView::UnsupportedBinaryEncoding(x),
            ErrorView::UnsupportedBinaryEncoding(y),
            ErrorView::UnsupportedBinaryEncoding(z),
        ) => {
            lemma_text_order_transitive(x, y, z);
        },
        (
            ErrorView::UnsupportedDecodeString(x),
            ErrorView::UnsupportedDecodeString(y),
            ErrorView::UnsupportedDecodeString(z),
        ) => {
            lemma_text_order_transitive(x, y, z);
        },
        (
            ErrorView::UnsupportedDecodeBinary(x),
            ErrorView::UnsupportedDecodeBinary(y),
            ErrorView::UnsupportedDecodeBinary(z),
        ) => {
            lemma_text_order_transitive(x, y, z);
        },
        (ErrorView::Base64(x), ErrorView::Base64(y), ErrorView::Base64(z)) => {
            lemma_base64_order_total(x, y, z);
        },
        (ErrorView::Hex(x), ErrorView::Hex(y), ErrorView::Hex(z)) => {
            lemma_hex_order_total(x, y, z);
        },
        (ErrorView::Z85(x), ErrorView::Z85(y), ErrorView::Z85(z)) => {
            lemma_z85_order_total(x, y, z);
        },
        (ErrorView::Lz4(x), ErrorView::Lz4(y), ErrorView::Lz4(z)) => {
            lemma_lz4_order_total(x, y, z);
        },
        _ => {},
    }
}

/// Any two errors can be compared, `==` holds of them exactly when the order
/// says `Equal`, and errors made from the same values are equal.
pub proof fn lemma_errors_compare(a: XorError, b: XorError)
    ensures
        a.partial_cmp_spec(&b) == Some(a@.order(b@)),
        a.eq_spec(&b) <==> a.partial_cmp_spec(&b) == Some(Ordering::Equal),
        a == b ==> a.eq_spec(&b),
{
    lemma_error_order_equal_iff_same(a@, b@);
}

/// Two I/O errors of one kind convert to the same error: which runtime
/// handed the error out, and what else it holds, plays no part.
pub proof fn lemma_io_errors_convert_by_kind(e1: std::io::Error, e2: std::io::Error)
    requires
        io_error_kind(e1) == io_error_kind(e2),
    ensures
        XorError::from_spec(e1) == XorError::from_spec(e2),
        XorError::from_spec(e1)@ == ErrorView::Io(io_kind_rank(io_error_kind(e1))),
{
}

} // verus!
