//! The order of texts: byte by byte over their UTF-8 encoding, as `str`
//! orders itself.
use crate::ordering::{compare_u8, compare_usize, flip_order, u8_order};
use std::cmp::Ordering;
use vstd::prelude::*;
use vstd::utf8::{decode_utf8, encode_utf8, encode_utf8_decode_utf8};

verus! {

/// How many leading bytes two byte strings have in common.
pub open spec fn common_prefix_len(a: Seq<u8>, b: Seq<u8>) -> int
    decreases a.len(),
{
    if a.len() > 0 && b.len() > 0 && a[0] == b[0] {
        1 + common_prefix_len(a.skip(1), b.skip(1))
    } else {
        0
    }
}

/// Whether the first `n` bytes are all that `a` and `b` have in common from
/// their start: both have them, agree on them, and differ in the next byte
/// where both go on.
pub open spec fn ends_common_prefix(a: Seq<u8>, b: Seq<u8>, n: int) -> bool {
    &&& 0 <= n <= a.len()
    &&& n <= b.len()
    &&& forall|j: int| 0 <= j < n ==> a[j] == b[j]
    &&& n < a.len() && n < b.len() ==> a[n] != b[n]
}

/// The common prefix ends where `common_prefix_len` says.
pub proof fn lemma_common_prefix(a: Seq<u8>, b: Seq<u8>)
    ensures
        ends_common_prefix(a, b, common_prefix_len(a, b)),
    decreases a.len(),
{
    if a.len() > 0 && b.len() > 0 && a[0] == b[0] {
        let (ta, tb) = (a.skip(1), b.skip(1));
        let n: int = common_prefix_len(ta, tb);
        lemma_common_prefix(ta, tb);
        assert forall|j: int| 0 <= j < n + 1 implies a[j] == b[j] by {
            if j > 0 {
                assert(ta[j - 1] == a[j] && tb[j - 1] == b[j]);
            }
        }
        if n + 1 < a.len() && n + 1 < b.len() {
            assert(ta[n] == a[n + 1] && tb[n] == b[n + 1]);
        }
    }
}

/// The common prefix ends in one place only.
pub proof fn lemma_common_prefix_is(a: Seq<u8>, b: Seq<u8>, n: int)
    requires
        ends_common_prefix(a, b, n),
    ensures
        common_prefix_len(a, b) == n,
{
    lemma_common_prefix(a, b);
}

/// A string shares all of itself with itself.
pub proof fn lemma_common_prefix_of_self(a: Seq<u8>)
    ensures
        common_prefix_len(a, a) == a.len(),
{
    lemma_common_prefix_is(a, a, a.len() as int);
}

/// The lexicographic order of two byte strings: the first byte in which they
/// differ decides, and where there is none the shorter string comes first.
pub open spec fn bytes_order(a: Seq<u8>, b: Seq<u8>) -> Ordering {
    let n: int = common_prefix_len(a, b);
    if n < a.len() && n < b.len() {
        u8_order(a[n], b[n])
    } else if a.len() < b.len() {
        Ordering::Less
    } else if a.len() == b.len() {
        Ordering::Equal
    } else {
        Ordering::Greater
    }
}

/// The order of two texts: the lexicographic order of their UTF-8 encodings.
pub open spec fn text_order(a: Seq<char>, b: Seq<char>) -> Ordering {
    bytes_order(encode_utf8(a), encode_utf8(b))
}

/// Two byte strings compare `Equal` exactly when they are the same string.
pub proof fn lemma_bytes_order_equal_iff_same(a: Seq<u8>, b: Seq<u8>)
    ensures
        bytes_order(a, b) == Ordering::Equal <==> a == b,
{
    lemma_common_prefix(a, b);
    if bytes_order(a, b) == Ordering::Equal {
        assert(a =~= b);
    }
    if a == b {
        lemma_common_prefix_of_self(a);
    }
}

/// Reading the order of two byte strings from the other side flips it.
pub proof fn lemma_bytes_order_flips(a: Seq<u8>, b: Seq<u8>)
    ensures
        bytes_order(b, a) == flip_order(bytes_order(a, b)),
{
    lemma_common_prefix(a, b);
    lemma_common_prefix_is(b, a, common_prefix_len(a, b));
}

/// The order of byte strings is transitive, and strict where one of the two
/// steps is.
pub proof fn lemma_bytes_order_transitive(a: Seq<u8>, b: Seq<u8>, c: Seq<u8>)
    ensures
        bytes_order(a, b) != Ordering::Greater && bytes_order(b, c) != Ordering::Greater
            ==> bytes_order(a, c) != Ordering::Greater,
        bytes_order(a, b) == Ordering::Less && bytes_order(b, c) != Ordering::Greater
            ==> bytes_order(a, c) == Ordering::Less,
        bytes_order(a, b) != Ordering::Greater && bytes_order(b, c) == Ordering::Less
            ==> bytes_order(a, c) == Ordering::Less,
{
    lemma_common_prefix(a, b);
    lemma_common_prefix(b, c);
    lemma_common_prefix(a, c);
    let ab: int = common_prefix_len(a, b);
    let bc: int = common_prefix_len(b, c);
    if bytes_order(a, b) != Ordering::Greater && bytes_order(b, c) != Ordering::Greater {
        // `a` and `c` agree as far as both agree with `b`.
        let n: int = if ab <= bc {
            ab
        } else {
            bc
        };
        lemma_common_prefix_is(a, c, n);
    }
}

/// Two texts compare `Equal` exactly when they are the same text.
pub proof fn lemma_text_order_equal_iff_same(a: Seq<char>, b: Seq<char>)
    ensures
        text_order(a, b) == Ordering::Equal <==> a == b,
{
    lemma_bytes_order_equal_iff_same(encode_utf8(a), encode_utf8(b));
    encode_utf8_decode_utf8(a);
    encode_utf8_decode_utf8(b);
    assert(encode_utf8(a) == encode_utf8(b) ==> decode_utf8(encode_utf8(a)) == decode_utf8(
        encode_utf8(b),
    ));
}

/// Reading the order of two texts from the other side flips it.
pub proof fn lemma_text_order_flips(a: Seq<char>, b: Seq<char>)
    ensures
        text_order(b, a) == flip_order(text_order(a, b)),
{
    lemma_bytes_order_flips(encode_utf8(a), encode_utf8(b));
}

/// The order of texts is transitive, and strict where one of the two steps
/// is.
pub proof fn lemma_text_order_transitive(a: Seq<char>, b: Seq<char>, c: Seq<char>)
    ensures
        text_order(a, b) != Ordering::Greater && text_order(b, c) != Ordering::Greater
            ==> text_order(a, c) != Ordering::Greater,
        text_order(a, b) == Ordering::Less && text_order(b, c) != Ordering::Greater
            ==> text_order(a, c) == Ordering::Less,
        text_order(a, b) != Ordering::Greater && text_order(b, c) == Ordering::Less
            ==> text_order(a, c) == Ordering::Less,
{
    lemma_bytes_order_transitive(encode_utf8(a), encode_utf8(b), encode_utf8(c));
}

/// The length of the common prefix of two byte strings.
fn common_prefix(a: &[u8], b: &[u8]) -> (n: usize)
    ensures
        n == common_prefix_len(a@, b@),
{
    let mut i: usize = 0;
    while i < a.len() && i < b.len() && a[i] == b[i]
        invariant
            i <= a.len(),
            i <= b.len(),
            forall|j: int| 0 <= j < i ==> a@[j] == b@[j],
        decreases a.len() - i,
    {
        i += 1;
    }
    proof {
        lemma_common_prefix_is(a@, b@, i as int);
    }
    i
}

/// Compares two byte strings lexicographically.
pub(crate) fn compare_bytes(a: &[u8], b: &[u8]) -> (o: Ordering)
    ensures
        o == bytes_order(a@, b@),
{
    let n: usize = common_prefix(a, b);
    if n < a.len() && n < b.len() {
        compare_u8(a[n], b[n])
    } else {
        compare_usize(a.len(), b.len())
    }
}

/// Compares two texts by their UTF-8 encodings.
pub(crate) fn compare_text(a: &str, b: &str) -> (o: Ordering)
    ensures
        o == text_order(a@, b@),
{
    compare_bytes(a.as_bytes(), b.as_bytes())
}

/// Whether two texts are the same.
pub(crate) fn same_text(a: &str, b: &str) -> (r: bool)
    ensures
        r == (a@ == b@),
{
    let o = compare_text(a, b);
    proof {
        lemma_text_order_equal_iff_same(a@, b@);
    }
    matches!(o, Ordering::Equal)
}

} // verus!
