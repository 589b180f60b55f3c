//! The rope that stores a buffer's text, and what is taken on trust of it.
//!
//! The rope itself is `xi_rope::Rope`. Verus cannot look inside it, so its
//! content is given a name, [`rope_bytes`], and each method that the buffer
//! calls is reached through a small function whose contract says what the
//! method does to that content.

use vstd::prelude::*;
use vstd::string::*;
use xi_rope::interval::Interval;

verus! {

/// An immutable snapshot of UTF-8 text: an `xi_rope::Rope`, of which Verus
/// sees nothing but what the functions below state.
#[verifier::external_body]
pub struct Rope {
    inner: xi_rope::Rope,
}

/// The UTF-8 bytes that a rope holds, in order.
pub uninterp spec fn rope_bytes(rope: Rope) -> Seq<u8>;

/// Whether `index` is the start or the end of `bytes`, or the position of a
/// byte that does not continue a code point.
pub open spec fn is_boundary(bytes: Seq<u8>, index: int) -> bool {
    0 <= index <= bytes.len() && (index == 0 || index == bytes.len() || !(0x80 <= bytes[index]
        < 0xC0))
}

/// What a sequence becomes when its items in `[start, end)` give way to
/// `new_items`.
pub open spec fn spliced<T>(old_items: Seq<T>, start: int, end: int, new_items: Seq<T>) -> Seq<T> {
    old_items.subrange(0, start) + new_items + old_items.subrange(end, old_items.len() as int)
}

/// Calls `Rope::from` on a string slice. The rope that comes back holds the
/// bytes of the slice.
#[verifier::external_body]
pub(crate) fn rope_from_str(src: &str) -> (rope: Rope)
    ensures
        rope_bytes(rope) == src.spec_bytes(),
{
    Rope { inner: xi_rope::Rope::from(src) }
}

/// Calls `Node::len`: the number of bytes in the rope.
#[verifier::external_body]
pub(crate) fn rope_len(rope: &Rope) -> (n: usize)
    ensures
        n == rope_bytes(*rope).len(),
{
    rope.inner.len()
}

/// Calls `Node::is_empty`: whether the rope holds no byte.
#[verifier::external_body]
pub(crate) fn rope_is_empty(rope: &Rope) -> (empty: bool)
    ensures
        empty == (rope_bytes(*rope).len() == 0),
{
    rope.inner.is_empty()
}

/// Calls `Node::clone`, which shares the tree: the clone is the same rope.
#[verifier::external_body]
pub(crate) fn rope_clone(rope: &Rope) -> (copy: Rope)
    ensures
        copy == *rope,
{
    Rope { inner: rope.inner.clone() }
}

/// Calls `Rope::is_codepoint_boundary`. It answers for every offset: true at
/// the start and the end of the text and at the first byte of a code point,
/// false inside a code point and beyond the end.
#[verifier::external_body]
pub(crate) fn rope_is_codepoint_boundary(rope: &Rope, offset: usize) -> (on_boundary: bool)
    ensures
        on_boundary == is_boundary(rope_bytes(*rope), offset as int),
{
    rope.inner.is_codepoint_boundary(offset)
}

/// Calls `Rope::slice_to_cow` and takes the text as an owned string. On a
/// range within the rope whose ends lie on boundaries, the text is made of
/// the bytes in that range.
#[verifier::external_body]
pub(crate) fn rope_slice(rope: &Rope, start: usize, end: usize) -> (text: String)
    requires
        start <= end <= rope_bytes(*rope).len(),
        is_boundary(rope_bytes(*rope), start as int),
        is_boundary(rope_bytes(*rope), end as int),
    ensures
        vstd::utf8::encode_utf8(text@) == rope_bytes(*rope).subrange(start as int, end as int),
{
    rope.inner.slice_to_cow(Interval::new(start, end)).into_owned()
}

/// Calls `Node::edit` with a string slice as the new content. On a range
/// within the rope whose ends lie on boundaries, the rope afterwards holds
/// what came before the range, then the new bytes, then what came after it.
#[verifier::external_body]
pub(crate) fn rope_edit(rope: &mut Rope, start: usize, end: usize, new: &str)
    requires
        start <= end <= rope_bytes(*old(rope)).len(),
        is_boundary(rope_bytes(*old(rope)), start as int),
        is_boundary(rope_bytes(*old(rope)), end as int),
        rope_bytes(*old(rope)).len() - (end - start) + new.spec_bytes().len() <= usize::MAX,
    ensures
        rope_bytes(*final(rope)) == spliced(
            rope_bytes(*old(rope)),
            start as int,
            end as int,
            new.spec_bytes(),
        ),
{
    rope.inner.edit(Interval::new(start, end), new)
}

} // verus!
