//! The span map that stores a buffer's styles, and what is taken on trust of it.
//!
//! The map is an `xi_rope::spans::Spans` of [`Style`]. Verus cannot look
//! inside it, so what it holds is given a name, [`spans_styles`]: for each byte
//! offset the style of the span that covers it, or `None` where no span does.

use crate::rope::spliced;
use crate::text_buffer::Style;
use vstd::prelude::*;
use xi_rope::interval::Interval;
use xi_rope::spans::{Spans, SpansBuilder};

verus! {

/// A map from byte offsets to styles: an `xi_rope::spans::Spans`, of which
/// Verus sees nothing but what the functions below state.
#[verifier::external_body]
pub struct SpanMap {
    inner: Spans<Style>,
}

/// The style at each offset that the map covers: `None` where no span lies.
pub uninterp spec fn spans_styles(map: SpanMap) -> Seq<Option<Style>>;

/// `len` offsets, none of them styled.
pub open spec fn unstyled(len: nat) -> Seq<Option<Style>> {
    Seq::new(len, |i: int| None::<Style>)
}

/// Calls `SpansBuilder::new` and, with no span added, `SpansBuilder::build`.
/// The map covers `len` offsets and holds no span.
#[verifier::external_body]
pub(crate) fn spans_new(len: usize) -> (map: SpanMap)
    ensures
        spans_styles(map) == unstyled(len as nat),
{
    SpanMap { inner: SpansBuilder::new(len).build() }
}

/// Calls `Node::len`: the number of offsets that the map covers.
#[verifier::external_body]
pub(crate) fn spans_len(map: &SpanMap) -> (n: usize)
    ensures
        n == spans_styles(*map).len(),
{
    map.inner.len()
}

/// Calls `Node::clone`, which shares the tree: the clone is the same map.
#[verifier::external_body]
pub(crate) fn spans_clone(map: &SpanMap) -> (copy: SpanMap)
    ensures
        copy == *map,
{
    SpanMap { inner: map.inner.clone() }
}

/// Calls `Node::edit` with another map as the new content. Spans, or the
/// parts of spans, before `start` stay; those at or after `end` stay and move
/// with the text; what lay in between gives way to the spans of `new`.
#[verifier::external_body]
pub(crate) fn spans_edit(map: &mut SpanMap, start: usize, end: usize, new: SpanMap)
    requires
        start <= end <= spans_styles(*old(map)).len(),
        spans_styles(*old(map)).len() - (end - start) + spans_styles(new).len() <= usize::MAX,
    ensures
        spans_styles(*final(map)) == spliced(
            spans_styles(*old(map)),
            start as int,
            end as int,
            spans_styles(new),
        ),
{
    map.inner.edit(Interval::new(start, end), new.inner)
}

} // verus!
