//! A type for representing editable, styled text buffers.

use crate::rope::{
    is_boundary, rope_bytes, rope_clone, rope_edit, rope_from_str, rope_is_codepoint_boundary,
    rope_is_empty, rope_len, rope_slice, spliced, Rope,
};
use crate::spans::{
    spans_clone, spans_edit, spans_len, spans_new, spans_styles, unstyled, SpanMap,
};
use std::sync::Arc;
use vstd::prelude::*;
use vstd::string::*;

verus! {

/// A colour, as red, green, blue and alpha in one word.
#[derive(Debug, Clone, Copy, PartialEq, Eq, Structural)]
pub struct Color {
    pub rgba: u32,
}

/// What a span of text looks like: a colour, and a font where one is set.
#[derive(Debug, Clone)]
pub struct Style {
    pub font: Option<()>,
    pub color: Color,
}

/// Why an edit was refused.
#[derive(Debug, Clone, Copy, PartialEq, Eq, Structural)]
pub enum EditError {
    /// The range is reversed or reaches beyond the end of the buffer.
    OutOfBounds,
    /// An end of the range lies inside a code point.
    NotOnBoundary,
    /// The edited text would be longer than the machine can count.
    TooLong,
}

/// Text and its styles, edited together.
///
/// Both halves are shared snapshots: a clone costs two reference counts, and
/// an edit leaves every earlier clone as it was.
pub struct TextBuffer {
    buffer: Arc<Rope>,
    styles: Arc<SpanMap>,
}

/// Calls `Arc::clone`: the new handle points to the same value.
#[verifier::external_body]
fn arc_clone<T>(handle: &Arc<T>) -> (copy: Arc<T>)
    ensures
        copy == *handle,
{
    Arc::clone(handle)
}

/// Calls `Arc::ptr_eq`. Two handles to one allocation hold one value; of two
/// handles to different allocations nothing is said.
#[verifier::external_body]
fn arc_ptr_eq<T>(this: &Arc<T>, other: &Arc<T>) -> (shared: bool)
    ensures
        shared ==> *this == *other,
{
    Arc::ptr_eq(this, other)
}

/// The number of bytes in `text`.
fn byte_len(text: &str) -> (n: usize)
    ensures
        n == text.spec_bytes().len(),
{
    text.as_bytes().len()
}

impl TextBuffer {
    /// The buffer's text, as UTF-8 bytes.
    pub closed spec fn text(&self) -> Seq<u8> {
        rope_bytes(*self.buffer)
    }

    /// The style at each byte offset; `None` where the text is unstyled.
    pub closed spec fn styles(&self) -> Seq<Option<Style>> {
        spans_styles(*self.styles)
    }

    #[verifier::type_invariant]
    spec fn covered(&self) -> bool {
        self.styles().len() == self.text().len()
    }

    /// Whether `[start, end)` lies within the text with both ends on
    /// code-point boundaries.
    pub open spec fn valid_range(&self, start: int, end: int) -> bool {
        &&& start <= end <= self.text().len()
        &&& is_boundary(self.text(), start)
        &&& is_boundary(self.text(), end)
    }

    /// Whether the text can still be counted once `new_len` bytes stand in
    /// place of `[start, end)`.
    pub open spec fn edit_fits(&self, start: int, end: int, new_len: nat) -> bool {
        self.text().len() - (end - start) + new_len <= usize::MAX
    }

    /// The reason for which an edit of `[start, end)` is refused, if any.
    pub open spec fn refusal(&self, start: int, end: int, new_len: nat) -> Option<EditError> {
        if start > end || end > self.text().len() {
            Some(EditError::OutOfBounds)
        } else if !is_boundary(self.text(), start) || !is_boundary(self.text(), end) {
            Some(EditError::NotOnBoundary)
        } else if !self.edit_fits(start, end, new_len) {
            Some(EditError::TooLong)
        } else {
            None
        }
    }

    /// An empty buffer.
    pub fn new() -> (buf: Self)
        ensures
            buf.text() == Seq::<u8>::empty(),
            buf.styles() == Seq::<Option<Style>>::empty(),
    {
        let buf = Self::from("");
        proof {
            reveal_strlit("");
            assert(""@ =~= Seq::<char>::empty());
            assert(buf.text() =~= Seq::<u8>::empty());
            assert(buf.styles() =~= Seq::<Option<Style>>::empty());
        }
        buf
    }

    /// A buffer that holds `src`, unstyled.
    pub fn from(src: &str) -> (buf: Self)
        ensures
            buf.text() == src.spec_bytes(),
            buf.styles() == unstyled(src.spec_bytes().len()),
    {
        let buffer = rope_from_str(src);
        let styles = spans_new(rope_len(&buffer));
        TextBuffer { buffer: Arc::new(buffer), styles: Arc::new(styles) }
    }

    /// The length of the buffer, in UTF-8 code units. The styles cover
    /// exactly as many offsets.
    pub fn len(&self) -> (n: usize)
        ensures
            n == self.text().len(),
            n == self.styles().len(),
    {
        proof {
            use_type_invariant(self);
        }
        rope_len(&self.buffer)
    }

    /// The number of offsets that the styles cover: always the length of the
    /// text.
    pub fn covered_len(&self) -> (n: usize)
        ensures
            n == self.styles().len(),
            n == self.text().len(),
    {
        proof {
            use_type_invariant(self);
        }
        spans_len(&self.styles)
    }

    /// Whether the buffer holds no text.
    pub fn is_empty(&self) -> (empty: bool)
        ensures
            empty == (self.text().len() == 0),
    {
        rope_is_empty(&self.buffer)
    }

    /// Whether `offset` lies within the text and on a code-point boundary.
    pub fn is_boundary(&self, offset: usize) -> (on_boundary: bool)
        ensures
            on_boundary == is_boundary(self.text(), offset as int),
    {
        rope_is_codepoint_boundary(&self.buffer, offset)
    }

    /// The text in `[start, end)`.
    pub fn slice(&self, start: usize, end: usize) -> (text: String)
        requires
            self.valid_range(start as int, end as int),
        ensures
            vstd::utf8::encode_utf8(text@) == self.text().subrange(start as int, end as int),
    {
        rope_slice(&self.buffer, start, end)
    }

    /// Replace the text in `[start, end)` by `new`.
    ///
    /// The new region is unstyled; text and styles after it move together.
    pub fn replace(&mut self, start: usize, end: usize, new: &str)
        requires
            old(self).valid_range(start as int, end as int),
            old(self).edit_fits(start as int, end as int, new.spec_bytes().len()),
        ensures
            final(self).text() == spliced(
                old(self).text(),
                start as int,
                end as int,
                new.spec_bytes(),
            ),
            final(self).styles() == spliced(
                old(self).styles(),
                start as int,
                end as int,
                unstyled(new.spec_bytes().len()),
            ),
            final(self).text().len() == old(self).text().len() - (end - start)
                + new.spec_bytes().len(),
            forall|i: int|
                start <= i < start + new.spec_bytes().len() ==> final(self).styles()[i].is_none(),
    {
        proof {
            use_type_invariant(&*self);
        }
        let mut rope = rope_clone(&self.buffer);
        let mut styles = spans_clone(&self.styles);
        let new_styles = spans_new(byte_len(new));
        rope_edit(&mut rope, start, end, new);
        spans_edit(&mut styles, start, end, new_styles);
        *self = TextBuffer { buffer: Arc::new(rope), styles: Arc::new(styles) };
    }

    /// Replace the text in `[start, end)` by `new` where that can be done,
    /// and say why where it cannot. A refused edit changes nothing.
    pub fn try_replace(&mut self, start: usize, end: usize, new: &str) -> (done: Result<
        (),
        EditError,
    >)
        ensures
            done.is_ok() <==> old(self).refusal(
                start as int,
                end as int,
                new.spec_bytes().len(),
            ).is_none(),
            done.is_err() ==> *final(self) == *old(self) && Some(done->Err_0) == old(self).refusal(
                start as int,
                end as int,
                new.spec_bytes().len(),
            ),
            done.is_ok() ==> final(self).text() == spliced(
                old(self).text(),
                start as int,
                end as int,
                new.spec_bytes(),
            ) && final(self).styles() == spliced(
                old(self).styles(),
                start as int,
                end as int,
                unstyled(new.spec_bytes().len()),
            ),
    {
        let len = self.len();
        if start > end || end > len {
            return Err(EditError::OutOfBounds);
        }
        if !self.is_boundary(start) || !self.is_boundary(end) {
            return Err(EditError::NotOnBoundary);
        }
        let kept: usize = len - (end - start);
        if byte_len(new) > usize::MAX - kept {
            return Err(EditError::TooLong);
        }
        self.replace(start, end, new);
        Ok(())
    }

    /// Append new text onto the end of the buffer.
    pub fn push(&mut self, new: &str)
        requires
            old(self).text().len() + new.spec_bytes().len() <= usize::MAX,
        ensures
            final(self).text() == old(self).text() + new.spec_bytes(),
            final(self).styles() == old(self).styles() + unstyled(new.spec_bytes().len()),
            final(self).text() == spliced(
                old(self).text(),
                old(self).text().len() as int,
                old(self).text().len() as int,
                new.spec_bytes(),
            ),
    {
        proof {
            use_type_invariant(&*self);
        }
        let end = self.len();
        self.replace(end, end, new);
        proof {
            let len = end as int;
            assert(old(self).text().subrange(0, len) =~= old(self).text());
            assert(old(self).text().subrange(len, len) =~= Seq::<u8>::empty());
            assert(self.text() =~= old(self).text() + new.spec_bytes());
            assert(old(self).styles().subrange(0, len) =~= old(self).styles());
            assert(self.styles() =~= old(self).styles() + unstyled(new.spec_bytes().len()));
        }
    }

    /// Whether `other` is this very buffer: the same snapshots of text and
    /// styles, not merely equal ones. A cheap test that never reads the text.
    ///
    /// Buffers that are the same hold the same text and styles. Buffers that
    /// were built apart are never the same, whatever they hold.
    pub fn same(&self, other: &TextBuffer) -> (shared: bool)
        ensures
            shared ==> *self == *other,
    {
        let text_shared = arc_ptr_eq(&self.buffer, &other.buffer);
        let styles_shared = arc_ptr_eq(&self.styles, &other.styles);
        Self::shares_both(text_shared, styles_shared)
    }

    /// Whether two buffers are the same, given whether they share their
    /// snapshot of the text and whether they share their snapshot of the
    /// styles: only buffers that share both are the same.
    pub fn shares_both(text_shared: bool, styles_shared: bool) -> (shared: bool)
        ensures
            shared == (text_shared && styles_shared),
    {
        text_shared && styles_shared
    }
}

/// Slicing the whole of a buffer that was made from `src` gives `src` back:
/// a text is known by its bytes.
pub proof fn lemma_whole_slice_is_source(buf: TextBuffer, src: &str, text: String)
    requires
        buf.text() == src.spec_bytes(),
        vstd::utf8::encode_utf8(text@) == buf.text().subrange(0, buf.text().len() as int),
    ensures
        text@ == src@,
{
    broadcast use vstd::utf8::encode_utf8_decode_utf8;

    assert(buf.text().subrange(0, buf.text().len() as int) =~= buf.text());
    assert(vstd::utf8::decode_utf8(vstd::utf8::encode_utf8(text@)) == text@);
    assert(vstd::utf8::decode_utf8(vstd::utf8::encode_utf8(src@)) == src@);
}

/// An edit changes the length by what came in less what went out. What
/// stood before the range stays in place, the new items stand where the
/// range began, and what stood after the range follows them.
pub proof fn lemma_edit_shape<T>(old_items: Seq<T>, start: int, end: int, new_items: Seq<T>)
    requires
        0 <= start <= end <= old_items.len(),
    ensures
        spliced(old_items, start, end, new_items).len() == old_items.len() - (end - start)
            + new_items.len(),
        forall|i: int|
            0 <= i < start ==> spliced(old_items, start, end, new_items)[i] == old_items[i],
        forall|i: int|
            start <= i < start + new_items.len() ==> spliced(old_items, start, end, new_items)[i]
                == new_items[i - start],
        forall|i: int|
            end <= i < old_items.len() ==> spliced(
                old_items,
                start,
                end,
                new_items,
            )[i - (end - start) + new_items.len()] == old_items[i],
{
}

impl Clone for TextBuffer {
    /// Another handle to the same snapshots.
    fn clone(&self) -> (copy: Self)
        ensures
            copy == *self,
    {
        proof {
            use_type_invariant(self);
        }
        TextBuffer { buffer: arc_clone(&self.buffer), styles: arc_clone(&self.styles) }
    }
}

impl Default for TextBuffer {
    /// An empty buffer.
    fn default() -> (buf: Self)
        ensures
            buf.text() == Seq::<u8>::empty(),
            buf.styles() == Seq::<Option<Style>>::empty(),
    {
        Self::new()
    }
}

} // verus!
