//! A type for representing text that is laid out for display.
//!
//! Shaping text is the work of a backend outside this library. A
//! [`TextLayout`] decides when that work is due: each operation that may need
//! the backend answers with a [`LayoutAction`], and the caller hands what the
//! backend measured back in. Lengths are in the backend's own units.

use crate::rope::is_boundary;
use crate::text_buffer::TextBuffer;
use vstd::prelude::*;

verus! {

/// A width and a height.
#[derive(Debug, Clone, Copy, PartialEq, Eq, Structural)]
pub struct Size {
    pub width: u64,
    pub height: u64,
}

/// What the backend measured of one line.
#[derive(Debug, Clone, Copy, PartialEq, Eq, Structural)]
pub struct LineMetric {
    /// The height of this line and of all lines above it.
    pub cumulative_height: u64,
    /// The distance from the top of the line to its baseline.
    pub baseline: u64,
}

/// What the backend measured of a shaped text.
#[derive(Debug, Clone, PartialEq, Eq)]
pub struct ShapedLayout {
    /// The width that the text takes up.
    pub width: u64,
    /// The lines, from top to bottom.
    pub lines: Vec<LineMetric>,
}

/// The work that the caller owes the backend.
#[derive(Debug, Clone, PartialEq, Eq)]
pub enum LayoutAction {
    /// Nothing: what is cached stands.
    Keep,
    /// Shape `text` from scratch; `width` is the room for a line, `None` for
    /// no limit.
    Build { text: String, width: Option<u64> },
    /// Break the lines of the shaped text anew for `width`.
    Reflow { width: Option<u64> },
}

/// What the caller is to paint.
#[derive(Debug, Clone, Copy, PartialEq, Eq, Structural)]
pub enum DrawAction {
    /// Nothing: no text is shaped.
    Nothing,
    /// The shaped text, moved down by `baseline` from the typographic origin.
    Render { baseline: u64 },
}

/// Whether `action` asks to shape the text `bytes` at `width`.
pub open spec fn is_build_of(action: LayoutAction, bytes: Seq<u8>, width: Option<u64>) -> bool {
    match action {
        LayoutAction::Build { text, width: room } => vstd::utf8::encode_utf8(text@) == bytes
            && room == width,
        _ => false,
    }
}

/// Whether `action` is what a buffer holding `bytes` asks of the backend:
/// nothing where there is no text, else a build of all of it.
pub open spec fn is_request_for(action: LayoutAction, bytes: Seq<u8>, width: Option<u64>) -> bool {
    if bytes.len() == 0 {
        action == LayoutAction::Keep
    } else {
        is_build_of(action, bytes, width)
    }
}

/// Whether `offset` is the last code-point boundary of `bytes` at or before
/// `hit`.
pub open spec fn is_snapped(bytes: Seq<u8>, hit: int, offset: int) -> bool {
    &&& offset <= hit
    &&& is_boundary(bytes, offset)
    &&& forall|j: int| offset < j <= hit ==> !is_boundary(bytes, j)
}

/// The shaped text of a layout, if there is one.
pub struct LayoutWrapper {
    inner: Option<ShapedLayout>,
}

impl LayoutWrapper {
    /// What is shaped, if anything.
    pub closed spec fn shaped(&self) -> Option<ShapedLayout> {
        self.inner
    }

    /// Whether a text is shaped.
    pub open spec fn is_built(&self) -> bool {
        self.shaped().is_some()
    }

    /// The size of what is shaped: its measured width and the cumulative
    /// height of its last line; zero where nothing is shaped.
    pub open spec fn spec_size(&self) -> Size {
        match self.shaped() {
            None => Size { width: 0, height: 0 },
            Some(shaped) => Size {
                width: shaped.width,
                height: if shaped.lines@.len() == 0 {
                    0
                } else {
                    shaped.lines@.last().cumulative_height
                },
            },
        }
    }

    /// The baseline of the first line; zero where there is no line.
    pub open spec fn spec_first_baseline(&self) -> u64 {
        match self.shaped() {
            Some(shaped) if shaped.lines@.len() > 0 => shaped.lines@[0].baseline,
            _ => 0,
        }
    }

    /// What `buffer` asks of the backend before it can be measured.
    pub fn request_for(buffer: &TextBuffer, width: Option<u64>) -> (action: LayoutAction)
        ensures
            is_request_for(action, buffer.text(), width),
    {
        if buffer.is_empty() {
            LayoutAction::Keep
        } else {
            let len = buffer.len();
            let text = buffer.slice(0, len);
            assert(buffer.text().subrange(0, len as int) =~= buffer.text());
            LayoutAction::Build { text, width }
        }
    }

    /// The layout of `buffer`, given what the backend made of it: `outcome`,
    /// or nothing where the backend failed or the buffer has no text.
    pub fn for_buffer(buffer: &TextBuffer, outcome: Option<ShapedLayout>) -> (layout: Self)
        ensures
            layout.shaped() == if buffer.text().len() == 0 {
                None
            } else {
                outcome
            },
    {
        if buffer.is_empty() {
            LayoutWrapper { inner: None }
        } else {
            LayoutWrapper { inner: outcome }
        }
    }

    /// What a change of width to `width` asks of the backend: a reflow of
    /// what is shaped, never a build.
    pub fn reflow_request(&self, width: Option<u64>) -> (action: LayoutAction)
        ensures
            action == if self.is_built() {
                LayoutAction::Reflow { width }
            } else {
                LayoutAction::Keep
            },
    {
        if self.inner.is_some() {
            LayoutAction::Reflow { width }
        } else {
            LayoutAction::Keep
        }
    }

    /// Takes in what the backend measured after a reflow. A layout that was
    /// not built stays so; a reflow that failed leaves nothing shaped.
    pub fn update_width(&mut self, outcome: Option<ShapedLayout>)
        ensures
            final(self).shaped() == if old(self).is_built() {
                outcome
            } else {
                None
            },
        no_unwind
    {
        match self.inner {
            Some(_) => {
                self.inner = outcome;
            },
            None => {},
        }
    }

    /// The size of this layout.
    pub fn size(&self) -> (size: Size)
        ensures
            size == self.spec_size(),
    {
        match &self.inner {
            None => Size { width: 0, height: 0 },
            Some(shaped) => {
                let count = shaped.lines.len();
                let height: u64 = if count == 0 {
                    0
                } else {
                    shaped.lines[count - 1].cumulative_height
                };
                Size { width: shaped.width, height }
            },
        }
    }

    /// The position of the first baseline below the origin of the
    /// typographic bounds.
    pub fn first_baseline(&self) -> (baseline: u64)
        ensures
            baseline == self.spec_first_baseline(),
    {
        match &self.inner {
            None => 0,
            Some(shaped) => {
                if shaped.lines.len() > 0 {
                    shaped.lines[0].baseline
                } else {
                    0
                }
            },
        }
    }

    /// The offset in `buffer` for the offset `hit` that the backend found
    /// under a point: the last code-point boundary at or before `hit`, and
    /// zero where nothing is shaped.
    pub fn offset_for_point(&self, buffer: &TextBuffer, hit: usize) -> (offset: usize)
        ensures
            !self.is_built() ==> offset == 0,
            self.is_built() ==> is_snapped(buffer.text(), hit as int, offset as int),
            self.is_built() && is_boundary(buffer.text(), hit as int) ==> offset == hit,
            is_boundary(buffer.text(), offset as int),
    {
        if self.inner.is_none() {
            return 0;
        }
        let len = buffer.len();
        let mut pos: usize = if hit < len {
            hit
        } else {
            len
        };
        while !buffer.is_boundary(pos)
            invariant
                pos <= hit,
                pos <= len,
                len == buffer.text().len(),
                forall|j: int| pos < j <= hit ==> !is_boundary(buffer.text(), j),
            decreases pos,
        {
            pos = pos - 1;
        }
        pos
    }
}

impl Default for LayoutWrapper {
    /// A layout with nothing shaped.
    fn default() -> (layout: Self)
        ensures
            !layout.is_built(),
    {
        LayoutWrapper { inner: None }
    }
}

/// Text laid out for display, and the buffer and the width it was laid out
/// for.
pub struct TextLayout {
    buffer: TextBuffer,
    layout: LayoutWrapper,
    width: Option<u64>,
}

impl TextLayout {
    /// The buffer that the layout was last asked to show.
    pub closed spec fn buffer(&self) -> TextBuffer {
        self.buffer
    }

    /// What is shaped of it.
    pub closed spec fn layout(&self) -> LayoutWrapper {
        self.layout
    }

    /// The room for a line; `None` means no limit.
    pub closed spec fn width(&self) -> Option<u64> {
        self.width
    }

    /// Whether a text is shaped.
    pub open spec fn is_built(&self) -> bool {
        self.layout().is_built()
    }

    #[verifier::type_invariant]
    spec fn nothing_shaped_of_nothing(&self) -> bool {
        self.buffer.text().len() == 0 ==> !self.layout.is_built()
    }

    /// A layout for `buffer` at `width`, with nothing shaped yet, and the
    /// build that the backend is to do at once.
    pub fn new(buffer: TextBuffer, width: Option<u64>) -> (made: (Self, LayoutAction))
        ensures
            made.0.buffer() == buffer,
            made.0.width() == width,
            !made.0.is_built(),
            is_request_for(made.1, buffer.text(), width),
    {
        let action = LayoutWrapper::request_for(&buffer, width);
        (TextLayout { buffer, layout: LayoutWrapper::default(), width }, action)
    }

    /// Takes in what the backend made of a build: `outcome`, or nothing
    /// where it failed. Of a buffer without text nothing is ever shaped.
    pub fn install(&mut self, outcome: Option<ShapedLayout>)
        ensures
            final(self).buffer() == old(self).buffer(),
            final(self).width() == old(self).width(),
            final(self).layout().shaped() == if old(self).buffer().text().len() == 0 {
                None
            } else {
                outcome
            },
    {
        self.layout = LayoutWrapper::for_buffer(&self.buffer, outcome);
    }

    /// Shows `buffer` from now on. Where it is the very buffer that is shown
    /// already, nothing changes and nothing is asked of the backend. Else
    /// what was shaped is dropped, and the answer is the build of the new
    /// text at the stored width.
    pub fn update_buffer(&mut self, buffer: TextBuffer) -> (action: LayoutAction)
        ensures
            ({
                ||| {
                    &&& *final(self) == *old(self)
                    &&& old(self).buffer() == buffer
                    &&& action == LayoutAction::Keep
                }
                ||| {
                    &&& final(self).buffer() == buffer
                    &&& final(self).width() == old(self).width()
                    &&& !final(self).is_built()
                    &&& is_request_for(action, buffer.text(), old(self).width())
                }
            }),
    {
        let same = self.buffer.same(&buffer);
        self.buffer_changed(buffer, same)
    }

    /// Shows `buffer` from now on, given whether it is the very buffer that
    /// is shown already.
    pub fn buffer_changed(&mut self, buffer: TextBuffer, same: bool) -> (action: LayoutAction)
        ensures
            same ==> *final(self) == *old(self) && action == LayoutAction::Keep,
            !same ==> ({
                &&& final(self).buffer() == buffer
                &&& final(self).width() == old(self).width()
                &&& !final(self).is_built()
                &&& is_request_for(action, buffer.text(), old(self).width())
            }),
    {
        if same {
            LayoutAction::Keep
        } else {
            let action = LayoutWrapper::request_for(&buffer, self.width);
            *self = TextLayout { buffer, layout: LayoutWrapper::default(), width: self.width };
            action
        }
    }

    /// Stores `width` and asks for a reflow of what is shaped. The text is
    /// never built anew for a change of width, and what is shaped stays.
    pub fn update_width(&mut self, width: Option<u64>) -> (action: LayoutAction)
        ensures
            final(self).width() == width,
            final(self).buffer() == old(self).buffer(),
            final(self).layout() == old(self).layout(),
            action == if old(self).is_built() {
                LayoutAction::Reflow { width }
            } else {
                LayoutAction::Keep
            },
    {
        proof {
            use_type_invariant(&*self);
        }
        self.width = width;
        self.layout.reflow_request(width)
    }

    /// Takes in what the backend measured after a reflow; a reflow that
    /// failed leaves nothing shaped.
    pub fn reflowed(&mut self, outcome: Option<ShapedLayout>)
        ensures
            final(self).buffer() == old(self).buffer(),
            final(self).width() == old(self).width(),
            final(self).layout().shaped() == if old(self).is_built() {
                outcome
            } else {
                None
            },
    {
        proof {
            use_type_invariant(&*self);
        }
        self.layout.update_width(outcome);
    }

    /// What is to be painted: the shaped text below its first baseline, or
    /// nothing where no text is shaped.
    pub fn draw(&self) -> (action: DrawAction)
        ensures
            action == if self.is_built() {
                DrawAction::Render { baseline: self.layout().spec_first_baseline() }
            } else {
                DrawAction::Nothing
            },
            self.buffer().text().len() == 0 ==> action == DrawAction::Nothing,
    {
        proof {
            use_type_invariant(self);
        }
        if self.layout.inner.is_some() {
            DrawAction::Render { baseline: self.layout.first_baseline() }
        } else {
            DrawAction::Nothing
        }
    }

    /// The size of the shaped text; zero where none is shaped, as for a
    /// buffer without text.
    pub fn size(&self) -> (size: Size)
        ensures
            size == self.layout().spec_size(),
            self.buffer().text().len() == 0 ==> size == (Size { width: 0, height: 0 }),
    {
        proof {
            use_type_invariant(self);
        }
        self.layout.size()
    }

    /// The position of the first baseline; zero where no text is shaped.
    pub fn first_baseline(&self) -> (baseline: u64)
        ensures
            baseline == self.layout().spec_first_baseline(),
    {
        self.layout.first_baseline()
    }

    /// The offset in the buffer for the offset `hit` that the backend found
    /// under a point. It always lies on a code-point boundary of the text.
    pub fn offset_for_point(&self, hit: usize) -> (offset: usize)
        ensures
            !self.is_built() ==> offset == 0,
            self.is_built() ==> is_snapped(self.buffer().text(), hit as int, offset as int),
            self.is_built() && is_boundary(self.buffer().text(), hit as int) ==> offset == hit,
            is_boundary(self.buffer().text(), offset as int),
    {
        self.layout.offset_for_point(&self.buffer, hit)
    }
}

} // verus!
