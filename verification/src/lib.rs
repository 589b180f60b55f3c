//! A styled, editable text model.
//!
//! A [`TextBuffer`] pairs a persistent rope with a map from byte offsets to
//! styles and edits both together. A [`TextLayout`] remembers for which buffer
//! and width text was last shaped, and decides when shaping has to be done
//! again.

pub mod application;
pub mod rope;
pub mod spans;
pub mod text_buffer;
pub mod text_layout;

pub use application::{Application, Clipboard};
pub use text_buffer::{Color, EditError, Style, TextBuffer};
pub use text_layout::{
    DrawAction, LayoutAction, LayoutWrapper, LineMetric, ShapedLayout, Size, TextLayout,
};
