//! Styled text rendering for a terminal viewport.
//!
//! A `CompoundStyle` bundles optional foreground and background colors with a
//! set of text attributes; a `StyledChar` binds such a style to one character
//! and keeps its rendered form cached. An `Area` is a rectangular screen
//! region, and a `ScrollableView` presents pre-wrapped lines through an area
//! with a clamped scroll offset. Rendering queues bytes onto an in-memory
//! buffer; flushing that buffer to the terminal is left to the caller.
//!
//! Rendering always emits color escape sequences: the backend wrappers force
//! colored output on, so the bytes depend on the style and text alone. An
//! application that wants to honor a no-color policy such as the `NO_COLOR`
//! convention decides that for itself before flushing.

pub mod area;
pub mod compound_style;
pub mod output;
pub mod styled_char;
pub mod view;

pub use area::Area;
pub use compound_style::{CompoundStyle, StyledText};
pub use styled_char::StyledChar;
pub use view::{FmtLine, ScrollableView};
