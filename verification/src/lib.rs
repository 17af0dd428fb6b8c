//! Core logic of a minimal plain-text editor: auto-closing of brackets and
//! quotes, tab-to-indent, auto-indent on newline, keyboard-shortcut dispatch,
//! view selection by URL path, and the pure parts of file export and import.
//!
//! Every editing rule is a pure function from a text buffer and a cursor (or
//! selection) to a new buffer and cursor, so the rules can be verified and
//! tested independently of any UI framework. Buffers are byte strings; cursor
//! positions are byte offsets into them.

pub mod editing;
pub mod files;
pub mod keymap;
pub mod routing;
