//! A uniform abstraction over font data sources.
//!
//! Raw font bytes enter through one of two concrete backends: [`FontRef`]
//! borrows a byte slice, [`FontVec`] owns a byte buffer. Both validate the
//! mandatory tables of the binary font format at construction and answer
//! every query of the [`Font`] capability contract by reading the bytes on
//! demand. [`FontArc`] wraps either backend behind a reference-counted,
//! cheaply cloneable, type-erasing handle.
//!
//! All metrics are integers in font design units. Every query is total:
//! an unmapped character, an absent kerning pair or a glyph without an
//! outline yield designated results, never errors; the single error,
//! [`InvalidFont`], arises only at construction.

pub mod bytes;
pub mod model;
pub mod outline;
pub mod font;
pub mod parse;
mod query;
pub mod font_ref;
pub mod font_vec;
pub mod font_arc;
pub mod laws;

pub use font::{Font, FontFault, GlyphId, InvalidFont};
pub use font_arc::{FontArc, FontKind};
pub use font_ref::FontRef;
pub use font_vec::FontVec;
pub use outline::{Contour, Outline, Point};
