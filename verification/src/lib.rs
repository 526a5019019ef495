//! A document-model projection core for Unified Font Object data.
//!
//! The crate takes an in-memory source font graph (layers, glyphs, outlines,
//! metadata bags, sidecar binary stores) and produces an isomorphic graph of
//! host records, preserving every semantic distinction the source makes:
//! optional fields stay optional, collection order is kept, integer-valued
//! reals project as integers, and absent identifiers project as an explicit
//! "no value" marker.

pub mod elements;
pub mod font;
pub mod glyph;
pub mod info;
pub mod kerning;
pub mod num;
pub mod object_libs;
pub mod store;
pub mod value;

pub use num::{HostNum, Real};
pub use value::{HostValue, SourceValue};
