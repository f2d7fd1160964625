//! Terminal interaction support: capability descriptions of terminal emulators, and the
//! colors and styles used in ANSI escape sequences.
//!
//! [`capinfo`] holds the capability records, the meet that keeps what two records share,
//! and the catalog that groups terminals by the value of `$TERM` they set. [`Color::parse`]
//! reads the textual color notation, consulting the named color tables of [`palette`].

pub mod capinfo;
pub mod color;
pub mod order;
pub mod palette;
pub mod style;

pub use color::{Color, ColorParseError};
pub use style::{Style, UnderlineShape, UnderlineStyle};
