//! Decoder for a line-oriented, hex-ASCII command stream that drives a
//! minimal rasterizer.
//!
//! Each line of input carries one command: set a palette entry, clear the
//! screen, draw a triangle, upload an image, or select the active image
//! slot; an empty line ends the stream.  The decoder turns raw bytes into
//! validated, strongly-typed draw instructions and hands each one to an
//! abstract rendering sink.

pub mod color;
pub mod hex;
pub mod image;
pub mod input;
pub mod nibble;
pub mod output;
pub mod parse;
pub mod point;
pub mod triangle;

pub use crate::color::Col;
pub use crate::hex::{read_u4, read_u8};
pub use crate::image::Img;
pub use crate::nibble::Nib;
pub use crate::output::{parse_command, Output};
pub use crate::parse::{Cursor, ParseError};
pub use crate::point::Pnt;
pub use crate::triangle::Tri;
