//! Renders a grid of perceptual colors as lines of ANSI-styled terminal text.
//!
//! Every 2x2 block of the input becomes one character cell: a glyph with a
//! foreground and, where asked for, a background color. The engine works in
//! two passes. The first ([`select_row`], [`convert::select_grid`]) picks the
//! glyph and the colors of every cell, in the perceptual space in which the
//! blocks are compared. The second ([`process_row`],
//! [`convert::render_grid`]) writes the cells as text, once the caller has
//! turned their colors into 8-bit sRGB.
//!
//! Perceptual colors are held in fixed point (see [`color`]), so that every
//! decision of the engine is stated and proved over integers. Turning sRGB
//! into this space and back is left to the caller, as are decoding and
//! quantizing the image; [`resize`] brings a decoded image to the size that
//! a grid needs.

pub mod color;
pub mod convert;
pub mod error;
pub mod glyphs;
pub mod image;
pub mod matcher;
pub mod minimum;
pub mod palettes;
pub mod processing;
pub mod render;
pub mod resize;
pub mod sets;
pub mod settings;

pub use self::color::{Luv, Rgb8};
pub use self::error::AnsiImageError;
pub use self::image::LuvImage;
pub use self::processing::{select_row, Selection};
pub use self::render::{process_row, RenderDecision};
pub use self::settings::{
    Advanced, AsciiCharSet, CharacterMode, Characters, ColorMode, Colors, DitherMatrix, Dithering,
    ResizeFilter, Settings, Size, SizeMode, UnicodeCharSet,
};
