//! Control of a Novation Launchpad grid surface: the wire codec for its
//! lighting commands and input events, the mapping between grid locations and
//! note numbers, and perceptual matching of RGB colours to the device palette.
//!
//! Nothing here performs I/O. Commands are encoded to the bytes a MIDI
//! connection has to carry, and bytes that arrived are decoded to events.

pub mod codec;
pub mod color;
pub mod discovery;
pub mod error;
pub mod events;
pub mod location;
pub mod mk2;
pub mod raw;

pub use codec::{
    SCROLL_FAST, SCROLL_FASTER, SCROLL_FASTEST, SCROLL_NORMAL, SCROLL_SLOW, SCROLL_SLOWER,
    SCROLL_SLOWEST,
};
pub use color::{nearest_palette, RGBColor, COLOR_PALETTE};
pub use error::Error;
pub use raw::{Color, ColorColumn, ColorLed, ColorRow, Model};
