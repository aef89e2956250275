//! Pixel-format codec for fixed-point console GPU textures: packed texel
//! encodings are unpacked into linear RGBA8 buffers, whole or through a window
//! that starts at any byte offset of a larger blob.

pub mod decoder;
pub mod options;
pub mod textures;
pub mod view;
pub mod window;

pub use decoder::{decode, DecodeFault, DecodedImage, ImageData};
pub use options::{Appearance, Theme, ThemeChoice};
pub use textures::{Color, ImgFormat, IMG_FORMAT_LENGTH};
pub use view::{preview_dimension, scroll_position, Scroll};
pub use window::{decode_window, pad_to_length};
