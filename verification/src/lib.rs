//! Pixel-buffer preparation and dispatch for an AVIF encoder.
//!
//! Given a raw byte buffer claimed to hold an image in one of several color
//! layouts, this library validates it, produces a four-channel 8-bit pixel
//! view (zero-copy when the layout already matches the encoder's native one,
//! converting into a caller-supplied scratch buffer otherwise), and hands it
//! to the bitstream encoder.

pub mod color;
pub mod config;
pub mod convert;
pub mod encode;
pub mod error;
pub mod prepare;
pub mod reinterpret;

pub use color::ColorSpace;
pub use color::ColorType;
pub use config::EncoderConfig;
pub use encode::encode;
pub use error::Error;
pub use prepare::PixelSource;
pub use prepare::RawImage;
pub use prepare::prepare;
