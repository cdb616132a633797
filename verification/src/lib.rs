//! Robot36 slow-scan television encoding: a 320x240 colour raster becomes the
//! ordered sequence of tone frequencies that, fed sample by sample to a
//! phase-continuous oscillator, forms the transmitted audio.

pub mod encoder;
pub mod frequency;
pub mod image;
pub mod rgb2yuv;
pub mod timing;
pub mod transmission;

pub use crate::encoder::{Encoder, Signal};
pub use crate::frequency::Frequency;
pub use crate::image::{DecodedImage, ImageCreationError, Robot36Image, B, G, R, U, V, Y};
