//! Per-channel gamma-correction lookup tables for RGB colors.
pub mod color;
pub mod lut;

pub use color::{Rgb, RgbFormat};
pub use lut::{GammaLut, Identity, Init, Lut, LutState, LutView, Uninit};
