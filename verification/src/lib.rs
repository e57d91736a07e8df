//! Terminal rendering of TOTP setup QR codes.
//!
//! The heart of the crate is the rasterizer: it turns a grayscale QR
//! image into lines of block glyphs fit for a text terminal, with an
//! optional inverted color mode and an optional half-height mini mode.
//! Secret generation, TOTP code arithmetic and QR/PNG encoding are
//! delegated to outside crates behind small trusted wrappers.

pub mod glyphs;
pub mod outside;
pub mod raster;
pub mod render;
pub mod totp;

pub use glyphs::Symbol;
pub use raster::GrayscaleImage;
pub use render::{QRColorMode, TerminalQRSize};
pub use totp::{EasyTotp, EasyTotpError};
