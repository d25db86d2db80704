//! A procedural UV-debug texture generator.
//!
//! The library produces a square RGBA8 bitmap whose rows cycle through a
//! fixed eight-entry color palette: each row shows the palette rotated right
//! by one more entry than the row above it, which yields a diagonal banding
//! pattern that makes texture-coordinate mapping visually obvious.

pub mod palette;
pub mod texture;
