//! Pixel color values of three and four components, generic over the
//! component type, with component and byte views, per-component mapping,
//! component-wise arithmetic and widening conversions.

use vstd::prelude::*;

pub mod convert;
pub mod ops;
pub mod pixel;
pub mod rgb;
pub mod rgba;

pub use pixel::{
    decimal_text, signed_decimal_text, ByteSlice, Component, ComponentBytes, ComponentMap,
};
pub use rgb::RGB;
pub use rgba::RGBA;

verus! {

/// 8-bit RGB
pub type RGB8 = RGB<u8>;

/// 16-bit RGB in machine's native endian
pub type RGB16 = RGB<u16>;

/// 8-bit RGBA, alpha is last
pub type RGBA8 = RGBA<u8>;

/// 16-bit RGBA in machine's native endian, alpha is last
pub type RGBA16 = RGBA<u16>;

} // verus!
