//! The small integer-valued corner of the render-backend interface.
//!
//! The backend abstraction itself (geometry, gradients, transforms, window
//! surfaces) computes over floating point and lives with the embedding
//! application as a consumer of the document tree; only the parts whose
//! surface is plain values stand here.

use vstd::prelude::*;

verus! {

/// The style of one border edge, as CSS names them.
#[derive(Clone, Copy, Debug, PartialEq, Eq, Structural)]
pub enum BorderStyle {
    Solid,
    Dashed,
    Dotted,
    Double,
    Groove,
    Ridge,
    Inset,
    Outset,
    NoneStyle,
    Hidden,
}

/// A backend's colour type: built from 8-bit channels.
pub trait Color: Sized {
    /// An opaque colour from three channels.
    fn new(r: u8, g: u8, b: u8) -> Self {
        Self::with_alpha(r, g, b, 255)
    }

    /// A colour from three channels and an alpha channel.
    fn with_alpha(r: u8, g: u8, b: u8, a: u8) -> Self;

    /// An opaque colour from three channels.
    fn rgb(r: u8, g: u8, b: u8) -> Self {
        Self::new(r, g, b)
    }

    /// A colour from three channels and an alpha channel.
    fn rgba(r: u8, g: u8, b: u8, a: u8) -> Self {
        Self::with_alpha(r, g, b, a)
    }
}

} // verus!
