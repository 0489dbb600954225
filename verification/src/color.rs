//! RGBA colors with 8-bit channels.
//!
//! The render host works in floating-point channel intensities; the core
//! stores each channel as a byte (255 = full intensity) so that color values
//! stay on the integer grid the verifier works with.

use vstd::prelude::*;

verus! {

/// An RGBA color; each channel runs from 0 (none) to 255 (full).
#[derive(Clone, Copy, Debug, PartialEq, Eq, Structural)]
pub struct Color {
    pub red: u8,
    pub green: u8,
    pub blue: u8,
    pub alpha: u8,
}

impl Color {
    /// Opaque white, the color of walls, paddles and the ball.
    pub fn white() -> (c: Color)
        ensures
            c == (Color { red: 255, green: 255, blue: 255, alpha: 255 }),
    {
        Color { red: 255, green: 255, blue: 255, alpha: 255 }
    }

    /// Opaque black, the background of the field and of menu entries.
    pub fn black() -> (c: Color)
        ensures
            c == (Color { red: 0, green: 0, blue: 0, alpha: 255 }),
    {
        Color { red: 0, green: 0, blue: 0, alpha: 255 }
    }
}

} // verus!
