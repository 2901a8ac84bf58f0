//! The colour of one LED.

use vstd::prelude::*;

verus! {

/// One LED's colour: three channels of eight bits each.
#[derive(Clone, Copy, Debug, PartialEq, Eq, Structural)]
pub struct Color {
    /// Red.
    pub r: u8,
    /// Green.
    pub g: u8,
    /// Blue.
    pub b: u8,
}

} // verus!
