//! The colors a cell of the frame can show, and the plain red-green-blue
//! triple a primitive carries as its albedo. The display glue outside the
//! library translates these into the terminal's own color directives.

use vstd::prelude::*;

verus! {

/// A terminal color: the terminal's default, its red, or a true-color value.
#[derive(Clone, Copy, Debug, PartialEq, Eq, Structural)]
pub enum Color {
    Reset,
    Red,
    Rgb { r: u8, g: u8, b: u8 },
}

/// An albedo: one byte per channel.
#[derive(Clone, Copy, Debug, PartialEq, Eq, Structural)]
pub struct Rgb {
    pub r: u8,
    pub g: u8,
    pub b: u8,
}

} // verus!
