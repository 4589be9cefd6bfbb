//! What a frame is made of, as data for the program that draws it.

use vstd::prelude::*;
use crate::entity::Visual;
use crate::vector::Vec2;

verus! {

/// An opaque colour, eight bits to the channel.
#[derive(Clone, Copy, Debug, PartialEq, Eq, Structural)]
pub struct Color {
    pub r: u8,
    pub g: u8,
    pub b: u8,
}

/// One step of drawing a frame.
#[derive(Clone, Copy, Debug, PartialEq, Eq, Structural)]
pub enum DrawCommand {
    /// Fill the whole frame with one colour.
    Clear(Color),
    /// Put an image with its top-left corner at `position`.
    Sprite { visual: Visual, position: Vec2 },
}

} // verus!
