use vstd::prelude::*;

verus! {

/// Sprites are either 8x8 or 8x16 pixels.
#[derive(PartialEq, Eq, Clone, Copy, Debug, Structural)]
pub enum SpriteHeight {
    Normal,
    Tall,
}

} // verus!
