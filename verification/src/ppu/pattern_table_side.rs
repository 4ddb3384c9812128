use vstd::prelude::*;

verus! {

/// Which of the two pattern tables (at 0x0000 or at 0x1000).
#[derive(PartialEq, Eq, Clone, Copy, Debug, Structural)]
pub enum PatternTableSide {
    Left,
    Right,
}

} // verus!
