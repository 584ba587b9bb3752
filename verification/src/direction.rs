use vstd::prelude::*;

verus! {

/// The side of a flow that a piece of data travels towards.
#[derive(Clone, Copy, Debug, PartialEq, Eq, Structural)]
pub enum Direction {
    ToServer,
    ToClient,
}

} // verus!
