//! The always-win placeholder microgame: no state, no visuals, and its win
//! condition already holds when it starts.

use vstd::prelude::*;
use crate::game::{DrawCmd, FrameInput};

verus! {

/// The placeholder has no state of its own.
#[derive(Clone, PartialEq, Eq, Structural, Debug)]
pub struct Data {}

impl Default for Data {
    fn default() -> (d: Data)
        ensures
            d == (Data {}),
    {
        Data {}
    }
}

/// Its win condition holds unconditionally.
pub open spec fn won(d: Data) -> bool {
    true
}

pub fn update(data: &mut Data, input: FrameInput, delta: u32) -> (w: bool)
    ensures
        *final(data) == *old(data),
        w == won(*final(data)),
{
    true
}

/// Draws nothing; the transition doors around it carry the visuals.
pub fn draw(data: &Data) -> (cmds: Vec<DrawCmd>)
    ensures
        cmds@ == Seq::<DrawCmd>::empty(),
{
    Vec::new()
}

} // verus!
