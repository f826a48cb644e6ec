//! One remembered transition of the robot, kept for training the predictor.

use vstd::prelude::*;

verus! {

/// The state before an action, the actions taken, and the state that
/// followed. Each word is the bit pattern of a 32-bit float.
pub struct MemoryItem {
    pub prev_state: Vec<u32>,
    pub prev_actions: Vec<u32>,
    pub new_state: Vec<u32>,
}

impl View for MemoryItem {
    type V = (Seq<u32>, Seq<u32>, Seq<u32>);

    open spec fn view(&self) -> (Seq<u32>, Seq<u32>, Seq<u32>) {
        (self.prev_state@, self.prev_actions@, self.new_state@)
    }
}

} // verus!
