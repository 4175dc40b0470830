//! Basic blocks.

use vstd::prelude::*;
use crate::handle::{BlockRef, LLVMRef};

verus! {

/// A basic block of a function: a run of instructions that control enters at
/// the top and leaves through its last instruction.
#[derive(Clone, Copy, Debug, PartialEq, Eq, Structural)]
pub struct BasicBlock(pub BlockRef);

impl LLVMRef<BlockRef> for BasicBlock {
    open spec fn handle(&self) -> BlockRef {
        self.0
    }

    fn as_ref(&self) -> BlockRef {
        self.0
    }
}

} // verus!
