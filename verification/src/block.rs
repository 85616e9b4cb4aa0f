//! Facts about a block, as the host reports them.

use vstd::prelude::*;

verus! {

/// The four facts that the host reports of a block.
#[derive(Clone, Copy, Debug, PartialEq, Eq, Structural)]
pub struct BlockInfo {
    pub epoch: u64,
    pub nonce: u64,
    pub round: u64,
    pub timestamp: u64,
}

impl BlockInfo {
    /// The four facts in the order in which the program reports them:
    /// epoch, nonce, round, timestamp.
    pub open spec fn fields(self) -> Seq<u64> {
        seq![self.epoch, self.nonce, self.round, self.timestamp]
    }
}

} // verus!
