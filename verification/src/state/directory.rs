//! The list of active boosts.
use vstd::prelude::*;

use crate::pubkey::Pubkey;

verus! {

/// The number of slots in a boost list.
pub const MAX_BOOSTS: u64 = 256;

/// Directory holds the list of active boosts.
#[derive(Clone, Copy)]
pub struct Directory {
    /// The list of all boosts.
    pub boosts: [Pubkey; 256],
    /// The number of boosts currently active.
    pub len: u64,
}

impl Directory {
    /// The active boosts.
    pub open spec fn listed(self) -> Seq<Pubkey> {
        self.boosts@.take(self.len as int)
    }

    /// The length is within the slots, and the slots past it hold the zero address.
    pub open spec fn wf(self) -> bool {
        &&& self.len <= MAX_BOOSTS
        &&& forall|i: int| self.len <= i < 256 ==> (#[trigger] self.boosts@[i]).is_zero()
    }
}

} // verus!
