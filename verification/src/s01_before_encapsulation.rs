//! Stage 1, starting point: the shared default-owner record is still a
//! bare mutable value, read and replaced from anywhere, with no single
//! place to enforce an invariant.

use vstd::prelude::*;

use crate::owner::{lemma_rebecca_parsons_line, new_owner, Spaceship};

verus! {

/// Read the shared record, replace it directly, and read it again.
pub fn read_public_mutable_shared_state() -> (r: String)
    ensures
        r@ == "Spaceship owned by Rebecca Parsons"@,
{
    // The shared state, freely assigned by every caller.
    let mut default_owner = new_owner("Martin", "Fowler");
    let mut spaceship = Spaceship { owner: default_owner.clone() };
    // Replace the shared record directly.
    default_owner = new_owner("Rebecca", "Parsons");
    // Read again after the replacement.
    spaceship.owner = default_owner.clone();
    let r = spaceship.describe();
    proof {
        lemma_rebecca_parsons_line();
    }
    r
}

} // verus!
