//! Stage 0: the shared default-owner record is handed around as a bare
//! mutable value.  Any code can read it or replace it directly; nothing
//! funnels the accesses through one place.

use vstd::prelude::*;

use crate::owner::{lemma_rebecca_parsons_line, new_owner, Spaceship};

verus! {

/// Read the shared record, replace it directly, and read it again: the
/// ship ends up naming the replacement owner.
pub fn read_public_mutable_shared_state() -> (r: String)
    ensures
        r@ == "Spaceship owned by Rebecca Parsons"@,
{
    // The shared state, directly exposed to every caller.
    let mut default_owner = new_owner("Martin", "Fowler");
    let mut spaceship = Spaceship { owner: default_owner.clone() };
    // Any code can replace the shared record from anywhere.
    default_owner = new_owner("Rebecca", "Parsons");
    // Read again after the replacement: the shared state has changed.
    spaceship.owner = default_owner.clone();
    let r = spaceship.describe();
    proof {
        lemma_rebecca_parsons_line();
    }
    r
}

} // verus!
