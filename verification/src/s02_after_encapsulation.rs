//! Stage 2, result: the shared record is private to a registry; the
//! getter returns a copy and all mutations are centralized in the setter.

use vstd::prelude::*;

use crate::owner::{lemma_rebecca_parsons_line, new_owner, Owner, Spaceship};

verus! {

/// The shared default owner, private to this registry.  External code
/// must go through the accessors.
pub struct OwnerRegistry {
    owner: Owner,
}

impl OwnerRegistry {
    /// The record the registry currently holds.
    pub closed spec fn spec_owner(&self) -> Owner {
        self.owner
    }

    /// A registry initially holding the given owner.
    pub fn init(first: &str, last: &str) -> (r: OwnerRegistry)
        ensures
            r.spec_owner().first_name@ == first@,
            r.spec_owner().last_name@ == last@,
    {
        OwnerRegistry { owner: new_owner(first, last) }
    }

    /// Read access: a copy, so internal mutability is never exposed.
    pub fn get_default_owner(&self) -> (r: Owner)
        ensures
            r == self.spec_owner(),
    {
        self.owner.clone()
    }

    /// Write access: all mutations are centralized here.
    pub fn set_default_owner(&mut self, new_owner: Owner)
        ensures
            final(self).spec_owner() == new_owner,
    {
        self.owner = new_owner;
    }
}

/// Read the shared record through the getter, replace it through the
/// setter, and read it again.
pub fn read_public_mutable_shared_state() -> (r: String)
    ensures
        r@ == "Spaceship owned by Rebecca Parsons"@,
{
    let mut registry = OwnerRegistry::init("Martin", "Fowler");
    let mut spaceship = Spaceship { owner: registry.get_default_owner() };
    // Update the shared record via the setter.
    registry.set_default_owner(new_owner("Rebecca", "Parsons"));
    // Re-read via the getter.
    spaceship.owner = registry.get_default_owner();
    let r = spaceship.describe();
    proof {
        lemma_rebecca_parsons_line();
    }
    r
}

} // verus!
