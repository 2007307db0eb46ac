//! Stage 3: the setter, too, works on its own copy of the data it is
//! given, so no caller retains a handle into the shared record; getters
//! return copies and field updates go through the provided functions.

use vstd::prelude::*;

use crate::owner::{lemma_rebecca_parsons_line, new_owner, Owner, Spaceship};

verus! {

/// The shared default owner, private to this registry.
pub struct OwnerRegistry {
    owner: Owner,
}

impl OwnerRegistry {
    /// The record the registry currently holds.
    pub closed spec fn spec_owner(&self) -> Owner {
        self.owner
    }

    /// A registry initially holding the given owner.
    pub fn init(first: &str, last: &str) -> (r: OwnerRegistry)
        ensures
            r.spec_owner().first_name@ == first@,
            r.spec_owner().last_name@ == last@,
    {
        OwnerRegistry { owner: new_owner(first, last) }
    }

    /// The getter returns a copy of the shared record.
    pub fn default_owner(&self) -> (r: Owner)
        ensures
            r == self.spec_owner(),
    {
        self.owner.clone()
    }

    /// The setter stores its own copy of the record it is handed, so the
    /// caller keeps no handle into the shared state.
    pub fn set_default_owner(&mut self, arg: Owner)
        ensures
            final(self).spec_owner() == arg,
    {
        self.owner = arg.clone();
    }

    /// Change only the first name of the shared record.
    pub fn update_default_owner_first_name(&mut self, new_first_name: String)
        ensures
            final(self).spec_owner().first_name == new_first_name,
            final(self).spec_owner().last_name == old(self).spec_owner().last_name,
    {
        self.owner.first_name = new_first_name;
    }

    /// Change only the last name of the shared record.
    pub fn update_default_owner_last_name(&mut self, new_last_name: String)
        ensures
            final(self).spec_owner().last_name == new_last_name,
            final(self).spec_owner().first_name == old(self).spec_owner().first_name,
    {
        self.owner.last_name = new_last_name;
    }

    /// Change both names of the shared record at once.
    pub fn update_default_owner_names(&mut self, first_name: String, last_name: String)
        ensures
            final(self).spec_owner().first_name == first_name,
            final(self).spec_owner().last_name == last_name,
    {
        self.owner.first_name = first_name;
        self.owner.last_name = last_name;
    }
}

/// Take a copy of the shared record, change the copy without effect,
/// update the shared record through the provided functions, replace it
/// via the setter, and read it again.
pub fn read_public_mutable_shared_state() -> (r: String)
    ensures
        r@ == "Spaceship owned by Rebecca Parsons"@,
{
    let mut registry = OwnerRegistry::init("Martin", "Fowler");
    let mut spaceship = Spaceship { owner: registry.default_owner() };
    // Changing the copy leaves the shared record alone.
    spaceship.owner.first_name = "Modified".to_owned();
    // Field updates go through the provided functions.
    registry.update_default_owner_first_name("Modified".to_owned());
    registry.update_default_owner_last_name("Content".to_owned());
    // Replace the whole record via the setter.
    registry.set_default_owner(new_owner("Rebecca", "Parsons"));
    // Re-read via the getter.
    spaceship.owner = registry.default_owner();
    let r = spaceship.describe();
    proof {
        lemma_rebecca_parsons_line();
    }
    r
}

} // verus!
