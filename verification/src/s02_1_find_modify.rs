//! Stage 2, first step: hand clients a read-only wrapper, so any attempt
//! to modify the shared record through a read is caught at compile time;
//! the one appropriate modification function is the setter.

use vstd::prelude::*;

use crate::owner::{describe_names, lemma_rebecca_parsons_line, new_owner, Owner};

verus! {

/// A read-only view of an owner record: accessors only, no way to touch
/// the record it was copied from.
pub struct ImmutableOwner {
    inner: Owner,
}

impl ImmutableOwner {
    /// The record this view was taken of.
    pub closed spec fn spec_inner(&self) -> Owner {
        self.inner
    }

    /// Wrap an owner record read-only.
    pub fn new(owner: Owner) -> (r: ImmutableOwner)
        ensures
            r.spec_inner() == owner,
    {
        ImmutableOwner { inner: owner }
    }

    /// Read-only access to the first name.
    pub fn first_name(&self) -> (r: &str)
        ensures
            r@ == self.spec_inner().first_name@,
    {
        self.inner.first_name.as_str()
    }

    /// Read-only access to the last name.
    pub fn last_name(&self) -> (r: &str)
        ensures
            r@ == self.spec_inner().last_name@,
    {
        self.inner.last_name.as_str()
    }
}

/// The shared default owner, private to this registry.
pub struct OwnerRegistry {
    owner: Owner,
}

impl OwnerRegistry {
    /// The record the registry currently holds.
    pub closed spec fn spec_owner(&self) -> Owner {
        self.owner
    }

    /// A registry initially holding the given owner.
    pub fn init(first: &str, last: &str) -> (r: OwnerRegistry)
        ensures
            r.spec_owner().first_name@ == first@,
            r.spec_owner().last_name@ == last@,
    {
        OwnerRegistry { owner: new_owner(first, last) }
    }

    /// The getter returns a read-only wrapper: clients cannot reach the
    /// shared record through it.
    pub fn default_owner(&self) -> (r: ImmutableOwner)
        ensures
            r.spec_inner() == self.spec_owner(),
    {
        ImmutableOwner::new(self.owner.clone())
    }

    /// The appropriate modification function: only the setter replaces
    /// the shared record.
    pub fn set_default_owner(&mut self, arg: Owner)
        ensures
            final(self).spec_owner() == arg,
    {
        self.owner = arg;
    }
}

/// Read the shared record through the read-only wrapper, replace it via
/// the setter, and read it again.
pub fn read_public_mutable_shared_state() -> (r: String)
    ensures
        r@ == "Spaceship owned by Rebecca Parsons"@,
{
    let mut registry = OwnerRegistry::init("Martin", "Fowler");
    // The wrapper offers no way to modify the shared record.
    let _initial = registry.default_owner();
    // Replace the shared record via the setter.
    registry.set_default_owner(new_owner("Rebecca", "Parsons"));
    // Re-read to get an updated read-only wrapper.
    let after = registry.default_owner();
    let r = describe_names(after.first_name(), after.last_name());
    proof {
        lemma_rebecca_parsons_line();
    }
    r
}

} // verus!
