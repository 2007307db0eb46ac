//! The owner record shared by the encapsulation stages, and the ship
//! whose display line names its owner.

use vstd::prelude::*;
use vstd::string::StringExecFns;

verus! {

/// The record the stages share and replace: an owner's two names.
#[derive(Debug)]
pub struct Owner {
    pub first_name: String,
    pub last_name: String,
}

impl Clone for Owner {
    fn clone(&self) -> (r: Self)
        ensures
            r == *self,
    {
        Owner { first_name: self.first_name.clone(), last_name: self.last_name.clone() }
    }
}

/// Build an owner record from the two names.
pub fn new_owner(first: &str, last: &str) -> (o: Owner)
    ensures
        o.first_name@ == first@,
        o.last_name@ == last@,
{
    Owner { first_name: first.to_owned(), last_name: last.to_owned() }
}

/// A ship whose display line names its current owner.
#[derive(Debug)]
pub struct Spaceship {
    pub owner: Owner,
}

/// The display line for a ship owned by `first` `last`.
pub open spec fn spec_owned_by(first: Seq<char>, last: Seq<char>) -> Seq<char> {
    "Spaceship owned by "@ + first + " "@ + last
}

/// Format the display line for an owner given by name.
pub fn describe_names(first: &str, last: &str) -> (r: String)
    ensures
        r@ == spec_owned_by(first@, last@),
{
    let mut r = "Spaceship owned by ".to_owned();
    r.append(first);
    r.append(" ");
    r.append(last);
    proof {
        assert(r@ =~= spec_owned_by(first@, last@));
    }
    r
}

impl Spaceship {
    /// The display line for this ship.
    pub fn describe(&self) -> (r: String)
        ensures
            r@ == spec_owned_by(self.owner.first_name@, self.owner.last_name@),
    {
        describe_names(self.owner.first_name.as_str(), self.owner.last_name.as_str())
    }
}

/// Once the shared record holds Rebecca Parsons, the display line is this
/// exact sentence.
pub proof fn lemma_rebecca_parsons_line()
    ensures
        spec_owned_by("Rebecca"@, "Parsons"@) == "Spaceship owned by Rebecca Parsons"@,
{
    reveal_strlit("Spaceship owned by ");
    reveal_strlit(" ");
    reveal_strlit("Rebecca");
    reveal_strlit("Parsons");
    reveal_strlit("Spaceship owned by Rebecca Parsons");
    assert(spec_owned_by("Rebecca"@, "Parsons"@) =~= "Spaceship owned by Rebecca Parsons"@);
}

} // verus!
