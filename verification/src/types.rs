//! The raw data model: plays, performances, invoices, and the errors a
//! statement computation can report.

use vstd::prelude::*;

verus! {

/// Play metadata: a display name and an open-ended genre tag.
///
/// The genre tag is not a fixed enumeration; new genres may appear without
/// this type changing.  A play whose tag matches no registered pricing
/// rule is rejected with [`StatementError::UnknownGenre`] when a statement
/// is computed.
#[derive(Debug)]
pub struct Play {
    pub name: String,
    pub kind: String,
}

impl Clone for Play {
    fn clone(&self) -> (r: Self)
        ensures
            r == *self,
    {
        Play { name: self.name.clone(), kind: self.kind.clone() }
    }
}

/// One raw performance on an invoice: a reference into the catalog and the
/// audience size.
#[derive(Debug)]
pub struct Performance {
    pub play_id: String,
    pub audience: u32,
}

impl Clone for Performance {
    fn clone(&self) -> (r: Self)
        ensures
            r == *self,
    {
        Performance { play_id: self.play_id.clone(), audience: self.audience }
    }
}

/// An invoice: a customer name and an ordered sequence of performances.
#[derive(Debug)]
pub struct Invoice {
    pub customer: String,
    pub performances: Vec<Performance>,
}

/// Why a statement could not be computed.  Both conditions are caused by
/// bad input data, abort the whole invoice, and are never silently patched
/// over with default pricing.
#[derive(Debug, PartialEq, Eq)]
pub enum StatementError {
    /// A performance referenced a play identifier absent from the catalog.
    PlayNotFound(String),
    /// No pricing rule is registered for the play's genre tag.
    UnknownGenre(String),
}

} // verus!
