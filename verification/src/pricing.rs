//! Genre-specific pricing rules.
//!
//! Each genre is a self-contained implementation of the two-operation
//! [`PricingStrategy`] capability; [`resolve`] is the registry that maps a
//! genre tag to its strategy and rejects unknown tags.  Adding a genre
//! means adding one strategy implementation and one registry entry; the
//! existing rules are never edited.
//!
//! All arithmetic is on non-negative integers in minor currency units
//! (cents); no floating point is involved.

use vstd::prelude::*;

use crate::catalog::Catalog;
use crate::types::{Performance, Play, StatementError};

verus! {

/// Price of a tragedy: a 40000 base, plus 1000 per attendee beyond 30.
pub open spec fn tragedy_amount(audience: int) -> int {
    if audience > 30 {
        40000 + 1000 * (audience - 30)
    } else {
        40000
    }
}

/// Price of a comedy: a 30000 base, 300 per attendee, and for audiences
/// beyond 20 a 10000 surcharge plus 500 per attendee beyond 20.
pub open spec fn comedy_amount(audience: int) -> int {
    if audience > 20 {
        30000 + 10000 + 500 * (audience - 20) + 300 * audience
    } else {
        30000 + 300 * audience
    }
}

/// The credit rule shared by every genre: one credit per attendee beyond 30.
pub open spec fn base_credits(audience: int) -> int {
    if audience > 30 {
        audience - 30
    } else {
        0
    }
}

/// Comedy credits: the shared base rule plus one credit per five attendees.
pub open spec fn comedy_credits(audience: int) -> int {
    base_credits(audience) + audience / 5
}

/// Whether a pricing rule is registered for this genre tag.
pub open spec fn known_genre(kind: Seq<char>) -> bool {
    kind == "tragedy"@ || kind == "comedy"@
}

/// The price for a performance of a play of genre `kind`, meaningful only
/// when `known_genre(kind)` holds.
pub open spec fn genre_amount(kind: Seq<char>, audience: int) -> int {
    if kind == "tragedy"@ {
        tragedy_amount(audience)
    } else {
        comedy_amount(audience)
    }
}

/// The loyalty credits for a performance of a play of genre `kind`,
/// meaningful only when `known_genre(kind)` holds.
pub open spec fn genre_credits(kind: Seq<char>, audience: int) -> int {
    if kind == "comedy"@ {
        comedy_credits(audience)
    } else {
        base_credits(audience)
    }
}

/// For audiences of at most 30 a tragedy costs exactly 40000; beyond 30
/// it costs 40000 plus 1000 per attendee over 30.
pub proof fn lemma_tragedy_price_rule(audience: int)
    ensures
        audience <= 30 ==> tragedy_amount(audience) == 40000,
        audience > 30 ==> tragedy_amount(audience) == 40000 + 1000 * (audience - 30),
{
}

/// For audiences of at most 20 a comedy costs 30000 plus 300 per
/// attendee; beyond 20 it costs an extra 10000 plus 500 per attendee
/// over 20.
pub proof fn lemma_comedy_price_rule(audience: int)
    ensures
        audience <= 20 ==> comedy_amount(audience) == 30000 + 300 * audience,
        audience > 20 ==> comedy_amount(audience) == 30000 + 10000 + 500 * (audience - 20) + 300
            * audience,
{
}

/// Credits are always `max(audience - 30, 0)`, plus `audience / 5`
/// (integer division) for comedies only.
pub proof fn lemma_credits_rule(kind: Seq<char>, audience: int)
    ensures
        genre_credits(kind, audience) == base_credits(audience) + (if kind == "comedy"@ {
            audience / 5
        } else {
            0
        }),
        base_credits(audience) == (if audience > 30 {
            audience - 30
        } else {
            0
        }),
{
}

/// The pricing capability implemented once per genre: the price and the
/// loyalty credits of a single performance, as functions of the audience
/// size alone.
pub trait PricingStrategy {
    /// The price this strategy assigns, as a mathematical function.
    spec fn spec_amount(&self, audience: int) -> int;

    /// The credits this strategy assigns, as a mathematical function.
    spec fn spec_credits(&self, audience: int) -> int;

    /// The price of one performance before an audience of `audience`.
    fn price(&self, audience: u32) -> (r: u32)
        requires
            self.spec_amount(audience as int) <= u32::MAX,
        ensures
            r == self.spec_amount(audience as int),
    ;

    /// The loyalty credits of one performance before an audience of `audience`.
    fn credits(&self, audience: u32) -> (r: u32)
        requires
            self.spec_credits(audience as int) <= u32::MAX,
        ensures
            r == self.spec_credits(audience as int),
    ;
}

/// The pricing rule for tragedies.
#[derive(Debug)]
pub struct TragedyStrategy;

impl PricingStrategy for TragedyStrategy {
    open spec fn spec_amount(&self, audience: int) -> int {
        tragedy_amount(audience)
    }

    open spec fn spec_credits(&self, audience: int) -> int {
        base_credits(audience)
    }

    fn price(&self, audience: u32) -> u32 {
        if audience > 30 {
            40000 + 1000 * (audience - 30)
        } else {
            40000
        }
    }

    fn credits(&self, audience: u32) -> u32 {
        if audience > 30 {
            audience - 30
        } else {
            0
        }
    }
}

/// The pricing rule for comedies.
#[derive(Debug)]
pub struct ComedyStrategy;

impl PricingStrategy for ComedyStrategy {
    open spec fn spec_amount(&self, audience: int) -> int {
        comedy_amount(audience)
    }

    open spec fn spec_credits(&self, audience: int) -> int {
        comedy_credits(audience)
    }

    fn price(&self, audience: u32) -> u32 {
        let mut result: u32 = 30000;
        if audience > 20 {
            result = result + 10000 + 500 * (audience - 20);
        }
        result + 300 * audience
    }

    fn credits(&self, audience: u32) -> u32 {
        let base = if audience > 30 {
            audience - 30
        } else {
            0
        };
        base + audience / 5
    }
}

/// The registered strategies, one variant per genre, dispatching each
/// capability call to the genre's own implementation.
#[derive(Debug)]
pub enum Strategy {
    Tragedy(TragedyStrategy),
    Comedy(ComedyStrategy),
}

impl PricingStrategy for Strategy {
    open spec fn spec_amount(&self, audience: int) -> int {
        match self {
            Strategy::Tragedy(s) => s.spec_amount(audience),
            Strategy::Comedy(s) => s.spec_amount(audience),
        }
    }

    open spec fn spec_credits(&self, audience: int) -> int {
        match self {
            Strategy::Tragedy(s) => s.spec_credits(audience),
            Strategy::Comedy(s) => s.spec_credits(audience),
        }
    }

    fn price(&self, audience: u32) -> u32 {
        match self {
            Strategy::Tragedy(s) => s.price(audience),
            Strategy::Comedy(s) => s.price(audience),
        }
    }

    fn credits(&self, audience: u32) -> u32 {
        match self {
            Strategy::Tragedy(s) => s.credits(audience),
            Strategy::Comedy(s) => s.credits(audience),
        }
    }
}

/// Map a genre tag to its registered strategy.  Fails with
/// [`StatementError::UnknownGenre`] exactly when no strategy is registered
/// for the tag; no default pricing is ever substituted.
pub fn resolve(kind: &String) -> (r: Result<Strategy, StatementError>)
    ensures
        r is Ok <==> known_genre(kind@),
        match r {
            Ok(s) => {
                &&& forall|a: int| #[trigger] s.spec_amount(a) == genre_amount(kind@, a)
                &&& forall|a: int| #[trigger] s.spec_credits(a) == genre_credits(kind@, a)
            },
            Err(e) => e matches StatementError::UnknownGenre(g) && g@ == kind@,
        },
{
    proof {
        reveal_strlit("tragedy");
        reveal_strlit("comedy");
        assert("tragedy"@.len() != "comedy"@.len());
    }
    if *kind == "tragedy".to_owned() {
        Ok(Strategy::Tragedy(TragedyStrategy))
    } else if *kind == "comedy".to_owned() {
        Ok(Strategy::Comedy(ComedyStrategy))
    } else {
        Err(StatementError::UnknownGenre(kind.clone()))
    }
}

/// Whether a raw performance can be priced: its play is in the catalog and
/// the play's genre has a registered strategy.
pub open spec fn performance_ok(plays: Catalog, perf: Performance) -> bool {
    plays.spec_lookup(perf.play_id@) matches Some(play) && known_genre(play.kind@)
}

/// The price of a raw performance, and 0 where it cannot be priced.
pub open spec fn performance_amount(plays: Catalog, perf: Performance) -> int {
    match plays.spec_lookup(perf.play_id@) {
        Some(play) => if known_genre(play.kind@) {
            genre_amount(play.kind@, perf.audience as int)
        } else {
            0
        },
        None => 0,
    }
}

/// The credits of a raw performance, and 0 where it cannot be priced.
pub open spec fn performance_credits(plays: Catalog, perf: Performance) -> int {
    match plays.spec_lookup(perf.play_id@) {
        Some(play) => if known_genre(play.kind@) {
            genre_credits(play.kind@, perf.audience as int)
        } else {
            0
        },
        None => 0,
    }
}

/// The machine limit on one performance: its price and credits fit the
/// integer width used for minor currency units.
pub open spec fn performance_fits(plays: Catalog, perf: Performance) -> bool {
    performance_amount(plays, perf) <= u32::MAX && performance_credits(plays, perf) <= u32::MAX
}

/// The price of one raw performance, looked up and priced in one step.
pub fn amount_for(perf: &Performance, plays: &Catalog) -> (r: u32)
    requires
        performance_ok(*plays, *perf),
        performance_fits(*plays, *perf),
    ensures
        r == performance_amount(*plays, *perf),
{
    let play = match plays.get(&perf.play_id) {
        Some(p) => p,
        None => {
            return vstd::pervasive::unreached();
        },
    };
    match resolve(&play.kind) {
        Ok(s) => s.price(perf.audience),
        Err(_) => vstd::pervasive::unreached(),
    }
}

/// The credits of one raw performance, looked up and priced in one step.
pub fn volume_credits_for(perf: &Performance, plays: &Catalog) -> (r: u32)
    requires
        performance_ok(*plays, *perf),
        performance_fits(*plays, *perf),
    ensures
        r == performance_credits(*plays, *perf),
{
    let play = match plays.get(&perf.play_id) {
        Some(p) => p,
        None => {
            return vstd::pervasive::unreached();
        },
    };
    match resolve(&play.kind) {
        Ok(s) => s.credits(perf.audience),
        Err(_) => vstd::pervasive::unreached(),
    }
}

/// The factory of the calculation phase: bind a calculator to one
/// performance and its play.  Fails exactly when the play's genre has no
/// registered strategy.
pub fn create_performance_calculator(perf: &Performance, play: Play) -> (r: Result<
    PerformanceCalculator,
    StatementError,
>)
    ensures
        r is Ok <==> known_genre(play.kind@),
        match r {
            Ok(c) => c.play == play && c.performance == *perf,
            Err(e) => e matches StatementError::UnknownGenre(g) && g@ == play.kind@,
        },
{
    match resolve(&play.kind) {
        Ok(_) => Ok(PerformanceCalculator { play, performance: perf.clone() }),
        Err(e) => Err(e),
    }
}

/// A calculator bound to one play and one performance, dispatching to the
/// genre's registered strategy.
#[derive(Debug)]
pub struct PerformanceCalculator {
    pub play: Play,
    pub performance: Performance,
}

impl PerformanceCalculator {
    /// The price of the bound performance.
    pub fn get_amount(&self) -> (r: u32)
        requires
            known_genre(self.play.kind@),
            genre_amount(self.play.kind@, self.performance.audience as int) <= u32::MAX,
        ensures
            r == genre_amount(self.play.kind@, self.performance.audience as int),
    {
        match resolve(&self.play.kind) {
            Ok(s) => s.price(self.performance.audience),
            Err(_) => vstd::pervasive::unreached(),
        }
    }

    /// The loyalty credits of the bound performance.
    pub fn get_volume_credits(&self) -> (r: u32)
        requires
            known_genre(self.play.kind@),
            genre_credits(self.play.kind@, self.performance.audience as int) <= u32::MAX,
        ensures
            r == genre_credits(self.play.kind@, self.performance.audience as int),
    {
        match resolve(&self.play.kind) {
            Ok(s) => s.credits(self.performance.audience),
            Err(_) => vstd::pervasive::unreached(),
        }
    }
}

} // verus!
