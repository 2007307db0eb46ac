//! The calculation phase: enrich each raw performance with its play and
//! its computed price and credits, then aggregate invoice-level totals
//! into a [`StatementData`] that the rendering phase consumes.

use vstd::prelude::*;

use crate::catalog::Catalog;
use crate::pricing::{
    genre_amount, genre_credits, known_genre, performance_amount, performance_credits,
    performance_fits, performance_ok, resolve, PricingStrategy,
};
use crate::types::{Invoice, Performance, Play, StatementError};

verus! {

/// One performance joined with its play and its computed price and
/// credits.  Created once by [`enrich_performance`] and never mutated.
#[derive(Debug)]
pub struct PerformanceData {
    pub play: Play,
    pub audience: u32,
    pub amount: u32,
    pub total_credits: u32,
}

/// Everything the rendering phase needs: the customer, the enriched
/// performances in invoice order, and the invoice-level totals.  By
/// construction the totals always equal the sums over the performance
/// list; see [`statement_data_consistent`].
#[derive(Debug)]
pub struct StatementData {
    pub customer: String,
    pub performances: Vec<PerformanceData>,
    pub total_amount: u32,
    pub total_volume_credits: u32,
}

/// Sum of the performance prices, front to back.
pub open spec fn sum_amounts(s: Seq<PerformanceData>) -> int
    decreases s.len(),
{
    if s.len() == 0 {
        0
    } else {
        s[0].amount + sum_amounts(s.drop_first())
    }
}

/// Sum of the performance credits, front to back.
pub open spec fn sum_credits(s: Seq<PerformanceData>) -> int
    decreases s.len(),
{
    if s.len() == 0 {
        0
    } else {
        s[0].total_credits + sum_credits(s.drop_first())
    }
}

/// The invariant that [`StatementData`] carries by construction: each
/// total equals the sum over the performance list, for an empty list as
/// for any other.
pub open spec fn statement_data_consistent(sd: StatementData) -> bool {
    sd.total_amount == sum_amounts(sd.performances@) && sd.total_volume_credits == sum_credits(
        sd.performances@,
    )
}

proof fn lemma_sum_amounts_nonneg(s: Seq<PerformanceData>)
    ensures
        sum_amounts(s) >= 0,
    decreases s.len(),
{
    if s.len() > 0 {
        lemma_sum_amounts_nonneg(s.drop_first());
    }
}

proof fn lemma_sum_credits_nonneg(s: Seq<PerformanceData>)
    ensures
        sum_credits(s) >= 0,
    decreases s.len(),
{
    if s.len() > 0 {
        lemma_sum_credits_nonneg(s.drop_first());
    }
}

/// How an enriched record relates to the raw performance it came from:
/// the resolved play, the same audience, and the genre rule's price and
/// credits.
pub open spec fn enriched_matches(plays: Catalog, perf: Performance, pd: PerformanceData) -> bool {
    plays.spec_lookup(perf.play_id@) matches Some(play) && known_genre(play.kind@) && pd.play
        == play && pd.audience == perf.audience && pd.amount == genre_amount(
        play.kind@,
        perf.audience as int,
    ) && pd.total_credits == genre_credits(play.kind@, perf.audience as int)
}

/// Which failure a raw performance produces: `PlayNotFound` carrying the
/// missing identifier exactly when the catalog lookup misses, and
/// `UnknownGenre` carrying the unregistered tag exactly when the play is
/// found but no strategy matches its genre.
pub open spec fn error_matches(plays: Catalog, perf: Performance, e: StatementError) -> bool {
    match e {
        StatementError::PlayNotFound(id) => plays.spec_lookup(perf.play_id@) is None && id@
            == perf.play_id@,
        StatementError::UnknownGenre(g) => plays.spec_lookup(perf.play_id@) matches Some(play)
            && !known_genre(play.kind@) && g@ == play.kind@,
    }
}

/// Look a performance's play up in the catalog, reporting
/// [`StatementError::PlayNotFound`] exactly when the identifier is absent.
pub fn play_for(perf: &Performance, plays: &Catalog) -> (r: Result<Play, StatementError>)
    ensures
        r is Ok <==> plays.spec_lookup(perf.play_id@) is Some,
        match r {
            Ok(play) => plays.spec_lookup(perf.play_id@) == Some(play),
            Err(e) => e matches StatementError::PlayNotFound(id) && id@ == perf.play_id@,
        },
{
    match plays.get(&perf.play_id) {
        Some(play) => Ok(play.clone()),
        None => Err(StatementError::PlayNotFound(perf.play_id.clone())),
    }
}

/// Join one raw performance with its play and its computed price and
/// credits.  Succeeds exactly when the play exists and its genre has a
/// registered strategy; neither input is mutated.
pub fn enrich_performance(perf: &Performance, plays: &Catalog) -> (r: Result<
    PerformanceData,
    StatementError,
>)
    requires
        performance_fits(*plays, *perf),
    ensures
        r is Ok <==> performance_ok(*plays, *perf),
        match r {
            Ok(pd) => enriched_matches(*plays, *perf, pd),
            Err(e) => error_matches(*plays, *perf, e),
        },
{
    let play = match play_for(perf, plays) {
        Ok(play) => play,
        Err(e) => {
            return Err(e);
        },
    };
    let strategy = match resolve(&play.kind) {
        Ok(s) => s,
        Err(e) => {
            return Err(e);
        },
    };
    let amount = strategy.price(perf.audience);
    let total_credits = strategy.credits(perf.audience);
    Ok(PerformanceData { play, audience: perf.audience, amount, total_credits })
}

/// Whether every performance of the sequence can be priced.
pub open spec fn all_ok(plays: Catalog, perfs: Seq<Performance>) -> bool {
    forall|i: int| 0 <= i < perfs.len() ==> performance_ok(plays, #[trigger] perfs[i])
}

/// The machine limit on each single performance of the sequence.
pub open spec fn all_fit(plays: Catalog, perfs: Seq<Performance>) -> bool {
    forall|i: int| 0 <= i < perfs.len() ==> performance_fits(plays, #[trigger] perfs[i])
}

/// Sum of the prices of the raw performances, front to back.
pub open spec fn spec_total_amount(plays: Catalog, perfs: Seq<Performance>) -> int
    decreases perfs.len(),
{
    if perfs.len() == 0 {
        0
    } else {
        performance_amount(plays, perfs[0]) + spec_total_amount(plays, perfs.drop_first())
    }
}

/// Sum of the credits of the raw performances, front to back.
pub open spec fn spec_total_credits(plays: Catalog, perfs: Seq<Performance>) -> int
    decreases perfs.len(),
{
    if perfs.len() == 0 {
        0
    } else {
        performance_credits(plays, perfs[0]) + spec_total_credits(plays, perfs.drop_first())
    }
}

/// The machine limit on a whole invoice: both totals fit the integer
/// width used for minor currency units.
pub open spec fn totals_fit(plays: Catalog, perfs: Seq<Performance>) -> bool {
    spec_total_amount(plays, perfs) <= u32::MAX && spec_total_credits(plays, perfs) <= u32::MAX
}

/// `i` is the first performance of the sequence that cannot be priced.
pub open spec fn first_failure(plays: Catalog, perfs: Seq<Performance>, i: int) -> bool {
    0 <= i < perfs.len() && !performance_ok(plays, perfs[i]) && forall|j: int|
        0 <= j < i ==> performance_ok(plays, #[trigger] perfs[j])
}

/// How a computed statement relates to the invoice and catalog it came
/// from: same customer, one enriched record per performance in order, and
/// totals that equal the sums over the list.
pub open spec fn statement_data_matches(
    plays: Catalog,
    invoice: Invoice,
    sd: StatementData,
) -> bool {
    sd.customer@ == invoice.customer@ && sd.performances@.len() == invoice.performances@.len()
        && (forall|i: int|
        0 <= i < invoice.performances@.len() ==> enriched_matches(
            plays,
            invoice.performances@[i],
            #[trigger] sd.performances@[i],
        )) && statement_data_consistent(sd)
}

/// If each enriched record carries the price and credits of its raw
/// performance, the sums over the two sequences agree.
proof fn lemma_sums_correspond(plays: Catalog, perfs: Seq<Performance>, pds: Seq<PerformanceData>)
    requires
        pds.len() == perfs.len(),
        forall|i: int|
            0 <= i < perfs.len() ==> enriched_matches(plays, perfs[i], #[trigger] pds[i]),
    ensures
        sum_amounts(pds) == spec_total_amount(plays, perfs),
        sum_credits(pds) == spec_total_credits(plays, perfs),
    decreases perfs.len(),
{
    if perfs.len() > 0 {
        assert(enriched_matches(plays, perfs[0], pds[0]));
        assert(forall|i: int|
            0 <= i < perfs.drop_first().len() ==> enriched_matches(
                plays,
                perfs.drop_first()[i],
                #[trigger] pds.drop_first()[i],
            ));
        lemma_sums_correspond(plays, perfs.drop_first(), pds.drop_first());
    }
}

/// Sum the prices of an enriched performance list.
#[verifier::loop_isolation(false)]
pub fn total_amount(statement_data: &StatementData) -> (r: u32)
    requires
        sum_amounts(statement_data.performances@) <= u32::MAX,
    ensures
        r == sum_amounts(statement_data.performances@),
{
    let ghost s = statement_data.performances@;
    let n = statement_data.performances.len();
    let mut result: u32 = 0;
    let mut i: usize = 0;
    proof {
        assert(s.skip(0) =~= s);
    }
    while i < n
        invariant
            i <= n,
            sum_amounts(s) == result + sum_amounts(s.skip(i as int)),
        decreases n - i,
    {
        proof {
            assert(s.skip(i as int)[0] == s[i as int]);
            assert(s.skip(i as int).drop_first() =~= s.skip(i + 1));
            lemma_sum_amounts_nonneg(s.skip(i + 1));
        }
        result = result + statement_data.performances[i].amount;
        i = i + 1;
    }
    result
}

/// Sum the credits of an enriched performance list.
#[verifier::loop_isolation(false)]
pub fn total_volume_credits(statement_data: &StatementData) -> (r: u32)
    requires
        sum_credits(statement_data.performances@) <= u32::MAX,
    ensures
        r == sum_credits(statement_data.performances@),
{
    let ghost s = statement_data.performances@;
    let n = statement_data.performances.len();
    let mut result: u32 = 0;
    let mut i: usize = 0;
    proof {
        assert(s.skip(0) =~= s);
    }
    while i < n
        invariant
            i <= n,
            sum_credits(s) == result + sum_credits(s.skip(i as int)),
        decreases n - i,
    {
        proof {
            assert(s.skip(i as int)[0] == s[i as int]);
            assert(s.skip(i as int).drop_first() =~= s.skip(i + 1));
            lemma_sum_credits_nonneg(s.skip(i + 1));
        }
        result = result + statement_data.performances[i].total_credits;
        i = i + 1;
    }
    result
}

/// Reduce an enriched performance list to a [`StatementData`] whose
/// totals are the sums over the list; an empty list yields zero totals.
pub fn aggregate(customer: String, performances: Vec<PerformanceData>) -> (sd: StatementData)
    requires
        sum_amounts(performances@) <= u32::MAX,
        sum_credits(performances@) <= u32::MAX,
    ensures
        sd.customer == customer,
        sd.performances@ == performances@,
        statement_data_consistent(sd),
{
    let mut sd = StatementData { customer, performances, total_amount: 0, total_volume_credits: 0 };
    sd.total_amount = total_amount(&sd);
    sd.total_volume_credits = total_volume_credits(&sd);
    sd
}

/// Compute the whole statement for one invoice: enrich every performance
/// in order and aggregate the totals.  Fails with the first performance's
/// failure and produces no partial statement; the invoice and catalog are
/// only read.
#[verifier::loop_isolation(false)]
pub fn create_statement_data(invoice: &Invoice, plays: &Catalog) -> (r: Result<
    StatementData,
    StatementError,
>)
    requires
        all_fit(*plays, invoice.performances@),
        totals_fit(*plays, invoice.performances@),
    ensures
        r is Ok <==> all_ok(*plays, invoice.performances@),
        match r {
            Ok(sd) => statement_data_matches(*plays, *invoice, sd),
            Err(e) => exists|i: int|
                #[trigger] first_failure(*plays, invoice.performances@, i) && error_matches(
                    *plays,
                    invoice.performances@[i],
                    e,
                ),
        },
{
    let ghost perfs = invoice.performances@;
    let n = invoice.performances.len();
    let mut enriched: Vec<PerformanceData> = Vec::new();
    let mut i: usize = 0;
    while i < n
        invariant
            i <= n,
            enriched@.len() == i,
            forall|j: int| 0 <= j < i ==> performance_ok(*plays, #[trigger] perfs[j]),
            forall|j: int|
                0 <= j < i ==> enriched_matches(*plays, perfs[j], #[trigger] enriched@[j]),
        decreases n - i,
    {
        match enrich_performance(&invoice.performances[i], plays) {
            Ok(pd) => {
                enriched.push(pd);
            },
            Err(e) => {
                proof {
                    assert(forall|j: int|
                        0 <= j < i ==> performance_ok(*plays, #[trigger] perfs[j]));
                    assert(first_failure(*plays, perfs, i as int));
                }
                return Err(e);
            },
        }
        i = i + 1;
    }
    proof {
        lemma_sums_correspond(*plays, perfs, enriched@);
    }
    Ok(aggregate(invoice.customer.clone(), enriched))
}

} // verus!
