use theater_billing::catalog::Catalog;
use theater_billing::numfmt::usd;
use theater_billing::pricing::{
    amount_for, create_performance_calculator, resolve, volume_credits_for, ComedyStrategy,
    PerformanceCalculator, PricingStrategy, Strategy, TragedyStrategy,
};
use theater_billing::render::{
    html_statement, render, render_html, render_plain_text, statement, RenderFormat,
};
use theater_billing::statement::{
    aggregate, create_statement_data, enrich_performance, play_for, total_amount,
    total_volume_credits, PerformanceData, StatementData,
};
use theater_billing::types::{Invoice, Performance, Play, StatementError};

fn play(name: &str, kind: &str) -> Play {
    Play { name: name.to_string(), kind: kind.to_string() }
}

fn perf(play_id: &str, audience: u32) -> Performance {
    Performance { play_id: play_id.to_string(), audience }
}

fn sample_catalog() -> Catalog {
    let mut plays = Catalog::new();
    plays.insert("hamlet".to_string(), play("Hamlet", "tragedy"));
    plays.insert("as-like".to_string(), play("As You Like It", "comedy"));
    plays.insert("othello".to_string(), play("Othello", "tragedy"));
    plays
}

fn bigco_invoice() -> Invoice {
    Invoice {
        customer: "BigCo".to_string(),
        performances: vec![perf("hamlet", 55), perf("as-like", 35), perf("othello", 40)],
    }
}

#[test]
fn statement_for_bigco_matches_reference_output() {
    let plays = sample_catalog();
    let invoice = bigco_invoice();
    let expected = "Statement for BigCo\n Hamlet: $650.00 (55 seats)\n As You Like It: $580.00 (35 seats)\n Othello: $500.00 (40 seats)\nAmount owed is $1730.00\nYou earned 47 credits\n";
    assert_eq!(statement(&invoice, &plays).unwrap(), expected);
}

#[test]
fn tragedy_price_is_flat_up_to_thirty() {
    let t = TragedyStrategy;
    assert_eq!(t.price(0), 40000);
    assert_eq!(t.price(15), 40000);
    assert_eq!(t.price(30), 40000);
}

#[test]
fn tragedy_price_grows_beyond_thirty() {
    let t = TragedyStrategy;
    assert_eq!(t.price(31), 41000);
    assert_eq!(t.price(40), 50000);
    assert_eq!(t.price(55), 65000);
}

#[test]
fn comedy_price_is_linear_up_to_twenty() {
    let c = ComedyStrategy;
    assert_eq!(c.price(0), 30000);
    assert_eq!(c.price(10), 33000);
    assert_eq!(c.price(20), 36000);
}

#[test]
fn comedy_price_adds_surcharge_beyond_twenty() {
    let c = ComedyStrategy;
    assert_eq!(c.price(21), 30000 + 10000 + 500 + 6300);
    assert_eq!(c.price(35), 58000);
}

#[test]
fn credits_follow_the_base_rule_plus_comedy_bonus() {
    let t = TragedyStrategy;
    assert_eq!(t.credits(30), 0);
    assert_eq!(t.credits(31), 1);
    assert_eq!(t.credits(55), 25);
    let c = ComedyStrategy;
    assert_eq!(c.credits(20), 4);
    assert_eq!(c.credits(35), 5 + 7);
    assert_eq!(c.credits(4), 0);
}

#[test]
fn resolve_maps_each_known_genre_to_its_strategy() {
    assert!(matches!(resolve(&"tragedy".to_string()), Ok(Strategy::Tragedy(_))));
    assert!(matches!(resolve(&"comedy".to_string()), Ok(Strategy::Comedy(_))));
}

#[test]
fn resolve_rejects_unknown_genres_by_name() {
    let err = resolve(&"opera".to_string()).unwrap_err();
    assert_eq!(err, StatementError::UnknownGenre("opera".to_string()));
}

#[test]
fn resolved_strategies_dispatch_to_the_genre_rules() {
    let t = resolve(&"tragedy".to_string()).unwrap();
    assert_eq!(t.price(55), 65000);
    assert_eq!(t.credits(55), 25);
    let c = resolve(&"comedy".to_string()).unwrap();
    assert_eq!(c.price(35), 58000);
    assert_eq!(c.credits(35), 12);
}

#[test]
fn performance_calculator_prices_its_performance() {
    let calculator =
        PerformanceCalculator { play: play("Hamlet", "tragedy"), performance: perf("hamlet", 55) };
    assert_eq!(calculator.get_amount(), 65000);
    assert_eq!(calculator.get_volume_credits(), 25);
    let calculator = PerformanceCalculator {
        play: play("As You Like It", "comedy"),
        performance: perf("as-like", 35),
    };
    assert_eq!(calculator.get_amount(), 58000);
    assert_eq!(calculator.get_volume_credits(), 12);
}

#[test]
fn the_factory_binds_a_calculator_or_rejects_the_genre() {
    let calculator =
        create_performance_calculator(&perf("hamlet", 55), play("Hamlet", "tragedy")).unwrap();
    assert_eq!(calculator.get_amount(), 65000);
    assert_eq!(calculator.get_volume_credits(), 25);
    let err = create_performance_calculator(&perf("cycle", 10), play("The Mystery Cycle", "pageant"))
        .unwrap_err();
    assert_eq!(err, StatementError::UnknownGenre("pageant".to_string()));
}

#[test]
fn amount_and_credits_can_be_computed_from_the_catalog() {
    let plays = sample_catalog();
    assert_eq!(amount_for(&perf("hamlet", 55), &plays), 65000);
    assert_eq!(volume_credits_for(&perf("hamlet", 55), &plays), 25);
    assert_eq!(amount_for(&perf("as-like", 35), &plays), 58000);
    assert_eq!(volume_credits_for(&perf("as-like", 35), &plays), 12);
}

#[test]
fn play_for_finds_the_referenced_play() {
    let plays = sample_catalog();
    let found = play_for(&perf("othello", 40), &plays).unwrap();
    assert_eq!(found.name, "Othello");
    assert_eq!(found.kind, "tragedy");
}

#[test]
fn play_for_reports_the_missing_identifier() {
    let plays = sample_catalog();
    let err = play_for(&perf("macbeth", 40), &plays).unwrap_err();
    assert_eq!(err, StatementError::PlayNotFound("macbeth".to_string()));
}

#[test]
fn enrichment_joins_play_price_and_credits() {
    let plays = sample_catalog();
    let enriched = enrich_performance(&perf("as-like", 35), &plays).unwrap();
    assert_eq!(enriched.play.name, "As You Like It");
    assert_eq!(enriched.play.kind, "comedy");
    assert_eq!(enriched.audience, 35);
    assert_eq!(enriched.amount, 58000);
    assert_eq!(enriched.total_credits, 12);
}

#[test]
fn enrichment_fails_on_a_missing_play() {
    let plays = sample_catalog();
    let err = enrich_performance(&perf("macbeth", 10), &plays).unwrap_err();
    assert_eq!(err, StatementError::PlayNotFound("macbeth".to_string()));
}

#[test]
fn enrichment_fails_on_an_unknown_genre() {
    let mut plays = sample_catalog();
    plays.insert("cycle".to_string(), play("The Mystery Cycle", "pageant"));
    let err = enrich_performance(&perf("cycle", 10), &plays).unwrap_err();
    assert_eq!(err, StatementError::UnknownGenre("pageant".to_string()));
}

#[test]
fn statement_data_totals_are_the_sums() {
    let plays = sample_catalog();
    let invoice = bigco_invoice();
    let sd = create_statement_data(&invoice, &plays).unwrap();
    assert_eq!(sd.customer, "BigCo");
    assert_eq!(sd.performances.len(), 3);
    let amount_sum: u32 = sd.performances.iter().map(|p| p.amount).sum();
    let credit_sum: u32 = sd.performances.iter().map(|p| p.total_credits).sum();
    assert_eq!(sd.total_amount, amount_sum);
    assert_eq!(sd.total_amount, 173000);
    assert_eq!(sd.total_volume_credits, credit_sum);
    assert_eq!(sd.total_volume_credits, 47);
}

#[test]
fn empty_invoice_yields_zero_totals_not_an_error() {
    let plays = sample_catalog();
    let invoice = Invoice { customer: "NoShow".to_string(), performances: vec![] };
    let sd = create_statement_data(&invoice, &plays).unwrap();
    assert_eq!(sd.performances.len(), 0);
    assert_eq!(sd.total_amount, 0);
    assert_eq!(sd.total_volume_credits, 0);
    assert_eq!(
        render_plain_text(&sd),
        "Statement for NoShow\nAmount owed is $0.00\nYou earned 0 credits\n"
    );
}

#[test]
fn computation_aborts_on_the_first_failure() {
    let plays = sample_catalog();
    let invoice = Invoice {
        customer: "BigCo".to_string(),
        performances: vec![perf("hamlet", 55), perf("macbeth", 10), perf("nothing", 5)],
    };
    let err = create_statement_data(&invoice, &plays).unwrap_err();
    assert_eq!(err, StatementError::PlayNotFound("macbeth".to_string()));
}

#[test]
fn the_two_failures_are_distinct_and_named() {
    let mut plays = sample_catalog();
    plays.insert("cycle".to_string(), play("The Mystery Cycle", "pageant"));
    let missing = Invoice {
        customer: "BigCo".to_string(),
        performances: vec![perf("macbeth", 10)],
    };
    let unknown = Invoice {
        customer: "BigCo".to_string(),
        performances: vec![perf("cycle", 10)],
    };
    let missing_err = create_statement_data(&missing, &plays).unwrap_err();
    let unknown_err = create_statement_data(&unknown, &plays).unwrap_err();
    assert_eq!(missing_err, StatementError::PlayNotFound("macbeth".to_string()));
    assert_eq!(unknown_err, StatementError::UnknownGenre("pageant".to_string()));
    assert_ne!(missing_err, unknown_err);
}

#[test]
fn aggregation_sums_a_hand_built_list() {
    let performances = vec![
        PerformanceData { play: play("Hamlet", "tragedy"), audience: 55, amount: 65000, total_credits: 25 },
        PerformanceData { play: play("Othello", "tragedy"), audience: 40, amount: 50000, total_credits: 10 },
    ];
    let sd = aggregate("BigCo".to_string(), performances);
    assert_eq!(sd.total_amount, 115000);
    assert_eq!(sd.total_volume_credits, 35);
    assert_eq!(total_amount(&sd), 115000);
    assert_eq!(total_volume_credits(&sd), 35);
}

#[test]
fn usd_formats_minor_units_with_two_decimals() {
    assert_eq!(usd(65000), "$650.00");
    assert_eq!(usd(173000), "$1730.00");
    assert_eq!(usd(0), "$0.00");
    assert_eq!(usd(5), "$0.05");
    assert_eq!(usd(150), "$1.50");
    assert_eq!(usd(99), "$0.99");
    assert_eq!(usd(4294967295), "$42949672.95");
}

#[test]
fn rendering_twice_yields_identical_output() {
    let plays = sample_catalog();
    let invoice = bigco_invoice();
    let sd = create_statement_data(&invoice, &plays).unwrap();
    assert_eq!(render_plain_text(&sd), render_plain_text(&sd));
    assert_eq!(render_html(&sd), render_html(&sd));
    assert_eq!(render(&sd, RenderFormat::PlainText), render(&sd, RenderFormat::PlainText));
}

#[test]
fn the_markup_layout_carries_the_same_numbers() {
    let plays = sample_catalog();
    let invoice = bigco_invoice();
    let expected = "<h1>Statement for BigCo</h1>\n<table>\n<tr><th>play</th><th>seats</th><th>cost</th></tr> <tr><td>Hamlet</td><td>55</td><td>$650.00</td></tr>\n <tr><td>As You Like It</td><td>35</td><td>$580.00</td></tr>\n <tr><td>Othello</td><td>40</td><td>$500.00</td></tr>\n</table>\n<p>Amount owed is <em>$1730.00</em></p>\n<p>You earned <em>47</em> credits</p>\n";
    assert_eq!(html_statement(&invoice, &plays).unwrap(), expected);
}

#[test]
fn render_dispatches_on_the_chosen_format() {
    let plays = sample_catalog();
    let invoice = bigco_invoice();
    let sd = create_statement_data(&invoice, &plays).unwrap();
    assert_eq!(render(&sd, RenderFormat::PlainText), render_plain_text(&sd));
    assert_eq!(render(&sd, RenderFormat::Html), render_html(&sd));
}

#[test]
fn statement_propagates_failures_unchanged() {
    let plays = sample_catalog();
    let invoice = Invoice {
        customer: "BigCo".to_string(),
        performances: vec![perf("macbeth", 10)],
    };
    assert_eq!(
        statement(&invoice, &plays).unwrap_err(),
        StatementError::PlayNotFound("macbeth".to_string())
    );
    assert_eq!(
        html_statement(&invoice, &plays).unwrap_err(),
        StatementError::PlayNotFound("macbeth".to_string())
    );
}

#[test]
fn catalog_lookup_finds_entries_and_reports_misses() {
    let plays = sample_catalog();
    assert_eq!(plays.get(&"hamlet".to_string()).unwrap().name, "Hamlet");
    assert_eq!(plays.get(&"othello".to_string()).unwrap().kind, "tragedy");
    assert!(plays.get(&"macbeth".to_string()).is_none());
}

#[test]
fn catalog_insert_shadows_an_earlier_entry() {
    let mut plays = sample_catalog();
    plays.insert("hamlet".to_string(), play("Hamlet, Reimagined", "comedy"));
    let found = plays.get(&"hamlet".to_string()).unwrap();
    assert_eq!(found.name, "Hamlet, Reimagined");
    assert_eq!(found.kind, "comedy");
}

#[test]
fn rendering_reads_only_the_statement_data() {
    // Two statements built from different catalogs but carrying the same
    // content render identically.
    let plays_a = sample_catalog();
    let mut plays_b = Catalog::new();
    plays_b.insert("prince".to_string(), play("Hamlet", "tragedy"));
    let invoice_a = Invoice { customer: "BigCo".to_string(), performances: vec![perf("hamlet", 55)] };
    let invoice_b = Invoice { customer: "BigCo".to_string(), performances: vec![perf("prince", 55)] };
    let sd_a = create_statement_data(&invoice_a, &plays_a).unwrap();
    let sd_b = create_statement_data(&invoice_b, &plays_b).unwrap();
    assert_eq!(render_plain_text(&sd_a), render_plain_text(&sd_b));
    assert_eq!(render_html(&sd_a), render_html(&sd_b));
}

#[test]
fn a_fresh_statement_data_can_be_rendered_directly() {
    let sd = StatementData {
        customer: "SmallCo".to_string(),
        performances: vec![PerformanceData {
            play: play("Hamlet", "tragedy"),
            audience: 10,
            amount: 40000,
            total_credits: 0,
        }],
        total_amount: 40000,
        total_volume_credits: 0,
    };
    assert_eq!(
        render_plain_text(&sd),
        "Statement for SmallCo\n Hamlet: $400.00 (10 seats)\nAmount owed is $400.00\nYou earned 0 credits\n"
    );
}
