//! The rendering phase: pure formatting of a [`StatementData`].
//!
//! Renderers never recompute prices or credits and never touch the
//! catalog; the output is a function of the statement data alone, so two
//! renderings of the same data are always identical
//! ([`lemma_render_depends_on_content_only`]).  A plain-text layout and a
//! tabular markup layout consume the identical data and can never diverge
//! in numeric content.

use vstd::prelude::*;
use vstd::string::StringExecFns;

use crate::catalog::Catalog;
use crate::numfmt::{spec_dec, spec_usd, u32_to_dec, usd};
use crate::statement::{
    all_fit, all_ok, create_statement_data, error_matches, first_failure, statement_data_matches,
    totals_fit, PerformanceData, StatementData,
};
use crate::types::{Invoice, StatementError};

verus! {

/// The plain-text line for one performance.
pub open spec fn spec_perf_line(pd: PerformanceData) -> Seq<char> {
    " "@ + pd.play.name@ + ": "@ + spec_usd(pd.amount as int) + " ("@ + spec_dec(pd.audience as int)
        + " seats)\n"@
}

/// The plain-text lines for a performance list, in order.
pub open spec fn spec_perf_lines(s: Seq<PerformanceData>) -> Seq<char>
    decreases s.len(),
{
    if s.len() == 0 {
        Seq::empty()
    } else {
        spec_perf_line(s[0]) + spec_perf_lines(s.drop_first())
    }
}

/// The whole plain-text statement: a header naming the customer, one line
/// per performance, a total-owed line and a total-credits line.
pub open spec fn spec_plain_text(sd: StatementData) -> Seq<char> {
    "Statement for "@ + sd.customer@ + "\n"@ + spec_perf_lines(sd.performances@)
        + "Amount owed is "@ + spec_usd(sd.total_amount as int) + "\n"@ + "You earned "@
        + spec_dec(sd.total_volume_credits as int) + " credits\n"@
}

/// The markup table row for one performance.
pub open spec fn spec_html_row(pd: PerformanceData) -> Seq<char> {
    " <tr><td>"@ + pd.play.name@ + "</td><td>"@ + spec_dec(pd.audience as int) + "</td><td>"@
        + spec_usd(pd.amount as int) + "</td></tr>\n"@
}

/// The markup table rows for a performance list, in order.
pub open spec fn spec_html_rows(s: Seq<PerformanceData>) -> Seq<char>
    decreases s.len(),
{
    if s.len() == 0 {
        Seq::empty()
    } else {
        spec_html_row(s[0]) + spec_html_rows(s.drop_first())
    }
}

/// The whole markup statement: the same numeric content as the plain-text
/// layout, in a table.
pub open spec fn spec_html(sd: StatementData) -> Seq<char> {
    "<h1>Statement for "@ + sd.customer@ + "</h1>\n"@ + "<table>\n"@
        + "<tr><th>play</th><th>seats</th><th>cost</th></tr>"@ + spec_html_rows(sd.performances@)
        + "</table>\n"@ + "<p>Amount owed is <em>"@ + spec_usd(sd.total_amount as int)
        + "</em></p>\n"@ + "<p>You earned <em>"@ + spec_dec(sd.total_volume_credits as int)
        + "</em> credits</p>\n"@
}

/// Render the plain-text statement.
#[verifier::loop_isolation(false)]
pub fn render_plain_text(statement_data: &StatementData) -> (r: String)
    ensures
        r@ == spec_plain_text(*statement_data),
{
    let ghost s = statement_data.performances@;
    let mut result = "Statement for ".to_owned();
    result.append(statement_data.customer.as_str());
    result.append("\n");
    let ghost header = result@;
    let n = statement_data.performances.len();
    let mut i: usize = 0;
    proof {
        assert(s.skip(0) =~= s);
    }
    while i < n
        invariant
            i <= n,
            header + spec_perf_lines(s) =~= result@ + spec_perf_lines(s.skip(i as int)),
        decreases n - i,
    {
        proof {
            assert(s.skip(i as int)[0] == s[i as int]);
            assert(s.skip(i as int).drop_first() =~= s.skip(i + 1));
        }
        let perf = &statement_data.performances[i];
        result.append(" ");
        result.append(perf.play.name.as_str());
        result.append(": ");
        let amount_text = usd(perf.amount);
        result.append(amount_text.as_str());
        result.append(" (");
        let audience_text = u32_to_dec(perf.audience);
        result.append(audience_text.as_str());
        result.append(" seats)\n");
        i = i + 1;
    }
    result.append("Amount owed is ");
    let total_text = usd(statement_data.total_amount);
    result.append(total_text.as_str());
    result.append("\n");
    result.append("You earned ");
    let credits_text = u32_to_dec(statement_data.total_volume_credits);
    result.append(credits_text.as_str());
    result.append(" credits\n");
    proof {
        assert(result@ =~= spec_plain_text(*statement_data));
    }
    result
}

/// Render the markup statement.
#[verifier::loop_isolation(false)]
pub fn render_html(data: &StatementData) -> (r: String)
    ensures
        r@ == spec_html(*data),
{
    let ghost s = data.performances@;
    let mut result = "<h1>Statement for ".to_owned();
    result.append(data.customer.as_str());
    result.append("</h1>\n");
    result.append("<table>\n");
    result.append("<tr><th>play</th><th>seats</th><th>cost</th></tr>");
    let ghost header = result@;
    let n = data.performances.len();
    let mut i: usize = 0;
    proof {
        assert(s.skip(0) =~= s);
    }
    while i < n
        invariant
            i <= n,
            header + spec_html_rows(s) =~= result@ + spec_html_rows(s.skip(i as int)),
        decreases n - i,
    {
        proof {
            assert(s.skip(i as int)[0] == s[i as int]);
            assert(s.skip(i as int).drop_first() =~= s.skip(i + 1));
        }
        let perf = &data.performances[i];
        result.append(" <tr><td>");
        result.append(perf.play.name.as_str());
        result.append("</td><td>");
        let audience_text = u32_to_dec(perf.audience);
        result.append(audience_text.as_str());
        result.append("</td><td>");
        let amount_text = usd(perf.amount);
        result.append(amount_text.as_str());
        result.append("</td></tr>\n");
        i = i + 1;
    }
    result.append("</table>\n");
    result.append("<p>Amount owed is <em>");
    let total_text = usd(data.total_amount);
    result.append(total_text.as_str());
    result.append("</em></p>\n");
    result.append("<p>You earned <em>");
    let credits_text = u32_to_dec(data.total_volume_credits);
    result.append(credits_text.as_str());
    result.append("</em> credits</p>\n");
    proof {
        assert(result@ =~= spec_html(*data));
    }
    result
}

/// The output layouts a statement can be rendered in.
pub enum RenderFormat {
    PlainText,
    Html,
}

/// Render a computed statement in the chosen layout.
pub fn render(statement_data: &StatementData, format: RenderFormat) -> (r: String)
    ensures
        match format {
            RenderFormat::PlainText => r@ == spec_plain_text(*statement_data),
            RenderFormat::Html => r@ == spec_html(*statement_data),
        },
{
    match format {
        RenderFormat::PlainText => render_plain_text(statement_data),
        RenderFormat::Html => render_html(statement_data),
    }
}

/// The parts of an enriched performance that rendering reads: the play
/// name, the audience, and the price.
pub open spec fn perf_content_eq(a: PerformanceData, b: PerformanceData) -> bool {
    a.play.name@ == b.play.name@ && a.audience == b.audience && a.amount == b.amount
}

proof fn lemma_lines_depend_on_content_only(a: Seq<PerformanceData>, b: Seq<PerformanceData>)
    requires
        a.len() == b.len(),
        forall|i: int| 0 <= i < a.len() ==> perf_content_eq(#[trigger] a[i], b[i]),
    ensures
        spec_perf_lines(a) == spec_perf_lines(b),
        spec_html_rows(a) == spec_html_rows(b),
    decreases a.len(),
{
    if a.len() > 0 {
        assert(perf_content_eq(a[0], b[0]));
        assert(forall|i: int|
            0 <= i < a.drop_first().len() ==> perf_content_eq(
                #[trigger] a.drop_first()[i],
                b.drop_first()[i],
            ));
        lemma_lines_depend_on_content_only(a.drop_first(), b.drop_first());
    }
}

/// Rendering is a pure function of the statement data: it reads only the
/// customer name, each performance's name, audience and price, and the
/// two totals, so any two statements that agree on that content render
/// identically, and rendering the same data twice yields the same output.
pub proof fn lemma_render_depends_on_content_only(a: StatementData, b: StatementData)
    requires
        a.customer@ == b.customer@,
        a.performances@.len() == b.performances@.len(),
        forall|i: int|
            0 <= i < a.performances@.len() ==> perf_content_eq(
                #[trigger] a.performances@[i],
                b.performances@[i],
            ),
        a.total_amount == b.total_amount,
        a.total_volume_credits == b.total_volume_credits,
    ensures
        spec_plain_text(a) == spec_plain_text(b),
        spec_html(a) == spec_html(b),
{
    lemma_lines_depend_on_content_only(a.performances@, b.performances@);
}

/// Compute and render the plain-text statement for one invoice in one
/// step: the calculation phase feeds the rendering phase, and the first
/// failing performance aborts the whole invoice.
pub fn statement(invoice: &Invoice, plays: &Catalog) -> (r: Result<String, StatementError>)
    requires
        all_fit(*plays, invoice.performances@),
        totals_fit(*plays, invoice.performances@),
    ensures
        r is Ok <==> all_ok(*plays, invoice.performances@),
        match r {
            Ok(text) => exists|sd: StatementData|
                #[trigger] statement_data_matches(*plays, *invoice, sd) && text@
                    == spec_plain_text(sd),
            Err(e) => exists|i: int|
                #[trigger] first_failure(*plays, invoice.performances@, i) && error_matches(
                    *plays,
                    invoice.performances@[i],
                    e,
                ),
        },
{
    match create_statement_data(invoice, plays) {
        Ok(sd) => Ok(render_plain_text(&sd)),
        Err(e) => Err(e),
    }
}

/// Compute and render the markup statement for one invoice in one step.
pub fn html_statement(invoice: &Invoice, plays: &Catalog) -> (r: Result<String, StatementError>)
    requires
        all_fit(*plays, invoice.performances@),
        totals_fit(*plays, invoice.performances@),
    ensures
        r is Ok <==> all_ok(*plays, invoice.performances@),
        match r {
            Ok(text) => exists|sd: StatementData|
                #[trigger] statement_data_matches(*plays, *invoice, sd) && text@ == spec_html(sd),
            Err(e) => exists|i: int|
                #[trigger] first_failure(*plays, invoice.performances@, i) && error_matches(
                    *plays,
                    invoice.performances@[i],
                    e,
                ),
        },
{
    match create_statement_data(invoice, plays) {
        Ok(sd) => Ok(render_html(&sd)),
        Err(e) => Err(e),
    }
}

} // verus!
