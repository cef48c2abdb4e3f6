//! A statement as plain text and as markup.

use crate::statement_data::{
    build, create_statement_data, within_limits, EnrichedPerformanceView, StatementData,
    StatementError, StatementView,
};
use crate::text::{decimal, decimal_string};
use crate::types::{catalogue, Invoice, Plays};
use currency_rs::{Currency, CurrencyErr, CurrencyOpts};
use vstd::prelude::*;
use vstd::string::*;

verus! {

/// The text that `currency_rs` gives for an amount of cents as a dollar price:
/// symbol, grouped dollars and two decimals.
pub uninterp spec fn usd_formatted(penny: u64) -> Seq<char>;

/// The text that `currency_rs` gives for an amount of cents as a bare number of
/// dollars with two decimals.
pub uninterp spec fn usd_plain(penny: u64) -> Seq<char>;

/// Calls `currency_rs::Currency::format` on the amount, read as cents by
/// `Currency::new_string` under the options symbol `$`, precision 2 and
/// `from_cents`. Nothing is proved of the text: the contract only gives it a
/// name, on the ground that it depends on the amount alone. `new_string` fails
/// only under the option `error_on_invalid`, which stays off; its error text
/// would be handed on.
#[verifier::external_body]
fn usd_format(penny: u64) -> (text: String)
    ensures
        text@ == usd_formatted(penny),
{
    let opts = CurrencyOpts::new().set_symbol("$").set_precision(2).set_from_cents(true);
    match Currency::new_string(&penny.to_string(), Some(opts)) {
        Ok(amount) => amount.format(),
        Err(CurrencyErr::ParseErr(reason)) => reason,
    }
}

/// Calls `to_string` on a `currency_rs::Currency`, that is its `Display`, for
/// the amount read as cents by `Currency::new_string` under the options symbol
/// `$`, precision 2 and `from_cents`. Nothing is proved of the text: the
/// contract only gives it a name, on the ground that it depends on the amount
/// alone. `new_string` fails only under the option `error_on_invalid`, which
/// stays off; its error text would be handed on.
#[verifier::external_body]
fn usd_display(penny: u64) -> (text: String)
    ensures
        text@ == usd_plain(penny),
{
    let opts = CurrencyOpts::new().set_symbol("$").set_precision(2).set_from_cents(true);
    match Currency::new_string(&penny.to_string(), Some(opts)) {
        Ok(amount) => amount.to_string(),
        Err(CurrencyErr::ParseErr(reason)) => reason,
    }
}

/// The first line of the plain statement.
pub open spec fn plain_heading_text(customer: Seq<char>) -> Seq<char> {
    "Statement for "@ + customer + "\n"@
}

/// The line of one performance in the plain statement.
pub open spec fn plain_line_text(title: Seq<char>, amount: Seq<char>, audience: nat) -> Seq<char> {
    " "@ + title + ": "@ + amount + " ("@ + decimal(audience) + " seats)\n"@
}

/// The two last lines of the plain statement.
pub open spec fn plain_closing_text(total: Seq<char>, credits: nat) -> Seq<char> {
    "Amount owed is "@ + total + "\n"@ + "You earned "@ + decimal(credits) + " credits\n"@
}

/// The lines of the performances, one after the other in their order.
pub open spec fn plain_lines_text(lines: Seq<EnrichedPerformanceView>) -> Seq<char>
    decreases lines.len(),
{
    if lines.len() == 0 {
        Seq::empty()
    } else {
        plain_lines_text(lines.drop_last()) + plain_line_text(
            lines.last().play.name,
            usd_formatted(lines.last().amount() as u64),
            lines.last().perf.audience,
        )
    }
}

/// The plain statement: heading, one line for each performance, closing.
pub open spec fn plain_statement_text(statement: StatementView) -> Seq<char> {
    plain_heading_text(statement.customer) + plain_lines_text(statement.lines)
        + plain_closing_text(
        usd_formatted(statement.total_amount() as u64),
        statement.total_volume_credits(),
    )
}

/// The markup before the rows: heading, and the table with its header row.
pub open spec fn html_heading_text(customer: Seq<char>) -> Seq<char> {
    "<h1>Statement for "@ + customer + "</h1>\n"@ + "<table>\n"@
        + "<tr><th>play</th><th>seats</th><th>cost</th></tr>"@
}

/// The table row of one performance.
pub open spec fn html_row_text(title: Seq<char>, audience: nat, amount: Seq<char>) -> Seq<char> {
    " <tr><td>"@ + title + "</td><td>"@ + decimal(audience) + "</td><td>"@ + amount
        + "</td></tr>\n"@
}

/// The markup after the rows: the end of the table and the two paragraphs.
pub open spec fn html_closing_text(total: Seq<char>, credits: nat) -> Seq<char> {
    "</table>\n"@ + "<p>Amount owed is <em>"@ + total + "</em></p>\n"@ + "<p>You earned <em>"@
        + decimal(credits) + "</em> credits</p>\n"@
}

/// The rows of the performances, one after the other in their order.
pub open spec fn html_rows_text(lines: Seq<EnrichedPerformanceView>) -> Seq<char>
    decreases lines.len(),
{
    if lines.len() == 0 {
        Seq::empty()
    } else {
        html_rows_text(lines.drop_last()) + html_row_text(
            lines.last().play.name,
            lines.last().perf.audience,
            usd_plain(lines.last().amount() as u64),
        )
    }
}

/// The statement as markup: heading, one row for each performance, closing.
pub open spec fn html_statement_text(statement: StatementView) -> Seq<char> {
    html_heading_text(statement.customer) + html_rows_text(statement.lines) + html_closing_text(
        usd_plain(statement.total_amount() as u64),
        statement.total_volume_credits(),
    )
}

/// Rendering is a function of the statement: statements with the same
/// customer and the same lines have the same text, in either form, however
/// often they are rendered.
pub proof fn lemma_rendering_repeats(first: StatementView, second: StatementView)
    requires
        first.customer == second.customer,
        first.lines == second.lines,
    ensures
        plain_statement_text(first) == plain_statement_text(second),
        html_statement_text(first) == html_statement_text(second),
{
}

/// Writes the first line of the plain statement.
pub fn plain_heading(customer: &str) -> (text: String)
    ensures
        text@ == plain_heading_text(customer@),
{
    let mut text = String::from_str("Statement for ");
    text.append(customer);
    text.append("\n");
    text
}

/// Writes the line of one performance, given its amount as text.
pub fn plain_line(title: &str, amount: &str, audience: u64) -> (text: String)
    ensures
        text@ == plain_line_text(title@, amount@, audience as nat),
{
    let seats = decimal_string(audience);
    let mut text = String::from_str(" ");
    text.append(title);
    text.append(": ");
    text.append(amount);
    text.append(" (");
    text.append(seats.as_str());
    text.append(" seats)\n");
    text
}

/// Writes the two last lines of the plain statement, given the total as text.
pub fn plain_closing(total: &str, credits: u64) -> (text: String)
    ensures
        text@ == plain_closing_text(total@, credits as nat),
{
    let earned = decimal_string(credits);
    let mut text = String::from_str("Amount owed is ");
    text.append(total);
    text.append("\n");
    text.append("You earned ");
    text.append(earned.as_str());
    text.append(" credits\n");
    text
}

/// Renders a statement as plain text.
pub fn render_plain_statement(data: StatementData) -> (text: String)
    requires
        data@.fits(),
    ensures
        text@ == plain_statement_text(data@),
{
    let ghost lines = data@.lines;
    let mut result = plain_heading(data.customer.as_str());
    let mut i: usize = 0;
    while i < data.performances.len()
        invariant
            i <= data.performances.len(),
            lines == data@.lines,
            lines.len() == data.performances.len(),
            result@ == plain_heading_text(data.customer@) + plain_lines_text(lines.take(i as int)),
        decreases data.performances.len() - i,
    {
        let perf = &data.performances[i];
        let amount = usd_format(perf.amount());
        let line = plain_line(perf.play().name.as_str(), amount.as_str(), perf.audience());
        proof {
            assert(lines.take(i + 1).drop_last() == lines.take(i as int));
            assert(lines.take(i + 1).last() == perf@);
        }
        result.append(line.as_str());
        i += 1;
    }
    assert(lines.take(i as int) == lines);
    let total = usd_format(data.total_amount());
    let closing = plain_closing(total.as_str(), data.total_volume_credits());
    result.append(closing.as_str());
    result
}

/// Writes the markup before the rows.
pub fn html_heading(customer: &str) -> (text: String)
    ensures
        text@ == html_heading_text(customer@),
{
    let mut text = String::from_str("<h1>Statement for ");
    text.append(customer);
    text.append("</h1>\n");
    text.append("<table>\n");
    text.append("<tr><th>play</th><th>seats</th><th>cost</th></tr>");
    text
}

/// Writes the table row of one performance, given its amount as text.
pub fn html_row(title: &str, audience: u64, amount: &str) -> (text: String)
    ensures
        text@ == html_row_text(title@, audience as nat, amount@),
{
    let seats = decimal_string(audience);
    let mut text = String::from_str(" <tr><td>");
    text.append(title);
    text.append("</td><td>");
    text.append(seats.as_str());
    text.append("</td><td>");
    text.append(amount);
    text.append("</td></tr>\n");
    text
}

/// Writes the markup after the rows, given the total as text.
pub fn html_closing(total: &str, credits: u64) -> (text: String)
    ensures
        text@ == html_closing_text(total@, credits as nat),
{
    let earned = decimal_string(credits);
    let mut text = String::from_str("</table>\n");
    text.append("<p>Amount owed is <em>");
    text.append(total);
    text.append("</em></p>\n");
    text.append("<p>You earned <em>");
    text.append(earned.as_str());
    text.append("</em> credits</p>\n");
    text
}

/// Renders a statement as markup.
pub fn render_html_statement(data: StatementData) -> (text: String)
    requires
        data@.fits(),
    ensures
        text@ == html_statement_text(data@),
{
    let ghost lines = data@.lines;
    let mut result = html_heading(data.customer.as_str());
    let mut i: usize = 0;
    while i < data.performances.len()
        invariant
            i <= data.performances.len(),
            lines == data@.lines,
            lines.len() == data.performances.len(),
            result@ == html_heading_text(data.customer@) + html_rows_text(lines.take(i as int)),
        decreases data.performances.len() - i,
    {
        let perf = &data.performances[i];
        let amount = usd_display(perf.amount());
        let row = html_row(perf.play().name.as_str(), perf.audience(), amount.as_str());
        proof {
            assert(lines.take(i + 1).drop_last() == lines.take(i as int));
            assert(lines.take(i + 1).last() == perf@);
        }
        result.append(row.as_str());
        i += 1;
    }
    assert(lines.take(i as int) == lines);
    let total = usd_display(data.total_amount());
    let closing = html_closing(total.as_str(), data.total_volume_credits());
    result.append(closing.as_str());
    result
}

/// The plain-text statement of an invoice. No text is produced where any
/// performance cannot be billed.
pub fn statement(invoice: &Invoice, plays: &Plays) -> (result: Result<String, StatementError>)
    requires
        within_limits(invoice@, catalogue(plays)),
    ensures
        match build(invoice@, catalogue(plays)) {
            Ok(statement) => result matches Ok(text) && text@ == plain_statement_text(statement),
            Err(reason) => result matches Err(error) && error@ == reason,
        },
{
    match create_statement_data(invoice, plays) {
        Ok(data) => Ok(render_plain_statement(data)),
        Err(error) => Err(error),
    }
}

/// The statement of an invoice as markup. No text is produced where any
/// performance cannot be billed.
pub fn html_statement(invoice: &Invoice, plays: &Plays) -> (result: Result<String, StatementError>)
    requires
        within_limits(invoice@, catalogue(plays)),
    ensures
        match build(invoice@, catalogue(plays)) {
            Ok(statement) => result matches Ok(text) && text@ == html_statement_text(statement),
            Err(reason) => result matches Err(error) && error@ == reason,
        },
{
    match create_statement_data(invoice, plays) {
        Ok(data) => Ok(render_html_statement(data)),
        Err(error) => Err(error),
    }
}

} // verus!
