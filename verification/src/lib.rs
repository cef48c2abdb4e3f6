//! Billing statements for a theatre company.
//!
//! An [`Invoice`] lists the performances a customer ordered; a catalogue of
//! [`Play`]s says how each of them is priced. From the two the library builds a
//! [`StatementData`], the priced lines in invoice order with their totals, and
//! renders it as plain text or as markup.
//!
//! All amounts are integers in minor currency units (cents).

pub mod calculator;
pub mod render;
pub mod statement_data;
pub mod text;
pub mod types;

pub use calculator::PerformanceCalculator;
pub use render::{html_statement, render_html_statement, render_plain_statement, statement};
pub use statement_data::{
    check_limits, create_statement_data, EnrichedPerformance, StatementData, StatementError,
};
pub use types::{Invoice, Performance, Play, Plays};
