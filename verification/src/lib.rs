//! Billing statements for a theatrical booking agency.
//!
//! Given a catalog of plays and an invoice listing performances (play
//! reference plus audience size), the library computes a price and a
//! loyalty-credit value per performance, aggregates invoice-level totals,
//! and renders a human-readable statement.  The calculation phase and the
//! rendering phase are strictly separated: rendering is a pure function of
//! the aggregated statement data and never recomputes prices or credits.

pub mod types;
pub mod catalog;
pub mod pricing;
pub mod statement;
pub mod numfmt;
pub mod render;
pub mod owner;
pub mod s00_before_encapsulation;
pub mod s01_before_encapsulation;
pub mod s01_after_encapsulation;
pub mod s02_1_find_modify;
pub mod s02_2_clone_encapsulation;
pub mod s02_after_encapsulation;
pub mod s03_set_clone_encapsulation;
