//! A parser for plain-text double-entry ledgers in the beancount format.
//!
//! [`parse`] turns the text of one ledger buffer into a [`File`]: the paths
//! of its `include` lines, its options and its directives in source order.
//! Nothing is read from disk, and the first failure ends the parse.
//!
//! The grammar is stated as spec functions over the characters of the text
//! ([`grammar`], [`posting`], [`directive`], [`parse`](mod@parse)); every
//! executable function is proved to return what they state. Numbers are
//! decimals computed by `rust_decimal` ([`decimal`], [`expr`]), dates are
//! checked by `chrono` ([`date`]).

pub mod error;
pub mod text;
pub mod collections;
pub mod decimal;
pub mod expr;
pub mod date;
pub mod booking;
pub mod data;
pub mod tags;
pub mod cost;
pub mod grammar;
pub mod posting;
pub mod directive;
pub mod parse;

pub use booking::Booking;
pub use collections::{Metadata, StrSet};
pub use data::{
    Amount, Balance, Close, Commodity, Cost, CostSpec, Custom, Directive, Document, Event, File, Note, Open, Opt,
    Pad, Plugin, Posting, PostingCost, Price, Query, Transaction,
};
pub use date::Date;
pub use decimal::Decimal;
pub use error::{ErrorKind, Fault, ParseError};
pub use parse::parse;
