//! Streaming extraction of table rows from a textual database dump, with
//! per-column substitution rules applied to each extracted row.
//!
//! The lexer that turns dump text into statements of tokens is supplied by the
//! caller; the library classifies each statement, pairs its column names with
//! its values, decodes the values, applies the rules, and keeps track of the
//! stages of a run.
pub mod column;
pub mod pipeline;
pub mod postgres;
pub mod statement;
pub mod token;
pub mod transformer;
pub mod typing;
