//! Indexes a source tree: each file is mapped to a language profile, parsed
//! into a concrete syntax tree, and searched with a declarative pattern set
//! for top-level declaration sites. Every file yields exactly one report,
//! whatever went wrong with it, and a whole scan aggregates those reports.

pub mod languages;
pub mod models;
pub mod parser;
pub mod scan;
