//! Compile-time record projection: `omit` and `pick` directives.
//!
//! Given a record declaration (an ordered list of named fields) annotated
//! with projection directives, this library parses each directive, computes
//! the retained field subset (all fields except an exclusion set for `omit`,
//! only an inclusion set for `pick`), and synthesizes one new record
//! declaration per directive, optionally carrying a list of capability
//! annotations copied verbatim from the directive's `derive(...)` sub-form.
//!
//! The whole transformation is a pure function of its input: no I/O, no
//! shared state, no host-compiler types.  The host front end tokenizes the
//! directive arguments into [`model::Token`] sequences and splices the
//! rendered output back into the program; both of those edges stay outside
//! this crate.

pub mod grammar;
pub mod model;
pub mod parser;
pub mod pipeline;
pub mod project;
pub mod synth;
