//! Builds a workflow out of named scopes and task steps, and renders a textual
//! summary of it.
//!
//! `scope` holds the scope tree and the handles callers pass around, `builder`
//! the step record, the builder with its admission rule and the report, and
//! `laws` the properties that hold across calls.

pub mod builder;
pub mod laws;
pub mod scope;
