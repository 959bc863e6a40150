//! Token-level core of `might_be_async`: the parsing of the macro inputs
//! and the construction of the token streams that `#[func]`, `invoke!` and
//! `select!` expand to, over a flat token model.

pub mod outside;
pub mod tokens;
pub mod syntax;
pub mod expand;
pub mod select;
pub mod args;
pub mod invoke;
pub mod func;
pub mod config;
pub mod usage;
pub mod laws;
