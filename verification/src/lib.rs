//! Front end and evaluator of a small dynamically-typed scripting language.
//!
//! The crate turns a token stream into an abstract syntax tree by
//! recursive descent ([`parser`]) and walks that tree against a mutable
//! name-to-value scope to produce runtime values ([`interpreter`]).
//! Lexing and the registry of built-in functions are outside collaborators:
//! the parser consumes ready-made [`token::Token`] values, and built-in
//! calls are dispatched through the [`interpreter::BuiltinRegistry`] trait.
//!
//! Every executable function carries a contract stated against a
//! specification-level model: a spec parser over token sequences and a
//! fuelled big-step spec evaluator over expression views.

pub mod interpreter;
pub mod laws;
pub mod parser;
pub mod scope;
pub mod token;
pub mod value;
