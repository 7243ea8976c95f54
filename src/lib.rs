//! Syntactic analysis for a small expression-and-statement language: a
//! stream of spanned tokens becomes statements and expressions, or a
//! span-located diagnostic.
pub mod ast;
pub mod error;
pub mod grammar;
pub mod laws;
pub mod parser;
pub mod theme;
pub mod token;
