//! A small grammar compiler: a domain-specific language describes recursive
//! parsing rules over a declared token alphabet, and each rule is compiled
//! into a matching procedure that performs backtracking recursive-descent
//! parsing with structured error reporting.
//!
//! The pipeline is: DSL text -> grammar lexer ([`lexer`]) -> grammar syntax
//! tree builder ([`builder`]) -> compiled [`engine::Grammar`], which is run
//! against a [`tokens::List`] of concrete tokens and either succeeds or
//! reports a structured [`error::ParseError`].

pub mod builder;
pub mod engine;
pub mod error;
pub mod lexer;
pub mod syntax;
pub mod tokens;
