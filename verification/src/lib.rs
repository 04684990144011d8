//! A parser-combinator engine: composable building blocks from which
//! recursive-descent text parsers are assembled as ordinary values.
//!
//! A parser consumes a prefix of a borrowed input view and returns a typed
//! value plus the unconsumed remainder, or a structured error. Primitive
//! matchers (a single code point, a character class, literal text) are
//! combined through sequencing, alternation, repetition and transformation
//! combinators; errors carry a two-tier severity, recoverable or committed,
//! which alone decides whether alternation may try a sibling branch. Every
//! parser's behaviour is stated in its contract: what a success may look
//! like, what a failure may look like, and that the remainder is always a
//! literal suffix of the input.

pub mod character;
pub mod combinator;
pub mod error;
pub mod laws;
pub mod parser;
pub mod sequence;
pub mod util;
