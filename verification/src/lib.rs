//! Combinable values and parser combinators that merge parser outputs.
//!
//! The `monoid` module defines the combinable-value contract — an identity
//! element together with an associative binary operation — and supplies
//! instances for text, optional wrappers and sequences; the `keyed` module
//! adds a combinable set and key-value map. The `monoid_parser` module layers
//! sequencing, optionality and repetition combinators over any parser whose
//! output satisfies that contract, folding the outputs of the inner parsers
//! into a single combined value. The `text` module supplies a
//! character-cursor input type and a few primitive parsers over it.

pub mod keyed;
pub mod monoid;
pub mod monoid_parser;
pub mod text;
