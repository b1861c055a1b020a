//! Parser and renderer for Doxygen-style documentation comments.
//!
//! A comment body is split into a free-text description followed by typed
//! `@`-attributes (`@param`, `@return`, `@see`, `@brief`, `@note`,
//! `@deprecated`, `@nodoc`). Events are produced one at a time and every
//! text they carry is a slice of the caller's input.

pub mod model;
pub mod grammar;
pub mod attr;
pub mod parser;
pub mod render;
pub mod callback;
pub mod write;
pub mod laws;
