//! A line-oriented lexical analyzer for a small expression language.
//!
//! A line of text is turned into a sequence of classified tokens by a single
//! left-to-right pass that always prefers the longest match. Characters that
//! belong to no rule come out as tokens of their own instead of stopping the
//! scan, so every line has a token sequence.
//!
//! - [`chars`] decides the class of a character.
//! - [`token`] holds the tokens and their kinds.
//! - [`grammar`] says, as functions on sequences of characters, what the
//!   tokens of a line are.
//! - [`lexer`] is the scanner, proved to yield exactly those tokens.
//! - [`render`] shows tokens as text, line by line.
//! - [`text`] converts between strings, characters and lines.
//! - [`theorems`] proves what holds of the tokens of every line.

pub mod chars;
pub mod grammar;
pub mod lexer;
pub mod render;
pub mod text;
pub mod theorems;
pub mod token;
