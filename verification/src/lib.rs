//! Format numbers according to a format that is only known at run time.
//!
//! ## Entry points
//!
//! The core of this crate is the [`NumFmt`] type. It is [built][NumFmt::builder]
//! explicitly, or [parsed][NumFmt::from_str] from a format string with a grammar similar
//! to that of the standard library (see [`parse`]).
//!
//! Given a `NumFmt`, its [`fmt`][NumFmt::fmt] method formats a number, and its
//! [`fmt_with`][NumFmt::fmt_with] method applies dynamic parameters, which always
//! override those of the formatter. Any type that implements [`Numeric`] can be
//! formatted: the integer types do, and so does [`Fractional`],
//! a number given by its decimal numeral. [`render`][NumFmt::render] formats digits that
//! are at hand already.
//!
//! ## What is proved
//!
//! Every function states what it returns over a model of its arguments, and Verus proves
//! that it does. The rendered text is [`NumFmt::parts`] put together by
//! [`Parts::text`][layout::Parts::text]; the formatter of a format string is
//! [`parse::parse_spec`], and [`grammar`] shows that this is the grammar's reading.
//! [`laws`] holds what follows for every formatter and every number.
//!
//! Three functions of other libraries are trusted to do what their documentation says:
//! `iterext::Separate::separate` (see [`group`]), `String::push` and
//! `char::to_ascii_uppercase` (see [`text`]).
//!
//! ## The parts of a format
//!
//! - `fill`: the character that pads the number up to `width`; a space by default.
//!   Wide characters are counted according to their quantity, not their bit width.
//! - `align`: `>` aligns to the right (default), `^` centers, `<` aligns to the left, and
//!   `v` aligns the decimal point at column `width`.
//! - `sign`: `-` shows a sign for negative numbers only (default), `+` for all numbers.
//! - `#`: shows the base before the number: `0b`, `0o`, `0d` or `0x`. It counts toward
//!   the width.
//! - `0`: fills the number up with zeros, which are then part of the number: they are
//!   grouped like its digits, and they stand behind the sign, which takes one column of
//!   the width. Zeros as an explicit fill are not grouped, and the sign stands in front
//!   of the full width.
//! - `width`: the minimum width of the output; 0 by default.
//! - `precision`: the number of digits behind the decimal point. More digits are cut
//!   off, fewer are filled up with `0`. By default a number shows the digits it has.
//! - `format`: `b` binary, `o` octal, `d` decimal (default), `x` and `X` hexadecimal
//!   with lower-case and upper-case letters.
//! - `separator`: a character between groups of digits. Digits are not grouped by
//!   default.
//! - `spacing`: the number of digits in a group; 3 by default.

pub mod align;
pub mod base;
pub mod builder;
pub mod compose;
pub mod dynamic;
pub mod grammar;
pub mod group;
pub mod laws;
pub mod layout;
pub mod num_fmt;
pub mod numeric_trait;
pub mod parse;
pub mod sign;
pub mod text;

pub use align::Align;
pub use base::Base;
pub use builder::Builder;
pub use compose::Digits;
pub use dynamic::Dynamic;
pub use num_fmt::{Error, NumFmt, ParseError};
pub use numeric_trait::fractional::Fractional;
pub use numeric_trait::Numeric;
pub use sign::Sign;
