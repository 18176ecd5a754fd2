//! The digits of a number: what a type must offer to be formatted.
use crate::base::Base;
use crate::compose::opt_seq;
use vstd::prelude::*;

pub mod default_upper_hex;
pub mod impls;
pub mod integers;
pub mod fractional;

verus! {

/// Whether `c` is a digit of `base`. Hexadecimal digits are in lower case, except for
/// `Base::UpperHex`.
pub open spec fn is_digit_of(c: char, base: Base) -> bool {
    match base {
        Base::Binary => '0' <= c && c <= '1',
        Base::Octal => '0' <= c && c <= '7',
        Base::Decimal => '0' <= c && c <= '9',
        Base::LowerHex => ('0' <= c && c <= '9') || ('a' <= c && c <= 'f'),
        Base::UpperHex => ('0' <= c && c <= '9') || ('A' <= c && c <= 'F'),
    }
}

/// Whether every character of `digits` is a digit of `base`.
pub open spec fn all_digits_of(digits: Seq<char>, base: Base) -> bool {
    forall|i: int| 0 <= i < digits.len() ==> is_digit_of(#[trigger] digits[i], base)
}

/// This trait enables a type to be formatted by [`NumFmt`][crate::NumFmt].
///
/// A type says which bases it has digits in, whatever the value: `supports`. Decimal
/// digits of the integer part are always there. Only the fraction may be present for one
/// value and absent for another.
///
/// Digits of the integer part run away from the decimal point: for a number `N` in base
/// `B`, first the digit for `B**0`, then those for `B**1`, `B**2` and so on. Digits of the
/// fraction run away from it too: first the digit for `10**-1`.
///
/// Only digits of the base are returned, hexadecimal ones in lower case. The digits are
/// those of the magnitude: the sign is told by `is_negative`. All other formatting is
/// done by the formatter.
pub trait Numeric {
    /// Whether values of this type have digits in `base`. Asked for `Binary`, `Octal` and
    /// `LowerHex`.
    spec fn supports(base: Base) -> bool;

    /// The digits of the integer part in `base`, least significant first. Asked for
    /// `Binary`, `Octal`, `Decimal` and `LowerHex`.
    spec fn digits(&self, base: Base) -> Seq<char>;

    /// The decimal digits of the fraction, nearest to the decimal point first.
    spec fn fraction(&self) -> Option<Seq<char>>;

    /// Whether this value is less than zero.
    spec fn negative(&self) -> bool;

    /// The binary digits of this number, from least to most significant.
    ///
    /// Legal output characters: `[01]`.
    fn binary(&self) -> (r: Option<Vec<char>>)
        ensures
            r is Some <==> Self::supports(Base::Binary),
            r matches Some(d) ==> d@ == self.digits(Base::Binary) && all_digits_of(
                d@,
                Base::Binary,
            ),
    ;

    /// The octal digits of this number, from least to most significant.
    ///
    /// Legal output characters: `[0-7]`.
    fn octal(&self) -> (r: Option<Vec<char>>)
        ensures
            r is Some <==> Self::supports(Base::Octal),
            r matches Some(d) ==> d@ == self.digits(Base::Octal) && all_digits_of(d@, Base::Octal),
    ;

    /// The decimal digits of this number: those of the integer part, from least to most
    /// significant, and those of the fraction, away from the decimal point.
    ///
    /// If the type is not integral, such as a floating-point type, but the value is an
    /// integer, like `1.0`, then the output varies with the second component:
    ///
    /// - `None` => `"1"`
    /// - `Some` of no digit => `"1."`
    /// - `Some` of the digit `0` => `"1.0"`
    ///
    /// Legal output characters: `[0-9]`.
    fn decimal(&self) -> (r: (Vec<char>, Option<Vec<char>>))
        ensures
            r.0@ == self.digits(Base::Decimal),
            all_digits_of(r.0@, Base::Decimal),
            opt_seq(r.1) == self.fraction(),
            r.1 matches Some(f) ==> all_digits_of(f@, Base::Decimal),
    ;

    /// The hexadecimal digits of this number, with letters as lowercase, from least to
    /// most significant.
    ///
    /// The formatter uppercases the output of this function when the user requests
    /// uppercase hexadecimal.
    ///
    /// Legal output characters: `[0-9a-f]`.
    fn hex(&self) -> (r: Option<Vec<char>>)
        ensures
            r is Some <==> Self::supports(Base::LowerHex),
            r matches Some(d) ==> d@ == self.digits(Base::LowerHex) && all_digits_of(
                d@,
                Base::LowerHex,
            ),
    ;

    /// `true` when this value is less than 0.
    fn is_negative(&self) -> (r: bool)
        ensures
            r == self.negative(),
    ;
}

} // verus!
