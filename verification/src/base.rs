use vstd::prelude::*;

verus! {

/// The base with which to represent a number.
///
/// - `Binary`: emit the binary representation
/// - `Octal`: emit the octal representation
/// - `Decimal`: emit the decimal representation (default)
/// - `LowerHex`: emit the hexadecimal representation with lowercase letters
/// - `UpperHex`: emit the hexadecimal representation with uppercase letters
#[derive(Clone, Copy, PartialEq, Eq, Debug, Structural)]
pub enum Base {
    Binary,
    Octal,
    Decimal,
    LowerHex,
    UpperHex,
}

impl Default for Base {
    #[inline]
    fn default() -> (r: Self)
        ensures
            r == Base::Decimal,
    {
        Base::Decimal
    }
}

} // verus!
