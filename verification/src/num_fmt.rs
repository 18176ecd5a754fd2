use crate::align::Align;
use crate::base::Base;
use crate::builder::Builder;
use crate::compose::{
    assemble, fraction_chars, integer_chars, pad_amounts, prefix_chars, sign_chars, Digits,
};
use crate::dynamic::Dynamic;
use crate::layout::{
    fraction_digits, fraction_text, integer_digits, integer_part, padding, prefix_text, sat_sub,
    sign_text, DigitSeqs, Parts,
};
use crate::numeric_trait::Numeric;
use crate::parse::{fields, parse, parse_spec, parsed};
use crate::sign::Sign;
use vstd::prelude::*;

verus! {

/// Why a format string could not be parsed.
pub type ParseError = crate::parse::Error;

/// Why a number could not be formatted.
#[derive(Clone, Copy, PartialEq, Eq, Debug, Structural)]
pub enum Error {
    /// The zero flag is set together with an alignment other than `Align::Right` or
    /// `Align::Decimal`.
    IncompatibleAlignment,
    /// The type of the number has no representation in this base.
    UnsupportedBase(Base),
}

/// Formatter for numbers.
///
/// A plain record of the formatting parameters. Every combination of values is a valid
/// formatter; whether the zero flag fits the alignment is checked when a number is
/// formatted.
#[derive(Clone, Copy, PartialEq, Eq, Debug)]
pub struct NumFmt {
    /// Fill character; a space where none is set.
    pub fill: Option<char>,
    /// Alignment within `width`.
    pub align: Align,
    /// Which signs are shown.
    pub sign: Sign,
    /// Whether the base prefix is shown.
    pub hash: bool,
    /// Whether the number is filled up with zeros, which then count as part of it.
    pub zero: bool,
    /// Minimum width.
    pub width: usize,
    /// Number of digits after the decimal point; as many as the number has where unset.
    pub precision: Option<usize>,
    /// Base of the representation.
    pub base: Base,
    /// Group separator; no grouping where unset.
    pub separator: Option<char>,
    /// Group size; 3 where unset.
    pub spacing: Option<usize>,
    /// Decimal point; `.` where unset.
    pub decimal_separator: Option<char>,
}

/// The digits that `number` gives for `base`, if it has any in that base.
///
/// Upper-case hexadecimal digits are asked for in lower case. Only in base `Decimal` does
/// the number have a fraction.
pub open spec fn source<N: Numeric>(number: &N, base: Base) -> Option<DigitSeqs> {
    let from = if base is UpperHex {
        Base::LowerHex
    } else {
        base
    };
    if base is Decimal {
        Some(
            DigitSeqs {
                integer: number.digits(Base::Decimal),
                fraction: number.fraction(),
                negative: number.negative(),
            },
        )
    } else if N::supports(from) {
        Some(
            DigitSeqs {
                integer: number.digits(from),
                fraction: None,
                negative: number.negative(),
            },
        )
    } else {
        None
    }
}

/// A rendered text or an error, the text taken as its characters.
pub open spec fn text_result(r: Result<String, Error>) -> Result<Seq<char>, Error> {
    match r {
        Ok(s) => Ok(s@),
        Err(e) => Err(e),
    }
}

impl Default for NumFmt {
    fn default() -> (r: Self)
        ensures
            r == NumFmt::spec_default(),
    {
        NumFmt {
            fill: None,
            align: Align::Right,
            sign: Sign::OnlyMinus,
            hash: false,
            zero: false,
            width: 0,
            precision: None,
            base: Base::Decimal,
            separator: None,
            spacing: None,
            decimal_separator: None,
        }
    }
}

impl std::str::FromStr for NumFmt {
    type Err = ParseError;

    fn from_str(s: &str) -> (r: Result<Self, Self::Err>)
        ensures
            parsed(r) == parse_spec(s@),
    {
        parse(s)
    }
}

impl NumFmt {
    /// The formatter with every parameter at its default.
    pub open spec fn spec_default() -> NumFmt {
        NumFmt {
            fill: None,
            align: Align::Right,
            sign: Sign::OnlyMinus,
            hash: false,
            zero: false,
            width: 0,
            precision: None,
            base: Base::Decimal,
            separator: None,
            spacing: None,
            decimal_separator: None,
        }
    }

    /// The width in force: the dynamic one where present.
    pub open spec fn spec_width_with(&self, dynamic: Dynamic) -> usize {
        match dynamic.width {
            Some(w) => w,
            None => self.width,
        }
    }

    /// The precision in force: the dynamic one where present.
    pub open spec fn spec_precision_with(&self, dynamic: Dynamic) -> Option<usize> {
        match dynamic.precision {
            Some(p) => Some(p),
            None => self.precision,
        }
    }

    /// The group size in force: the dynamic one where present, 3 where none is set.
    pub open spec fn spec_spacing_with(&self, dynamic: Dynamic) -> usize {
        match (dynamic.spacing, self.spacing) {
            (Some(s), _) => s,
            (None, Some(s)) => s,
            (None, None) => 3,
        }
    }

    /// Separator and group size, where digits are grouped: only with a separator set.
    pub open spec fn grouping(&self, dynamic: Dynamic) -> Option<(char, nat)> {
        match self.separator {
            Some(separator) => Some((separator, self.spec_spacing_with(dynamic) as nat)),
            None => None,
        }
    }

    /// The character that fills unused width: `'0'` with the zero flag.
    pub open spec fn pad_char(&self) -> char {
        if self.zero {
            '0'
        } else {
            match self.fill {
                Some(c) => c,
                None => ' ',
            }
        }
    }

    /// The decimal point.
    pub open spec fn point(&self) -> char {
        match self.decimal_separator {
            Some(c) => c,
            None => '.',
        }
    }

    /// Whether the zero flag fits the alignment: zeros can only fill up a number that is
    /// aligned to the right or at the decimal point.
    pub open spec fn compatible(&self) -> bool {
        self.zero ==> (self.align is Right || self.align is Decimal)
    }

    /// The sign sigil of a number with these digits. Only a decimal number is shown as
    /// negative: in the other bases the digits are those of the magnitude.
    pub open spec fn sign_shown(&self, digits: DigitSeqs) -> Seq<char> {
        sign_text(self.sign, digits.negative && self.base is Decimal)
    }

    /// The columns of the width that the sign takes: one for a sign that is shown. Before
    /// a fill character `'0'` that the zero flag did not set, the sign takes none: it
    /// stands before a number of the full width.
    pub open spec fn sign_columns(&self, digits: DigitSeqs) -> int {
        if self.sign_shown(digits).len() > 0 && (self.zero || self.pad_char() != '0') {
            1
        } else {
            0
        }
    }

    /// The decimal point and the digits behind it. Only a decimal number has them.
    pub open spec fn fraction_shown(&self, digits: DigitSeqs, dynamic: Dynamic) -> Seq<char> {
        if self.base is Decimal {
            fraction_text(
                self.point(),
                fraction_digits(digits.fraction, self.spec_precision_with(dynamic)),
            )
        } else {
            seq![]
        }
    }

    /// The parts of `digits` as this formatter lays them out.
    ///
    /// The base prefix takes its two columns of the width. With the zero flag, the integer
    /// part is filled up with zeros to what is left of the width beside the sign and,
    /// unless the number is aligned at the decimal point, the fraction; there are no fill
    /// characters then. Without the zero flag, fill characters bring the number to the
    /// width, which is at least one column, and the sign takes the place of one in front.
    pub open spec fn parts(&self, digits: DigitSeqs, dynamic: Dynamic) -> Parts {
        let sign = self.sign_shown(digits);
        let prefix = prefix_text(self.hash, self.base);
        let fraction = self.fraction_shown(digits, dynamic);
        let room = sat_sub(self.spec_width_with(dynamic) as int, prefix.len() as int);
        let beside = if self.align is Decimal {
            0
        } else {
            fraction.len() as int
        };
        let integer = integer_part(
            integer_digits(digits.integer, self.base),
            self.grouping(dynamic),
            self.zero,
            sat_sub(sat_sub(room, self.sign_columns(digits)), beside),
        );
        let (front, rear) = if self.zero {
            (0int, 0int)
        } else {
            padding(
                self.align,
                if room > 1 {
                    room
                } else {
                    1
                },
                (integer.len() + fraction.len()) as int,
                integer.len() as int,
            )
        };
        Parts {
            sign,
            prefix,
            integer,
            fraction,
            pad: self.pad_char(),
            front: sat_sub(front, self.sign_columns(digits)),
            rear,
        }
    }

    /// What rendering `digits` gives.
    pub open spec fn render_spec(&self, digits: DigitSeqs, dynamic: Dynamic) -> Result<
        Seq<char>,
        Error,
    > {
        if !self.compatible() {
            Err(Error::IncompatibleAlignment)
        } else {
            Ok(self.parts(digits, dynamic).text())
        }
    }

    /// Create a [`Builder`] to customize the parameters of a `NumFmt`.
    pub fn builder() -> (r: Builder)
        ensures
            r@ == NumFmt::spec_default(),
    {
        Builder::new()
    }

    /// Parse a `NumFmt` instance from a format string.
    ///
    /// See the docs of the module [`parse`][crate::parse] for the grammar.
    ///
    /// This is a method of its own in order to reduce the need to import an extra trait,
    /// but `std::str::FromStr` is also implemented for `NumFmt` and delegates to it.
    pub fn from_str(s: &str) -> (r: Result<NumFmt, ParseError>)
        ensures
            parsed(r) == parse_spec(s@),
            r == Err::<NumFmt, ParseError>(ParseError::NoMatch) <==> fields(s@) is None,
    {
        parse(s)
    }

    /// What formatting `number` gives: an error where the zero flag does not fit the
    /// alignment, whatever the number; else an error where the number has no digits in
    /// this base; else the rendering of its digits.
    pub open spec fn fmt_spec<N: Numeric>(&self, number: &N, dynamic: Dynamic) -> Result<
        Seq<char>,
        Error,
    > {
        if !self.compatible() {
            Err(Error::IncompatibleAlignment)
        } else {
            match source(number, self.base) {
                Some(digits) => self.render_spec(digits, dynamic),
                None => Err(Error::UnsupportedBase(self.base)),
            }
        }
    }

    /// Format the provided number according to this configuration.
    ///
    /// Fails if the zero flag does not fit the alignment, or if the number has no
    /// representation in the requested base. The latter is most often the case when the
    /// number is not an integer but an integer format such as `b`, `o`, or `x` is
    /// requested.
    pub fn fmt<N: Numeric>(&self, number: N) -> (r: Result<String, Error>)
        ensures
            text_result(r) == self.fmt_spec(
                &number,
                Dynamic { width: None, precision: None, spacing: None },
            ),
            r == Err::<String, Error>(Error::IncompatibleAlignment) <==> !self.compatible(),
            r is Ok <==> self.compatible() && source(&number, self.base) is Some,
    {
        self.fmt_with(number, Dynamic::default())
    }

    /// Format the provided number according to this configuration and dynamic
    /// parameters.
    ///
    /// Dynamic parameters always override the formatter's parameters.
    ///
    /// Fails if the zero flag does not fit the alignment, or if the number has no
    /// representation in the requested base.
    pub fn fmt_with<N: Numeric>(&self, number: N, dynamic: Dynamic) -> (r: Result<String, Error>)
        ensures
            text_result(r) == self.fmt_spec(&number, dynamic),
            r == Err::<String, Error>(Error::IncompatibleAlignment) <==> !self.compatible(),
            r is Ok <==> self.compatible() && source(&number, self.base) is Some,
    {
        if self.zero && !(self.align == Align::Right || self.align == Align::Decimal) {
            return Err(Error::IncompatibleAlignment);
        }
        let negative = number.is_negative();
        let digits = match self.base {
            Base::Binary => match number.binary() {
                Some(integer) => Digits { integer, fraction: None, negative },
                None => {
                    return Err(Error::UnsupportedBase(self.base));
                },
            },
            Base::Octal => match number.octal() {
                Some(integer) => Digits { integer, fraction: None, negative },
                None => {
                    return Err(Error::UnsupportedBase(self.base));
                },
            },
            Base::Decimal => {
                let (integer, fraction) = number.decimal();
                Digits { integer, fraction, negative }
            },
            Base::LowerHex | Base::UpperHex => match number.hex() {
                Some(integer) => Digits { integer, fraction: None, negative },
                None => {
                    return Err(Error::UnsupportedBase(self.base));
                },
            },
        };
        assert(Some(digits@) == source(&number, self.base));
        self.render(&digits, dynamic)
    }

    /// Render digits according to this configuration and dynamic parameters.
    ///
    /// `digits` holds the digits of the number in this formatter's base. A fraction is
    /// shown in base `Decimal` only, and only there is a negative number shown as such.
    ///
    /// Fails if the zero flag is set together with an alignment other than `Align::Right`
    /// or `Align::Decimal`.
    pub fn render(&self, digits: &Digits, dynamic: Dynamic) -> (r: Result<String, Error>)
        ensures
            text_result(r) == self.render_spec(digits@, dynamic),
            r is Ok <==> self.compatible(),
            r is Err ==> r == Err::<String, Error>(Error::IncompatibleAlignment),
    {
        if self.zero && !(self.align == Align::Right || self.align == Align::Decimal) {
            Err(Error::IncompatibleAlignment)
        } else {
            Ok(self.lay_out(digits, dynamic))
        }
    }

    /// Lays the digits out, whether or not the zero flag fits the alignment.
    fn lay_out(&self, digits: &Digits, dynamic: Dynamic) -> (out: String)
        ensures
            out@ == self.parts(digits@, dynamic).text(),
    {
        let decimal = self.base == Base::Decimal;
        let sign = sign_chars(self.sign, digits.negative && decimal);
        let prefix = prefix_chars(self.hash, self.base);
        let fraction = if decimal {
            fraction_chars(self.decimal_separator(), &digits.fraction, self.precision_with(dynamic))
        } else {
            Vec::new()
        };
        let pad = if self.zero {
            '0'
        } else {
            self.fill()
        };
        let counted: usize = if sign.len() > 0 && (self.zero || pad != '0') {
            1
        } else {
            0
        };
        let room = self.width_with(dynamic).saturating_sub(prefix.len());
        let beside = if self.align == Align::Decimal {
            0
        } else {
            fraction.len()
        };
        let grouping = match self.separator {
            Some(separator) => Some((separator, self.spacing_with(dynamic))),
            None => None,
        };
        let integer = integer_chars(
            &digits.integer,
            self.base,
            grouping,
            self.zero,
            room.saturating_sub(counted).saturating_sub(beside),
        );
        let (front, rear) = if self.zero {
            (0, 0)
        } else {
            pad_amounts(
                self.align,
                if room > 1 {
                    room
                } else {
                    1
                },
                integer.len(),
                fraction.len(),
            )
        };
        let front = front.saturating_sub(counted);
        let out = assemble(&sign, &prefix, &integer, &fraction, pad, front, rear);
        proof {
            let parts = self.parts(digits@, dynamic);
            assert(parts.sign == sign@);
            assert(parts.prefix == prefix@);
            assert(parts.fraction == fraction@);
            assert(parts.pad == pad);
            assert(parts.integer == integer@);
            assert(parts.rear == rear);
            assert(parts.front == front);
        }
        out
    }

    /// `char` used to pad the extra space when the rendered number is smaller than the
    /// `width`.
    #[inline]
    pub fn fill(&self) -> (r: char)
        ensures
            r == match self.fill {
                Some(c) => c,
                None => ' ',
            },
    {
        match self.fill {
            Some(c) => c,
            None => ' ',
        }
    }

    /// Desired alignment.
    #[inline]
    pub fn align(&self) -> (r: Align)
        ensures
            r == self.align,
    {
        self.align
    }

    /// Which signs are printed with the number.
    #[inline]
    pub fn sign(&self) -> (r: Sign)
        ensures
            r == self.sign,
    {
        self.sign
    }

    /// Whether to print the base prefix before the number.
    #[inline]
    pub fn hash(&self) -> (r: bool)
        ensures
            r == self.hash,
    {
        self.hash
    }

    /// Whether the zero formatter was used.
    #[inline]
    pub fn zero(&self) -> (r: bool)
        ensures
            r == self.zero,
    {
        self.zero
    }

    /// Requested render width in characters.
    #[inline]
    pub fn width(&self) -> (r: usize)
        ensures
            r == self.width,
    {
        self.width
    }

    /// Requested post-decimal precision in digits.
    ///
    /// Precision will pad or truncate as required if set. If unset, passes through as many
    /// digits past the decimal as the underlying type naturally returns.
    #[inline]
    pub fn precision(&self) -> (r: Option<usize>)
        ensures
            r == self.precision,
    {
        self.precision
    }

    /// Requested output format.
    #[inline]
    pub fn base(&self) -> (r: Base)
        ensures
            r == self.base,
    {
        self.base
    }

    /// Requested group separator; `None` where digits are not grouped.
    #[inline]
    pub fn separator(&self) -> (r: Option<char>)
        ensures
            r == self.separator,
    {
        self.separator
    }

    /// Requested group size: 3 where none is set.
    #[inline]
    pub fn spacing(&self) -> (r: usize)
        ensures
            r == match self.spacing {
                Some(s) => s,
                None => 3,
            },
    {
        match self.spacing {
            Some(s) => s,
            None => 3,
        }
    }

    /// Requested decimal separator.
    #[inline]
    pub fn decimal_separator(&self) -> (r: char)
        ensures
            r == self.point(),
    {
        match self.decimal_separator {
            Some(c) => c,
            None => '.',
        }
    }

    fn width_with(&self, dynamic: Dynamic) -> (r: usize)
        ensures
            r == self.spec_width_with(dynamic),
    {
        match dynamic.width {
            Some(w) => w,
            None => self.width,
        }
    }

    fn precision_with(&self, dynamic: Dynamic) -> (r: Option<usize>)
        ensures
            r == self.spec_precision_with(dynamic),
    {
        match dynamic.precision {
            Some(p) => Some(p),
            None => self.precision,
        }
    }

    fn spacing_with(&self, dynamic: Dynamic) -> (r: usize)
        ensures
            r == self.spec_spacing_with(dynamic),
    {
        match dynamic.spacing {
            Some(s) => s,
            None => self.spacing(),
        }
    }
}

} // verus!
