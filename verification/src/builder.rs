use crate::align::Align;
use crate::base::Base;
use crate::num_fmt::NumFmt;
use crate::sign::Sign;
use vstd::prelude::*;

verus! {

/// Builder for a numeric formatter.
///
/// Its view is the formatter that `build` would give.
#[derive(Clone, Copy, PartialEq, Eq, Debug)]
pub struct Builder {
    fill: Option<char>,
    align: Align,
    sign: Sign,
    hash: bool,
    zero: bool,
    width: usize,
    precision: Option<usize>,
    format: Base,
    separator: Option<char>,
    spacing: Option<usize>,
    decimal_separator: Option<char>,
}

impl View for Builder {
    type V = NumFmt;

    closed spec fn view(&self) -> NumFmt {
        NumFmt {
            fill: self.fill,
            align: self.align,
            sign: self.sign,
            hash: self.hash,
            zero: self.zero,
            width: self.width,
            precision: self.precision,
            base: self.format,
            separator: self.separator,
            spacing: self.spacing,
            decimal_separator: self.decimal_separator,
        }
    }
}

impl Default for Builder {
    fn default() -> (r: Self)
        ensures
            r@ == NumFmt::spec_default(),
    {
        Builder {
            fill: None,
            align: Align::Right,
            sign: Sign::OnlyMinus,
            hash: false,
            zero: false,
            width: 0,
            precision: None,
            format: Base::Decimal,
            separator: None,
            spacing: None,
            decimal_separator: None,
        }
    }
}

impl Builder {
    /// Construct a new `Builder`, with every parameter at its default.
    pub fn new() -> (r: Builder)
        ensures
            r@ == NumFmt::spec_default(),
    {
        Builder::default()
    }

    /// Build a [`NumFmt`] instance, consuming this builder.
    pub fn build(self) -> (r: NumFmt)
        ensures
            r == self@,
    {
        NumFmt {
            fill: self.fill,
            align: self.align,
            sign: self.sign,
            hash: self.hash,
            zero: self.zero,
            width: self.width,
            precision: self.precision,
            base: self.format,
            separator: self.separator,
            spacing: self.spacing,
            decimal_separator: self.decimal_separator,
        }
    }

    /// When `width` is greater than the actual rendered width of the number, the excess is
    /// padded with this character.
    ///
    /// Wide characters are counted according to their quantity, not their bit width.
    #[inline]
    pub fn fill(self, param: char) -> (r: Self)
        ensures
            r@ == (NumFmt { fill: Some(param), ..self@ }),
    {
        let mut b = self;
        b.fill = Some(param);
        b
    }

    /// Set the alignment of rendering within allotted `width`. See [`Align`].
    #[inline]
    pub fn align(self, param: Align) -> (r: Self)
        ensures
            r@ == (NumFmt { align: param, ..self@ }),
    {
        let mut b = self;
        b.align = param;
        b
    }

    /// Set the rendering of the sign. See [`Sign`].
    #[inline]
    pub fn sign(self, param: Sign) -> (r: Self)
        ensures
            r@ == (NumFmt { sign: param, ..self@ }),
    {
        let mut b = self;
        b.sign = param;
        b
    }

    /// If `set`, print the prefix of the base before the number, according to its format.
    ///
    /// - binary: `0b`
    /// - octal: `0o`
    /// - decimal: `0d`
    /// - hex: `0x`
    ///
    /// Corresponds to the `#` format specifier.
    #[inline]
    pub fn hash(self, set: bool) -> (r: Self)
        ensures
            r@ == (NumFmt { hash: set, ..self@ }),
    {
        let mut b = self;
        b.hash = set;
        b
    }

    /// If `set`, engage the zero handler.
    ///
    /// The zero handler overrides the fill character with `0`, and treats pad
    /// characters as part of the number, in contrast to the default behavior which treats
    /// them as arbitrary spacing. Clearing it clears the fill character too.
    ///
    /// Only valid with `Align::Right` and `Align::Decimal`.
    #[inline]
    pub fn zero(self, set: bool) -> (r: Self)
        ensures
            r@ == (NumFmt {
                zero: set,
                fill: if set {
                    Some('0')
                } else {
                    None
                },
                ..self@
            }),
    {
        let mut b = self;
        if set {
            b.fill = Some('0');
            b.zero = true;
        } else {
            b.fill = None;
            b.zero = false;
        }
        b
    }

    /// Set the `width` parameter.
    ///
    /// This is a parameter for the "minimum width" that the format should take up. If the
    /// value's string does not fill up this many characters, then the padding specified by
    /// fill/alignment will be used to take up the required space (see [`Builder::fill`]).
    #[inline]
    pub fn width(self, param: usize) -> (r: Self)
        ensures
            r@ == (NumFmt { width: param, ..self@ }),
    {
        let mut b = self;
        b.width = param;
        b
    }

    /// Set the `precision` parameter.
    ///
    /// How many digits after the decimal point are printed. Note that integers can be
    /// forced to emit decimal places with this modifier.
    ///
    /// Precision will pad or truncate as required if set. If unset, passes through as many
    /// digits past the decimal as the underlying type naturally returns. If the requested
    /// precision exceeds the native precision available to this number, the remainder is
    /// always filled with `'0'`, even if `fill` is specified.
    #[inline]
    pub fn precision(self, param: Option<usize>) -> (r: Self)
        ensures
            r@ == (NumFmt { precision: param, ..self@ }),
    {
        let mut b = self;
        b.precision = param;
        b
    }

    /// Set the output format.
    ///
    /// See [`Base`].
    #[inline]
    pub fn base(self, param: Base) -> (r: Self)
        ensures
            r@ == (NumFmt { base: param, ..self@ }),
    {
        let mut b = self;
        b.format = param;
        b
    }

    /// Set the separator.
    ///
    /// A separator is a (typically non-numeric) character inserted between groups of
    /// digits to make it easier for humans to parse the number when reading. Different
    /// separators may be desirable in different contexts. Without one, digits are not
    /// grouped.
    #[inline]
    pub fn separator(self, param: Option<char>) -> (r: Self)
        ensures
            r@ == (NumFmt { separator: param, ..self@ }),
    {
        let mut b = self;
        b.separator = param;
        b
    }

    /// Set the spacing.
    ///
    /// Spacing determines the number of characters in each character group. It is only of
    /// interest when the separator is set. The default spacing is 3.
    #[inline]
    pub fn spacing(self, param: usize) -> (r: Self)
        ensures
            r@ == (NumFmt { spacing: Some(param), ..self@ }),
    {
        let mut b = self;
        b.spacing = Some(param);
        b
    }

    /// Set the decimal separator.
    ///
    /// This can be desirable to i.e. support German number formats, which use a `.` to
    /// separate numeric groups and a `,` as a decimal separator.
    #[inline]
    pub fn decimal_separator(self, param: char) -> (r: Self)
        ensures
            r@ == (NumFmt { decimal_separator: Some(param), ..self@ }),
    {
        let mut b = self;
        b.decimal_separator = Some(param);
        b
    }
}

impl From<NumFmt> for Builder {
    fn from(fmt: NumFmt) -> (r: Self)
        ensures
            r@ == fmt,
    {
        Builder {
            fill: fmt.fill,
            align: fmt.align,
            sign: fmt.sign,
            hash: fmt.hash,
            zero: fmt.zero,
            width: fmt.width,
            precision: fmt.precision,
            format: fmt.base,
            separator: fmt.separator,
            spacing: fmt.spacing,
            decimal_separator: fmt.decimal_separator,
        }
    }
}

impl vstd::std_specs::convert::FromSpecImpl<NumFmt> for Builder {
    open spec fn obeys_from_spec() -> bool {
        true
    }

    closed spec fn from_spec(fmt: NumFmt) -> Builder {
        Builder {
            fill: fmt.fill,
            align: fmt.align,
            sign: fmt.sign,
            hash: fmt.hash,
            zero: fmt.zero,
            width: fmt.width,
            precision: fmt.precision,
            format: fmt.base,
            separator: fmt.separator,
            spacing: fmt.spacing,
            decimal_separator: fmt.decimal_separator,
        }
    }
}

} // verus!
