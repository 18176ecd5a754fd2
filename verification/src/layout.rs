//! The layout of a rendered number: its parts, and how they are put together.
//!
//! Digits of the integer part are held least significant first, as a digit source yields
//! them; digits of the fraction are held nearest to the decimal point first.
use crate::align::Align;
use crate::base::Base;
use crate::group::grouped;
use crate::sign::Sign;
use crate::text::ascii_upper;
use vstd::prelude::*;

verus! {

/// `a - b` where that is positive, else zero.
pub open spec fn sat_sub(a: int, b: int) -> int {
    if a > b {
        a - b
    } else {
        0
    }
}

/// `n` copies of `c`; nothing if `n` is not positive.
pub open spec fn repeated(c: char, n: int) -> Seq<char> {
    Seq::new(sat_sub(n, 0) as nat, |i: int| c)
}

/// The sign sigil: `-` for a negative number, `+` for another one if `sign` asks for it.
pub open spec fn sign_text(sign: Sign, negative: bool) -> Seq<char> {
    if negative {
        seq!['-']
    } else if sign is PlusAndMinus {
        seq!['+']
    } else {
        seq![]
    }
}

/// The base prefix that the `#` flag asks for.
pub open spec fn prefix_text(hash: bool, base: Base) -> Seq<char> {
    if !hash {
        seq![]
    } else {
        match base {
            Base::Binary => seq!['0', 'b'],
            Base::Octal => seq!['0', 'o'],
            Base::Decimal => seq!['0', 'd'],
            Base::LowerHex => seq!['0', 'x'],
            Base::UpperHex => seq!['0', 'x'],
        }
    }
}

/// The digits after the decimal point: those of the number, cut or filled up with `'0'`
/// to `precision` digits where a precision is set. Without a fraction and without a
/// precision there are none, and no decimal point either.
pub open spec fn fraction_digits(fraction: Option<Seq<char>>, precision: Option<usize>) -> Option<
    Seq<char>,
> {
    match (fraction, precision) {
        (Some(digits), None) => Some(digits),
        (Some(digits), Some(p)) => Some(
            if digits.len() >= p {
                digits.take(p as int)
            } else {
                digits + repeated('0', p - digits.len())
            },
        ),
        (None, Some(p)) => Some(repeated('0', p as int)),
        (None, None) => None,
    }
}

/// The decimal point and the digits after it.
pub open spec fn fraction_text(point: char, digits: Option<Seq<char>>) -> Seq<char> {
    match digits {
        Some(d) => seq![point] + d,
        None => seq![],
    }
}

/// The digits of the integer part as they are shown: in upper case for `UpperHex`, and a
/// single `'0'` where the source gave no digit at all.
pub open spec fn integer_digits(integer: Seq<char>, base: Base) -> Seq<char> {
    if integer.len() == 0 {
        seq!['0']
    } else if base is UpperHex {
        integer.map_values(|c: char| ascii_upper(c))
    } else {
        integer
    }
}

/// `digits` with the group separator put in, if there is one.
pub open spec fn group(digits: Seq<char>, grouping: Option<(char, nat)>) -> Seq<char> {
    match grouping {
        Some((separator, size)) => grouped(digits, separator, size),
        None => digits,
    }
}

/// The integer part with its separators, least significant first.
///
/// Without the zero flag these are the grouped digits. With it, the digits are first
/// filled up with `'0'` to `columns` digits, then grouped, and then cut back to `columns`
/// characters, since the separators made them longer. The cut never reaches the digits of
/// the number itself.
pub open spec fn integer_part(
    digits: Seq<char>,
    grouping: Option<(char, nat)>,
    zero: bool,
    columns: int,
) -> Seq<char> {
    let natural = group(digits, grouping);
    if zero && columns > digits.len() {
        let keep = if natural.len() > columns {
            natural.len() as int
        } else {
            columns
        };
        group(digits + repeated('0', columns - digits.len()), grouping).take(keep)
    } else {
        natural
    }
}

/// How many fill characters go before and behind a number of `used` characters, `anchor`
/// of them before the decimal point, to bring it to `width`: `(front, rear)`.
///
/// Centering puts the odd character in front. Alignment at the decimal point fills the
/// columns before the point only, whatever the length of the fraction.
pub open spec fn padding(align: Align, width: int, used: int, anchor: int) -> (int, int) {
    let unused = sat_sub(width, used);
    match align {
        Align::Right => (unused, 0),
        Align::Left => (0, unused),
        Align::Center => (unused - unused / 2, unused / 2),
        Align::Decimal => (sat_sub(width, anchor), 0),
    }
}

/// The digits of one number in one base, as a digit source gives them.
pub struct DigitSeqs {
    /// Digits of the integer part, least significant first.
    pub integer: Seq<char>,
    /// Digits of the fraction, nearest to the decimal point first; `None` for a number
    /// without a fraction.
    pub fraction: Option<Seq<char>>,
    /// Whether the number is less than zero.
    pub negative: bool,
}

/// The parts of a rendered number.
pub struct Parts {
    /// The sign sigil, if any.
    pub sign: Seq<char>,
    /// The base prefix, if any.
    pub prefix: Seq<char>,
    /// The integer part with its separators, least significant first.
    pub integer: Seq<char>,
    /// The decimal point and the fraction, if any.
    pub fraction: Seq<char>,
    /// The fill character.
    pub pad: char,
    /// The number of fill characters before the number.
    pub front: int,
    /// The number of fill characters behind the number.
    pub rear: int,
}

impl Parts {
    /// The digits, separators and decimal point, most significant first.
    pub open spec fn body(self) -> Seq<char> {
        self.integer.reverse() + self.fraction
    }

    /// The number without any fill character.
    pub open spec fn content(self) -> Seq<char> {
        self.sign + self.prefix + self.body()
    }

    /// The rendered text. Fill characters stand before the sign, unless they are `'0'`:
    /// zeros stand between the prefix and the digits.
    pub open spec fn text(self) -> Seq<char> {
        if self.pad == '0' {
            self.sign + self.prefix + repeated(self.pad, self.front) + self.body() + repeated(
                self.pad,
                self.rear,
            )
        } else {
            repeated(self.pad, self.front) + self.sign + self.prefix + self.body() + repeated(
                self.pad,
                self.rear,
            )
        }
    }
}

} // verus!
