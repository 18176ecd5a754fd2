//! [`Numeric`] for numbers with a fraction, given by their decimal numeral.
use crate::base::Base;
use crate::numeric_trait::impls::{after_point, before_point, DecIter};
use crate::numeric_trait::{all_digits_of, is_digit_of, Numeric};
use vstd::prelude::*;

verus! {

/// Whether `text` is a decimal numeral: digits, with at most one `.` among them.
pub open spec fn is_numeral(text: Seq<char>) -> bool {
    all_digits_of(before_point(text), Base::Decimal) && all_digits_of(
        after_point(text),
        Base::Decimal,
    )
}

/// The fraction that a numeral shows: what stands behind its decimal point, unless that
/// is nothing or the single digit `0`.
pub open spec fn shown_fraction(text: Seq<char>) -> Option<Seq<char>> {
    let after = after_point(text);
    if after.len() == 0 || after == seq!['0'] {
        None
    } else {
        Some(after)
    }
}

/// A number that may have a fraction, such as a floating-point number, held as the
/// digits of its decimal numeral.
///
/// It has a decimal representation only.
pub struct Fractional {
    negative: bool,
    integer: Vec<char>,
    fraction: Option<Vec<char>>,
}

/// Whether every character of `digits` is a decimal digit.
fn all_decimal(digits: &Vec<char>) -> (r: bool)
    ensures
        r == all_digits_of(digits@, Base::Decimal),
{
    let mut i: usize = 0;
    while i < digits.len()
        invariant
            i <= digits.len(),
            all_digits_of(digits@.take(i as int), Base::Decimal),
        decreases digits.len() - i,
    {
        let c = digits[i];
        if !('0' <= c && c <= '9') {
            assert(!is_digit_of(digits@[i as int], Base::Decimal));
            return false;
        }
        i += 1;
        assert forall|k: int| 0 <= k < i implies is_digit_of(
            #[trigger] digits@.take(i as int)[k],
            Base::Decimal,
        ) by {
            if k < i - 1 {
                assert(digits@.take(i as int)[k] == digits@.take(i - 1)[k]);
            }
        }
    }
    assert(digits@.take(digits.len() as int) == digits@);
    true
}

impl Fractional {
    #[verifier::type_invariant]
    spec fn legal(self) -> bool {
        &&& all_digits_of(self.integer@, Base::Decimal)
        &&& self.fraction matches Some(f) ==> all_digits_of(f@, Base::Decimal)
    }

    /// The number with the decimal numeral `magnitude`, below zero if `negative`.
    ///
    /// The numeral is that of the magnitude, as the standard formatting of the absolute
    /// value of a floating-point number gives it: `"3.14"`, `"12"`, `"0.5"`.
    ///
    /// Gives `None` where `magnitude` is no decimal numeral, as for a number that is
    /// infinite or not a number.
    pub fn new(negative: bool, magnitude: &str) -> (r: Option<Fractional>)
        ensures
            r is Some <==> is_numeral(magnitude@),
            r matches Some(x) ==> x.negative() == negative && x.digits(Base::Decimal)
                == before_point(magnitude@).reverse() && x.fraction() == shown_fraction(
                magnitude@,
            ),
    {
        let (left, right) = DecIter::new(magnitude);
        let integer = left.into_vec();
        proof {
            let before = before_point(magnitude@);
            assert(all_digits_of(before, Base::Decimal) <==> all_digits_of(
                before.reverse(),
                Base::Decimal,
            )) by {
                if all_digits_of(before, Base::Decimal) {
                    assert forall|i: int| 0 <= i < before.len() implies is_digit_of(
                        #[trigger] before.reverse()[i],
                        Base::Decimal,
                    ) by {
                        assert(before.reverse()[i] == before[before.len() - 1 - i]);
                    }
                }
                if all_digits_of(before.reverse(), Base::Decimal) {
                    assert forall|i: int| 0 <= i < before.len() implies is_digit_of(
                        #[trigger] before[i],
                        Base::Decimal,
                    ) by {
                        assert(before[i] == before.reverse()[before.len() - 1 - i]);
                    }
                }
            }
        }
        if !all_decimal(&integer) {
            return None;
        }
        let fraction = match right {
            Some(right) => {
                let digits = right.into_vec();
                if !all_decimal(&digits) {
                    return None;
                }
                Some(digits)
            },
            None => None,
        };
        Some(Fractional { negative, integer, fraction })
    }
}

impl Numeric for Fractional {
    open spec fn supports(base: Base) -> bool {
        false
    }

    closed spec fn digits(&self, base: Base) -> Seq<char> {
        self.integer@
    }

    closed spec fn fraction(&self) -> Option<Seq<char>> {
        match self.fraction {
            Some(f) => Some(f@),
            None => None,
        }
    }

    closed spec fn negative(&self) -> bool {
        self.negative
    }

    fn binary(&self) -> (r: Option<Vec<char>>) {
        None
    }

    fn octal(&self) -> (r: Option<Vec<char>>) {
        None
    }

    fn decimal(&self) -> (r: (Vec<char>, Option<Vec<char>>)) {
        proof {
            use_type_invariant(self);
        }
        let integer = self.integer.clone();
        let fraction = match &self.fraction {
            Some(f) => Some(f.clone()),
            None => None,
        };
        (integer, fraction)
    }

    fn hex(&self) -> (r: Option<Vec<char>>) {
        None
    }

    fn is_negative(&self) -> (r: bool) {
        self.negative
    }
}

} // verus!
