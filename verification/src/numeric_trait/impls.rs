//! Helpers which ease the implementation of [`Numeric`][crate::Numeric] for a type: the
//! digits of an unsigned integer in each base, and those of a decimal numeral.
use crate::base::Base;
use crate::numeric_trait::{all_digits_of, is_digit_of};
use crate::text::chars_of;
use vstd::prelude::*;

verus! {

/// The character for the digit `d`, in lower case: `0` to `9`, then `a` to `f`.
pub open spec fn digit_char(d: nat) -> char {
    if d < 10 {
        (48 + d) as char
    } else {
        (87 + d) as char
    }
}

/// The digits of `n` in base `radix`, least significant first. Zero has no digit.
pub open spec fn digits_lsb(n: nat, radix: nat) -> Seq<char>
    decreases n,
    via digits_lsb_decreases
{
    if n == 0 || radix < 2 {
        seq![]
    } else {
        seq![digit_char(n % radix)] + digits_lsb(n / radix, radix)
    }
}

#[via_fn]
proof fn digits_lsb_decreases(n: nat, radix: nat) {
    if n != 0 && radix >= 2 {
        assert(n / radix < n) by (nonlinear_arith)
            requires
                n > 0,
                radix >= 2,
        ;
    }
}

/// The number that `base` counts in.
pub open spec fn radix_of(base: Base) -> nat {
    match base {
        Base::Binary => 2,
        Base::Octal => 8,
        Base::Decimal => 10,
        Base::LowerHex => 16,
        Base::UpperHex => 16,
    }
}

/// Every digit of a number in base `base` is a digit of that base.
pub proof fn lemma_digits_lsb_legal(n: nat, base: Base)
    requires
        !(base is UpperHex),
    ensures
        all_digits_of(digits_lsb(n, radix_of(base)), base),
    decreases n,
{
    let radix = radix_of(base);
    if n != 0 {
        lemma_digits_lsb_legal(n / radix, base);
        let rest = digits_lsb(n / radix, radix);
        let all = digits_lsb(n, radix);
        assert(is_digit_of(digit_char(n % radix), base));
        assert forall|i: int| 0 <= i < all.len() implies is_digit_of(#[trigger] all[i], base) by {
            if i > 0 {
                assert(all[i] == rest[i - 1]);
            }
        }
    }
}

/// The digit that the character `c` stands for.
pub open spec fn digit_value(c: char) -> nat {
    if '0' <= c && c <= '9' {
        (c as int - 48) as nat
    } else if 'a' <= c && c <= 'f' {
        (c as int - 87) as nat
    } else {
        0
    }
}

/// The number that `digits` write in base `radix`, least significant digit first.
pub open spec fn value_lsb(digits: Seq<char>, radix: nat) -> nat
    decreases digits.len(),
{
    if digits.len() == 0 {
        0
    } else {
        digit_value(digits[0]) + radix * value_lsb(digits.skip(1), radix)
    }
}

/// The digits of a number write that number, and the most significant of them is not
/// `0`.
pub proof fn lemma_digits_lsb_value(n: nat, radix: nat)
    requires
        2 <= radix <= 16,
    ensures
        value_lsb(digits_lsb(n, radix), radix) == n,
        n > 0 ==> digits_lsb(n, radix).len() > 0 && digits_lsb(n, radix).last() != '0',
    decreases n,
{
    if n != 0 {
        let digits = digits_lsb(n, radix);
        let rest = digits_lsb(n / radix, radix);
        lemma_digits_lsb_value(n / radix, radix);
        assert(digits.skip(1) == rest);
        assert(digits[0] == digit_char(n % radix));
        assert(digit_value(digit_char(n % radix)) == n % radix);
        assert(n == n % radix + radix * (n / radix)) by (nonlinear_arith)
            requires
                radix > 0,
        ;
        if n / radix == 0 {
            assert(digits.last() == digits[0]);
            assert(n % radix == n);
        } else {
            assert(digits.last() == rest.last());
        }
    }
}

/// The character for the digit `d`.
fn digit_of(d: u8) -> (c: char)
    requires
        d < 16,
    ensures
        c == digit_char(d as nat),
{
    if d < 10 {
        (d + 48) as char
    } else {
        (d + 87) as char
    }
}

/// Takes the least significant digit of `value` in base `radix` off it.
fn next_digit(value: &mut u128, radix: u8) -> (r: Option<char>)
    requires
        2 <= radix <= 16,
    ensures
        match r {
            Some(c) => digits_lsb(*old(value) as nat, radix as nat).len() > 0 && c == digits_lsb(
                *old(value) as nat,
                radix as nat,
            )[0] && digits_lsb(*final(value) as nat, radix as nat) == digits_lsb(
                *old(value) as nat,
                radix as nat,
            ).skip(1),
            None => digits_lsb(*old(value) as nat, radix as nat).len() == 0 && *final(value)
                == *old(value),
        },
        *final(value) <= *old(value),
        r is Some ==> *final(value) < *old(value),
{
    if *value == 0 {
        return None;
    }
    let digit = (*value % (radix as u128)) as u8;
    let ghost all = digits_lsb(*value as nat, radix as nat);
    let ghost rest = digits_lsb((*value / (radix as u128)) as nat, radix as nat);
    assert(all == seq![digit_char(digit as nat)] + rest);
    assert(all.skip(1) == rest);
    *value = *value / (radix as u128);
    Some(digit_of(digit))
}

/// All digits of `value` in base `radix`, least significant first.
fn all_digits(value: u128, radix: u8) -> (out: Vec<char>)
    requires
        2 <= radix <= 16,
    ensures
        out@ == digits_lsb(value as nat, radix as nat),
{
    let mut out: Vec<char> = Vec::new();
    let mut rest = value;
    let ghost all = digits_lsb(value as nat, radix as nat);
    loop
        invariant
            2 <= radix <= 16,
            all == digits_lsb(value as nat, radix as nat),
            all == out@ + digits_lsb(rest as nat, radix as nat),
        decreases rest,
    {
        let ghost before = digits_lsb(rest as nat, radix as nat);
        match next_digit(&mut rest, radix) {
            Some(c) => {
                out.push(c);
                assert(before == seq![c] + before.skip(1));
            },
            None => {
                assert(all == out@);
                return out;
            },
        }
    }
}

/// Iterator over the binary digits of a number, least significant first.
pub struct BinIter(u128);

impl BinIter {
    /// The digits that are still to come.
    pub closed spec fn view(&self) -> Seq<char> {
        digits_lsb(self.0 as nat, 2)
    }

    /// Create a new digit iterator for this value.
    pub fn new(n: u128) -> (r: Self)
        ensures
            r@ == digits_lsb(n as nat, 2),
    {
        BinIter(n)
    }

    /// The next digit, if there is one.
    pub fn next(&mut self) -> (r: Option<char>)
        ensures
            match r {
                Some(c) => old(self)@.len() > 0 && c == old(self)@[0] && final(self)@ == old(
                    self,
                )@.skip(1),
                None => old(self)@.len() == 0 && final(self)@ == old(self)@,
            },
    {
        next_digit(&mut self.0, 2)
    }

    /// All digits that are still to come.
    pub fn into_vec(self) -> (out: Vec<char>)
        ensures
            out@ == self@,
    {
        all_digits(self.0, 2)
    }
}

/// Iterator over the octal digits of a number, least significant first.
pub struct OctIter(u128);

impl OctIter {
    /// The digits that are still to come.
    pub closed spec fn view(&self) -> Seq<char> {
        digits_lsb(self.0 as nat, 8)
    }

    /// Create a new digit iterator for this value.
    pub fn new(n: u128) -> (r: Self)
        ensures
            r@ == digits_lsb(n as nat, 8),
    {
        OctIter(n)
    }

    /// The next digit, if there is one.
    pub fn next(&mut self) -> (r: Option<char>)
        ensures
            match r {
                Some(c) => old(self)@.len() > 0 && c == old(self)@[0] && final(self)@ == old(
                    self,
                )@.skip(1),
                None => old(self)@.len() == 0 && final(self)@ == old(self)@,
            },
    {
        next_digit(&mut self.0, 8)
    }

    /// All digits that are still to come.
    pub fn into_vec(self) -> (out: Vec<char>)
        ensures
            out@ == self@,
    {
        all_digits(self.0, 8)
    }
}

/// Iterator over the hexadecimal digits of a number, least significant first, with
/// letters in lower case.
pub struct HexIter(u128);

impl HexIter {
    /// The digits that are still to come.
    pub closed spec fn view(&self) -> Seq<char> {
        digits_lsb(self.0 as nat, 16)
    }

    /// Create a new digit iterator for this value.
    pub fn new(n: u128) -> (r: Self)
        ensures
            r@ == digits_lsb(n as nat, 16),
    {
        HexIter(n)
    }

    /// The next digit, if there is one.
    pub fn next(&mut self) -> (r: Option<char>)
        ensures
            match r {
                Some(c) => old(self)@.len() > 0 && c == old(self)@[0] && final(self)@ == old(
                    self,
                )@.skip(1),
                None => old(self)@.len() == 0 && final(self)@ == old(self)@,
            },
    {
        next_digit(&mut self.0, 16)
    }

    /// All digits that are still to come.
    pub fn into_vec(self) -> (out: Vec<char>)
        ensures
            out@ == self@,
    {
        all_digits(self.0, 16)
    }
}

/// The place of the first `.` in `text`; its length if it holds none.
pub open spec fn point_index(text: Seq<char>) -> int
    decreases text.len(),
{
    if text.len() == 0 || text[0] == '.' {
        0
    } else {
        1 + point_index(text.skip(1))
    }
}

/// What stands before the first `.` of `text`.
pub open spec fn before_point(text: Seq<char>) -> Seq<char> {
    text.take(point_index(text))
}

/// What stands behind the first `.` of `text`; nothing if it holds none.
pub open spec fn after_point(text: Seq<char>) -> Seq<char> {
    if point_index(text) < text.len() {
        text.skip(point_index(text) + 1)
    } else {
        seq![]
    }
}

/// The place of the first `.` lies within the text, and no `.` stands before it.
pub proof fn lemma_point_index(text: Seq<char>)
    ensures
        0 <= point_index(text) <= text.len(),
        point_index(text) < text.len() ==> text[point_index(text)] == '.',
        forall|i: int| 0 <= i < point_index(text) ==> text[i] != '.',
    decreases text.len(),
{
    if text.len() == 0 || text[0] == '.' {
    } else {
        let rest = text.skip(1);
        lemma_point_index(rest);
        assert forall|i: int| 0 <= i < point_index(text) implies text[i] != '.' by {
            if i > 0 {
                assert(text[i] == rest[i - 1]);
            }
        }
    }
}

/// Iterator over the decimal digits of a number.
///
/// The digits are taken from a decimal numeral, such as the standard formatting of a
/// number gives.
pub struct DecIter(Vec<char>);

impl DecIter {
    /// The digits that are still to come.
    pub closed spec fn view(&self) -> Seq<char> {
        self.0@.reverse()
    }

    /// Create iterators over the digits of a number left and right of the decimal point
    /// respectively.
    ///
    /// `text` is the decimal numeral of the number, which must not be negative: of a
    /// negative number, give the numeral of its magnitude.
    ///
    /// The left iterator handles digits of magnitude >= 1, from the least significant
    /// one; the right iterator handles fractional digits, from the decimal point away.
    /// There is no right iterator where nothing stands behind the decimal point, or only
    /// the digit `0`.
    pub fn new(text: &str) -> (r: (DecIter, Option<DecIter>))
        ensures
            r.0@ == before_point(text@).reverse(),
            match r.1 {
                Some(right) => right@ == after_point(text@),
                None => after_point(text@).len() == 0 || after_point(text@) == seq!['0'],
            },
            r.1 is None <==> (after_point(text@).len() == 0 || after_point(text@) == seq!['0']),
    {
        let chars = chars_of(text);
        let mut left: Vec<char> = Vec::new();
        let mut i: usize = 0;
        assert(chars@.skip(0) == chars@);
        while i < chars.len() && chars[i] != '.'
            invariant
                i <= chars.len(),
                left@ == chars@.take(i as int),
                point_index(chars@) == i + point_index(chars@.skip(i as int)),
            decreases chars.len() - i,
        {
            left.push(chars[i]);
            assert(chars@.skip(i as int).skip(1) == chars@.skip(i + 1));
            i += 1;
            assert(chars@.take(i as int) == chars@.take(i - 1).push(chars@[i - 1]));
        }
        assert(point_index(chars@) == i);
        let mut right: Vec<char> = Vec::new();
        if i < chars.len() {
            let mut j: usize = chars.len();
            while j > i + 1
                invariant
                    i < j <= chars.len(),
                    right@ == chars@.skip(j as int).reverse(),
                decreases j,
            {
                j -= 1;
                right.push(chars[j]);
                assert(chars@.skip(j as int).reverse() == chars@.skip(j + 1).reverse().push(
                    chars@[j as int],
                ));
            }
        } else {
            assert(right@ == Seq::<char>::empty().reverse());
        }
        assert(right@ == after_point(chars@).reverse());
        proof {
            let after = after_point(chars@);
            assert(after.reverse().reverse() == after);
            if right.len() == 1 {
                assert(after.len() == 1);
                assert(after[0] == right@[0]);
                if right@[0] == '0' {
                    assert(after == seq!['0']);
                }
            }
        }
        let none = right.len() == 0 || (right.len() == 1 && right[0] == '0');
        if none {
            (DecIter(left), None)
        } else {
            (DecIter(left), Some(DecIter(right)))
        }
    }

    /// The next digit, if there is one.
    pub fn next(&mut self) -> (r: Option<char>)
        ensures
            match r {
                Some(c) => old(self)@.len() > 0 && c == old(self)@[0] && final(self)@ == old(
                    self,
                )@.skip(1),
                None => old(self)@.len() == 0 && final(self)@ == old(self)@,
            },
    {
        let r = self.0.pop();
        proof {
            if r is Some {
                assert(final(self).0@.reverse() == old(self).0@.reverse().skip(1));
            }
        }
        r
    }

    /// All digits that are still to come.
    pub fn into_vec(self) -> (out: Vec<char>)
        ensures
            out@ == self@,
    {
        let mut out: Vec<char> = Vec::new();
        let n = self.0.len();
        let mut i: usize = 0;
        while i < n
            invariant
                n == self.0.len(),
                i <= n,
                out@ == self.0@.reverse().take(i as int),
            decreases n - i,
        {
            out.push(self.0[n - 1 - i]);
            i += 1;
            assert(self.0@.reverse().take(i as int) == self.0@.reverse().take(i - 1).push(
                self.0@[n - i],
            ));
        }
        assert(self.0@.reverse().take(n as int) == self.0@.reverse());
        out
    }
}

} // verus!
