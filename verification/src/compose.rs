//! Building the parts of a rendered number.
use crate::align::Align;
use crate::base::Base;
use crate::group::{lemma_grouped_len_ge, lemma_grouped_prefix, separate};
use crate::layout::{
    fraction_digits, fraction_text, group, integer_digits, integer_part, padding, prefix_text,
    repeated, sign_text, DigitSeqs, Parts,
};
use crate::sign::Sign;
use vstd::prelude::*;

verus! {

/// The digits of one number in one base, as a digit source gives them.
///
/// Hexadecimal digits are in lower case, also for `Base::UpperHex`: the formatter changes
/// the case.
#[derive(Clone, PartialEq, Eq, Debug)]
pub struct Digits {
    /// Digits of the integer part, least significant first. May be empty for zero.
    pub integer: Vec<char>,
    /// Digits of the fraction, nearest to the decimal point first; `None` for a number
    /// without a fraction.
    pub fraction: Option<Vec<char>>,
    /// Whether the number is less than zero.
    pub negative: bool,
}

/// The characters of an optional vector.
pub open spec fn opt_seq(v: Option<Vec<char>>) -> Option<Seq<char>> {
    match v {
        Some(v) => Some(v@),
        None => None,
    }
}

impl View for Digits {
    type V = DigitSeqs;

    open spec fn view(&self) -> DigitSeqs {
        DigitSeqs {
            integer: self.integer@,
            fraction: opt_seq(self.fraction),
            negative: self.negative,
        }
    }
}

/// Appends `n` copies of `c` to `out`.
pub(crate) fn push_repeated(out: &mut String, c: char, n: usize)
    ensures
        final(out)@ == old(out)@ + repeated(c, n as int),
{
    let mut i: usize = 0;
    assert(old(out)@ + repeated(c, 0) == old(out)@);
    while i < n
        invariant
            i <= n,
            out@ == old(out)@ + repeated(c, i as int),
        decreases n - i,
    {
        out.push(c);
        i += 1;
        assert(repeated(c, i as int) == repeated(c, i - 1).push(c));
        assert(old(out)@ + repeated(c, i - 1).push(c) == (old(out)@ + repeated(c, i - 1)).push(c));
    }
}

/// Appends the characters of `chars` to `out`.
pub(crate) fn push_all(out: &mut String, chars: &Vec<char>)
    ensures
        final(out)@ == old(out)@ + chars@,
{
    let mut i: usize = 0;
    assert(old(out)@ + chars@.take(0) == old(out)@);
    while i < chars.len()
        invariant
            i <= chars.len(),
            out@ == old(out)@ + chars@.take(i as int),
        decreases chars.len() - i,
    {
        out.push(chars[i]);
        i += 1;
        assert(chars@.take(i as int) == chars@.take(i - 1).push(chars@[i - 1]));
        assert(old(out)@ + chars@.take(i - 1).push(chars@[i - 1]) == (old(out)@ + chars@.take(
            i - 1,
        )).push(chars@[i - 1]));
    }
    assert(chars@.take(chars.len() as int) == chars@);
}

/// Appends the characters of `chars` to `out`, last one first.
pub(crate) fn push_reversed(out: &mut String, chars: &Vec<char>)
    ensures
        final(out)@ == old(out)@ + chars@.reverse(),
{
    let n = chars.len();
    let mut i: usize = 0;
    assert(old(out)@ + chars@.reverse().take(0) == old(out)@);
    while i < n
        invariant
            n == chars.len(),
            i <= n,
            out@ == old(out)@ + chars@.reverse().take(i as int),
        decreases n - i,
    {
        out.push(chars[n - 1 - i]);
        i += 1;
        assert(chars@.reverse().take(i as int) == chars@.reverse().take(i - 1).push(
            chars@[n - i],
        ));
        assert(old(out)@ + chars@.reverse().take(i - 1).push(chars@[n - i]) == (old(out)@
            + chars@.reverse().take(i - 1)).push(chars@[n - i]));
    }
    assert(chars@.reverse().take(n as int) == chars@.reverse());
}

/// Appends `n` copies of `c` to `out`.
fn extend_repeated(out: &mut Vec<char>, c: char, n: usize)
    ensures
        final(out)@ == old(out)@ + repeated(c, n as int),
{
    let mut i: usize = 0;
    assert(old(out)@ + repeated(c, 0) == old(out)@);
    while i < n
        invariant
            i <= n,
            out@ == old(out)@ + repeated(c, i as int),
        decreases n - i,
    {
        out.push(c);
        i += 1;
        assert(repeated(c, i as int) == repeated(c, i - 1).push(c));
        assert(old(out)@ + repeated(c, i - 1).push(c) == (old(out)@ + repeated(c, i - 1)).push(c));
    }
}

/// The sign sigil as text.
pub(crate) fn sign_chars(sign: Sign, negative: bool) -> (out: Vec<char>)
    ensures
        out@ == sign_text(sign, negative),
{
    let mut out: Vec<char> = Vec::new();
    if negative {
        out.push('-');
    } else {
        match sign {
            Sign::PlusAndMinus => {
                out.push('+');
            },
            Sign::OnlyMinus => {},
        }
    }
    out
}

/// The base prefix as text.
pub(crate) fn prefix_chars(hash: bool, base: Base) -> (out: Vec<char>)
    ensures
        out@ == prefix_text(hash, base),
{
    let mut out: Vec<char> = Vec::new();
    if hash {
        out.push('0');
        out.push(
            match base {
                Base::Binary => 'b',
                Base::Octal => 'o',
                Base::Decimal => 'd',
                Base::LowerHex => 'x',
                Base::UpperHex => 'x',
            },
        );
    }
    out
}

/// The decimal point and the digits after it.
pub(crate) fn fraction_chars(
    point: char,
    fraction: &Option<Vec<char>>,
    precision: Option<usize>,
) -> (out: Vec<char>)
    ensures
        out@ == fraction_text(point, fraction_digits(opt_seq(*fraction), precision)),
{
    let mut out: Vec<char> = Vec::new();
    match fraction {
        Some(digits) => {
            out.push(point);
            let shown: usize = match precision {
                Some(p) => if p < digits.len() {
                    p
                } else {
                    digits.len()
                },
                None => digits.len(),
            };
            let mut i: usize = 0;
            while i < shown
                invariant
                    i <= shown <= digits.len(),
                    out@ == seq![point] + digits@.take(i as int),
                decreases shown - i,
            {
                out.push(digits[i]);
                i += 1;
                assert(digits@.take(i as int) == digits@.take(i - 1).push(digits@[i - 1]));
            }
            match precision {
                Some(p) => {
                    if p > digits.len() {
                        extend_repeated(&mut out, '0', p - digits.len());
                        assert(digits@.take(digits.len() as int) == digits@);
                        assert(out@ == seq![point] + (digits@ + repeated('0', p - digits.len())));
                    }
                },
                None => {
                    assert(digits@.take(digits.len() as int) == digits@);
                },
            }
        },
        None => {
            match precision {
                Some(p) => {
                    out.push(point);
                    extend_repeated(&mut out, '0', p);
                },
                None => {},
            }
        },
    }
    out
}

/// The digits of the integer part as they are shown.
fn shown_digits(integer: &Vec<char>, base: Base) -> (out: Vec<char>)
    ensures
        out@ == integer_digits(integer@, base),
{
    let mut out: Vec<char> = Vec::new();
    if integer.len() == 0 {
        out.push('0');
        return out;
    }
    let upper = match base {
        Base::UpperHex => true,
        _ => false,
    };
    let mut i: usize = 0;
    while i < integer.len()
        invariant
            i <= integer.len(),
            upper <==> base is UpperHex,
            out@ == integer_digits(integer@, base).take(i as int),
            integer.len() > 0,
        decreases integer.len() - i,
    {
        let c = integer[i];
        if upper {
            out.push(c.to_ascii_uppercase());
        } else {
            out.push(c);
        }
        i += 1;
        assert(integer_digits(integer@, base).take(i as int) == integer_digits(integer@, base).take(
            i - 1,
        ).push(integer_digits(integer@, base)[i - 1]));
    }
    assert(integer_digits(integer@, base).take(integer.len() as int) == integer_digits(
        integer@,
        base,
    ));
    out
}

/// Separator and group size as the layout knows them.
pub open spec fn grouping_view(grouping: Option<(char, usize)>) -> Option<(char, nat)> {
    match grouping {
        Some((separator, size)) => Some((separator, size as nat)),
        None => None,
    }
}

/// `digits` with the group separator put in, if there is one.
fn group_digits(digits: Vec<char>, grouping: Option<(char, usize)>) -> (out: Vec<char>)
    ensures
        out@ == group(digits@, grouping_view(grouping)),
{
    match grouping {
        Some((separator, size)) => {
            if size > 0 {
                separate(digits, separator, size)
            } else {
                digits
            }
        },
        None => digits,
    }
}

/// A copy of `chars`.
fn copy_of(chars: &Vec<char>) -> (out: Vec<char>)
    ensures
        out@ == chars@,
{
    let mut out: Vec<char> = Vec::new();
    let mut i: usize = 0;
    while i < chars.len()
        invariant
            i <= chars.len(),
            out@ == chars@.take(i as int),
        decreases chars.len() - i,
    {
        out.push(chars[i]);
        i += 1;
        assert(chars@.take(i as int) == chars@.take(i - 1).push(chars@[i - 1]));
    }
    assert(chars@.take(chars.len() as int) == chars@);
    out
}

/// The integer part with its separators, least significant first.
pub(crate) fn integer_chars(
    integer: &Vec<char>,
    base: Base,
    grouping: Option<(char, usize)>,
    zero: bool,
    columns: usize,
) -> (out: Vec<char>)
    ensures
        out@ == integer_part(
            integer_digits(integer@, base),
            grouping_view(grouping),
            zero,
            columns as int,
        ),
{
    let digits = shown_digits(integer, base);
    if zero && columns > digits.len() {
        let mut padded = copy_of(&digits);
        extend_repeated(&mut padded, '0', columns - digits.len());
        let natural = group_digits(digits, grouping);
        let keep = if natural.len() > columns {
            natural.len()
        } else {
            columns
        };
        let mut full = group_digits(padded, grouping);
        proof {
            let d = integer_digits(integer@, base);
            let more = repeated('0', columns - d.len());
            match grouping_view(grouping) {
                Some((separator, size)) => {
                    lemma_grouped_len_ge(d + more, separator, size);
                    lemma_grouped_prefix(d, more, separator, size);
                },
                None => {},
            }
            assert(keep <= full.len());
        }
        full.truncate(keep);
        full
    } else {
        group_digits(digits, grouping)
    }
}

/// The number of fill characters before and behind the number.
pub(crate) fn pad_amounts(align: Align, width: usize, integer: usize, fraction: usize) -> (out: (
    usize,
    usize,
))
    ensures
        (out.0 as int, out.1 as int) == padding(
            align,
            width as int,
            integer + fraction,
            integer as int,
        ),
{
    let unused = width.saturating_sub(integer).saturating_sub(fraction);
    match align {
        Align::Right => (unused, 0),
        Align::Left => (0, unused),
        Align::Center => (unused - unused / 2, unused / 2),
        Align::Decimal => (width.saturating_sub(integer), 0),
    }
}

/// Puts the parts of a number together.
pub(crate) fn assemble(
    sign: &Vec<char>,
    prefix: &Vec<char>,
    integer: &Vec<char>,
    fraction: &Vec<char>,
    pad: char,
    front: usize,
    rear: usize,
) -> (out: String)
    ensures
        out@ == (Parts {
            sign: sign@,
            prefix: prefix@,
            integer: integer@,
            fraction: fraction@,
            pad,
            front: front as int,
            rear: rear as int,
        }).text(),
{
    let mut out = String::new();
    assert(out@ + sign@ == sign@);
    assert(out@ + repeated(pad, front as int) == repeated(pad, front as int));
    if pad == '0' {
        push_all(&mut out, sign);
        push_all(&mut out, prefix);
        push_repeated(&mut out, pad, front);
    } else {
        push_repeated(&mut out, pad, front);
        push_all(&mut out, sign);
        push_all(&mut out, prefix);
    }
    let ghost head = out@;
    push_reversed(&mut out, integer);
    push_all(&mut out, fraction);
    assert(out@ == head + (integer@.reverse() + fraction@));
    push_repeated(&mut out, pad, rear);
    out
}

} // verus!
