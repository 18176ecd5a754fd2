//! Parsing a formatter from a format string.
//!
//! ```text
//! format_spec := [[fill]align][sign]['#'][['0']width]['.' precision][format][separator[spacing]]
//! fill := character
//! align := '<' | '^' | '>' | 'v'
//! sign := '+' | '-'
//! width := integer not beginning with '0'
//! precision := integer
//! format := 'b' | 'o' | 'd' | 'x' | 'X'
//! separator := '_' | ',' | ' '
//! spacing := integer
//! ```
//!
//! Every part is optional, so the empty string gives the default formatter. A fill
//! character is only read as such where the alignment follows it at once. The integers
//! are written with the digits `0` to `9`.
use crate::align::Align;
use crate::base::Base;
use crate::num_fmt::NumFmt;
use crate::sign::Sign;
use crate::text::{chars_of, string_of};
use vstd::prelude::*;

verus! {

/// Why a format string could not be parsed.
#[derive(Clone, PartialEq, Eq, Debug)]
pub enum Error {
    /// The input is no format string.
    NoMatch,
    /// The width, precision or spacing with these digits is too large a number.
    ParseInt(String),
}

/// An [`Error`] with the digits of the offending integer as a sequence.
pub enum Failure {
    /// The input is no format string.
    NoMatch,
    /// The width, precision or spacing with these digits is too large a number.
    ParseInt(Seq<char>),
}

impl View for Error {
    type V = Failure;

    open spec fn view(&self) -> Failure {
        match self {
            Error::NoMatch => Failure::NoMatch,
            Error::ParseInt(digits) => Failure::ParseInt(digits@),
        }
    }
}

/// The character at place `i` of `text`, if there is one.
pub open spec fn at(text: Seq<char>, i: int) -> Option<char> {
    if 0 <= i < text.len() {
        Some(text[i])
    } else {
        None
    }
}

/// Whether `c` is one of the digits `0` to `9`.
pub open spec fn is_digit(c: Option<char>) -> bool {
    c matches Some(c) && '0' <= c && c <= '9'
}

/// Whether `c` is one of the digits `1` to `9`.
pub open spec fn is_nonzero_digit(c: Option<char>) -> bool {
    c matches Some(c) && '1' <= c && c <= '9'
}

/// The alignment that `c` stands for.
pub open spec fn align_of(c: Option<char>) -> Option<Align> {
    if c == Some('<') {
        Some(Align::Left)
    } else if c == Some('^') {
        Some(Align::Center)
    } else if c == Some('>') {
        Some(Align::Right)
    } else if c == Some('v') {
        Some(Align::Decimal)
    } else {
        None
    }
}

/// The sign policy that `c` stands for.
pub open spec fn sign_of(c: Option<char>) -> Option<Sign> {
    if c == Some('-') {
        Some(Sign::OnlyMinus)
    } else if c == Some('+') {
        Some(Sign::PlusAndMinus)
    } else {
        None
    }
}

/// The base that `c` stands for.
pub open spec fn base_of(c: Option<char>) -> Option<Base> {
    if c == Some('b') {
        Some(Base::Binary)
    } else if c == Some('o') {
        Some(Base::Octal)
    } else if c == Some('d') {
        Some(Base::Decimal)
    } else if c == Some('x') {
        Some(Base::LowerHex)
    } else if c == Some('X') {
        Some(Base::UpperHex)
    } else {
        None
    }
}

/// Whether `c` is one of the separators that a format string can name.
pub open spec fn is_separator(c: Option<char>) -> bool {
    c == Some('_') || c == Some(',') || c == Some(' ')
}

/// Where the digits that start at place `i` of `text` end.
pub open spec fn digits_end(text: Seq<char>, i: int) -> int
    decreases text.len() - i,
{
    if is_digit(at(text, i)) {
        digits_end(text, i + 1)
    } else {
        i
    }
}

/// The parts of a format string, the integers as their digits.
pub struct Fields {
    pub fill: Option<char>,
    pub align: Option<Align>,
    pub sign: Option<Sign>,
    pub hash: bool,
    pub zero: bool,
    pub width: Option<Seq<char>>,
    pub precision: Option<Seq<char>>,
    pub base: Option<Base>,
    pub separator: Option<char>,
    pub spacing: Option<Seq<char>>,
}

/// The fill character and the alignment at the start of `text`, and where they end. A
/// fill character is only read where the alignment follows it at once.
pub open spec fn alignment_part(text: Seq<char>) -> (Option<char>, Option<Align>, int) {
    if align_of(at(text, 1)) is Some {
        (at(text, 0), align_of(at(text, 1)), 2)
    } else if align_of(at(text, 0)) is Some {
        (None, align_of(at(text, 0)), 1)
    } else {
        (None, None, 0)
    }
}

/// The sign policy at place `i` of `text`, and where it ends.
pub open spec fn sign_part(text: Seq<char>, i: int) -> (Option<Sign>, int) {
    if sign_of(at(text, i)) is Some {
        (sign_of(at(text, i)), i + 1)
    } else {
        (None, i)
    }
}

/// Whether `#` stands at place `i` of `text`, and where it ends.
pub open spec fn hash_part(text: Seq<char>, i: int) -> (bool, int) {
    if at(text, i) == Some('#') {
        (true, i + 1)
    } else {
        (false, i)
    }
}

/// The zero flag and the digits of the width at place `i` of `text`, and where they
/// end. A `0` is only read as the zero flag where a width follows it.
pub open spec fn width_part(text: Seq<char>, i: int) -> (bool, Option<Seq<char>>, int) {
    if at(text, i) == Some('0') && is_nonzero_digit(at(text, i + 1)) {
        (true, Some(text.subrange(i + 1, digits_end(text, i + 1))), digits_end(text, i + 1))
    } else if is_nonzero_digit(at(text, i)) {
        (false, Some(text.subrange(i, digits_end(text, i))), digits_end(text, i))
    } else {
        (false, None, i)
    }
}

/// The digits of the precision at place `i` of `text`, and where they end.
pub open spec fn precision_part(text: Seq<char>, i: int) -> (Option<Seq<char>>, int) {
    if at(text, i) == Some('.') && is_digit(at(text, i + 1)) {
        (Some(text.subrange(i + 1, digits_end(text, i + 1))), digits_end(text, i + 1))
    } else {
        (None, i)
    }
}

/// The base at place `i` of `text`, and where it ends.
pub open spec fn base_part(text: Seq<char>, i: int) -> (Option<Base>, int) {
    if base_of(at(text, i)) is Some {
        (base_of(at(text, i)), i + 1)
    } else {
        (None, i)
    }
}

/// The separator and the digits of the spacing at place `i` of `text`, and where they
/// end.
pub open spec fn separator_part(text: Seq<char>, i: int) -> (
    Option<char>,
    Option<Seq<char>>,
    int,
) {
    if is_separator(at(text, i)) {
        (
            at(text, i),
            if digits_end(text, i + 1) > i + 1 {
                Some(text.subrange(i + 1, digits_end(text, i + 1)))
            } else {
                None
            },
            digits_end(text, i + 1),
        )
    } else {
        (None, None, i)
    }
}

/// The parts of the format string `text`, read from left to right, each part as long as
/// it can be; `None` if `text` is no format string: if something is left behind the last
/// part.
pub open spec fn fields(text: Seq<char>) -> Option<Fields> {
    let (fill, align, a) = alignment_part(text);
    let (sign, b) = sign_part(text, a);
    let (hash, c) = hash_part(text, b);
    let (zero, width, d) = width_part(text, c);
    let (precision, e) = precision_part(text, d);
    let (base, f) = base_part(text, e);
    let (separator, spacing, g) = separator_part(text, f);
    if g == text.len() {
        Some(
            Fields { fill, align, sign, hash, zero, width, precision, base, separator, spacing },
        )
    } else {
        None
    }
}

/// The number that the decimal digits `digits` write.
pub open spec fn number(digits: Seq<char>) -> nat
    decreases digits.len(),
{
    if digits.len() == 0 {
        0
    } else {
        (number(digits.drop_last()) * 10 + (digits.last() as int - 48)) as nat
    }
}

/// The number that an integer of a format string stands for, or the error that says it
/// is too large.
pub open spec fn integer(digits: Seq<char>) -> Result<usize, Failure> {
    if number(digits) <= usize::MAX {
        Ok(number(digits) as usize)
    } else {
        Err(Failure::ParseInt(digits))
    }
}

/// The error of an optional integer, if it has one.
pub open spec fn failure_of(digits: Option<Seq<char>>) -> Option<Failure> {
    match digits {
        Some(d) => match integer(d) {
            Ok(_) => None,
            Err(e) => Some(e),
        },
        None => None,
    }
}

/// The value of an optional integer that has no error.
pub open spec fn value_of(digits: Option<Seq<char>>) -> Option<usize> {
    match digits {
        Some(d) => Some(number(d) as usize),
        None => None,
    }
}

/// The formatter that the parts of a format string describe, or the error of the first
/// integer among width, precision and spacing that is too large.
///
/// The zero flag sets the fill character to `'0'`. What the string does not name stays
/// at its default.
pub open spec fn configured(fields: Fields) -> Result<NumFmt, Failure> {
    if let Some(e) = failure_of(fields.width) {
        Err(e)
    } else if let Some(e) = failure_of(fields.precision) {
        Err(e)
    } else if let Some(e) = failure_of(fields.spacing) {
        Err(e)
    } else {
        Ok(
            NumFmt {
                fill: if fields.zero {
                    Some('0')
                } else {
                    fields.fill
                },
                align: match fields.align {
                    Some(a) => a,
                    None => Align::Right,
                },
                sign: match fields.sign {
                    Some(s) => s,
                    None => Sign::OnlyMinus,
                },
                hash: fields.hash,
                zero: fields.zero,
                width: match value_of(fields.width) {
                    Some(w) => w,
                    None => 0,
                },
                precision: value_of(fields.precision),
                base: match fields.base {
                    Some(b) => b,
                    None => Base::Decimal,
                },
                separator: fields.separator,
                spacing: value_of(fields.spacing),
                decimal_separator: None,
            },
        )
    }
}

/// A formatter or an error, the error taken by its view.
pub open spec fn parsed(r: Result<NumFmt, Error>) -> Result<NumFmt, Failure> {
    match r {
        Ok(fmt) => Ok(fmt),
        Err(e) => Err(e@),
    }
}

/// What parsing `text` gives.
pub open spec fn parse_spec(text: Seq<char>) -> Result<NumFmt, Failure> {
    match fields(text) {
        Some(f) => configured(f),
        None => Err(Failure::NoMatch),
    }
}

/// A longer run of digits writes no smaller number.
proof fn lemma_number_grows(digits: Seq<char>, k: int)
    requires
        0 <= k <= digits.len(),
        forall|i: int| 0 <= i < digits.len() ==> is_digit(Some(#[trigger] digits[i])),
    ensures
        number(digits.take(k)) <= number(digits),
    decreases digits.len() - k,
{
    if k == digits.len() {
        assert(digits.take(k) == digits);
    } else {
        let shorter = digits.drop_last();
        assert(shorter.take(k) == digits.take(k));
        lemma_number_grows(shorter, k);
        assert(is_digit(Some(digits[digits.len() - 1])));
    }
}

/// The parts of a format string, the integers as their digits.
struct Captures {
    fill: Option<char>,
    align: Option<Align>,
    sign: Option<Sign>,
    hash: bool,
    zero: bool,
    width: Option<Vec<char>>,
    precision: Option<Vec<char>>,
    base: Option<Base>,
    separator: Option<char>,
    spacing: Option<Vec<char>>,
}

/// The digits of an optional integer.
spec fn digits_of(digits: Option<Vec<char>>) -> Option<Seq<char>> {
    match digits {
        Some(d) => Some(d@),
        None => None,
    }
}

impl View for Captures {
    type V = Fields;

    closed spec fn view(&self) -> Fields {
        Fields {
            fill: self.fill,
            align: self.align,
            sign: self.sign,
            hash: self.hash,
            zero: self.zero,
            width: digits_of(self.width),
            precision: digits_of(self.precision),
            base: self.base,
            separator: self.separator,
            spacing: digits_of(self.spacing),
        }
    }
}

impl Captures {
    /// Whether the integers are written with digits alone.
    spec fn digits_only(&self) -> bool {
        digits_only(self.width) && digits_only(self.precision) && digits_only(self.spacing)
    }
}

/// The character at place `i` of `text`, if there is one.
fn peek(text: &Vec<char>, i: usize) -> (c: Option<char>)
    ensures
        c == at(text@, i as int),
{
    if i < text.len() {
        Some(text[i])
    } else {
        None
    }
}

fn align_from(c: Option<char>) -> (r: Option<Align>)
    ensures
        r == align_of(c),
{
    match c {
        Some('<') => Some(Align::Left),
        Some('^') => Some(Align::Center),
        Some('>') => Some(Align::Right),
        Some('v') => Some(Align::Decimal),
        _ => None,
    }
}

fn sign_from(c: Option<char>) -> (r: Option<Sign>)
    ensures
        r == sign_of(c),
{
    match c {
        Some('-') => Some(Sign::OnlyMinus),
        Some('+') => Some(Sign::PlusAndMinus),
        _ => None,
    }
}

fn base_from(c: Option<char>) -> (r: Option<Base>)
    ensures
        r == base_of(c),
{
    match c {
        Some('b') => Some(Base::Binary),
        Some('o') => Some(Base::Octal),
        Some('d') => Some(Base::Decimal),
        Some('x') => Some(Base::LowerHex),
        Some('X') => Some(Base::UpperHex),
        _ => None,
    }
}

fn digit_at(text: &Vec<char>, i: usize) -> (r: bool)
    ensures
        r == is_digit(at(text@, i as int)),
{
    match peek(text, i) {
        Some(c) => '0' <= c && c <= '9',
        None => false,
    }
}

fn nonzero_digit_at(text: &Vec<char>, i: usize) -> (r: bool)
    ensures
        r == is_nonzero_digit(at(text@, i as int)),
{
    match peek(text, i) {
        Some(c) => '1' <= c && c <= '9',
        None => false,
    }
}

/// Where the digits that start at place `start` of `text` end.
fn digits_run(text: &Vec<char>, start: usize) -> (end: usize)
    requires
        start <= text.len(),
    ensures
        end == digits_end(text@, start as int),
        start <= end <= text.len(),
        forall|k: int| start <= k < end ==> is_digit(Some(#[trigger] text@[k])),
{
    let mut end = start;
    while digit_at(text, end)
        invariant
            start <= end <= text.len(),
            digits_end(text@, start as int) == digits_end(text@, end as int),
            forall|k: int| start <= k < end ==> is_digit(Some(#[trigger] text@[k])),
        decreases text.len() - end,
    {
        end += 1;
    }
    end
}

/// The characters of `text` from place `from` up to place `to`.
fn slice(text: &Vec<char>, from: usize, to: usize) -> (out: Vec<char>)
    requires
        from <= to <= text.len(),
    ensures
        out@ == text@.subrange(from as int, to as int),
{
    let mut out: Vec<char> = Vec::new();
    let mut i = from;
    while i < to
        invariant
            from <= i <= to <= text.len(),
            out@ == text@.subrange(from as int, i as int),
        decreases to - i,
    {
        out.push(text[i]);
        i += 1;
        assert(text@.subrange(from as int, i as int) == text@.subrange(from as int, i - 1).push(
            text@[i - 1],
        ));
    }
    out
}

/// Whether `digits` is written with digits alone.
spec fn digits_only(digits: Option<Vec<char>>) -> bool {
    digits matches Some(d) ==> forall|i: int| 0 <= i < d@.len() ==> is_digit(Some(#[trigger] d@[i]))
}

fn scan_alignment(text: &Vec<char>) -> (r: (Option<char>, Option<Align>, usize))
    ensures
        (r.0, r.1, r.2 as int) == alignment_part(text@),
        r.2 <= text.len(),
{
    let second = align_from(peek(text, 1));
    if second.is_some() {
        (peek(text, 0), second, 2)
    } else {
        let first = align_from(peek(text, 0));
        if first.is_some() {
            (None, first, 1)
        } else {
            (None, None, 0)
        }
    }
}

fn scan_sign(text: &Vec<char>, i: usize) -> (r: (Option<Sign>, usize))
    requires
        i <= text.len(),
    ensures
        (r.0, r.1 as int) == sign_part(text@, i as int),
        r.1 <= text.len(),
{
    let sign = sign_from(peek(text, i));
    if sign.is_some() {
        (sign, i + 1)
    } else {
        (None, i)
    }
}

fn scan_hash(text: &Vec<char>, i: usize) -> (r: (bool, usize))
    requires
        i <= text.len(),
    ensures
        (r.0, r.1 as int) == hash_part(text@, i as int),
        r.1 <= text.len(),
{
    if peek(text, i) == Some('#') {
        (true, i + 1)
    } else {
        (false, i)
    }
}

fn scan_width(text: &Vec<char>, i: usize) -> (r: (bool, Option<Vec<char>>, usize))
    requires
        i <= text.len(),
    ensures
        (r.0, digits_of(r.1), r.2 as int) == width_part(text@, i as int),
        r.2 <= text.len(),
        digits_only(r.1),
{
    if peek(text, i) == Some('0') && nonzero_digit_at(text, i + 1) {
        let end = digits_run(text, i + 1);
        (true, Some(slice(text, i + 1, end)), end)
    } else if nonzero_digit_at(text, i) {
        let end = digits_run(text, i);
        (false, Some(slice(text, i, end)), end)
    } else {
        (false, None, i)
    }
}

fn scan_precision(text: &Vec<char>, i: usize) -> (r: (Option<Vec<char>>, usize))
    requires
        i <= text.len(),
    ensures
        (digits_of(r.0), r.1 as int) == precision_part(text@, i as int),
        r.1 <= text.len(),
        digits_only(r.0),
{
    if peek(text, i) == Some('.') && digit_at(text, i + 1) {
        let end = digits_run(text, i + 1);
        (Some(slice(text, i + 1, end)), end)
    } else {
        (None, i)
    }
}

fn scan_base(text: &Vec<char>, i: usize) -> (r: (Option<Base>, usize))
    requires
        i <= text.len(),
    ensures
        (r.0, r.1 as int) == base_part(text@, i as int),
        r.1 <= text.len(),
{
    let base = base_from(peek(text, i));
    if base.is_some() {
        (base, i + 1)
    } else {
        (None, i)
    }
}

fn scan_separator(text: &Vec<char>, i: usize) -> (r: (Option<char>, Option<Vec<char>>, usize))
    requires
        i <= text.len(),
    ensures
        (r.0, digits_of(r.1), r.2 as int) == separator_part(text@, i as int),
        r.2 <= text.len(),
        digits_only(r.1),
{
    let c = peek(text, i);
    if c == Some('_') || c == Some(',') || c == Some(' ') {
        let end = digits_run(text, i + 1);
        let spacing = if end > i + 1 {
            Some(slice(text, i + 1, end))
        } else {
            None
        };
        (c, spacing, end)
    } else {
        (None, None, i)
    }
}

/// The parts of the format string `text`.
fn scan(text: &Vec<char>) -> (r: Option<Captures>)
    ensures
        match r {
            Some(c) => fields(text@) == Some(c@) && c.digits_only(),
            None => fields(text@) is None,
        },
{
    let (fill, align, a) = scan_alignment(text);
    let (sign, b) = scan_sign(text, a);
    let (hash, c) = scan_hash(text, b);
    let (zero, width, d) = scan_width(text, c);
    let (precision, e) = scan_precision(text, d);
    let (base, f) = scan_base(text, e);
    let (separator, spacing, g) = scan_separator(text, f);
    if g == text.len() {
        Some(Captures { fill, align, sign, hash, zero, width, precision, base, separator, spacing })
    } else {
        None
    }
}

/// The number that the decimal digits `digits` write, if it is not too large.
fn to_number(digits: &Vec<char>) -> (r: Option<usize>)
    requires
        forall|i: int| 0 <= i < digits@.len() ==> is_digit(Some(#[trigger] digits@[i])),
    ensures
        match r {
            Some(n) => integer(digits@) == Ok::<usize, Failure>(n),
            None => integer(digits@) is Err,
        },
{
    let mut value: usize = 0;
    let mut i: usize = 0;
    assert(digits@.take(0).len() == 0);
    while i < digits.len()
        invariant
            i <= digits.len(),
            value == number(digits@.take(i as int)),
            forall|k: int| 0 <= k < digits@.len() ==> is_digit(Some(#[trigger] digits@[k])),
        decreases digits.len() - i,
    {
        let c = digits[i];
        assert(is_digit(Some(digits@[i as int])));
        let digit = (c as u8 - 48) as usize;
        proof {
            let longer = digits@.take(i + 1);
            assert(longer.drop_last() == digits@.take(i as int));
            assert(longer.last() == c);
            assert(number(longer) == value * 10 + digit);
            lemma_number_grows(digits@, i + 1);
        }
        let next = match value.checked_mul(10) {
            Some(tenfold) => tenfold.checked_add(digit),
            None => None,
        };
        match next {
            Some(n) => {
                value = n;
            },
            None => {
                return None;
            },
        }
        i += 1;
    }
    assert(digits@.take(digits.len() as int) == digits@);
    Some(value)
}

/// Parse a `NumFmt` instance from a format string.
///
/// See the module-level docs for the grammar.
///
/// Fails with `Error::NoMatch` where `s` is no format string, and with
/// `Error::ParseInt` where its width, precision or spacing is too large a number: the
/// error has the digits of the first of them that is.
pub fn parse(s: &str) -> (r: Result<NumFmt, Error>)
    ensures
        parsed(r) == parse_spec(s@),
        r == Err::<NumFmt, Error>(Error::NoMatch) <==> fields(s@) is None,
{
    let text = chars_of(s);
    let captures = match scan(&text) {
        Some(c) => c,
        None => {
            return Err(Error::NoMatch);
        },
    };
    let mut builder = NumFmt::builder();
    if let Some(fill) = captures.fill {
        builder = builder.fill(fill);
    }
    if let Some(align) = captures.align {
        builder = builder.align(align);
    }
    if let Some(sign) = captures.sign {
        builder = builder.sign(sign);
    }
    if captures.hash {
        builder = builder.hash(true);
    }
    if captures.zero {
        builder = builder.zero(true);
    }
    if let Some(width) = &captures.width {
        match to_number(width) {
            Some(n) => {
                builder = builder.width(n);
            },
            None => {
                return Err(Error::ParseInt(string_of(width)));
            },
        }
    }
    if let Some(precision) = &captures.precision {
        match to_number(precision) {
            Some(n) => {
                builder = builder.precision(Some(n));
            },
            None => {
                return Err(Error::ParseInt(string_of(precision)));
            },
        }
    }
    builder = builder.separator(captures.separator);
    if let Some(base) = captures.base {
        builder = builder.base(base);
    }
    if let Some(spacing) = &captures.spacing {
        match to_number(spacing) {
            Some(n) => {
                builder = builder.spacing(n);
            },
            None => {
                return Err(Error::ParseInt(string_of(spacing)));
            },
        }
    }
    Ok(builder.build())
}

} // verus!
