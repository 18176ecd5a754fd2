//! The grammar of format strings, and that the parser reads exactly its strings.
//!
//! ```text
//! format_spec := [[fill]align][sign]['#'][['0']width]['.' precision][format][separator[spacing]]
//! ```
//!
//! `written` puts the parts of a format string in this order. A string is a format string
//! if it is written from well-formed parts, and then from these parts alone: the parser
//! gives them back.
use crate::align::Align;
use crate::base::Base;
use crate::parse::{
    align_of, alignment_part, at, base_of, base_part, digits_end, fields, hash_part, is_digit,
    is_nonzero_digit, is_separator, precision_part, separator_part, sign_part, width_part,
    Fields,
};
use crate::sign::Sign;
use vstd::prelude::*;

verus! {

/// Whether every character of `digits` is one of the digits `0` to `9`.
pub open spec fn all_digits(digits: Seq<char>) -> bool {
    forall|i: int| 0 <= i < digits.len() ==> is_digit(Some(#[trigger] digits[i]))
}

/// The character that stands for `align`.
pub open spec fn align_char(align: Align) -> char {
    match align {
        Align::Left => '<',
        Align::Center => '^',
        Align::Right => '>',
        Align::Decimal => 'v',
    }
}

/// The character that stands for `sign`.
pub open spec fn sign_char(sign: Sign) -> char {
    match sign {
        Sign::OnlyMinus => '-',
        Sign::PlusAndMinus => '+',
    }
}

/// The character that stands for `base`.
pub open spec fn base_char(base: Base) -> char {
    match base {
        Base::Binary => 'b',
        Base::Octal => 'o',
        Base::Decimal => 'd',
        Base::LowerHex => 'x',
        Base::UpperHex => 'X',
    }
}

/// Whether width and zero flag fit the grammar: the zero flag comes with a width, and the
/// width is a number that does not begin with `0`.
pub open spec fn width_well_formed(zero: bool, width: Option<Seq<char>>) -> bool {
    &&& zero ==> width is Some
    &&& width matches Some(w) ==> w.len() > 0 && is_nonzero_digit(Some(w[0])) && all_digits(w)
}

/// Whether the precision fits the grammar: it is a number.
pub open spec fn precision_well_formed(precision: Option<Seq<char>>) -> bool {
    precision matches Some(p) ==> p.len() > 0 && all_digits(p)
}

/// Whether separator and spacing fit the grammar: the separator is one of `_`, `,` and
/// the space, and the spacing is a number that comes with a separator.
pub open spec fn separator_well_formed(
    separator: Option<char>,
    spacing: Option<Seq<char>>,
) -> bool {
    &&& separator matches Some(c) ==> is_separator(Some(c))
    &&& spacing matches Some(s) ==> separator is Some && s.len() > 0 && all_digits(s)
}

/// Whether the parts fit the grammar. Besides what holds of the numbers and the
/// separator, a fill character comes with an alignment.
pub open spec fn well_formed(f: Fields) -> bool {
    &&& f.fill is Some ==> f.align is Some
    &&& width_well_formed(f.zero, f.width)
    &&& precision_well_formed(f.precision)
    &&& separator_well_formed(f.separator, f.spacing)
}

/// `[[fill]align]`
pub open spec fn alignment_text(fill: Option<char>, align: Option<Align>) -> Seq<char> {
    match (fill, align) {
        (Some(c), Some(a)) => seq![c, align_char(a)],
        (None, Some(a)) => seq![align_char(a)],
        (_, None) => seq![],
    }
}

/// `[sign]`
pub open spec fn sign_text(sign: Option<Sign>) -> Seq<char> {
    match sign {
        Some(s) => seq![sign_char(s)],
        None => seq![],
    }
}

/// `['#']`
pub open spec fn hash_text(hash: bool) -> Seq<char> {
    if hash {
        seq!['#']
    } else {
        seq![]
    }
}

/// `[['0']width]`
pub open spec fn width_text(zero: bool, width: Option<Seq<char>>) -> Seq<char> {
    match width {
        Some(w) => if zero {
            seq!['0'] + w
        } else {
            w
        },
        None => seq![],
    }
}

/// `['.' precision]`
pub open spec fn precision_text(precision: Option<Seq<char>>) -> Seq<char> {
    match precision {
        Some(p) => seq!['.'] + p,
        None => seq![],
    }
}

/// `[format]`
pub open spec fn base_text(base: Option<Base>) -> Seq<char> {
    match base {
        Some(b) => seq![base_char(b)],
        None => seq![],
    }
}

/// `[separator[spacing]]`
pub open spec fn separator_text(separator: Option<char>, spacing: Option<Seq<char>>) -> Seq<char> {
    match (separator, spacing) {
        (Some(c), Some(s)) => seq![c] + s,
        (Some(c), None) => seq![c],
        (None, _) => seq![],
    }
}

/// The format string with the parts `f`.
pub open spec fn written(f: Fields) -> Seq<char> {
    alignment_text(f.fill, f.align) + sign_text(f.sign) + hash_text(f.hash) + width_text(
        f.zero,
        f.width,
    ) + precision_text(f.precision) + base_text(f.base) + separator_text(f.separator, f.spacing)
}

/// The digits that start at place `i` end within the text, all of them are digits, and
/// what follows is none.
pub proof fn lemma_digits_end(text: Seq<char>, i: int)
    requires
        0 <= i <= text.len(),
    ensures
        i <= digits_end(text, i) <= text.len(),
        all_digits(text.subrange(i, digits_end(text, i))),
        !is_digit(at(text, digits_end(text, i))),
        is_digit(at(text, i)) ==> digits_end(text, i) > i,
    decreases text.len() - i,
{
    if is_digit(at(text, i)) {
        lemma_digits_end(text, i + 1);
        let end = digits_end(text, i);
        let run = text.subrange(i, end);
        assert forall|k: int| 0 <= k < run.len() implies is_digit(Some(#[trigger] run[k])) by {
            if k > 0 {
                assert(run[k] == text.subrange(i + 1, end)[k - 1]);
            }
        }
    }
}

/// A run of digits that is followed by no digit ends where it ends.
pub proof fn lemma_digits_run(text: Seq<char>, i: int, j: int)
    requires
        0 <= i <= j <= text.len(),
        forall|k: int| i <= k < j ==> is_digit(Some(#[trigger] text[k])),
        !is_digit(at(text, j)),
    ensures
        digits_end(text, i) == j,
    decreases j - i,
{
    if i < j {
        assert(is_digit(Some(text[i])));
        lemma_digits_run(text, i + 1, j);
    }
}

/// What is read as fill character and alignment is written as such.
proof fn lemma_alignment_read(text: Seq<char>)
    ensures
        ({
            let (fill, align, end) = alignment_part(text);
            &&& 0 <= end <= text.len()
            &&& fill is Some ==> align is Some
            &&& alignment_text(fill, align) == text.subrange(0, end)
        }),
{
}

/// What is read as sign is written as such.
proof fn lemma_sign_read(text: Seq<char>, i: int)
    requires
        0 <= i <= text.len(),
    ensures
        ({
            let (sign, end) = sign_part(text, i);
            &&& i <= end <= text.len()
            &&& sign_text(sign) == text.subrange(i, end)
        }),
{
}

/// What is read as hash flag is written as such.
proof fn lemma_hash_read(text: Seq<char>, i: int)
    requires
        0 <= i <= text.len(),
    ensures
        ({
            let (hash, end) = hash_part(text, i);
            &&& i <= end <= text.len()
            &&& hash_text(hash) == text.subrange(i, end)
        }),
{
}

/// What is read as zero flag and width is written as such.
proof fn lemma_width_read(text: Seq<char>, i: int)
    requires
        0 <= i <= text.len(),
    ensures
        ({
            let (zero, width, end) = width_part(text, i);
            &&& i <= end <= text.len()
            &&& width_well_formed(zero, width)
            &&& width_text(zero, width) == text.subrange(i, end)
        }),
{
    let (zero, width, end) = width_part(text, i);
    if zero {
        lemma_digits_end(text, i + 1);
        assert(width->Some_0[0] == text[i + 1]);
        assert(seq!['0'] + text.subrange(i + 1, end) == text.subrange(i, end));
    } else if width is Some {
        lemma_digits_end(text, i);
        assert(width->Some_0[0] == text[i]);
    } else {
        assert(text.subrange(i, i) == Seq::<char>::empty());
    }
}

/// What is read as precision is written as such.
proof fn lemma_precision_read(text: Seq<char>, i: int)
    requires
        0 <= i <= text.len(),
    ensures
        ({
            let (precision, end) = precision_part(text, i);
            &&& i <= end <= text.len()
            &&& precision_well_formed(precision)
            &&& precision_text(precision) == text.subrange(i, end)
        }),
{
    let (precision, end) = precision_part(text, i);
    if precision is Some {
        lemma_digits_end(text, i + 1);
        assert(seq!['.'] + text.subrange(i + 1, end) == text.subrange(i, end));
    } else {
        assert(text.subrange(i, i) == Seq::<char>::empty());
    }
}

/// What is read as base is written as such.
proof fn lemma_base_read(text: Seq<char>, i: int)
    requires
        0 <= i <= text.len(),
    ensures
        ({
            let (base, end) = base_part(text, i);
            &&& i <= end <= text.len()
            &&& base_text(base) == text.subrange(i, end)
        }),
{
}

/// What is read as separator and spacing is written as such.
proof fn lemma_separator_read(text: Seq<char>, i: int)
    requires
        0 <= i <= text.len(),
    ensures
        ({
            let (separator, spacing, end) = separator_part(text, i);
            &&& i <= end <= text.len()
            &&& separator_well_formed(separator, spacing)
            &&& separator_text(separator, spacing) == text.subrange(i, end)
        }),
{
    let (separator, spacing, end) = separator_part(text, i);
    if separator is Some {
        lemma_digits_end(text, i + 1);
        if spacing is Some {
            assert(seq![text[i]] + text.subrange(i + 1, end) == text.subrange(i, end));
        } else {
            assert(seq![text[i]] == text.subrange(i, end));
        }
    } else {
        assert(text.subrange(i, i) == Seq::<char>::empty());
    }
}

/// A text is its pieces put together.
proof fn lemma_pieces(text: Seq<char>, a: int, b: int, c: int, d: int, e: int, g: int)
    requires
        0 <= a <= b <= c <= d <= e <= g <= text.len(),
    ensures
        text.subrange(0, a) + text.subrange(a, b) + text.subrange(b, c) + text.subrange(c, d)
            + text.subrange(d, e) + text.subrange(e, g) + text.subrange(g, text.len() as int)
            == text,
{
}

/// What the parser accepts is a format string: its parts are well formed, and written
/// down they give the text that was parsed.
pub proof fn lemma_parsed_is_written(text: Seq<char>)
    requires
        fields(text) is Some,
    ensures
        well_formed(fields(text)->Some_0),
        written(fields(text)->Some_0) == text,
{
    let a = alignment_part(text).2;
    lemma_alignment_read(text);
    let b = sign_part(text, a).1;
    lemma_sign_read(text, a);
    let c = hash_part(text, b).1;
    lemma_hash_read(text, b);
    let d = width_part(text, c).2;
    lemma_width_read(text, c);
    let e = precision_part(text, d).1;
    lemma_precision_read(text, d);
    let g = base_part(text, e).1;
    lemma_base_read(text, e);
    lemma_separator_read(text, g);
    lemma_pieces(text, a, b, c, d, e, g);
}

/// Whether no character of `text` stands for an alignment.
spec fn no_align(text: Seq<char>) -> bool {
    forall|k: int| 0 <= k < text.len() ==> align_of(Some(#[trigger] text[k])) is None
}

/// What can stand first in separator and spacing, if anything does.
spec fn starts_separator(c: Option<char>) -> bool {
    c is None || is_separator(c)
}

/// What can stand first in base, separator and spacing.
spec fn starts_base(c: Option<char>) -> bool {
    starts_separator(c) || base_of(c) is Some
}

/// What can stand first in precision, base, separator and spacing.
spec fn starts_precision(c: Option<char>) -> bool {
    starts_base(c) || c == Some('.')
}

/// What can stand first in width, precision, base, separator and spacing.
spec fn starts_width(c: Option<char>) -> bool {
    starts_precision(c) || is_digit(c)
}

/// What can stand first in hash flag, width, precision, base, separator and spacing.
spec fn starts_hash(c: Option<char>) -> bool {
    starts_width(c) || c == Some('#')
}

/// Fill character and alignment are read as they are written, before a text that holds
/// no character for an alignment.
proof fn lemma_alignment_written(fill: Option<char>, align: Option<Align>, rest: Seq<char>)
    requires
        fill is Some ==> align is Some,
        no_align(rest),
    ensures
        alignment_part(alignment_text(fill, align) + rest) == (
            fill,
            align,
            alignment_text(fill, align).len() as int,
        ),
{
    let text = alignment_text(fill, align) + rest;
    if align is Some {
        if fill is Some {
            assert(text[1] == align_char(align->Some_0));
            assert(text[0] == fill->Some_0);
        } else {
            assert(text[0] == align_char(align->Some_0));
            if rest.len() > 0 {
                assert(text[1] == rest[0]);
            }
        }
    } else {
        assert(text == rest);
        if rest.len() > 0 {
            assert(align_of(Some(rest[0])) is None);
        }
        if rest.len() > 1 {
            assert(align_of(Some(rest[1])) is None);
        }
    }
}

/// The sign is read as it is written, behind `head` and before a text that begins with
/// no sign.
proof fn lemma_sign_written(head: Seq<char>, sign: Option<Sign>, rest: Seq<char>)
    requires
        starts_hash(at(rest, 0)),
    ensures
        sign_part(head + (sign_text(sign) + rest), head.len() as int) == (
            sign,
            (head.len() + sign_text(sign).len()) as int,
        ),
{
    let text = head + (sign_text(sign) + rest);
    let n = head.len() as int;
    if sign is Some {
        assert(text[n] == sign_char(sign->Some_0));
    } else {
        assert(at(text, n) == at(rest, 0));
    }
}

/// The hash flag is read as it is written, behind `head` and before a text that begins
/// with no `#`.
proof fn lemma_hash_written(head: Seq<char>, hash: bool, rest: Seq<char>)
    requires
        starts_width(at(rest, 0)),
    ensures
        hash_part(head + (hash_text(hash) + rest), head.len() as int) == (
            hash,
            (head.len() + hash_text(hash).len()) as int,
        ),
{
    let text = head + (hash_text(hash) + rest);
    let n = head.len() as int;
    if hash {
        assert(text[n] == '#');
    } else {
        assert(at(text, n) == at(rest, 0));
    }
}

/// Zero flag and width are read as they are written, behind `head` and before a text
/// that begins with no digit.
proof fn lemma_width_written(
    head: Seq<char>,
    zero: bool,
    width: Option<Seq<char>>,
    rest: Seq<char>,
)
    requires
        width_well_formed(zero, width),
        starts_precision(at(rest, 0)),
    ensures
        width_part(head + (width_text(zero, width) + rest), head.len() as int) == (
            zero,
            width,
            (head.len() + width_text(zero, width).len()) as int,
        ),
{
    let text = head + (width_text(zero, width) + rest);
    let n = head.len() as int;
    match width {
        Some(w) => {
            let from = if zero {
                n + 1
            } else {
                n
            };
            let to = from + w.len();
            assert(text[from] == w[0]);
            assert forall|k: int| from <= k < to implies is_digit(Some(#[trigger] text[k])) by {
                assert(text[k] == w[k - from]);
            }
            assert(at(text, to) == at(rest, 0));
            lemma_digits_run(text, from, to);
            assert(text.subrange(from, to) == w);
            if zero {
                assert(text[n] == '0');
            }
        },
        None => {
            assert(at(text, n) == at(rest, 0));
        },
    }
}

/// The precision is read as it is written, behind `head` and before a text that begins
/// with no digit.
proof fn lemma_precision_written(head: Seq<char>, precision: Option<Seq<char>>, rest: Seq<char>)
    requires
        precision_well_formed(precision),
        starts_base(at(rest, 0)),
    ensures
        precision_part(head + (precision_text(precision) + rest), head.len() as int) == (
            precision,
            (head.len() + precision_text(precision).len()) as int,
        ),
{
    let text = head + (precision_text(precision) + rest);
    let n = head.len() as int;
    match precision {
        Some(p) => {
            let to = n + 1 + p.len();
            assert(text[n] == '.');
            assert(text[n + 1] == p[0]);
            assert forall|k: int| n + 1 <= k < to implies is_digit(Some(#[trigger] text[k])) by {
                assert(text[k] == p[k - n - 1]);
            }
            assert(at(text, to) == at(rest, 0));
            lemma_digits_run(text, n + 1, to);
            assert(text.subrange(n + 1, to) == p);
        },
        None => {
            assert(at(text, n) == at(rest, 0));
        },
    }
}

/// The base is read as it is written, behind `head` and before a text that begins with
/// no base.
proof fn lemma_base_written(head: Seq<char>, base: Option<Base>, rest: Seq<char>)
    requires
        starts_separator(at(rest, 0)),
    ensures
        base_part(head + (base_text(base) + rest), head.len() as int) == (
            base,
            (head.len() + base_text(base).len()) as int,
        ),
{
    let text = head + (base_text(base) + rest);
    let n = head.len() as int;
    if base is Some {
        assert(text[n] == base_char(base->Some_0));
    } else {
        assert(at(text, n) == at(rest, 0));
    }
}

/// Separator and spacing are read as they are written, behind `head` and at the end of
/// the text.
proof fn lemma_separator_written(
    head: Seq<char>,
    separator: Option<char>,
    spacing: Option<Seq<char>>,
)
    requires
        separator_well_formed(separator, spacing),
    ensures
        separator_part(head + separator_text(separator, spacing), head.len() as int) == (
            separator,
            spacing,
            (head.len() + separator_text(separator, spacing).len()) as int,
        ),
{
    let text = head + separator_text(separator, spacing);
    let n = head.len() as int;
    match separator {
        Some(c) => {
            assert(text[n] == c);
            match spacing {
                Some(digits) => {
                    let to = n + 1 + digits.len();
                    assert forall|k: int| n + 1 <= k < to implies is_digit(
                        Some(#[trigger] text[k]),
                    ) by {
                        assert(text[k] == digits[k - n - 1]);
                    }
                    lemma_digits_run(text, n + 1, to);
                    assert(text.subrange(n + 1, to) == digits);
                },
                None => {
                    lemma_digits_run(text, n + 1, n + 1);
                },
            }
        },
        None => {},
    }
}

/// Two texts without a character for an alignment make one without.
proof fn lemma_no_align_add(a: Seq<char>, b: Seq<char>)
    requires
        no_align(a),
        no_align(b),
    ensures
        no_align(a + b),
{
    assert forall|k: int| 0 <= k < (a + b).len() implies align_of(Some(#[trigger] (a + b)[k]))
        is None by {
        if k < a.len() {
            assert((a + b)[k] == a[k]);
        } else {
            assert((a + b)[k] == b[k - a.len()]);
        }
    }
}

/// Digits hold no character for an alignment.
proof fn lemma_no_align_digits(digits: Seq<char>)
    requires
        all_digits(digits),
    ensures
        no_align(digits),
{
    assert forall|k: int| 0 <= k < digits.len() implies align_of(Some(#[trigger] digits[k]))
        is None by {
        assert(is_digit(Some(digits[k])));
    }
}

/// `[separator[spacing]]`
spec fn tail_separator(f: Fields) -> Seq<char> {
    separator_text(f.separator, f.spacing)
}

/// `[format][separator[spacing]]`
spec fn tail_base(f: Fields) -> Seq<char> {
    base_text(f.base) + tail_separator(f)
}

/// `['.' precision][format][separator[spacing]]`
spec fn tail_precision(f: Fields) -> Seq<char> {
    precision_text(f.precision) + tail_base(f)
}

/// `[['0']width]['.' precision][format][separator[spacing]]`
spec fn tail_width(f: Fields) -> Seq<char> {
    width_text(f.zero, f.width) + tail_precision(f)
}

/// `['#'][['0']width]['.' precision][format][separator[spacing]]`
spec fn tail_hash(f: Fields) -> Seq<char> {
    hash_text(f.hash) + tail_width(f)
}

/// `[sign]['#'][['0']width]['.' precision][format][separator[spacing]]`
spec fn tail_sign(f: Fields) -> Seq<char> {
    sign_text(f.sign) + tail_hash(f)
}

/// How what follows each part of a format string begins, and that nothing behind the
/// alignment stands for an alignment.
proof fn lemma_tails(f: Fields)
    requires
        well_formed(f),
    ensures
        starts_separator(at(tail_separator(f), 0)),
        starts_base(at(tail_base(f), 0)),
        starts_precision(at(tail_precision(f), 0)),
        starts_width(at(tail_width(f), 0)),
        starts_hash(at(tail_hash(f), 0)),
        no_align(tail_sign(f)),
{
    let separator = tail_separator(f);
    assert(no_align(separator)) by {
        match f.spacing {
            Some(digits) => {
                lemma_no_align_digits(digits);
                lemma_no_align_add(seq![f.separator->Some_0], digits);
            },
            None => {},
        }
    }
    lemma_no_align_add(base_text(f.base), separator);
    assert(no_align(precision_text(f.precision))) by {
        if let Some(digits) = f.precision {
            lemma_no_align_digits(digits);
            lemma_no_align_add(seq!['.'], digits);
        }
    }
    lemma_no_align_add(precision_text(f.precision), tail_base(f));
    assert(no_align(width_text(f.zero, f.width))) by {
        if let Some(digits) = f.width {
            lemma_no_align_digits(digits);
            lemma_no_align_add(seq!['0'], digits);
        }
    }
    lemma_no_align_add(width_text(f.zero, f.width), tail_precision(f));
    lemma_no_align_add(hash_text(f.hash), tail_width(f));
    lemma_no_align_add(sign_text(f.sign), tail_hash(f));
    if let Some(digits) = f.precision {
        assert(tail_precision(f)[0] == '.');
    }
    if let Some(digits) = f.width {
        assert(is_digit(Some(digits[0])));
        assert(is_digit(Some(tail_width(f)[0])));
    }
}

/// A text of seven pieces is each of its heads and what follows it.
proof fn lemma_heads(
    a: Seq<char>,
    s: Seq<char>,
    h: Seq<char>,
    w: Seq<char>,
    p: Seq<char>,
    b: Seq<char>,
    t: Seq<char>,
)
    ensures
        a + s + h + w + p + b + t == a + (s + (h + (w + (p + (b + t))))),
        a + s + h + w + p + b + t == (a + s) + (h + (w + (p + (b + t)))),
        a + s + h + w + p + b + t == (a + s + h) + (w + (p + (b + t))),
        a + s + h + w + p + b + t == (a + s + h + w) + (p + (b + t)),
        a + s + h + w + p + b + t == (a + s + h + w + p) + (b + t),
{
    let all = a + s + h + w + p + b + t;
    assert(all =~= a + (s + (h + (w + (p + (b + t))))));
    assert(all =~= (a + s) + (h + (w + (p + (b + t)))));
    assert(all =~= (a + s + h) + (w + (p + (b + t))));
    assert(all =~= (a + s + h + w) + (p + (b + t)));
    assert(all =~= (a + s + h + w + p) + (b + t));
}

/// Each part of a format string is read where it was written, and as it was written.
proof fn lemma_written_parts(f: Fields)
    requires
        well_formed(f),
    ensures
        ({
            let text = written(f);
            let a = alignment_text(f.fill, f.align).len() as int;
            let b = a + sign_text(f.sign).len();
            let c = b + hash_text(f.hash).len();
            let d = c + width_text(f.zero, f.width).len();
            let e = d + precision_text(f.precision).len();
            let g = e + base_text(f.base).len();
            &&& alignment_part(text) == (f.fill, f.align, a)
            &&& sign_part(text, a) == (f.sign, b)
            &&& hash_part(text, b) == (f.hash, c)
            &&& width_part(text, c) == (f.zero, f.width, d)
            &&& precision_part(text, d) == (f.precision, e)
            &&& base_part(text, e) == (f.base, g)
            &&& separator_part(text, g) == (f.separator, f.spacing, text.len() as int)
        }),
{
    let alignment = alignment_text(f.fill, f.align);
    let sign = sign_text(f.sign);
    let hash = hash_text(f.hash);
    let width = width_text(f.zero, f.width);
    let precision = precision_text(f.precision);
    let base = base_text(f.base);
    lemma_tails(f);
    lemma_heads(alignment, sign, hash, width, precision, base, tail_separator(f));
    lemma_alignment_written(f.fill, f.align, tail_sign(f));
    lemma_sign_written(alignment, f.sign, tail_hash(f));
    lemma_hash_written(alignment + sign, f.hash, tail_width(f));
    lemma_width_written(alignment + sign + hash, f.zero, f.width, tail_precision(f));
    lemma_precision_written(alignment + sign + hash + width, f.precision, tail_base(f));
    lemma_base_written(alignment + sign + hash + width + precision, f.base, tail_separator(f));
    lemma_separator_written(
        alignment + sign + hash + width + precision + base,
        f.separator,
        f.spacing,
    );
}

/// A format string is parsed into the parts that it is written from.
pub proof fn lemma_written_is_parsed(f: Fields)
    requires
        well_formed(f),
    ensures
        fields(written(f)) == Some(f),
{
    lemma_written_parts(f);
}

/// The parser accepts the format strings and nothing else: a text has parts if and only
/// if it is written from well-formed parts.
pub proof fn lemma_format_strings(text: Seq<char>)
    ensures
        fields(text) is Some <==> exists|f: Fields| well_formed(f) && #[trigger] written(f) == text,
{
    if fields(text) is Some {
        lemma_parsed_is_written(text);
        let f = fields(text)->Some_0;
        assert(well_formed(f) && written(f) == text);
    }
    if exists|f: Fields| well_formed(f) && #[trigger] written(f) == text {
        let f = choose|f: Fields| well_formed(f) && #[trigger] written(f) == text;
        lemma_written_is_parsed(f);
    }
}

} // verus!
