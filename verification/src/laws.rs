//! What holds of every formatter and every number.
use crate::dynamic::Dynamic;
use crate::group::{lemma_grouped_len_ge, lemma_grouped_prefix};
use crate::layout::{group, integer_digits, integer_part, repeated, sat_sub, DigitSeqs};
use crate::num_fmt::{source, text_result, Error, NumFmt};
use crate::numeric_trait::Numeric;
use crate::parse::{parse_spec, parsed};
use vstd::prelude::*;

verus! {

/// The integer part starts, from the least significant digit on, with the grouped digits
/// of the number: zeros and separators come on top of them, and nothing is cut off them.
pub proof fn lemma_integer_part_holds_digits(
    digits: Seq<char>,
    grouping: Option<(char, nat)>,
    zero: bool,
    columns: int,
)
    ensures
        group(digits, grouping).len() >= digits.len(),
        integer_part(digits, grouping, zero, columns).len() >= group(digits, grouping).len(),
        integer_part(digits, grouping, zero, columns).take(group(digits, grouping).len() as int)
            == group(digits, grouping),
        zero ==> integer_part(digits, grouping, zero, columns).len() >= columns,
{
    let natural = group(digits, grouping);
    let more = repeated('0', columns - digits.len());
    let full = group(digits + more, grouping);
    match grouping {
        Some((separator, size)) => {
            lemma_grouped_len_ge(digits, separator, size);
            lemma_grouped_len_ge(digits + more, separator, size);
            lemma_grouped_prefix(digits, more, separator, size);
        },
        None => {
            assert((digits + more).take(digits.len() as int) == digits);
        },
    }
    if zero && columns > digits.len() {
        let keep = if natural.len() > columns {
            natural.len() as int
        } else {
            columns
        };
        assert(full.take(keep).take(natural.len() as int) == full.take(natural.len() as int));
    } else {
        assert(natural.take(natural.len() as int) == natural);
    }
}

/// The width is a minimum, never a cut: the rendered text holds the whole number. It is
/// at least as long as sign, prefix, digits, separators and fraction together, and its
/// integer part starts with all the grouped digits of the number.
pub proof fn lemma_width_never_cuts(fmt: NumFmt, digits: DigitSeqs, dynamic: Dynamic)
    requires
        fmt.compatible(),
    ensures
        fmt.render_spec(digits, dynamic) == Ok::<Seq<char>, Error>(
            fmt.parts(digits, dynamic).text(),
        ),
        fmt.parts(digits, dynamic).body().len() <= fmt.parts(digits, dynamic).content().len()
            <= fmt.parts(digits, dynamic).text().len(),
        fmt.parts(digits, dynamic).integer.take(
            group(integer_digits(digits.integer, fmt.base), fmt.grouping(dynamic)).len() as int,
        ) == group(integer_digits(digits.integer, fmt.base), fmt.grouping(dynamic)),
        fmt.parts(digits, dynamic).integer.len() >= integer_digits(digits.integer, fmt.base).len()
            >= 1,
{
    let parts = fmt.parts(digits, dynamic);
    let prefix = parts.prefix;
    let room = sat_sub(fmt.spec_width_with(dynamic) as int, prefix.len() as int);
    let beside = if fmt.align is Decimal {
        0
    } else {
        parts.fraction.len() as int
    };
    lemma_integer_part_holds_digits(
        integer_digits(digits.integer, fmt.base),
        fmt.grouping(dynamic),
        fmt.zero,
        sat_sub(sat_sub(room, fmt.sign_columns(digits)), beside),
    );
}

/// A number that is as wide as the width or wider is rendered without any fill
/// character: the text is sign, prefix, digits, separators and fraction, and nothing
/// else.
///
/// Alignment at the decimal point measures the width up to the decimal point. There the
/// columns before the point are filled although the fraction makes the number wider than
/// the width. Those numbers are left out: with that alignment and no zero flag, the
/// integer part, the prefix and a sign that takes a column must reach the width.
pub proof fn lemma_wide_number_has_no_padding(fmt: NumFmt, digits: DigitSeqs, dynamic: Dynamic)
    requires
        fmt.compatible(),
        fmt.spec_width_with(dynamic) <= fmt.parts(digits, dynamic).body().len(),
        fmt.align is Decimal && !fmt.zero ==> fmt.spec_width_with(dynamic) <= fmt.parts(
            digits,
            dynamic,
        ).integer.len() + fmt.parts(digits, dynamic).prefix.len() + fmt.sign_columns(digits),
    ensures
        fmt.render_spec(digits, dynamic) == Ok::<Seq<char>, Error>(
            fmt.parts(digits, dynamic).content(),
        ),
        fmt.parts(digits, dynamic).text().len() == fmt.parts(digits, dynamic).content().len(),
{
    let parts = fmt.parts(digits, dynamic);
    lemma_width_never_cuts(fmt, digits, dynamic);
    assert(parts.front == 0);
    assert(parts.rear == 0);
    assert(repeated(parts.pad, 0) == Seq::<char>::empty());
    assert(parts.text() == parts.content());
}

/// The width is a minimum for every number that has digits in the base of the formatter:
/// what `fmt` gives holds the whole number, and where the number is as wide as the width
/// or wider, it gives the number without any fill character. Numbers that are aligned at
/// the decimal point are left out of the latter as in
/// `lemma_wide_number_has_no_padding`.
pub proof fn lemma_fmt_width_is_minimum<N: Numeric>(fmt: NumFmt, number: &N, dynamic: Dynamic)
    requires
        fmt.compatible(),
        source(number, fmt.base) is Some,
    ensures
        ({
            let parts = fmt.parts(source(number, fmt.base)->Some_0, dynamic);
            let width = fmt.spec_width_with(dynamic);
            &&& fmt.fmt_spec(number, dynamic) == Ok::<Seq<char>, Error>(parts.text())
            &&& parts.body().len() <= parts.content().len() <= parts.text().len()
            &&& width <= parts.body().len() && (fmt.align is Decimal && !fmt.zero ==> width
                <= parts.integer.len() + parts.prefix.len() + fmt.sign_columns(
                source(number, fmt.base)->Some_0,
            )) ==> parts.text() == parts.content()
        }),
{
    let digits = source(number, fmt.base)->Some_0;
    let parts = fmt.parts(digits, dynamic);
    let width = fmt.spec_width_with(dynamic);
    lemma_width_never_cuts(fmt, digits, dynamic);
    if width <= parts.body().len() && (fmt.align is Decimal && !fmt.zero ==> width
        <= parts.integer.len() + parts.prefix.len() + fmt.sign_columns(digits)) {
        lemma_wide_number_has_no_padding(fmt, digits, dynamic);
    }
}

/// Formatting is a function of the formatter, the number and the dynamic parameters:
/// formatting the same number twice gives the same text, or the same error.
pub proof fn lemma_fmt_is_deterministic<N: Numeric>(
    fmt: NumFmt,
    number: &N,
    dynamic: Dynamic,
    first: Result<String, Error>,
    second: Result<String, Error>,
)
    requires
        text_result(first) == fmt.fmt_spec(number, dynamic),
        text_result(second) == fmt.fmt_spec(number, dynamic),
    ensures
        text_result(first) == text_result(second),
        first is Ok <==> second is Ok,
        first matches Ok(a) ==> second matches Ok(b) && a@ == b@,
        first matches Err(e) ==> second == Err::<String, Error>(e),
{
}

/// Parsing a format string and formatting a number with the result is a function of the
/// string, the number and the dynamic parameters: doing it twice gives the same
/// formatter and the same text, or the same error.
pub proof fn lemma_parse_then_fmt_is_deterministic<N: Numeric>(
    text: Seq<char>,
    number: &N,
    dynamic: Dynamic,
    first: Result<NumFmt, crate::parse::Error>,
    second: Result<NumFmt, crate::parse::Error>,
    first_text: Result<String, Error>,
    second_text: Result<String, Error>,
)
    requires
        parsed(first) == parse_spec(text),
        parsed(second) == parse_spec(text),
        first matches Ok(fmt) ==> text_result(first_text) == fmt.fmt_spec(number, dynamic),
        second matches Ok(fmt) ==> text_result(second_text) == fmt.fmt_spec(number, dynamic),
    ensures
        parsed(first) == parsed(second),
        first matches Ok(a) ==> second matches Ok(b) && a == b && text_result(first_text)
            == text_result(second_text),
        first matches Err(e) ==> second matches Err(f) && e@ == f@,
{
}

/// The zero flag together with an alignment to the left or to the center always fails
/// with `IncompatibleAlignment`, for every base and every number, whether or not the
/// number has digits in that base.
pub proof fn lemma_zero_needs_right_or_decimal<N: Numeric>(
    fmt: NumFmt,
    number: &N,
    digits: DigitSeqs,
    dynamic: Dynamic,
)
    requires
        fmt.zero,
        fmt.align is Left || fmt.align is Center,
    ensures
        fmt.fmt_spec(number, dynamic) == Err::<Seq<char>, Error>(Error::IncompatibleAlignment),
        fmt.render_spec(digits, dynamic) == Err::<Seq<char>, Error>(Error::IncompatibleAlignment),
{
}

} // verus!
