//! Digit grouping: a separator between every `size` digits.
use iterext::Separate;
use vstd::prelude::*;

verus! {

/// `digits` cut into groups of `size`, counted from the front, with one `separator`
/// between neighbouring groups. The last group may be shorter. A `size` of zero makes no
/// groups.
pub open spec fn grouped(digits: Seq<char>, separator: char, size: nat) -> Seq<char>
    decreases digits.len(),
{
    if size == 0 || digits.len() <= size {
        digits
    } else {
        digits.take(size as int) + seq![separator] + grouped(
            digits.skip(size as int),
            separator,
            size,
        )
    }
}

/// Trusted: `iterext::Separate::separate`, collected into a `Vec`.
///
/// It cuts the stream into chunks of `size` items (`itertools::Itertools::chunks`, which
/// panics on a size of zero), puts one copy of `separator` after each chunk, and drops the
/// copy that follows the last chunk. What is left is `grouped`.
#[verifier::external_body]
pub(crate) fn separate(digits: Vec<char>, separator: char, size: usize) -> (out: Vec<char>)
    requires
        size > 0,
    ensures
        out@ == grouped(digits@, separator, size as nat),
{
    digits.into_iter().separate(separator, size)
}

/// Grouping never loses a digit: the result is at least as long as the input.
pub proof fn lemma_grouped_len_ge(digits: Seq<char>, separator: char, size: nat)
    ensures
        grouped(digits, separator, size).len() >= digits.len(),
        digits.len() > 0 ==> grouped(digits, separator, size).len() > 0,
    decreases digits.len(),
{
    if size == 0 || digits.len() <= size {
    } else {
        lemma_grouped_len_ge(digits.skip(size as int), separator, size);
    }
}

/// Grouping a longer sequence starts with the grouping of the shorter one.
pub proof fn lemma_grouped_prefix(digits: Seq<char>, more: Seq<char>, separator: char, size: nat)
    ensures
        grouped(digits, separator, size).len() <= grouped(digits + more, separator, size).len(),
        grouped(digits + more, separator, size).take(
            grouped(digits, separator, size).len() as int,
        ) == grouped(digits, separator, size),
    decreases digits.len(),
{
    let all = digits + more;
    let g = grouped(digits, separator, size);
    let ga = grouped(all, separator, size);
    if size == 0 {
        assert(all.take(digits.len() as int) == digits);
    } else if digits.len() <= size {
        if all.len() <= size {
            assert(all.take(digits.len() as int) == digits);
        } else {
            assert(ga.take(digits.len() as int) == digits);
        }
    } else {
        let rest = digits.skip(size as int);
        lemma_grouped_prefix(rest, more, separator, size);
        assert(all.skip(size as int) == rest + more);
        assert(all.take(size as int) == digits.take(size as int));
        let head = digits.take(size as int) + seq![separator];
        let gr = grouped(rest, separator, size);
        let gra = grouped(rest + more, separator, size);
        assert(g == head + gr);
        assert(ga == head + gra);
        assert((head + gra).take((head + gr).len() as int) == head + gra.take(gr.len() as int));
    }
}

} // verus!
