use vstd::prelude::*;

verus! {

/// Whether to render a sign sigil.
///
/// - `OnlyMinus`: print a leading `-` for negative numbers, and nothing in particular for
///   positive ones (default)
/// - `PlusAndMinus`: also print a leading `+` for positive numbers
#[derive(Clone, Copy, PartialEq, Eq, Debug, Structural)]
pub enum Sign {
    PlusAndMinus,
    OnlyMinus,
}

impl Default for Sign {
    #[inline]
    fn default() -> (r: Self)
        ensures
            r == Sign::OnlyMinus,
    {
        Sign::OnlyMinus
    }
}

} // verus!
