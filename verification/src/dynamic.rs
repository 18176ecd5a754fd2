use vstd::prelude::*;

verus! {

/// Container for setting certain parameters dynamically.
///
/// A parameter that is present overrides the formatter's own; one that is absent defers
/// to it.
#[derive(Clone, Copy, PartialEq, Eq, Debug)]
pub struct Dynamic {
    pub width: Option<usize>,
    pub precision: Option<usize>,
    pub spacing: Option<usize>,
}

impl Default for Dynamic {
    fn default() -> (r: Self)
        ensures
            r == (Dynamic { width: None, precision: None, spacing: None }),
    {
        Dynamic { width: None, precision: None, spacing: None }
    }
}

impl Dynamic {
    /// Construct a `Dynamic` instance, specifying all parameters.
    ///
    /// `None` leaves a parameter to the formatter.
    pub fn new(width: Option<usize>, precision: Option<usize>, spacing: Option<usize>) -> (r:
        Dynamic)
        ensures
            r == (Dynamic { width, precision, spacing }),
    {
        Dynamic { width, precision, spacing }
    }

    /// Construct a `Dynamic` instance specifying only `width`.
    pub fn width(width: usize) -> (r: Dynamic)
        ensures
            r == (Dynamic { width: Some(width), precision: None, spacing: None }),
    {
        Dynamic { width: Some(width), precision: None, spacing: None }
    }

    /// Construct a `Dynamic` instance specifying only `precision`.
    pub fn precision(precision: usize) -> (r: Dynamic)
        ensures
            r == (Dynamic { width: None, precision: Some(precision), spacing: None }),
    {
        Dynamic { width: None, precision: Some(precision), spacing: None }
    }

    /// Construct a `Dynamic` instance specifying only `spacing`.
    pub fn spacing(spacing: usize) -> (r: Dynamic)
        ensures
            r == (Dynamic { width: None, precision: None, spacing: Some(spacing) }),
    {
        Dynamic { width: None, precision: None, spacing: Some(spacing) }
    }
}

} // verus!
