use crate::numeric_trait::impls::HexIter;
use crate::text::ascii_upper;
use vstd::prelude::*;

verus! {

/// Iterator over hexadecimal digits with letters in upper case, made from one with
/// letters in lower case.
pub struct DefaultUpperHex(pub HexIter);

impl DefaultUpperHex {
    /// The digits that are still to come.
    pub open spec fn view(&self) -> Seq<char> {
        self.0@.map_values(|c: char| ascii_upper(c))
    }

    /// The next digit, if there is one.
    pub fn next(&mut self) -> (r: Option<char>)
        ensures
            match r {
                Some(c) => old(self)@.len() > 0 && c == old(self)@[0] && final(self)@ == old(
                    self,
                )@.skip(1),
                None => old(self)@.len() == 0 && final(self)@ == old(self)@,
            },
    {
        match self.0.next() {
            Some(c) => {
                assert(final(self)@ == old(self)@.skip(1));
                Some(c.to_ascii_uppercase())
            },
            None => None,
        }
    }
}

} // verus!
