//! An error that carries the input on which no alternative matched.
use vstd::prelude::*;

use crate::parser::clones_are_equal;

verus! {

/// The error "none of the options were found", holding the input that was
/// tried.
pub struct AltErr<I: Clone> {
    pub inp: I,
}

impl<I: Clone> AltErr<I> {
    /// The message that describes this error: "None of the options were
    /// found".
    pub fn message(&self) -> (msg: String)
        ensures
            msg@ == "None of the options were found"@,
    {
        String::from_str("None of the options were found")
    }

    /// The short name under which this error is shown in debugging output:
    /// "AltErr".
    pub fn debug_name(&self) -> (name: String)
        ensures
            name@ == "AltErr"@,
    {
        String::from_str("AltErr")
    }
}

/// The error keeps a clone of the input it is made from.
impl<I: Clone> From<I> for AltErr<I> {
    fn from(v: I) -> (r: Self)
        ensures
            cloned(v, r.inp),
    {
        Self { inp: v.clone() }
    }
}

/// Where clones are equal, the error holds exactly the input it is made from.
impl<I: Clone> vstd::std_specs::convert::FromSpecImpl<I> for AltErr<I> {
    open spec fn obeys_from_spec() -> bool {
        clones_are_equal::<I>()
    }

    open spec fn from_spec(v: I) -> Self {
        AltErr { inp: v }
    }
}

} // verus!
