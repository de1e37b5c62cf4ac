//! The two character sexes used by the growth tables.

use vstd::prelude::*;

verus! {

/// A character's sex; initial attribute values are looked up per sex.
#[derive(Clone, Copy, Debug, PartialEq, Eq, Structural)]
pub enum Sex {
    Man,
    Women,
}

} // verus!
