//! The closed set of status kinds mirrored by the attribute set.

use vstd::prelude::*;

verus! {

/// A status kind, one per character attribute.
#[derive(Clone, Copy, Debug, PartialEq, Eq, Structural)]
pub enum Status {
    Pow,
    Spd,
    Vit,
    Int,
    Lck,
}

} // verus!
