//! The seal that keeps `Constness` to the crate's own types.
use vstd::prelude::*;

verus! {

/// Implemented only by the crate's own context types.
pub(crate) trait ConstnessSeal {
}

} // verus!
