//! The sizedness traits, for builds without the `core` library.
use vstd::prelude::*;

verus! {

/// Types that may or may not have a size.
pub trait PointeeSized {
}

/// Types whose size can be known at run time.
pub trait MetaSized: PointeeSized {
}

/// Types whose size is known at compilation time.
pub trait Sized: MetaSized {
}

} // verus!
