//! The logic of the attribute macros: conditions, visibility, async-ness,
//! const-ness and safety of items, over a plain model of the items.
use vstd::prelude::*;

pub mod asy;
pub mod cfg;
pub mod con_;
pub mod item;
pub mod layout;
pub mod print;
pub mod rif;
pub mod stream;
pub mod syntax;
pub mod saf;
pub mod tokens;
pub mod vis;

verus! {
} // verus!
