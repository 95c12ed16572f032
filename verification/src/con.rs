//! Marker types and traits for mutable and constant contexts.
use vstd::prelude::*;

use crate::sealed::ConstnessSeal;

verus! {

/// A marker trait for types that represent const-ness.
///
/// It is sealed: only `Mut` and `Const` implement it.
#[allow(private_bounds)]
pub trait Constness: ConstnessSeal {
}

/// A marker trait for mutable contexts.
pub trait Mutable: Constness {
}

/// A marker trait for constant contexts.
pub trait Constant: Constness {
}

/// Token type of a mutable context.
#[derive(Clone, Copy)]
pub struct Mut;

/// Token type of a constant context.
#[derive(Clone, Copy)]
pub struct Const;

impl Mut {
    /// The name that both the `Debug` and the `Display` form print: `Mut`.
    pub fn name(&self) -> (r: &'static str)
        ensures
            r@ == "Mut"@,
    {
        "Mut"
    }
}

impl Const {
    /// The name that both the `Debug` and the `Display` form print: `Const`.
    pub fn name(&self) -> (r: &'static str)
        ensures
            r@ == "Const"@,
    {
        "Const"
    }
}

impl ConstnessSeal for Mut {
}

impl ConstnessSeal for Const {
}

impl Constness for Mut {
}

impl Constness for Const {
}

impl Mutable for Mut {
}

impl Constant for Const {
}

} // verus!
