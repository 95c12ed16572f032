//! Rust meta: attributes that give control over items at compilation time —
//! their visibility, async-ness, const-ness and safety, and whether they are
//! compiled at all, with conditions that may ask for the compiler release
//! channel — and the channel itself.
//!
//! The attributes' logic works on a plain model of the items and of the
//! conditions (see `macros`); each function states what it makes of them.
use vstd::prelude::*;

pub mod chan;
pub mod con;
pub mod lang;
pub mod macros;
pub mod pre;
mod sealed;

pub use chan::Channel;
pub use con::{Const, Constant, Constness, Mut, Mutable};
pub use macros::asy::{async_, sync_};
pub use macros::cfg::{reta, reta_attr};
pub use macros::con_::{const_, dyn_};
pub use macros::rif::reta_if;
pub use macros::saf::{safe_, unsafe_};
pub use macros::vis::{priv_, pub_, pub_crate, pub_in, pub_super};

verus! {
} // verus!
