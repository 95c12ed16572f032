//! The most used items, for a glob import.
pub use crate::con::{Const, Constant, Constness, Mut, Mutable};
pub use crate::macros::asy::{async_, sync_};
pub use crate::macros::cfg::{reta, reta_attr};
pub use crate::macros::con_::{const_, dyn_};
pub use crate::macros::rif::reta_if;
pub use crate::macros::saf::{safe_, unsafe_};
pub use crate::macros::vis::{priv_, pub_, pub_crate, pub_in, pub_super};
