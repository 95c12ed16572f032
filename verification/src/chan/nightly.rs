//! The channel query as it is compiled by a nightly compiler.
use vstd::prelude::*;

use super::Channel;

verus! {

/// The compiler release channel, for a crate that a nightly compiler built.
pub const CHANNEL: Channel = Channel::Nightly;

/// Returns the compiler release channel, for a crate that a nightly compiler built.
pub fn channel() -> (c: Channel)
    ensures
        c == Channel::Nightly,
        c == CHANNEL,
{
    Channel::Nightly
}

} // verus!
