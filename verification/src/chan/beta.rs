//! The channel query as it is compiled by a beta compiler.
use vstd::prelude::*;

use super::Channel;

verus! {

/// The compiler release channel, for a crate that a beta compiler built.
pub const CHANNEL: Channel = Channel::Beta;

/// Returns the compiler release channel, for a crate that a beta compiler built.
pub fn channel() -> (c: Channel)
    ensures
        c == Channel::Beta,
        c == CHANNEL,
{
    Channel::Beta
}

} // verus!
