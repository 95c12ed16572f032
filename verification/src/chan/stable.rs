//! The channel query as it is compiled by a stable compiler.
use vstd::prelude::*;

use super::Channel;

verus! {

/// The compiler release channel, for a crate that a stable compiler built.
pub const CHANNEL: Channel = Channel::Stable;

/// Returns the compiler release channel, for a crate that a stable compiler built.
pub fn channel() -> (c: Channel)
    ensures
        c == Channel::Stable,
        c == CHANNEL,
{
    Channel::Stable
}

} // verus!
