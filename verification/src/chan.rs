//! The compiler release channel.
use vstd::prelude::*;

pub mod beta;
pub mod nightly;
pub mod stable;

verus! {

/// The compiler release channel: stable, beta or nightly.
///
/// It is `non_exhaustive`: the Rust project may announce another channel.
#[derive(Clone, Copy, PartialEq, Eq)]
#[non_exhaustive]
pub enum Channel {
    /// The stable release channel.
    Stable,
    /// The beta release channel.
    Beta,
    /// The nightly release channel.
    Nightly,
}

/// The name under which a channel is known: `stable`, `beta` or `nightly`.
pub open spec fn channel_name(c: Channel) -> Seq<char> {
    match c {
        Channel::Stable => "stable"@,
        Channel::Beta => "beta"@,
        Channel::Nightly => "nightly"@,
    }
}

impl Channel {
    /// The channel's name, as both the `Debug` and the `Display` form print it.
    pub fn name(&self) -> (r: &'static str)
        ensures
            r@ == channel_name(*self),
    {
        match self {
            Channel::Stable => "stable",
            Channel::Beta => "beta",
            Channel::Nightly => "nightly",
        }
    }
}

} // verus!
