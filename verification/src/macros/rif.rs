//! `reta_if!(condition)`: a `cfg!` that also decides `channel(...)`.
use vstd::prelude::*;

use crate::chan::Channel;
use crate::macros::cfg::{
    eval_meta, eval_meta_keeps_meaning, eval_meta_residual_ignores_channel, eval_spec, holds,
    read_meta_prefix, stream_is_blank, syn_meta_prefix, unary_nots, CfgResult, Meta, MetaView,
    Outcome,
};
use crate::macros::item::{ErrorKind, Location, MacroError};
use crate::macros::stream::stream_toks;
use crate::macros::tokens::{blank, Tok};

verus! {

/// What `reta_if!` expands to.
pub enum Condition {
    /// The literal `true` or `false`.
    Literal(bool),
    /// `cfg!(...)` of what is left of the condition.
    Cfg(Meta),
}

/// The mathematical view of what `reta_if!` expands to.
pub ghost enum ConditionView {
    Literal(bool),
    Cfg(MetaView),
}

impl View for Condition {
    type V = ConditionView;

    open spec fn view(&self) -> ConditionView {
        match *self {
            Condition::Literal(b) => ConditionView::Literal(b),
            Condition::Cfg(m) => ConditionView::Cfg(m@),
        }
    }
}

/// What `reta_if!(condition)` expands to on channel `ch`.
pub open spec fn reta_if_spec(m: MetaView, ch: Channel) -> ConditionView {
    match eval_spec(m, ch) {
        Outcome::Known(b) => ConditionView::Literal(b),
        Outcome::Unknown(rest) => ConditionView::Cfg(rest),
    }
}

/// `reta_if!(condition)`, expanding with the compiler release channel
/// `channel`: `true` or `false` where the condition is decided, and
/// `cfg!(...)` of what is left of it otherwise.
pub fn expand_reta_if(condition: Meta, channel: Channel) -> (r: Condition)
    ensures
        r@ == reta_if_spec(condition@, channel),
{
    match eval_meta(condition, channel) {
        CfgResult::Known(b) => Condition::Literal(b),
        CfgResult::Unknown(rest) => Condition::Cfg(rest),
    }
}

/// What `reta_if!` expands to on its argument's tokens, on channel `ch`: a
/// condition read by `syn` from the front, with nothing after it but empty
/// invisible groups.
pub open spec fn reta_if_tokens_spec(t: Seq<Tok>, ch: Channel) -> Result<ConditionView, MacroError> {
    match syn_meta_prefix(t) {
        Some((m, rest)) => if blank(rest) {
            Ok(reta_if_spec(m, ch))
        } else {
            Err(MacroError { kind: ErrorKind::TokensAfterCondition, at: Location::Whole })
        },
        None => Err(MacroError { kind: ErrorKind::BadCondition, at: Location::Whole }),
    }
}

/// `reta_if!(condition)`, expanding with the compiler release channel
/// `channel`: reads the argument as one condition, then gives `true` or
/// `false` where it is decided, and `cfg!(...)` of what is left of it
/// otherwise.
pub fn reta_if(input: &proc_macro2::TokenStream, channel: Channel) -> (r: Result<Condition, MacroError>)
    ensures
        match r {
            Ok(c) => reta_if_tokens_spec(stream_toks(*input), channel) == Ok::<ConditionView, MacroError>(c@),
            Err(e) => reta_if_tokens_spec(stream_toks(*input), channel) == Err::<ConditionView, MacroError>(e),
        },
{
    match read_meta_prefix(input) {
        Some((m, rest)) => if stream_is_blank(&rest) {
            Ok(expand_reta_if(m, channel))
        } else {
            Err(MacroError { kind: ErrorKind::TokensAfterCondition, at: Location::Whole })
        },
        None => Err(MacroError { kind: ErrorKind::BadCondition, at: Location::Whole }),
    }
}

/// `reta_if!(condition)` is `cfg!(condition)` as it would be if the
/// compiler knew `channel(...)`: a literal is the condition's value on this
/// channel, and a `cfg!` reads a condition that means the same on this
/// channel and the same on every channel.
pub proof fn reta_if_acts_as_cfg(m: MetaView, ch: Channel, other: Channel, atom: spec_fn(MetaView) -> bool)
    requires
        unary_nots(m, ch),
    ensures
        reta_if_spec(m, ch) matches ConditionView::Literal(b) ==> b == holds(m, ch, atom),
        reta_if_spec(m, ch) matches ConditionView::Cfg(rest) ==> holds(rest, other, atom) == holds(
            m,
            ch,
            atom,
        ),
{
    eval_meta_keeps_meaning(m, ch, atom);
    eval_meta_residual_ignores_channel(m, ch, other, atom);
}

} // verus!
