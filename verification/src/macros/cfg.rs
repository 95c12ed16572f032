//! Conditions of `#[reta]`, `#[reta_attr]` and `reta_if!`: a `cfg` predicate
//! in which `channel(...)` is decided when the macro expands, and the rest is
//! left for the compiler.
use vstd::prelude::*;

use crate::chan::{channel_name, Channel};
use quote::ToTokens;
use syn::parse::ParseStream;
use syn::MacroDelimiter;
use crate::macros::item::{ErrorKind, ItemKind, Location, MacroError};
use crate::macros::stream::{clone_stream, read_stream, stream_toks};
use crate::macros::syntax::{kind_of, read_item_kind, syn_item};
use crate::macros::tokens::{
    blank, extend_tokens, flat, flatten, is_blank, lemma_toks_view, lemma_toks_view_push, text_is, tok_view,
    toks_view, Delimiter, Spacing, Tok, TokenTree,
};

verus! {

/// A condition, as `syn` reads it from the attribute's tokens; its tokens
/// are kept as `syn` hands them back.
pub enum Meta {
    /// A bare path, such as `unix`: its tokens.
    Path(proc_macro2::TokenStream),
    /// A name-value pair, such as `feature = "x"`: its tokens.
    NameValue(proc_macro2::TokenStream),
    /// A list, such as `all(a, b)`: the path, the delimiter, and the tokens
    /// inside the delimiter. Its arguments are what `syn` reads from those
    /// tokens as comma-separated conditions.
    List {
        path: proc_macro2::TokenStream,
        delimiter: Delimiter,
        tokens: proc_macro2::TokenStream,
    },
    /// A list that evaluation puts together from conditions: the path, the
    /// delimiter, and the arguments, printed separated by commas.
    Joined {
        path: proc_macro2::TokenStream,
        delimiter: Delimiter,
        parts: Vec<Meta>,
    },
}

/// The mathematical view of a condition: a list has its path, delimiter and
/// tokens, and its arguments where the tokens read as conditions.
pub ghost enum MetaView {
    Path(Seq<Tok>),
    NameValue(Seq<Tok>),
    List(Seq<Tok>, Delimiter, Seq<Tok>, Option<Seq<MetaView>>),
}

/// The outcome of evaluating a condition when the macro expands.
pub enum CfgResult {
    /// The condition is decided.
    Known(bool),
    /// The condition depends on what only the compiler knows; this is what
    /// is left of it.
    Unknown(Meta),
}

/// The mathematical view of an outcome.
pub ghost enum Outcome {
    Known(bool),
    Unknown(MetaView),
}

/// A `channel(...)` condition: a channel name, perhaps negated.
pub struct ChannelCondition {
    pub negated: bool,
    pub channel: String,
}

pub open spec fn meta_view(m: Meta) -> MetaView
    decreases m,
{
    match m {
        Meta::Path(t) => MetaView::Path(stream_toks(t)),
        Meta::NameValue(t) => MetaView::NameValue(stream_toks(t)),
        Meta::List { path, delimiter, tokens } => MetaView::List(
            stream_toks(path),
            delimiter,
            stream_toks(tokens),
            syn_metas(stream_toks(tokens)),
        ),
        Meta::Joined { path, delimiter, parts } => MetaView::List(
            stream_toks(path),
            delimiter,
            join_tokens(metas_view(parts@)),
            Some(metas_view(parts@)),
        ),
    }
}

pub open spec fn metas_view(s: Seq<Meta>) -> Seq<MetaView>
    decreases s,
{
    if s.len() == 0 {
        Seq::empty()
    } else {
        metas_view(s.drop_last()).push(meta_view(s.last()))
    }
}

impl View for Meta {
    type V = MetaView;

    open spec fn view(&self) -> MetaView {
        meta_view(*self)
    }
}

impl View for CfgResult {
    type V = Outcome;

    open spec fn view(&self) -> Outcome {
        match *self {
            CfgResult::Known(b) => Outcome::Known(b),
            CfgResult::Unknown(m) => Outcome::Unknown(meta_view(m)),
        }
    }
}

impl View for ChannelCondition {
    type V = (bool, Seq<char>);

    open spec fn view(&self) -> (bool, Seq<char>) {
        (self.negated, self.channel@)
    }
}

// ---------------------------------------------------------------------------
// Conditions as `syn` reads them.

/// What `syn` reads from tokens as conditions separated by commas, a comma
/// after the last allowed (`Punctuated::<syn::Meta, Token![,]>`'s
/// `parse_terminated`), each by its view.
pub uninterp spec fn syn_metas(toks: Seq<Tok>) -> Option<Seq<MetaView>>;

/// What `syn` reads from the front of tokens as one condition (`syn::Meta`),
/// by its view, and the tokens after it.
pub uninterp spec fn syn_meta_prefix(toks: Seq<Tok>) -> Option<(MetaView, Seq<Tok>)>;

/// What `syn` reads from the front of tokens as a comma (`Token![,]`): the
/// tokens after it.
pub uninterp spec fn syn_comma_prefix(toks: Seq<Tok>) -> Option<Seq<Tok>>;

/// The views of conditions, where there are some.
pub open spec fn opt_metas_view(v: Option<Vec<Meta>>) -> Option<Seq<MetaView>> {
    match v {
        Some(ms) => Some(metas_view(ms@)),
        None => None,
    }
}

/// Reads a token stream as conditions separated by commas, with
/// `Punctuated::<syn::Meta, Token![,]>::parse_terminated` through
/// `syn::parse::Parser::parse2`; each condition keeps its tokens
/// (`to_token_stream`; a list's inner tokens as `syn` keeps them). Claimed:
/// the outcome is named by `syn_metas` on the stream's tokens.
#[verifier::external_body]
fn parse_metas(s: &proc_macro2::TokenStream) -> (r: Option<Vec<Meta>>)
    ensures
        syn_metas(stream_toks(*s)) == opt_metas_view(r),
{
    let parser = syn::punctuated::Punctuated::<syn::Meta, syn::token::Comma>::parse_terminated;
    let metas = syn::parse::Parser::parse2(parser, s.clone()).ok()?;
    Some(metas.into_iter().map(|m| match m {
        syn::Meta::Path(p) => Meta::Path(p.into_token_stream()),
        syn::Meta::NameValue(n) => Meta::NameValue(n.into_token_stream()),
        syn::Meta::List(l) => Meta::List { path: l.path.into_token_stream(), delimiter: match l.delimiter {
            MacroDelimiter::Paren(_) => Delimiter::Parenthesis,
            MacroDelimiter::Brace(_) => Delimiter::Brace,
            MacroDelimiter::Bracket(_) => Delimiter::Bracket,
        }, tokens: l.tokens },
    }).collect())
}

/// Reads a condition from the front of a token stream with
/// `syn::parse::Parser::parse2`, as `syn::Meta`'s parser and then the rest
/// of the stream as it stands; the condition keeps its tokens as in
/// `parse_metas`. Claimed: the outcome is named by `syn_meta_prefix`.
#[verifier::external_body]
fn parse_meta_prefix(s: &proc_macro2::TokenStream) -> (r: Option<(Meta, proc_macro2::TokenStream)>)
    ensures
        syn_meta_prefix(stream_toks(*s)) == match r {
            Some((m, rest)) => Some((m@, stream_toks(rest))),
            None => None,
        },
{
    let parser = |input: ParseStream| -> syn::Result<(syn::Meta, proc_macro2::TokenStream)> { Ok((input.parse()?, input.parse()?)) };
    let (m, rest) = syn::parse::Parser::parse2(parser, s.clone()).ok()?;
    Some((match m {
        syn::Meta::Path(p) => Meta::Path(p.into_token_stream()),
        syn::Meta::NameValue(n) => Meta::NameValue(n.into_token_stream()),
        syn::Meta::List(l) => Meta::List { path: l.path.into_token_stream(), delimiter: match l.delimiter {
            MacroDelimiter::Paren(_) => Delimiter::Parenthesis,
            MacroDelimiter::Brace(_) => Delimiter::Brace,
            MacroDelimiter::Bracket(_) => Delimiter::Bracket,
        }, tokens: l.tokens },
    }, rest))
}

/// Reads a comma from the front of a token stream with
/// `syn::parse::Parser::parse2`, as `Token![,]`'s parser and then the rest
/// of the stream. Claimed: the outcome is named by `syn_comma_prefix`; where
/// the stream starts with a comma token, the rest is what follows it.
#[verifier::external_body]
fn parse_comma_prefix(s: &proc_macro2::TokenStream) -> (r: Option<proc_macro2::TokenStream>)
    ensures
        syn_comma_prefix(stream_toks(*s)) == match r {
            Some(rest) => Some(stream_toks(rest)),
            None => None,
        },
        stream_toks(*s).len() > 0 && is_comma(stream_toks(*s)[0]) ==> r is Some && stream_toks(r->0)
            == stream_toks(*s).skip(1),
{
    let parser = |input: ParseStream| -> syn::Result<proc_macro2::TokenStream> { input.parse::<syn::token::Comma>()?; input.parse() };
    syn::parse::Parser::parse2(parser, s.clone()).ok()
}

/// The conditions, separated by commas, that `syn` reads from a token
/// stream.
pub fn read_metas(s: &proc_macro2::TokenStream) -> (r: Option<Vec<Meta>>)
    ensures
        opt_metas_view(r) == syn_metas(stream_toks(*s)),
{
    parse_metas(s)
}

/// The condition that `syn` reads from the front of a token stream, and the
/// tokens after it.
pub fn read_meta_prefix(s: &proc_macro2::TokenStream) -> (r: Option<(Meta, proc_macro2::TokenStream)>)
    ensures
        syn_meta_prefix(stream_toks(*s)) == match r {
            Some((m, rest)) => Some((m@, stream_toks(rest))),
            None => None,
        },
{
    parse_meta_prefix(s)
}

/// One condition that `syn` reads from a whole token stream, with nothing
/// after it but what `syn` passes over.
pub open spec fn syn_meta(toks: Seq<Tok>) -> Option<MetaView> {
    match syn_meta_prefix(toks) {
        Some((m, rest)) => if blank(rest) {
            Some(m)
        } else {
            None
        },
        None => None,
    }
}

/// Whether a token stream holds nothing but what `syn` passes over (empty
/// invisible groups), so that a parse that ends before it has read all.
pub fn stream_is_blank(s: &proc_macro2::TokenStream) -> (r: bool)
    ensures
        r == blank(stream_toks(*s)),
{
    let v = read_stream(s);
    is_blank(&v)
}

/// One condition that `syn` reads from a whole token stream.
pub fn read_meta(s: &proc_macro2::TokenStream) -> (r: Option<Meta>)
    ensures
        match r {
            Some(m) => Some(m@),
            None => None,
        } == syn_meta(stream_toks(*s)),
{
    match read_meta_prefix(s) {
        Some((m, rest)) => if stream_is_blank(&rest) {
            Some(m)
        } else {
            None
        },
        None => None,
    }
}

/// `metas_view` keeps the length, and views each element on its own.
pub proof fn lemma_metas_view(s: Seq<Meta>)
    ensures
        metas_view(s).len() == s.len(),
        forall|i: int| 0 <= i < s.len() ==> #[trigger] metas_view(s)[i] == meta_view(s[i]),
    decreases s.len(),
{
    if s.len() > 0 {
        lemma_metas_view(s.drop_last());
    }
}

// ---------------------------------------------------------------------------
// The channel condition grammar: `name`, `!name` or `not(name)`.

/// The words that `syn` refuses as identifiers: `_` and the keywords of its
/// list. `syn`'s parser for `syn::Ident` reads an identifier token as an
/// identifier exactly where its text is none of these (`accept_as_ident`,
/// applied to the token's text), and that is the whole of what it does with
/// an identifier token; the list is written here and decided by comparing
/// texts.
pub open spec fn syn_keyword(s: Seq<char>) -> bool {
    s == "_"@ ||
    s == "abstract"@ ||
    s == "as"@ ||
    s == "async"@ ||
    s == "await"@ ||
    s == "become"@ ||
    s == "box"@ ||
    s == "break"@ ||
    s == "const"@ ||
    s == "continue"@ ||
    s == "crate"@ ||
    s == "do"@ ||
    s == "dyn"@ ||
    s == "else"@ ||
    s == "enum"@ ||
    s == "extern"@ ||
    s == "false"@ ||
    s == "final"@ ||
    s == "fn"@ ||
    s == "for"@ ||
    s == "if"@ ||
    s == "impl"@ ||
    s == "in"@ ||
    s == "let"@ ||
    s == "loop"@ ||
    s == "macro"@ ||
    s == "match"@ ||
    s == "mod"@ ||
    s == "move"@ ||
    s == "mut"@ ||
    s == "override"@ ||
    s == "priv"@ ||
    s == "pub"@ ||
    s == "ref"@ ||
    s == "return"@ ||
    s == "Self"@ ||
    s == "self"@ ||
    s == "static"@ ||
    s == "struct"@ ||
    s == "super"@ ||
    s == "trait"@ ||
    s == "true"@ ||
    s == "try"@ ||
    s == "type"@ ||
    s == "typeof"@ ||
    s == "unsafe"@ ||
    s == "unsized"@ ||
    s == "use"@ ||
    s == "virtual"@ ||
    s == "where"@ ||
    s == "while"@ ||
    s == "yield"@
}

/// Whether a text is one of the words that `syn` refuses as identifiers.
pub fn is_syn_keyword(s: &String) -> (r: bool)
    ensures
        r == syn_keyword(s@),
{
    text_is(s, "_") ||
        text_is(s, "abstract") ||
        text_is(s, "as") ||
        text_is(s, "async") ||
        text_is(s, "await") ||
        text_is(s, "become") ||
        text_is(s, "box") ||
        text_is(s, "break") ||
        text_is(s, "const") ||
        text_is(s, "continue") ||
        text_is(s, "crate") ||
        text_is(s, "do") ||
        text_is(s, "dyn") ||
        text_is(s, "else") ||
        text_is(s, "enum") ||
        text_is(s, "extern") ||
        text_is(s, "false") ||
        text_is(s, "final") ||
        text_is(s, "fn") ||
        text_is(s, "for") ||
        text_is(s, "if") ||
        text_is(s, "impl") ||
        text_is(s, "in") ||
        text_is(s, "let") ||
        text_is(s, "loop") ||
        text_is(s, "macro") ||
        text_is(s, "match") ||
        text_is(s, "mod") ||
        text_is(s, "move") ||
        text_is(s, "mut") ||
        text_is(s, "override") ||
        text_is(s, "priv") ||
        text_is(s, "pub") ||
        text_is(s, "ref") ||
        text_is(s, "return") ||
        text_is(s, "Self") ||
        text_is(s, "self") ||
        text_is(s, "static") ||
        text_is(s, "struct") ||
        text_is(s, "super") ||
        text_is(s, "trait") ||
        text_is(s, "true") ||
        text_is(s, "try") ||
        text_is(s, "type") ||
        text_is(s, "typeof") ||
        text_is(s, "unsafe") ||
        text_is(s, "unsized") ||
        text_is(s, "use") ||
        text_is(s, "virtual") ||
        text_is(s, "where") ||
        text_is(s, "while") ||
        text_is(s, "yield")
}

/// The text of an identifier token.
pub open spec fn ident_text(t: Tok) -> Option<Seq<char>> {
    match t {
        Tok::Ident(s) => Some(s),
        _ => None,
    }
}

/// Whether a token is the punctuation `!`.
pub open spec fn is_bang(t: Tok) -> bool {
    match t {
        Tok::Punct(c, _) => c == '!',
        _ => false,
    }
}

/// The one token inside a parenthesized group that holds exactly one token,
/// invisible groups read through.
pub open spec fn paren_single(t: Tok) -> Option<Tok> {
    match t {
        Tok::Group(d, inner) => if d == Delimiter::Parenthesis && flat(inner).len() == 1 {
            Some(flat(inner)[0])
        } else {
            None
        },
        _ => None,
    }
}

/// The shape of the tokens of `channel(...)`: `(negated, name)` where they
/// are `name`, `!name` or `not(name)` with nothing after, each name one
/// identifier token; `None` otherwise. A lone `not` is no name: it must be
/// followed by its parenthesized operand.
pub open spec fn condition_shape(t: Seq<Tok>) -> Option<(bool, Seq<char>)> {
    if t.len() == 0 {
        None
    } else if is_bang(t[0]) {
        if t.len() == 2 && ident_text(t[1]) is Some {
            Some((true, ident_text(t[1]).unwrap()))
        } else {
            None
        }
    } else if ident_text(t[0]) == Some("not"@) {
        if t.len() == 2 && paren_single(t[1]) is Some && ident_text(paren_single(t[1]).unwrap()) is Some {
            Some((true, ident_text(paren_single(t[1]).unwrap()).unwrap()))
        } else {
            None
        }
    } else if t.len() == 1 && ident_text(t[0]) is Some {
        Some((false, ident_text(t[0]).unwrap()))
    } else {
        None
    }
}

/// What the tokens of `channel(...)` read as: the shape of the tokens with
/// invisible groups read through (as `syn` reads them), where `syn` reads the
/// name as an identifier, that is, where it is no keyword.
pub open spec fn condition_spec(t: Seq<Tok>) -> Option<(bool, Seq<char>)> {
    match condition_shape(flat(t)) {
        Some(c) => if syn_keyword(c.1) {
            None
        } else {
            Some(c)
        },
        None => None,
    }
}

/// Whether a channel condition holds on the given channel: a name other than
/// `stable`, `beta` and `nightly` names no channel.
pub open spec fn condition_holds(c: (bool, Seq<char>), ch: Channel) -> bool {
    let is_match = c.1 == channel_name(ch);
    if c.0 {
        !is_match
    } else {
        is_match
    }
}

/// The text of an identifier token.
fn ident_of(t: &TokenTree) -> (r: Option<&String>)
    ensures
        r matches Some(s) ==> ident_text(tok_view(*t)) == Some(s@),
        r is None ==> ident_text(tok_view(*t)) is None,
{
    match t {
        TokenTree::Ident(s) => Some(s),
        _ => None,
    }
}

impl ChannelCondition {
    /// Reads the shape of the tokens of `channel(...)`: the negation and the
    /// name of `name`, `!name` or `not(name)`.
    pub fn shape(tokens: &Vec<TokenTree>) -> (r: Option<(bool, String)>)
        ensures
            r matches Some((n, s)) ==> condition_shape(toks_view(tokens@)) == Some((n, s@)),
            r is None ==> condition_shape(toks_view(tokens@)) is None,
    {
        proof {
            lemma_toks_view(tokens@);
        }
        let n = tokens.len();
        if n == 0 {
            return None;
        }
        let bang = match &tokens[0] {
            TokenTree::Punct(c, _) => *c == '!',
            _ => false,
        };
        if bang {
            if n == 2 {
                if let Some(name) = ident_of(&tokens[1]) {
                    return Some((true, name.clone()));
                }
            }
            return None;
        }
        let first = ident_of(&tokens[0]);
        let is_not = match first {
            Some(w) => text_is(w, "not"),
            None => false,
        };
        if is_not {
            if n == 2 {
                if let TokenTree::Group(d, inner) = &tokens[1] {
                    let inner = flatten(inner);
                    proof {
                        lemma_toks_view(inner@);
                    }
                    if *d == Delimiter::Parenthesis && inner.len() == 1 {
                        if let Some(name) = ident_of(&inner[0]) {
                            return Some((true, name.clone()));
                        }
                    }
                }
            }
            return None;
        }
        if n == 1 {
            if let Some(name) = first {
                return Some((false, name.clone()));
            }
        }
        None
    }

    /// Reads the tokens of `channel(...)`: `name`, `!name` or `not(name)`,
    /// the name an identifier that is no keyword.
    pub fn parse(tokens: &Vec<TokenTree>) -> (r: Option<ChannelCondition>)
        ensures
            r matches Some(c) ==> condition_spec(toks_view(tokens@)) == Some(c@),
            r is None ==> condition_spec(toks_view(tokens@)) is None,
    {
        match Self::shape(&flatten(tokens)) {
            Some((negated, name)) => if is_syn_keyword(&name) {
                None
            } else {
                Some(ChannelCondition { negated, channel: name })
            },
            None => None,
        }
    }

    /// Whether the condition holds on the given channel.
    pub fn holds(&self, channel: Channel) -> (r: bool)
        ensures
            r == condition_holds(self@, channel),
    {
        let is_match = text_is(&self.channel, channel.name());
        if self.negated {
            !is_match
        } else {
            is_match
        }
    }
}

// ---------------------------------------------------------------------------
// Evaluation.

/// Whether a path is the single identifier `w`.
pub open spec fn is_word(p: Seq<Tok>, w: Seq<char>) -> bool {
    p.len() == 1 && p[0] == Tok::Ident(w)
}

/// The tokens that print a condition.
pub open spec fn meta_tokens(m: MetaView) -> Seq<Tok> {
    match m {
        MetaView::Path(t) => t,
        MetaView::NameValue(t) => t,
        MetaView::List(p, d, t, _) => p.push(Tok::Group(d, t)),
    }
}

/// The tokens that print conditions separated by commas.
pub open spec fn join_tokens(ms: Seq<MetaView>) -> Seq<Tok>
    decreases ms.len(),
{
    if ms.len() == 0 {
        Seq::empty()
    } else if ms.len() == 1 {
        meta_tokens(ms[0])
    } else {
        join_tokens(ms.drop_last()).push(Tok::Punct(',', Spacing::Alone)) + meta_tokens(ms.last())
    }
}

/// Whether some outcome is `Known(b)`.
pub open spec fn any_known(rs: Seq<Outcome>, b: bool) -> bool
    decreases rs.len(),
{
    rs.len() > 0 && (any_known(rs.drop_last(), b) || rs.last() == Outcome::Known(b))
}

/// What is left of the undecided outcomes, in order.
pub open spec fn residuals(rs: Seq<Outcome>) -> Seq<MetaView>
    decreases rs.len(),
{
    if rs.len() == 0 {
        Seq::empty()
    } else {
        match rs.last() {
            Outcome::Unknown(m) => residuals(rs.drop_last()).push(m),
            Outcome::Known(_) => residuals(rs.drop_last()),
        }
    }
}

/// What `all`, `any` and `not` make of the outcomes of their arguments;
/// `m` is the list itself, kept as it is where nothing is decided.
pub open spec fn combine(path: Seq<Tok>, d: Delimiter, m: MetaView, rs: Seq<Outcome>) -> Outcome {
    let res = residuals(rs);
    if is_word(path, "all"@) {
        if any_known(rs, false) {
            Outcome::Known(false)
        } else if res.len() == 0 {
            Outcome::Known(true)
        } else if res.len() == 1 {
            Outcome::Unknown(res[0])
        } else {
            Outcome::Unknown(MetaView::List(path, d, join_tokens(res), Some(res)))
        }
    } else if is_word(path, "any"@) {
        if any_known(rs, true) {
            Outcome::Known(true)
        } else if res.len() == 0 {
            Outcome::Known(false)
        } else if res.len() == 1 {
            Outcome::Unknown(res[0])
        } else {
            Outcome::Unknown(MetaView::List(path, d, join_tokens(res), Some(res)))
        }
    } else if is_word(path, "not"@) {
        if any_known(rs, true) {
            Outcome::Known(false)
        } else if any_known(rs, false) {
            Outcome::Known(true)
        } else if res.len() == 1 {
            Outcome::Unknown(MetaView::List(path, d, meta_tokens(res[0]), Some(res)))
        } else {
            Outcome::Unknown(m)
        }
    } else {
        Outcome::Unknown(m)
    }
}

/// The outcome of a condition when the macro expands on channel `ch`:
/// `channel(...)` is decided, `all`, `any` and `not` are decided as far as
/// their arguments are, and everything else is left undecided.
pub open spec fn eval_spec(m: MetaView, ch: Channel) -> Outcome
    decreases m,
{
    match m {
        MetaView::List(path, d, tokens, nested) => {
            if is_word(path, "channel"@) && condition_spec(tokens) is Some {
                Outcome::Known(condition_holds(condition_spec(tokens).unwrap(), ch))
            } else {
                match nested {
                    Some(ms) => combine(path, d, m, eval_seq(ms, ch)),
                    None => Outcome::Unknown(m),
                }
            }
        },
        _ => Outcome::Unknown(m),
    }
}

/// The outcomes of a sequence of conditions.
pub open spec fn eval_seq(ms: Seq<MetaView>, ch: Channel) -> Seq<Outcome>
    decreases ms,
{
    if ms.len() == 0 {
        Seq::empty()
    } else {
        eval_seq(ms.drop_last(), ch).push(eval_spec(ms.last(), ch))
    }
}

/// Whether a path is the single identifier `w`.
fn path_is(path: &proc_macro2::TokenStream, w: &str) -> (r: bool)
    ensures
        r == is_word(stream_toks(*path), w@),
{
    let path = read_stream(path);
    proof {
        lemma_toks_view(path@);
    }
    if path.len() != 1 {
        return false;
    }
    match &path[0] {
        TokenTree::Ident(s) => text_is(s, w),
        _ => false,
    }
}

/// A copy of a condition, with the same view.
pub fn duplicate_meta(m: &Meta) -> (r: Meta)
    ensures
        r@ == m@,
    decreases m,
{
    match m {
        Meta::Path(t) => Meta::Path(clone_stream(t)),
        Meta::NameValue(t) => Meta::NameValue(clone_stream(t)),
        Meta::List { path, delimiter, tokens } => Meta::List {
            path: clone_stream(path),
            delimiter: *delimiter,
            tokens: clone_stream(tokens),
        },
        Meta::Joined { path, delimiter, parts } => Meta::Joined {
            path: clone_stream(path),
            delimiter: *delimiter,
            parts: duplicate_metas(parts),
        },
    }
}

/// A copy of a sequence of conditions, with the same view.
pub fn duplicate_metas(v: &Vec<Meta>) -> (r: Vec<Meta>)
    ensures
        metas_view(r@) == metas_view(v@),
    decreases v,
{
    let mut r: Vec<Meta> = Vec::new();
    let mut i: usize = 0;
    while i < v.len()
        invariant
            i <= v.len(),
            metas_view(r@) == metas_view(v@.take(i as int)),
        decreases v.len() - i,
    {
        assert(decreases_to!(v => v@[i as int]));
        let m = duplicate_meta(&v[i]);
        proof {
            assert(v@.take(i + 1).drop_last() =~= v@.take(i as int));
            assert(r@.push(m).drop_last() =~= r@);
        }
        r.push(m);
        i = i + 1;
    }
    assert(v@.take(v.len() as int) =~= v@);
    r
}

/// The tokens that print a condition.
pub fn tokens_of(m: &Meta) -> (r: Vec<TokenTree>)
    ensures
        toks_view(r@) == meta_tokens(m@),
    decreases m,
{
    match m {
        Meta::Path(t) => read_stream(t),
        Meta::NameValue(t) => read_stream(t),
        Meta::List { path, delimiter, tokens } => {
            let mut r = read_stream(path);
            let g = TokenTree::Group(*delimiter, read_stream(tokens));
            proof {
                lemma_toks_view_push(r@, g);
            }
            r.push(g);
            r
        },
        Meta::Joined { path, delimiter, parts } => {
            let mut r = read_stream(path);
            let g = TokenTree::Group(*delimiter, join_metas(parts));
            proof {
                lemma_toks_view_push(r@, g);
            }
            r.push(g);
            r
        },
    }
}

/// The tokens that print conditions separated by commas.
pub fn join_metas(ms: &Vec<Meta>) -> (r: Vec<TokenTree>)
    ensures
        toks_view(r@) == join_tokens(metas_view(ms@)),
    decreases ms,
{
    let ghost vs = metas_view(ms@);
    proof {
        lemma_metas_view(ms@);
    }
    let mut r: Vec<TokenTree> = Vec::new();
    let mut i: usize = 0;
    while i < ms.len()
        invariant
            i <= ms.len(),
            vs == metas_view(ms@),
            vs.len() == ms.len(),
            forall|j: int| 0 <= j < ms.len() ==> #[trigger] vs[j] == meta_view(ms@[j]),
            toks_view(r@) == join_tokens(vs.take(i as int)),
        decreases ms.len() - i,
    {
        let ghost before = r@;
        if i > 0 {
            let comma = TokenTree::Punct(',', Spacing::Alone);
            proof {
                lemma_toks_view_push(r@, comma);
            }
            r.push(comma);
        }
        assert(decreases_to!(ms => ms@[i as int]));
        let t = tokens_of(&ms[i]);
        extend_tokens(&mut r, &t);
        proof {
            assert(vs.take(i + 1).drop_last() =~= vs.take(i as int));
            assert(vs.take(i + 1).last() == vs[i as int]);
            if i == 0 {
                assert(toks_view(before) =~= Seq::<Tok>::empty());
                assert(toks_view(r@) =~= meta_tokens(vs[0]));
            }
        }
        i = i + 1;
    }
    assert(vs.take(ms.len() as int) =~= vs);
    r
}

/// Evaluates a condition on the given channel, leaving its argument as it is.
fn eval_ref(meta: &Meta, channel: Channel) -> (r: CfgResult)
    ensures
        r@ == eval_spec(meta@, channel),
    decreases meta@,
{
    let (path, delimiter, ms) = match meta {
        Meta::List { path, delimiter, tokens } => {
            if path_is(path, "channel") {
                let inner = read_stream(tokens);
                if let Some(cond) = ChannelCondition::parse(&inner) {
                    return CfgResult::Known(cond.holds(channel));
                }
            }
            match read_metas(tokens) {
                Some(ms) => (path, *delimiter, ms),
                None => {
                    return CfgResult::Unknown(duplicate_meta(meta));
                },
            }
        },
        Meta::Joined { path, delimiter, parts } => {
            if path_is(path, "channel") {
                let joined = join_metas(parts);
                if let Some(cond) = ChannelCondition::parse(&joined) {
                    return CfgResult::Known(cond.holds(channel));
                }
            }
            (path, *delimiter, duplicate_metas(parts))
        },
        _ => {
            return CfgResult::Unknown(duplicate_meta(meta));
        },
    };
    proof {
        let mv = meta@;
        assert(mv->List_3 == Some(metas_view(ms@)));
        assert(decreases_to!(mv => mv->List_3));
        let o = mv->List_3;
        assert(decreases_to!(o => o->0));
    }
    let ghost vs = metas_view(ms@);
    let (has_true, has_false, mut evaluated) = eval_nested(&ms, channel);
    let ghost rs = eval_seq(vs, channel);
    let ghost res = residuals(rs);
    proof {
        lemma_metas_view(evaluated@);
    }
    if path_is(path, "all") {
        if has_false {
            return CfgResult::Known(false);
        }
        if evaluated.len() == 0 {
            return CfgResult::Known(true);
        }
        if evaluated.len() == 1 {
            let last = evaluated.pop().unwrap();
            return CfgResult::Unknown(last);
        }
        return CfgResult::Unknown(
            Meta::Joined { path: clone_stream(path), delimiter, parts: evaluated },
        );
    } else if path_is(path, "any") {
        if has_true {
            return CfgResult::Known(true);
        }
        if evaluated.len() == 0 {
            return CfgResult::Known(false);
        }
        if evaluated.len() == 1 {
            let last = evaluated.pop().unwrap();
            return CfgResult::Unknown(last);
        }
        return CfgResult::Unknown(
            Meta::Joined { path: clone_stream(path), delimiter, parts: evaluated },
        );
    } else if path_is(path, "not") {
        if has_true {
            return CfgResult::Known(false);
        }
        if has_false {
            return CfgResult::Known(true);
        }
        if evaluated.len() == 1 {
            return CfgResult::Unknown(
                Meta::Joined { path: clone_stream(path), delimiter, parts: evaluated },
            );
        }
    }
    CfgResult::Unknown(duplicate_meta(meta))
}

/// Evaluates each of a sequence of conditions: whether one is decided true,
/// whether one is decided false, and what is left of the undecided ones.
fn eval_nested(ms: &Vec<Meta>, channel: Channel) -> (r: (bool, bool, Vec<Meta>))
    ensures
        r.0 == any_known(eval_seq(metas_view(ms@), channel), true),
        r.1 == any_known(eval_seq(metas_view(ms@), channel), false),
        metas_view(r.2@) == residuals(eval_seq(metas_view(ms@), channel)),
    decreases metas_view(ms@),
{
    let ghost vs = metas_view(ms@);
    proof {
        lemma_metas_view(ms@);
    }
    let mut evaluated: Vec<Meta> = Vec::new();
    let mut has_true = false;
    let mut has_false = false;
    let mut i: usize = 0;
    while i < ms.len()
        invariant
            i <= ms.len(),
            vs == metas_view(ms@),
            vs.len() == ms.len(),
            forall|j: int| 0 <= j < ms.len() ==> #[trigger] vs[j] == meta_view(ms@[j]),
            has_true == any_known(eval_seq(vs.take(i as int), channel), true),
            has_false == any_known(eval_seq(vs.take(i as int), channel), false),
            metas_view(evaluated@) == residuals(eval_seq(vs.take(i as int), channel)),
        decreases ms.len() - i,
    {
        assert(decreases_to!(vs => vs[i as int]));
        let out = eval_ref(&ms[i], channel);
        let ghost prev = eval_seq(vs.take(i as int), channel);
        proof {
            assert(vs.take(i + 1).drop_last() =~= vs.take(i as int));
            assert(vs.take(i + 1).last() == vs[i as int]);
            let next = eval_seq(vs.take(i + 1), channel);
            assert(next == prev.push(eval_spec(vs[i as int], channel)));
            assert(next.drop_last() =~= prev);
        }
        match out {
            CfgResult::Known(true) => {
                has_true = true;
            },
            CfgResult::Known(false) => {
                has_false = true;
            },
            CfgResult::Unknown(m) => {
                proof {
                    assert(evaluated@.push(m).drop_last() =~= evaluated@);
                }
                evaluated.push(m);
            },
        }
        i = i + 1;
    }
    assert(vs.take(ms.len() as int) =~= vs);
    (has_true, has_false, evaluated)
}

/// Evaluates a condition when the macro expands on the compiler release
/// channel `channel`: `channel(...)` is decided, `all`, `any` and `not` are
/// decided as far as their arguments are, and what is left is handed back for
/// the compiler's `cfg`.
pub fn eval_meta(meta: Meta, channel: Channel) -> (r: CfgResult)
    ensures
        r@ == eval_spec(meta@, channel),
{
    eval_ref(&meta, channel)
}

// ---------------------------------------------------------------------------
// Meaning of a condition, and what evaluation keeps of it.

/// Whether a condition holds, on channel `ch`, when `atom` says which of the
/// conditions that only the compiler decides hold (`unix`, `feature = "x"`,
/// an unknown list, ...). `channel(...)`, `all`, `any` and a `not` of one
/// argument have their usual meaning.
pub open spec fn holds(m: MetaView, ch: Channel, atom: spec_fn(MetaView) -> bool) -> bool
    decreases m,
{
    match m {
        MetaView::List(path, d, tokens, nested) => {
            if is_word(path, "channel"@) && condition_spec(tokens) is Some {
                condition_holds(condition_spec(tokens).unwrap(), ch)
            } else {
                match nested {
                    Some(ms) => {
                        if is_word(path, "all"@) {
                            all_hold(ms, ch, atom)
                        } else if is_word(path, "any"@) {
                            any_holds(ms, ch, atom)
                        } else if is_word(path, "not"@) && ms.len() == 1 {
                            !holds(ms[0], ch, atom)
                        } else {
                            atom(m)
                        }
                    },
                    None => atom(m),
                }
            }
        },
        _ => atom(m),
    }
}

/// Whether every condition of a sequence holds.
pub open spec fn all_hold(ms: Seq<MetaView>, ch: Channel, atom: spec_fn(MetaView) -> bool) -> bool
    decreases ms,
{
    if ms.len() == 0 {
        true
    } else {
        all_hold(ms.drop_last(), ch, atom) && holds(ms.last(), ch, atom)
    }
}

/// Whether some condition of a sequence holds.
pub open spec fn any_holds(ms: Seq<MetaView>, ch: Channel, atom: spec_fn(MetaView) -> bool) -> bool
    decreases ms,
{
    if ms.len() == 0 {
        false
    } else {
        any_holds(ms.drop_last(), ch, atom) || holds(ms.last(), ch, atom)
    }
}

/// Whether every `not` that the meaning reads has one argument, or else none
/// of its arguments is decided on channel `ch` (the `cfg` syntax gives `not`
/// exactly one).
pub open spec fn unary_nots(m: MetaView, ch: Channel) -> bool
    decreases m,
{
    match m {
        MetaView::List(path, d, tokens, nested) => {
            if is_word(path, "channel"@) && condition_spec(tokens) is Some {
                true
            } else {
                match nested {
                    Some(ms) => {
                        if is_word(path, "all"@) || is_word(path, "any"@) {
                            all_unary_nots(ms, ch)
                        } else if is_word(path, "not"@) {
                            if ms.len() == 1 {
                                unary_nots(ms[0], ch)
                            } else {
                                !any_known(eval_seq(ms, ch), true) && !any_known(
                                    eval_seq(ms, ch),
                                    false,
                                )
                            }
                        } else {
                            true
                        }
                    },
                    None => true,
                }
            }
        },
        _ => true,
    }
}

/// `unary_nots` of every condition of a sequence.
pub open spec fn all_unary_nots(ms: Seq<MetaView>, ch: Channel) -> bool
    decreases ms,
{
    if ms.len() == 0 {
        true
    } else {
        all_unary_nots(ms.drop_last(), ch) && unary_nots(ms.last(), ch)
    }
}

/// The words that the evaluation reads are distinct.
proof fn lemma_words_distinct()
    ensures
        "all"@ != "any"@,
        "all"@ != "not"@,
        "all"@ != "channel"@,
        "any"@ != "not"@,
        "any"@ != "channel"@,
        "not"@ != "channel"@,
{
    reveal_strlit("all");
    reveal_strlit("any");
    reveal_strlit("not");
    reveal_strlit("channel");
    assert("all"@[1] != "any"@[1]);
    assert("all"@[0] != "not"@[0]);
    assert("any"@[0] != "not"@[0]);
}

/// What the evaluation of a sequence keeps of `all` and `any` over it.
proof fn lemma_eval_seq_meaning(ms: Seq<MetaView>, ch: Channel, atom: spec_fn(MetaView) -> bool)
    requires
        all_unary_nots(ms, ch),
    ensures
        all_hold(ms, ch, atom) == (!any_known(eval_seq(ms, ch), false) && all_hold(
            residuals(eval_seq(ms, ch)),
            ch,
            atom,
        )),
        any_holds(ms, ch, atom) == (any_known(eval_seq(ms, ch), true) || any_holds(
            residuals(eval_seq(ms, ch)),
            ch,
            atom,
        )),
    decreases ms,
{
    if ms.len() > 0 {
        let rs = eval_seq(ms, ch);
        let prev = eval_seq(ms.drop_last(), ch);
        assert(rs.drop_last() =~= prev);
        lemma_eval_seq_meaning(ms.drop_last(), ch, atom);
        eval_meta_keeps_meaning(ms.last(), ch, atom);
        match rs.last() {
            Outcome::Unknown(r) => {
                let res = residuals(rs);
                assert(res.drop_last() =~= residuals(prev));
            },
            Outcome::Known(_) => {},
        }
    }
}

/// Outcomes of which none is decided leave one residual each.
proof fn lemma_undecided_residuals(rs: Seq<Outcome>)
    ensures
        !any_known(rs, true) && !any_known(rs, false) ==> residuals(rs).len() == rs.len(),
    decreases rs.len(),
{
    if rs.len() > 0 {
        lemma_undecided_residuals(rs.drop_last());
    }
}

/// A sequence of conditions has one outcome each.
proof fn lemma_eval_seq_len(ms: Seq<MetaView>, ch: Channel)
    ensures
        eval_seq(ms, ch).len() == ms.len(),
    decreases ms.len(),
{
    if ms.len() > 0 {
        lemma_eval_seq_len(ms.drop_last(), ch);
    }
}

/// All and any of a single condition.
proof fn lemma_single(x: MetaView, ch: Channel, atom: spec_fn(MetaView) -> bool)
    ensures
        all_hold(seq![x], ch, atom) == holds(x, ch, atom),
        any_holds(seq![x], ch, atom) == holds(x, ch, atom),
{
    let s = seq![x];
    assert(s.drop_last() =~= Seq::<MetaView>::empty());
    assert(all_hold(s.drop_last(), ch, atom));
    assert(!any_holds(s.drop_last(), ch, atom));
    assert(s.last() == x);
}

/// Evaluation keeps a condition's meaning: where it decides the condition,
/// the decision is what the condition means on that channel, whatever the
/// compiler's own conditions are; where it leaves something undecided, what
/// it leaves means the same as the condition. The one exception is a `not`
/// with other than one argument, some of which are decided.
pub proof fn eval_meta_keeps_meaning(m: MetaView, ch: Channel, atom: spec_fn(MetaView) -> bool)
    requires
        unary_nots(m, ch),
    ensures
        eval_spec(m, ch) matches Outcome::Known(b) ==> holds(m, ch, atom) == b,
        eval_spec(m, ch) matches Outcome::Unknown(r) ==> holds(r, ch, atom) == holds(m, ch, atom),
    decreases m,
{
    lemma_words_distinct();
    match m {
        MetaView::List(path, d, tokens, nested) => {
            if is_word(path, "channel"@) && condition_spec(tokens) is Some {
            } else {
                match nested {
                    Some(ms) => {
                        let rs = eval_seq(ms, ch);
                        let res = residuals(rs);
                        lemma_undecided_residuals(rs);
                        lemma_eval_seq_len(ms, ch);
                        if is_word(path, "all"@) || is_word(path, "any"@) {
                            lemma_eval_seq_meaning(ms, ch, atom);
                            if res.len() == 1 {
                                lemma_single(res[0], ch, atom);
                                assert(res =~= seq![res[0]]);
                            }
                            let l = MetaView::List(path, d, join_tokens(res), Some(res));
                            assert(!is_word(path, "channel"@));
                            if is_word(path, "all"@) {
                                assert(holds(l, ch, atom) == all_hold(res, ch, atom));
                            } else {
                                assert(!is_word(path, "all"@));
                                assert(holds(l, ch, atom) == any_holds(res, ch, atom));
                            }
                        } else if is_word(path, "not"@) && ms.len() == 1 {
                            eval_meta_keeps_meaning(ms[0], ch, atom);
                            assert(ms.drop_last() =~= Seq::<MetaView>::empty());
                            assert(eval_seq(ms.drop_last(), ch).len() == 0);
                            assert(rs.drop_last() =~= eval_seq(ms.drop_last(), ch));
                            assert(rs.drop_last() =~= Seq::<Outcome>::empty());
                            assert(ms.last() == ms[0]);
                            assert(residuals(rs.drop_last()).len() == 0);
                            if let Outcome::Unknown(r0) = rs.last() {
                                assert(res =~= seq![r0]);
                                let l = MetaView::List(path, d, meta_tokens(r0), Some(res));
                                assert(!is_word(path, "channel"@));
                                assert(!is_word(path, "all"@));
                                assert(!is_word(path, "any"@));
                                assert(holds(l, ch, atom) == !holds(r0, ch, atom));
                            }
                            assert(residuals(rs.drop_last()) =~= Seq::<MetaView>::empty());
                            assert(!any_known(rs.drop_last(), true));
                            assert(!any_known(rs.drop_last(), false));
                        }
                    },
                    None => {},
                }
            }
        },
        _ => {},
    }
}

/// Whether a condition is written as `cfg` writes them, with `channel(...)`
/// among its predicates: a path, a name-value pair, `channel(x)`,
/// `channel(!x)` or `channel(not(x))` for an identifier `x`, or `all(...)`,
/// `any(...)` or `not(...)` (with one argument) of such conditions.
pub open spec fn cfg_wf(m: MetaView) -> bool
    decreases m,
{
    match m {
        MetaView::List(path, _, tokens, nested) => if is_word(path, "channel"@) {
            condition_spec(tokens) is Some
        } else {
            &&& is_word(path, "all"@) || is_word(path, "any"@) || is_word(path, "not"@)
            &&& nested matches Some(ms)
            &&& is_word(path, "not"@) ==> ms.len() == 1
            &&& all_cfg_wf(ms)
        },
        _ => true,
    }
}

/// Whether every condition of a sequence is written as `cfg` writes them.
pub open spec fn all_cfg_wf(ms: Seq<MetaView>) -> bool
    decreases ms,
{
    if ms.len() == 0 {
        true
    } else {
        all_cfg_wf(ms.drop_last()) && cfg_wf(ms.last())
    }
}

/// Whether no list in a condition is `channel(...)`.
pub open spec fn no_channel(m: MetaView) -> bool
    decreases m,
{
    match m {
        MetaView::List(path, _, _, nested) => !is_word(path, "channel"@) && match nested {
            Some(ms) => all_no_channel(ms),
            None => true,
        },
        _ => true,
    }
}

/// Whether no list in a sequence of conditions is `channel(...)`.
pub open spec fn all_no_channel(ms: Seq<MetaView>) -> bool
    decreases ms,
{
    if ms.len() == 0 {
        true
    } else {
        all_no_channel(ms.drop_last()) && no_channel(ms.last())
    }
}

/// What is left of a sequence of conditions written as `cfg` writes them
/// holds no `channel(...)`.
proof fn lemma_residuals_no_channel(ms: Seq<MetaView>, ch: Channel)
    requires
        all_cfg_wf(ms),
    ensures
        all_no_channel(residuals(eval_seq(ms, ch))),
    decreases ms,
{
    if ms.len() > 0 {
        let rs = eval_seq(ms, ch);
        let prev = eval_seq(ms.drop_last(), ch);
        assert(rs.drop_last() =~= prev);
        lemma_residuals_no_channel(ms.drop_last(), ch);
        eval_meta_decides_channel(ms.last(), ch);
        match rs.last() {
            Outcome::Unknown(r) => {
                let res = residuals(rs);
                assert(res.drop_last() =~= residuals(prev));
            },
            Outcome::Known(_) => {},
        }
    }
}

/// Of a condition written as `cfg` writes them, with `channel(...)` among
/// its predicates, evaluation decides every `channel(...)`: what it leaves
/// for the compiler holds none.
pub proof fn eval_meta_decides_channel(m: MetaView, ch: Channel)
    requires
        cfg_wf(m),
    ensures
        eval_spec(m, ch) matches Outcome::Unknown(r) ==> no_channel(r),
    decreases m,
{
    lemma_words_distinct();
    if let MetaView::List(path, d, tokens, nested) = m {
        if !is_word(path, "channel"@) {
            let ms = nested->0;
            let rs = eval_seq(ms, ch);
            let res = residuals(rs);
            lemma_residuals_no_channel(ms, ch);
            if res.len() == 1 {
                assert(res.drop_last() =~= Seq::<MetaView>::empty());
                assert(res.last() == res[0]);
            }
            if is_word(path, "not"@) {
                lemma_undecided_residuals(rs);
                lemma_eval_seq_len(ms, ch);
            }
        }
    }
}

/// What is left of a sequence's undecided conditions means the same on
/// every channel.
proof fn lemma_residuals_ignore_channel(
    ms: Seq<MetaView>,
    ch: Channel,
    other: Channel,
    atom: spec_fn(MetaView) -> bool,
)
    ensures
        all_hold(residuals(eval_seq(ms, ch)), other, atom) == all_hold(
            residuals(eval_seq(ms, ch)),
            ch,
            atom,
        ),
        any_holds(residuals(eval_seq(ms, ch)), other, atom) == any_holds(
            residuals(eval_seq(ms, ch)),
            ch,
            atom,
        ),
    decreases ms,
{
    if ms.len() > 0 {
        let rs = eval_seq(ms, ch);
        let prev = eval_seq(ms.drop_last(), ch);
        assert(rs.drop_last() =~= prev);
        lemma_residuals_ignore_channel(ms.drop_last(), ch, other, atom);
        eval_meta_residual_ignores_channel(ms.last(), ch, other, atom);
        match rs.last() {
            Outcome::Unknown(r) => {
                let res = residuals(rs);
                assert(res.drop_last() =~= residuals(prev));
            },
            Outcome::Known(_) => {},
        }
    }
}

/// What evaluation leaves undecided no longer depends on the channel: it
/// means the same on every channel, so the compiler, which knows no
/// `channel(...)`, reads it as the condition meant.
pub proof fn eval_meta_residual_ignores_channel(
    m: MetaView,
    ch: Channel,
    other: Channel,
    atom: spec_fn(MetaView) -> bool,
)
    ensures
        eval_spec(m, ch) matches Outcome::Unknown(r) ==> holds(r, other, atom) == holds(
            r,
            ch,
            atom,
        ),
    decreases m,
{
    lemma_words_distinct();
    match m {
        MetaView::List(path, d, tokens, nested) => {
            if is_word(path, "channel"@) && condition_spec(tokens) is Some {
            } else {
                match nested {
                    Some(ms) => {
                        let rs = eval_seq(ms, ch);
                        let res = residuals(rs);
                        lemma_undecided_residuals(rs);
                        lemma_eval_seq_len(ms, ch);
                        if is_word(path, "all"@) || is_word(path, "any"@) {
                            lemma_residuals_ignore_channel(ms, ch, other, atom);
                            if res.len() == 1 {
                                lemma_single(res[0], ch, atom);
                                lemma_single(res[0], other, atom);
                                assert(res =~= seq![res[0]]);
                            }
                            assert(!is_word(path, "channel"@));
                        } else if is_word(path, "not"@) && ms.len() == 1 {
                            eval_meta_residual_ignores_channel(ms[0], ch, other, atom);
                            assert(ms.drop_last() =~= Seq::<MetaView>::empty());
                            assert(eval_seq(ms.drop_last(), ch).len() == 0);
                            assert(rs.drop_last() =~= eval_seq(ms.drop_last(), ch));
                            assert(rs.drop_last() =~= Seq::<Outcome>::empty());
                            assert(ms.last() == ms[0]);
                            assert(residuals(rs.drop_last()).len() == 0);
                            if let Outcome::Unknown(r0) = rs.last() {
                                assert(res =~= seq![r0]);
                                assert(!is_word(path, "channel"@));
                                assert(!is_word(path, "all"@));
                                assert(!is_word(path, "any"@));
                            }
                        }
                    },
                    None => {},
                }
            }
        },
        _ => {},
    }
}

// ---------------------------------------------------------------------------
// `#[reta(condition)]` and `#[reta_attr(condition, attribute)]`.

/// An attribute that the condition macros append to an item.
pub enum Attribute {
    /// `#[cfg(condition)]`
    Cfg(Meta),
    /// `#[cfg_attr(condition, attribute)]`
    CfgAttr(Meta, Meta),
    /// `#[attribute]`
    Plain(Meta),
}

/// The mathematical view of an attribute.
pub ghost enum AttrView {
    Cfg(MetaView),
    CfgAttr(MetaView, MetaView),
    Plain(MetaView),
}

impl View for Attribute {
    type V = AttrView;

    open spec fn view(&self) -> AttrView {
        match *self {
            Attribute::Cfg(m) => AttrView::Cfg(m@),
            Attribute::CfgAttr(c, a) => AttrView::CfgAttr(c@, a@),
            Attribute::Plain(a) => AttrView::Plain(a@),
        }
    }
}

/// An item, by its kind, and the attributes appended to it.
pub struct AttrItem {
    pub kind: ItemKind,
    pub attrs: Vec<Attribute>,
}

impl View for AttrItem {
    type V = (ItemKind, Seq<AttrView>);

    open spec fn view(&self) -> (ItemKind, Seq<AttrView>) {
        (self.kind, self.attrs@.map_values(|a: Attribute| a@))
    }
}

/// What a condition macro makes of the item it is applied to.
pub enum Expansion {
    /// The item is removed.
    Removed,
    /// The tokens are emitted as they were.
    Unchanged,
    /// The item is emitted with an attribute appended.
    Rewritten(AttrItem),
}

/// The mathematical view of an expansion.
pub ghost enum ExpansionView {
    Removed,
    Unchanged,
    Rewritten((ItemKind, Seq<AttrView>)),
}

/// The view of what a condition macro makes of an item.
pub open spec fn expansion_view(r: Result<Expansion, MacroError>) -> Result<ExpansionView, MacroError> {
    match r {
        Ok(Expansion::Removed) => Ok(ExpansionView::Removed),
        Ok(Expansion::Unchanged) => Ok(ExpansionView::Unchanged),
        Ok(Expansion::Rewritten(it)) => Ok(ExpansionView::Rewritten(it@)),
        Err(e) => Err(e),
    }
}

/// An item with an attribute appended; an item of no kind `syn` knows takes
/// no attributes.
pub open spec fn add_attr_spec(it: (ItemKind, Seq<AttrView>), a: AttrView) -> Result<
    ExpansionView,
    MacroError,
> {
    if it.0 == ItemKind::Verbatim {
        Err(MacroError { kind: ErrorKind::UnsupportedItem, at: Location::Whole })
    } else {
        Ok(ExpansionView::Rewritten((it.0, it.1.push(a))))
    }
}

/// Appends an attribute to an item; an item of no kind `syn` knows takes
/// no attributes.
pub fn add_attr_to_item(item: &mut AttrItem, attr: Attribute) -> (r: Result<(), MacroError>)
    ensures
        final(item).kind == old(item).kind,
        old(item).kind == ItemKind::Verbatim ==> final(item)@ == old(item)@ && r == Err::<
            (),
            MacroError,
        >(MacroError { kind: ErrorKind::UnsupportedItem, at: Location::Whole }),
        old(item).kind != ItemKind::Verbatim ==> r is Ok && final(item)@ == (
            old(item).kind,
            old(item)@.1.push(attr@),
        ),
{
    match item.kind {
        ItemKind::Verbatim => Err(MacroError { kind: ErrorKind::UnsupportedItem, at: Location::Whole }),
        _ => {
            let ghost before = item.attrs@;
            item.attrs.push(attr);
            proof {
                assert(item.attrs@.map_values(|a: Attribute| a@) =~= before.map_values(
                    |a: Attribute| a@,
                ).push(attr@));
            }
            Ok(())
        },
    }
}

/// Appends an attribute to the item, if `syn` read one.
fn rewrite(item: Option<AttrItem>, attr: Attribute) -> (r: Result<Expansion, MacroError>)
    ensures
        expansion_view(r) == match item {
            Some(it) => add_attr_spec(it@, attr@),
            None => Err(MacroError { kind: ErrorKind::NotParsed, at: Location::Whole }),
        },
{
    match item {
        Some(it) => {
            let mut it = it;
            match add_attr_to_item(&mut it, attr) {
                Ok(()) => Ok(Expansion::Rewritten(it)),
                Err(e) => Err(e),
            }
        },
        None => Err(MacroError { kind: ErrorKind::NotParsed, at: Location::Whole }),
    }
}

/// What `#[reta(condition)]` makes of an item (`None` where `syn` read no
/// item) on channel `ch`: the item is removed where the condition is false,
/// kept as it is where it is true, and given `#[cfg(...)]` of what is left
/// of the condition otherwise.
pub open spec fn reta_spec(m: MetaView, item: Option<(ItemKind, Seq<AttrView>)>, ch: Channel) -> Result<
    ExpansionView,
    MacroError,
> {
    match eval_spec(m, ch) {
        Outcome::Known(false) => Ok(ExpansionView::Removed),
        Outcome::Known(true) => Ok(ExpansionView::Unchanged),
        Outcome::Unknown(rest) => match item {
            Some(it) => add_attr_spec(it, AttrView::Cfg(rest)),
            None => Err(MacroError { kind: ErrorKind::NotParsed, at: Location::Whole }),
        },
    }
}

/// The view of an optional item.
pub open spec fn item_view(item: Option<AttrItem>) -> Option<(ItemKind, Seq<AttrView>)> {
    match item {
        Some(it) => Some(it@),
        None => None,
    }
}

/// The item as `#[reta]` and `#[reta_attr]` see it in tokens: its kind as
/// `syn` reads it, and no attribute added yet; none where `syn` reads no
/// item.
pub open spec fn attr_item_spec(t: Seq<Tok>) -> Option<(ItemKind, Seq<AttrView>)> {
    match syn_item(t) {
        Some(v) => Some((kind_of(v), Seq::empty())),
        None => None,
    }
}

/// Reads the item that `#[reta]` or `#[reta_attr]` is applied to.
pub fn read_attr_item(s: &proc_macro2::TokenStream) -> (r: Option<AttrItem>)
    ensures
        item_view(r) == attr_item_spec(stream_toks(*s)),
{
    match read_item_kind(s) {
        Some(k) => {
            let it = AttrItem { kind: k, attrs: Vec::new() };
            assert(it@.1 =~= Seq::<AttrView>::empty());
            Some(it)
        },
        None => None,
    }
}

/// `#[reta(condition)]`, expanding with the compiler release channel
/// `channel`: removes the item where the condition is false, keeps it as it
/// is where it is true, and gives it `#[cfg(...)]` of what is left of the
/// condition otherwise.
pub fn expand_reta(meta: Meta, item: Option<AttrItem>, channel: Channel) -> (r: Result<Expansion, MacroError>)
    ensures
        expansion_view(r) == reta_spec(meta@, item_view(item), channel),
{
    match eval_meta(meta, channel) {
        CfgResult::Known(false) => Ok(Expansion::Removed),
        CfgResult::Known(true) => Ok(Expansion::Unchanged),
        CfgResult::Unknown(rest) => rewrite(item, Attribute::Cfg(rest)),
    }
}

/// What `#[reta_attr(condition, attribute)]` makes of an item on channel
/// `ch`: the tokens are kept as they are where the condition is false, the
/// item gets the attribute where it is true, and
/// `#[cfg_attr(..., attribute)]` of what is left of the condition otherwise.
pub open spec fn reta_attr_spec(
    m: MetaView,
    a: MetaView,
    item: Option<(ItemKind, Seq<AttrView>)>,
    ch: Channel,
) -> Result<ExpansionView, MacroError> {
    match eval_spec(m, ch) {
        Outcome::Known(false) => Ok(ExpansionView::Unchanged),
        Outcome::Known(true) => match item {
            Some(it) => add_attr_spec(it, AttrView::Plain(a)),
            None => Err(MacroError { kind: ErrorKind::NotParsed, at: Location::Whole }),
        },
        Outcome::Unknown(rest) => match item {
            Some(it) => add_attr_spec(it, AttrView::CfgAttr(rest, a)),
            None => Err(MacroError { kind: ErrorKind::NotParsed, at: Location::Whole }),
        },
    }
}

/// `#[reta_attr(condition, attribute)]`, expanding with the compiler release
/// channel `channel`: keeps the tokens as they are where the condition is
/// false, gives the item the attribute where it is true, and
/// `#[cfg_attr(..., attribute)]` of what is left of the condition otherwise.
pub fn expand_reta_attr(condition: Meta, attr: Meta, item: Option<AttrItem>, channel: Channel) -> (r: Result<
    Expansion,
    MacroError,
>)
    ensures
        expansion_view(r) == reta_attr_spec(condition@, attr@, item_view(item), channel),
{
    match eval_meta(condition, channel) {
        CfgResult::Known(false) => Ok(Expansion::Unchanged),
        CfgResult::Known(true) => rewrite(item, Attribute::Plain(attr)),
        CfgResult::Unknown(rest) => rewrite(item, Attribute::CfgAttr(rest, attr)),
    }
}

// ---------------------------------------------------------------------------
// The attributes' arguments.

/// Whether a token is a comma.
pub open spec fn is_comma(t: Tok) -> bool {
    t matches Tok::Punct(c, _) && c == ','
}

/// What `#[reta_attr(...)]`'s argument reads as: a condition, a comma, and
/// an attribute with nothing after it (but empty invisible groups), each
/// read by `syn` from the front of
/// what is left; or the error on the first that fails.
pub open spec fn attr_input(t: Seq<Tok>) -> Result<(MetaView, MetaView), ErrorKind> {
    match syn_meta_prefix(t) {
        None => Err(ErrorKind::BadCondition),
        Some((c, r1)) => match syn_comma_prefix(r1) {
            None => Err(ErrorKind::MissingComma),
            Some(r2) => match syn_meta_prefix(r2) {
                None => Err(ErrorKind::BadAttribute),
                Some((a, r3)) => if blank(r3) {
                    Ok((c, a))
                } else {
                    Err(ErrorKind::TokensAfterAttribute)
                },
            },
        },
    }
}

/// Reads `#[reta_attr(...)]`'s argument: a condition, a comma, and an
/// attribute with nothing after it but empty invisible groups.
pub fn read_attr_input(s: &proc_macro2::TokenStream) -> (r: Result<(Meta, Meta), ErrorKind>)
    ensures
        match r {
            Ok((c, a)) => attr_input(stream_toks(*s)) == Ok::<(MetaView, MetaView), ErrorKind>((c@, a@)),
            Err(k) => attr_input(stream_toks(*s)) == Err::<(MetaView, MetaView), ErrorKind>(k),
        },
{
    let (condition, rest) = match read_meta_prefix(s) {
        Some(p) => p,
        None => {
            return Err(ErrorKind::BadCondition);
        },
    };
    let rest = match parse_comma_prefix(&rest) {
        Some(r) => r,
        None => {
            return Err(ErrorKind::MissingComma);
        },
    };
    let (attr, after) = match read_meta_prefix(&rest) {
        Some(p) => p,
        None => {
            return Err(ErrorKind::BadAttribute);
        },
    };
    if stream_is_blank(&after) {
        Ok((condition, attr))
    } else {
        Err(ErrorKind::TokensAfterAttribute)
    }
}

/// What `#[reta(...)]` makes of its argument and the item on channel `ch`.
pub open spec fn reta_tokens_spec(t: Seq<Tok>, item: Option<(ItemKind, Seq<AttrView>)>, ch: Channel) -> Result<
    ExpansionView,
    MacroError,
> {
    match syn_meta(t) {
        Some(m) => reta_spec(m, item, ch),
        None => Err(MacroError { kind: ErrorKind::BadCondition, at: Location::Argument }),
    }
}

/// `#[reta(condition)]`, expanding with the compiler release channel
/// `channel`: reads the argument as one condition, then removes the item
/// where it is false, keeps it as it is where it is true, and gives it
/// `#[cfg(...)]` of what is left of it otherwise.
pub fn reta(attr: &proc_macro2::TokenStream, item: &proc_macro2::TokenStream, channel: Channel) -> (r: Result<
    Expansion,
    MacroError,
>)
    ensures
        expansion_view(r) == reta_tokens_spec(stream_toks(*attr), attr_item_spec(stream_toks(*item)), channel),
{
    match read_meta(attr) {
        Some(m) => expand_reta(m, read_attr_item(item), channel),
        None => Err(MacroError { kind: ErrorKind::BadCondition, at: Location::Argument }),
    }
}

/// What `#[reta_attr(...)]` makes of its argument and the item on channel
/// `ch`.
pub open spec fn reta_attr_tokens_spec(
    t: Seq<Tok>,
    item: Option<(ItemKind, Seq<AttrView>)>,
    ch: Channel,
) -> Result<ExpansionView, MacroError> {
    match attr_input(t) {
        Ok((c, a)) => reta_attr_spec(c, a, item, ch),
        Err(k) => Err(MacroError { kind: k, at: Location::Argument }),
    }
}

/// `#[reta_attr(condition, attribute)]`, expanding with the compiler release
/// channel `channel`: reads the argument, then keeps the tokens as they are
/// where the condition is false, gives the item the attribute where it is
/// true, and `#[cfg_attr(..., attribute)]` of what is left of the condition
/// otherwise.
pub fn reta_attr(attr: &proc_macro2::TokenStream, item: &proc_macro2::TokenStream, channel: Channel) -> (r: Result<
    Expansion,
    MacroError,
>)
    ensures
        expansion_view(r) == reta_attr_tokens_spec(stream_toks(*attr), attr_item_spec(stream_toks(*item)), channel),
{
    match read_attr_input(attr) {
        Ok((c, a)) => expand_reta_attr(c, a, read_attr_item(item), channel),
        Err(k) => Err(MacroError { kind: k, at: Location::Argument }),
    }
}

/// `#[reta(condition)]` does what `#[cfg(condition)]` would do if the
/// compiler knew `channel(...)`: it removes the item exactly where the
/// condition is false, keeps it as it is where it is true, and otherwise
/// appends a `#[cfg(...)]` whose condition means the same as the given one
/// on this channel and the same on every channel.
pub proof fn reta_acts_as_cfg(
    m: MetaView,
    item: Option<(ItemKind, Seq<AttrView>)>,
    ch: Channel,
    other: Channel,
    atom: spec_fn(MetaView) -> bool,
)
    requires
        unary_nots(m, ch),
    ensures
        reta_spec(m, item, ch) == Ok::<ExpansionView, MacroError>(ExpansionView::Removed) ==> !holds(
            m,
            ch,
            atom,
        ),
        reta_spec(m, item, ch) == Ok::<ExpansionView, MacroError>(ExpansionView::Unchanged) ==> holds(
            m,
            ch,
            atom,
        ),
        reta_spec(m, item, ch) matches Ok(ExpansionView::Rewritten(it)) ==> (it.1.last() matches AttrView::Cfg(
            rest,
        ) && holds(rest, other, atom) == holds(m, ch, atom)),
{
    eval_meta_keeps_meaning(m, ch, atom);
    eval_meta_residual_ignores_channel(m, ch, other, atom);
}

/// `#[reta_attr(condition, attribute)]` does what
/// `#[cfg_attr(condition, attribute)]` would do if the compiler knew
/// `channel(...)`: it leaves the tokens as they are exactly where the
/// condition is false, applies the attribute where it is true, and otherwise
/// appends a `#[cfg_attr(...)]` with the same attribute whose condition means
/// the same as the given one on this channel and the same on every channel.
pub proof fn reta_attr_acts_as_cfg_attr(
    m: MetaView,
    a: MetaView,
    item: Option<(ItemKind, Seq<AttrView>)>,
    ch: Channel,
    other: Channel,
    atom: spec_fn(MetaView) -> bool,
)
    requires
        unary_nots(m, ch),
    ensures
        reta_attr_spec(m, a, item, ch) == Ok::<ExpansionView, MacroError>(ExpansionView::Unchanged)
            ==> !holds(m, ch, atom),
        reta_attr_spec(m, a, item, ch) matches Ok(ExpansionView::Rewritten(it)) ==> (it.1.last()
            == AttrView::Plain(a) && holds(m, ch, atom)) || (it.1.last() matches AttrView::CfgAttr(
            rest,
            a2,
        ) && a2 == a && holds(rest, other, atom) == holds(m, ch, atom)),
{
    eval_meta_keeps_meaning(m, ch, atom);
    eval_meta_residual_ignores_channel(m, ch, other, atom);
}

/// Printing conditions separated by commas prints every one of them, in
/// order: no condition prints nothing, one condition prints its own tokens,
/// and two non-empty lists one after the other print as the first, a comma,
/// and the second.
pub proof fn join_tokens_prints_each(a: Seq<MetaView>, b: Seq<MetaView>, m: MetaView)
    ensures
        join_tokens(Seq::empty()) == Seq::<Tok>::empty(),
        join_tokens(seq![m]) == meta_tokens(m),
        a.len() > 0 && b.len() > 0 ==> join_tokens(a + b) == join_tokens(a).push(Tok::Punct(',', Spacing::Alone))
            + join_tokens(b),
    decreases b.len(),
{
    assert(seq![m].len() == 1);
    if a.len() > 0 && b.len() > 0 {
        let c = Tok::Punct(',', Spacing::Alone);
        let ab = a + b;
        assert(ab.last() == b.last());
        if b.len() == 1 {
            assert(ab.drop_last() =~= a);
            assert(join_tokens(b) == meta_tokens(b[0]));
        } else {
            let b1 = b.drop_last();
            assert(ab.drop_last() =~= a + b1);
            join_tokens_prints_each(a, b1, m);
            assert(join_tokens(ab) == join_tokens(a + b1).push(c) + meta_tokens(b.last()));
            assert(join_tokens(b) == join_tokens(b1).push(c) + meta_tokens(b.last()));
            assert(join_tokens(ab) =~= join_tokens(a).push(c) + join_tokens(b));
        }
    }
}

/// Where `#[reta]` or `#[reta_attr]` rewrites an item, it adds exactly one
/// attribute: the item keeps its kind and its attributes, in order, and
/// one more follows them: for `#[reta]`, `#[cfg]` of what is left of the
/// condition; for `#[reta_attr]`, the given attribute, outright where the
/// condition holds and under what is left of it where it is undecided.
pub proof fn rewrite_adds_one_attribute(m: MetaView, a: MetaView, it: (ItemKind, Seq<AttrView>), ch: Channel)
    ensures
        reta_spec(m, Some(it), ch) matches Ok(ExpansionView::Rewritten(r)) ==> {
            &&& r.0 == it.0
            &&& r.1.len() == it.1.len() + 1
            &&& r.1.take(it.1.len() as int) == it.1
            &&& eval_spec(m, ch) matches Outcome::Unknown(rest) && r.1.last() == AttrView::Cfg(rest)
        },
        reta_attr_spec(m, a, Some(it), ch) matches Ok(ExpansionView::Rewritten(r)) ==> {
            &&& r.0 == it.0
            &&& r.1.len() == it.1.len() + 1
            &&& r.1.take(it.1.len() as int) == it.1
            &&& r.1.last() == match eval_spec(m, ch) {
                Outcome::Unknown(rest) => AttrView::CfgAttr(rest, a),
                _ => AttrView::Plain(a),
            }
        },
{
    assert(it.1.push(AttrView::Plain(a)).take(it.1.len() as int) =~= it.1);
    if let Outcome::Unknown(rest) = eval_spec(m, ch) {
        assert(it.1.push(AttrView::Cfg(rest)).take(it.1.len() as int) =~= it.1);
        assert(it.1.push(AttrView::CfgAttr(rest, a)).take(it.1.len() as int) =~= it.1);
    }
}

} // verus!
