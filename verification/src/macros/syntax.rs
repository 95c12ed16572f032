//! Items read by `syn` from the token stream an attribute is applied to,
//! into the library's model of items.
use vstd::prelude::*;

use crate::macros::item::{
    choose_fragment, chosen_fragment, Fragment, Item, ItemKind, ItemView, Member, MemberKind,
    Safety, Signature,
};
use crate::macros::stream::{read_stream, stream_toks};
use crate::macros::con_::{
    Bound, BoundView, ConstItem, ConstTarget, HeaderView, PathSegment, Predicate, PredView, TargetView,
    TraitBound, TraitHeader,
};
use crate::macros::vis::{choose_declaration, chosen_declaration, Declaration, DeclView, VisImplItem, VisItem, VisView, Visibility};
use crate::macros::layout::ItemLayout;
use crate::macros::tokens::{lemma_toks_view, text_is, toks_view, Tok, TokenTree};
use syn::{ForeignItem, ImplItem, TraitItem};
use syn::Item as SynItem;
use syn::Safety as SynSafety;
use quote::ToTokens;
use syn::punctuated::Punctuated;
use syn::token::Plus;
use syn::{GenericParam, TypeParamBound, WhereClause, WherePredicate};

verus! {

/// What `syn` reads from tokens as an item (`syn::Item`), by its view, its
/// visibility (private where the item has none), and, for a trait or an
/// `impl`, the bounds of its header and its parts as written.
pub uninterp spec fn syn_item_read(toks: Seq<Tok>) -> Option<(ItemView, VisView, ItemHeaderView, ItemLayout)>;

/// The bounds of an item's header: its supertraits, the bounds of each of
/// its generic parameters (another parameter standing as another
/// predicate), and its `where` predicates.
pub type ItemHeaderView = (Seq<BoundView>, Seq<PredView>, Seq<PredView>);

/// What `syn` reads from tokens as an item, by its view.
pub open spec fn syn_item(toks: Seq<Tok>) -> Option<ItemView> {
    match syn_item_read(toks) {
        Some(x) => Some(x.0),
        None => None,
    }
}

/// What `syn` reads from tokens as a member of an `impl` (`syn::ImplItem`),
/// and its visibility (private where the member has none).
pub uninterp spec fn syn_impl_item_read(toks: Seq<Tok>) -> Option<(Member, VisView)>;

/// What `syn` reads from tokens as a member of an `impl`.
pub open spec fn syn_impl_item(toks: Seq<Tok>) -> Option<Member> {
    match syn_impl_item_read(toks) {
        Some(x) => Some(x.0),
        None => None,
    }
}

/// What `syn` reads from tokens as a member of a trait (`syn::TraitItem`).
pub uninterp spec fn syn_trait_item(toks: Seq<Tok>) -> Option<Member>;

/// What `syn` reads from tokens as a member of an `extern` block
/// (`syn::ForeignItem`).
pub uninterp spec fn syn_foreign_item(toks: Seq<Tok>) -> Option<Member>;

/// The kind of an item's view.
pub open spec fn kind_of(v: ItemView) -> ItemKind {
    match v {
        ItemView::Fn(_) => ItemKind::Fn,
        ItemView::Impl(_) => ItemKind::Impl,
        ItemView::Trait(_) => ItemKind::Trait,
        ItemView::ForeignMod(_) => ItemKind::ForeignMod,
        ItemView::Other(k) => k,
    }
}

/// Whether an item's view is told apart as `syn` tells it: a function, an
/// `impl`, a trait and an `extern` block each by its own variant.
pub open spec fn item_view_ok(v: ItemView) -> bool {
    v matches ItemView::Other(k) ==> !(k == ItemKind::Fn || k == ItemKind::Impl || k == ItemKind::Trait
        || k == ItemKind::ForeignMod)
}

/// The kinds told apart by `item_kind_front`.
pub open spec fn front_kind(k: ItemKind) -> bool {
    k == ItemKind::Const || k == ItemKind::Enum || k == ItemKind::ExternCrate || k == ItemKind::Fn
        || k == ItemKind::ForeignMod || k == ItemKind::Impl || k == ItemKind::Macro || k
        == ItemKind::Mod
}

/// The members of an `impl`, a trait or an `extern` block; none otherwise.
pub open spec fn members_of(v: ItemView) -> Seq<Member> {
    match v {
        ItemView::Impl(ms) => ms,
        ItemView::Trait(ms) => ms,
        ItemView::ForeignMod(ms) => ms,
        _ => Seq::empty(),
    }
}

/// The kind of the item `syn::parse2::<SynItem>` reads, where it is among
/// the first eight of `syn::Item`'s variants. Claimed: as named by
/// `syn_item`, whose functions, `impl`s, traits and `extern` blocks have
/// their own variants.
#[verifier::external_body]
fn item_kind_front(s: &proc_macro2::TokenStream) -> (r: Option<Option<ItemKind>>)
    ensures
        r == match syn_item(stream_toks(*s)) {
            Some(v) => Some(if front_kind(kind_of(v)) { Some(kind_of(v)) } else { None }),
            None => None,
        },
        r is Some ==> item_view_ok(syn_item(stream_toks(*s))->0),
{
    Some(match syn::parse2::<SynItem>(s.clone()).ok()? {
        SynItem::Const(_) => Some(ItemKind::Const),
        SynItem::Enum(_) => Some(ItemKind::Enum),
        SynItem::ExternCrate(_) => Some(ItemKind::ExternCrate),
        SynItem::Fn(_) => Some(ItemKind::Fn),
        SynItem::ForeignMod(_) => Some(ItemKind::ForeignMod),
        SynItem::Impl(_) => Some(ItemKind::Impl),
        SynItem::Macro(_) => Some(ItemKind::Macro),
        SynItem::Mod(_) => Some(ItemKind::Mod),
        _ => None,
    })
}

/// The kind of the item `syn::parse2::<SynItem>` reads, among the rest of
/// `syn::Item`'s variants (`Verbatim` for one it does not name). Claimed: as
/// named by `syn_item`, for an item of none of the first eight kinds.
#[verifier::external_body]
fn item_kind_back(s: &proc_macro2::TokenStream) -> (r: Option<ItemKind>)
    ensures
        syn_item(stream_toks(*s)) matches Some(v) ==> (!front_kind(kind_of(v)) ==> r == Some(kind_of(v))),
{
    Some(match syn::parse2::<SynItem>(s.clone()).ok()? {
        SynItem::Static(_) => ItemKind::Static,
        SynItem::Struct(_) => ItemKind::Struct,
        SynItem::Trait(_) => ItemKind::Trait,
        SynItem::TraitAlias(_) => ItemKind::TraitAlias,
        SynItem::Type(_) => ItemKind::Type,
        SynItem::Union(_) => ItemKind::Union,
        SynItem::Use(_) => ItemKind::Use,
        _ => ItemKind::Verbatim,
    })
}

/// The qualifiers of the function `syn::parse2::<SynItem>` reads:
/// `const`, `async`, and `unsafe` or `safe`. Claimed: as named by
/// `syn_item`.
#[verifier::external_body]
fn item_fn_sig(s: &proc_macro2::TokenStream) -> (r: Option<Signature>)
    ensures
        syn_item(stream_toks(*s)) matches Some(ItemView::Fn(sig)) ==> r == Some(sig),
{
    match syn::parse2::<SynItem>(s.clone()).ok()? {
        SynItem::Fn(f) => Some(Signature {
            constness: f.sig.constness.is_some(),
            asyncness: f.sig.asyncness.is_some(),
            safety: match f.sig.safety {
                SynSafety::Unsafe(_) => Safety::Unsafe,
                SynSafety::Safe(_) => Safety::Safe,
                _ => Safety::Default,
            },
        }),
        _ => None,
    }
}

/// The number of members of the `impl`, trait or `extern` block that
/// `syn::parse2::<SynItem>` reads. Claimed: as named by `syn_item`.
#[verifier::external_body]
fn item_member_count(s: &proc_macro2::TokenStream) -> (r: usize)
    ensures
        syn_item(stream_toks(*s)) matches Some(v) ==> r == members_of(v).len(),
{
    match syn::parse2::<SynItem>(s.clone()) {
        Ok(SynItem::Impl(i)) => i.items.len(),
        Ok(SynItem::Trait(t)) => t.items.len(),
        Ok(SynItem::ForeignMod(f)) => f.items.len(),
        _ => 0,
    }
}

/// The member at `i` of the `impl` that `syn::parse2::<SynItem>` reads.
/// Claimed: as named by `syn_item`.
#[verifier::external_body]
fn item_impl_member(s: &proc_macro2::TokenStream, i: usize) -> (r: Option<Member>)
    ensures
        syn_item(stream_toks(*s)) matches Some(ItemView::Impl(ms)) ==> (i < ms.len() ==> r == Some(ms[i as int])),
{
    let m = match syn::parse2::<SynItem>(s.clone()).ok()? { SynItem::Impl(im) => im.items.into_iter().nth(i)?, _ => return None };
    Some(match m {
        ImplItem::Fn(f) => Member::Fn(Signature { constness: f.sig.constness.is_some(), asyncness: f.sig.asyncness.is_some(), safety: match f.sig.safety { SynSafety::Unsafe(_) => Safety::Unsafe, SynSafety::Safe(_) => Safety::Safe, _ => Safety::Default } }),
        ImplItem::Const(_) => Member::Other(MemberKind::Const),
        ImplItem::Type(_) => Member::Other(MemberKind::Type),
        ImplItem::Macro(_) => Member::Other(MemberKind::Macro),
        _ => Member::Other(MemberKind::Verbatim),
    })
}

/// The member at `i` of the trait that `syn::parse2::<SynItem>` reads.
/// Claimed: as named by `syn_item`.
#[verifier::external_body]
fn item_trait_member(s: &proc_macro2::TokenStream, i: usize) -> (r: Option<Member>)
    ensures
        syn_item(stream_toks(*s)) matches Some(ItemView::Trait(ms)) ==> (i < ms.len() ==> r == Some(ms[i as int])),
{
    let m = match syn::parse2::<SynItem>(s.clone()).ok()? { SynItem::Trait(t) => t.items.into_iter().nth(i)?, _ => return None };
    Some(match m {
        TraitItem::Fn(f) => Member::Fn(Signature { constness: f.sig.constness.is_some(), asyncness: f.sig.asyncness.is_some(), safety: match f.sig.safety { SynSafety::Unsafe(_) => Safety::Unsafe, SynSafety::Safe(_) => Safety::Safe, _ => Safety::Default } }),
        TraitItem::Const(_) => Member::Other(MemberKind::Const),
        TraitItem::Type(_) => Member::Other(MemberKind::Type),
        TraitItem::Macro(_) => Member::Other(MemberKind::Macro),
        _ => Member::Other(MemberKind::Verbatim),
    })
}

/// The member at `i` of the `extern` block that `syn::parse2::<SynItem>`
/// reads. Claimed: as named by `syn_item`.
#[verifier::external_body]
fn item_foreign_member(s: &proc_macro2::TokenStream, i: usize) -> (r: Option<Member>)
    ensures
        syn_item(stream_toks(*s)) matches Some(ItemView::ForeignMod(ms)) ==> (i < ms.len() ==> r == Some(ms[i as int])),
{
    let m = match syn::parse2::<SynItem>(s.clone()).ok()? { SynItem::ForeignMod(f) => f.items.into_iter().nth(i)?, _ => return None };
    Some(match m {
        ForeignItem::Fn(f) => Member::Fn(Signature { constness: f.sig.constness.is_some(), asyncness: f.sig.asyncness.is_some(), safety: match f.sig.safety { SynSafety::Unsafe(_) => Safety::Unsafe, SynSafety::Safe(_) => Safety::Safe, _ => Safety::Default } }),
        ForeignItem::Static(_) => Member::Other(MemberKind::Static),
        ForeignItem::Type(_) => Member::Other(MemberKind::Type),
        ForeignItem::Macro(_) => Member::Other(MemberKind::Macro),
        _ => Member::Other(MemberKind::Verbatim),
    })
}

/// Reads a token stream as a member of an `impl`, with
/// `syn::parse2::<ImplItem>`. Claimed: as named by `syn_impl_item`.
#[verifier::external_body]
fn parse_impl_item(s: &proc_macro2::TokenStream) -> (r: Option<Member>)
    ensures
        r == syn_impl_item(stream_toks(*s)),
{
    Some(match syn::parse2::<ImplItem>(s.clone()).ok()? {
        ImplItem::Fn(f) => Member::Fn(Signature { constness: f.sig.constness.is_some(), asyncness: f.sig.asyncness.is_some(), safety: match f.sig.safety { SynSafety::Unsafe(_) => Safety::Unsafe, SynSafety::Safe(_) => Safety::Safe, _ => Safety::Default } }),
        ImplItem::Const(_) => Member::Other(MemberKind::Const),
        ImplItem::Type(_) => Member::Other(MemberKind::Type),
        ImplItem::Macro(_) => Member::Other(MemberKind::Macro),
        _ => Member::Other(MemberKind::Verbatim),
    })
}

/// Reads a token stream as a member of a trait, with
/// `syn::parse2::<TraitItem>`. Claimed: as named by `syn_trait_item`.
#[verifier::external_body]
fn parse_trait_item(s: &proc_macro2::TokenStream) -> (r: Option<Member>)
    ensures
        r == syn_trait_item(stream_toks(*s)),
{
    Some(match syn::parse2::<TraitItem>(s.clone()).ok()? {
        TraitItem::Fn(f) => Member::Fn(Signature { constness: f.sig.constness.is_some(), asyncness: f.sig.asyncness.is_some(), safety: match f.sig.safety { SynSafety::Unsafe(_) => Safety::Unsafe, SynSafety::Safe(_) => Safety::Safe, _ => Safety::Default } }),
        TraitItem::Const(_) => Member::Other(MemberKind::Const),
        TraitItem::Type(_) => Member::Other(MemberKind::Type),
        TraitItem::Macro(_) => Member::Other(MemberKind::Macro),
        _ => Member::Other(MemberKind::Verbatim),
    })
}

/// Reads a token stream as a member of an `extern` block, with
/// `syn::parse2::<ForeignItem>`. Claimed: as named by
/// `syn_foreign_item`.
#[verifier::external_body]
fn parse_foreign_item(s: &proc_macro2::TokenStream) -> (r: Option<Member>)
    ensures
        r == syn_foreign_item(stream_toks(*s)),
{
    Some(match syn::parse2::<ForeignItem>(s.clone()).ok()? {
        ForeignItem::Fn(f) => Member::Fn(Signature { constness: f.sig.constness.is_some(), asyncness: f.sig.asyncness.is_some(), safety: match f.sig.safety { SynSafety::Unsafe(_) => Safety::Unsafe, SynSafety::Safe(_) => Safety::Safe, _ => Safety::Default } }),
        ForeignItem::Static(_) => Member::Other(MemberKind::Static),
        ForeignItem::Type(_) => Member::Other(MemberKind::Type),
        ForeignItem::Macro(_) => Member::Other(MemberKind::Macro),
        _ => Member::Other(MemberKind::Verbatim),
    })
}

/// The kind of the item that `syn` reads from a token stream.
pub fn read_item_kind(s: &proc_macro2::TokenStream) -> (r: Option<ItemKind>)
    ensures
        r == match syn_item(stream_toks(*s)) {
            Some(v) => Some(kind_of(v)),
            None => None,
        },
{
    match item_kind_front(s) {
        None => None,
        Some(Some(k)) => Some(k),
        Some(None) => item_kind_back(s),
    }
}

/// The members, in order, of the `impl`, trait or `extern` block of kind
/// `k` that `syn` reads from a token stream.
fn read_members(s: &proc_macro2::TokenStream, k: ItemKind) -> (r: Vec<Member>)
    requires
        syn_item(stream_toks(*s)) matches Some(v) && kind_of(v) == k && item_view_ok(v),
        k == ItemKind::Impl || k == ItemKind::Trait || k == ItemKind::ForeignMod,
    ensures
        syn_item(stream_toks(*s)) matches Some(v) && r@ == members_of(v),
{
    let ghost ms = members_of(syn_item(stream_toks(*s))->0);
    let n = item_member_count(s);
    let mut out: Vec<Member> = Vec::new();
    let mut i: usize = 0;
    while i < n
        invariant
            i <= n,
            n == ms.len(),
            syn_item(stream_toks(*s)) matches Some(v) && kind_of(v) == k && item_view_ok(v),
            k == ItemKind::Impl || k == ItemKind::Trait || k == ItemKind::ForeignMod,
            ms == members_of(syn_item(stream_toks(*s))->0),
            out@ == ms.take(i as int),
        decreases n - i,
    {
        let m = if k == ItemKind::Impl {
            item_impl_member(s, i)
        } else if k == ItemKind::Trait {
            item_trait_member(s, i)
        } else {
            item_foreign_member(s, i)
        };
        let m = match m {
            Some(m) => m,
            None => {
                assert(false);
                return out;
            },
        };
        proof {
            assert(ms.take(i + 1) =~= ms.take(i as int).push(ms[i as int]));
        }
        out.push(m);
        i = i + 1;
    }
    assert(ms.take(n as int) =~= ms);
    out
}

/// The item that `syn` reads from a token stream, in the library's model.
pub fn read_item(s: &proc_macro2::TokenStream) -> (r: Option<Item>)
    ensures
        match r {
            Some(i) => Some(i@),
            None => None,
        } == syn_item(stream_toks(*s)),
{
    let front = item_kind_front(s);
    let k = match read_item_kind(s) {
        Some(k) => k,
        None => {
            return None;
        },
    };
    let ghost v = syn_item(stream_toks(*s))->0;
    if k == ItemKind::Fn {
        match item_fn_sig(s) {
            Some(sig) => Some(Item::Fn(sig)),
            None => {
                assert(false);
                None
            },
        }
    } else if k == ItemKind::Impl {
        Some(Item::Impl(read_members(s, k)))
    } else if k == ItemKind::Trait {
        Some(Item::Trait(read_members(s, k)))
    } else if k == ItemKind::ForeignMod {
        Some(Item::ForeignMod(read_members(s, k)))
    } else {
        Some(Item::Other(k))
    }
}

/// The member of an `impl` that `syn` reads from a token stream.
pub fn read_impl_item(s: &proc_macro2::TokenStream) -> (r: Option<Member>)
    ensures
        r == syn_impl_item(stream_toks(*s)),
{
    parse_impl_item(s)
}

/// The member of a trait that `syn` reads from a token stream.
pub fn read_trait_item(s: &proc_macro2::TokenStream) -> (r: Option<Member>)
    ensures
        r == syn_trait_item(stream_toks(*s)),
{
    parse_trait_item(s)
}

/// The member of an `extern` block that `syn` reads from a token stream.
pub fn read_foreign_item(s: &proc_macro2::TokenStream) -> (r: Option<Member>)
    ensures
        r == syn_foreign_item(stream_toks(*s)),
{
    parse_foreign_item(s)
}

/// What the tokens an attribute is applied to read as: an item, else a
/// member of an `impl`, else of a trait, else, where `foreign`, of an
/// `extern` block; else nothing.
pub open spec fn fragment_spec(t: Seq<Tok>, foreign: bool) -> crate::macros::item::FragmentView {
    chosen_fragment(syn_item(t), syn_impl_item(t), syn_trait_item(t), syn_foreign_item(t), foreign)
}

/// Reads the tokens an attribute is applied to: an item, else a member of
/// an `impl`, else of a trait, else, where `foreign`, of an `extern` block.
pub fn read_fragment(s: &proc_macro2::TokenStream, foreign: bool) -> (r: Fragment)
    ensures
        r@ == fragment_spec(stream_toks(*s), foreign),
{
    let item = read_item(s);
    let impl_item = read_impl_item(s);
    let trait_item = read_trait_item(s);
    let foreign_item = read_foreign_item(s);
    choose_fragment(item, impl_item, trait_item, foreign_item, foreign)
}


/// A visibility as `syn` hands it back: `pub`, a restriction (whether it is
/// written with `in`, and its path as a stream), or none.
pub enum VisPart {
    Public,
    Restricted(bool, proc_macro2::TokenStream),
    Inherited,
}

/// The view of a restriction: `pub(crate)` and `pub(super)` where the path
/// is that one word without `in`; otherwise `pub(in path)`.
pub open spec fn restricted_view(in_token: bool, path: Seq<Tok>) -> VisView {
    if !in_token && path == seq![Tok::Ident("crate"@)] {
        VisView::Crate
    } else if !in_token && path == seq![Tok::Ident("super"@)] {
        VisView::Super
    } else {
        VisView::InPath(path)
    }
}

/// The view of a visibility as `syn` hands it back.
pub open spec fn vis_part_view(p: VisPart) -> VisView {
    match p {
        VisPart::Public => VisView::Public,
        VisPart::Restricted(i, s) => restricted_view(i, stream_toks(s)),
        VisPart::Inherited => VisView::Inherited,
    }
}

/// The views of an optional visibility, where there is an answer.
pub open spec fn opt_opt_vis(r: Option<Option<VisPart>>) -> Option<Option<VisView>> {
    match r {
        Some(Some(p)) => Some(Some(vis_part_view(p))),
        Some(None) => Some(None),
        None => None,
    }
}

/// The kinds of item whose visibility `item_vis_a` reads.
pub open spec fn vis_kind_a(k: ItemKind) -> bool {
    k == ItemKind::Const || k == ItemKind::Enum || k == ItemKind::ExternCrate || k == ItemKind::Fn
}

/// The kinds of item whose visibility `item_vis_b` reads.
pub open spec fn vis_kind_b(k: ItemKind) -> bool {
    k == ItemKind::Mod || k == ItemKind::Static || k == ItemKind::Struct || k == ItemKind::Trait
}

/// The kinds of item whose visibility `item_vis_c` reads; what `syn` reads
/// as an item of none of these three groups has no visibility.
pub open spec fn vis_kind_c(k: ItemKind) -> bool {
    k == ItemKind::TraitAlias || k == ItemKind::Type || k == ItemKind::Union || k == ItemKind::Use
}

/// The visibility of the item that `syn::parse2::<syn::Item>` reads, where
/// it is of kind `Const`, `Enum`, `ExternCrate`, `Fn`: `pub`, a
/// restriction (whether written with `in`, and its path's tokens), or
/// private. Claimed: as named by `syn_item_read`.
#[verifier::external_body]
fn item_vis_a(s: &proc_macro2::TokenStream) -> (r: Option<Option<VisPart>>)
    ensures
        opt_opt_vis(r) == match syn_item_read(stream_toks(*s)) {
            Some((v, vis, _, _)) => Some(if vis_kind_a(kind_of(v)) { Some(vis) } else { None }),
            None => None,
        },
{
    let v = match syn::parse2::<SynItem>(s.clone()).ok()? { SynItem::Const(i) => i.vis, SynItem::Enum(i) => i.vis, SynItem::ExternCrate(i) => i.vis, SynItem::Fn(i) => i.vis, _ => return Some(None) };
    Some(Some(match v {
        syn::Visibility::Public(_) => VisPart::Public,
        syn::Visibility::Restricted(r) => VisPart::Restricted(r.in_token.is_some(), r.path.into_token_stream()),
        syn::Visibility::Inherited => VisPart::Inherited,
    }))
}

/// The visibility of the item that `syn::parse2::<syn::Item>` reads, where
/// it is of kind `Mod`, `Static`, `Struct`, `Trait`: `pub`, a
/// restriction (whether written with `in`, and its path's tokens), or
/// private. Claimed: as named by `syn_item_read`.
#[verifier::external_body]
fn item_vis_b(s: &proc_macro2::TokenStream) -> (r: Option<Option<VisPart>>)
    ensures
        opt_opt_vis(r) == match syn_item_read(stream_toks(*s)) {
            Some((v, vis, _, _)) => Some(if vis_kind_b(kind_of(v)) { Some(vis) } else { None }),
            None => None,
        },
{
    let v = match syn::parse2::<SynItem>(s.clone()).ok()? { SynItem::Mod(i) => i.vis, SynItem::Static(i) => i.vis, SynItem::Struct(i) => i.vis, SynItem::Trait(i) => i.vis, _ => return Some(None) };
    Some(Some(match v {
        syn::Visibility::Public(_) => VisPart::Public,
        syn::Visibility::Restricted(r) => VisPart::Restricted(r.in_token.is_some(), r.path.into_token_stream()),
        syn::Visibility::Inherited => VisPart::Inherited,
    }))
}

/// The visibility of the item that `syn::parse2::<syn::Item>` reads, where
/// it is of kind `TraitAlias`, `Type`, `Union`, `Use`: `pub`, a
/// restriction (whether written with `in`, and its path's tokens), or
/// private. Claimed: as named by `syn_item_read`; an item of no kind of the
/// three groups has none, and is named private.
#[verifier::external_body]
fn item_vis_c(s: &proc_macro2::TokenStream) -> (r: Option<Option<VisPart>>)
    ensures
        opt_opt_vis(r) == match syn_item_read(stream_toks(*s)) {
            Some((v, vis, _, _)) => Some(if vis_kind_c(kind_of(v)) { Some(vis) } else { None }),
            None => None,
        },
        r is Some ==> (syn_item_read(stream_toks(*s)) matches Some((v, vis, _, _)) ==> (!vis_kind_a(kind_of(v))
            && !vis_kind_b(kind_of(v)) && !vis_kind_c(kind_of(v)) ==> vis == VisView::Inherited)),
{
    let v = match syn::parse2::<SynItem>(s.clone()).ok()? { SynItem::TraitAlias(i) => i.vis, SynItem::Type(i) => i.vis, SynItem::Union(i) => i.vis, SynItem::Use(i) => i.vis, _ => return Some(None) };
    Some(Some(match v {
        syn::Visibility::Public(_) => VisPart::Public,
        syn::Visibility::Restricted(r) => VisPart::Restricted(r.in_token.is_some(), r.path.into_token_stream()),
        syn::Visibility::Inherited => VisPart::Inherited,
    }))
}

/// The visibility of the `impl` member that `syn::parse2::<syn::ImplItem>`
/// reads, as `item_vis_a` gives an item's; `Some(None)` for a member that
/// has none. Claimed: as named by `syn_impl_item_read`, which names a
/// member without one private.
#[verifier::external_body]
fn impl_item_vis(s: &proc_macro2::TokenStream) -> (r: Option<Option<VisPart>>)
    ensures
        match r {
            Some(Some(p)) => Some(vis_part_view(p)),
            Some(None) => Some(VisView::Inherited),
            None => None,
        } == match syn_impl_item_read(stream_toks(*s)) {
            Some((_, vis)) => Some(vis),
            None => None,
        },
{
    let v = match syn::parse2::<ImplItem>(s.clone()).ok()? { ImplItem::Const(i) => i.vis, ImplItem::Fn(i) => i.vis, ImplItem::Type(i) => i.vis, _ => return Some(None) };
    Some(Some(match v {
        syn::Visibility::Public(_) => VisPart::Public,
        syn::Visibility::Restricted(r) => VisPart::Restricted(r.in_token.is_some(), r.path.into_token_stream()),
        syn::Visibility::Inherited => VisPart::Inherited,
    }))
}

/// Whether tokens are the one word `w`.
fn is_word(t: &Vec<TokenTree>, w: &str) -> (r: bool)
    ensures
        r == (toks_view(t@) == seq![Tok::Ident(w@)]),
{
    proof {
        lemma_toks_view(t@);
    }
    if t.len() != 1 {
        return false;
    }
    match &t[0] {
        TokenTree::Ident(x) => {
            let b = text_is(x, w);
            proof {
                if b {
                    assert(toks_view(t@) =~= seq![Tok::Ident(w@)]);
                } else {
                    assert(toks_view(t@)[0] != Tok::Ident(w@));
                }
            }
            b
        },
        _ => {
            assert(toks_view(t@)[0] != Tok::Ident(w@));
            false
        },
    }
}

/// A visibility as `syn` handed it back, in the library's model: a
/// restriction to `crate` or `super` without `in` is `pub(crate)` or
/// `pub(super)`, any other is `pub(in path)`.
pub fn visibility_of(p: VisPart) -> (r: Visibility)
    ensures
        r@ == vis_part_view(p),
{
    match p {
        VisPart::Public => Visibility::Public,
        VisPart::Restricted(in_token, s) => {
            let path = read_stream(&s);
            if !in_token && is_word(&path, "crate") {
                Visibility::Crate
            } else if !in_token && is_word(&path, "super") {
                Visibility::Super
            } else {
                Visibility::InPath(path)
            }
        },
        VisPart::Inherited => Visibility::Inherited,
    }
}

/// The visibility of the item that `syn` reads from a token stream.
pub fn read_item_vis(s: &proc_macro2::TokenStream) -> (r: Option<Visibility>)
    ensures
        match r {
            Some(v) => Some(v@),
            None => None,
        } == match syn_item_read(stream_toks(*s)) {
            Some(x) => Some(x.1),
            None => None,
        },
{
    let a = item_vis_a(s);
    let b = item_vis_b(s);
    let c = item_vis_c(s);
    match (a, b, c) {
        (Some(Some(p)), _, _) => Some(visibility_of(p)),
        (_, Some(Some(p)), _) => Some(visibility_of(p)),
        (_, _, Some(Some(p))) => Some(visibility_of(p)),
        (Some(None), Some(None), Some(None)) => Some(Visibility::Inherited),
        _ => None,
    }
}

/// The member kind of a member.
pub open spec fn member_kind_of(m: Member) -> MemberKind {
    match m {
        Member::Fn(_) => MemberKind::Fn,
        Member::Other(k) => k,
    }
}

/// What a visibility attribute's tokens read as: an item, else a member of
/// an `impl`, else of a trait, each with its kind and visibility; else
/// nothing.
pub open spec fn declaration_spec(t: Seq<Tok>) -> DeclView {
    chosen_declaration(
        match syn_item_read(t) {
            Some((v, vis, _, _)) => Some(DeclView::Item(kind_of(v), vis)),
            None => None,
        },
        match syn_impl_item_read(t) {
            Some((m, vis)) => Some(DeclView::ImplItem(member_kind_of(m), vis)),
            None => None,
        },
        match syn_trait_item(t) {
            Some(m) => Some(member_kind_of(m)),
            None => None,
        },
    )
}

/// Reads the tokens a visibility attribute is applied to.
pub fn read_declaration(s: &proc_macro2::TokenStream) -> (r: Declaration)
    ensures
        r@ == declaration_spec(stream_toks(*s)),
{
    let item = match read_item_kind(s) {
        Some(kind) => match read_item_vis(s) {
            Some(vis) => Some(VisItem { kind, vis }),
            None => {
                assert(false);
                None
            },
        },
        None => None,
    };
    let impl_item = match read_impl_item(s) {
        Some(m) => match impl_item_vis(s) {
            Some(p) => {
                let kind = match m {
                    Member::Fn(_) => MemberKind::Fn,
                    Member::Other(k) => k,
                };
                let vis = match p {
                    Some(p) => visibility_of(p),
                    None => Visibility::Inherited,
                };
                Some(VisImplItem { kind, vis })
            },
            None => {
                assert(false);
                None
            },
        },
        None => None,
    };
    let trait_item = match read_trait_item(s) {
        Some(Member::Fn(_)) => Some(MemberKind::Fn),
        Some(Member::Other(k)) => Some(k),
        None => None,
    };
    choose_declaration(item, impl_item, trait_item)
}


// ---------------------------------------------------------------------------
// Headers of traits and `impl`s.

/// A bound as `syn` hands it back: a trait bound, by whether its path starts
/// with `::` and its segments (identifier, and argument tokens as a
/// stream); or another bound.
pub enum BoundPart {
    Trait(bool, Vec<(String, proc_macro2::TokenStream)>),
    Other,
}

/// The view of a bound as `syn` hands it back.
pub open spec fn bound_part_view(b: BoundPart) -> BoundView {
    match b {
        BoundPart::Trait(lead, segs) => BoundView::Trait(
            (lead, segs@.map_values(|g: (String, proc_macro2::TokenStream)| (g.0@, stream_toks(g.1)))),
        ),
        BoundPart::Other => BoundView::Other,
    }
}

/// The views of bounds as `syn` hands them back.
pub open spec fn bound_parts_view(bs: Seq<BoundPart>) -> Seq<BoundView> {
    bs.map_values(|b: BoundPart| bound_part_view(b))
}

/// The views of predicates as `syn` hands them back: the bounds of a type
/// predicate (or of a type parameter), or another predicate.
pub open spec fn pred_parts_view(ps: Seq<Option<Vec<BoundPart>>>) -> Seq<PredView> {
    ps.map_values(|p: Option<Vec<BoundPart>>| match p {
        Some(bs) => PredView::Type(bound_parts_view(bs@)),
        None => PredView::Other,
    })
}

/// Whether bounds as `syn` hands them back have the views `bs`.
pub open spec fn bounds_are(r: Option<Vec<BoundPart>>, bs: Seq<BoundView>) -> bool {
    r matches Some(v) && bound_parts_view(v@) == bs
}

/// Whether predicates as `syn` hands them back have the views `ps`.
pub open spec fn preds_are(r: Option<Vec<Option<Vec<BoundPart>>>>, ps: Seq<PredView>) -> bool {
    r matches Some(v) && pred_parts_view(v@) == ps
}

/// The supertraits of the trait that `syn::parse2::<syn::Item>` reads, each
/// trait bound by its path. Claimed: as named by `syn_item_read`.
#[verifier::external_body]
fn item_supertraits(s: &proc_macro2::TokenStream) -> (r: Option<Vec<BoundPart>>)
    ensures
        syn_item_read(stream_toks(*s)) matches Some((ItemView::Trait(_), _, h, _)) ==> bounds_are(r, h.0),
{
    let bs = |b: &Punctuated<TypeParamBound, Plus>| -> Vec<BoundPart> { b.iter().map(|b| match b { TypeParamBound::Trait(t) => BoundPart::Trait(t.path.leading_colon.is_some(), t.path.segments.iter().map(|g| (g.ident.to_string(), g.arguments.to_token_stream())).collect()), _ => BoundPart::Other }).collect() };
    match syn::parse2::<SynItem>(s.clone()).ok()? {
        SynItem::Trait(t) => Some(bs(&t.supertraits)),
        _ => None,
    }
}

/// The bounds of each generic parameter of the `impl` that
/// `syn::parse2::<syn::Item>` reads (none for a lifetime or a constant).
/// Claimed: as named by `syn_item_read`.
#[verifier::external_body]
fn item_params(s: &proc_macro2::TokenStream) -> (r: Option<Vec<Option<Vec<BoundPart>>>>)
    ensures
        syn_item_read(stream_toks(*s)) matches Some((ItemView::Impl(_), _, h, _)) ==> preds_are(r, h.1),
{
    let bs = |b: &Punctuated<TypeParamBound, Plus>| -> Vec<BoundPart> { b.iter().map(|b| match b { TypeParamBound::Trait(t) => BoundPart::Trait(t.path.leading_colon.is_some(), t.path.segments.iter().map(|g| (g.ident.to_string(), g.arguments.to_token_stream())).collect()), _ => BoundPart::Other }).collect() };
    let SynItem::Impl(i) = syn::parse2::<SynItem>(s.clone()).ok()? else { return None };
    Some(i.generics.params.iter().map(|p| match p { GenericParam::Type(t) => Some(bs(&t.bounds)), _ => None }).collect())
}

/// The `where` predicates of the trait that `syn::parse2::<syn::Item>` reads:
/// the bounds of each type predicate, none for another. Claimed: as named
/// by `syn_item_read`.
#[verifier::external_body]
fn trait_where(s: &proc_macro2::TokenStream) -> (r: Option<Vec<Option<Vec<BoundPart>>>>)
    ensures
        syn_item_read(stream_toks(*s)) matches Some((ItemView::Trait(_), _, h, _)) ==> preds_are(r, h.2),
{
    let bs = |b: &Punctuated<TypeParamBound, Plus>| b.iter().map(|b| match b { TypeParamBound::Trait(t) => BoundPart::Trait(t.path.leading_colon.is_some(), t.path.segments.iter().map(|g| (g.ident.to_string(), g.arguments.to_token_stream())).collect()), _ => BoundPart::Other }).collect::<Vec<BoundPart>>();
    let SynItem::Trait(i) = syn::parse2::<SynItem>(s.clone()).ok()? else { return None };
    Some(i.generics.where_clause.into_iter().flat_map(|w| w.predicates).map(|p| match p { WherePredicate::Type(t) => Some(bs(&t.bounds)), _ => None }).collect())
}

/// The `where` predicates of the `impl` that `syn::parse2::<syn::Item>` reads:
/// the bounds of each type predicate, none for another. Claimed: as named
/// by `syn_item_read`.
#[verifier::external_body]
fn impl_where(s: &proc_macro2::TokenStream) -> (r: Option<Vec<Option<Vec<BoundPart>>>>)
    ensures
        syn_item_read(stream_toks(*s)) matches Some((ItemView::Impl(_), _, h, _)) ==> preds_are(r, h.2),
{
    let bs = |b: &Punctuated<TypeParamBound, Plus>| b.iter().map(|b| match b { TypeParamBound::Trait(t) => BoundPart::Trait(t.path.leading_colon.is_some(), t.path.segments.iter().map(|g| (g.ident.to_string(), g.arguments.to_token_stream())).collect()), _ => BoundPart::Other }).collect::<Vec<BoundPart>>();
    let SynItem::Impl(i) = syn::parse2::<SynItem>(s.clone()).ok()? else { return None };
    Some(i.generics.where_clause.into_iter().flat_map(|w| w.predicates).map(|p| match p { WherePredicate::Type(t) => Some(bs(&t.bounds)), _ => None }).collect())
}

/// A bound as `syn` handed it back, in the library's model.
pub fn bound_of(b: BoundPart) -> (r: Bound)
    ensures
        r@ == bound_part_view(b),
{
    match b {
        BoundPart::Trait(lead, segs) => {
            let ghost gs = segs@;
            let mut segs = segs;
            let n = segs.len();
            let mut out: Vec<PathSegment> = Vec::new();
            let mut i: usize = 0;
            while i < n
                invariant
                    i <= n,
                    n == gs.len(),
                    segs@ == gs.subrange(i as int, n as int),
                    out@.map_values(|x: PathSegment| x@) == gs.take(i as int).map_values(
                        |g: (String, proc_macro2::TokenStream)| (g.0@, stream_toks(g.1)),
                    ),
                decreases n - i,
            {
                let g = segs.remove(0);
                proof {
                    assert(g == gs[i as int]);
                    assert(segs@ =~= gs.subrange(i + 1, n as int));
                }
                let seg = PathSegment { ident: g.0, arguments: read_stream(&g.1) };
                proof {
                    assert(out@.push(seg).map_values(|x: PathSegment| x@) =~= out@.map_values(
                        |x: PathSegment| x@,
                    ).push(seg@));
                    assert(gs.take(i + 1).map_values(|g: (String, proc_macro2::TokenStream)| (g.0@, stream_toks(g.1)))
                        =~= gs.take(i as int).map_values(
                        |g: (String, proc_macro2::TokenStream)| (g.0@, stream_toks(g.1)),
                    ).push((gs[i as int].0@, stream_toks(gs[i as int].1))));
                }
                out.push(seg);
                i = i + 1;
            }
            assert(gs.take(n as int) =~= gs);
            Bound::Trait(TraitBound { leading_colon: lead, segments: out })
        },
        BoundPart::Other => Bound::Other,
    }
}

/// Bounds as `syn` handed them back, in the library's model.
pub fn bounds_of(bs: Vec<BoundPart>) -> (r: Vec<Bound>)
    ensures
        r@.map_values(|b: Bound| b@) == bound_parts_view(bs@),
{
    let ghost v = bs@;
    let mut bs = bs;
    let n = bs.len();
    let mut out: Vec<Bound> = Vec::new();
    let mut i: usize = 0;
    while i < n
        invariant
            i <= n,
            n == v.len(),
            bs@ == v.subrange(i as int, n as int),
            out@.map_values(|b: Bound| b@) == bound_parts_view(v.take(i as int)),
        decreases n - i,
    {
        let b = bs.remove(0);
        proof {
            assert(b == v[i as int]);
            assert(bs@ =~= v.subrange(i + 1, n as int));
        }
        let m = bound_of(b);
        proof {
            assert(out@.push(m).map_values(|b: Bound| b@) =~= out@.map_values(|b: Bound| b@).push(m@));
            assert(bound_parts_view(v.take(i + 1)) =~= bound_parts_view(v.take(i as int)).push(
                bound_part_view(v[i as int]),
            ));
        }
        out.push(m);
        i = i + 1;
    }
    assert(v.take(n as int) =~= v);
    out
}

/// Predicates as `syn` handed them back, in the library's model.
pub fn predicates_of(ps: Vec<Option<Vec<BoundPart>>>) -> (r: Vec<Predicate>)
    ensures
        r@.map_values(|p: Predicate| p@) == pred_parts_view(ps@),
{
    let ghost v = ps@;
    let mut ps = ps;
    let n = ps.len();
    let mut out: Vec<Predicate> = Vec::new();
    let mut i: usize = 0;
    while i < n
        invariant
            i <= n,
            n == v.len(),
            ps@ == v.subrange(i as int, n as int),
            out@.map_values(|p: Predicate| p@) == pred_parts_view(v.take(i as int)),
        decreases n - i,
    {
        let p = ps.remove(0);
        proof {
            assert(p == v[i as int]);
            assert(ps@ =~= v.subrange(i + 1, n as int));
        }
        let m = match p {
            Some(bs) => Predicate::Type(bounds_of(bs)),
            None => Predicate::Other,
        };
        proof {
            assert(out@.push(m).map_values(|p: Predicate| p@) =~= out@.map_values(|p: Predicate| p@).push(m@));
            assert(pred_parts_view(v.take(i + 1)) =~= pred_parts_view(v.take(i as int)).push(
                pred_parts_view(v)[i as int],
            ));
        }
        out.push(m);
        i = i + 1;
    }
    assert(v.take(n as int) =~= v);
    out
}

/// What `#[const_]` and `#[dyn_]` read in tokens: a trait or an `impl` by
/// the bounds of its header, a function by its signature, another item by
/// its kind, or nothing `syn` reads as an item.
pub open spec fn target_spec(t: Seq<Tok>) -> TargetView {
    match syn_item_read(t) {
        Some((ItemView::Trait(_), _, h, _)) => TargetView::Trait((h.0, h.2)),
        Some((ItemView::Impl(_), _, h, _)) => TargetView::Impl((Seq::empty(), h.1 + h.2)),
        Some((ItemView::Fn(sig), _, _, _)) => TargetView::Fn(sig),
        Some((v, _, _, _)) => TargetView::Other(kind_of(v)),
        None => TargetView::Unparsed,
    }
}

/// Reads what `#[const_]` or `#[dyn_]` is applied to.
pub fn read_target(s: &proc_macro2::TokenStream) -> (r: ConstTarget)
    ensures
        crate::macros::con_::target_view(r) == target_spec(stream_toks(*s)),
{
    let k = match read_item_kind(s) {
        Some(k) => k,
        None => {
            return ConstTarget::Unparsed;
        },
    };
    let _front = item_kind_front(s);
    if k == ItemKind::Trait {
        match (item_supertraits(s), trait_where(s)) {
            (Some(sup), Some(preds)) => {
                let ghost sv = bound_parts_view(sup@);
                let ghost pv = pred_parts_view(preds@);
                let h = TraitHeader { supertraits: bounds_of(sup), predicates: predicates_of(preds) };
                proof {
                    assert(h@.0 =~= sv);
                    assert(h@.1 =~= pv);
                    let x = syn_item_read(stream_toks(*s))->0;
                    assert(x.0 is Trait);
                    assert(h@ == (x.2.0, x.2.2));
                }
                ConstTarget::Trait(h)
            },
            _ => {
                assert(false);
                ConstTarget::Unparsed
            },
        }
    } else if k == ItemKind::Impl {
        match (item_params(s), impl_where(s)) {
            (Some(params), Some(preds)) => {
                let ghost av = pred_parts_view(params@);
                let ghost pv = pred_parts_view(preds@);
                let mut all = params;
                let mut rest = preds;
                all.append(&mut rest);
                proof {
                    assert(pred_parts_view(all@) =~= av + pv);
                }
                let h = TraitHeader { supertraits: Vec::new(), predicates: predicates_of(all) };
                proof {
                    assert(h@.0 =~= Seq::<BoundView>::empty());
                    let x = syn_item_read(stream_toks(*s))->0;
                    assert(x.0 is Impl);
                    assert(h@ == (Seq::<BoundView>::empty(), x.2.1 + x.2.2));
                }
                ConstTarget::Impl(h)
            },
            _ => {
                assert(false);
                ConstTarget::Unparsed
            },
        }
    } else if k == ItemKind::Fn {
        match item_fn_sig(s) {
            Some(sig) => ConstTarget::Item(ConstItem::Fn(sig)),
            None => {
                assert(false);
                ConstTarget::Unparsed
            },
        }
    } else {
        proof {
            let v = (syn_item_read(stream_toks(*s))->0).0;
            assert(syn_item(stream_toks(*s)) == Some(v));
            assert(item_view_ok(v));
            assert(kind_of(v) == k);
            assert(!(v is Trait) && !(v is Impl) && !(v is Fn));
        }
        ConstTarget::Item(ConstItem::Other(k))
    }
}

} // verus!
