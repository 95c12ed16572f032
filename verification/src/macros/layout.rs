//! The parts of a trait or an `impl` as `syn` reads them from tokens, kept as
//! written, so that `#[const_]` and `#[dyn_]` can print the item again.
use vstd::prelude::*;

use crate::macros::con_::ConstOutput;
use crate::macros::item::ItemView;
use crate::macros::print::{
    impl_tokens, pred_parts_view, prefixes_view, print_impl_with_const, print_trait_tokens, trait_tokens,
    ImplLayout, ImplParts, PredLayout, PredPart, TraitLayout, TraitParts,
};
use crate::macros::stream::{read_stream, stream_toks};
use crate::macros::syntax::{syn_item_read, ItemHeaderView};
use crate::macros::tokens::{toks_view, Tok, TokenTree};
use crate::macros::vis::VisView;
use quote::ToTokens;
use syn::Item as SynItem;
use syn::{GenericParam, TypeParamBound, WherePredicate};

verus! {

/// The parts of an item as written: those of a trait, those of an `impl`, or
/// none for another item.
pub ghost enum ItemLayout {
    Trait(TraitLayout),
    Impl(ImplLayout),
    Other,
}

/// What `syn` reads from tokens as an item (see `syn_item_read`).
pub type ItemRead = Option<(ItemView, VisView, ItemHeaderView, ItemLayout)>;

/// Whether `syn` reads a trait.
pub open spec fn is_trait(x: ItemRead) -> bool {
    x matches Some((ItemView::Trait(_), _, _, _))
}

/// Whether `syn` reads an `impl`.
pub open spec fn is_impl(x: ItemRead) -> bool {
    x matches Some((ItemView::Impl(_), _, _, _))
}

/// The parts of the trait that `syn` reads, where it reads one.
pub open spec fn trait_layout(x: ItemRead) -> Option<TraitLayout> {
    match x {
        Some((ItemView::Trait(_), _, _, ItemLayout::Trait(l))) => Some(l),
        _ => None,
    }
}

/// The parts of the `impl` that `syn` reads, where it reads one.
pub open spec fn impl_layout(x: ItemRead) -> Option<ImplLayout> {
    match x {
        Some((ItemView::Impl(_), _, _, ItemLayout::Impl(l))) => Some(l),
        _ => None,
    }
}

/// The views of streams.
pub open spec fn streams_view(v: Seq<proc_macro2::TokenStream>) -> Seq<Seq<Tok>> {
    v.map_values(|t: proc_macro2::TokenStream| stream_toks(t))
}

/// Whether a predicate's or parameter's head, as handed back (whether it is
/// a type one, and its head or its whole tokens), fits its layout.
pub open spec fn head_fits(h: (bool, proc_macro2::TokenStream), pl: PredLayout) -> bool {
    match pl {
        PredLayout::Type(head, _) => h.0 && stream_toks(h.1) == head,
        PredLayout::Other(t) => !h.0 && stream_toks(h.1) == t,
    }
}

/// Whether the heads handed back fit the layouts, one for one.
pub open spec fn heads_fit(v: Seq<(bool, proc_macro2::TokenStream)>, pls: Seq<PredLayout>) -> bool {
    &&& v.len() == pls.len()
    &&& forall|i: int| 0 <= i < v.len() ==> #[trigger] head_fits(v[i], pls[i])
}

/// Whether the bound prefixes handed back fit the layouts, one for one (a
/// type one's prefixes are its own).
pub open spec fn prefixes_fit(v: Seq<Vec<proc_macro2::TokenStream>>, pls: Seq<PredLayout>) -> bool {
    &&& v.len() == pls.len()
    &&& forall|i: int|
        0 <= i < v.len() ==> (#[trigger] pls[i] matches PredLayout::Type(_, ps) ==> streams_view(v[i]@) == ps)
}

/// The predicates of a `where` clause, where there is one.
pub open spec fn where_preds(w: Option<Seq<PredLayout>>) -> Seq<PredLayout> {
    match w {
        Some(pls) => pls,
        None => Seq::empty(),
    }
}

/// Whether the `where` heads handed back fit a `where` clause's layout.
pub open spec fn where_heads_fit(r: Option<Vec<(bool, proc_macro2::TokenStream)>>, w: Option<Seq<PredLayout>>) -> bool {
    match (r, w) {
        (Some(v), Some(pls)) => heads_fit(v@, pls),
        (None, None) => true,
        _ => false,
    }
}

/// Whether a part handed back fits what `f` says of the parts of the trait
/// that `syn` reads, where it reads a trait.
pub open spec fn trait_part_fits<T>(x: ItemRead, r: Option<T>, f: spec_fn(T, TraitLayout) -> bool) -> bool {
    is_trait(x) ==> (r matches Some(t) && trait_layout(x) matches Some(l) && f(t, l))
}

/// Whether a part handed back fits what `g` says of the parts of the `impl`
/// that `syn` reads, where it reads an `impl`.
pub open spec fn impl_part_fits<T>(x: ItemRead, r: Option<T>, g: spec_fn(T, ImplLayout) -> bool) -> bool {
    is_impl(x) ==> (r matches Some(t) && impl_layout(x) matches Some(l) && g(t, l))
}

/// Both of the above.
pub open spec fn part_fits<T>(
    x: ItemRead,
    r: Option<T>,
    f: spec_fn(T, TraitLayout) -> bool,
    g: spec_fn(T, ImplLayout) -> bool,
) -> bool {
    trait_part_fits(x, r, f) && impl_part_fits(x, r, g)
}

/// The attributes of the trait or `impl` that `syn::parse2::<syn::Item>`
/// reads. Claimed: as named by `syn_item_read`.
#[verifier::external_body]
fn layout_attrs(s: &proc_macro2::TokenStream) -> (r: Option<proc_macro2::TokenStream>)
    ensures
        part_fits(syn_item_read(stream_toks(*s)), r, |t: proc_macro2::TokenStream, l: TraitLayout| stream_toks(t) == l.attrs, |t: proc_macro2::TokenStream, l: ImplLayout| stream_toks(t) == l.attrs),
{
    match syn::parse2::<SynItem>(s.clone()).ok()? {
        SynItem::Trait(t) => Some(t.attrs.iter().map(|a| a.to_token_stream()).collect()),
        SynItem::Impl(i) => Some(i.attrs.iter().map(|a| a.to_token_stream()).collect()),
        _ => None,
    }
}

/// The visibility, `unsafe` and `auto` of the trait, or the `unsafe` of the
/// `impl`, that `syn::parse2::<syn::Item>` reads. Claimed: as named by
/// `syn_item_read`.
#[verifier::external_body]
fn layout_mods(s: &proc_macro2::TokenStream) -> (r: Option<proc_macro2::TokenStream>)
    ensures
        part_fits(syn_item_read(stream_toks(*s)), r, |t: proc_macro2::TokenStream, l: TraitLayout| stream_toks(t) == l.mods, |t: proc_macro2::TokenStream, l: ImplLayout| stream_toks(t) == l.mods),
{
    match syn::parse2::<SynItem>(s.clone()).ok()? {
        SynItem::Trait(t) => {
            let mut m = t.vis.to_token_stream();
            t.unsafety.to_tokens(&mut m);
            t.modifiers.auto_token.to_tokens(&mut m);
            Some(m)
        },
        SynItem::Impl(i) => Some(i.unsafety.to_token_stream()),
        _ => None,
    }
}

/// The items of the trait or `impl` that `syn::parse2::<syn::Item>` reads.
/// Claimed: as named by `syn_item_read`.
#[verifier::external_body]
fn layout_items(s: &proc_macro2::TokenStream) -> (r: Option<proc_macro2::TokenStream>)
    ensures
        part_fits(syn_item_read(stream_toks(*s)), r, |t: proc_macro2::TokenStream, l: TraitLayout| stream_toks(t) == l.items, |t: proc_macro2::TokenStream, l: ImplLayout| stream_toks(t) == l.items),
{
    match syn::parse2::<SynItem>(s.clone()).ok()? {
        SynItem::Trait(t) => Some(t.items.iter().map(|a| a.to_token_stream()).collect()),
        SynItem::Impl(i) => Some(i.items.iter().map(|a| a.to_token_stream()).collect()),
        _ => None,
    }
}

/// The heads of the `where` predicates of the trait or `impl` that
/// `syn::parse2::<syn::Item>` reads: for a type predicate, `true` with its
/// `for<...>` and its type; for another, `false` with its tokens; `None`
/// without a `where` clause. Claimed: as named by `syn_item_read`.
#[verifier::external_body]
fn where_heads(s: &proc_macro2::TokenStream) -> (r: Option<Option<Vec<(bool, proc_macro2::TokenStream)>>>)
    ensures
        part_fits(syn_item_read(stream_toks(*s)), r, |w: Option<Vec<(bool, proc_macro2::TokenStream)>>, l: TraitLayout| where_heads_fit(w, l.where_clause), |w: Option<Vec<(bool, proc_macro2::TokenStream)>>, l: ImplLayout| where_heads_fit(w, l.where_clause)),
{
    let g = match syn::parse2::<SynItem>(s.clone()).ok()? {
        SynItem::Trait(t) => t.generics,
        SynItem::Impl(i) => i.generics,
        _ => return None,
    };
    Some(g.where_clause.map(|w| w.predicates.iter().map(|p| match p {
        WherePredicate::Type(pt) => (true, { let mut h = pt.lifetimes.to_token_stream(); pt.bounded_ty.to_tokens(&mut h); h }),
        o => (false, o.to_token_stream()),
    }).collect()))
}

/// The prefix of each bound of each `where` predicate of the trait or `impl`
/// that `syn::parse2::<syn::Item>` reads: `?` and `for<...>` of a trait
/// bound, another bound's tokens; none for another predicate. Claimed: as
/// named by `syn_item_read`.
#[verifier::external_body]
fn where_prefixes(s: &proc_macro2::TokenStream) -> (r: Option<Vec<Vec<proc_macro2::TokenStream>>>)
    ensures
        part_fits(syn_item_read(stream_toks(*s)), r, |v: Vec<Vec<proc_macro2::TokenStream>>, l: TraitLayout| prefixes_fit(v@, where_preds(l.where_clause)), |v: Vec<Vec<proc_macro2::TokenStream>>, l: ImplLayout| prefixes_fit(v@, where_preds(l.where_clause))),
{
    let g = match syn::parse2::<SynItem>(s.clone()).ok()? {
        SynItem::Trait(t) => t.generics,
        SynItem::Impl(i) => i.generics,
        _ => return None,
    };
    Some(g.where_clause.into_iter().flat_map(|w| w.predicates).map(|p| match p {
        WherePredicate::Type(pt) => pt.bounds.iter().map(|b| match b { TypeParamBound::Trait(tb) => { let mut x = tb.maybe.to_token_stream(); tb.lifetimes.to_tokens(&mut x); x }, o => o.to_token_stream() }).collect(),
        _ => Vec::new(),
    }).collect())
}

/// The name and the generic parameters (without `<` and `>`) of the trait
/// that `syn::parse2::<syn::Item>` reads. Claimed: as named by
/// `syn_item_read`.
#[verifier::external_body]
fn trait_name(s: &proc_macro2::TokenStream) -> (r: Option<(proc_macro2::TokenStream, proc_macro2::TokenStream)>)
    ensures
        trait_part_fits(syn_item_read(stream_toks(*s)), r, |t: (proc_macro2::TokenStream, proc_macro2::TokenStream), l: TraitLayout| stream_toks(t.0) == l.ident && stream_toks(t.1) == l.generics),
{
    let SynItem::Trait(t) = syn::parse2::<SynItem>(s.clone()).ok()? else { return None };
    Some((t.ident.to_token_stream(), t.generics.params.to_token_stream()))
}

/// The prefix of each supertrait bound of the trait that
/// `syn::parse2::<syn::Item>` reads: `?` and `for<...>` of a trait bound,
/// another bound's tokens. Claimed: as named by `syn_item_read`.
#[verifier::external_body]
fn trait_prefixes(s: &proc_macro2::TokenStream) -> (r: Option<Vec<proc_macro2::TokenStream>>)
    ensures
        trait_part_fits(syn_item_read(stream_toks(*s)), r, |v: Vec<proc_macro2::TokenStream>, l: TraitLayout| streams_view(v@) == l.prefixes),
{
    let SynItem::Trait(t) = syn::parse2::<SynItem>(s.clone()).ok()? else { return None };
    Some(t.supertraits.iter().map(|b| match b {
        TypeParamBound::Trait(tb) => { let mut x = tb.maybe.to_token_stream(); tb.lifetimes.to_tokens(&mut x); x },
        o => o.to_token_stream(),
    }).collect())
}

/// The heads of the generic parameters of the `impl` that
/// `syn::parse2::<syn::Item>` reads: for a type parameter, `true` with its
/// attributes and name; for another, `false` with its tokens. Claimed: as
/// named by `syn_item_read`.
#[verifier::external_body]
fn param_heads(s: &proc_macro2::TokenStream) -> (r: Option<Vec<(bool, proc_macro2::TokenStream)>>)
    ensures
        impl_part_fits(syn_item_read(stream_toks(*s)), r, |v: Vec<(bool, proc_macro2::TokenStream)>, l: ImplLayout| heads_fit(v@, l.params)),
{
    let SynItem::Impl(i) = syn::parse2::<SynItem>(s.clone()).ok()? else { return None };
    Some(i.generics.params.iter().map(|p| match p {
        GenericParam::Type(tp) => (true, { let mut h: proc_macro2::TokenStream = tp.attrs.iter().map(|a| a.to_token_stream()).collect(); tp.ident.to_tokens(&mut h); h }),
        o => (false, o.to_token_stream()),
    }).collect())
}

/// The prefix of each bound of each generic parameter of the `impl` that
/// `syn::parse2::<syn::Item>` reads: `?` and `for<...>` of a trait bound,
/// another bound's tokens; none for another parameter. Claimed: as named by
/// `syn_item_read`.
#[verifier::external_body]
fn param_prefixes(s: &proc_macro2::TokenStream) -> (r: Option<Vec<Vec<proc_macro2::TokenStream>>>)
    ensures
        impl_part_fits(syn_item_read(stream_toks(*s)), r, |v: Vec<Vec<proc_macro2::TokenStream>>, l: ImplLayout| prefixes_fit(v@, l.params)),
{
    let SynItem::Impl(i) = syn::parse2::<SynItem>(s.clone()).ok()? else { return None };
    Some(i.generics.params.iter().map(|p| match p {
        GenericParam::Type(tp) => tp.bounds.iter().map(|b| match b { TypeParamBound::Trait(tb) => { let mut x = tb.maybe.to_token_stream(); tb.lifetimes.to_tokens(&mut x); x }, o => o.to_token_stream() }).collect(),
        _ => Vec::new(),
    }).collect())
}

/// The trait's path and `for` (none for an inherent `impl`), and the type,
/// of the `impl` that `syn::parse2::<syn::Item>` reads. Claimed: as named by
/// `syn_item_read`.
#[verifier::external_body]
fn impl_target(s: &proc_macro2::TokenStream) -> (r: Option<(proc_macro2::TokenStream, proc_macro2::TokenStream)>)
    ensures
        impl_part_fits(syn_item_read(stream_toks(*s)), r, |t: (proc_macro2::TokenStream, proc_macro2::TokenStream), l: ImplLayout| stream_toks(t.0) == l.trait_for && stream_toks(t.1) == l.self_ty),
{
    let SynItem::Impl(i) = syn::parse2::<SynItem>(s.clone()).ok()? else { return None };
    let trait_for = match &i.trait_ { Some((p, f)) => { let mut t = p.to_token_stream(); f.to_tokens(&mut t); t }, None => proc_macro2::TokenStream::new() };
    Some((trait_for, i.self_ty.to_token_stream()))
}

// ---------------------------------------------------------------------------
// Reading the parts.

/// The prefixes at `i`, none past the end.
pub open spec fn prefixes_at(prefs: Seq<Vec<proc_macro2::TokenStream>>, i: int) -> Seq<Seq<Tok>> {
    if 0 <= i < prefs.len() {
        streams_view(prefs[i]@)
    } else {
        Seq::empty()
    }
}

/// The layouts of predicates or parameters from their heads and prefixes as
/// handed back.
pub open spec fn parts_layout(heads: Seq<(bool, proc_macro2::TokenStream)>, prefs: Seq<Vec<proc_macro2::TokenStream>>) -> Seq<PredLayout> {
    Seq::new(
        heads.len(),
        |i: int|
            if heads[i].0 {
                PredLayout::Type(stream_toks(heads[i].1), prefixes_at(prefs, i))
            } else {
                PredLayout::Other(stream_toks(heads[i].1))
            },
    )
}

/// Heads and prefixes that fit layouts give those layouts back.
proof fn lemma_parts_layout(
    heads: Seq<(bool, proc_macro2::TokenStream)>,
    prefs: Seq<Vec<proc_macro2::TokenStream>>,
    pls: Seq<PredLayout>,
)
    requires
        heads_fit(heads, pls),
        prefixes_fit(prefs, pls),
    ensures
        parts_layout(heads, prefs) == pls,
{
    assert forall|i: int| 0 <= i < pls.len() implies parts_layout(heads, prefs)[i] == pls[i] by {
        assert(head_fits(heads[i], pls[i]));
        if pls[i] is Type {
            assert(streams_view(prefs[i]@) == pls[i]->Type_1);
        }
    }
    assert(parts_layout(heads, prefs) =~= pls);
}

/// Streams read into token trees.
fn read_streams(v: &Vec<proc_macro2::TokenStream>) -> (r: Vec<Vec<TokenTree>>)
    ensures
        prefixes_view(r@) == streams_view(v@),
{
    let mut out: Vec<Vec<TokenTree>> = Vec::new();
    let mut i: usize = 0;
    while i < v.len()
        invariant
            i <= v.len(),
            prefixes_view(out@) == streams_view(v@.take(i as int)),
        decreases v.len() - i,
    {
        let t = read_stream(&v[i]);
        proof {
            assert(prefixes_view(out@.push(t)) =~= prefixes_view(out@).push(toks_view(t@)));
            assert(streams_view(v@.take(i + 1)) =~= streams_view(v@.take(i as int)).push(stream_toks(v@[i as int])));
        }
        out.push(t);
        i = i + 1;
    }
    assert(v@.take(v@.len() as int) =~= v@);
    out
}

/// Predicates or parameters read from their heads and prefixes as handed
/// back.
fn read_preds(heads: &Vec<(bool, proc_macro2::TokenStream)>, prefs: &Vec<Vec<proc_macro2::TokenStream>>) -> (r: Vec<PredPart>)
    ensures
        pred_parts_view(r@) == parts_layout(heads@, prefs@),
{
    let ghost want = parts_layout(heads@, prefs@);
    let mut out: Vec<PredPart> = Vec::new();
    let mut i: usize = 0;
    while i < heads.len()
        invariant
            i <= heads.len(),
            want == parts_layout(heads@, prefs@),
            pred_parts_view(out@) == want.take(i as int),
        decreases heads.len() - i,
    {
        let h = &heads[i];
        let head = read_stream(&h.1);
        let p = if h.0 {
            let ps = if i < prefs.len() {
                read_streams(&prefs[i])
            } else {
                Vec::new()
            };
            proof {
                if i >= prefs.len() {
                    assert(prefixes_view(ps@) =~= Seq::<Seq<Tok>>::empty());
                }
            }
            PredPart::Type(head, ps)
        } else {
            PredPart::Other(head)
        };
        proof {
            assert(p@ == want[i as int]);
            assert(pred_parts_view(out@.push(p)) =~= pred_parts_view(out@).push(p@));
            assert(want.take(i + 1) =~= want.take(i as int).push(want[i as int]));
        }
        out.push(p);
        i = i + 1;
    }
    assert(want.take(heads@.len() as int) =~= want);
    out
}

/// The layout of a `where` clause from its heads and prefixes as handed back.
pub open spec fn where_layout(
    wh: Option<Vec<(bool, proc_macro2::TokenStream)>>,
    wp: Seq<Vec<proc_macro2::TokenStream>>,
) -> Option<Seq<PredLayout>> {
    match wh {
        Some(hs) => Some(parts_layout(hs@, wp)),
        None => None,
    }
}

/// Heads and prefixes that fit a `where` clause's layout give it back.
proof fn lemma_where_layout(
    wh: Option<Vec<(bool, proc_macro2::TokenStream)>>,
    wp: Seq<Vec<proc_macro2::TokenStream>>,
    w: Option<Seq<PredLayout>>,
)
    requires
        where_heads_fit(wh, w),
        prefixes_fit(wp, where_preds(w)),
    ensures
        where_layout(wh, wp) == w,
{
    if let Some(hs) = wh {
        lemma_parts_layout(hs@, wp, where_preds(w));
    }
}

/// A `where` clause read from its heads and the prefixes of its bounds.
fn read_where(wh: &Option<Vec<(bool, proc_macro2::TokenStream)>>, wp: &Vec<Vec<proc_macro2::TokenStream>>) -> (r: Option<
    Vec<PredPart>,
>)
    ensures
        crate::macros::print::where_view(r) == where_layout(*wh, wp@),
{
    match wh {
        Some(hs) => Some(read_preds(hs, wp)),
        None => None,
    }
}

/// The parts of the trait that `syn` reads in `s`, where it reads one.
pub fn read_trait_parts(s: &proc_macro2::TokenStream) -> (r: Option<TraitParts>)
    ensures
        is_trait(syn_item_read(stream_toks(*s))) ==> (r matches Some(p) && trait_layout(
            syn_item_read(stream_toks(*s)),
        ) == Some(p@)),
{
    let ghost x = syn_item_read(stream_toks(*s));
    let attrs = layout_attrs(s);
    let mods = layout_mods(s);
    let name = trait_name(s);
    let prefixes = trait_prefixes(s);
    let wh = where_heads(s);
    let wp = where_prefixes(s);
    let items = layout_items(s);
    match (attrs, mods, name, prefixes, wh, wp, items) {
        (Some(attrs), Some(mods), Some(name), Some(prefixes), Some(wh), Some(wp), Some(items)) => {
            let where_clause = read_where(&wh, &wp);
            let p = TraitParts {
                attrs: read_stream(&attrs),
                mods: read_stream(&mods),
                ident: read_stream(&name.0),
                generics: read_stream(&name.1),
                prefixes: read_streams(&prefixes),
                where_clause,
                items: read_stream(&items),
            };
            proof {
                if is_trait(x) {
                    let l = trait_layout(x)->0;
                    lemma_where_layout(wh, wp@, l.where_clause);
                    assert(p@ == l);
                }
            }
            Some(p)
        },
        _ => None,
    }
}

/// The parts of the `impl` that `syn` reads in `s`, where it reads one.
pub fn read_impl_parts(s: &proc_macro2::TokenStream) -> (r: Option<ImplParts>)
    ensures
        is_impl(syn_item_read(stream_toks(*s))) ==> (r matches Some(p) && impl_layout(
            syn_item_read(stream_toks(*s)),
        ) == Some(p@)),
{
    let ghost x = syn_item_read(stream_toks(*s));
    let attrs = layout_attrs(s);
    let mods = layout_mods(s);
    let ph = param_heads(s);
    let pp = param_prefixes(s);
    let target = impl_target(s);
    let wh = where_heads(s);
    let wp = where_prefixes(s);
    let items = layout_items(s);
    match (attrs, mods, ph, pp, target, wh, wp, items) {
        (Some(attrs), Some(mods), Some(ph), Some(pp), Some(target), Some(wh), Some(wp), Some(items)) => {
            let where_clause = read_where(&wh, &wp);
            let p = ImplParts {
                attrs: read_stream(&attrs),
                mods: read_stream(&mods),
                params: read_preds(&ph, &pp),
                trait_for: read_stream(&target.0),
                self_ty: read_stream(&target.1),
                where_clause,
                items: read_stream(&items),
            };
            proof {
                if is_impl(x) {
                    let l = impl_layout(x)->0;
                    lemma_where_layout(wh, wp@, l.where_clause);
                    lemma_parts_layout(ph@, pp@, l.params);
                    assert(p@ == l);
                }
            }
            Some(p)
        },
        _ => None,
    }
}

/// The tokens that `#[const_]` or `#[dyn_]` writes for the trait or `impl`
/// that `syn` reads in `item`, from what it made of the header (`out`);
/// `None` for another item.
pub fn print_const(item: &proc_macro2::TokenStream, out: &ConstOutput) -> (r: Option<Vec<TokenTree>>)
    ensures
        match out {
            ConstOutput::Trait(h, p) => is_trait(syn_item_read(stream_toks(*item))) ==> (trait_layout(
                syn_item_read(stream_toks(*item)),
            ) matches Some(l) && r matches Some(t) && toks_view(t@) == trait_tokens(l, h@, *p)),
            ConstOutput::Impl(h, p) => is_impl(syn_item_read(stream_toks(*item))) ==> (impl_layout(
                syn_item_read(stream_toks(*item)),
            ) matches Some(l) && r matches Some(t) && toks_view(t@) == impl_tokens(l, h@, *p)),
            ConstOutput::Item(_) => r is None,
        },
{
    match out {
        ConstOutput::Trait(h, p) => match read_trait_parts(item) {
            Some(parts) => Some(print_trait_tokens(&parts, h, p)),
            None => None,
        },
        ConstOutput::Impl(h, p) => match read_impl_parts(item) {
            Some(parts) => Some(print_impl_with_const(&parts, h, p)),
            None => None,
        },
        ConstOutput::Item(_) => None,
    }
}

} // verus!
