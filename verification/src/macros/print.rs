//! The tokens that `#[const_]` and `#[dyn_]` write for a trait or an `impl`:
//! its parts as written, `const` where it is made `const`, and each trait
//! bound with its modifier and its path without the marking segment.
use vstd::prelude::*;

use crate::macros::con_::{
    bound_mark, const_gives_each_bound_its_mark, header_result, strip_bound, kind_at, Bound, BoundView, ConstKind, HeaderView, PathView, Predicate, PredView, PrintedTrait,
    SegView, TraitBound, TraitHeader,
};
use crate::macros::tokens::{
    extend_tokens, lemma_toks_view, lemma_toks_view_push, tok_view, toks_view, Delimiter, Spacing, Tok,
    TokenTree,
};
use vstd::string::StringExecFns;

verus! {

// ---------------------------------------------------------------------------
// Writing tokens.

/// Appends one token.
fn push_tok(out: &mut Vec<TokenTree>, t: TokenTree)
    ensures
        toks_view(final(out)@) == toks_view(old(out)@).push(tok_view(t)),
{
    proof {
        lemma_toks_view_push(out@, t);
    }
    out.push(t);
}

/// Appends an identifier.
fn push_word(out: &mut Vec<TokenTree>, w: &str)
    ensures
        toks_view(final(out)@) == toks_view(old(out)@).push(Tok::Ident(w@)),
{
    push_tok(out, TokenTree::Ident(String::from_str(w)));
}

/// Appends a punctuation character that stands alone.
fn push_punct(out: &mut Vec<TokenTree>, c: char)
    ensures
        toks_view(final(out)@) == toks_view(old(out)@).push(punct(c)),
{
    push_tok(out, TokenTree::Punct(c, Spacing::Alone));
}

/// A punctuation character that stands alone.
pub open spec fn punct(c: char) -> Tok {
    Tok::Punct(c, Spacing::Alone)
}

/// Pieces of tokens joined by a separator.
pub open spec fn join(pieces: Seq<Seq<Tok>>, sep: Tok) -> Seq<Tok>
    decreases pieces.len(),
{
    if pieces.len() == 0 {
        Seq::empty()
    } else if pieces.len() == 1 {
        pieces[0]
    } else {
        join(pieces.drop_last(), sep).push(sep) + pieces.last()
    }
}

/// Joining one more piece.
proof fn lemma_join_step(pieces: Seq<Seq<Tok>>, sep: Tok, i: int)
    requires
        0 <= i < pieces.len(),
    ensures
        join(pieces.take(i + 1), sep) == if i == 0 {
            pieces[0]
        } else {
            join(pieces.take(i), sep).push(sep) + pieces[i]
        },
{
    let t = pieces.take(i + 1);
    assert(t.drop_last() =~= pieces.take(i));
    assert(t.last() == pieces[i]);
    if i == 0 {
        assert(t.len() == 1);
    }
}

// ---------------------------------------------------------------------------
// Bounds.

/// The modifier written before a trait bound.
pub open spec fn modifier_toks(k: ConstKind) -> Seq<Tok> {
    match k {
        ConstKind::MaybeConst => seq![Tok::Group(Delimiter::Bracket, seq![Tok::Ident("const"@)])],
        ConstKind::Const => seq![Tok::Ident("const"@)],
        ConstKind::Plain => Seq::empty(),
    }
}

/// `::`.
pub open spec fn colons() -> Seq<Tok> {
    seq![Tok::Punct(':', Spacing::Joint), Tok::Punct(':', Spacing::Alone)]
}

/// A path segment: its identifier, then its arguments.
pub open spec fn seg_toks(s: SegView) -> Seq<Tok> {
    seq![Tok::Ident(s.0)] + s.1
}

/// The segments of a path, joined by `::`.
pub open spec fn segs_toks(segs: Seq<SegView>) -> Seq<Tok>
    decreases segs.len(),
{
    if segs.len() == 0 {
        Seq::empty()
    } else if segs.len() == 1 {
        seg_toks(segs[0])
    } else {
        segs_toks(segs.drop_last()) + colons() + seg_toks(segs.last())
    }
}

/// A path: `::` where it starts with one, then its segments.
pub open spec fn path_toks(p: PathView) -> Seq<Tok> {
    (if p.0 {
        colons()
    } else {
        Seq::empty()
    }) + segs_toks(p.1)
}

/// A bound: a trait bound as its modifier, its prefix (`?`, `for<...>`) and
/// its path; another bound as it is written (its prefix).
pub open spec fn bound_toks(prefix: Seq<Tok>, b: BoundView, k: ConstKind) -> Seq<Tok> {
    match b {
        BoundView::Trait(p) => modifier_toks(k) + prefix + path_toks(p),
        BoundView::Other => prefix,
    }
}

/// The bound at `i`, or another bound past the end.
pub open spec fn bound_at(bs: Seq<BoundView>, i: int) -> BoundView {
    if 0 <= i < bs.len() {
        bs[i]
    } else {
        BoundView::Other
    }
}

/// Bounds, each with its prefix and kind, joined by `+`.
pub open spec fn bounds_toks(prefixes: Seq<Seq<Tok>>, bs: Seq<BoundView>, ks: Seq<ConstKind>) -> Seq<Tok> {
    join(
        Seq::new(prefixes.len(), |i: int| bound_toks(prefixes[i], bound_at(bs, i), kind_at(ks, i))),
        punct('+'),
    )
}

/// Appends `::`.
fn push_colons(out: &mut Vec<TokenTree>)
    ensures
        toks_view(final(out)@) == toks_view(old(out)@) + colons(),
{
    let ghost o = toks_view(out@);
    push_tok(out, TokenTree::Punct(':', Spacing::Joint));
    push_tok(out, TokenTree::Punct(':', Spacing::Alone));
    assert(toks_view(out@) =~= o + colons());
}

/// Appends a trait bound's path.
fn write_path(out: &mut Vec<TokenTree>, b: &TraitBound)
    ensures
        toks_view(final(out)@) == toks_view(old(out)@) + path_toks(b@),
{
    let ghost o = toks_view(out@);
    let ghost segs = b@.1;
    if b.leading_colon {
        push_colons(out);
    }
    let ghost start = toks_view(out@);
    assert(start == o + (if b@.0 { colons() } else { Seq::<Tok>::empty() }));
    let mut i: usize = 0;
    while i < b.segments.len()
        invariant
            i <= b.segments.len(),
            segs == b@.1,
            segs.len() == b.segments.len(),
            forall|j: int| 0 <= j < segs.len() ==> #[trigger] segs[j] == b.segments@[j]@,
            toks_view(out@) == start + segs_toks(segs.take(i as int)),
        decreases b.segments.len() - i,
    {
        let ghost before = toks_view(out@);
        if i > 0 {
            push_colons(out);
        }
        let seg = &b.segments[i];
        push_tok(out, TokenTree::Ident(seg.ident.clone()));
        extend_tokens(out, &seg.arguments);
        proof {
            let t = segs.take(i + 1);
            assert(t.drop_last() =~= segs.take(i as int));
            assert(t.last() == segs[i as int]);
            assert(segs[i as int] == seg@);
            if i == 0 {
                assert(segs.take(0) =~= Seq::<SegView>::empty());
                assert(toks_view(out@) =~= start + seg_toks(seg@));
                assert(segs_toks(t) == seg_toks(segs[0]));
            } else {
                assert(toks_view(out@) =~= before + colons() + seg_toks(seg@));
            }
        }
        i = i + 1;
    }
    assert(segs.take(segs.len() as int) =~= segs);
    assert(toks_view(out@) =~= o + path_toks(b@));
}

/// Appends a bound's modifier.
fn write_modifier(out: &mut Vec<TokenTree>, k: ConstKind)
    ensures
        toks_view(final(out)@) == toks_view(old(out)@) + modifier_toks(k),
{
    let ghost o = toks_view(out@);
    match k {
        ConstKind::MaybeConst => {
            let mut inner: Vec<TokenTree> = Vec::new();
            push_word(&mut inner, "const");
            proof {
                assert(toks_view(Seq::<TokenTree>::empty()) =~= Seq::<Tok>::empty());
            }
            let ghost iv = toks_view(inner@);
            push_tok(out, TokenTree::Group(Delimiter::Bracket, inner));
            assert(iv =~= seq![Tok::Ident("const"@)]);
        },
        ConstKind::Const => {
            push_word(out, "const");
        },
        ConstKind::Plain => {},
    }
    assert(toks_view(out@) =~= o + modifier_toks(k));
}

/// Appends a bound: its modifier, prefix and path, or its prefix alone.
fn write_bound(out: &mut Vec<TokenTree>, prefix: &Vec<TokenTree>, b: &Bound, k: ConstKind)
    ensures
        toks_view(final(out)@) == toks_view(old(out)@) + bound_toks(toks_view(prefix@), b@, k),
{
    let ghost o = toks_view(out@);
    match b {
        Bound::Trait(tb) => {
            write_modifier(out, k);
            extend_tokens(out, prefix);
            write_path(out, tb);
        },
        Bound::Other => {
            extend_tokens(out, prefix);
        },
    }
    assert(toks_view(out@) =~= o + bound_toks(toks_view(prefix@), b@, k));
}

/// The views of prefixes.
pub open spec fn prefixes_view(ps: Seq<Vec<TokenTree>>) -> Seq<Seq<Tok>> {
    ps.map_values(|p: Vec<TokenTree>| toks_view(p@))
}

/// Appends bounds, each with its prefix and kind, joined by `+`.
fn write_bounds(out: &mut Vec<TokenTree>, prefixes: &Vec<Vec<TokenTree>>, bs: &Vec<Bound>, ks: &Vec<ConstKind>)
    ensures
        toks_view(final(out)@) == toks_view(old(out)@) + bounds_toks(
            prefixes_view(prefixes@),
            bs@.map_values(|b: Bound| b@),
            ks@,
        ),
{
    let ghost o = toks_view(out@);
    let ghost pv = prefixes_view(prefixes@);
    let ghost bv = bs@.map_values(|b: Bound| b@);
    let ghost pieces = Seq::new(pv.len(), |i: int| bound_toks(pv[i], bound_at(bv, i), kind_at(ks@, i)));
    let other = Bound::Other;
    let mut i: usize = 0;
    while i < prefixes.len()
        invariant
            i <= prefixes.len(),
            pv == prefixes_view(prefixes@),
            bv == bs@.map_values(|b: Bound| b@),
            pieces == Seq::new(pv.len(), |i: int| bound_toks(pv[i], bound_at(bv, i), kind_at(ks@, i))),
            other@ == BoundView::Other,
            toks_view(out@) == o + join(pieces.take(i as int), punct('+')),
        decreases prefixes.len() - i,
    {
        let ghost before = toks_view(out@);
        if i > 0 {
            push_punct(out, '+');
        }
        let b = if i < bs.len() {
            &bs[i]
        } else {
            &other
        };
        let k = if i < ks.len() {
            ks[i]
        } else {
            ConstKind::Plain
        };
        write_bound(out, &prefixes[i], b, k);
        proof {
            lemma_join_step(pieces, punct('+'), i as int);
            assert(b@ == bound_at(bv, i as int));
            assert(k == kind_at(ks@, i as int));
            assert(toks_view(prefixes@[i as int]@) == pv[i as int]);
            if i == 0 {
                assert(pieces.take(0) =~= Seq::<Seq<Tok>>::empty());
                assert(toks_view(out@) =~= o + pieces[0]);
            } else {
                assert(toks_view(out@) =~= before.push(punct('+')) + pieces[i as int]);
            }
        }
        i = i + 1;
    }
    assert(pieces.take(pieces.len() as int) =~= pieces);
}


// ---------------------------------------------------------------------------
// Predicates and generic parameters.

/// A `where` predicate or a generic parameter as written: a type one by its
/// head (`for<...>` and the type, or the parameter's attributes and name)
/// and the prefix of each of its bounds; another one by its tokens.
pub enum PredPart {
    Type(Vec<TokenTree>, Vec<Vec<TokenTree>>),
    Other(Vec<TokenTree>),
}

/// The mathematical view of a predicate or parameter as written.
pub ghost enum PredLayout {
    Type(Seq<Tok>, Seq<Seq<Tok>>),
    Other(Seq<Tok>),
}

impl View for PredPart {
    type V = PredLayout;

    open spec fn view(&self) -> PredLayout {
        match *self {
            PredPart::Type(h, ps) => PredLayout::Type(toks_view(h@), prefixes_view(ps@)),
            PredPart::Other(t) => PredLayout::Other(toks_view(t@)),
        }
    }
}

/// The views of predicates or parameters as written.
pub open spec fn pred_parts_view(ps: Seq<PredPart>) -> Seq<PredLayout> {
    ps.map_values(|p: PredPart| p@)
}

/// The bounds of the predicate at `i`: those of a type predicate, none for
/// another or past the end.
pub open spec fn pred_bounds_at(pvs: Seq<PredView>, i: int) -> Seq<BoundView> {
    if 0 <= i < pvs.len() {
        match pvs[i] {
            PredView::Type(bs) => bs,
            PredView::Other => Seq::empty(),
        }
    } else {
        Seq::empty()
    }
}

/// The kinds at `i`, none past the end.
pub open spec fn kinds_at(kss: Seq<Seq<ConstKind>>, i: int) -> Seq<ConstKind> {
    if 0 <= i < kss.len() {
        kss[i]
    } else {
        Seq::empty()
    }
}

/// A predicate (`param` false) or parameter (`param` true): a type one as
/// its head, `:` and its bounds (a parameter without bounds without `:`);
/// another as written.
pub open spec fn pred_toks(pl: PredLayout, bs: Seq<BoundView>, ks: Seq<ConstKind>, param: bool) -> Seq<Tok> {
    match pl {
        PredLayout::Type(head, prefs) => head + if !param || prefs.len() > 0 {
            seq![punct(':')] + bounds_toks(prefs, bs, ks)
        } else {
            Seq::empty()
        },
        PredLayout::Other(t) => t,
    }
}

/// Predicates or parameters joined by `,`; the one at `i` takes the bounds
/// and kinds at `offset + i`.
pub open spec fn preds_toks(
    pls: Seq<PredLayout>,
    pvs: Seq<PredView>,
    kss: Seq<Seq<ConstKind>>,
    offset: int,
    param: bool,
) -> Seq<Tok> {
    join(
        Seq::new(
            pls.len(),
            |i: int| pred_toks(pls[i], pred_bounds_at(pvs, offset + i), kinds_at(kss, offset + i), param),
        ),
        punct(','),
    )
}

/// Appends a predicate or parameter.
fn write_pred(out: &mut Vec<TokenTree>, pp: &PredPart, bs: &Vec<Bound>, ks: &Vec<ConstKind>, param: bool)
    ensures
        toks_view(final(out)@) == toks_view(old(out)@) + pred_toks(
            pp@,
            bs@.map_values(|b: Bound| b@),
            ks@,
            param,
        ),
{
    let ghost o = toks_view(out@);
    match pp {
        PredPart::Type(head, prefs) => {
            extend_tokens(out, head);
            let ghost mid = toks_view(out@);
            if !param || prefs.len() > 0 {
                push_punct(out, ':');
                write_bounds(out, prefs, bs, ks);
                assert(toks_view(out@) =~= mid + (seq![punct(':')] + bounds_toks(
                    prefixes_view(prefs@),
                    bs@.map_values(|b: Bound| b@),
                    ks@,
                )));
            } else {
                assert(toks_view(out@) =~= mid + Seq::<Tok>::empty());
            }
        },
        PredPart::Other(t) => {
            extend_tokens(out, t);
        },
    }
    assert(toks_view(out@) =~= o + pred_toks(pp@, bs@.map_values(|b: Bound| b@), ks@, param));
}

/// The views of kinds per predicate.
pub open spec fn kinds_view(kss: Seq<Vec<ConstKind>>) -> Seq<Seq<ConstKind>> {
    kss.map_values(|v: Vec<ConstKind>| v@)
}

/// The bounds of the predicate at `offset + i`, or `empty`.
fn pred_bounds_ref<'a>(hp: &'a Vec<Predicate>, offset: usize, i: usize, empty: &'a Vec<Bound>) -> (r: &'a Vec<Bound>)
    requires
        empty@.len() == 0,
    ensures
        r@.map_values(|b: Bound| b@) == pred_bounds_at(hp@.map_values(|p: Predicate| p@), offset + i),
{
    let ghost pvs = hp@.map_values(|p: Predicate| p@);
    let len = hp.len();
    assert(pvs.len() == len);
    match offset.checked_add(i) {
        Some(j) => if j < hp.len() {
            assert(pvs[j as int] == hp@[j as int]@);
            match &hp[j] {
                Predicate::Type(bs) => {
                    assert(bs@.map_values(|b: Bound| b@) =~= crate::macros::con_::bounds_view(bs@));
                    bs
                },
                Predicate::Other => {
                    assert(empty@.map_values(|b: Bound| b@) =~= Seq::<BoundView>::empty());
                    empty
                },
            }
        } else {
            assert(empty@.map_values(|b: Bound| b@) =~= Seq::<BoundView>::empty());
            empty
        },
        None => {
            assert(empty@.map_values(|b: Bound| b@) =~= Seq::<BoundView>::empty());
            empty
        },
    }
}

/// The kinds at `offset + i`, or `empty`.
fn kinds_ref<'a>(kss: &'a Vec<Vec<ConstKind>>, offset: usize, i: usize, empty: &'a Vec<ConstKind>) -> (r: &'a Vec<ConstKind>)
    requires
        empty@.len() == 0,
    ensures
        r@ == kinds_at(kinds_view(kss@), offset + i),
{
    let ghost kv = kinds_view(kss@);
    let len = kss.len();
    assert(kv.len() == len);
    match offset.checked_add(i) {
        Some(j) => if j < kss.len() {
            assert(j == offset + i);
            assert(kv[j as int] == kss@[j as int]@);
            assert(kinds_at(kv, offset + i) == kss@[j as int]@);
            &kss[j]
        } else {
            assert(empty@ =~= Seq::<ConstKind>::empty());
            assert(kinds_at(kv, offset + i) == Seq::<ConstKind>::empty());
            empty
        },
        None => {
            assert(empty@ =~= Seq::<ConstKind>::empty());
            assert(offset + i > usize::MAX);
            assert(kinds_at(kv, offset + i) == Seq::<ConstKind>::empty());
            empty
        },
    }
}

/// Appends predicates or parameters joined by `,`; the one at `i` takes the
/// bounds and kinds at `offset + i`.
fn write_preds(
    out: &mut Vec<TokenTree>,
    pps: &Vec<PredPart>,
    hp: &Vec<Predicate>,
    kss: &Vec<Vec<ConstKind>>,
    offset: usize,
    param: bool,
)
    ensures
        toks_view(final(out)@) == toks_view(old(out)@) + preds_toks(
            pred_parts_view(pps@),
            hp@.map_values(|p: Predicate| p@),
            kinds_view(kss@),
            offset as int,
            param,
        ),
{
    let ghost o = toks_view(out@);
    let ghost pls = pred_parts_view(pps@);
    let ghost pvs = hp@.map_values(|p: Predicate| p@);
    let ghost kv = kinds_view(kss@);
    let ghost pieces = Seq::new(
        pls.len(),
        |i: int| pred_toks(pls[i], pred_bounds_at(pvs, offset + i), kinds_at(kv, offset + i), param),
    );
    let no_bounds: Vec<Bound> = Vec::new();
    let no_kinds: Vec<ConstKind> = Vec::new();
    let mut i: usize = 0;
    while i < pps.len()
        invariant
            i <= pps.len(),
            pls == pred_parts_view(pps@),
            pvs == hp@.map_values(|p: Predicate| p@),
            kv == kinds_view(kss@),
            pieces == Seq::new(
                pls.len(),
                |i: int| pred_toks(pls[i], pred_bounds_at(pvs, offset + i), kinds_at(kv, offset + i), param),
            ),
            no_bounds@.len() == 0,
            no_kinds@.len() == 0,
            toks_view(out@) == o + join(pieces.take(i as int), punct(',')),
        decreases pps.len() - i,
    {
        let ghost before = toks_view(out@);
        if i > 0 {
            push_punct(out, ',');
        }
        let bs = pred_bounds_ref(hp, offset, i, &no_bounds);
        let ks = kinds_ref(kss, offset, i, &no_kinds);
        write_pred(out, &pps[i], bs, ks, param);
        proof {
            lemma_join_step(pieces, punct(','), i as int);
            assert(pps@[i as int]@ == pls[i as int]);
            if i == 0 {
                assert(pieces.take(0) =~= Seq::<Seq<Tok>>::empty());
                assert(toks_view(out@) =~= o + pieces[0]);
            } else {
                assert(toks_view(out@) =~= before.push(punct(',')) + pieces[i as int]);
            }
        }
        i = i + 1;
    }
    assert(pieces.take(pieces.len() as int) =~= pieces);
}


// ---------------------------------------------------------------------------
// Traits and `impl`s.

/// `where` and the predicates, where there is a `where` clause.
pub open spec fn where_toks(w: Option<Seq<PredLayout>>, pvs: Seq<PredView>, kss: Seq<Seq<ConstKind>>, offset: int) -> Seq<Tok> {
    match w {
        Some(pls) => seq![Tok::Ident("where"@)] + preds_toks(pls, pvs, kss, offset, false),
        None => Seq::empty(),
    }
}

/// The generic parameters in `<` and `>`, where there are some.
pub open spec fn generics_toks(params: Seq<PredLayout>, pvs: Seq<PredView>, kss: Seq<Seq<ConstKind>>) -> Seq<Tok> {
    if params.len() == 0 {
        Seq::empty()
    } else {
        seq![punct('<')] + preds_toks(params, pvs, kss, 0, true) + seq![punct('>')]
    }
}

/// Tokens in `<` and `>`, where there are some.
pub open spec fn angled(t: Seq<Tok>) -> Seq<Tok> {
    if t.len() == 0 {
        Seq::empty()
    } else {
        seq![punct('<')] + t + seq![punct('>')]
    }
}

/// `const`, where it is written.
pub open spec fn const_toks(c: bool) -> Seq<Tok> {
    if c {
        seq![Tok::Ident("const"@)]
    } else {
        Seq::empty()
    }
}

/// The parts of a trait as written: its attributes; its visibility,
/// `unsafe` and `auto`; its name; its generic parameters as written; the
/// prefix of each supertrait bound; its `where` predicates; the tokens of
/// its items.
pub struct TraitParts {
    pub attrs: Vec<TokenTree>,
    pub mods: Vec<TokenTree>,
    pub ident: Vec<TokenTree>,
    pub generics: Vec<TokenTree>,
    pub prefixes: Vec<Vec<TokenTree>>,
    pub where_clause: Option<Vec<PredPart>>,
    pub items: Vec<TokenTree>,
}

/// The mathematical view of a trait's parts.
pub ghost struct TraitLayout {
    pub attrs: Seq<Tok>,
    pub mods: Seq<Tok>,
    pub ident: Seq<Tok>,
    pub generics: Seq<Tok>,
    pub prefixes: Seq<Seq<Tok>>,
    pub where_clause: Option<Seq<PredLayout>>,
    pub items: Seq<Tok>,
}

/// The view of an optional `where` clause.
pub open spec fn where_view(w: Option<Vec<PredPart>>) -> Option<Seq<PredLayout>> {
    match w {
        Some(ps) => Some(pred_parts_view(ps@)),
        None => None,
    }
}

impl View for TraitParts {
    type V = TraitLayout;

    open spec fn view(&self) -> TraitLayout {
        TraitLayout {
            attrs: toks_view(self.attrs@),
            mods: toks_view(self.mods@),
            ident: toks_view(self.ident@),
            generics: toks_view(self.generics@),
            prefixes: prefixes_view(self.prefixes@),
            where_clause: where_view(self.where_clause),
            items: toks_view(self.items@),
        }
    }
}

/// The parts of an `impl` as written: its attributes; `unsafe`; its generic
/// parameters; the trait's path and `for`; the type; its `where`
/// predicates; the tokens of its items.
pub struct ImplParts {
    pub attrs: Vec<TokenTree>,
    pub mods: Vec<TokenTree>,
    pub params: Vec<PredPart>,
    pub trait_for: Vec<TokenTree>,
    pub self_ty: Vec<TokenTree>,
    pub where_clause: Option<Vec<PredPart>>,
    pub items: Vec<TokenTree>,
}

/// The mathematical view of an `impl`'s parts.
pub ghost struct ImplLayout {
    pub attrs: Seq<Tok>,
    pub mods: Seq<Tok>,
    pub params: Seq<PredLayout>,
    pub trait_for: Seq<Tok>,
    pub self_ty: Seq<Tok>,
    pub where_clause: Option<Seq<PredLayout>>,
    pub items: Seq<Tok>,
}

impl View for ImplParts {
    type V = ImplLayout;

    open spec fn view(&self) -> ImplLayout {
        ImplLayout {
            attrs: toks_view(self.attrs@),
            mods: toks_view(self.mods@),
            params: pred_parts_view(self.params@),
            trait_for: toks_view(self.trait_for@),
            self_ty: toks_view(self.self_ty@),
            where_clause: where_view(self.where_clause),
            items: toks_view(self.items@),
        }
    }
}

/// The tokens of a trait whose header has the view `h`, printed with `p`:
/// attributes, visibility, `unsafe` and `auto` as written; `const` where the
/// trait is made `const`; `trait`, its name and generic parameters in `<`
/// and `>`, where it has some; `:` and
/// the supertrait bounds joined by `+`, each with its modifier and its
/// path, where there are some; `where` and the predicates joined by `,`,
/// each type predicate's bounds so written, where there is a `where`
/// clause; and its items in braces.
pub open spec fn trait_tokens(l: TraitLayout, h: HeaderView, p: PrintedTrait) -> Seq<Tok> {
    l.attrs + l.mods + const_toks(p.constness) + seq![Tok::Ident("trait"@)] + l.ident + angled(l.generics) + (if l.prefixes.len()
        > 0 {
        seq![punct(':')] + bounds_toks(l.prefixes, h.0, p.supertraits@)
    } else {
        Seq::empty()
    }) + where_toks(l.where_clause, h.1, kinds_view(p.predicates@), 0) + seq![
        Tok::Group(Delimiter::Brace, l.items),
    ]
}

/// The tokens of an `impl` whose header has the view `h` (the bounds of its
/// generic parameters, then its `where` predicates), printed with `p`:
/// attributes as written; `const` where the `impl` is made `const`;
/// `unsafe` as written; `impl`; the generic parameters in `<` and `>`, each
/// type parameter with its bounds so written; the trait's path and `for`
/// and the type as written; `where` and the predicates; and its items in
/// braces.
pub open spec fn impl_tokens(l: ImplLayout, h: HeaderView, p: PrintedTrait) -> Seq<Tok> {
    l.attrs + const_toks(p.constness) + l.mods + seq![Tok::Ident("impl"@)] + generics_toks(
        l.params,
        h.1,
        kinds_view(p.predicates@),
    ) + l.trait_for + l.self_ty + where_toks(l.where_clause, h.1, kinds_view(p.predicates@), l.params.len() as int)
        + seq![Tok::Group(Delimiter::Brace, l.items)]
}

/// Appends `const` where it is written.
fn write_const(out: &mut Vec<TokenTree>, c: bool)
    ensures
        toks_view(final(out)@) == toks_view(old(out)@) + const_toks(c),
{
    let ghost o = toks_view(out@);
    if c {
        push_word(out, "const");
    }
    assert(toks_view(out@) =~= o + const_toks(c));
}

/// Appends a `where` clause.
fn write_where(
    out: &mut Vec<TokenTree>,
    w: &Option<Vec<PredPart>>,
    hp: &Vec<Predicate>,
    kss: &Vec<Vec<ConstKind>>,
    offset: usize,
)
    ensures
        toks_view(final(out)@) == toks_view(old(out)@) + where_toks(
            where_view(*w),
            hp@.map_values(|p: Predicate| p@),
            kinds_view(kss@),
            offset as int,
        ),
{
    let ghost o = toks_view(out@);
    match w {
        Some(ps) => {
            push_word(out, "where");
            write_preds(out, ps, hp, kss, offset, false);
        },
        None => {},
    }
    assert(toks_view(out@) =~= o + where_toks(
        where_view(*w),
        hp@.map_values(|p: Predicate| p@),
        kinds_view(kss@),
        offset as int,
    ));
}

/// Appends items in braces.
fn write_body(out: &mut Vec<TokenTree>, items: &Vec<TokenTree>)
    ensures
        toks_view(final(out)@) == toks_view(old(out)@) + seq![Tok::Group(Delimiter::Brace, toks_view(items@))],
{
    let ghost o = toks_view(out@);
    push_tok(out, TokenTree::Group(Delimiter::Brace, crate::macros::tokens::duplicate_tokens(items)));
    assert(toks_view(out@) =~= o + seq![Tok::Group(Delimiter::Brace, toks_view(items@))]);
}

/// The tokens of a trait, rewritten by `#[const_]` or `#[dyn_]`.
pub fn print_trait_tokens(parts: &TraitParts, h: &TraitHeader, p: &PrintedTrait) -> (r: Vec<TokenTree>)
    ensures
        toks_view(r@) == trait_tokens(parts@, h@, *p),
{
    let mut out: Vec<TokenTree> = Vec::new();
    proof {
        assert(toks_view(Seq::<TokenTree>::empty()) =~= Seq::<Tok>::empty());
    }
    extend_tokens(&mut out, &parts.attrs);
    extend_tokens(&mut out, &parts.mods);
    write_const(&mut out, p.constness);
    push_word(&mut out, "trait");
    extend_tokens(&mut out, &parts.ident);
    let ghost g0 = toks_view(out@);
    if parts.generics.len() > 0 {
        push_punct(&mut out, '<');
        extend_tokens(&mut out, &parts.generics);
        push_punct(&mut out, '>');
    }
    proof {
        lemma_toks_view(parts.generics@);
        assert(toks_view(out@) =~= g0 + angled(parts@.generics));
    }
    let ghost before = toks_view(out@);
    if parts.prefixes.len() > 0 {
        push_punct(&mut out, ':');
        write_bounds(&mut out, &parts.prefixes, &h.supertraits, &p.supertraits);
    }
    proof {
        assert(h.supertraits@.map_values(|b: Bound| b@) =~= h@.0);
        assert(prefixes_view(parts.prefixes@).len() == parts.prefixes@.len());
        assert(toks_view(out@) =~= before + (if parts@.prefixes.len() > 0 {
            seq![punct(':')] + bounds_toks(parts@.prefixes, h@.0, p.supertraits@)
        } else {
            Seq::empty()
        }));
    }
    write_where(&mut out, &parts.where_clause, &h.predicates, &p.predicates, 0);
    write_body(&mut out, &parts.items);
    proof {
        assert(h.predicates@.map_values(|q: Predicate| q@) =~= h@.1);
        assert(toks_view(out@) =~= trait_tokens(parts@, h@, *p));
    }
    out
}

/// The tokens of an `impl`, rewritten by `#[const_]` or `#[dyn_]`.
pub fn print_impl_with_const(parts: &ImplParts, h: &TraitHeader, p: &PrintedTrait) -> (r: Vec<TokenTree>)
    ensures
        toks_view(r@) == impl_tokens(parts@, h@, *p),
{
    let mut out: Vec<TokenTree> = Vec::new();
    proof {
        assert(toks_view(Seq::<TokenTree>::empty()) =~= Seq::<Tok>::empty());
    }
    extend_tokens(&mut out, &parts.attrs);
    write_const(&mut out, p.constness);
    extend_tokens(&mut out, &parts.mods);
    push_word(&mut out, "impl");
    let ghost before = toks_view(out@);
    if parts.params.len() > 0 {
        push_punct(&mut out, '<');
        write_preds(&mut out, &parts.params, &h.predicates, &p.predicates, 0, true);
        push_punct(&mut out, '>');
    }
    proof {
        assert(h.predicates@.map_values(|q: Predicate| q@) =~= h@.1);
        assert(toks_view(out@) =~= before + generics_toks(parts@.params, h@.1, kinds_view(p.predicates@)));
    }
    extend_tokens(&mut out, &parts.trait_for);
    extend_tokens(&mut out, &parts.self_ty);
    write_where(&mut out, &parts.where_clause, &h.predicates, &p.predicates, parts.params.len());
    write_body(&mut out, &parts.items);
    proof {
        assert(toks_view(out@) =~= impl_tokens(parts@, h@, *p));
    }
    out
}

// ---------------------------------------------------------------------------
// What `#[const_]` and `#[dyn_]` write.

/// The supertrait bounds of a trait whose header has the view `h`, as
/// `#[const_]` (`make_const`) or `#[dyn_]` writes them: each with the
/// modifier it was marked with (none for `#[dyn_]`), its prefix, and its
/// path without the marking segment, joined by `+`.
pub open spec fn marked_supertraits(prefixes: Seq<Seq<Tok>>, h: HeaderView, make_const: bool) -> Seq<Tok> {
    join(
        Seq::new(
            prefixes.len(),
            |i: int|
                bound_toks(
                    prefixes[i],
                    strip_bound(h.0[i]),
                    if make_const {
                        bound_mark(h.0[i])
                    } else {
                        ConstKind::Plain
                    },
                ),
        ),
        punct('+'),
    )
}

/// What `#[const_]` (`make_const`) and `#[dyn_]` make of a trait whose parts
/// are `l` and whose header has the view `h` is written as: its attributes,
/// visibility, `unsafe` and `auto`; `const` for `#[const_]` and nothing for
/// `#[dyn_]`; `trait`, its name and generic parameters; its supertrait
/// bounds, each with the modifier it was marked with (`const` for
/// `reta_const::`, `[const]` for `reta_maybe_const::`; none for `#[dyn_]`)
/// and its path without the marking segment; its `where` clause; its items.
pub proof fn const_writes_trait(l: TraitLayout, h: HeaderView, h2: TraitHeader, p: PrintedTrait, make_const: bool)
    requires
        header_result(h, h2, p, make_const),
        l.prefixes.len() == h.0.len(),
    ensures
        trait_tokens(l, h2@, p) == l.attrs + l.mods + const_toks(make_const) + seq![Tok::Ident("trait"@)] + l.ident
            + angled(l.generics) + (if l.prefixes.len() > 0 {
            seq![punct(':')] + marked_supertraits(l.prefixes, h, make_const)
        } else {
            Seq::empty()
        }) + where_toks(l.where_clause, h2@.1, kinds_view(p.predicates@), 0) + seq![
            Tok::Group(Delimiter::Brace, l.items),
        ],
{
    let n = l.prefixes.len();
    let a = Seq::new(n, |i: int| bound_toks(l.prefixes[i], bound_at(h2@.0, i), kind_at(p.supertraits@, i)));
    let b = Seq::new(
        n,
        |i: int|
            bound_toks(
                l.prefixes[i],
                strip_bound(h.0[i]),
                if make_const {
                    bound_mark(h.0[i])
                } else {
                    ConstKind::Plain
                },
            ),
    );
    if make_const {
        const_gives_each_bound_its_mark(h, p);
    }
    assert forall|i: int| 0 <= i < n implies a[i] == b[i] by {
        assert(bound_at(h2@.0, i) == strip_bound(h.0[i]));
        assert(kind_at(p.supertraits@, i) == p.supertraits@[i]);
    }
    assert(a =~= b);
}

} // verus!
