//! `#[const_]` and `#[dyn_]`: make a function, a trait or an `impl` `const`,
//! or not.
//!
//! On a trait, the bounds written `reta_const::Trait` become `const Trait`
//! and those written `reta_maybe_const::Trait` become `[const] Trait`; after
//! the prefix, `crate_` stands for `crate` and `__` for a leading `::`.
use vstd::prelude::*;

use crate::macros::item::{ErrorKind, ItemKind, Location, MacroError, Signature};
use crate::macros::tokens::{text_is, toks_view, Tok, TokenTree};
use vstd::string::StringExecFns;
use crate::macros::stream::stream_toks;
use crate::macros::syntax::{read_target, target_spec};

verus! {

/// The const modifier a trait bound is printed with.
#[derive(Clone, Copy, Debug, PartialEq, Eq, Structural)]
pub enum ConstKind {
    /// `[const] Trait`
    MaybeConst,
    /// `const Trait`
    Const,
    /// `Trait`
    Plain,
}

/// A segment of a path: its identifier, and the tokens of its generic
/// arguments.
pub struct PathSegment {
    pub ident: String,
    pub arguments: Vec<TokenTree>,
}

/// A trait bound, by its path: whether it starts with `::`, and its segments.
pub struct TraitBound {
    pub leading_colon: bool,
    pub segments: Vec<PathSegment>,
}

/// A bound: a trait bound, or another bound (a lifetime, ...).
pub enum Bound {
    Trait(TraitBound),
    Other,
}

/// A `where` predicate: the bounds of a type, or another predicate.
pub enum Predicate {
    Type(Vec<Bound>),
    Other,
}

/// What `#[const_]` reads and rewrites of a trait or an `impl`: the bounds
/// of its header. For a trait, its supertraits and the predicates of its
/// `where` clause. For an `impl`, no supertraits, and as predicates the
/// bounds of each of its generic parameters, then the predicates of its
/// `where` clause.
pub struct TraitHeader {
    pub supertraits: Vec<Bound>,
    pub predicates: Vec<Predicate>,
}

/// The view of a segment: identifier and argument tokens.
pub type SegView = (Seq<char>, Seq<Tok>);

/// The view of a trait bound: leading `::`, and segments.
pub type PathView = (bool, Seq<SegView>);

/// The mathematical view of a bound.
pub ghost enum BoundView {
    Trait(PathView),
    Other,
}

/// The mathematical view of a predicate.
pub ghost enum PredView {
    Type(Seq<BoundView>),
    Other,
}

impl View for PathSegment {
    type V = SegView;

    open spec fn view(&self) -> SegView {
        (self.ident@, toks_view(self.arguments@))
    }
}

impl View for TraitBound {
    type V = PathView;

    open spec fn view(&self) -> PathView {
        (self.leading_colon, self.segments@.map_values(|s: PathSegment| s@))
    }
}

impl View for Bound {
    type V = BoundView;

    open spec fn view(&self) -> BoundView {
        match *self {
            Bound::Trait(b) => BoundView::Trait(b@),
            Bound::Other => BoundView::Other,
        }
    }
}

/// The view of a sequence of bounds.
pub open spec fn bounds_view(bs: Seq<Bound>) -> Seq<BoundView> {
    bs.map_values(|b: Bound| b@)
}

impl View for Predicate {
    type V = PredView;

    open spec fn view(&self) -> PredView {
        match *self {
            Predicate::Type(bs) => PredView::Type(bounds_view(bs@)),
            Predicate::Other => PredView::Other,
        }
    }
}

/// The view of a sequence of predicates.
pub open spec fn preds_view(ps: Seq<Predicate>) -> Seq<PredView> {
    ps.map_values(|p: Predicate| p@)
}

impl View for TraitHeader {
    type V = (Seq<BoundView>, Seq<PredView>);

    open spec fn view(&self) -> (Seq<BoundView>, Seq<PredView>) {
        (bounds_view(self.supertraits@), preds_view(self.predicates@))
    }
}

// ---------------------------------------------------------------------------
// Function signatures.

/// A signature with its `const` qualifier set or removed.
pub open spec fn with_const(s: Signature, make_const: bool) -> Signature {
    Signature { constness: make_const, asyncness: s.asyncness, safety: s.safety }
}

/// Sets or removes the `const` qualifier of a signature.
pub fn apply_constness_to_fn_sig(sig: &mut Signature, make_const: bool) -> (r: Result<(), MacroError>)
    ensures
        r is Ok,
        *final(sig) == with_const(*old(sig), make_const),
{
    sig.constness = make_const;
    Ok(())
}

/// An item other than a trait or an `impl`: a function, or another kind.
#[derive(Clone, Copy, Debug, PartialEq, Eq, Structural)]
pub enum ConstItem {
    Fn(Signature),
    Other(ItemKind),
}

/// The refusal on the whole item.
pub open spec fn const_refused() -> MacroError {
    MacroError { kind: ErrorKind::ConstOnOther, at: Location::Whole }
}

/// Applies the change to an item other than a trait or an `impl`: a
/// function is changed; another item is refused when making const, and left
/// as it is otherwise.
pub fn apply_to_item(item: &mut ConstItem, make_const: bool) -> (r: Result<(), MacroError>)
    ensures
        *old(item) matches ConstItem::Fn(s) ==> r is Ok && *final(item) == ConstItem::Fn(
            with_const(s, make_const),
        ),
        *old(item) is Other ==> *final(item) == *old(item) && if make_const {
            r == Err::<(), MacroError>(const_refused())
        } else {
            r is Ok
        },
{
    match item {
        ConstItem::Fn(sig) => apply_constness_to_fn_sig(sig, make_const),
        ConstItem::Other(_) => {
            if !make_const {
                Ok(())
            } else {
                Err(MacroError { kind: ErrorKind::ConstOnOther, at: Location::Whole })
            }
        },
    }
}

// ---------------------------------------------------------------------------
// Trait bounds.

/// The const kind that the first segment of a bound's path names.
pub open spec fn const_kind_spec(p: PathView) -> ConstKind {
    if p.1.len() == 0 {
        ConstKind::Plain
    } else if p.1[0].0 == "reta_maybe_const"@ {
        ConstKind::MaybeConst
    } else if p.1[0].0 == "reta_const"@ {
        ConstKind::Const
    } else {
        ConstKind::Plain
    }
}

/// A bound's path without its first segment, where it has more than one:
/// a following `crate_` segment is renamed `crate`, and a following `__`
/// segment is dropped and the path made to start with `::`.
pub open spec fn strip_prefix_spec(p: PathView) -> PathView {
    if p.1.len() < 2 {
        p
    } else {
        let rest = p.1.subrange(1, p.1.len() as int);
        if rest[0].0 == "crate_"@ {
            (p.0, rest.update(0, ("crate"@, rest[0].1)))
        } else if rest[0].0 == "__"@ {
            (true, rest.subrange(1, rest.len() as int))
        } else {
            (p.0, rest)
        }
    }
}

/// The const kind that a bound's path is marked with.
pub fn get_const_kind_from_bound(bound: &TraitBound) -> (r: ConstKind)
    ensures
        r == const_kind_spec(bound@),
{
    if bound.segments.len() > 0 {
        let first = &bound.segments[0];
        if text_is(&first.ident, "reta_maybe_const") {
            return ConstKind::MaybeConst;
        } else if text_is(&first.ident, "reta_const") {
            return ConstKind::Const;
        }
    }
    ConstKind::Plain
}

/// Removes the marking segment from a bound's path.
pub fn remove_const_prefix(bound: &mut TraitBound)
    ensures
        final(bound)@ == strip_prefix_spec(old(bound)@),
{
    if bound.segments.len() < 2 {
        return;
    }
    let ghost start = bound.segments@;
    let _marker = bound.segments.remove(0);
    assert(bound.segments@ =~= start.subrange(1, start.len() as int));
    let mut leading_colon = bound.leading_colon;
    if text_is(&bound.segments[0].ident, "crate_") {
        let first = bound.segments.remove(0);
        let renamed = PathSegment { ident: String::from_str("crate"), arguments: first.arguments };
        bound.segments.insert(0, renamed);
    } else if text_is(&bound.segments[0].ident, "__") {
        leading_colon = true;
        let _alias = bound.segments.remove(0);
    }
    bound.leading_colon = leading_colon;
    proof {
        let rest = start.subrange(1, start.len() as int).map_values(|s: PathSegment| s@);
        let now = bound.segments@.map_values(|s: PathSegment| s@);
        let sv = start.map_values(|s: PathSegment| s@);
        assert(sv.subrange(1, sv.len() as int) =~= rest);
        if rest[0].0 == "crate_"@ {
            assert(now =~= rest.update(0, ("crate"@, rest[0].1)));
        } else if rest[0].0 == "__"@ {
            assert(now =~= rest.subrange(1, rest.len() as int));
        } else {
            assert(now =~= rest);
        }
    }
}

/// A bound after the change: a marked trait bound loses its marking segment.
pub open spec fn strip_bound(b: BoundView) -> BoundView {
    match b {
        BoundView::Trait(p) => if const_kind_spec(p) != ConstKind::Plain {
            BoundView::Trait(strip_prefix_spec(p))
        } else {
            b
        },
        BoundView::Other => b,
    }
}

/// The kind each trait bound of a sequence is marked with, in order (no
/// modifier for an unmarked one).
pub open spec fn trait_kinds(bs: Seq<BoundView>) -> Seq<ConstKind>
    decreases bs.len(),
{
    if bs.len() == 0 {
        Seq::empty()
    } else {
        let prev = trait_kinds(bs.drop_last());
        match bs.last() {
            BoundView::Trait(p) => prev.push(const_kind_spec(p)),
            BoundView::Other => prev,
        }
    }
}

/// A predicate after the change.
pub open spec fn strip_pred(p: PredView) -> PredView {
    match p {
        PredView::Type(bs) => PredView::Type(Seq::new(bs.len(), |i: int| strip_bound(bs[i]))),
        PredView::Other => p,
    }
}

/// The kind each trait bound of a sequence of predicates is marked with.
pub open spec fn pred_kinds(ps: Seq<PredView>) -> Seq<ConstKind>
    decreases ps.len(),
{
    if ps.len() == 0 {
        Seq::empty()
    } else {
        pred_kinds(ps.drop_last()) + match ps.last() {
            PredView::Type(bs) => trait_kinds(bs),
            PredView::Other => Seq::empty(),
        }
    }
}

/// Removes the marking segment of each marked trait bound, and appends the
/// kind each trait bound is marked with to `kinds`.
fn strip_bounds(bs: &mut Vec<Bound>, kinds: &mut Vec<ConstKind>)
    ensures
        bounds_view(final(bs)@) =~= Seq::new(
            old(bs)@.len(),
            |i: int| strip_bound(bounds_view(old(bs)@)[i]),
        ),
        final(kinds)@ == old(kinds)@ + trait_kinds(bounds_view(old(bs)@)),
{
    let ghost start = bs@;
    let ghost k0 = kinds@;
    let mut i: usize = 0;
    while i < bs.len()
        invariant
            i <= bs.len(),
            start == old(bs)@,
            k0 == old(kinds)@,
            bs@.len() == start.len(),
            forall|j: int| 0 <= j < i ==> #[trigger] bs@[j]@ == strip_bound(start[j]@),
            forall|j: int| i <= j < bs@.len() ==> #[trigger] bs@[j] == start[j],
            kinds@ == k0 + trait_kinds(bounds_view(start.take(i as int))),
        decreases bs.len() - i,
    {
        let ghost before = kinds@;
        match &mut bs[i] {
            Bound::Trait(tb) => {
                let k = get_const_kind_from_bound(tb);
                kinds.push(k);
                if k != ConstKind::Plain {
                    remove_const_prefix(tb);
                }
            },
            Bound::Other => {},
        }
        proof {
            let t1 = bounds_view(start.take(i + 1));
            assert(t1.drop_last() =~= bounds_view(start.take(i as int)));
            assert(t1.last() == start[i as int]@);
        }
        i = i + 1;
    }
    proof {
        assert(start.take(start.len() as int) =~= start);
    }
}

/// Removes the marking segment of each marked trait bound of the trait's
/// supertraits and `where` predicates, and gives the kind each of its trait
/// bounds is marked with, in order (no modifier for an unmarked one, so that
/// each bound is printed with its own mark).
pub fn transform_trait_bounds_for_const(trait_item: &mut TraitHeader) -> (r: Vec<ConstKind>)
    ensures
        final(trait_item)@.0 =~= Seq::new(
            old(trait_item)@.0.len(),
            |i: int| strip_bound(old(trait_item)@.0[i]),
        ),
        final(trait_item)@.1 =~= Seq::new(
            old(trait_item)@.1.len(),
            |i: int| strip_pred(old(trait_item)@.1[i]),
        ),
        r@ == trait_kinds(old(trait_item)@.0) + pred_kinds(old(trait_item)@.1),
{
    let mut const_kinds: Vec<ConstKind> = Vec::new();
    strip_bounds(&mut trait_item.supertraits, &mut const_kinds);
    let ghost k1 = const_kinds@;
    let ghost start = trait_item.predicates@;
    let mut i: usize = 0;
    while i < trait_item.predicates.len()
        invariant
            i <= trait_item.predicates.len(),
            start == old(trait_item).predicates@,
            trait_item.predicates@.len() == start.len(),
            k1 == trait_kinds(old(trait_item)@.0),
            bounds_view(trait_item.supertraits@) =~= Seq::new(
                old(trait_item)@.0.len(),
                |j: int| strip_bound(old(trait_item)@.0[j]),
            ),
            forall|j: int| 0 <= j < i ==> #[trigger] trait_item.predicates@[j]@ == strip_pred(start[j]@),
            forall|j: int| i <= j < trait_item.predicates@.len() ==> #[trigger] trait_item.predicates@[j] == start[j],
            const_kinds@ == k1 + pred_kinds(preds_view(start.take(i as int))),
        decreases trait_item.predicates.len() - i,
    {
        match &mut trait_item.predicates[i] {
            Predicate::Type(bounds) => {
                strip_bounds(bounds, &mut const_kinds);
            },
            Predicate::Other => {},
        }
        proof {
            let t1 = preds_view(start.take(i + 1));
            assert(t1.drop_last() =~= preds_view(start.take(i as int)));
            assert(t1.last() == start[i as int]@);
        }
        i = i + 1;
    }
    proof {
        assert(start.take(start.len() as int) =~= start);
        assert(preds_view(trait_item.predicates@) =~= Seq::new(
            old(trait_item)@.1.len(),
            |j: int| strip_pred(old(trait_item)@.1[j]),
        ));
    }
    const_kinds
}

/// The modifiers a trait is printed with: whether `const` is written before
/// `trait`, the modifier of each supertrait bound, and the modifier of each
/// bound of each `where` predicate.
pub struct PrintedTrait {
    pub constness: bool,
    pub supertraits: Vec<ConstKind>,
    pub predicates: Vec<Vec<ConstKind>>,
}

/// The view of a trait header.
pub type HeaderView = (Seq<BoundView>, Seq<PredView>);

/// Whether `p` is how the header `h` is printed with the given kinds.
pub open spec fn printed_with(
    p: PrintedTrait,
    h: HeaderView,
    kinds: Seq<ConstKind>,
    make_const: bool,
) -> bool {
    &&& p.constness == make_const
    &&& p.supertraits@ =~= bound_modifiers(h.0, kinds, 0)
    &&& p.predicates@.len() == h.1.len()
    &&& forall|i: int|
        0 <= i < p.predicates@.len() ==> #[trigger] p.predicates@[i]@ =~= pred_modifiers(
            h.1,
            kinds,
            trait_count(h.0),
        )[i]
}

/// The `j`-th kind, or no modifier past the end.
pub open spec fn kind_at(kinds: Seq<ConstKind>, j: int) -> ConstKind {
    if 0 <= j < kinds.len() {
        kinds[j]
    } else {
        ConstKind::Plain
    }
}

/// The number of trait bounds in a sequence of bounds.
pub open spec fn trait_count(bs: Seq<BoundView>) -> int
    decreases bs.len(),
{
    if bs.len() == 0 {
        0
    } else {
        trait_count(bs.drop_last()) + if bs.last() is Trait {
            1int
        } else {
            0int
        }
    }
}

/// The number of trait bounds in a sequence of predicates.
pub open spec fn preds_trait_count(ps: Seq<PredView>) -> int
    decreases ps.len(),
{
    if ps.len() == 0 {
        0
    } else {
        preds_trait_count(ps.drop_last()) + match ps.last() {
            PredView::Type(bs) => trait_count(bs),
            PredView::Other => 0int,
        }
    }
}

/// The modifiers of a sequence of bounds when `start` trait bounds came
/// before: the trait bounds take the kinds in order, one each, as far as
/// there are kinds; other bounds take none.
pub open spec fn bound_modifiers(bs: Seq<BoundView>, kinds: Seq<ConstKind>, start: int) -> Seq<
    ConstKind,
> {
    Seq::new(
        bs.len(),
        |i: int|
            if bs[i] is Trait {
                kind_at(kinds, start + trait_count(bs.take(i)))
            } else {
                ConstKind::Plain
            },
    )
}

/// The modifiers of the bounds of each predicate, when `start` trait bounds
/// came before.
pub open spec fn pred_modifiers(ps: Seq<PredView>, kinds: Seq<ConstKind>, start: int) -> Seq<
    Seq<ConstKind>,
> {
    Seq::new(
        ps.len(),
        |p: int|
            match ps[p] {
                PredView::Type(bs) => bound_modifiers(bs, kinds, start + preds_trait_count(ps.take(p))),
                PredView::Other => Seq::empty(),
            },
    )
}

/// `trait_count` is at least 0.
proof fn lemma_trait_count_nonneg(bs: Seq<BoundView>)
    ensures
        trait_count(bs) >= 0,
    decreases bs.len(),
{
    if bs.len() > 0 {
        lemma_trait_count_nonneg(bs.drop_last());
    }
}

/// The smaller of two integers.
pub open spec fn min(a: int, b: int) -> int {
    if a < b {
        a
    } else {
        b
    }
}

/// The modifiers of a sequence of bounds; `idx` counts the trait bounds
/// seen so far, up to the number of kinds.
fn bound_modifiers_of(bs: &Vec<Bound>, kinds: &Vec<ConstKind>, idx: &mut usize, Ghost(start): Ghost<int>) -> (r: Vec<ConstKind>)
    requires
        start >= 0,
        *old(idx) == min(start, kinds@.len() as int),
    ensures
        r@ =~= bound_modifiers(bounds_view(bs@), kinds@, start),
        *final(idx) == min(start + trait_count(bounds_view(bs@)), kinds@.len() as int),
{
    let ghost bv = bounds_view(bs@);
    let mut r: Vec<ConstKind> = Vec::new();
    let mut i: usize = 0;
    while i < bs.len()
        invariant
            i <= bs.len(),
            bv == bounds_view(bs@),
            start >= 0,
            *idx == min(start + trait_count(bv.take(i as int)), kinds@.len() as int),
            r@.len() == i,
            forall|j: int| 0 <= j < i ==> #[trigger] r@[j] == bound_modifiers(bv, kinds@, start)[j],
        decreases bs.len() - i,
    {
        proof {
            assert(bv.take(i + 1).drop_last() =~= bv.take(i as int));
            assert(bv.take(i + 1).last() == bv[i as int]);
            lemma_trait_count_nonneg(bv.take(i as int));
        }
        let m = match &bs[i] {
            Bound::Trait(_) => {
                if *idx < kinds.len() {
                    let k = kinds[*idx];
                    *idx = *idx + 1;
                    k
                } else {
                    ConstKind::Plain
                }
            },
            Bound::Other => ConstKind::Plain,
        };
        r.push(m);
        i = i + 1;
    }
    proof {
        assert(bv.take(bs.len() as int) =~= bv);
    }
    r
}

/// The modifiers a trait is printed with: the kinds go, in order, to its
/// trait bounds, supertraits first and then those of the `where` predicates,
/// one each as far as there are kinds.
pub fn print_trait_with_const_modifiers(
    trait_item: &TraitHeader,
    const_kinds: &Vec<ConstKind>,
    make_const: bool,
) -> (r: PrintedTrait)
    ensures
        printed_with(r, trait_item@, const_kinds@, make_const),
{
    let mut const_index: usize = 0;
    let supertraits = bound_modifiers_of(&trait_item.supertraits, const_kinds, &mut const_index, Ghost(0));
    let ghost base = trait_count(trait_item@.0);
    let ghost pv = trait_item@.1;
    proof {
        lemma_trait_count_nonneg(trait_item@.0);
    }
    let mut predicates: Vec<Vec<ConstKind>> = Vec::new();
    let mut i: usize = 0;
    while i < trait_item.predicates.len()
        invariant
            i <= trait_item.predicates.len(),
            pv == preds_view(trait_item.predicates@),
            base >= 0,
            const_index == min(base + preds_trait_count(pv.take(i as int)), const_kinds@.len() as int),
            predicates@.len() == i,
            forall|j: int| 0 <= j < i ==> #[trigger] predicates@[j]@ =~= pred_modifiers(pv, const_kinds@, base)[j],
        decreases trait_item.predicates.len() - i,
    {
        proof {
            assert(pv.take(i + 1).drop_last() =~= pv.take(i as int));
            assert(pv.take(i + 1).last() == pv[i as int]);
            lemma_preds_trait_count_nonneg(pv.take(i as int));
        }
        let mods = match &trait_item.predicates[i] {
            Predicate::Type(bounds) => bound_modifiers_of(
                bounds,
                const_kinds,
                &mut const_index,
                Ghost(base + preds_trait_count(pv.take(i as int))),
            ),
            Predicate::Other => Vec::new(),
        };
        predicates.push(mods);
        i = i + 1;
    }
    PrintedTrait { constness: make_const, supertraits, predicates }
}

/// `preds_trait_count` is at least 0.
proof fn lemma_preds_trait_count_nonneg(ps: Seq<PredView>)
    ensures
        preds_trait_count(ps) >= 0,
    decreases ps.len(),
{
    if ps.len() > 0 {
        lemma_preds_trait_count_nonneg(ps.drop_last());
        if let PredView::Type(bs) = ps.last() {
            lemma_trait_count_nonneg(bs);
        }
    }
}

/// A trait header after the marking segments are removed.
pub open spec fn stripped_header(h: HeaderView) -> HeaderView {
    (
        Seq::new(h.0.len(), |i: int| strip_bound(h.0[i])),
        Seq::new(h.1.len(), |i: int| strip_pred(h.1[i])),
    )
}

/// The kind each trait bound of a trait header is marked with, in order.
pub open spec fn header_kinds(h: HeaderView) -> Seq<ConstKind> {
    trait_kinds(h.0) + pred_kinds(h.1)
}

/// Rewrites a trait or `impl` header for `#[const_]`: the marking segments are removed, each
/// trait bound is printed with the kind it was marked with, and `const` is
/// written before `trait`.
pub fn transform_trait_for_const(item: &mut TraitHeader) -> (r: PrintedTrait)
    ensures
        final(item)@ == stripped_header(old(item)@),
        printed_with(r, final(item)@, header_kinds(old(item)@), true),
{
    let const_kinds = transform_trait_bounds_for_const(item);
    print_trait_with_const_modifiers(item, &const_kinds, true)
}

/// Rewrites a trait or `impl` header for `#[dyn_]`: the marking segments are removed, no
/// bound gets a modifier, and no `const` is written.
pub fn transform_trait_for_dyn(item: &mut TraitHeader) -> (r: PrintedTrait)
    ensures
        final(item)@ == stripped_header(old(item)@),
        printed_with(
            r,
            final(item)@,
            Seq::new(header_kinds(old(item)@).len(), |i: int| ConstKind::Plain),
            false,
        ),
{
    let const_kinds = transform_trait_bounds_for_const(item);
    let none_kinds = vec![ConstKind::Plain; const_kinds.len()];
    proof {
        assert(none_kinds@ =~= Seq::new(header_kinds(old(item)@).len(), |i: int| ConstKind::Plain));
    }
    print_trait_with_const_modifiers(item, &none_kinds, false)
}

/// What `#[const_]` and `#[dyn_]` are applied to, as `syn` reads the tokens:
/// a trait, an `impl`, another item, or nothing `syn` could read.
pub enum ConstTarget {
    Trait(TraitHeader),
    Impl(TraitHeader),
    Item(ConstItem),
    Unparsed,
}

/// What `#[const_]` and `#[dyn_]` make of it: a rewritten trait or `impl`
/// header and its modifiers, `const` written before it or not; another item.
pub enum ConstOutput {
    Trait(TraitHeader, PrintedTrait),
    Impl(TraitHeader, PrintedTrait),
    Item(ConstItem),
}

/// Whether `h2` and `p` are what `#[const_]` (`make_const`) or `#[dyn_]`
/// makes of the header `h`: the marking segments removed, and each trait
/// bound printed with its mark (with none, for `#[dyn_]`).
pub open spec fn header_result(h: HeaderView, h2: TraitHeader, p: PrintedTrait, make_const: bool) -> bool {
    &&& h2@ == stripped_header(h)
    &&& if make_const {
        printed_with(p, h2@, header_kinds(h), true)
    } else {
        printed_with(p, h2@, Seq::new(header_kinds(h).len(), |i: int| ConstKind::Plain), false)
    }
}

/// The mathematical view of what `#[const_]` and `#[dyn_]` are applied to.
pub ghost enum TargetView {
    Trait(HeaderView),
    Impl(HeaderView),
    Fn(Signature),
    Other(ItemKind),
    Unparsed,
}

/// The view of what `#[const_]` and `#[dyn_]` are applied to.
pub open spec fn target_view(t: ConstTarget) -> TargetView {
    match t {
        ConstTarget::Trait(h) => TargetView::Trait(h@),
        ConstTarget::Impl(h) => TargetView::Impl(h@),
        ConstTarget::Item(ConstItem::Fn(s)) => TargetView::Fn(s),
        ConstTarget::Item(ConstItem::Other(k)) => TargetView::Other(k),
        ConstTarget::Unparsed => TargetView::Unparsed,
    }
}

/// Whether `r` is what `#[const_]` (`make_const`) or `#[dyn_]` makes of
/// what has the view `t`.
pub open spec fn const_result_view(t: TargetView, r: Result<ConstOutput, MacroError>, make_const: bool) -> bool {
    match t {
        TargetView::Trait(h) => match r {
            Ok(ConstOutput::Trait(h2, p)) => header_result(h, h2, p, make_const),
            _ => false,
        },
        TargetView::Impl(h) => match r {
            Ok(ConstOutput::Impl(h2, p)) => header_result(h, h2, p, make_const),
            _ => false,
        },
        TargetView::Fn(s) => r == Ok::<ConstOutput, MacroError>(
            ConstOutput::Item(ConstItem::Fn(with_const(s, make_const))),
        ),
        TargetView::Other(k) => if make_const {
            r == Err::<ConstOutput, MacroError>(const_refused())
        } else {
            r == Ok::<ConstOutput, MacroError>(ConstOutput::Item(ConstItem::Other(k)))
        },
        TargetView::Unparsed => r == Err::<ConstOutput, MacroError>(
            MacroError { kind: ErrorKind::NotParsed, at: Location::Whole },
        ),
    }
}

/// Whether `r` is what `#[const_]` (`make_const`) or `#[dyn_]` makes of `t`.
pub open spec fn const_result(t: ConstTarget, r: Result<ConstOutput, MacroError>, make_const: bool) -> bool {
    const_result_view(target_view(t), r, make_const)
}

/// `#[const_]`: makes a function `const`; rewrites the marked bounds of a
/// trait or an `impl` and makes it `const`; refuses anything else.
pub fn const_target(target: ConstTarget) -> (r: Result<ConstOutput, MacroError>)
    ensures
        const_result(target, r, true),
{
    match target {
        ConstTarget::Trait(h) => {
            let mut h = h;
            let p = transform_trait_for_const(&mut h);
            Ok(ConstOutput::Trait(h, p))
        },
        ConstTarget::Impl(h) => {
            let mut h = h;
            let p = transform_trait_for_const(&mut h);
            Ok(ConstOutput::Impl(h, p))
        },
        ConstTarget::Item(item) => {
            let mut item = item;
            match apply_to_item(&mut item, true) {
                Ok(()) => Ok(ConstOutput::Item(item)),
                Err(e) => Err(e),
            }
        },
        ConstTarget::Unparsed => Err(MacroError { kind: ErrorKind::NotParsed, at: Location::Whole }),
    }
}

/// `#[dyn_]`: removes `const` from a function; rewrites the marked bounds
/// of a trait or an `impl` without modifiers and without `const`; leaves
/// anything else as it is.
pub fn dyn_target(target: ConstTarget) -> (r: Result<ConstOutput, MacroError>)
    ensures
        const_result(target, r, false),
{
    match target {
        ConstTarget::Trait(h) => {
            let mut h = h;
            let p = transform_trait_for_dyn(&mut h);
            Ok(ConstOutput::Trait(h, p))
        },
        ConstTarget::Impl(h) => {
            let mut h = h;
            let p = transform_trait_for_dyn(&mut h);
            Ok(ConstOutput::Impl(h, p))
        },
        ConstTarget::Item(item) => {
            let mut item = item;
            match apply_to_item(&mut item, false) {
                Ok(()) => Ok(ConstOutput::Item(item)),
                Err(e) => Err(e),
            }
        },
        ConstTarget::Unparsed => Err(MacroError { kind: ErrorKind::NotParsed, at: Location::Whole }),
    }
}

/// The mark of a bound: its kind if it is a trait bound, none otherwise.
pub open spec fn bound_mark(b: BoundView) -> ConstKind {
    match b {
        BoundView::Trait(p) => const_kind_spec(p),
        BoundView::Other => ConstKind::Plain,
    }
}

/// The bounds of a predicate: those of a type predicate, none otherwise.
pub open spec fn pred_bounds(p: PredView) -> Seq<BoundView> {
    match p {
        PredView::Type(bs) => bs,
        PredView::Other => Seq::empty(),
    }
}

/// `trait_count` reads only which bounds are trait bounds.
proof fn lemma_trait_count_shape(a: Seq<BoundView>, b: Seq<BoundView>)
    requires
        a.len() == b.len(),
        forall|i: int| 0 <= i < a.len() ==> (#[trigger] a[i] is Trait) == (b[i] is Trait),
    ensures
        trait_count(a) == trait_count(b),
    decreases a.len(),
{
    if a.len() > 0 {
        lemma_trait_count_shape(a.drop_last(), b.drop_last());
    }
}

/// `trait_kinds` has one kind per trait bound.
proof fn lemma_trait_kinds_len(bs: Seq<BoundView>)
    ensures
        trait_kinds(bs).len() == trait_count(bs),
    decreases bs.len(),
{
    if bs.len() > 0 {
        lemma_trait_kinds_len(bs.drop_last());
    }
}

/// Where a trait bound's mark stands in `trait_kinds`.
proof fn lemma_trait_kind_at(bs: Seq<BoundView>, i: int)
    requires
        0 <= i < bs.len(),
        bs[i] is Trait,
    ensures
        0 <= trait_count(bs.take(i)) < trait_count(bs),
        trait_kinds(bs)[trait_count(bs.take(i))] == bound_mark(bs[i]),
    decreases bs.len(),
{
    let d = bs.drop_last();
    lemma_trait_kinds_len(d);
    lemma_trait_count_nonneg(bs.take(i));
    if i < bs.len() - 1 {
        lemma_trait_kind_at(d, i);
        assert(bs.take(i) =~= d.take(i));
        assert(d[i] == bs[i]);
    } else {
        assert(bs.take(i) =~= d);
    }
}

/// `preds_trait_count` reads only which bounds are trait bounds.
proof fn lemma_preds_count_shape(a: Seq<PredView>, b: Seq<PredView>)
    requires
        a.len() == b.len(),
        forall|q: int|
            0 <= q < a.len() ==> #[trigger] trait_count(pred_bounds(a[q])) == trait_count(
                pred_bounds(b[q]),
            ),
    ensures
        preds_trait_count(a) == preds_trait_count(b),
    decreases a.len(),
{
    if a.len() > 0 {
        lemma_preds_count_shape(a.drop_last(), b.drop_last());
        assert(trait_count(pred_bounds(a.last())) == trait_count(pred_bounds(b.last())));
        assert(trait_count(Seq::<BoundView>::empty()) == 0);
    }
}

/// `pred_kinds` has one kind per trait bound.
proof fn lemma_pred_kinds_len(ps: Seq<PredView>)
    ensures
        pred_kinds(ps).len() == preds_trait_count(ps),
    decreases ps.len(),
{
    if ps.len() > 0 {
        lemma_pred_kinds_len(ps.drop_last());
        if let PredView::Type(bs) = ps.last() {
            lemma_trait_kinds_len(bs);
        }
    }
}

/// Where the kinds of a predicate's trait bounds stand in `pred_kinds`.
proof fn lemma_pred_kind_at(ps: Seq<PredView>, q: int, j: int)
    requires
        0 <= q < ps.len(),
        0 <= j < trait_count(pred_bounds(ps[q])),
    ensures
        0 <= preds_trait_count(ps.take(q)),
        preds_trait_count(ps.take(q)) + j < preds_trait_count(ps),
        pred_kinds(ps)[preds_trait_count(ps.take(q)) + j] == trait_kinds(pred_bounds(ps[q]))[j],
    decreases ps.len(),
{
    let d = ps.drop_last();
    lemma_pred_kinds_len(d);
    lemma_preds_trait_count_nonneg(ps.take(q));
    lemma_trait_count_nonneg(pred_bounds(ps.last()));
    assert(trait_count(Seq::<BoundView>::empty()) == 0);
    assert(trait_kinds(Seq::<BoundView>::empty()) =~= Seq::<ConstKind>::empty());
    if q < ps.len() - 1 {
        lemma_pred_kind_at(d, q, j);
        assert(ps.take(q) =~= d.take(q));
        assert(d[q] == ps[q]);
    } else {
        assert(ps.take(q) =~= d);
        if let PredView::Type(bs) = ps.last() {
            lemma_trait_kinds_len(bs);
        }
    }
}

/// `#[const_]` prints each trait bound of a trait, supertraits and `where`
/// predicates alike, with the kind it was marked with: `const` for
/// `reta_const::`, `[const]` for `reta_maybe_const::`, and none for an
/// unmarked one.
pub proof fn const_gives_each_bound_its_mark(h: HeaderView, p: PrintedTrait)
    requires
        printed_with(p, stripped_header(h), header_kinds(h), true),
    ensures
        p.supertraits@.len() == h.0.len(),
        forall|i: int| 0 <= i < h.0.len() ==> #[trigger] p.supertraits@[i] == bound_mark(h.0[i]),
        p.predicates@.len() == h.1.len(),
        forall|q: int, i: int|
            0 <= q < h.1.len() && 0 <= i < pred_bounds(h.1[q]).len() ==> #[trigger] p.predicates@[q]@[i]
                == bound_mark(pred_bounds(h.1[q])[i]),
{
    assert forall|i: int| 0 <= i < h.0.len() implies #[trigger] p.supertraits@[i] == bound_mark(
        h.0[i],
    ) by {
        lemma_supertrait_mark(h, p, i);
    }
    assert forall|q: int, i: int|
        0 <= q < h.1.len() && 0 <= i < pred_bounds(h.1[q]).len() implies #[trigger] p.predicates@[q]@[i]
        == bound_mark(pred_bounds(h.1[q])[i]) by {
        lemma_predicate_mark(h, p, q, i);
    }
}

/// One supertrait bound of the law above.
proof fn lemma_supertrait_mark(h: HeaderView, p: PrintedTrait, i: int)
    requires
        printed_with(p, stripped_header(h), header_kinds(h), true),
        0 <= i < h.0.len(),
    ensures
        p.supertraits@[i] == bound_mark(h.0[i]),
{
    let sh = stripped_header(h);
    lemma_trait_count_shape(sh.0.take(i), h.0.take(i));
    lemma_trait_kinds_len(h.0);
    if h.0[i] is Trait {
        lemma_trait_kind_at(h.0, i);
    }
}

/// One predicate bound of the law above.
#[verifier::rlimit(40)]
proof fn lemma_predicate_mark(h: HeaderView, p: PrintedTrait, q: int, i: int)
    requires
        printed_with(p, stripped_header(h), header_kinds(h), true),
        0 <= q < h.1.len(),
        0 <= i < pred_bounds(h.1[q]).len(),
    ensures
        p.predicates@[q]@[i] == bound_mark(pred_bounds(h.1[q])[i]),
{
    let sh = stripped_header(h);
    let bs = pred_bounds(h.1[q]);
    let sbs = pred_bounds(sh.1[q]);
    assert(sbs =~= Seq::new(bs.len(), |k: int| strip_bound(bs[k])));
    assert forall|r: int| 0 <= r < q implies #[trigger] trait_count(pred_bounds(sh.1.take(q)[r]))
        == trait_count(pred_bounds(h.1.take(q)[r])) by {
        let b1 = pred_bounds(h.1[r]);
        assert(pred_bounds(sh.1[r]) =~= Seq::new(b1.len(), |k: int| strip_bound(b1[k])));
        lemma_trait_count_shape(pred_bounds(sh.1[r]), b1);
    }
    lemma_preds_count_shape(sh.1.take(q), h.1.take(q));
    lemma_trait_count_shape(sbs.take(i), bs.take(i));
    lemma_trait_count_shape(sh.0, h.0);
    lemma_trait_kinds_len(h.0);
    lemma_pred_kinds_len(h.1);
    assert(sbs[i] is Trait == bs[i] is Trait);
    if bs[i] is Trait {
        lemma_trait_kind_at(bs, i);
        let j = trait_count(bs.take(i));
        lemma_pred_kind_at(h.1, q, j);
        let kinds = header_kinds(h);
        let idx = trait_count(h.0) + preds_trait_count(h.1.take(q)) + j;
        assert(kinds[idx] == pred_kinds(h.1)[preds_trait_count(h.1.take(q)) + j]);
        assert(p.predicates@[q]@[i] == kind_at(kinds, idx));
    }
}


/// `#[const_]` on the tokens it is applied to, as `syn` reads them.
pub fn const_(item: &proc_macro2::TokenStream) -> (r: Result<ConstOutput, MacroError>)
    ensures
        const_result_view(target_spec(stream_toks(*item)), r, true),
{
    const_target(read_target(item))
}

/// `#[dyn_]` on the tokens it is applied to, as `syn` reads them.
pub fn dyn_(item: &proc_macro2::TokenStream) -> (r: Result<ConstOutput, MacroError>)
    ensures
        const_result_view(target_spec(stream_toks(*item)), r, false),
{
    dyn_target(read_target(item))
}

/// Removing the marking segment keeps the rest of the path: the segments
/// after the first, in order; a following `crate_` becomes `crate`, and a
/// following `__` is dropped and the path starts with `::`. A path of one
/// segment is kept.
pub proof fn strip_keeps_following_segments(p: PathView)
    ensures
        p.1.len() < 2 ==> strip_prefix_spec(p) == p,
        p.1.len() >= 2 && p.1[1].0 != "crate_"@ && p.1[1].0 != "__"@ ==> {
            let q = strip_prefix_spec(p);
            &&& q.0 == p.0
            &&& q.1.len() == p.1.len() - 1
            &&& forall|i: int| 0 <= i < q.1.len() ==> #[trigger] q.1[i] == p.1[i + 1]
        },
        p.1.len() >= 2 && p.1[1].0 == "crate_"@ ==> {
            let q = strip_prefix_spec(p);
            &&& q.0 == p.0
            &&& q.1.len() == p.1.len() - 1
            &&& q.1[0] == ("crate"@, p.1[1].1)
            &&& forall|i: int| 1 <= i < q.1.len() ==> #[trigger] q.1[i] == p.1[i + 1]
        },
        p.1.len() >= 2 && p.1[1].0 == "__"@ ==> {
            let q = strip_prefix_spec(p);
            &&& q.0
            &&& q.1.len() == p.1.len() - 2
            &&& forall|i: int| 0 <= i < q.1.len() ==> #[trigger] q.1[i] == p.1[i + 2]
        },
{
    reveal_strlit("crate_");
    reveal_strlit("__");
    assert("crate_"@.len() != "__"@.len());
}

} // verus!
