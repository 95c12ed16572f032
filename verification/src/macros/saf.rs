//! `#[unsafe_]` and `#[safe_]`: make a function, or the functions of an
//! `impl`, a trait or an `extern` block, `unsafe` or safe.
use vstd::prelude::*;

use crate::macros::stream::stream_toks;
use crate::macros::syntax::{fragment_spec, read_fragment};

use crate::macros::item::{
    change_members, lemma_first_refused, lemma_first_refused_same, lemma_members_changed,
    members_changed, not_parsed, outcome_view, ErrorKind, Fragment, FragmentView, Item, ItemView,
    Location, MacroError, Member, Safety, Signature,
};

verus! {

/// The safety a function gets: `unsafe`; or, made safe, `safe` inside an
/// `extern` block and no qualifier elsewhere.
pub open spec fn safety_for(make_unsafe: bool, foreign: bool) -> Safety {
    if make_unsafe {
        Safety::Unsafe
    } else if foreign {
        Safety::Safe
    } else {
        Safety::Default
    }
}

/// A signature with the safety it gets.
pub open spec fn with_safety(s: Signature, make_unsafe: bool, foreign: bool) -> Signature {
    Signature {
        constness: s.constness,
        asyncness: s.asyncness,
        safety: safety_for(make_unsafe, foreign),
    }
}

/// Whether a member takes the change: making unsafe asks for a function.
pub open spec fn unsafe_accepts(m: Member, make_unsafe: bool) -> bool {
    m is Fn || !make_unsafe
}

/// A member after the change: a function's signature is changed.
pub open spec fn unsafe_member(m: Member, make_unsafe: bool, foreign: bool) -> Member {
    match m {
        Member::Fn(s) => Member::Fn(with_safety(s, make_unsafe, foreign)),
        Member::Other(_) => m,
    }
}

/// `unsafe_accepts` as a function of the member.
pub open spec fn unsafe_acceptor(make_unsafe: bool) -> spec_fn(Member) -> bool {
    |m: Member| unsafe_accepts(m, make_unsafe)
}

/// `unsafe_member` as a function of the member.
pub open spec fn unsafe_changer(make_unsafe: bool, foreign: bool) -> spec_fn(Member) -> Member {
    |m: Member| unsafe_member(m, make_unsafe, foreign)
}

/// The refusal on the whole fragment.
pub open spec fn unsafe_refused() -> MacroError {
    MacroError { kind: ErrorKind::UnsafeOnNonFunction, at: Location::Whole }
}

/// Makes a signature `unsafe`, or removes its `unsafe`.
pub fn apply_safety_to_fn_sig(sig: &mut Signature, make_unsafe: bool) -> (r: Result<(), MacroError>)
    ensures
        r is Ok,
        *final(sig) == with_safety(*old(sig), make_unsafe, false),
{
    sig.safety = if make_unsafe {
        Safety::Unsafe
    } else {
        Safety::Default
    };
    Ok(())
}

/// Applies the change to a member.
fn apply_to_member(item: &mut Member, make_unsafe: bool, foreign: bool) -> (r: Result<(), MacroError>)
    ensures
        r is Ok <==> unsafe_accepts(*old(item), make_unsafe),
        r is Ok ==> *final(item) == unsafe_member(*old(item), make_unsafe, foreign),
        r is Err ==> *final(item) == *old(item) && r == Err::<(), MacroError>(unsafe_refused()),
{
    match item {
        Member::Fn(sig) => {
            let res = apply_safety_to_fn_sig(sig, make_unsafe);
            if foreign && !make_unsafe {
                sig.safety = Safety::Safe;
            }
            res
        },
        Member::Other(_) => {
            if !make_unsafe {
                Ok(())
            } else {
                Err(MacroError { kind: ErrorKind::UnsafeOnNonFunction, at: Location::Whole })
            }
        },
    }
}

/// Applies the change to a member of an `impl`.
pub fn apply_to_impl_item(item: &mut Member, make_unsafe: bool) -> (r: Result<(), MacroError>)
    ensures
        r is Ok <==> unsafe_accepts(*old(item), make_unsafe),
        r is Ok ==> *final(item) == unsafe_member(*old(item), make_unsafe, false),
        r is Err ==> *final(item) == *old(item) && r == Err::<(), MacroError>(unsafe_refused()),
{
    apply_to_member(item, make_unsafe, false)
}

/// Applies the change to a member of a trait.
pub fn apply_to_trait_item(item: &mut Member, make_unsafe: bool) -> (r: Result<(), MacroError>)
    ensures
        r is Ok <==> unsafe_accepts(*old(item), make_unsafe),
        r is Ok ==> *final(item) == unsafe_member(*old(item), make_unsafe, false),
        r is Err ==> *final(item) == *old(item) && r == Err::<(), MacroError>(unsafe_refused()),
{
    apply_to_member(item, make_unsafe, false)
}

/// Applies the change to a member of an `extern` block: made safe, a
/// function there is marked `safe`.
pub fn apply_to_foreign_item(item: &mut Member, make_unsafe: bool) -> (r: Result<(), MacroError>)
    ensures
        r is Ok <==> unsafe_accepts(*old(item), make_unsafe),
        r is Ok ==> *final(item) == unsafe_member(*old(item), make_unsafe, true),
        r is Err ==> *final(item) == *old(item) && r == Err::<(), MacroError>(unsafe_refused()),
{
    apply_to_member(item, make_unsafe, true)
}

/// Applies the change to each member in turn, stopping at the first refusal.
fn apply_to_members(items: &mut Vec<Member>, make_unsafe: bool, foreign: bool) -> (r: Result<
    (),
    MacroError,
>)
    ensures
        members_changed(
            old(items)@,
            final(items)@,
            r,
            unsafe_acceptor(make_unsafe),
            unsafe_changer(make_unsafe, foreign),
            ErrorKind::UnsafeOnNonFunction,
        ),
{
    let ghost start = items@;
    let mut i: usize = 0;
    while i < items.len()
        invariant
            i <= items.len(),
            start == old(items)@,
            items@.len() == start.len(),
            forall|j: int| 0 <= j < i ==> #[trigger] unsafe_accepts(start[j], make_unsafe),
            forall|j: int|
                0 <= j < i ==> #[trigger] items@[j] == unsafe_member(start[j], make_unsafe, foreign),
            forall|j: int| i <= j < items@.len() ==> #[trigger] items@[j] == start[j],
        decreases items.len() - i,
    {
        let res = apply_to_member(&mut items[i], make_unsafe, foreign);
        if res.is_err() {
            let e = MacroError { kind: ErrorKind::UnsafeOnNonFunction, at: Location::Member(i) };
            proof {
                let k = i as int;
                let acc = unsafe_acceptor(make_unsafe);
                let chg = unsafe_changer(make_unsafe, foreign);
                assert(!acc(start[k]));
                assert(forall|j: int| 0 <= j < k ==> #[trigger] acc(start[j]) && items@[j] == chg(
                    start[j],
                ));
            }
            return Err(e);
        }
        i = i + 1;
    }
    Ok(())
}

/// What the change makes of a list of members.
pub open spec fn unsafe_members(ms: Seq<Member>, make_unsafe: bool, foreign: bool) -> Result<
    Seq<Member>,
    MacroError,
> {
    change_members(
        ms,
        unsafe_acceptor(make_unsafe),
        unsafe_changer(make_unsafe, foreign),
        ErrorKind::UnsafeOnNonFunction,
    )
}

/// The item after the change, and the outcome.
pub open spec fn unsafe_item(old: Item, new: Item, r: Result<(), MacroError>, make_unsafe: bool) -> bool {
    match old {
        Item::Fn(s) => r is Ok && new == Item::Fn(with_safety(s, make_unsafe, false)),
        Item::Impl(ms) => new is Impl && members_changed(
            ms@,
            new->Impl_0@,
            r,
            unsafe_acceptor(make_unsafe),
            unsafe_changer(make_unsafe, false),
            ErrorKind::UnsafeOnNonFunction,
        ),
        Item::Trait(ms) => new is Trait && members_changed(
            ms@,
            new->Trait_0@,
            r,
            unsafe_acceptor(make_unsafe),
            unsafe_changer(make_unsafe, false),
            ErrorKind::UnsafeOnNonFunction,
        ),
        Item::ForeignMod(ms) => new is ForeignMod && members_changed(
            ms@,
            new->ForeignMod_0@,
            r,
            unsafe_acceptor(make_unsafe),
            unsafe_changer(make_unsafe, true),
            ErrorKind::UnsafeOnNonFunction,
        ),
        Item::Other(_) => new == old && if make_unsafe {
            r == Err::<(), MacroError>(unsafe_refused())
        } else {
            r is Ok
        },
    }
}

/// Applies the change to an item: a function; each member of an `impl`, a
/// trait or an `extern` block; any other item is refused when making unsafe,
/// and left as it is otherwise.
pub fn apply_to_item(item: &mut Item, make_unsafe: bool) -> (r: Result<(), MacroError>)
    ensures
        unsafe_item(*old(item), *final(item), r, make_unsafe),
{
    match item {
        Item::Fn(sig) => apply_safety_to_fn_sig(sig, make_unsafe),
        Item::Impl(items) => apply_to_members(items, make_unsafe, false),
        Item::Trait(items) => apply_to_members(items, make_unsafe, false),
        Item::ForeignMod(items) => apply_to_members(items, make_unsafe, true),
        Item::Other(_) => {
            if !make_unsafe {
                Ok(())
            } else {
                Err(MacroError { kind: ErrorKind::UnsafeOnNonFunction, at: Location::Whole })
            }
        },
    }
}

/// What the change makes of a member standing alone.
pub open spec fn unsafe_member_result(m: Member, make_unsafe: bool, foreign: bool) -> Result<
    Member,
    MacroError,
> {
    if unsafe_accepts(m, make_unsafe) {
        Ok(unsafe_member(m, make_unsafe, foreign))
    } else {
        Err(unsafe_refused())
    }
}

/// What the change makes of an item.
pub open spec fn unsafe_item_spec(it: ItemView, make_unsafe: bool) -> Result<ItemView, MacroError> {
    match it {
        ItemView::Fn(s) => Ok(ItemView::Fn(with_safety(s, make_unsafe, false))),
        ItemView::Impl(ms) => match unsafe_members(ms, make_unsafe, false) {
            Ok(v) => Ok(ItemView::Impl(v)),
            Err(e) => Err(e),
        },
        ItemView::Trait(ms) => match unsafe_members(ms, make_unsafe, false) {
            Ok(v) => Ok(ItemView::Trait(v)),
            Err(e) => Err(e),
        },
        ItemView::ForeignMod(ms) => match unsafe_members(ms, make_unsafe, true) {
            Ok(v) => Ok(ItemView::ForeignMod(v)),
            Err(e) => Err(e),
        },
        ItemView::Other(_) => if make_unsafe {
            Err(unsafe_refused())
        } else {
            Ok(it)
        },
    }
}

/// What `#[unsafe_]` (`make_unsafe`) or `#[safe_]` makes of the tokens it is
/// applied to, as `syn` read them: an item, else a member of an `impl`, of a
/// trait or of an `extern` block; anything else is `syn`'s parse error.
pub open spec fn unsafe_spec(f: FragmentView, make_unsafe: bool) -> Result<FragmentView, MacroError> {
    match f {
        FragmentView::Item(it) => match unsafe_item_spec(it, make_unsafe) {
            Ok(v) => Ok(FragmentView::Item(v)),
            Err(e) => Err(e),
        },
        FragmentView::ImplItem(m) => match unsafe_member_result(m, make_unsafe, false) {
            Ok(v) => Ok(FragmentView::ImplItem(v)),
            Err(e) => Err(e),
        },
        FragmentView::TraitItem(m) => match unsafe_member_result(m, make_unsafe, false) {
            Ok(v) => Ok(FragmentView::TraitItem(v)),
            Err(e) => Err(e),
        },
        FragmentView::ForeignItem(m) => match unsafe_member_result(m, make_unsafe, true) {
            Ok(v) => Ok(FragmentView::ForeignItem(v)),
            Err(e) => Err(e),
        },
        FragmentView::Unparsed => Err(not_parsed()),
    }
}

/// Applies the change to the fragment an attribute is applied to.
fn apply_to_fragment(fragment: Fragment, make_unsafe: bool) -> (r: Result<Fragment, MacroError>)
    ensures
        outcome_view(r) == unsafe_spec(fragment@, make_unsafe),
{
    match fragment {
        Fragment::Item(item) => {
            let mut item = item;
            let ghost before = item;
            let res = apply_to_item(&mut item, make_unsafe);
            proof {
                match before {
                    Item::Impl(ms) => lemma_members_changed(
                        ms@,
                        item->Impl_0@,
                        res,
                        unsafe_acceptor(make_unsafe),
                        unsafe_changer(make_unsafe, false),
                        ErrorKind::UnsafeOnNonFunction,
                    ),
                    Item::Trait(ms) => lemma_members_changed(
                        ms@,
                        item->Trait_0@,
                        res,
                        unsafe_acceptor(make_unsafe),
                        unsafe_changer(make_unsafe, false),
                        ErrorKind::UnsafeOnNonFunction,
                    ),
                    Item::ForeignMod(ms) => lemma_members_changed(
                        ms@,
                        item->ForeignMod_0@,
                        res,
                        unsafe_acceptor(make_unsafe),
                        unsafe_changer(make_unsafe, true),
                        ErrorKind::UnsafeOnNonFunction,
                    ),
                    _ => {},
                }
            }
            match res {
                Ok(()) => Ok(Fragment::Item(item)),
                Err(e) => Err(e),
            }
        },
        Fragment::ImplItem(member) => {
            let mut member = member;
            match apply_to_impl_item(&mut member, make_unsafe) {
                Ok(()) => Ok(Fragment::ImplItem(member)),
                Err(e) => Err(e),
            }
        },
        Fragment::TraitItem(member) => {
            let mut member = member;
            match apply_to_trait_item(&mut member, make_unsafe) {
                Ok(()) => Ok(Fragment::TraitItem(member)),
                Err(e) => Err(e),
            }
        },
        Fragment::ForeignItem(member) => {
            let mut member = member;
            match apply_to_foreign_item(&mut member, make_unsafe) {
                Ok(()) => Ok(Fragment::ForeignItem(member)),
                Err(e) => Err(e),
            }
        },
        Fragment::Unparsed => Err(MacroError { kind: ErrorKind::NotParsed, at: Location::Whole }),
    }
}

/// `#[unsafe_]`: makes a function `unsafe`, or each function of an `impl`, a
/// trait or an `extern` block; refuses anything else.
pub fn unsafe_fragment(fragment: Fragment) -> (r: Result<Fragment, MacroError>)
    ensures
        outcome_view(r) == unsafe_spec(fragment@, true),
{
    apply_to_fragment(fragment, true)
}

/// `#[safe_]`: removes `unsafe` from a function, or from each function of an
/// `impl` or a trait, and marks the functions of an `extern` block `safe`;
/// leaves anything else as it is.
pub fn safe_fragment(fragment: Fragment) -> (r: Result<Fragment, MacroError>)
    ensures
        outcome_view(r) == unsafe_spec(fragment@, false),
{
    apply_to_fragment(fragment, false)
}

/// Changing members twice: the second change decides.
proof fn lemma_members_last_wins(ms: Seq<Member>, a: bool, b: bool, foreign: bool)
    ensures
        unsafe_members(ms, a, foreign) matches Ok(v) ==> unsafe_members(v, b, foreign)
            == unsafe_members(ms, b, foreign),
{
    if let Ok(v) = unsafe_members(ms, a, foreign) {
        assert forall|i: int| 0 <= i < v.len() implies unsafe_acceptor(b)(#[trigger] v[i])
            == unsafe_acceptor(b)(ms[i]) by {}
        lemma_first_refused_same(v, ms, unsafe_acceptor(b), unsafe_acceptor(b));
        let w1 = Seq::new(v.len(), |i: int| unsafe_changer(b, foreign)(v[i]));
        let w2 = Seq::new(ms.len(), |i: int| unsafe_changer(b, foreign)(ms[i]));
        assert(w1 =~= w2);
    }
}

/// Of `#[unsafe_]` and `#[safe_]`, the later one decides: once one of them
/// has been applied, applying either gives what it gives on the unchanged
/// tokens. In particular, applying one twice is applying it once.
pub proof fn unsafe_last_wins(f: FragmentView, a: bool, b: bool)
    ensures
        unsafe_spec(f, a) matches Ok(g) ==> unsafe_spec(g, b) == unsafe_spec(f, b),
{
    match f {
        FragmentView::Item(it) => match it {
            ItemView::Impl(ms) => lemma_members_last_wins(ms, a, b, false),
            ItemView::Trait(ms) => lemma_members_last_wins(ms, a, b, false),
            ItemView::ForeignMod(ms) => lemma_members_last_wins(ms, a, b, true),
            _ => {},
        },
        _ => {},
    }
}

/// `#[safe_]` refuses nothing that `syn` read.
pub proof fn safe_refuses_nothing(f: FragmentView)
    requires
        !(f is Unparsed),
    ensures
        unsafe_spec(f, false) is Ok,
{
    if let FragmentView::Item(it) = f {
        match it {
            ItemView::Impl(ms) => lemma_first_refused(ms, unsafe_acceptor(false)),
            ItemView::Trait(ms) => lemma_first_refused(ms, unsafe_acceptor(false)),
            ItemView::ForeignMod(ms) => lemma_first_refused(ms, unsafe_acceptor(false)),
            _ => {},
        }
    }
}


/// `#[unsafe_]` on the tokens it is applied to, as `syn` reads them.
pub fn unsafe_(item: &proc_macro2::TokenStream) -> (r: Result<Fragment, MacroError>)
    ensures
        outcome_view(r) == unsafe_spec(fragment_spec(stream_toks(*item), true), true),
{
    unsafe_fragment(read_fragment(item, true))
}

/// `#[safe_]` on the tokens it is applied to, as `syn` reads them.
pub fn safe_(item: &proc_macro2::TokenStream) -> (r: Result<Fragment, MacroError>)
    ensures
        outcome_view(r) == unsafe_spec(fragment_spec(stream_toks(*item), true), false),
{
    safe_fragment(read_fragment(item, true))
}

/// A member after a change of safety to `s`: a function keeps its
/// const-ness and async-ness and has safety `s`; another member is kept.
pub open spec fn member_becomes(old: Member, new: Member, s: Safety) -> bool {
    match old {
        Member::Fn(a) => new == Member::Fn(
            Signature { constness: a.constness, asyncness: a.asyncness, safety: s },
        ),
        Member::Other(_) => new == old,
    }
}

/// Members after a change of safety to `s`, one for one.
pub open spec fn members_become(old: Seq<Member>, new: Seq<Member>, s: Safety) -> bool {
    &&& new.len() == old.len()
    &&& forall|i: int| 0 <= i < old.len() ==> #[trigger] member_becomes(old[i], new[i], s)
}

/// A fragment after a change of safety: every function outside an `extern`
/// block gets `plain`, every function of an `extern` block gets `foreign`,
/// and the rest is kept.
pub open spec fn fragment_becomes(f: FragmentView, g: FragmentView, plain: Safety, foreign: Safety) -> bool {
    match (f, g) {
        (FragmentView::Item(ItemView::Fn(a)), FragmentView::Item(ItemView::Fn(b))) => b == Signature {
            constness: a.constness,
            asyncness: a.asyncness,
            safety: plain,
        },
        (FragmentView::Item(ItemView::Impl(ms)), FragmentView::Item(ItemView::Impl(ns))) => members_become(ms, ns, plain),
        (FragmentView::Item(ItemView::Trait(ms)), FragmentView::Item(ItemView::Trait(ns))) => members_become(ms, ns, plain),
        (FragmentView::Item(ItemView::ForeignMod(ms)), FragmentView::Item(ItemView::ForeignMod(ns))) => members_become(
            ms,
            ns,
            foreign,
        ),
        (FragmentView::Item(ItemView::Other(k)), FragmentView::Item(ItemView::Other(k2))) => k2 == k,
        (FragmentView::ImplItem(m), FragmentView::ImplItem(n)) => member_becomes(m, n, plain),
        (FragmentView::TraitItem(m), FragmentView::TraitItem(n)) => member_becomes(m, n, plain),
        (FragmentView::ForeignItem(m), FragmentView::ForeignItem(n)) => member_becomes(m, n, foreign),
        _ => false,
    }
}

/// Changing members makes each of them what `member_becomes` says.
proof fn lemma_members_become(ms: Seq<Member>, make_unsafe: bool, foreign: bool)
    ensures
        unsafe_members(ms, make_unsafe, foreign) matches Ok(v) ==> members_become(
            ms,
            v,
            safety_for(make_unsafe, foreign),
        ),
{
}

/// Where `#[unsafe_]` succeeds, every function it is applied to is
/// `unsafe`, inside an `extern` block or not, and nothing else changes;
/// where `#[safe_]` succeeds, every function of an `extern` block is `safe`,
/// every other function has no safety keyword, and nothing else changes.
pub proof fn safety_of_every_function(f: FragmentView)
    ensures
        unsafe_spec(f, true) matches Ok(g) ==> fragment_becomes(f, g, Safety::Unsafe, Safety::Unsafe),
        unsafe_spec(f, false) matches Ok(g) ==> fragment_becomes(f, g, Safety::Default, Safety::Safe),
{
    match f {
        FragmentView::Item(it) => match it {
            ItemView::Impl(ms) => {
                lemma_members_become(ms, true, false);
                lemma_members_become(ms, false, false);
            },
            ItemView::Trait(ms) => {
                lemma_members_become(ms, true, false);
                lemma_members_become(ms, false, false);
            },
            ItemView::ForeignMod(ms) => {
                lemma_members_become(ms, true, true);
                lemma_members_become(ms, false, true);
            },
            _ => {},
        },
        _ => {},
    }
}

} // verus!
