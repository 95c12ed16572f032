//! `#[async_]` and `#[sync_]`: make a function, or the functions of an
//! `impl` or a trait, `async` or not.
use vstd::prelude::*;

use crate::macros::stream::stream_toks;
use crate::macros::syntax::{fragment_spec, read_fragment};

use crate::macros::item::{
    change_members, lemma_first_refused, lemma_first_refused_same, lemma_members_changed, members_changed, not_parsed, outcome_view, ErrorKind,
    Fragment, FragmentView, Item, ItemView, Location, MacroError, Member, Signature,
};

verus! {

/// A signature with its `async` qualifier set or removed.
pub open spec fn with_async(s: Signature, make_async: bool) -> Signature {
    Signature { constness: s.constness, asyncness: make_async, safety: s.safety }
}

/// Whether a member takes the change: making async asks for a function.
pub open spec fn async_accepts(m: Member, make_async: bool) -> bool {
    m is Fn || !make_async
}

/// A member after the change: a function's signature is changed.
pub open spec fn async_member(m: Member, make_async: bool) -> Member {
    match m {
        Member::Fn(s) => Member::Fn(with_async(s, make_async)),
        Member::Other(_) => m,
    }
}

/// `async_accepts` as a function of the member.
pub open spec fn async_acceptor(make_async: bool) -> spec_fn(Member) -> bool {
    |m: Member| async_accepts(m, make_async)
}

/// `async_member` as a function of the member.
pub open spec fn async_changer(make_async: bool) -> spec_fn(Member) -> Member {
    |m: Member| async_member(m, make_async)
}

/// The refusal on the whole fragment.
pub open spec fn async_refused() -> MacroError {
    MacroError { kind: ErrorKind::AsyncOnNonFunction, at: Location::Whole }
}

/// Sets or removes the `async` qualifier of a signature.
pub fn apply_async_to_fn_sig(sig: &mut Signature, make_async: bool) -> (r: Result<(), MacroError>)
    ensures
        r is Ok,
        *final(sig) == with_async(*old(sig), make_async),
{
    sig.asyncness = make_async;
    Ok(())
}

/// Applies the change to a member: a function is changed; another member is
/// refused when making async, and left as it is otherwise.
fn apply_to_member(item: &mut Member, make_async: bool) -> (r: Result<(), MacroError>)
    ensures
        r is Ok <==> async_accepts(*old(item), make_async),
        r is Ok ==> *final(item) == async_member(*old(item), make_async),
        r is Err ==> *final(item) == *old(item) && r == Err::<(), MacroError>(async_refused()),
{
    match item {
        Member::Fn(sig) => apply_async_to_fn_sig(sig, make_async),
        Member::Other(_) => {
            if !make_async {
                Ok(())
            } else {
                Err(MacroError { kind: ErrorKind::AsyncOnNonFunction, at: Location::Whole })
            }
        },
    }
}

/// Applies the change to a member of an `impl`.
pub fn apply_to_impl_item(item: &mut Member, make_async: bool) -> (r: Result<(), MacroError>)
    ensures
        r is Ok <==> async_accepts(*old(item), make_async),
        r is Ok ==> *final(item) == async_member(*old(item), make_async),
        r is Err ==> *final(item) == *old(item) && r == Err::<(), MacroError>(async_refused()),
{
    apply_to_member(item, make_async)
}

/// Applies the change to a member of a trait.
pub fn apply_to_trait_item(item: &mut Member, make_async: bool) -> (r: Result<(), MacroError>)
    ensures
        r is Ok <==> async_accepts(*old(item), make_async),
        r is Ok ==> *final(item) == async_member(*old(item), make_async),
        r is Err ==> *final(item) == *old(item) && r == Err::<(), MacroError>(async_refused()),
{
    apply_to_member(item, make_async)
}

/// Applies the change to each member in turn, stopping at the first refusal.
fn apply_to_members(items: &mut Vec<Member>, make_async: bool) -> (r: Result<(), MacroError>)
    ensures
        members_changed(
            old(items)@,
            final(items)@,
            r,
            async_acceptor(make_async),
            async_changer(make_async),
            ErrorKind::AsyncOnNonFunction,
        ),
{
    let ghost start = items@;
    let mut i: usize = 0;
    while i < items.len()
        invariant
            i <= items.len(),
            start == old(items)@,
            items@.len() == start.len(),
            forall|j: int| 0 <= j < i ==> #[trigger] async_accepts(start[j], make_async),
            forall|j: int| 0 <= j < i ==> #[trigger] items@[j] == async_member(start[j], make_async),
            forall|j: int| i <= j < items@.len() ==> #[trigger] items@[j] == start[j],
        decreases items.len() - i,
    {
        let res = apply_to_member(&mut items[i], make_async);
        if res.is_err() {
            let e = MacroError { kind: ErrorKind::AsyncOnNonFunction, at: Location::Member(i) };
            proof {
                let k = i as int;
                let acc = async_acceptor(make_async);
                let chg = async_changer(make_async);
                assert(!acc(start[k]));
                assert(forall|j: int| 0 <= j < k ==> #[trigger] acc(start[j]) && items@[j] == chg(
                    start[j],
                ));
            }
            return Err(e);
        }
        i = i + 1;
    }
    Ok(())
}

/// The item after the change, where it is accepted.
pub open spec fn async_item(old: Item, new: Item, r: Result<(), MacroError>, make_async: bool) -> bool {
    match old {
        Item::Fn(s) => r is Ok && new == Item::Fn(with_async(s, make_async)),
        Item::Impl(ms) => new is Impl && members_changed(
            ms@,
            new->Impl_0@,
            r,
            async_acceptor(make_async),
            async_changer(make_async),
            ErrorKind::AsyncOnNonFunction,
        ),
        Item::Trait(ms) => new is Trait && members_changed(
            ms@,
            new->Trait_0@,
            r,
            async_acceptor(make_async),
            async_changer(make_async),
            ErrorKind::AsyncOnNonFunction,
        ),
        _ => new == old && if make_async {
            r == Err::<(), MacroError>(async_refused())
        } else {
            r is Ok
        },
    }
}

/// Applies the change to an item: a function; each member of an `impl` or a
/// trait; any other item is refused when making async, and left as it is
/// otherwise.
pub fn apply_to_item(item: &mut Item, make_async: bool) -> (r: Result<(), MacroError>)
    ensures
        async_item(*old(item), *final(item), r, make_async),
{
    match item {
        Item::Fn(sig) => apply_async_to_fn_sig(sig, make_async),
        Item::Impl(items) => apply_to_members(items, make_async),
        Item::Trait(items) => apply_to_members(items, make_async),
        _ => {
            if !make_async {
                Ok(())
            } else {
                Err(MacroError { kind: ErrorKind::AsyncOnNonFunction, at: Location::Whole })
            }
        },
    }
}

/// What the change makes of a member standing alone.
pub open spec fn async_member_result(m: Member, make_async: bool) -> Result<Member, MacroError> {
    if async_accepts(m, make_async) {
        Ok(async_member(m, make_async))
    } else {
        Err(async_refused())
    }
}

/// What the change makes of an item.
pub open spec fn async_item_spec(it: ItemView, make_async: bool) -> Result<ItemView, MacroError> {
    match it {
        ItemView::Fn(s) => Ok(ItemView::Fn(with_async(s, make_async))),
        ItemView::Impl(ms) => match change_members(
            ms,
            async_acceptor(make_async),
            async_changer(make_async),
            ErrorKind::AsyncOnNonFunction,
        ) {
            Ok(v) => Ok(ItemView::Impl(v)),
            Err(e) => Err(e),
        },
        ItemView::Trait(ms) => match change_members(
            ms,
            async_acceptor(make_async),
            async_changer(make_async),
            ErrorKind::AsyncOnNonFunction,
        ) {
            Ok(v) => Ok(ItemView::Trait(v)),
            Err(e) => Err(e),
        },
        _ => if make_async {
            Err(async_refused())
        } else {
            Ok(it)
        },
    }
}

/// What `#[async_]` (`make_async`) or `#[sync_]` makes of the tokens it is
/// applied to, as `syn` read them: an item, else an `impl` member, else a
/// trait member; anything else is `syn`'s parse error.
pub open spec fn async_spec(f: FragmentView, make_async: bool) -> Result<FragmentView, MacroError> {
    match f {
        FragmentView::Item(it) => match async_item_spec(it, make_async) {
            Ok(v) => Ok(FragmentView::Item(v)),
            Err(e) => Err(e),
        },
        FragmentView::ImplItem(m) => match async_member_result(m, make_async) {
            Ok(v) => Ok(FragmentView::ImplItem(v)),
            Err(e) => Err(e),
        },
        FragmentView::TraitItem(m) => match async_member_result(m, make_async) {
            Ok(v) => Ok(FragmentView::TraitItem(v)),
            Err(e) => Err(e),
        },
        _ => Err(not_parsed()),
    }
}

/// Applies the change to the fragment an attribute is applied to.
fn apply_to_fragment(fragment: Fragment, make_async: bool) -> (r: Result<Fragment, MacroError>)
    ensures
        outcome_view(r) == async_spec(fragment@, make_async),
{
    match fragment {
        Fragment::Item(item) => {
            let mut item = item;
            let ghost before = item;
            let res = apply_to_item(&mut item, make_async);
            proof {
                match before {
                    Item::Impl(ms) => lemma_members_changed(
                        ms@,
                        item->Impl_0@,
                        res,
                        async_acceptor(make_async),
                        async_changer(make_async),
                        ErrorKind::AsyncOnNonFunction,
                    ),
                    Item::Trait(ms) => lemma_members_changed(
                        ms@,
                        item->Trait_0@,
                        res,
                        async_acceptor(make_async),
                        async_changer(make_async),
                        ErrorKind::AsyncOnNonFunction,
                    ),
                    _ => {},
                }
            }
            match res {
                Ok(()) => Ok(Fragment::Item(item)),
                Err(e) => Err(e),
            }
        },
        Fragment::ImplItem(member) => {
            let mut member = member;
            match apply_to_impl_item(&mut member, make_async) {
                Ok(()) => Ok(Fragment::ImplItem(member)),
                Err(e) => Err(e),
            }
        },
        Fragment::TraitItem(member) => {
            let mut member = member;
            match apply_to_trait_item(&mut member, make_async) {
                Ok(()) => Ok(Fragment::TraitItem(member)),
                Err(e) => Err(e),
            }
        },
        _ => Err(MacroError { kind: ErrorKind::NotParsed, at: Location::Whole }),
    }
}

/// `#[async_]`: makes a function `async`, or each function of an `impl` or a
/// trait; refuses anything else.
pub fn async_fragment(fragment: Fragment) -> (r: Result<Fragment, MacroError>)
    ensures
        outcome_view(r) == async_spec(fragment@, true),
{
    apply_to_fragment(fragment, true)
}

/// `#[sync_]`: removes `async` from a function, or from each function of an
/// `impl` or a trait; leaves anything else as it is.
pub fn sync_fragment(fragment: Fragment) -> (r: Result<Fragment, MacroError>)
    ensures
        outcome_view(r) == async_spec(fragment@, false),
{
    apply_to_fragment(fragment, false)
}

/// Changing members twice: the second change decides.
proof fn lemma_members_last_wins(ms: Seq<Member>, a: bool, b: bool)
    ensures
        change_members(ms, async_acceptor(a), async_changer(a), ErrorKind::AsyncOnNonFunction) matches Ok(
            v,
        ) ==> change_members(v, async_acceptor(b), async_changer(b), ErrorKind::AsyncOnNonFunction)
            == change_members(ms, async_acceptor(b), async_changer(b), ErrorKind::AsyncOnNonFunction),
{
    let k = ErrorKind::AsyncOnNonFunction;
    if let Ok(v) = change_members(ms, async_acceptor(a), async_changer(a), k) {
        assert forall|i: int| 0 <= i < v.len() implies async_acceptor(b)(#[trigger] v[i])
            == async_acceptor(b)(ms[i]) by {}
        lemma_first_refused_same(v, ms, async_acceptor(b), async_acceptor(b));
        let w1 = Seq::new(v.len(), |i: int| async_changer(b)(v[i]));
        let w2 = Seq::new(ms.len(), |i: int| async_changer(b)(ms[i]));
        assert(w1 =~= w2);
    }
}

/// Of `#[async_]` and `#[sync_]`, the later one decides: once one of them
/// has been applied, applying either gives what it gives on the unchanged
/// tokens. In particular, applying one twice is applying it once.
pub proof fn async_last_wins(f: FragmentView, a: bool, b: bool)
    ensures
        async_spec(f, a) matches Ok(g) ==> async_spec(g, b) == async_spec(f, b),
{
    match f {
        FragmentView::Item(it) => match it {
            ItemView::Impl(ms) => lemma_members_last_wins(ms, a, b),
            ItemView::Trait(ms) => lemma_members_last_wins(ms, a, b),
            _ => {},
        },
        _ => {},
    }
}

/// `#[sync_]` refuses nothing that `syn` read.
pub proof fn sync_refuses_nothing(f: FragmentView)
    requires
        !(f is Unparsed),
        !(f is ForeignItem),
    ensures
        async_spec(f, false) is Ok,
{
    if let FragmentView::Item(it) = f {
        match it {
            ItemView::Impl(ms) => {
                lemma_first_refused(ms, async_acceptor(false));
            },
            ItemView::Trait(ms) => {
                lemma_first_refused(ms, async_acceptor(false));
            },
            _ => {},
        }
    }
}


/// `#[async_]` on the tokens it is applied to, as `syn` reads them.
pub fn async_(item: &proc_macro2::TokenStream) -> (r: Result<Fragment, MacroError>)
    ensures
        outcome_view(r) == async_spec(fragment_spec(stream_toks(*item), false), true),
{
    async_fragment(read_fragment(item, false))
}

/// `#[sync_]` on the tokens it is applied to, as `syn` reads them.
pub fn sync_(item: &proc_macro2::TokenStream) -> (r: Result<Fragment, MacroError>)
    ensures
        outcome_view(r) == async_spec(fragment_spec(stream_toks(*item), false), false),
{
    sync_fragment(read_fragment(item, false))
}

} // verus!
