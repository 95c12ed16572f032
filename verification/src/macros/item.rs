//! A plain model of the items that the attributes rewrite: their kinds and
//! the qualifiers of their function signatures.
use vstd::prelude::*;

verus! {

/// The kind of an item, as `syn` reads it.
#[derive(Clone, Copy, Debug, PartialEq, Eq, Structural)]
pub enum ItemKind {
    Const,
    Enum,
    ExternCrate,
    Fn,
    ForeignMod,
    Impl,
    Macro,
    Mod,
    Static,
    Struct,
    Trait,
    TraitAlias,
    Type,
    Union,
    Use,
    /// Tokens that `syn` reads as an item of no kind it knows.
    Verbatim,
}

/// The kind of an item inside an `impl`, a trait or an `extern` block.
#[derive(Clone, Copy, Debug, PartialEq, Eq, Structural)]
pub enum MemberKind {
    Const,
    Fn,
    Static,
    Type,
    Macro,
    Verbatim,
}

/// The safety qualifier of a function.
#[derive(Clone, Copy, Debug, PartialEq, Eq, Structural)]
pub enum Safety {
    /// Neither `safe` nor `unsafe`.
    Default,
    Unsafe,
    Safe,
}

/// The qualifiers of a function signature: `const`, `async`, and safety.
#[derive(Clone, Copy, Debug, PartialEq, Eq, Structural)]
pub struct Signature {
    pub constness: bool,
    pub asyncness: bool,
    pub safety: Safety,
}

/// An item inside an `impl`, a trait or an `extern` block: a function, by its
/// signature, or another kind of member.
#[derive(Clone, Copy, Debug, PartialEq, Eq, Structural)]
pub enum Member {
    Fn(Signature),
    Other(MemberKind),
}

/// An item: a function, an `impl`, a trait or an `extern` block with its
/// members, or another kind of item.
pub enum Item {
    Fn(Signature),
    Impl(Vec<Member>),
    Trait(Vec<Member>),
    ForeignMod(Vec<Member>),
    Other(ItemKind),
}

/// What an attribute is applied to, as `syn` reads the tokens: an item, or
/// failing that a member of an `impl`, of a trait, or of an `extern` block;
/// or nothing `syn` could read.
pub enum Fragment {
    Item(Item),
    ImplItem(Member),
    TraitItem(Member),
    ForeignItem(Member),
    Unparsed,
}

/// Where an attribute was refused: on the whole fragment, on one member of
/// it, by index, or on the attribute's argument.
#[derive(Clone, Copy, Debug, PartialEq, Eq, Structural)]
pub enum Location {
    Whole,
    Member(usize),
    Argument,
}

/// Why an attribute was refused.
#[derive(Clone, Copy, Debug, PartialEq, Eq, Structural)]
pub enum ErrorKind {
    /// `#[async_]` on what is not a function.
    AsyncOnNonFunction,
    /// `#[unsafe_]` on what is not a function.
    UnsafeOnNonFunction,
    /// `#[const_]` on what is not a function, a trait or an `impl`.
    ConstOnOther,
    /// A visibility on an item that has none.
    ItemWithoutVisibility,
    /// A visibility on an `impl` member that has none.
    ImplItemWithoutVisibility,
    /// A visibility on a trait member.
    TraitItemVisibility,
    /// A condition attribute on an item that takes no attributes.
    UnsupportedItem,
    /// The tokens are not an item: `syn`'s own error stands.
    NotParsed,
    /// The attribute's argument is not a condition.
    BadCondition,
    /// No comma after the condition of `#[reta_attr]`.
    MissingComma,
    /// What follows the condition's comma in `#[reta_attr]` is not an
    /// attribute.
    BadAttribute,
    /// More tokens after the attribute of `#[reta_attr]`.
    TokensAfterAttribute,
    /// More tokens after the condition of `reta_if!`.
    TokensAfterCondition,
    /// The argument of `#[pub_in]` is not a path.
    BadPath,
}

/// A refusal: why, and where.
#[derive(Clone, Copy, Debug, PartialEq, Eq, Structural)]
pub struct MacroError {
    pub kind: ErrorKind,
    pub at: Location,
}

/// The message of each refusal; `syn` gives its own for `NotParsed`.
pub open spec fn error_message(k: ErrorKind) -> Seq<char> {
    match k {
        ErrorKind::AsyncOnNonFunction => "#[async_] can only be applied to functions"@,
        ErrorKind::UnsafeOnNonFunction => "#[unsafe_] can only be applied to functions"@,
        ErrorKind::ConstOnOther => "#[const_] can only be applied to functions, traits, and impls"@,
        ErrorKind::ItemWithoutVisibility => "this item does not support visibility"@,
        ErrorKind::ImplItemWithoutVisibility => "this impl item does not support visibility"@,
        ErrorKind::TraitItemVisibility => "trait items cannot have visibility"@,
        ErrorKind::UnsupportedItem => "unsupported item type for reta/reta_attr"@,
        ErrorKind::NotParsed => "expected an item"@,
        ErrorKind::BadCondition => "expected a condition"@,
        ErrorKind::MissingComma => "expected `,`"@,
        ErrorKind::BadAttribute => "expected an attribute"@,
        ErrorKind::TokensAfterAttribute => "unexpected tokens after attribute"@,
        ErrorKind::TokensAfterCondition => "unexpected tokens after condition"@,
        ErrorKind::BadPath => "expected a path"@,
    }
}

impl ErrorKind {
    /// The message that the compile error carries.
    pub fn message(&self) -> (r: &'static str)
        ensures
            r@ == error_message(*self),
    {
        match self {
            ErrorKind::AsyncOnNonFunction => "#[async_] can only be applied to functions",
            ErrorKind::UnsafeOnNonFunction => "#[unsafe_] can only be applied to functions",
            ErrorKind::ConstOnOther => "#[const_] can only be applied to functions, traits, and impls",
            ErrorKind::ItemWithoutVisibility => "this item does not support visibility",
            ErrorKind::ImplItemWithoutVisibility => "this impl item does not support visibility",
            ErrorKind::TraitItemVisibility => "trait items cannot have visibility",
            ErrorKind::UnsupportedItem => "unsupported item type for reta/reta_attr",
            ErrorKind::NotParsed => "expected an item",
            ErrorKind::BadCondition => "expected a condition",
            ErrorKind::MissingComma => "expected `,`",
            ErrorKind::BadAttribute => "expected an attribute",
            ErrorKind::TokensAfterAttribute => "unexpected tokens after attribute",
            ErrorKind::TokensAfterCondition => "unexpected tokens after condition",
            ErrorKind::BadPath => "expected a path",
        }
    }
}

/// The outcome of changing each member in turn and stopping at the first
/// one refused: either every member is accepted and changed, or the error
/// names the first refused member, those before it are changed and the
/// others are as they were.
pub open spec fn members_changed(
    old: Seq<Member>,
    new: Seq<Member>,
    r: Result<(), MacroError>,
    accepts: spec_fn(Member) -> bool,
    change: spec_fn(Member) -> Member,
    kind: ErrorKind,
) -> bool {
    &&& new.len() == old.len()
    &&& match r {
        Ok(_) => {
            &&& forall|i: int| 0 <= i < old.len() ==> #[trigger] accepts(old[i])
            &&& forall|i: int| 0 <= i < old.len() ==> #[trigger] new[i] == change(old[i])
        },
        Err(e) => exists|k: int|
            {
                &&& 0 <= k < old.len()
                &&& e == MacroError { kind, at: Location::Member(k as usize) }
                &&& !accepts(#[trigger] old[k])
                &&& forall|i: int| 0 <= i < k ==> #[trigger] accepts(old[i]) && new[i] == change(old[i])
                &&& forall|i: int| k <= i < old.len() ==> #[trigger] new[i] == old[i]
            },
    }
}

/// The index of the first member that is not accepted, if there is one.
pub open spec fn first_refused(ms: Seq<Member>, accepts: spec_fn(Member) -> bool) -> Option<int>
    decreases ms.len(),
{
    if ms.len() == 0 {
        None
    } else {
        match first_refused(ms.drop_last(), accepts) {
            Some(k) => Some(k),
            None => if !accepts(ms.last()) {
                Some(ms.len() - 1)
            } else {
                None
            },
        }
    }
}

/// Changing each member, or the refusal of the first member not accepted.
pub open spec fn change_members(
    ms: Seq<Member>,
    accepts: spec_fn(Member) -> bool,
    change: spec_fn(Member) -> Member,
    kind: ErrorKind,
) -> Result<Seq<Member>, MacroError> {
    match first_refused(ms, accepts) {
        Some(k) => Err(MacroError { kind, at: Location::Member(k as usize) }),
        None => Ok(Seq::new(ms.len(), |i: int| change(ms[i]))),
    }
}

/// `first_refused` is the least index of a member not accepted.
pub proof fn lemma_first_refused(ms: Seq<Member>, accepts: spec_fn(Member) -> bool)
    ensures
        first_refused(ms, accepts) matches Some(k) ==> 0 <= k < ms.len() && !accepts(ms[k])
            && forall|j: int| 0 <= j < k ==> #[trigger] accepts(ms[j]),
        first_refused(ms, accepts) is None ==> forall|j: int|
            0 <= j < ms.len() ==> #[trigger] accepts(ms[j]),
    decreases ms.len(),
{
    if ms.len() > 0 {
        lemma_first_refused(ms.drop_last(), accepts);
        assert(forall|j: int| 0 <= j < ms.len() - 1 ==> ms.drop_last()[j] == ms[j]);
    }
}

/// `first_refused` reads only which members are accepted.
pub proof fn lemma_first_refused_same(
    a: Seq<Member>,
    b: Seq<Member>,
    acc_a: spec_fn(Member) -> bool,
    acc_b: spec_fn(Member) -> bool,
)
    requires
        a.len() == b.len(),
        forall|i: int| 0 <= i < a.len() ==> acc_a(#[trigger] a[i]) == acc_b(b[i]),
    ensures
        first_refused(a, acc_a) == first_refused(b, acc_b),
{
    lemma_first_refused(a, acc_a);
    lemma_first_refused(b, acc_b);
    match (first_refused(a, acc_a), first_refused(b, acc_b)) {
        (Some(k1), Some(k2)) => {
            if k1 < k2 {
                assert(acc_b(b[k1]));
            } else if k2 < k1 {
                assert(acc_a(a[k2]));
            }
        },
        (Some(k1), None) => {
            assert(acc_b(b[k1]));
        },
        (None, Some(k2)) => {
            assert(acc_a(a[k2]));
        },
        (None, None) => {},
    }
}

/// The relational account of changing members, read as a function.
pub proof fn lemma_members_changed(
    old: Seq<Member>,
    new: Seq<Member>,
    r: Result<(), MacroError>,
    accepts: spec_fn(Member) -> bool,
    change: spec_fn(Member) -> Member,
    kind: ErrorKind,
)
    requires
        members_changed(old, new, r, accepts, change, kind),
    ensures
        match change_members(old, accepts, change, kind) {
            Ok(v) => r is Ok && new == v,
            Err(e) => r == Err::<(), MacroError>(e),
        },
{
    lemma_first_refused(old, accepts);
    match r {
        Ok(_) => {
            assert(new =~= Seq::new(old.len(), |i: int| change(old[i])));
        },
        Err(e) => {
            let k = choose|k: int|
                {
                    &&& 0 <= k < old.len()
                    &&& e == MacroError { kind, at: Location::Member(k as usize) }
                    &&& !accepts(#[trigger] old[k])
                    &&& forall|i: int|
                        0 <= i < k ==> #[trigger] accepts(old[i]) && new[i] == change(old[i])
                    &&& forall|i: int| k <= i < old.len() ==> #[trigger] new[i] == old[i]
                };
            match first_refused(old, accepts) {
                Some(k2) => {
                    if k2 < k {
                        assert(accepts(old[k2]));
                    } else if k < k2 {
                        assert(accepts(old[k]));
                    }
                },
                None => {
                    assert(accepts(old[k]));
                },
            }
        },
    }
}

/// The mathematical view of an item.
pub ghost enum ItemView {
    Fn(Signature),
    Impl(Seq<Member>),
    Trait(Seq<Member>),
    ForeignMod(Seq<Member>),
    Other(ItemKind),
}

impl View for Item {
    type V = ItemView;

    open spec fn view(&self) -> ItemView {
        match *self {
            Item::Fn(s) => ItemView::Fn(s),
            Item::Impl(ms) => ItemView::Impl(ms@),
            Item::Trait(ms) => ItemView::Trait(ms@),
            Item::ForeignMod(ms) => ItemView::ForeignMod(ms@),
            Item::Other(k) => ItemView::Other(k),
        }
    }
}

/// The mathematical view of a fragment.
pub ghost enum FragmentView {
    Item(ItemView),
    ImplItem(Member),
    TraitItem(Member),
    ForeignItem(Member),
    Unparsed,
}

impl View for Fragment {
    type V = FragmentView;

    open spec fn view(&self) -> FragmentView {
        match *self {
            Fragment::Item(it) => FragmentView::Item(it@),
            Fragment::ImplItem(m) => FragmentView::ImplItem(m),
            Fragment::TraitItem(m) => FragmentView::TraitItem(m),
            Fragment::ForeignItem(m) => FragmentView::ForeignItem(m),
            Fragment::Unparsed => FragmentView::Unparsed,
        }
    }
}

/// What the tokens are read as, given each of `syn`'s readings of them
/// (none where that parser refused them): the item, else the `impl` member,
/// else the trait member, else, where members of `extern` blocks are read
/// (`foreign`), that member; else nothing.
pub open spec fn chosen_fragment(
    item: Option<ItemView>,
    impl_item: Option<Member>,
    trait_item: Option<Member>,
    foreign_item: Option<Member>,
    foreign: bool,
) -> FragmentView {
    if item is Some {
        FragmentView::Item(item.unwrap())
    } else if impl_item is Some {
        FragmentView::ImplItem(impl_item.unwrap())
    } else if trait_item is Some {
        FragmentView::TraitItem(trait_item.unwrap())
    } else if foreign && foreign_item is Some {
        FragmentView::ForeignItem(foreign_item.unwrap())
    } else {
        FragmentView::Unparsed
    }
}

/// Chooses what the tokens are read as, from `syn`'s readings of them as an
/// item, an `impl` member, a trait member and a member of an `extern` block.
pub fn choose_fragment(
    item: Option<Item>,
    impl_item: Option<Member>,
    trait_item: Option<Member>,
    foreign_item: Option<Member>,
    foreign: bool,
) -> (r: Fragment)
    ensures
        r@ == chosen_fragment(
            match item {
                Some(i) => Some(i@),
                None => None,
            },
            impl_item,
            trait_item,
            foreign_item,
            foreign,
        ),
{
    match item {
        Some(i) => Fragment::Item(i),
        None => match impl_item {
            Some(m) => Fragment::ImplItem(m),
            None => match trait_item {
                Some(m) => Fragment::TraitItem(m),
                None => match foreign_item {
                    Some(m) => if foreign {
                        Fragment::ForeignItem(m)
                    } else {
                        Fragment::Unparsed
                    },
                    None => Fragment::Unparsed,
                },
            },
        },
    }
}

/// The view of what a macro makes of a fragment.
pub open spec fn outcome_view(r: Result<Fragment, MacroError>) -> Result<FragmentView, MacroError> {
    match r {
        Ok(f) => Ok(f@),
        Err(e) => Err(e),
    }
}

/// The refusal of tokens that are not an item.
pub open spec fn not_parsed() -> MacroError {
    MacroError { kind: ErrorKind::NotParsed, at: Location::Whole }
}

} // verus!
