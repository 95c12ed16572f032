use reta::macros::con_::{
    get_const_kind_from_bound, remove_const_prefix, transform_trait_bounds_for_const, Bound,
    ConstItem, ConstKind, ConstOutput, ConstTarget, PathSegment, Predicate, TraitBound,
    TraitHeader,
};
use reta::macros::item::{
    ErrorKind, Fragment, Item, ItemKind, Location, MacroError, Member, MemberKind, Safety,
    Signature,
};
use reta::macros::tokens::{Spacing, TokenTree};
use reta::macros::item::choose_fragment;
use reta::macros::vis::{choose_declaration, Declaration, VisImplItem, VisItem, Visibility};
use reta::macros::asy::{async_fragment, sync_fragment};
use reta::macros::saf::{safe_fragment, unsafe_fragment};
use reta::macros::vis::{priv_decl, pub_crate_decl, pub_decl, pub_in_decl, pub_super_decl};
use reta::macros::con_::{const_target, dyn_target};
use reta::macros::layout::print_const;
use reta::macros::syntax::read_declaration;
use proc_macro2::{Delimiter as D, Group, Ident, Punct, Spacing as S, Span};
use reta::{async_, const_, dyn_, priv_, pub_, pub_in, safe_, unsafe_};

fn sig() -> Signature {
    Signature { constness: false, asyncness: false, safety: Safety::Default }
}

fn refused(kind: ErrorKind, at: Location) -> Option<MacroError> {
    Some(MacroError { kind, at })
}

fn item_fn(f: Fragment) -> Signature {
    match f {
        Fragment::Item(Item::Fn(s)) => s,
        _ => panic!("not a function item"),
    }
}

fn members(f: Fragment) -> Vec<Member> {
    match f {
        Fragment::Item(Item::Impl(ms)) | Fragment::Item(Item::Trait(ms))
        | Fragment::Item(Item::ForeignMod(ms)) => ms,
        _ => panic!("no members"),
    }
}

#[test]
fn async_makes_functions_async() {
    let s = item_fn(async_fragment(Fragment::Item(Item::Fn(sig()))).unwrap());
    assert!(s.asyncness);
    assert!(!s.constness);
    let ms = members(
        async_fragment(Fragment::Item(Item::Impl(vec![Member::Fn(sig()), Member::Fn(sig())]))).unwrap(),
    );
    assert!(ms.iter().all(|m| matches!(m, Member::Fn(s) if s.asyncness)));
    let f = async_fragment(Fragment::TraitItem(Member::Fn(sig()))).unwrap();
    assert!(matches!(f, Fragment::TraitItem(Member::Fn(s)) if s.asyncness));
}

#[test]
fn async_refuses_other_items() {
    let e = async_fragment(Fragment::Item(Item::Other(ItemKind::Struct))).err();
    assert_eq!(e, refused(ErrorKind::AsyncOnNonFunction, Location::Whole));
    let e = async_fragment(Fragment::Item(Item::Impl(vec![
        Member::Fn(sig()),
        Member::Other(MemberKind::Const),
        Member::Other(MemberKind::Type),
    ])))
    .err();
    assert_eq!(e, refused(ErrorKind::AsyncOnNonFunction, Location::Member(1)));
    let e = async_fragment(Fragment::ImplItem(Member::Other(MemberKind::Type))).err();
    assert_eq!(e, refused(ErrorKind::AsyncOnNonFunction, Location::Whole));
    // Neither `#[async_]` nor `#[sync_]` reads members of an `extern` block.
    let e = sync_fragment(Fragment::ForeignItem(Member::Fn(sig()))).err();
    assert_eq!(e, refused(ErrorKind::NotParsed, Location::Whole));
    let e = async_fragment(Fragment::Unparsed).err();
    assert_eq!(e, refused(ErrorKind::NotParsed, Location::Whole));
}

#[test]
fn sync_removes_async_and_refuses_nothing() {
    let s = Signature { asyncness: true, ..sig() };
    assert!(!item_fn(sync_fragment(Fragment::Item(Item::Fn(s))).unwrap()).asyncness);
    let ms = members(
        sync_fragment(Fragment::Item(Item::Trait(vec![Member::Other(MemberKind::Const), Member::Fn(s)])))
            .unwrap(),
    );
    assert_eq!(ms, vec![Member::Other(MemberKind::Const), Member::Fn(sig())]);
    assert!(sync_fragment(Fragment::Item(Item::Other(ItemKind::Enum))).is_ok());
    assert!(sync_fragment(Fragment::Item(Item::ForeignMod(vec![]))).is_ok());
}

#[test]
fn async_then_sync_is_sync() {
    let start = || Fragment::Item(Item::Impl(vec![Member::Fn(sig()), Member::Fn(sig())]));
    let once = members(sync_fragment(start()).unwrap());
    let twice = members(sync_fragment(async_fragment(start()).unwrap()).unwrap());
    assert_eq!(once, twice);
    let again = members(async_fragment(async_fragment(start()).unwrap()).unwrap());
    assert_eq!(again, members(async_fragment(start()).unwrap()));
}

#[test]
fn unsafe_and_safe() {
    let s = item_fn(unsafe_fragment(Fragment::Item(Item::Fn(sig()))).unwrap());
    assert_eq!(s.safety, Safety::Unsafe);
    let u = Signature { safety: Safety::Unsafe, ..sig() };
    // Made safe, a function loses `unsafe`; inside `extern` it is marked `safe`.
    assert_eq!(item_fn(safe_fragment(Fragment::Item(Item::Fn(u))).unwrap()).safety, Safety::Default);
    let ms = members(safe_fragment(Fragment::Item(Item::ForeignMod(vec![Member::Fn(u)]))).unwrap());
    assert_eq!(ms, vec![Member::Fn(Signature { safety: Safety::Safe, ..sig() })]);
    let f = safe_fragment(Fragment::ForeignItem(Member::Fn(u))).unwrap();
    assert!(matches!(f, Fragment::ForeignItem(Member::Fn(s)) if s.safety == Safety::Safe));
    let f = unsafe_fragment(Fragment::ImplItem(Member::Fn(sig()))).unwrap();
    assert!(matches!(f, Fragment::ImplItem(Member::Fn(s)) if s.safety == Safety::Unsafe));
}

#[test]
fn unsafe_refuses_other_items() {
    let e = unsafe_fragment(Fragment::Item(Item::ForeignMod(vec![
        Member::Fn(sig()),
        Member::Fn(sig()),
        Member::Other(MemberKind::Static),
    ])))
    .err();
    assert_eq!(e, refused(ErrorKind::UnsafeOnNonFunction, Location::Member(2)));
    let e = unsafe_fragment(Fragment::Item(Item::Other(ItemKind::Static))).err();
    assert_eq!(e, refused(ErrorKind::UnsafeOnNonFunction, Location::Whole));
    assert!(safe_fragment(Fragment::Item(Item::Other(ItemKind::Static))).is_ok());
    let e = safe_fragment(Fragment::Unparsed).err();
    assert_eq!(e, refused(ErrorKind::NotParsed, Location::Whole));
}

#[test]
fn unsafe_then_safe_is_safe() {
    let start = || Fragment::Item(Item::Trait(vec![Member::Fn(sig())]));
    assert_eq!(members(safe_fragment(unsafe_fragment(start()).unwrap()).unwrap()), members(safe_fragment(start()).unwrap()));
}

fn vis_item(kind: ItemKind) -> Declaration {
    Declaration::Item(VisItem { kind, vis: Visibility::Inherited })
}

fn vis_of(d: Declaration) -> String {
    let v = match d {
        Declaration::Item(i) => i.vis,
        Declaration::ImplItem(i) => i.vis,
        _ => return String::from("no visibility"),
    };
    match v {
        Visibility::Public => String::from("pub"),
        Visibility::Crate => String::from("pub(crate)"),
        Visibility::Super => String::from("pub(super)"),
        Visibility::InPath(p) => format!("pub(in {} tokens)", p.len()),
        Visibility::Inherited => String::from("private"),
    }
}

#[test]
fn visibility_on_items() {
    assert_eq!(vis_of(pub_decl(vis_item(ItemKind::Struct)).unwrap()), "pub");
    assert_eq!(vis_of(pub_crate_decl(vis_item(ItemKind::Fn)).unwrap()), "pub(crate)");
    assert_eq!(vis_of(pub_super_decl(vis_item(ItemKind::Use)).unwrap()), "pub(super)");
    let ts = |s: &str| -> proc_macro2::TokenStream { s.parse().unwrap() };
    assert_eq!(vis_of(pub_in_decl(&ts("crate"), vis_item(ItemKind::Mod)).unwrap()), "pub(in 1 tokens)");
    // `crate::a` is read by `syn` as a path of four tokens (`::` is two).
    assert_eq!(vis_of(pub_in_decl(&ts("crate::a"), vis_item(ItemKind::Mod)).unwrap()), "pub(in 4 tokens)");
    // What is no path is refused.
    assert_eq!(pub_in_decl(&ts("a b"), vis_item(ItemKind::Mod)).err(), refused(ErrorKind::BadPath, Location::Argument));
    let d = Declaration::Item(VisItem { kind: ItemKind::Const, vis: Visibility::Public });
    assert_eq!(vis_of(priv_decl(d).unwrap()), "private");
}

#[test]
fn visibility_refusals() {
    let e = pub_decl(vis_item(ItemKind::Impl)).err();
    assert_eq!(e, refused(ErrorKind::ItemWithoutVisibility, Location::Whole));
    assert!(priv_decl(vis_item(ItemKind::Impl)).is_ok());
    let d = Declaration::ImplItem(VisImplItem { kind: MemberKind::Macro, vis: Visibility::Inherited });
    assert_eq!(pub_decl(d).err(), refused(ErrorKind::ImplItemWithoutVisibility, Location::Whole));
    let d = Declaration::ImplItem(VisImplItem { kind: MemberKind::Fn, vis: Visibility::Inherited });
    assert_eq!(vis_of(pub_crate_decl(d).unwrap()), "pub(crate)");
    let e = pub_decl(Declaration::TraitItem(MemberKind::Fn)).err();
    assert_eq!(e, refused(ErrorKind::TraitItemVisibility, Location::Whole));
    assert!(priv_decl(Declaration::TraitItem(MemberKind::Fn)).is_ok());
    assert_eq!(priv_decl(Declaration::Unparsed).err(), refused(ErrorKind::NotParsed, Location::Whole));
}

#[test]
fn visibility_last_wins() {
    let d = pub_decl(vis_item(ItemKind::Trait)).unwrap();
    assert_eq!(vis_of(pub_crate_decl(d).unwrap()), "pub(crate)");
}

fn seg(s: &str) -> PathSegment {
    PathSegment { ident: s.to_string(), arguments: vec![] }
}

fn bound(segs: &[&str]) -> TraitBound {
    TraitBound { leading_colon: false, segments: segs.iter().map(|s| seg(s)).collect() }
}

fn path_of(b: &Bound) -> String {
    match b {
        Bound::Trait(t) => {
            let names: Vec<String> = t.segments.iter().map(|s| s.ident.clone()).collect();
            format!("{}{}", if t.leading_colon { "::" } else { "" }, names.join("::"))
        }
        Bound::Other => String::from("'a"),
    }
}

#[test]
fn const_kind_and_prefix() {
    assert_eq!(get_const_kind_from_bound(&bound(&["reta_const", "Default"])), ConstKind::Const);
    assert_eq!(get_const_kind_from_bound(&bound(&["reta_maybe_const", "Eq"])), ConstKind::MaybeConst);
    assert_eq!(get_const_kind_from_bound(&bound(&["core", "Default"])), ConstKind::Plain);
    let mut b = bound(&["reta_const", "crate_", "Foo"]);
    remove_const_prefix(&mut b);
    assert_eq!(path_of(&Bound::Trait(b)), "crate::Foo");
    let mut b = bound(&["reta_const", "__", "core", "Default"]);
    remove_const_prefix(&mut b);
    assert_eq!(path_of(&Bound::Trait(b)), "::core::Default");
    let mut b = bound(&["reta_const"]);
    remove_const_prefix(&mut b);
    assert_eq!(path_of(&Bound::Trait(b)), "reta_const");
}

#[test]
fn const_rewrites_trait_bounds() {
    let header = TraitHeader {
        supertraits: vec![
            Bound::Trait(bound(&["Clone"])),
            Bound::Other,
            Bound::Trait(bound(&["reta_const", "Default"])),
        ],
        predicates: vec![
            Predicate::Other,
            Predicate::Type(vec![Bound::Trait(bound(&["reta_maybe_const", "crate_", "Eq"]))]),
        ],
    };
    match const_target(ConstTarget::Trait(header)).unwrap() {
        ConstOutput::Trait(h, p) => {
            assert!(p.constness);
            let names: Vec<String> = h.supertraits.iter().map(path_of).collect();
            assert_eq!(names, vec!["Clone", "'a", "Default"]);
            assert_eq!(p.supertraits, vec![ConstKind::Plain, ConstKind::Plain, ConstKind::Const]);
            match &h.predicates[1] {
                Predicate::Type(bs) => assert_eq!(path_of(&bs[0]), "crate::Eq"),
                Predicate::Other => panic!("predicate lost"),
            }
            assert_eq!(p.predicates, vec![vec![], vec![ConstKind::MaybeConst]]);
        }
        _ => panic!("not a trait"),
    }
}

#[test]
fn dyn_rewrites_trait_without_modifiers() {
    let header = TraitHeader {
        supertraits: vec![Bound::Trait(bound(&["reta_const", "Default"]))],
        predicates: vec![Predicate::Type(vec![Bound::Trait(bound(&["reta_const", "Eq"]))])],
    };
    match dyn_target(ConstTarget::Trait(header)).unwrap() {
        ConstOutput::Trait(h, p) => {
            assert!(!p.constness);
            assert_eq!(path_of(&h.supertraits[0]), "Default");
            assert_eq!(p.supertraits, vec![ConstKind::Plain]);
            assert_eq!(p.predicates, vec![vec![ConstKind::Plain]]);
        }
        _ => panic!("not a trait"),
    }
}

#[test]
fn transform_reports_each_trait_bound() {
    let mut header = TraitHeader {
        supertraits: vec![Bound::Trait(bound(&["Send"])), Bound::Trait(bound(&["reta_const", "A"]))],
        predicates: vec![],
    };
    let kinds = transform_trait_bounds_for_const(&mut header);
    assert_eq!(kinds, vec![ConstKind::Plain, ConstKind::Const]);
}

#[test]
fn const_on_functions_impls_and_others() {
    match const_target(ConstTarget::Item(ConstItem::Fn(sig()))).unwrap() {
        ConstOutput::Item(ConstItem::Fn(s)) => assert!(s.constness),
        _ => panic!("not a function"),
    }
    let c = Signature { constness: true, ..sig() };
    match dyn_target(ConstTarget::Item(ConstItem::Fn(c))).unwrap() {
        ConstOutput::Item(ConstItem::Fn(s)) => assert!(!s.constness),
        _ => panic!("not a function"),
    }
    // An `impl` header: `T: reta_const::Default` as a parameter's bound, and
    // `T: reta_maybe_const::Clone` in the `where` clause.
    let header = || TraitHeader {
        supertraits: vec![],
        predicates: vec![
            Predicate::Type(vec![Bound::Trait(bound(&["reta_const", "Default"]))]),
            Predicate::Type(vec![Bound::Trait(bound(&["reta_maybe_const", "Clone"]))]),
        ],
    };
    match const_target(ConstTarget::Impl(header())).unwrap() {
        ConstOutput::Impl(h, p) => {
            assert!(p.constness);
            assert_eq!(p.predicates, vec![vec![ConstKind::Const], vec![ConstKind::MaybeConst]]);
            match (&h.predicates[0], &h.predicates[1]) {
                (Predicate::Type(a), Predicate::Type(b)) => {
                    assert_eq!(path_of(&a[0]), "Default");
                    assert_eq!(path_of(&b[0]), "Clone");
                }
                _ => panic!("not type predicates"),
            }
        }
        _ => panic!("not an impl"),
    }
    match dyn_target(ConstTarget::Impl(header())).unwrap() {
        ConstOutput::Impl(_, p) => {
            assert!(!p.constness);
            assert_eq!(p.predicates, vec![vec![ConstKind::Plain], vec![ConstKind::Plain]]);
        }
        _ => panic!("not an impl"),
    }
    let e = const_target(ConstTarget::Item(ConstItem::Other(ItemKind::Struct))).err();
    assert_eq!(e, refused(ErrorKind::ConstOnOther, Location::Whole));
    assert!(dyn_target(ConstTarget::Item(ConstItem::Other(ItemKind::Struct))).is_ok());
    assert_eq!(const_target(ConstTarget::Unparsed).err(), refused(ErrorKind::NotParsed, Location::Whole));
}

#[test]
fn readings_are_chosen_in_order() {
    let m = Member::Fn(sig());
    assert!(matches!(
        choose_fragment(Some(Item::Fn(sig())), Some(m), Some(m), Some(m), true),
        Fragment::Item(Item::Fn(_))
    ));
    assert!(matches!(choose_fragment(None, Some(m), Some(m), None, false), Fragment::ImplItem(_)));
    assert!(matches!(choose_fragment(None, None, Some(m), Some(m), true), Fragment::TraitItem(_)));
    assert!(matches!(choose_fragment(None, None, None, Some(m), true), Fragment::ForeignItem(_)));
    // A member of an `extern` block counts only where such members are read.
    assert!(matches!(choose_fragment(None, None, None, Some(m), false), Fragment::Unparsed));
    let v = VisImplItem { kind: MemberKind::Fn, vis: Visibility::Inherited };
    assert!(matches!(choose_declaration(None, Some(v), Some(MemberKind::Fn)), Declaration::ImplItem(_)));
    assert!(matches!(choose_declaration(None, None, Some(MemberKind::Type)), Declaration::TraitItem(MemberKind::Type)));
    assert!(matches!(choose_declaration(None, None, None), Declaration::Unparsed));
}

fn ts(s: &str) -> proc_macro2::TokenStream {
    s.parse().unwrap()
}

#[test]
fn attributes_read_their_tokens() {
    // A function is made async, unsafe, or safe where `syn` reads it.
    match async_(&ts("fn f() {}")).unwrap() {
        Fragment::Item(Item::Fn(s)) => assert!(s.asyncness),
        _ => panic!("not a function"),
    }
    match unsafe_(&ts("impl S { fn a() {} const C: u8 = 0; }")).err() {
        Some(e) => assert_eq!(e, MacroError { kind: ErrorKind::UnsafeOnNonFunction, at: Location::Member(1) }),
        None => panic!("accepted"),
    }
    // `#[safe_]` removes `unsafe` from a function that is an item.
    assert!(matches!(safe_(&ts("unsafe fn g() {}")).unwrap(), Fragment::Item(Item::Fn(s)) if s.safety == Safety::Default));
    assert!(matches!(
        async_(&ts("pub fn h(&self) {}")).unwrap(),
        Fragment::Item(Item::Fn(_))
    ));
    assert_eq!(async_(&ts("struct S;")).err(), refused(ErrorKind::AsyncOnNonFunction, Location::Whole));
    assert_eq!(async_(&ts("+")).err(), refused(ErrorKind::NotParsed, Location::Whole));
}

#[test]
fn visibility_reads_its_tokens() {
    assert_eq!(vis_of(pub_(&ts("fn f() {}")).unwrap()), "pub");
    assert_eq!(vis_of(priv_(&ts("pub(crate) struct S;")).unwrap()), "private");
    assert_eq!(vis_of(pub_in(&ts("crate::a"), &ts("mod m {}")).unwrap()), "pub(in 4 tokens)");
    assert_eq!(pub_(&ts("impl S {}")).err(), refused(ErrorKind::ItemWithoutVisibility, Location::Whole));
    assert_eq!(vis_of(pub_(&ts("type T = u8;")).unwrap()), "pub");
    assert_eq!(pub_(&ts("")).err(), refused(ErrorKind::NotParsed, Location::Whole));
}

#[test]
fn const_reads_its_tokens() {
    match const_(&ts("trait T: reta_const::Clone where Self: reta_maybe_const::Default + Send {}")).unwrap() {
        ConstOutput::Trait(h, p) => {
            assert!(p.constness);
            assert_eq!(p.supertraits, vec![ConstKind::Const]);
            assert_eq!(p.predicates, vec![vec![ConstKind::MaybeConst, ConstKind::Plain]]);
            assert_eq!(path_of(&h.supertraits[0]), "Clone");
        }
        _ => panic!("not a trait"),
    }
    match const_(&ts("impl<T: reta_const::Default> S<T> where T: Copy {}")).unwrap() {
        ConstOutput::Impl(_, p) => {
            assert!(p.constness);
            assert_eq!(p.predicates, vec![vec![ConstKind::Const], vec![ConstKind::Plain]]);
        }
        _ => panic!("not an impl"),
    }
    match dyn_(&ts("const fn f() {}")).unwrap() {
        ConstOutput::Item(ConstItem::Fn(s)) => assert!(!s.constness),
        _ => panic!("not a function"),
    }
    assert_eq!(const_(&ts("struct S;")).err(), refused(ErrorKind::ConstOnOther, Location::Whole));
    assert_eq!(const_(&ts("+")).err(), refused(ErrorKind::NotParsed, Location::Whole));
}

fn stream_of(trees: &[TokenTree]) -> proc_macro2::TokenStream {
    let mut out = proc_macro2::TokenStream::new();
    for t in trees {
        let tree: proc_macro2::TokenStream = match t {
            TokenTree::Ident(s) => proc_macro2::TokenTree::Ident(Ident::new(s, Span::call_site())).into(),
            TokenTree::Punct(c, sp) => {
                let sp = if *sp == Spacing::Joint { S::Joint } else { S::Alone };
                proc_macro2::TokenTree::Punct(Punct::new(*c, sp)).into()
            }
            TokenTree::Literal(s) => s.parse().unwrap(),
            TokenTree::Group(d, inner) => {
                let d = match d {
                    reta::macros::tokens::Delimiter::Parenthesis => D::Parenthesis,
                    reta::macros::tokens::Delimiter::Brace => D::Brace,
                    reta::macros::tokens::Delimiter::Bracket => D::Bracket,
                    reta::macros::tokens::Delimiter::Invisible => D::None,
                };
                proc_macro2::TokenTree::Group(Group::new(d, stream_of(inner))).into()
            }
        };
        out.extend(tree);
    }
    out
}

fn printed(apply: fn(&proc_macro2::TokenStream) -> Result<ConstOutput, MacroError>, item: &str) -> String {
    let item = ts(item);
    let out = apply(&item).unwrap();
    stream_of(&print_const(&item, &out).unwrap()).to_string().replace(' ', "")
}

fn flat(s: &str) -> String {
    ts(s).to_string().replace(' ', "")
}

#[test]
fn const_prints_traits() {
    assert_eq!(
        printed(const_, "pub unsafe trait T<A>: ?Sized + reta_const::Clone + 'static where Self: reta_maybe_const::Default + Send, A: Copy { fn f(); }"),
        flat("pub unsafe const trait T<A>: ?Sized + const Clone + 'static where Self: [const] Default + Send, A: Copy { fn f(); }"),
    );
    assert_eq!(
        printed(dyn_, "trait T: reta_const::Clone + reta_maybe_const::Eq {}"),
        flat("trait T: Clone + Eq {}"),
    );
    assert_eq!(printed(const_, "#[doc = \"x\"] trait T {}"), flat("#[doc = \"x\"] const trait T {}"));
}

#[test]
fn const_prints_impls() {
    assert_eq!(
        printed(const_, "impl<'a, T: reta_const::Default + Copy, const N: usize> Tr for S<'a, T, N> where T: reta_maybe_const::Eq { fn f() {} }"),
        flat("const impl<'a, T: const Default + Copy, const N: usize> Tr for S<'a, T, N> where T: [const] Eq { fn f() {} }"),
    );
    assert_eq!(
        printed(dyn_, "unsafe impl<T: reta_const::Default> ::core::marker::Send for S<T> {}"),
        flat("unsafe impl<T: Default> ::core::marker::Send for S<T> {}"),
    );
    assert_eq!(printed(const_, "impl S {}"), flat("const impl S {}"));
    let item = ts("fn f() {}");
    assert!(print_const(&item, &const_(&item).unwrap()).is_none());
}

#[test]
fn visibility_restrictions_are_told_apart() {
    assert_eq!(vis_of(read_declaration(&ts("pub(crate) fn f() {}"))), "pub(crate)");
    assert_eq!(vis_of(read_declaration(&ts("pub(super) struct S;"))), "pub(super)");
    assert_eq!(vis_of(read_declaration(&ts("pub(in crate) mod m {}"))), "pub(in 1 tokens)");
    assert_eq!(vis_of(read_declaration(&ts("pub(self) type T = u8;"))), "pub(in 1 tokens)");
    assert_eq!(vis_of(read_declaration(&ts("pub(in crate::a) const C: u8 = 0;"))), "pub(in 4 tokens)");
    assert_eq!(vis_of(read_declaration(&ts("pub fn f() {}"))), "pub");
    assert_eq!(vis_of(read_declaration(&ts("fn f() {}"))), "private");
}
