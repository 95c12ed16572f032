//! `#[pub_]`, `#[pub_crate]`, `#[pub_super]`, `#[pub_in(path)]` and
//! `#[priv_]`: set the visibility of an item.
use vstd::prelude::*;

use crate::macros::item::{ErrorKind, ItemKind, Location, MacroError, MemberKind};
use crate::macros::stream::{read_stream, stream_toks};
use crate::macros::syntax::{declaration_spec, read_declaration};
use crate::macros::tokens::{duplicate_tokens, toks_view, Tok, TokenTree};

verus! {

/// A visibility.
pub enum Visibility {
    /// `pub`
    Public,
    /// `pub(crate)`
    Crate,
    /// `pub(super)`
    Super,
    /// `pub(in path)`, with the tokens of the path.
    InPath(Vec<TokenTree>),
    /// No qualifier: private.
    Inherited,
}

/// The mathematical view of a visibility.
pub ghost enum VisView {
    Public,
    Crate,
    Super,
    InPath(Seq<Tok>),
    Inherited,
}

impl View for Visibility {
    type V = VisView;

    open spec fn view(&self) -> VisView {
        match *self {
            Visibility::Public => VisView::Public,
            Visibility::Crate => VisView::Crate,
            Visibility::Super => VisView::Super,
            Visibility::InPath(p) => VisView::InPath(toks_view(p@)),
            Visibility::Inherited => VisView::Inherited,
        }
    }
}

/// An item, by its kind, and its visibility.
pub struct VisItem {
    pub kind: ItemKind,
    pub vis: Visibility,
}

/// A member of an `impl`, by its kind, and its visibility.
pub struct VisImplItem {
    pub kind: MemberKind,
    pub vis: Visibility,
}

/// What a visibility attribute is applied to, as `syn` reads the tokens: an
/// item, else a member of an `impl`, else a member of a trait; or nothing
/// `syn` could read.
pub enum Declaration {
    Item(VisItem),
    ImplItem(VisImplItem),
    TraitItem(MemberKind),
    Unparsed,
}

/// The mathematical view of a declaration.
pub ghost enum DeclView {
    Item(ItemKind, VisView),
    ImplItem(MemberKind, VisView),
    TraitItem(MemberKind),
    Unparsed,
}

impl View for Declaration {
    type V = DeclView;

    open spec fn view(&self) -> DeclView {
        match *self {
            Declaration::Item(i) => DeclView::Item(i.kind, i.vis@),
            Declaration::ImplItem(i) => DeclView::ImplItem(i.kind, i.vis@),
            Declaration::TraitItem(k) => DeclView::TraitItem(k),
            Declaration::Unparsed => DeclView::Unparsed,
        }
    }
}

/// The view of what a visibility attribute makes of a declaration.
pub open spec fn decl_outcome(r: Result<Declaration, MacroError>) -> Result<DeclView, MacroError> {
    match r {
        Ok(d) => Ok(d@),
        Err(e) => Err(e),
    }
}

/// What the tokens are read as, given each of `syn`'s readings of them
/// (none where that parser refused them): the item, else the `impl` member,
/// else the trait member; else nothing.
pub open spec fn chosen_declaration(
    item: Option<DeclView>,
    impl_item: Option<DeclView>,
    trait_item: Option<MemberKind>,
) -> DeclView {
    if item is Some {
        item.unwrap()
    } else if impl_item is Some {
        impl_item.unwrap()
    } else if trait_item is Some {
        DeclView::TraitItem(trait_item.unwrap())
    } else {
        DeclView::Unparsed
    }
}

/// Chooses what the tokens are read as, from `syn`'s readings of them as an
/// item, an `impl` member and a trait member.
pub fn choose_declaration(
    item: Option<VisItem>,
    impl_item: Option<VisImplItem>,
    trait_item: Option<MemberKind>,
) -> (r: Declaration)
    ensures
        r@ == chosen_declaration(
            match item {
                Some(i) => Some(Declaration::Item(i)@),
                None => None,
            },
            match impl_item {
                Some(i) => Some(Declaration::ImplItem(i)@),
                None => None,
            },
            trait_item,
        ),
{
    match item {
        Some(i) => Declaration::Item(i),
        None => match impl_item {
            Some(i) => Declaration::ImplItem(i),
            None => match trait_item {
                Some(k) => Declaration::TraitItem(k),
                None => Declaration::Unparsed,
            },
        },
    }
}

/// The kinds of item that carry a visibility.
pub open spec fn item_has_vis(k: ItemKind) -> bool {
    match k {
        ItemKind::ForeignMod | ItemKind::Impl | ItemKind::Macro | ItemKind::Verbatim => false,
        _ => true,
    }
}

/// The kinds of `impl` member that carry a visibility.
pub open spec fn impl_item_has_vis(k: MemberKind) -> bool {
    k == MemberKind::Const || k == MemberKind::Fn || k == MemberKind::Type
}

/// The refusal of a visibility, of the given kind, on the whole declaration.
pub open spec fn vis_refused(kind: ErrorKind) -> MacroError {
    MacroError { kind, at: Location::Whole }
}

/// Sets the visibility of an item that carries one; on any other item, no
/// visibility is accepted and a private one changes nothing.
pub fn set_visibility(item: &mut VisItem, vis: Visibility) -> (r: Result<(), MacroError>)
    ensures
        final(item).kind == old(item).kind,
        item_has_vis(old(item).kind) ==> r is Ok && final(item).vis@ == vis@,
        !item_has_vis(old(item).kind) ==> final(item).vis@ == old(item).vis@ && if vis@ is Inherited {
            r is Ok
        } else {
            r == Err::<(), MacroError>(vis_refused(ErrorKind::ItemWithoutVisibility))
        },
{
    let is_inherited = match vis {
        Visibility::Inherited => true,
        _ => false,
    };
    match item.kind {
        ItemKind::ForeignMod | ItemKind::Impl | ItemKind::Macro | ItemKind::Verbatim => {
            if is_inherited {
                return Ok(());
            }
            Err(MacroError { kind: ErrorKind::ItemWithoutVisibility, at: Location::Whole })
        },
        _ => {
            item.vis = vis;
            Ok(())
        },
    }
}

/// Sets the visibility of an `impl` member that carries one; on any other
/// member, no visibility is accepted and a private one changes nothing.
pub fn set_impl_item_visibility(item: &mut VisImplItem, vis: Visibility) -> (r: Result<
    (),
    MacroError,
>)
    ensures
        final(item).kind == old(item).kind,
        impl_item_has_vis(old(item).kind) ==> r is Ok && final(item).vis@ == vis@,
        !impl_item_has_vis(old(item).kind) ==> final(item).vis@ == old(item).vis@
            && if vis@ is Inherited {
            r is Ok
        } else {
            r == Err::<(), MacroError>(vis_refused(ErrorKind::ImplItemWithoutVisibility))
        },
{
    let is_inherited = match vis {
        Visibility::Inherited => true,
        _ => false,
    };
    match item.kind {
        MemberKind::Const | MemberKind::Fn | MemberKind::Type => {
            item.vis = vis;
            Ok(())
        },
        _ => {
            if is_inherited {
                return Ok(());
            }
            Err(MacroError { kind: ErrorKind::ImplItemWithoutVisibility, at: Location::Whole })
        },
    }
}

/// A trait member takes no visibility; a private one changes nothing.
pub fn set_trait_item_visibility(item: &MemberKind, vis: &Visibility) -> (r: Result<(), MacroError>)
    ensures
        if vis@ is Inherited {
            r is Ok
        } else {
            r == Err::<(), MacroError>(vis_refused(ErrorKind::TraitItemVisibility))
        },
{
    match vis {
        Visibility::Inherited => Ok(()),
        _ => Err(MacroError { kind: ErrorKind::TraitItemVisibility, at: Location::Whole }),
    }
}

/// What giving the visibility `v` makes of a declaration.
pub open spec fn vis_spec(d: DeclView, v: VisView) -> Result<DeclView, MacroError> {
    match d {
        DeclView::Item(k, old) => if item_has_vis(k) {
            Ok(DeclView::Item(k, v))
        } else if v is Inherited {
            Ok(d)
        } else {
            Err(vis_refused(ErrorKind::ItemWithoutVisibility))
        },
        DeclView::ImplItem(k, old) => if impl_item_has_vis(k) {
            Ok(DeclView::ImplItem(k, v))
        } else if v is Inherited {
            Ok(d)
        } else {
            Err(vis_refused(ErrorKind::ImplItemWithoutVisibility))
        },
        DeclView::TraitItem(_) => if v is Inherited {
            Ok(d)
        } else {
            Err(vis_refused(ErrorKind::TraitItemVisibility))
        },
        DeclView::Unparsed => Err(MacroError { kind: ErrorKind::NotParsed, at: Location::Whole }),
    }
}

/// Gives a declaration the visibility `vis`.
fn apply_to_declaration(d: Declaration, vis: Visibility) -> (r: Result<Declaration, MacroError>)
    ensures
        decl_outcome(r) == vis_spec(d@, vis@),
{
    match d {
        Declaration::Item(item) => {
            let mut item = item;
            match set_visibility(&mut item, vis) {
                Ok(()) => Ok(Declaration::Item(item)),
                Err(e) => Err(e),
            }
        },
        Declaration::ImplItem(item) => {
            let mut item = item;
            match set_impl_item_visibility(&mut item, vis) {
                Ok(()) => Ok(Declaration::ImplItem(item)),
                Err(e) => Err(e),
            }
        },
        Declaration::TraitItem(kind) => match set_trait_item_visibility(&kind, &vis) {
            Ok(()) => Ok(Declaration::TraitItem(kind)),
            Err(e) => Err(e),
        },
        Declaration::Unparsed => Err(MacroError { kind: ErrorKind::NotParsed, at: Location::Whole }),
    }
}

/// `#[pub_]`: makes a declaration `pub`.
pub fn pub_decl(d: Declaration) -> (r: Result<Declaration, MacroError>)
    ensures
        decl_outcome(r) == vis_spec(d@, VisView::Public),
{
    apply_to_declaration(d, Visibility::Public)
}

/// `#[pub_crate]`: makes a declaration `pub(crate)`.
pub fn pub_crate_decl(d: Declaration) -> (r: Result<Declaration, MacroError>)
    ensures
        decl_outcome(r) == vis_spec(d@, VisView::Crate),
{
    apply_to_declaration(d, Visibility::Crate)
}

/// `#[pub_super]`: makes a declaration `pub(super)`.
pub fn pub_super_decl(d: Declaration) -> (r: Result<Declaration, MacroError>)
    ensures
        decl_outcome(r) == vis_spec(d@, VisView::Super),
{
    apply_to_declaration(d, Visibility::Super)
}

/// Makes a declaration `pub(in path)`.
pub fn pub_in_path(path: &Vec<TokenTree>, d: Declaration) -> (r: Result<Declaration, MacroError>)
    ensures
        decl_outcome(r) == vis_spec(d@, VisView::InPath(toks_view(path@))),
{
    apply_to_declaration(d, Visibility::InPath(duplicate_tokens(path)))
}

/// The tokens of the path that `syn` reads from tokens (`syn::ExprPath`).
pub uninterp spec fn syn_expr_path(toks: Seq<Tok>) -> Option<Seq<Tok>>;

/// Reads a token stream as a path, with `syn::parse2::<syn::ExprPath>`, and
/// hands back its tokens (`to_token_stream`). Claimed: the outcome is named
/// by `syn_expr_path` on the stream's tokens.
#[verifier::external_body]
fn parse_expr_path(s: &proc_macro2::TokenStream) -> (r: Option<proc_macro2::TokenStream>)
    ensures
        syn_expr_path(stream_toks(*s)) == match r {
            Some(p) => Some(stream_toks(p)),
            None => None,
        },
{
    syn::parse2::<syn::ExprPath>(s.clone()).ok().map(quote::ToTokens::into_token_stream)
}

/// The path that `syn` reads from a token stream, by its tokens.
pub fn read_path(s: &proc_macro2::TokenStream) -> (r: Option<Vec<TokenTree>>)
    ensures
        match r {
            Some(p) => Some(toks_view(p@)),
            None => None,
        } == syn_expr_path(stream_toks(*s)),
{
    match parse_expr_path(s) {
        Some(p) => Some(read_stream(&p)),
        None => None,
    }
}

/// What `#[pub_in(path)]` makes of its argument's tokens and a declaration.
pub open spec fn pub_in_spec(t: Seq<Tok>, d: DeclView) -> Result<DeclView, MacroError> {
    match syn_expr_path(t) {
        Some(p) => vis_spec(d, VisView::InPath(p)),
        None => Err(MacroError { kind: ErrorKind::BadPath, at: Location::Argument }),
    }
}

/// `#[pub_in(path)]`: reads the argument as a path, and makes the
/// declaration `pub(in path)`.
pub fn pub_in_decl(attr: &proc_macro2::TokenStream, d: Declaration) -> (r: Result<Declaration, MacroError>)
    ensures
        decl_outcome(r) == pub_in_spec(stream_toks(*attr), d@),
{
    match read_path(attr) {
        Some(p) => pub_in_path(&p, d),
        None => Err(MacroError { kind: ErrorKind::BadPath, at: Location::Argument }),
    }
}

/// `#[priv_]`: makes a declaration private.
pub fn priv_decl(d: Declaration) -> (r: Result<Declaration, MacroError>)
    ensures
        decl_outcome(r) == vis_spec(d@, VisView::Inherited),
{
    apply_to_declaration(d, Visibility::Inherited)
}

/// Of two visibility attributes, the later decides: once one has been
/// applied, applying another gives what it gives on the unchanged tokens.
pub proof fn visibility_last_wins(d: DeclView, a: VisView, b: VisView)
    ensures
        vis_spec(d, a) matches Ok(e) ==> vis_spec(e, b) == vis_spec(d, b),
{
}

/// `#[priv_]` refuses nothing that `syn` read.
pub proof fn priv_refuses_nothing(d: DeclView)
    requires
        !(d is Unparsed),
    ensures
        vis_spec(d, VisView::Inherited) is Ok,
{
}


/// `#[pub_]` on the tokens it is applied to, as `syn` reads them.
pub fn pub_(item: &proc_macro2::TokenStream) -> (r: Result<Declaration, MacroError>)
    ensures
        decl_outcome(r) == vis_spec(declaration_spec(stream_toks(*item)), VisView::Public),
{
    pub_decl(read_declaration(item))
}

/// `#[pub_crate]` on the tokens it is applied to, as `syn` reads them.
pub fn pub_crate(item: &proc_macro2::TokenStream) -> (r: Result<Declaration, MacroError>)
    ensures
        decl_outcome(r) == vis_spec(declaration_spec(stream_toks(*item)), VisView::Crate),
{
    pub_crate_decl(read_declaration(item))
}

/// `#[pub_super]` on the tokens it is applied to, as `syn` reads them.
pub fn pub_super(item: &proc_macro2::TokenStream) -> (r: Result<Declaration, MacroError>)
    ensures
        decl_outcome(r) == vis_spec(declaration_spec(stream_toks(*item)), VisView::Super),
{
    pub_super_decl(read_declaration(item))
}

/// `#[priv_]` on the tokens it is applied to, as `syn` reads them.
pub fn priv_(item: &proc_macro2::TokenStream) -> (r: Result<Declaration, MacroError>)
    ensures
        decl_outcome(r) == vis_spec(declaration_spec(stream_toks(*item)), VisView::Inherited),
{
    priv_decl(read_declaration(item))
}

/// `#[pub_in(path)]` on the tokens it is applied to, as `syn` reads them.
pub fn pub_in(attr: &proc_macro2::TokenStream, item: &proc_macro2::TokenStream) -> (r: Result<Declaration, MacroError>)
    ensures
        decl_outcome(r) == pub_in_spec(stream_toks(*attr), declaration_spec(stream_toks(*item))),
{
    pub_in_decl(attr, read_declaration(item))
}

/// The visibility attributes set the visibility of every kind of item that
/// has one (constants, enums, `extern crate`, functions, modules, statics,
/// structs, traits, trait aliases, type aliases, unions and `use`) and of
/// every `impl` member that has one (constants, functions, types); on an
/// `extern` block, an `impl`, a macro or unknown tokens, only a private
/// visibility is accepted, and it changes nothing.
pub proof fn visibility_set_where_it_exists(k: ItemKind, mk: MemberKind, old: VisView, v: VisView)
    ensures
        k == ItemKind::Const || k == ItemKind::Enum || k == ItemKind::ExternCrate || k == ItemKind::Fn
            || k == ItemKind::Mod || k == ItemKind::Static || k == ItemKind::Struct || k == ItemKind::Trait
            || k == ItemKind::TraitAlias || k == ItemKind::Type || k == ItemKind::Union || k == ItemKind::Use
            ==> vis_spec(DeclView::Item(k, old), v) == Ok::<DeclView, MacroError>(DeclView::Item(k, v)),
        k == ItemKind::ForeignMod || k == ItemKind::Impl || k == ItemKind::Macro || k == ItemKind::Verbatim
            ==> vis_spec(DeclView::Item(k, old), v) == if v is Inherited {
            Ok::<DeclView, MacroError>(DeclView::Item(k, old))
        } else {
            Err::<DeclView, MacroError>(MacroError { kind: ErrorKind::ItemWithoutVisibility, at: Location::Whole })
        },
        mk == MemberKind::Const || mk == MemberKind::Fn || mk == MemberKind::Type ==> vis_spec(
            DeclView::ImplItem(mk, old),
            v,
        ) == Ok::<DeclView, MacroError>(DeclView::ImplItem(mk, v)),
{
}

} // verus!
