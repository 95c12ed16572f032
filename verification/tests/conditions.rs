use proc_macro2::TokenStream;
use reta::macros::cfg::{
    add_attr_to_item, eval_meta, read_meta, read_meta_prefix, read_metas, tokens_of, AttrItem,
    Attribute, CfgResult, ChannelCondition, Expansion, Meta,
};
use reta::macros::item::{ErrorKind, ItemKind, Location, MacroError};
use reta::macros::rif::Condition;
use reta::macros::stream::read_stream;
use reta::macros::tokens::{Delimiter, Spacing, TokenTree};
use reta::{reta, reta_attr, reta_if, Channel};

fn ident(s: &str) -> TokenTree {
    TokenTree::Ident(s.to_string())
}

fn punct(c: char) -> TokenTree {
    TokenTree::Punct(c, Spacing::Alone)
}

fn paren(inner: Vec<TokenTree>) -> TokenTree {
    TokenTree::Group(Delimiter::Parenthesis, inner)
}

fn render(tokens: &[TokenTree]) -> String {
    let mut out: Vec<String> = Vec::new();
    for t in tokens {
        out.push(match t {
            TokenTree::Ident(s) => s.clone(),
            TokenTree::Punct(c, _) => c.to_string(),
            TokenTree::Literal(s) => s.clone(),
            TokenTree::Group(d, inner) => {
                let (open, close) = match d {
                    Delimiter::Parenthesis => ("(", ")"),
                    Delimiter::Brace => ("{", "}"),
                    Delimiter::Bracket => ("[", "]"),
                    Delimiter::Invisible => ("", ""),
                };
                format!("{}{}{}", open, render(inner), close)
            }
        });
    }
    out.join(" ")
}

fn ts(s: &str) -> TokenStream {
    s.parse().unwrap()
}

/// The condition `syn` reads from the text.
fn meta(s: &str) -> Meta {
    read_meta(&ts(s)).unwrap()
}

fn show(m: &Meta) -> String {
    render(&tokens_of(m))
}

fn known(r: &CfgResult) -> Option<bool> {
    match r {
        CfgResult::Known(b) => Some(*b),
        CfgResult::Unknown(_) => None,
    }
}

fn residual(r: CfgResult) -> String {
    match r {
        CfgResult::Unknown(m) => show(&m),
        CfgResult::Known(b) => panic!("decided: {}", b),
    }
}

fn eval(s: &str, ch: Channel) -> CfgResult {
    eval_meta(meta(s), ch)
}

#[test]
fn channel_condition_reads_three_forms() {
    let c = ChannelCondition::parse(&vec![ident("nightly")]).unwrap();
    assert!(!c.negated);
    assert_eq!(c.channel, "nightly");
    let c = ChannelCondition::parse(&vec![punct('!'), ident("beta")]).unwrap();
    assert!(c.negated);
    assert_eq!(c.channel, "beta");
    let c = ChannelCondition::parse(&vec![ident("not"), paren(vec![ident("stable")])]).unwrap();
    assert!(c.negated);
    assert_eq!(c.channel, "stable");
}

#[test]
fn channel_condition_refuses_other_tokens() {
    assert!(ChannelCondition::parse(&vec![]).is_none());
    assert!(ChannelCondition::parse(&vec![ident("not")]).is_none());
    assert!(ChannelCondition::parse(&vec![ident("nightly"), ident("beta")]).is_none());
    assert!(ChannelCondition::parse(&vec![punct('!')]).is_none());
    assert!(ChannelCondition::parse(&vec![ident("not"), paren(vec![ident("a"), ident("b")])])
        .is_none());
    assert!(ChannelCondition::parse(&vec![
        ident("not"),
        TokenTree::Group(Delimiter::Bracket, vec![ident("stable")])
    ])
    .is_none());
}

#[test]
fn channel_condition_refuses_keywords() {
    // `syn` reads these as keywords, not identifiers.
    assert!(ChannelCondition::parse(&vec![ident("crate")]).is_none());
    assert!(ChannelCondition::parse(&vec![punct('!'), ident("fn")]).is_none());
    assert!(ChannelCondition::parse(&vec![ident("not"), paren(vec![ident("_")])]).is_none());
    // A raw identifier is an identifier.
    assert!(ChannelCondition::parse(&vec![ident("r#fn")]).is_some());
}

#[test]
fn channel_condition_shape_then_acceptance() {
    // The shape is read without asking `syn`: a keyword still has one.
    assert_eq!(
        ChannelCondition::shape(&vec![punct('!'), ident("fn")]),
        Some((true, String::from("fn")))
    );
    assert_eq!(
        ChannelCondition::shape(&vec![ident("not"), paren(vec![ident("beta")])]),
        Some((true, String::from("beta")))
    );
    assert_eq!(ChannelCondition::shape(&vec![ident("dev")]), Some((false, String::from("dev"))));
    assert_eq!(ChannelCondition::shape(&vec![ident("not")]), None);
    assert_eq!(ChannelCondition::shape(&vec![punct('!'), ident("a"), ident("b")]), None);
    // A keyword's shape is no condition.
    assert!(reta::macros::cfg::is_syn_keyword(&String::from("fn")));
    assert!(reta::macros::cfg::is_syn_keyword(&String::from("_")));
    assert!(!reta::macros::cfg::is_syn_keyword(&String::from("beta")));
    assert!(!reta::macros::cfg::is_syn_keyword(&String::from("r#fn")));
}

#[test]
fn channel_condition_holds_on_its_channel() {
    let c = ChannelCondition::parse(&vec![ident("nightly")]).unwrap();
    assert!(c.holds(Channel::Nightly));
    assert!(!c.holds(Channel::Stable));
    let c = ChannelCondition::parse(&vec![punct('!'), ident("nightly")]).unwrap();
    assert!(!c.holds(Channel::Nightly));
    assert!(c.holds(Channel::Beta));
    // A name that is no channel matches none.
    let c = ChannelCondition::parse(&vec![ident("dev")]).unwrap();
    assert!(!c.holds(Channel::Stable) && !c.holds(Channel::Beta) && !c.holds(Channel::Nightly));
}

#[test]
fn eval_decides_channel() {
    assert_eq!(known(&eval("channel(stable)", Channel::Stable)), Some(true));
    assert_eq!(known(&eval("channel(stable)", Channel::Nightly)), Some(false));
    assert_eq!(known(&eval("channel(!stable)", Channel::Stable)), Some(false));
    assert_eq!(known(&eval("channel(not(beta))", Channel::Nightly)), Some(true));
    assert_eq!(known(&eval("channel(dev)", Channel::Beta)), Some(false));
    // A raw identifier is an identifier; a keyword is not.
    assert_eq!(known(&eval("channel(r#stable)", Channel::Stable)), Some(false));
    assert_eq!(residual(eval("channel(crate)", Channel::Stable)), "channel (crate)");
}

#[test]
fn eval_leaves_other_conditions() {
    assert_eq!(residual(eval("unix", Channel::Stable)), "unix");
    assert_eq!(residual(eval("feature = \"x\"", Channel::Stable)), "feature = \"x\"");
    assert_eq!(residual(eval("foo(channel(stable))", Channel::Stable)), "foo (channel (stable))");
    // `channel(...)` whose tokens are no channel condition stays as it is.
    assert_eq!(residual(eval("channel(a, b)", Channel::Stable)), "channel (a , b)");
}

#[test]
fn eval_all() {
    let m = "all(unix, channel(stable))";
    assert_eq!(residual(eval(m, Channel::Stable)), "unix");
    assert_eq!(known(&eval(m, Channel::Beta)), Some(false));
    assert_eq!(
        residual(eval("all(unix, windows, channel(stable))", Channel::Stable)),
        "all (unix , windows)"
    );
    assert_eq!(known(&eval("all()", Channel::Stable)), Some(true));
    assert_eq!(known(&eval("all(channel(stable), channel(not(nightly)))", Channel::Stable)), Some(true));
}

#[test]
fn eval_any() {
    let m = "any(unix, channel(stable))";
    assert_eq!(known(&eval(m, Channel::Stable)), Some(true));
    assert_eq!(residual(eval(m, Channel::Nightly)), "unix");
    assert_eq!(
        residual(eval("any(unix, windows, channel(stable))", Channel::Beta)),
        "any (unix , windows)"
    );
    assert_eq!(known(&eval("any()", Channel::Stable)), Some(false));
}

#[test]
fn eval_not() {
    assert_eq!(known(&eval("not(channel(stable))", Channel::Stable)), Some(false));
    assert_eq!(known(&eval("not(channel(stable))", Channel::Beta)), Some(true));
    assert_eq!(residual(eval("not(unix)", Channel::Stable)), "not (unix)");
    assert_eq!(residual(eval("not(all(unix, channel(stable)))", Channel::Stable)), "not (unix)");
    // A `not` of two arguments is decided by any decided one.
    assert_eq!(known(&eval("not(channel(stable), unix)", Channel::Stable)), Some(false));
    assert_eq!(residual(eval("not(a, b)", Channel::Stable)), "not (a , b)");
}

#[test]
fn eval_nested() {
    let m = "any(all(unix, channel(nightly)), not(channel(beta)))";
    assert_eq!(known(&eval(m, Channel::Stable)), Some(true));
    assert_eq!(known(&eval(m, Channel::Beta)), Some(false));
    assert_eq!(known(&eval(m, Channel::Nightly)), Some(true));
    let m = "any(all(unix, channel(nightly)), channel(beta))";
    assert_eq!(known(&eval(m, Channel::Stable)), Some(false));
    assert_eq!(known(&eval(m, Channel::Beta)), Some(true));
    assert_eq!(residual(eval(m, Channel::Nightly)), "unix");
}

#[test]
fn eval_residual_ignores_channel() {
    // What is left is evaluated alike on every channel.
    let rest = match eval("all(unix, windows, channel(beta))", Channel::Beta) {
        CfgResult::Unknown(r) => r,
        CfgResult::Known(_) => panic!("decided"),
    };
    for ch in [Channel::Stable, Channel::Beta, Channel::Nightly] {
        let copy = reta::macros::cfg::duplicate_meta(&rest);
        assert_eq!(residual(eval_meta(copy, ch)), "all (unix , windows)");
    }
}

fn item(kind: ItemKind) -> AttrItem {
    AttrItem { kind, attrs: vec![] }
}

fn cfg_of(e: &Expansion) -> String {
    match e {
        Expansion::Rewritten(it) => match it.attrs.last() {
            Some(Attribute::Cfg(m)) => format!("cfg({})", show(m)),
            Some(Attribute::CfgAttr(c, a)) => format!("cfg_attr({}, {})", show(c), show(a)),
            Some(Attribute::Plain(a)) => show(a),
            None => String::from("none"),
        },
        Expansion::Removed => String::from("removed"),
        Expansion::Unchanged => String::from("unchanged"),
    }
}

fn refused(k: ErrorKind) -> Option<MacroError> {
    Some(MacroError { kind: k, at: Location::Whole })
}

fn argument_refused(k: ErrorKind) -> Option<MacroError> {
    Some(MacroError { kind: k, at: Location::Argument })
}

#[test]
fn reta_removes_keeps_or_adds_cfg() {
    let e = reta(&ts("channel(nightly)"), &ts("fn f() {}"), Channel::Stable).unwrap();
    assert!(matches!(e, Expansion::Removed));
    let e = reta(&ts("channel(stable)"), &ts("fn f() {}"), Channel::Stable).unwrap();
    assert!(matches!(e, Expansion::Unchanged));
    let e = reta(&ts("all(feature = \"x\", channel(stable))"), &ts("struct S;"), Channel::Stable)
        .unwrap();
    assert_eq!(cfg_of(&e), "cfg(feature = \"x\")");
}

#[test]
fn reta_errors() {
    let e = reta(&ts("unix"), &ts("fn f();"), Channel::Stable);
    assert_eq!(e.err(), refused(ErrorKind::UnsupportedItem));
    let e = reta(&ts("unix"), &ts("+ +"), Channel::Stable);
    assert_eq!(e.err(), refused(ErrorKind::NotParsed));
    // A decided condition needs no item.
    assert!(matches!(reta(&ts("channel(beta)"), &ts("+ +"), Channel::Beta), Ok(Expansion::Unchanged)));
    // The argument must be one condition.
    assert_eq!(reta(&ts("a b"), &ts("fn f() {}"), Channel::Beta).err(), argument_refused(ErrorKind::BadCondition));
}

#[test]
fn reta_attr_applies_conditionally() {
    let e = reta_attr(&ts("channel(nightly), derive(Clone)"), &ts("+ +"), Channel::Stable).unwrap();
    assert!(matches!(e, Expansion::Unchanged));
    let e = reta_attr(&ts("channel(stable), derive(Clone)"), &ts("enum E {}"), Channel::Stable)
        .unwrap();
    assert_eq!(cfg_of(&e), "derive (Clone)");
    let e = reta_attr(&ts("unix, derive(Clone)"), &ts("enum E {}"), Channel::Stable).unwrap();
    assert_eq!(cfg_of(&e), "cfg_attr(unix, derive (Clone))");
}

#[test]
fn reta_attr_errors() {
    let e = reta_attr(&ts("channel(stable), derive(Clone)"), &ts("+ +"), Channel::Stable);
    assert_eq!(e.err(), refused(ErrorKind::NotParsed));
    let e = reta_attr(&ts("unix, derive(Clone)"), &ts("fn f();"), Channel::Stable);
    assert_eq!(e.err(), refused(ErrorKind::UnsupportedItem));
}

#[test]
fn reta_attr_argument_errors() {
    let err = |s: &str, k: ErrorKind| {
        let e = reta_attr(&ts(s), &ts("fn f() {}"), Channel::Stable);
        assert_eq!(e.err(), argument_refused(k));
    };
    err("unix", ErrorKind::MissingComma);
    err("a b, c", ErrorKind::MissingComma);
    err("=, c", ErrorKind::BadCondition);
    err("a, b, c", ErrorKind::TokensAfterAttribute);
    err("a,", ErrorKind::BadAttribute);
    // A condition's value may hold commas of its own.
    let e = reta_attr(&ts("key = f::<A, B>(), inline"), &ts("fn f() {}"), Channel::Stable).unwrap();
    assert_eq!(cfg_of(&e), "cfg_attr(key = f : : < A , B > (), inline)");
    let e = reta_attr(&ts("unix, derive(Clone, Copy)"), &ts("struct S;"), Channel::Stable).unwrap();
    assert_eq!(cfg_of(&e), "cfg_attr(unix, derive (Clone , Copy))");
}

#[test]
fn conditions_are_read_by_syn() {
    let m = meta("all(a, feature = \"x\", not(b))");
    let tokens = match &m {
        Meta::List { tokens, .. } => tokens.clone(),
        _ => unreachable!(),
    };
    let nested = read_metas(&tokens).unwrap();
    assert_eq!(nested.len(), 3);
    assert_eq!(show(&nested[0]), "a");
    assert!(matches!(nested[0], Meta::Path(_)));
    assert_eq!(show(&nested[1]), "feature = \"x\"");
    assert!(matches!(nested[1], Meta::NameValue(_)));
    assert_eq!(show(&nested[2]), "not (b)");
    assert!(matches!(nested[2], Meta::List { .. }));
    // A trailing comma is allowed; tokens that are no conditions are not.
    assert_eq!(read_metas(&ts("a,")).unwrap().len(), 1);
    assert!(read_metas(&ts("a b")).is_none());
    assert!(read_meta(&ts("a,")).is_none());
    // The front condition, and what follows it.
    let (m, rest) = read_meta_prefix(&ts("a(b), c")).unwrap();
    assert_eq!(show(&m), "a (b)");
    assert_eq!(render(&read_stream(&rest)), ", c");
}

#[test]
fn add_attr_appends() {
    let mut it = item(ItemKind::Mod);
    add_attr_to_item(&mut it, Attribute::Cfg(meta("a"))).unwrap();
    add_attr_to_item(&mut it, Attribute::Plain(meta("b"))).unwrap();
    assert_eq!(it.attrs.len(), 2);
    let mut it = item(ItemKind::Verbatim);
    assert!(add_attr_to_item(&mut it, Attribute::Cfg(meta("a"))).is_err());
    assert!(it.attrs.is_empty());
}

#[test]
fn reta_if_literal_or_cfg() {
    assert!(matches!(reta_if(&ts("channel(beta)"), Channel::Beta), Ok(Condition::Literal(true))));
    assert!(matches!(reta_if(&ts("channel(!beta)"), Channel::Beta), Ok(Condition::Literal(false))));
    match reta_if(&ts("any(debug_assertions, channel(beta))"), Channel::Stable) {
        Ok(Condition::Cfg(m)) => assert_eq!(show(&m), "debug_assertions"),
        _ => panic!("decided or refused"),
    }
}

#[test]
fn reta_if_argument_errors() {
    assert_eq!(reta_if(&ts("a, b"), Channel::Stable).err(), refused(ErrorKind::TokensAfterCondition));
    assert_eq!(
        reta_if(&ts("feature = \"a\" feature = \"b\""), Channel::Stable).err(),
        refused(ErrorKind::TokensAfterCondition)
    );
    assert_eq!(reta_if(&ts(""), Channel::Stable).err(), refused(ErrorKind::BadCondition));
    assert_eq!(ErrorKind::TokensAfterCondition.message(), "unexpected tokens after condition");
}

#[test]
fn error_messages() {
    assert_eq!(ErrorKind::AsyncOnNonFunction.message(), "#[async_] can only be applied to functions");
    assert_eq!(
        ErrorKind::ConstOnOther.message(),
        "#[const_] can only be applied to functions, traits, and impls"
    );
    assert_eq!(ErrorKind::UnsupportedItem.message(), "unsupported item type for reta/reta_attr");
    assert_eq!(ErrorKind::TraitItemVisibility.message(), "trait items cannot have visibility");
}


#[test]
fn eval_leaves_no_channel_in_cfg_conditions() {
    let m = "all(unix, not(channel(stable)), any(channel(beta), windows), channel(!beta))";
    for ch in [Channel::Stable, Channel::Beta, Channel::Nightly] {
        if let CfgResult::Unknown(r) = eval(m, ch) {
            assert!(!show(&r).contains("channel"));
        }
    }
    assert_eq!(residual(eval(m, Channel::Nightly)), "all (unix , windows)");
}

fn invisible(inner: TokenStream) -> TokenStream {
    proc_macro2::TokenTree::Group(proc_macro2::Group::new(proc_macro2::Delimiter::None, inner)).into()
}

fn channel_of(arg: TokenStream) -> TokenStream {
    let mut out = ts("channel");
    out.extend(std::iter::once(proc_macro2::TokenTree::Group(proc_macro2::Group::new(
        proc_macro2::Delimiter::Parenthesis,
        arg,
    ))));
    out
}

#[test]
fn invisible_groups_are_read_through() {
    // `channel($c)`, the name handed on by a declarative macro.
    let c = channel_of(invisible(ts("nightly")));
    assert!(matches!(reta_if(&c, Channel::Nightly), Ok(Condition::Literal(true))));
    assert!(matches!(reta_if(&c, Channel::Beta), Ok(Condition::Literal(false))));
    let mut bang = ts("!");
    bang.extend(invisible(invisible(ts("beta"))));
    assert!(matches!(reta_if(&channel_of(bang), Channel::Beta), Ok(Condition::Literal(false))));
    let mut not = ts("not");
    not.extend(ts("(x)").into_iter().map(|_| {
        proc_macro2::TokenTree::Group(proc_macro2::Group::new(proc_macro2::Delimiter::Parenthesis, invisible(ts("stable"))))
    }));
    assert!(matches!(reta_if(&channel_of(not), Channel::Stable), Ok(Condition::Literal(false))));
    // Empty invisible groups after the condition are passed over.
    let mut c2 = ts("channel(stable)");
    c2.extend(invisible(TokenStream::new()));
    assert!(matches!(reta_if(&c2, Channel::Stable), Ok(Condition::Literal(true))));
    assert!(matches!(reta(&c2, &ts("fn f() {}"), Channel::Stable), Ok(Expansion::Unchanged)));
    let mut c3 = ts("channel(stable), inline");
    c3.extend(invisible(invisible(TokenStream::new())));
    assert!(reta_attr(&c3, &ts("fn f() {}"), Channel::Stable).is_ok());
    // A group that holds a token is no blank.
    let mut c4 = ts("channel(stable)");
    c4.extend(invisible(ts("x")));
    assert_eq!(reta_if(&c4, Channel::Stable).err(), refused(ErrorKind::TokensAfterCondition));
}
