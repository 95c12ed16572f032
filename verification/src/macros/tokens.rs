//! A plain model of token trees, and its mathematical view.
use vstd::prelude::*;
use vstd::string::StringExecFns;

verus! {

/// The delimiter of a group of tokens.
#[derive(Clone, Copy, Debug, PartialEq, Eq, Structural)]
pub enum Delimiter {
    /// `( ... )`
    Parenthesis,
    /// `{ ... }`
    Brace,
    /// `[ ... ]`
    Bracket,
    /// No delimiter: a group that a macro's expansion leaves around what it
    /// substituted, invisible in the text.
    Invisible,
}

/// Whether a punctuation character is joined to the next one (as in `::`).
#[derive(Clone, Copy, Debug, PartialEq, Eq, Structural)]
pub enum Spacing {
    Alone,
    Joint,
}

/// A token tree: an identifier, a punctuation character, a literal, or a
/// delimited group of token trees.
pub enum TokenTree {
    /// An identifier, by its text (`r#` included for a raw identifier).
    Ident(String),
    Punct(char, Spacing),
    /// A literal, by its text.
    Literal(String),
    Group(Delimiter, Vec<TokenTree>),
}

/// The mathematical view of a token tree.
pub ghost enum Tok {
    Ident(Seq<char>),
    Punct(char, Spacing),
    Literal(Seq<char>),
    Group(Delimiter, Seq<Tok>),
}

/// The view of one token tree.
pub open spec fn tok_view(t: TokenTree) -> Tok
    decreases t,
{
    match t {
        TokenTree::Ident(s) => Tok::Ident(s@),
        TokenTree::Punct(c, sp) => Tok::Punct(c, sp),
        TokenTree::Literal(s) => Tok::Literal(s@),
        TokenTree::Group(d, v) => Tok::Group(d, toks_view(v@)),
    }
}

/// The view of a sequence of token trees, element by element.
pub open spec fn toks_view(s: Seq<TokenTree>) -> Seq<Tok>
    decreases s,
{
    if s.len() == 0 {
        Seq::empty()
    } else {
        toks_view(s.drop_last()).push(tok_view(s.last()))
    }
}

/// `toks_view` keeps the length, and views each element on its own.
pub proof fn lemma_toks_view(s: Seq<TokenTree>)
    ensures
        toks_view(s).len() == s.len(),
        forall|i: int| 0 <= i < s.len() ==> #[trigger] toks_view(s)[i] == tok_view(s[i]),
    decreases s.len(),
{
    if s.len() > 0 {
        lemma_toks_view(s.drop_last());
    }
}

/// `toks_view` of a sequence with one more token.
pub proof fn lemma_toks_view_push(s: Seq<TokenTree>, x: TokenTree)
    ensures
        toks_view(s.push(x)) == toks_view(s).push(tok_view(x)),
{
    let p = s.push(x);
    assert(p.drop_last() =~= s);
    assert(p.len() > 0);
    assert(p.last() == x);
    assert(toks_view(p) == toks_view(p.drop_last()).push(tok_view(p.last())));
}

/// `toks_view` distributes over concatenation.
pub proof fn lemma_toks_view_add(a: Seq<TokenTree>, b: Seq<TokenTree>)
    ensures
        toks_view(a + b) == toks_view(a) + toks_view(b),
{
    lemma_toks_view(a);
    lemma_toks_view(b);
    lemma_toks_view(a + b);
    assert(toks_view(a + b) =~= toks_view(a) + toks_view(b));
}

/// Whether the text of a string is the given word.
pub fn text_is(s: &String, w: &str) -> (r: bool)
    ensures
        r == (s@ == w@),
{
    let t = String::from_str(w);
    *s == t
}

/// A copy of a token tree, with the same view.
pub fn duplicate_token(t: &TokenTree) -> (r: TokenTree)
    ensures
        tok_view(r) == tok_view(*t),
    decreases t,
{
    match t {
        TokenTree::Ident(s) => TokenTree::Ident(s.clone()),
        TokenTree::Punct(c, sp) => TokenTree::Punct(*c, *sp),
        TokenTree::Literal(s) => TokenTree::Literal(s.clone()),
        TokenTree::Group(d, v) => TokenTree::Group(*d, duplicate_tokens(v)),
    }
}

/// A copy of a sequence of token trees, with the same view.
pub fn duplicate_tokens(v: &Vec<TokenTree>) -> (r: Vec<TokenTree>)
    ensures
        toks_view(r@) == toks_view(v@),
    decreases v,
{
    let mut r: Vec<TokenTree> = Vec::new();
    let mut i: usize = 0;
    while i < v.len()
        invariant
            i <= v.len(),
            toks_view(r@) == toks_view(v@.take(i as int)),
        decreases v.len() - i,
    {
        assert(decreases_to!(v => v@[i as int]));
        let t = duplicate_token(&v[i]);
        proof {
            assert(v@.take(i + 1).drop_last() =~= v@.take(i as int));
            assert(v@.take(i + 1).last() == v@[i as int]);
            assert(r@.push(t).drop_last() =~= r@);
        }
        r.push(t);
        i = i + 1;
    }
    assert(v@.take(v.len() as int) =~= v@);
    r
}

/// Appends copies of `src` to `dst`.
pub fn extend_tokens(dst: &mut Vec<TokenTree>, src: &Vec<TokenTree>)
    ensures
        toks_view(final(dst)@) == toks_view(old(dst)@) + toks_view(src@),
{
    let mut copy = duplicate_tokens(src);
    let ghost d0 = dst@;
    let ghost c0 = copy@;
    dst.append(&mut copy);
    proof {
        lemma_toks_view_add(d0, c0);
    }
}


// ---------------------------------------------------------------------------
// Invisible groups, which `syn` reads through.

/// Whether tokens are nothing but invisible groups that hold nothing but
/// such groups: what `syn` passes over as if it were not there.
pub open spec fn blank(t: Seq<Tok>) -> bool
    decreases t,
{
    if t.len() == 0 {
        true
    } else {
        blank_tok(t[0]) && blank(t.drop_first())
    }
}

/// Whether a token is an invisible group that holds nothing but such groups.
pub open spec fn blank_tok(x: Tok) -> bool
    decreases x,
{
    match x {
        Tok::Group(Delimiter::Invisible, inner) => blank(inner),
        _ => false,
    }
}

/// Tokens with each invisible group replaced by what it holds, so read.
pub open spec fn flat(t: Seq<Tok>) -> Seq<Tok>
    decreases t,
{
    if t.len() == 0 {
        Seq::empty()
    } else {
        flat_tok(t[0]) + flat(t.drop_first())
    }
}

/// A token as `flat` reads it: an invisible group's contents, so read, or
/// the token itself.
pub open spec fn flat_tok(x: Tok) -> Seq<Tok>
    decreases x,
{
    match x {
        Tok::Group(Delimiter::Invisible, inner) => flat(inner),
        _ => seq![x],
    }
}

/// Whether token trees are blank.
pub fn is_blank(v: &Vec<TokenTree>) -> (r: bool)
    ensures
        r == blank(toks_view(v@)),
    decreases v,
{
    proof {
        lemma_toks_view(v@);
    }
    let ghost ts = toks_view(v@);
    assert(ts.skip(0) =~= ts);
    let mut i: usize = 0;
    while i < v.len()
        invariant
            i <= v.len(),
            ts == toks_view(v@),
            ts.len() == v.len(),
            forall|j: int| 0 <= j < v.len() ==> #[trigger] ts[j] == tok_view(v@[j]),
            blank(ts) == blank(ts.skip(i as int)),
        decreases v.len() - i,
    {
        assert(decreases_to!(v => v@[i as int]));
        let b = is_blank_token(&v[i]);
        proof {
            let rest = ts.skip(i as int);
            assert(rest[0] == ts[i as int]);
            assert(rest.drop_first() =~= ts.skip(i + 1));
        }
        if !b {
            return false;
        }
        i = i + 1;
    }
    assert(ts.skip(v.len() as int) =~= Seq::<Tok>::empty());
    true
}

/// Whether a token tree is blank.
pub fn is_blank_token(t: &TokenTree) -> (r: bool)
    ensures
        r == blank_tok(tok_view(*t)),
    decreases t,
{
    match t {
        TokenTree::Group(Delimiter::Invisible, v) => is_blank(v),
        _ => false,
    }
}

/// Token trees with each invisible group replaced by what it holds.
pub fn flatten(v: &Vec<TokenTree>) -> (r: Vec<TokenTree>)
    ensures
        toks_view(r@) == flat(toks_view(v@)),
    decreases v,
{
    proof {
        lemma_toks_view(v@);
    }
    let ghost ts = toks_view(v@);
    let mut out: Vec<TokenTree> = Vec::new();
    proof {
        assert(toks_view(out@) =~= Seq::<Tok>::empty());
        assert(ts.skip(0) =~= ts);
    }
    let mut i: usize = 0;
    while i < v.len()
        invariant
            i <= v.len(),
            ts == toks_view(v@),
            ts.len() == v.len(),
            forall|j: int| 0 <= j < v.len() ==> #[trigger] ts[j] == tok_view(v@[j]),
            flat(ts) == toks_view(out@) + flat(ts.skip(i as int)),
        decreases v.len() - i,
    {
        assert(decreases_to!(v => v@[i as int]));
        let piece = flatten_token(&v[i]);
        let ghost before = toks_view(out@);
        proof {
            let rest = ts.skip(i as int);
            assert(rest[0] == ts[i as int]);
            assert(rest.drop_first() =~= ts.skip(i + 1));
            assert(flat(rest) == flat_tok(ts[i as int]) + flat(ts.skip(i + 1)));
        }
        extend_tokens(&mut out, &piece);
        proof {
            assert(before + (flat_tok(ts[i as int]) + flat(ts.skip(i + 1))) =~= toks_view(out@) + flat(
                ts.skip(i + 1),
            ));
        }
        i = i + 1;
    }
    assert(ts.skip(v.len() as int) =~= Seq::<Tok>::empty());
    assert(toks_view(out@) + Seq::<Tok>::empty() =~= toks_view(out@));
    out
}

/// A token tree as `flatten` reads it.
pub fn flatten_token(t: &TokenTree) -> (r: Vec<TokenTree>)
    ensures
        toks_view(r@) == flat_tok(tok_view(*t)),
    decreases t,
{
    match t {
        TokenTree::Group(Delimiter::Invisible, v) => flatten(v),
        _ => {
            let mut r: Vec<TokenTree> = Vec::new();
            let c = duplicate_token(t);
            r.push(c);
            proof {
                lemma_toks_view(r@);
                assert(toks_view(r@) =~= seq![tok_view(*t)]);
            }
            r
        },
    }
}

} // verus!
