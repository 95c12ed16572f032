//! Token streams of `proc_macro2`, which `syn` hands back, read into the
//! library's token model.
use vstd::prelude::*;

use crate::macros::tokens;
use crate::macros::tokens::{toks_view, tok_view, Delimiter, Spacing, Tok};

verus! {

#[verifier::external_type_specification]
#[verifier::external_body]
pub struct ExTokenStream(proc_macro2::TokenStream);

/// What a token stream holds, tree by tree, by view.
pub uninterp spec fn stream_toks(s: proc_macro2::TokenStream) -> Seq<Tok>;

/// One token tree, told apart by its kind; a group's contents are left as a
/// stream.
pub enum TreePart {
    Ident(String),
    Punct(char, Spacing),
    Literal(String),
    Group(Delimiter, proc_macro2::TokenStream),
}

/// The view of a told-apart token tree.
pub open spec fn part_tok(p: TreePart) -> Tok {
    match p {
        TreePart::Ident(s) => Tok::Ident(s@),
        TreePart::Punct(c, sp) => Tok::Punct(c, sp),
        TreePart::Literal(s) => Tok::Literal(s@),
        TreePart::Group(d, s) => Tok::Group(d, stream_toks(s)),
    }
}

/// The token trees of a stream in order (`IntoIterator` of
/// `proc_macro2::TokenStream`), each told apart by its variant, with an
/// identifier's and a literal's text (`to_string`), a punctuation's character
/// and spacing, and a group's delimiter and contents (`stream`). Claimed:
/// they are, one for one, what the stream holds.
#[verifier::external_body]
fn stream_parts(s: &proc_macro2::TokenStream) -> (r: Vec<TreePart>)
    ensures
        r@.map_values(|p: TreePart| part_tok(p)) == stream_toks(*s),
{
    s.clone().into_iter().map(|t| match t {
        proc_macro2::TokenTree::Ident(i) => TreePart::Ident(i.to_string()),
        proc_macro2::TokenTree::Punct(p) => TreePart::Punct(p.as_char(), match p.spacing() {
            proc_macro2::Spacing::Joint => Spacing::Joint,
            proc_macro2::Spacing::Alone => Spacing::Alone,
        }),
        proc_macro2::TokenTree::Literal(l) => TreePart::Literal(l.to_string()),
        proc_macro2::TokenTree::Group(g) => TreePart::Group(match g.delimiter() {
            proc_macro2::Delimiter::Parenthesis => Delimiter::Parenthesis,
            proc_macro2::Delimiter::Brace => Delimiter::Brace,
            proc_macro2::Delimiter::Bracket => Delimiter::Bracket,
            proc_macro2::Delimiter::None => Delimiter::Invisible,
        }, g.stream()),
    }).collect()
}

/// A copy of a token stream (`Clone` of `proc_macro2::TokenStream`).
/// Claimed: it holds the same tokens.
#[verifier::external_body]
pub fn clone_stream(s: &proc_macro2::TokenStream) -> (r: proc_macro2::TokenStream)
    ensures
        stream_toks(r) == stream_toks(*s),
{
    s.clone()
}

/// Reads a token stream into the library's token model.
pub fn read_stream(s: &proc_macro2::TokenStream) -> (r: Vec<tokens::TokenTree>)
    ensures
        toks_view(r@) == stream_toks(*s),
    decreases stream_toks(*s),
{
    let mut parts = stream_parts(s);
    let ghost ts = stream_toks(*s);
    let ghost ps = parts@;
    proof {
        assert(ps.map_values(|p: TreePart| part_tok(p)).len() == ps.len());
    }
    let mut out: Vec<tokens::TokenTree> = Vec::new();
    let mut i: usize = 0;
    let n = parts.len();
    while i < n
        invariant
            i <= n,
            n == ps.len(),
            ts == stream_toks(*s),
            ts.len() == n,
            forall|j: int| 0 <= j < n ==> #[trigger] ts[j] == part_tok(ps[j]),
            parts@ == ps.subrange(i as int, n as int),
            out@.len() == i,
            toks_view(out@) == ts.take(i as int),
        decreases n - i,
    {
        proof {
            assert(ts[i as int] == ps.map_values(|p: TreePart| part_tok(p))[i as int]);
        }
        let part = parts.remove(0);
        proof {
            assert(part == ps[i as int]);
            assert(parts@ =~= ps.subrange(i + 1, n as int));
        }
        let t = match part {
            TreePart::Ident(x) => tokens::TokenTree::Ident(x),
            TreePart::Punct(c, sp) => tokens::TokenTree::Punct(c, sp),
            TreePart::Literal(x) => tokens::TokenTree::Literal(x),
            TreePart::Group(d, inner) => {
                proof {
                    assert(ts[i as int] == Tok::Group(d, stream_toks(inner)));
                    assert(decreases_to!(ts => ts[i as int]));
                    let g = ts[i as int];
                    assert(g->Group_1 == stream_toks(inner));
                    assert(decreases_to!(g => g->Group_1));
                }
                let v = read_stream(&inner);
                tokens::TokenTree::Group(d, v)
            },
        };
        proof {
            let o = out@.push(t);
            assert(o.drop_last() =~= out@);
            assert(toks_view(o) == toks_view(out@).push(tok_view(t)));
            assert(ts.take(i + 1) =~= ts.take(i as int).push(ts[i as int]));
        }
        out.push(t);
        i = i + 1;
    }
    assert(ts.take(ts.len() as int) =~= ts);
    out
}

} // verus!
