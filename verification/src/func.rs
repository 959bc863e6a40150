//! `#[func]`: the function twice, once as written under
//! `#[cfg(not(feature = F))]` and once `async` under `#[cfg(feature = F)]`.

use vstd::prelude::*;
use proc_macro2::Span;
use vstd::string::*;
use crate::args::{func_args_spec, FuncArgs};
use crate::expand::{
    cfg_attr, cfg_not_attr, feature_literal, ident, make_feature_literal, push_cfg_attr,
    push_ident, push_token,
};
use crate::outside::{check_item_fn, syn_parses_item_fn};
use crate::syntax::{
    append_all, copy_range, is_ident, is_ident_spec, is_punct, is_punct_spec, parse_error,
    ErrorKind, ParseError,
};
use crate::tokens::{
    count_trees, count_trees_from, find_tree_end, lemma_skip_in_bounds, lemma_tree_end_bounds,
    render, render_from, skip_trees, skip_trees_from, tree_end, Delim, KindV, Token, TokenKind,
    TokenV,
};

verus! {

/// The parts of a function item, as its tokens stand: its
/// attributes (the outer ones, then the inner ones that opened its body),
/// its visibility, its signature, and its body without the inner
/// attributes.
pub struct ItemParts {
    pub attrs: Seq<TokenV>,
    pub vis: Seq<TokenV>,
    pub sig: Seq<TokenV>,
    pub block: Seq<TokenV>,
}

/// Index past the outer attributes `#[..]` that start at `i`.
pub open spec fn outer_attrs_end(s: Seq<TokenV>, i: int) -> int
    decreases s.len() - i,
{
    if 0 <= i && i + 1 < s.len() && is_punct_spec(s[i], '#') && s[i + 1].kind == KindV::Open(
        Delim::Bracket,
    ) {
        proof {
            lemma_tree_end_bounds(s, i + 1);
        }
        outer_attrs_end(s, tree_end(s, i + 1))
    } else {
        i
    }
}

/// Index past the inner attributes `#![..]` that start at `i`.
pub open spec fn inner_attrs_end(s: Seq<TokenV>, i: int) -> int
    decreases s.len() - i,
{
    if 0 <= i && i + 2 < s.len() && is_punct_spec(s[i], '#') && is_punct_spec(s[i + 1], '!')
        && s[i + 2].kind == KindV::Open(Delim::Bracket) {
        proof {
            lemma_tree_end_bounds(s, i + 2);
        }
        inner_attrs_end(s, tree_end(s, i + 2))
    } else {
        i
    }
}

/// Index past the visibility that starts at `i`: `pub`, with its
/// parenthesized restriction if one follows; or an invisible group that is
/// empty or starts with `pub`; or nothing.
pub open spec fn vis_end(s: Seq<TokenV>, i: int) -> int {
    if 0 <= i < s.len() && is_ident_spec(s[i], "pub"@) {
        if i + 1 < s.len() && s[i + 1].kind == KindV::Open(Delim::Paren) {
            tree_end(s, i + 1)
        } else {
            i + 1
        }
    } else if 0 <= i && i + 1 < s.len() && s[i].kind == KindV::Open(Delim::Invisible) && (
    s[i + 1].kind is Close || is_ident_spec(s[i + 1], "pub"@)) {
        tree_end(s, i)
    } else {
        i
    }
}

/// The outer attributes end within the sequence, at or after `i`.
pub proof fn lemma_outer_attrs_bounds(s: Seq<TokenV>, i: int)
    requires
        0 <= i <= s.len(),
    ensures
        i <= outer_attrs_end(s, i) <= s.len(),
    decreases s.len() - i,
{
    if i + 1 < s.len() && is_punct_spec(s[i], '#') && s[i + 1].kind == KindV::Open(Delim::Bracket) {
        lemma_tree_end_bounds(s, i + 1);
        lemma_outer_attrs_bounds(s, tree_end(s, i + 1));
    }
}

/// The inner attributes end within the sequence, at or after `i`.
pub proof fn lemma_inner_attrs_bounds(s: Seq<TokenV>, i: int)
    requires
        0 <= i <= s.len(),
    ensures
        i <= inner_attrs_end(s, i) <= s.len(),
    decreases s.len() - i,
{
    if i + 2 < s.len() && is_punct_spec(s[i], '#') && is_punct_spec(s[i + 1], '!') && s[i
        + 2].kind == KindV::Open(Delim::Bracket) {
        lemma_tree_end_bounds(s, i + 2);
        lemma_inner_attrs_bounds(s, tree_end(s, i + 2));
    }
}

/// The visibility ends within the sequence, at or after `i`.
pub proof fn lemma_vis_bounds(s: Seq<TokenV>, i: int)
    requires
        0 <= i <= s.len(),
    ensures
        i <= vis_end(s, i) <= s.len(),
{
    if i < s.len() {
        lemma_tree_end_bounds(s, i);
    }
    if i + 1 < s.len() {
        lemma_tree_end_bounds(s, i + 1);
    }
}

/// Splits the function item `item`, which `syn` must parse: outer
/// attributes, visibility, then the signature up to the last token tree,
/// which is the body (a brace group, or an invisible group around one).
pub open spec fn item_parts(item: Seq<TokenV>) -> Result<ItemParts, (ErrorKind, int)> {
    if !syn_parses_item_fn(render(item, true)) || count_trees(item, 0) == 0 {
        Err((ErrorKind::InvalidItem, 0))
    } else {
        let p1 = outer_attrs_end(item, 0);
        let p2 = vis_end(item, p1);
        let p3 = skip_trees(item, 0, (count_trees(item, 0) - 1) as nat);
        let last = item.len() - 1;
        let wrapped = item[p3].kind == KindV::Open(Delim::Invisible);
        let bo = if wrapped { p3 + 1 } else { p3 };
        let bc = if wrapped { last - 1 } else { last };
        if !(p2 <= p3 && bo < bc && item[bo].kind == KindV::Open(Delim::Brace) && item[bc].kind
            == KindV::Close(Delim::Brace) && (wrapped ==> item[last].kind == KindV::Close(
            Delim::Invisible,
        ))) {
            Err((ErrorKind::InvalidItem, 0))
        } else {
            let content = item.subrange(bo + 1, bc);
            let q = inner_attrs_end(content, 0);
            Ok(
                ItemParts {
                    attrs: item.subrange(0, p1) + content.subrange(0, q),
                    vis: item.subrange(p1, p2),
                    sig: item.subrange(p2, p3),
                    block: seq![item[bo]] + content.subrange(q, content.len() as int) + seq![
                        item[bc],
                    ],
                },
            )
        }
    }
}

/// The two definitions that `#[func]` makes of the parts `p`, gated on the
/// feature `feature`.
pub open spec fn func_tokens(feature: Seq<char>, p: ItemParts, site: Span) -> Seq<TokenV> {
    let lit = feature_literal(feature, site);
    p.attrs + cfg_not_attr(lit, site) + p.vis + p.sig + p.block + p.attrs + cfg_attr(lit, site)
        + p.vis + seq![ident("async"@, site)] + p.sig + p.block
}

/// The expansion of `#[func]` with attribute tokens `attr` on the item
/// `item`, or the first error.
pub open spec fn func_spec(attr: Seq<TokenV>, item: Seq<TokenV>, site: Span) -> Result<
    Seq<TokenV>,
    (ErrorKind, int),
> {
    match func_args_spec(attr) {
        Err(e) => Err(e),
        Ok(f) => match item_parts(item) {
            Err(e) => Err(e),
            Ok(p) => Ok(func_tokens(f, p, site)),
        },
    }
}

/// The parts of a function item, split into owned token vectors.
struct SplitItem {
    attrs: Vec<Token>,
    vis: Vec<Token>,
    sig: Vec<Token>,
    block: Vec<Token>,
}

fn is_open(t: &Token, d: Delim) -> (r: bool)
    ensures
        r == (t@.kind == KindV::Open(d)),
{
    match &t.kind {
        TokenKind::Open(e) => *e == d,
        _ => false,
    }
}

fn is_close(t: &Token, d: Delim) -> (r: bool)
    ensures
        r == (t@.kind == KindV::Close(d)),
{
    match &t.kind {
        TokenKind::Close(e) => *e == d,
        _ => false,
    }
}

/// Index past the outer attributes `#[..]` that start at `i`.
fn skip_outer_attrs(s: &Vec<Token>, i: usize) -> (r: usize)
    requires
        i <= s.len(),
    ensures
        r == outer_attrs_end(s.deep_view(), i as int),
        i <= r <= s.len(),
{
    let ghost sv = s.deep_view();
    let mut j = i;
    while s.len() - j > 1 && is_punct(&s[j], '#') && is_open(&s[j + 1], Delim::Bracket)
        invariant
            sv == s.deep_view(),
            i <= j <= s.len(),
            outer_attrs_end(sv, i as int) == outer_attrs_end(sv, j as int),
        decreases s.len() - j,
    {
        j = find_tree_end(s, j + 1);
    }
    j
}

/// Index past the inner attributes `#![..]` that start at `i`.
fn skip_inner_attrs(s: &Vec<Token>, i: usize) -> (r: usize)
    requires
        i <= s.len(),
    ensures
        r == inner_attrs_end(s.deep_view(), i as int),
        i <= r <= s.len(),
{
    let ghost sv = s.deep_view();
    let mut j = i;
    while s.len() - j > 2 && is_punct(&s[j], '#') && is_punct(&s[j + 1], '!') && is_open(
        &s[j + 2],
        Delim::Bracket,
    )
        invariant
            sv == s.deep_view(),
            i <= j <= s.len(),
            inner_attrs_end(sv, i as int) == inner_attrs_end(sv, j as int),
        decreases s.len() - j,
    {
        j = find_tree_end(s, j + 2);
    }
    j
}

/// Index past the visibility that starts at `i`.
fn skip_vis(s: &Vec<Token>, i: usize) -> (r: usize)
    requires
        i <= s.len(),
    ensures
        r == vis_end(s.deep_view(), i as int),
        i <= r <= s.len(),
{
    if i < s.len() && is_ident(&s[i], "pub") {
        if i + 1 < s.len() && is_open(&s[i + 1], Delim::Paren) {
            find_tree_end(s, i + 1)
        } else {
            i + 1
        }
    } else if s.len() - i > 1 && is_open(&s[i], Delim::Invisible) {
        let empty = match &s[i + 1].kind {
            TokenKind::Close(_) => true,
            _ => false,
        };
        if empty || is_ident(&s[i + 1], "pub") {
            find_tree_end(s, i)
        } else {
            i
        }
    } else {
        i
    }
}

/// The message for a function item whose last token tree is not its body.
fn not_a_function_body() -> (r: String) {
    String::from_str("expected a function item that ends in its body")
}

fn split_item(item: &Vec<Token>) -> (r: Result<SplitItem, ParseError>)
    ensures
        r matches Ok(parts) ==> item_parts(item.deep_view()) == Ok::<_, (ErrorKind, int)>(
            ItemParts {
                attrs: parts.attrs.deep_view(),
                vis: parts.vis.deep_view(),
                sig: parts.sig.deep_view(),
                block: parts.block.deep_view(),
            },
        ),
        r matches Err(e) ==> item_parts(item.deep_view()) matches Err(x) && e.spec_is(x),
{
    let ghost sv = item.deep_view();
    let text = render_from(item, 0, true);
    assert(sv.subrange(0, sv.len() as int) =~= sv);
    if let Err(message) = check_item_fn(text.as_str()) {
        return Err(parse_error(ErrorKind::InvalidItem, 0, Some(message)));
    }
    let t = count_trees_from(item, 0);
    if t == 0 {
        return Err(parse_error(ErrorKind::InvalidItem, 0, Some(not_a_function_body())));
    }
    let p1 = skip_outer_attrs(item, 0);
    let p2 = skip_vis(item, p1);
    let p3 = skip_trees_from(item, 0, t - 1);
    proof {
        lemma_skip_in_bounds(sv, 0, (t - 1) as nat);
    }
    let last = item.len() - 1;
    let wrapped = is_open(&item[p3], Delim::Invisible);
    let bo = if wrapped { p3 + 1 } else { p3 };
    if wrapped && last == 0 {
        return Err(parse_error(ErrorKind::InvalidItem, 0, Some(not_a_function_body())));
    }
    let bc = if wrapped { last - 1 } else { last };
    if !(p2 <= p3 && bo < bc && is_open(&item[bo], Delim::Brace) && is_close(&item[bc], Delim::Brace)
        && (!wrapped || is_close(&item[last], Delim::Invisible))) {
        return Err(parse_error(ErrorKind::InvalidItem, 0, Some(not_a_function_body())));
    }
    let content = copy_range(item, bo + 1, bc);
    let ghost cv = content.deep_view();
    let q = skip_inner_attrs(&content, 0);
    let mut attrs = copy_range(item, 0, p1);
    let inner_attrs = copy_range(&content, 0, q);
    append_all(&mut attrs, &inner_attrs);
    let vis = copy_range(item, p1, p2);
    let sig = copy_range(item, p2, p3);
    let mut block: Vec<Token> = Vec::new();
    push_token(&mut block, &item[bo]);
    let stmts = copy_range(&content, q, content.len());
    append_all(&mut block, &stmts);
    push_token(&mut block, &item[bc]);
    assert(block.deep_view() =~= seq![sv[bo as int]] + cv.subrange(q as int, cv.len() as int)
        + seq![sv[bc as int]]);
    Ok(SplitItem { attrs, vis, sig, block })
}

/// Generates the two versions of the function `item`: the one as written
/// under `#[cfg(not(feature = F))]`, and the `async` one under
/// `#[cfg(feature = F)]`, where `F` comes from the attribute tokens `attr`.
pub fn func(attr: &Vec<Token>, item: &Vec<Token>, site: Span) -> (r: Result<Vec<Token>, ParseError>)
    ensures
        r matches Ok(out) ==> func_spec(attr.deep_view(), item.deep_view(), site) == Ok::<
            _,
            (ErrorKind, int),
        >(out.deep_view()),
        r matches Err(e) ==> func_spec(attr.deep_view(), item.deep_view(), site) matches Err(x)
            && e.spec_is(x),
{
    let args = FuncArgs::parse(attr)?;
    let parts = split_item(item)?;
    let lit = make_feature_literal(args.feature_name.as_str(), site);
    let mut out: Vec<Token> = Vec::new();
    append_all(&mut out, &parts.attrs);
    push_cfg_attr(&mut out, &lit, true, site);
    append_all(&mut out, &parts.vis);
    append_all(&mut out, &parts.sig);
    append_all(&mut out, &parts.block);
    append_all(&mut out, &parts.attrs);
    push_cfg_attr(&mut out, &lit, false, site);
    append_all(&mut out, &parts.vis);
    push_ident(&mut out, "async", site);
    append_all(&mut out, &parts.sig);
    append_all(&mut out, &parts.block);
    let ghost p = ItemParts {
        attrs: parts.attrs.deep_view(),
        vis: parts.vis.deep_view(),
        sig: parts.sig.deep_view(),
        block: parts.block.deep_view(),
    };
    assert(out.deep_view() =~= func_tokens(args.feature_name@, p, site));
    Ok(out)
}

} // verus!
