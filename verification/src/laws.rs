//! What holds of the expansions of `select!`, `invoke!` and `#[func]` for
//! every input: which code takes effect under which features.

use vstd::prelude::*;
use proc_macro2::Span;
use crate::args::{func_args_spec, invoke_input_spec, InvokeV};
use crate::func::{
    inner_attrs_end, item_parts, ItemParts, lemma_inner_attrs_bounds, lemma_outer_attrs_bounds, lemma_vis_bounds,
    outer_attrs_end, vis_end,
};
use crate::invoke::{await_suffix, invoke_gate};
use crate::select::{arm_at, awaits_at, has_await, negated, select_gate, strip_await, ArmV};
use crate::syntax::{fat_arrow_at, is_ident_spec, is_punct_spec, lit_at, lit_value_spec, ErrorKind};
use crate::tokens::{
    count_trees, groups_close, lemma_skip_all, lemma_skip_in_bounds, lemma_skip_succ,
    lemma_trees_prefix, skip_trees, tree_end, Delim, KindV, TokenV, lemma_tree_end_bounds, render, token_text, Spacing,
};
use crate::expand::{cfg_blocks_tokens, feature_literal};
use crate::config::{configured_name, Manifest, Metadata, MightBeAsync, Package};

verus! {

/// The expression of an arm.
pub open spec fn arm_body(a: ArmV) -> Seq<TokenV> {
    match a {
        ArmV::Explicit(_, b) => b,
        ArmV::Not(b) => b,
        ArmV::Implicit(b) => b,
    }
}

/// `select!("F" => a else <arm>)`: `a` takes effect when the feature `F`
/// is enabled, the other arm's expression when it is not.
pub proof fn law_select_explicit_first(
    f: Seq<char>,
    a: Seq<TokenV>,
    second: ArmV,
    dflt: Seq<char>,
    site: Span,
    enabled: Set<Seq<char>>,
)
    requires
        !negated(f),
    ensures
        select_gate(ArmV::Explicit(f, a), second, dflt, site).taken(enabled) == if enabled.contains(
            f,
        ) {
            a
        } else {
            arm_body(second)
        },
{
}

/// `select!("!F" => a else <arm>)`: `a` takes effect when the feature `F`
/// is disabled, the other arm's expression when it is enabled; unless the
/// other arm is a negated feature name too.
pub proof fn law_select_negated_first(
    f: Seq<char>,
    a: Seq<TokenV>,
    second: ArmV,
    dflt: Seq<char>,
    site: Span,
    enabled: Set<Seq<char>>,
)
    requires
        negated(f),
        !(second matches ArmV::Explicit(g, _) && negated(g)),
    ensures
        select_gate(ArmV::Explicit(f, a), second, dflt, site).taken(enabled) == if enabled.contains(
            f.drop_first(),
        ) {
            arm_body(second)
        } else {
            a
        },
{
}

/// The arm `"f" => ..` applies: `f` is enabled, or `f` is `!g` and `g`
/// is disabled.
pub open spec fn name_holds(f: Seq<char>, enabled: Set<Seq<char>>) -> bool {
    if negated(f) {
        !enabled.contains(f.drop_first())
    } else {
        enabled.contains(f)
    }
}

/// An arm `"f" => b` beside a `!` arm or a bare arm, in either position:
/// `b` takes effect exactly when its feature name applies (so `"!g" => b`
/// exactly when `g` is disabled), the other arm's expression otherwise.
pub proof fn law_select_named_arm(
    f: Seq<char>,
    b: Seq<TokenV>,
    other: ArmV,
    dflt: Seq<char>,
    site: Span,
    enabled: Set<Seq<char>>,
)
    requires
        other is Not || other is Implicit,
    ensures
        select_gate(ArmV::Explicit(f, b), other, dflt, site).taken(enabled) == if name_holds(
            f,
            enabled,
        ) {
            b
        } else {
            arm_body(other)
        },
        select_gate(other, ArmV::Explicit(f, b), dflt, site).taken(enabled) == if name_holds(
            f,
            enabled,
        ) {
            b
        } else {
            arm_body(other)
        },
{
}

/// Beside a `!` arm or a bare arm, swapping the arms of `select!` does
/// not change which expression takes effect.
pub proof fn law_select_arm_order_irrelevant(
    f: Seq<char>,
    b: Seq<TokenV>,
    other: ArmV,
    dflt: Seq<char>,
    site: Span,
    enabled: Set<Seq<char>>,
)
    requires
        other is Not || other is Implicit,
    ensures
        select_gate(ArmV::Explicit(f, b), other, dflt, site).taken(enabled) == select_gate(
            other,
            ArmV::Explicit(f, b),
            dflt,
            site,
        ).taken(enabled),
{
    law_select_named_arm(f, b, other, dflt, site, enabled);
}

/// `select!(! => a else ! => b)`: `a` takes effect when the default feature
/// is enabled, `b` when it is not.
pub proof fn law_select_two_negations(
    a: Seq<TokenV>,
    b: Seq<TokenV>,
    dflt: Seq<char>,
    site: Span,
    enabled: Set<Seq<char>>,
)
    ensures
        select_gate(ArmV::Not(a), ArmV::Not(b), dflt, site).taken(enabled) == if enabled.contains(
            dflt,
        ) {
            a
        } else {
            b
        },
{
}

/// Two bare arms of which one holds `.await`: that one takes effect when
/// the default feature is enabled, the other when it is not.
pub proof fn law_select_await_decides(
    b0: Seq<TokenV>,
    b1: Seq<TokenV>,
    dflt: Seq<char>,
    site: Span,
    enabled: Set<Seq<char>>,
)
    requires
        has_await(b0) != has_await(b1),
    ensures
        select_gate(ArmV::Implicit(b0), ArmV::Implicit(b1), dflt, site).taken(enabled) == if enabled.contains(
            dflt,
        ) == has_await(b0) {
            b0
        } else {
            b1
        },
{
}

/// Two bare arms that both hold `.await`: the first takes effect when the
/// default feature is enabled, the second without its trailing `.await`
/// when it is not; when neither holds `.await`, the first and the second.
pub proof fn law_select_await_alike(
    b0: Seq<TokenV>,
    b1: Seq<TokenV>,
    dflt: Seq<char>,
    site: Span,
    enabled: Set<Seq<char>>,
)
    requires
        has_await(b0) == has_await(b1),
    ensures
        select_gate(ArmV::Implicit(b0), ArmV::Implicit(b1), dflt, site).taken(enabled) == if enabled.contains(
            dflt,
        ) {
            b0
        } else if has_await(b1) {
            strip_await(b1)
        } else {
            b1
        },
{
}

/// A `!` arm beside a bare arm, in either order: the `!` arm takes effect
/// when the default feature is disabled, the bare arm when it is enabled.
pub proof fn law_select_negation_beside_bare_arm(
    n: Seq<TokenV>,
    m: Seq<TokenV>,
    dflt: Seq<char>,
    site: Span,
    enabled: Set<Seq<char>>,
)
    ensures
        select_gate(ArmV::Not(n), ArmV::Implicit(m), dflt, site).taken(enabled) == if enabled.contains(
            dflt,
        ) {
            m
        } else {
            n
        },
        select_gate(ArmV::Implicit(m), ArmV::Not(n), dflt, site).taken(enabled) == if enabled.contains(
            dflt,
        ) {
            m
        } else {
            n
        },
{
}

/// Whatever `select!` chooses, the expansion is a pair of blocks under
/// `#[cfg(feature = ..)]` and `#[cfg(not(feature = ..))]`, so the arm not
/// chosen is not compiled.
pub proof fn law_select_expands_to_cfg_blocks(a0: ArmV, a1: ArmV, dflt: Seq<char>, site: Span)
    ensures
        ({
            let g = select_gate(a0, a1, dflt, site);
            &&& g.tokens() == cfg_blocks_tokens(g.lit, g.on, g.off, site)
            &&& g.lit == feature_literal(g.feature, site)
            &&& (g.on == arm_body(a0) || g.on == arm_body(a1))
        }),
{
}

/// Stripping takes off exactly a final `.` and `await`, or nothing.
pub proof fn law_strip_await_takes_trailing_await(s: Seq<TokenV>)
    ensures
        strip_await(s) == s || {
            &&& s.len() >= 2
            &&& strip_await(s) == s.subrange(0, s.len() - 2)
            &&& is_punct_spec(s[s.len() - 2], '.')
            &&& is_ident_spec(s[s.len() - 1], "await"@)
        },
{
    let n = count_trees(s, 0);
    if n >= 2 {
        let a = skip_trees(s, 0, (n - 2) as nat);
        let b = skip_trees(s, 0, (n - 1) as nat);
        lemma_skip_in_bounds(s, 0, (n - 2) as nat);
        lemma_skip_in_bounds(s, 0, (n - 1) as nat);
        if is_punct_spec(s[a], '.') && is_ident_spec(s[b], "await"@) {
            lemma_skip_succ(s, 0, (n - 2) as nat);
            lemma_skip_succ(s, 0, (n - 1) as nat);
            lemma_skip_all(s, 0);
            assert(b == a + 1);
            assert(b + 1 == s.len());
        }
    }
}

/// Appending `.await` to a stream whose groups all close, and stripping
/// it again, gives the stream back.
pub proof fn law_strip_await_undoes_append(t: Seq<TokenV>, dot: TokenV, kw: TokenV)
    requires
        groups_close(t),
        is_punct_spec(dot, '.'),
        is_ident_spec(kw, "await"@),
    ensures
        strip_await(t + seq![dot, kw]) == t,
{
    let x = seq![dot, kw];
    let u = t + x;
    let c = count_trees(t, 0);
    lemma_trees_prefix(t, x, 0);
    let m = t.len() as int;
    assert(u[m] == dot);
    assert(u[m + 1] == kw);
    assert(tree_end(u, m) == m + 1);
    assert(tree_end(u, m + 1) == m + 2);
    assert(count_trees(u, m + 2) == 0);
    assert(count_trees(u, m + 1) == 1);
    assert(count_trees(u, m) == 2);
    let n = count_trees(u, 0);
    assert(n == c + 2);
    assert(skip_trees(u, 0, (n - 2) as nat) == m);
    lemma_skip_succ(u, 0, (n - 2) as nat);
    assert(skip_trees(u, 0, (n - 1) as nat) == m + 1);
    assert(u.subrange(0, m) =~= t);
}

/// `invoke!(call)`: when the input does not start with a string literal,
/// the whole input is the call, and it is awaited exactly when the feature
/// `"async"` is enabled.
pub proof fn law_invoke_default(s: Seq<TokenV>, site: Span, enabled: Set<Seq<char>>)
    requires
        lit_at(s, 0) is None,
    ensures
        invoke_input_spec(s) == Ok::<_, (ErrorKind, int)>(InvokeV::Default(s)),
        invoke_gate(InvokeV::Default(s), site).taken(enabled) == if enabled.contains("async"@) {
            s + await_suffix(site)
        } else {
            s
        },
{
}

/// `invoke!("F" => call)`, the literal standing in invisible groups or not:
/// the call is awaited exactly when the feature `F` is enabled.
pub proof fn law_invoke_explicit(
    s: Seq<TokenV>,
    k: int,
    e: int,
    f: Seq<char>,
    site: Span,
    enabled: Set<Seq<char>>,
)
    requires
        lit_at(s, 0) == Some((k, e)),
        lit_value_spec(s[k]) == Some(f),
        fat_arrow_at(s, e),
    ensures
        invoke_input_spec(s) == Ok::<_, (ErrorKind, int)>(
            InvokeV::Explicit(s[k], s.subrange(e + 2, s.len() as int)),
        ),
        invoke_gate(InvokeV::Explicit(s[k], s.subrange(e + 2, s.len() as int)), site).taken(
            enabled,
        ) == if enabled.contains(f) {
            s.subrange(e + 2, s.len() as int) + await_suffix(site)
        } else {
            s.subrange(e + 2, s.len() as int)
        },
{
}

/// `#[func]` without a feature name goes by `"async"`, as `invoke!`
/// without one does, so that a function and the calls into it switch
/// together; with a string literal it goes by that literal's value, also
/// when the literal stands in an invisible group.
pub proof fn law_func_feature_name(
    lit: TokenV,
    open: TokenV,
    close: TokenV,
    e: Seq<TokenV>,
    site: Span,
)
    requires
        open.kind == KindV::Open(Delim::Invisible),
        close.kind == KindV::Close(Delim::Invisible),
    ensures
        func_args_spec(Seq::empty()) == Ok::<_, (ErrorKind, int)>(
            invoke_gate(InvokeV::Default(e), site).feature,
        ),
        lit_value_spec(lit) is Some ==> func_args_spec(seq![lit]) == Ok::<_, (ErrorKind, int)>(
            lit_value_spec(lit).unwrap(),
        ),
        lit_value_spec(lit) is Some ==> func_args_spec(seq![open, lit, close]) == func_args_spec(
            seq![lit],
        ),
{
    let w = seq![open, lit, close];
    if lit_value_spec(lit) is Some {
        assert(lit_at(w, 1) == Some((1int, 2int)));
        assert(lit_at(w, 0) == Some((1int, 3int)));
        assert(lit_at(seq![lit], 0) == Some((0int, 1int)));
    }
}

/// `item` is the parts `p` put back together, with the first `k`
/// attributes before the visibility and the rest after the body's opening
/// brace; the body may stand in an invisible group.
pub open spec fn rebuilds(item: Seq<TokenV>, p: ItemParts, k: int) -> bool {
    let head = p.attrs.subrange(0, k) + p.vis + p.sig;
    let body = seq![p.block[0]] + p.attrs.subrange(k, p.attrs.len() as int) + p.block.subrange(
        1,
        p.block.len() as int,
    );
    &&& 0 <= k <= p.attrs.len()
    &&& p.block.len() >= 2
    &&& {
        ||| item == head + body
        ||| {
            &&& item.len() == head.len() + body.len() + 2
            &&& item.subrange(0, head.len() as int) == head
            &&& item[head.len() as int].kind == KindV::Open(Delim::Invisible)
            &&& item.subrange(head.len() + 1int, item.len() - 1) == body
            &&& item[item.len() - 1].kind == KindV::Close(Delim::Invisible)
        }
    }
}

/// The parts of a function item put back together give the item: the
/// inner attributes of its body (the tail of `attrs`) go back after the
/// body's opening brace, and an invisible group that held the body closes
/// round it again.
pub proof fn law_func_parts_make_the_item(item: Seq<TokenV>)
    ensures
        item_parts(item) matches Ok(p) ==> exists|k: int| #[trigger] rebuilds(item, p, k),
{
    if let Ok(p) = item_parts(item) {
        let t = count_trees(item, 0);
        let p1 = outer_attrs_end(item, 0);
        let p2 = vis_end(item, p1);
        let p3 = skip_trees(item, 0, (t - 1) as nat);
        let last = item.len() - 1;
        let wrapped = item[p3].kind == KindV::Open(Delim::Invisible);
        let bo = if wrapped { p3 + 1 } else { p3 };
        let bc = if wrapped { last - 1 } else { last };
        let content = item.subrange(bo + 1, bc);
        let q = inner_attrs_end(content, 0);
        lemma_outer_attrs_bounds(item, 0);
        lemma_vis_bounds(item, p1);
        lemma_skip_in_bounds(item, 0, (t - 1) as nat);
        lemma_inner_attrs_bounds(content, 0);
        let k = p1;
        let head = p.attrs.subrange(0, k) + p.vis + p.sig;
        let body = seq![p.block[0]] + p.attrs.subrange(k, p.attrs.len() as int)
            + p.block.subrange(1, p.block.len() as int);
        assert(p.attrs.subrange(0, k) =~= item.subrange(0, p1));
        assert(p.attrs.subrange(k, p.attrs.len() as int) =~= content.subrange(0, q));
        assert(p.block.subrange(1, p.block.len() as int) =~= content.subrange(
            q,
            content.len() as int,
        ) + seq![item[bc]]);
        assert(head =~= item.subrange(0, p3));
        assert(body =~= item.subrange(bo, bc + 1));
        if wrapped {
            assert(item.subrange(0, head.len() as int) =~= head);
            assert(item.subrange(head.len() + 1int, item.len() - 1) =~= body);
        } else {
            assert(item =~= head + body);
        }
        assert(rebuilds(item, p, k));
    }
}

/// `#` followed by a bracket group starts at `k`: an outer attribute.
pub open spec fn attribute_at(s: Seq<TokenV>, k: int) -> bool {
    &&& 0 <= k
    &&& k + 1 < s.len()
    &&& s[k].kind matches KindV::Punct(c, _) && c == '#'
    &&& s[k + 1].kind == KindV::Open(Delim::Bracket)
}

/// Where the `m`-th attribute of a run that starts at `i` starts: each
/// attribute is two token trees, `#` and its bracket group.
pub open spec fn attribute_start(s: Seq<TokenV>, i: int, m: nat) -> int {
    skip_trees(s, i, 2 * m)
}

/// The outer attributes of an item are all of its leading `#[..]`: from
/// `i`, the attribute part is some number of whole attributes, and no
/// attribute starts where it ends.
pub proof fn law_outer_attributes_all_taken(s: Seq<TokenV>, i: int)
    requires
        0 <= i <= s.len(),
    ensures
        i <= outer_attrs_end(s, i) <= s.len(),
        !attribute_at(s, outer_attrs_end(s, i)),
        exists|n: nat|
            outer_attrs_end(s, i) == attribute_start(s, i, n) && forall|m: nat|
                m < n ==> attribute_at(s, #[trigger] attribute_start(s, i, m)),
    decreases s.len() - i,
{
    if attribute_at(s, i) {
        lemma_tree_end_bounds(s, i + 1);
        let e = tree_end(s, i + 1);
        law_outer_attributes_all_taken(s, e);
        let n = choose|n: nat|
            outer_attrs_end(s, e) == attribute_start(s, e, n) && forall|m: nat|
                m < n ==> attribute_at(s, #[trigger] attribute_start(s, e, m));
        assert forall|k: nat| #[trigger] skip_trees(s, i, k + 2) == skip_trees(s, e, k) by {
            assert(tree_end(s, i) == i + 1);
            assert(skip_trees(s, i, k + 2) == skip_trees(s, i + 1, k + 1));
        }
        assert(attribute_start(s, i, n + 1) == attribute_start(s, e, n)) by {
            assert(skip_trees(s, i, 2 * n + 2) == skip_trees(s, e, 2 * n));
        }
        assert forall|m: nat| m < n + 1 implies attribute_at(s, #[trigger] attribute_start(s, i, m)) by {
            if m > 0 {
                let m1 = (m - 1) as nat;
                assert(skip_trees(s, i, 2 * m1 + 2) == skip_trees(s, e, 2 * m1));
                assert(attribute_start(s, i, m) == attribute_start(s, e, m1));
            }
        }
        assert(outer_attrs_end(s, i) == attribute_start(s, i, n + 1));
    } else {
        assert(outer_attrs_end(s, i) == attribute_start(s, i, 0));
    }
}

/// `#!` followed by a bracket group starts at `k`: an inner attribute.
pub open spec fn inner_attribute_at(s: Seq<TokenV>, k: int) -> bool {
    &&& 0 <= k
    &&& k + 2 < s.len()
    &&& s[k].kind matches KindV::Punct(c, _) && c == '#'
    &&& s[k + 1].kind matches KindV::Punct(c, _) && c == '!'
    &&& s[k + 2].kind == KindV::Open(Delim::Bracket)
}

/// Where the `m`-th inner attribute of a run that starts at `i` starts:
/// each is three token trees, `#`, `!` and its bracket group.
pub open spec fn inner_attribute_start(s: Seq<TokenV>, i: int, m: nat) -> int {
    skip_trees(s, i, 3 * m)
}

/// The inner attributes that open a function body are all of its leading
/// `#![..]`: some number of whole inner attributes, and none where they
/// end.
pub proof fn law_inner_attributes_all_taken(s: Seq<TokenV>, i: int)
    requires
        0 <= i <= s.len(),
    ensures
        i <= inner_attrs_end(s, i) <= s.len(),
        !inner_attribute_at(s, inner_attrs_end(s, i)),
        exists|n: nat|
            inner_attrs_end(s, i) == inner_attribute_start(s, i, n) && forall|m: nat|
                m < n ==> inner_attribute_at(s, #[trigger] inner_attribute_start(s, i, m)),
    decreases s.len() - i,
{
    if inner_attribute_at(s, i) {
        lemma_tree_end_bounds(s, i + 2);
        let e = tree_end(s, i + 2);
        law_inner_attributes_all_taken(s, e);
        let n = choose|n: nat|
            inner_attrs_end(s, e) == inner_attribute_start(s, e, n) && forall|m: nat|
                m < n ==> inner_attribute_at(s, #[trigger] inner_attribute_start(s, e, m));
        assert forall|k: nat| #[trigger] skip_trees(s, i, k + 3) == skip_trees(s, e, k) by {
            assert(tree_end(s, i) == i + 1);
            assert(tree_end(s, i + 1) == i + 2);
            assert(skip_trees(s, i, k + 3) == skip_trees(s, i + 1, k + 2));
            assert(skip_trees(s, i + 1, k + 2) == skip_trees(s, i + 2, k + 1));
        }
        assert(inner_attribute_start(s, i, n + 1) == inner_attribute_start(s, e, n)) by {
            assert(skip_trees(s, i, 3 * n + 3) == skip_trees(s, e, 3 * n));
        }
        assert forall|m: nat| m < n + 1 implies inner_attribute_at(
            s,
            #[trigger] inner_attribute_start(s, i, m),
        ) by {
            if m > 0 {
                let m1 = (m - 1) as nat;
                assert(skip_trees(s, i, 3 * m1 + 3) == skip_trees(s, e, 3 * m1));
                assert(inner_attribute_start(s, i, m) == inner_attribute_start(s, e, m1));
            }
        }
        assert(inner_attrs_end(s, i) == inner_attribute_start(s, i, n + 1));
    } else {
        assert(inner_attrs_end(s, i) == inner_attribute_start(s, i, 0));
    }
}

/// A visibility that starts with `pub` is taken whole: `pub` alone, or
/// `pub` with the parenthesized restriction after it.
pub proof fn law_visibility_takes_pub(s: Seq<TokenV>, i: int)
    requires
        0 <= i < s.len(),
        s[i].kind == KindV::Ident("pub"@),
    ensures
        i < vis_end(s, i) <= s.len(),
        i + 1 < s.len() && s[i + 1].kind == KindV::Open(Delim::Paren) ==> vis_end(s, i) == tree_end(
            s,
            i + 1,
        ) && vis_end(s, i) > i + 1,
        !(i + 1 < s.len() && s[i + 1].kind == KindV::Open(Delim::Paren)) ==> vis_end(s, i) == i + 1,
{
    if i + 1 < s.len() && s[i + 1].kind == KindV::Open(Delim::Paren) {
        lemma_tree_end_bounds(s, i + 1);
    }
}

/// In a split function item, what follows the attributes starts neither
/// with an attribute nor, when the item is `pub`, without its `pub`: a
/// `pub` item's visibility part is `pub` (with its restriction), so the
/// `async` that the expansion puts after the visibility stands after the
/// whole of it.
pub proof fn law_func_split_after_attributes(item: Seq<TokenV>)
    ensures
        item_parts(item) matches Ok(p) ==> !attribute_at(p.vis + p.sig, 0),
        item_parts(item) matches Ok(p) ==> ({
            let p1 = outer_attrs_end(item, 0);
            0 <= p1 < item.len() && item[p1].kind == KindV::Ident("pub"@)
        }) ==> p.vis.len() >= 1 && p.vis[0].kind == KindV::Ident("pub"@) && (p.vis.len() == 1
            || p.vis[1].kind == KindV::Open(Delim::Paren)),
{
    if let Ok(p) = item_parts(item) {
        let t = count_trees(item, 0);
        let p1 = outer_attrs_end(item, 0);
        let p2 = vis_end(item, p1);
        let p3 = skip_trees(item, 0, (t - 1) as nat);
        law_outer_attributes_all_taken(item, 0);
        lemma_vis_bounds(item, p1);
        lemma_skip_in_bounds(item, 0, (t - 1) as nat);
        let q = p.vis + p.sig;
        assert(q =~= item.subrange(p1, p3));
        if q.len() >= 2 {
            assert(q[0] == item[p1] && q[1] == item[p1 + 1]);
        }
        if 0 <= p1 < item.len() && item[p1].kind == KindV::Ident("pub"@) {
            law_visibility_takes_pub(item, p1);
            assert(p.vis =~= item.subrange(p1, p2));
        }
    }
}

/// A lone `.` at `i` directly followed by the identifier `await`, as the
/// tokens are written.
pub open spec fn dot_await_written(s: Seq<TokenV>, i: int) -> bool {
    &&& 0 <= i
    &&& i + 1 < s.len()
    &&& s[i].kind == KindV::Punct('.', Spacing::Alone)
    &&& s[i + 1].kind == KindV::Ident("await"@)
}

/// `.await` is detected wherever it stands, whatever follows it (`?`, a
/// method call, the end of a group), and only where it is written.
pub proof fn law_await_detected_where_written(s: Seq<TokenV>, i: int)
    ensures
        dot_await_written(s, i) ==> has_await(s),
        has_await(s) ==> exists|j: int| #[trigger] dot_await_written(s, j),
{
    if dot_await_written(s, i) {
        assert(awaits_at(s, i));
    }
    if has_await(s) {
        let j = choose|j: int| 0 <= j && j + 1 < s.len() && #[trigger] awaits_at(s, j);
        assert(dot_await_written(s, j));
    }
}

/// Of two bare arms, one of which has `.await` written in it and the
/// other none, the awaiting one takes effect when the default feature is
/// enabled and the other when it is not, in either order.
pub proof fn law_select_awaiting_bare_arm(
    a: Seq<TokenV>,
    b: Seq<TokenV>,
    i: int,
    dflt: Seq<char>,
    site: Span,
    enabled: Set<Seq<char>>,
)
    requires
        dot_await_written(a, i),
        forall|j: int| !#[trigger] dot_await_written(b, j),
    ensures
        select_gate(ArmV::Implicit(a), ArmV::Implicit(b), dflt, site).taken(enabled) == if enabled.contains(
            dflt,
        ) {
            a
        } else {
            b
        },
        select_gate(ArmV::Implicit(b), ArmV::Implicit(a), dflt, site).taken(enabled) == if enabled.contains(
            dflt,
        ) {
            a
        } else {
            b
        },
{
    law_await_detected_where_written(a, i);
    law_await_detected_where_written(b, i);
}

/// Text is put together token by token: the text of `a + b` is that of
/// `a`, then that of `b`, with one space between unless the last token of
/// `a` is punctuation joint with the next (so `::` and `=>` stay whole).
pub proof fn law_render_concat(a: Seq<TokenV>, b: Seq<TokenV>, transparent: bool)
    requires
        a.len() > 0,
        b.len() > 0,
    ensures
        render(a + b, transparent) == render(a, transparent) + (if a.last().kind matches KindV::Punct(
            _,
            Spacing::Joint,
        ) {
            Seq::<char>::empty()
        } else {
            seq![' ']
        }) + render(b, transparent),
    decreases b.len(),
{
    let u = a + b;
    if b.len() == 1 {
        assert(u.drop_last() =~= a);
        assert(render(b, transparent) == token_text(b[0], transparent)) by {
            assert(b.drop_last().len() == 0);
            assert(render(b.drop_last(), transparent) =~= Seq::<char>::empty());
        }
    } else {
        law_render_concat(a, b.drop_last(), transparent);
        assert(u.drop_last() =~= a + b.drop_last());
        assert((a + b.drop_last()).last() == b.drop_last().last());
    }
    assert(render(u, transparent) =~= render(a, transparent) + (if a.last().kind matches KindV::Punct(
        _,
        Spacing::Joint,
    ) {
        Seq::<char>::empty()
    } else {
        seq![' ']
    }) + render(b, transparent));
}

/// Two punctuation characters of which the first is joint read as the two
/// characters side by side, in either rendering.
pub proof fn law_render_joint_pair(c: char, d: char, sp: Spacing, x: Span, y: Span, transparent: bool)
    ensures
        render(
            seq![
                TokenV { kind: KindV::Punct(c, Spacing::Joint), span: x },
                TokenV { kind: KindV::Punct(d, sp), span: y },
            ],
            transparent,
        ) == seq![c, d],
{
    let p = TokenV { kind: KindV::Punct(c, Spacing::Joint), span: x };
    let q = TokenV { kind: KindV::Punct(d, sp), span: y };
    let s = seq![p, q];
    assert(s.drop_last() =~= seq![p]);
    assert(seq![p].drop_last() =~= Seq::<TokenV>::empty());
    assert(render(seq![p].drop_last(), transparent) == Seq::<char>::empty());
    assert(render(seq![p], transparent) =~= seq![c]);
    assert(s.last() == q);
    assert(token_text(q, transparent) == seq![d]);
    assert(render(s, transparent) =~= seq![c, d]);
}

/// The configured name is read at one key alone: it is the string set at
/// `package.metadata.might_be_async.default_feature_name`, and nothing
/// (so the default feature name is `"async"`) when there is no manifest,
/// or the manifest lacks `package`, `metadata`, `might_be_async` or the
/// key. Every manifest has one of these shapes.
pub proof fn law_configured_name_at_the_key(n: Option<String>)
    ensures
        configured_name(None) is None,
        configured_name(Some(Manifest { package: None })) is None,
        configured_name(Some(Manifest { package: Some(Package { metadata: None }) })) is None,
        configured_name(
            Some(Manifest { package: Some(Package { metadata: Some(Metadata { might_be_async: None }) }) }),
        ) is None,
        configured_name(
            Some(
                Manifest {
                    package: Some(
                        Package {
                            metadata: Some(
                                Metadata { might_be_async: Some(MightBeAsync { default_feature_name: n }) },
                            ),
                        },
                    ),
                },
            ),
        ) == match n {
            Some(v) => Some(v@),
            None => None::<Seq<char>>,
        },
{
}

/// `! =>` starts a `!` arm whose expression follows the `=>`; a `!` that
/// no `=>` follows starts a bare arm that includes the `!` (as `!flag`).
pub proof fn law_select_not_arm_needs_fat_arrow(s: Seq<TokenV>, i: int)
    requires
        0 <= i < s.len(),
        s[i].kind matches KindV::Punct(c, _) && c == '!',
    ensures
        ({
            &&& i + 2 < s.len()
            &&& s[i + 1].kind == KindV::Punct('=', Spacing::Joint)
            &&& s[i + 2].kind matches KindV::Punct(c, _) && c == '>'
        }) ==> match arm_at(s, i) {
            Ok((a, e)) => a == ArmV::Not(s.subrange(i + 3, e)),
            Err((k, at)) => k == ErrorKind::InvalidExpression && at == i + 3,
        },
        !({
            &&& i + 2 < s.len()
            &&& s[i + 1].kind == KindV::Punct('=', Spacing::Joint)
            &&& s[i + 2].kind matches KindV::Punct(c, _) && c == '>'
        }) ==> match arm_at(s, i) {
            Ok((a, e)) => a == ArmV::Implicit(s.subrange(i, e)),
            Err((k, at)) => k == ErrorKind::InvalidExpression && at == i,
        },
{
    assert(lit_at(s, i) is None);
}

} // verus!
