//! `select!`: two arms, each `"feat" => expr`, `! => expr` or a bare
//! expression, separated by `else` (or `,`), and the choice between them
//! that the expansion makes.

use vstd::prelude::*;
use vstd::string::*;
use proc_macro2::Span;
use crate::expand::{cfg_blocks, gate, make_feature_literal, Gate};
use crate::syntax::{
    copy_range, expr_end, fat_arrow, fat_arrow_at, find_lit, lemma_lit_at_bounds, lit_at, is_ident, is_ident_spec, is_punct,
    is_punct_spec, lit_value, lit_value_spec, parse_error, parse_expr, ErrorKind, ParseError,
};
use crate::tokens::{
    count_trees, count_trees_from, lemma_skip_in_bounds, skip_trees, skip_trees_from, KindV,
    Spacing, Token, TokenKind, TokenV,
};

verus! {

/// One arm of `select!`.
#[derive(Debug)]
pub enum SelectArmArgs {
    /// `"feat" => expr`; `feat` is the value of the literal.
    Explicit { feat: String, body: Vec<Token> },
    /// `! => expr`
    Not { body: Vec<Token> },
    /// `expr` (no feature name: the choice goes by `.await`)
    Implicit { body: Vec<Token> },
}

/// The value of a [`SelectArmArgs`].
pub enum ArmV {
    Explicit(Seq<char>, Seq<TokenV>),
    Not(Seq<TokenV>),
    Implicit(Seq<TokenV>),
}

impl View for SelectArmArgs {
    type V = ArmV;

    open spec fn view(&self) -> ArmV {
        match self {
            SelectArmArgs::Explicit { feat, body } => ArmV::Explicit(feat@, body.deep_view()),
            SelectArmArgs::Not { body } => ArmV::Not(body.deep_view()),
            SelectArmArgs::Implicit { body } => ArmV::Implicit(body.deep_view()),
        }
    }
}

/// The arm that starts at `i`, and the index just past it. A string
/// literal (in invisible groups or not) followed by `=>` starts an arm
/// with a feature name, `! =>` a `!`
/// arm; anything else, a literal or a `!` without `=>` after it included,
/// starts a bare expression.
pub open spec fn arm_at(s: Seq<TokenV>, i: int) -> Result<(ArmV, int), (ErrorKind, int)> {
    let named = match lit_at(s, i) {
        Some((k, e)) => fat_arrow_at(s, e),
        None => false,
    };
    if named {
        let (k, e) = lit_at(s, i).unwrap();
        match expr_end(s, e + 2) {
            Some(end) => Ok(
                (ArmV::Explicit(lit_value_spec(s[k]).unwrap(), s.subrange(e + 2, end)), end),
            ),
            None => Err((ErrorKind::InvalidExpression, e + 2)),
        }
    } else if 0 <= i < s.len() && is_punct_spec(s[i], '!') && fat_arrow_at(s, i + 1) {
        match expr_end(s, i + 3) {
            Some(e) => Ok((ArmV::Not(s.subrange(i + 3, e)), e)),
            None => Err((ErrorKind::InvalidExpression, i + 3)),
        }
    } else {
        match expr_end(s, i) {
            Some(e) => Ok((ArmV::Implicit(s.subrange(i, e)), e)),
            None => Err((ErrorKind::InvalidExpression, i)),
        }
    }
}

/// Parses one arm at `i`: either `"feat" => expr`, `! => expr`, or `expr`
/// (which may itself start with `!` or a string literal); returns it with
/// the index just past it.
pub fn parse_one_arm(s: &Vec<Token>, i: usize) -> (r: Result<(SelectArmArgs, usize), ParseError>)
    requires
        i <= s.len(),
    ensures
        r matches Ok((arm, next)) ==> arm_at(s.deep_view(), i as int) == Ok::<_, (ErrorKind, int)>(
            (arm@, next as int),
        ) && next <= s.len(),
        r matches Err(e) ==> arm_at(s.deep_view(), i as int) matches Err(x) && e.spec_is(x),
{
    let ghost sv = s.deep_view();
    let found = find_lit(s, i);
    let named = match found {
        Some((k, e)) => fat_arrow(s, e),
        None => false,
    };
    if named {
        let (k, e) = found.unwrap();
        proof {
            lemma_lit_at_bounds(sv, i as int);
        }
        assert(sv.len() == s.len());
        let feat = lit_value(&s[k]).unwrap();
        let end = parse_expr(s, e + 2)?;
        let body = copy_range(s, e + 2, end);
        Ok((SelectArmArgs::Explicit { feat, body }, end))
    } else if i < s.len() && is_punct(&s[i], '!') && fat_arrow(s, i + 1) {
        let e = parse_expr(s, i + 3)?;
        let body = copy_range(s, i + 3, e);
        Ok((SelectArmArgs::Not { body }, e))
    } else {
        let e = parse_expr(s, i)?;
        let body = copy_range(s, i, e);
        Ok((SelectArmArgs::Implicit { body }, e))
    }
}

/// The input of `select!`: two arms.
#[derive(Debug)]
pub struct SelectInput {
    pub arm0: SelectArmArgs,
    pub arm1: SelectArmArgs,
}

/// The token that separates the arms: `else`, or `,`.
pub open spec fn is_separator(t: TokenV) -> bool {
    is_ident_spec(t, "else"@) || is_punct_spec(t, ',')
}

/// The two arms that `s` holds, or the first error.
pub open spec fn select_input_spec(s: Seq<TokenV>) -> Result<(ArmV, ArmV), (ErrorKind, int)> {
    match arm_at(s, 0) {
        Err(e) => Err(e),
        Ok((a0, e0)) => if !(0 <= e0 < s.len() && is_separator(s[e0])) {
            Err((ErrorKind::ExpectedSeparator, e0))
        } else {
            match arm_at(s, e0 + 1) {
                Err(e) => Err(e),
                Ok((a1, e1)) => if e1 != s.len() {
                    Err((ErrorKind::UnexpectedToken, e1))
                } else {
                    Ok((a0, a1))
                },
            }
        },
    }
}

impl SelectInput {
    /// Parses `arm else arm` (or `arm, arm`), which must span the input.
    pub fn parse(s: &Vec<Token>) -> (r: Result<SelectInput, ParseError>)
        ensures
            r matches Ok(input) ==> select_input_spec(s.deep_view()) == Ok::<_, (ErrorKind, int)>(
                (input.arm0@, input.arm1@),
            ),
            r matches Err(e) ==> select_input_spec(s.deep_view()) matches Err(x) && e.spec_is(x),
    {
        let (arm0, e0) = parse_one_arm(s, 0)?;
        if !(e0 < s.len() && (is_ident(&s[e0], "else") || is_punct(&s[e0], ','))) {
            return Err(parse_error(ErrorKind::ExpectedSeparator, e0, None));
        }
        let (arm1, e1) = parse_one_arm(s, e0 + 1)?;
        if e1 != s.len() {
            return Err(parse_error(ErrorKind::UnexpectedToken, e1, None));
        }
        Ok(SelectInput { arm0, arm1 })
    }
}


/// `t` is a `.` not joined to the next token.
pub open spec fn is_dot_alone(t: TokenV) -> bool {
    t.kind == KindV::Punct('.', Spacing::Alone)
}

/// A lone `.` at `i` followed by the identifier `await`.
pub open spec fn awaits_at(s: Seq<TokenV>, i: int) -> bool {
    is_dot_alone(s[i]) && is_ident_spec(s[i + 1], "await"@)
}

/// `s` holds `.await` somewhere, inside groups too.
pub open spec fn has_await(s: Seq<TokenV>) -> bool {
    exists|i: int| 0 <= i && i + 1 < s.len() && #[trigger] awaits_at(s, i)
}

/// `s` without its last two token trees when they are `.` and `await`;
/// else `s` itself.
pub open spec fn strip_await(s: Seq<TokenV>) -> Seq<TokenV> {
    let n = count_trees(s, 0);
    if n >= 2 {
        let a = skip_trees(s, 0, (n - 2) as nat);
        let b = skip_trees(s, 0, (n - 1) as nat);
        if is_punct_spec(s[a], '.') && is_ident_spec(s[b], "await"@) {
            s.subrange(0, a)
        } else {
            s
        }
    } else {
        s
    }
}

/// Checks whether the token stream `ts` contains a `.await`, at any depth.
pub fn token_stream_has_await(ts: &Vec<Token>) -> (r: bool)
    ensures
        r == has_await(ts.deep_view()),
{
    let ghost sv = ts.deep_view();
    let mut i: usize = 0;
    while i < ts.len() && ts.len() - i > 1
        invariant
            sv == ts.deep_view(),
            i <= ts.len(),
            forall|j: int| 0 <= j < i ==> !#[trigger] awaits_at(sv, j),
        decreases ts.len() - i,
    {
        let dot = match &ts[i].kind {
            TokenKind::Punct(c, sp) => *c == '.' && *sp == Spacing::Alone,
            _ => false,
        };
        if dot && is_ident(&ts[i + 1], "await") {
            assert(awaits_at(sv, i as int));
            return true;
        }
        assert(!awaits_at(sv, i as int));
        i = i + 1;
    }
    false
}

/// Strips a trailing `.await` from a token stream.
pub fn strip_await_from_tokens(ts: &Vec<Token>) -> (r: Vec<Token>)
    ensures
        r.deep_view() == strip_await(ts.deep_view()),
{
    let ghost sv = ts.deep_view();
    let n = count_trees_from(ts, 0);
    if n >= 2 {
        let a = skip_trees_from(ts, 0, n - 2);
        let b = skip_trees_from(ts, 0, n - 1);
        proof {
            lemma_skip_in_bounds(sv, 0, (n - 2) as nat);
            lemma_skip_in_bounds(sv, 0, (n - 1) as nat);
        }
        if is_punct(&ts[a], '.') && is_ident(&ts[b], "await") {
            return copy_range(ts, 0, a);
        }
    }
    copy_range(ts, 0, ts.len())
}

/// The name starts with `!`, the mark of a negated feature.
pub open spec fn negated(f: Seq<char>) -> bool {
    f.len() > 0 && f[0] == '!'
}

/// Checks if the given string has the `!` (not) prefix.
pub fn has_not_prefix(s: &str) -> (r: bool)
    ensures
        r == negated(s@),
{
    s.unicode_len() > 0 && s.get_char(0) == '!'
}

/// The name after its `!` prefix.
fn without_not_prefix(s: &str) -> (r: String)
    requires
        negated(s@),
    ensures
        r@ == s@.drop_first(),
{
    let rest = s.substring_char(1, s.unicode_len());
    assert(rest@ =~= s@.drop_first());
    String::from_str(rest)
}

/// An arm `"f" => b` against the other arm's expression `other`: `b` when
/// the feature `f` is enabled and `other` when it is not; for `"!g" => b`,
/// `b` when `g` is disabled and `other` when it is enabled.
pub open spec fn explicit_gate(f: Seq<char>, b: Seq<TokenV>, other: Seq<TokenV>, site: Span) -> Gate {
    if negated(f) {
        gate(f.drop_first(), other, b, site)
    } else {
        gate(f, b, other, site)
    }
}

/// The choice that `select!` makes between its two arms; `dflt` is the
/// default feature name. Of two arms with feature names the first decides,
/// and two negated names go by the default feature. A `!` arm is taken
/// when the other arm's feature (the default one beside a bare arm) is
/// disabled; of two bare arms, the one with `.await` is the async one.
pub open spec fn select_gate(a0: ArmV, a1: ArmV, dflt: Seq<char>, site: Span) -> Gate {
    match (a0, a1) {
        (ArmV::Explicit(f0, b0), ArmV::Explicit(f1, b1)) => if negated(f0) && negated(f1) {
            gate(dflt, b0, b1, site)
        } else {
            explicit_gate(f0, b0, b1, site)
        },
        (ArmV::Explicit(f, b), ArmV::Not(n)) => explicit_gate(f, b, n, site),
        (ArmV::Not(n), ArmV::Explicit(f, b)) => explicit_gate(f, b, n, site),
        (ArmV::Explicit(f, b), ArmV::Implicit(m)) => explicit_gate(f, b, m, site),
        (ArmV::Implicit(m), ArmV::Explicit(f, b)) => explicit_gate(f, b, m, site),
        (ArmV::Implicit(b0), ArmV::Implicit(b1)) => {
            let h0 = has_await(b0);
            let h1 = has_await(b1);
            if h0 && !h1 {
                gate(dflt, b0, b1, site)
            } else if !h0 && h1 {
                gate(dflt, b1, b0, site)
            } else if h0 && h1 {
                gate(dflt, b0, strip_await(b1), site)
            } else {
                gate(dflt, b0, b1, site)
            }
        },
        (ArmV::Not(n), ArmV::Implicit(m)) => gate(dflt, m, n, site),
        (ArmV::Implicit(m), ArmV::Not(n)) => gate(dflt, m, n, site),
        (ArmV::Not(b0), ArmV::Not(b1)) => gate(dflt, b0, b1, site),
    }
}

/// `{ #[cfg(feature = "feature")] { on } #[cfg(not(feature = "feature"))] { off } }`
fn feature_blocks(feature: &str, on: &Vec<Token>, off: &Vec<Token>, site: Span) -> (r: Vec<Token>)
    ensures
        r.deep_view() == gate(feature@, on.deep_view(), off.deep_view(), site).tokens(),
{
    let lit = make_feature_literal(feature, site);
    cfg_blocks(&lit, on, off, site)
}

/// `{ #[cfg(feature = "feature")] { on } #[cfg(not(feature = "feature"))] { off } }`
/// with the default feature name.
pub fn cfg_block(async_branch: &Vec<Token>, sync_branch: &Vec<Token>, default_feature: &str, site: Span) -> (r: Vec<Token>)
    ensures
        r.deep_view() == gate(
            default_feature@,
            async_branch.deep_view(),
            sync_branch.deep_view(),
            site,
        ).tokens(),
{
    feature_blocks(default_feature, async_branch, sync_branch, site)
}

/// An arm `"feat" => body` against another arm's expression `other`.
fn explicit_first(feat: &String, body: &Vec<Token>, other: &Vec<Token>, site: Span) -> (r: Vec<Token>)
    ensures
        r.deep_view() == explicit_gate(feat@, body.deep_view(), other.deep_view(), site).tokens(),
{
    if has_not_prefix(feat.as_str()) {
        let inner = without_not_prefix(feat.as_str());
        feature_blocks(inner.as_str(), other, body, site)
    } else {
        feature_blocks(feat.as_str(), body, other, site)
    }
}

impl SelectInput {
    /// The tokens that the two arms expand to; `default_feature` is the
    /// default feature name, `site` the span of the tokens made here.
    pub fn expand(&self, default_feature: &str, site: Span) -> (r: Vec<Token>)
        ensures
            r.deep_view() == select_gate(self.arm0@, self.arm1@, default_feature@, site).tokens(),
    {
        match (&self.arm0, &self.arm1) {
            (
                SelectArmArgs::Explicit { feat: f0, body: b0 },
                SelectArmArgs::Explicit { feat: f1, body: b1 },
            ) => {
                if has_not_prefix(f0.as_str()) && has_not_prefix(f1.as_str()) {
                    feature_blocks(default_feature, b0, b1, site)
                } else {
                    explicit_first(f0, b0, b1, site)
                }
            },
            (SelectArmArgs::Explicit { feat, body }, SelectArmArgs::Not { body: other }) => {
                explicit_first(feat, body, other, site)
            },
            (SelectArmArgs::Not { body: other }, SelectArmArgs::Explicit { feat, body }) => {
                explicit_first(feat, body, other, site)
            },
            (SelectArmArgs::Explicit { feat, body }, SelectArmArgs::Implicit { body: other }) => {
                explicit_first(feat, body, other, site)
            },
            (SelectArmArgs::Implicit { body: other }, SelectArmArgs::Explicit { feat, body }) => {
                explicit_first(feat, body, other, site)
            },
            (SelectArmArgs::Implicit { body: b0 }, SelectArmArgs::Implicit { body: b1 }) => {
                let b0_has_await = token_stream_has_await(b0);
                let b1_has_await = token_stream_has_await(b1);
                if b0_has_await && !b1_has_await {
                    cfg_block(b0, b1, default_feature, site)
                } else if !b0_has_await && b1_has_await {
                    cfg_block(b1, b0, default_feature, site)
                } else if b0_has_await && b1_has_await {
                    let b1_stripped = strip_await_from_tokens(b1);
                    cfg_block(b0, &b1_stripped, default_feature, site)
                } else {
                    cfg_block(b0, b1, default_feature, site)
                }
            },
            (SelectArmArgs::Not { body: not_body }, SelectArmArgs::Implicit { body: imp_body }) => {
                cfg_block(imp_body, not_body, default_feature, site)
            },
            (SelectArmArgs::Implicit { body: imp_body }, SelectArmArgs::Not { body: not_body }) => {
                cfg_block(imp_body, not_body, default_feature, site)
            },
            (SelectArmArgs::Not { body: b0 }, SelectArmArgs::Not { body: b1 }) => {
                cfg_block(b0, b1, default_feature, site)
            },
        }
    }
}

/// The expansion of `select!` on the tokens `s`, or the first parse error.
pub open spec fn select_spec(s: Seq<TokenV>, default_feature: Seq<char>, site: Span) -> Result<
    Seq<TokenV>,
    (ErrorKind, int),
> {
    match select_input_spec(s) {
        Ok((a0, a1)) => Ok(select_gate(a0, a1, default_feature, site).tokens()),
        Err(e) => Err(e),
    }
}

/// `select!`: parses the two arms and expands them; `default_feature` is
/// the feature name that arms without one go by.
pub fn select(input: &Vec<Token>, default_feature: &str, site: Span) -> (r: Result<Vec<Token>, ParseError>)
    ensures
        r matches Ok(out) ==> select_spec(input.deep_view(), default_feature@, site) == Ok::<
            _,
            (ErrorKind, int),
        >(out.deep_view()),
        r matches Err(e) ==> select_spec(input.deep_view(), default_feature@, site) matches Err(x)
            && e.spec_is(x),
{
    let parsed = SelectInput::parse(input)?;
    Ok(parsed.expand(default_feature, site))
}

} // verus!
