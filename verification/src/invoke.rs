//! `invoke!`: the call, with `.await` after it when the feature is on.

use vstd::prelude::*;
use proc_macro2::Span;
use crate::args::{invoke_input_spec, InvokeInput, InvokeV};
use crate::expand::{cfg_blocks, feature_literal, ident, make_feature_literal, punct, push_ident, push_punct, Gate};
use crate::syntax::{append_all, lit_value_spec, ErrorKind, ParseError};
use crate::tokens::{Token, TokenV};

verus! {

/// `.await`
pub open spec fn await_suffix(site: Span) -> Seq<TokenV> {
    seq![punct('.', site), ident("await"@, site)]
}

/// The choice that `invoke!` makes: the expression with `.await` when the
/// feature is on, without when it is off.
pub open spec fn invoke_gate(input: InvokeV, site: Span) -> Gate {
    match input {
        InvokeV::Default(e) => Gate {
            lit: feature_literal("async"@, site),
            feature: "async"@,
            on: e + await_suffix(site),
            off: e,
            site,
        },
        InvokeV::Explicit(feat, e) => Gate {
            lit: feat,
            feature: lit_value_spec(feat).unwrap(),
            on: e + await_suffix(site),
            off: e,
            site,
        },
    }
}

/// The expansion of `invoke!` on the tokens `s`, or the parse error.
pub open spec fn invoke_spec(s: Seq<TokenV>, site: Span) -> Result<Seq<TokenV>, (ErrorKind, int)> {
    match invoke_input_spec(s) {
        Ok(input) => Ok(invoke_gate(input, site).tokens()),
        Err(e) => Err(e),
    }
}

/// `expr.await`
fn awaited(expr: &Vec<Token>, site: Span) -> (r: Vec<Token>)
    ensures
        r.deep_view() == expr.deep_view() + await_suffix(site),
{
    let mut out: Vec<Token> = Vec::new();
    append_all(&mut out, expr);
    push_punct(&mut out, '.', site);
    push_ident(&mut out, "await", site);
    assert(out.deep_view() =~= expr.deep_view() + await_suffix(site));
    out
}

impl InvokeInput {
    /// `{ #[cfg(feature = F)] { expr.await } #[cfg(not(feature = F))] { expr } }`
    pub fn expand(&self, site: Span) -> (r: Vec<Token>)
        ensures
            r.deep_view() == invoke_gate(self@, site).tokens(),
    {
        match self {
            InvokeInput::Default(expr) => {
                let lit = make_feature_literal("async", site);
                cfg_blocks(&lit, &awaited(expr, site), expr, site)
            },
            InvokeInput::Explicit(feat, expr) => cfg_blocks(feat, &awaited(expr, site), expr, site),
        }
    }
}

/// Wraps a call expression, adding `.await` when the async feature is
/// enabled: `invoke!(call)` goes by the feature `"async"`,
/// `invoke!("feat" => call)` by `feat`.
pub fn invoke(input: &Vec<Token>, site: Span) -> (r: Result<Vec<Token>, ParseError>)
    ensures
        r matches Ok(out) ==> invoke_spec(input.deep_view(), site) == Ok::<_, (ErrorKind, int)>(
            out.deep_view(),
        ),
        r matches Err(e) ==> invoke_spec(input.deep_view(), site) matches Err(x) && e.spec_is(x),
{
    let parsed = InvokeInput::parse(input)?;
    Ok(parsed.expand(site))
}

} // verus!
