//! The token sequences that the macros expand to: attributes
//! `#[cfg(..)]`, and a pair of blocks under them of which the compiler
//! keeps one.

use vstd::prelude::*;
use vstd::string::*;
use proc_macro2::Span;
use crate::syntax::append_all;
use crate::tokens::{Delim, KindV, Spacing, Token, TokenKind, TokenV};

verus! {

/// A token made by the expansion itself, at span `site`.
pub open spec fn tok(kind: KindV, site: Span) -> TokenV {
    TokenV { kind, span: site }
}

pub open spec fn ident(w: Seq<char>, site: Span) -> TokenV {
    tok(KindV::Ident(w), site)
}

pub open spec fn punct(c: char, site: Span) -> TokenV {
    tok(KindV::Punct(c, Spacing::Alone), site)
}

pub open spec fn open(d: Delim, site: Span) -> TokenV {
    tok(KindV::Open(d), site)
}

pub open spec fn close(d: Delim, site: Span) -> TokenV {
    tok(KindV::Close(d), site)
}

/// The string literal `value`, made at `site`.
pub open spec fn feature_literal(value: Seq<char>, site: Span) -> TokenV {
    tok(KindV::Str(value), site)
}

/// `{ tokens }`
pub open spec fn braced(inner: Seq<TokenV>, site: Span) -> Seq<TokenV> {
    seq![open(Delim::Brace, site)] + inner + seq![close(Delim::Brace, site)]
}

/// `#[cfg(feature = LIT)]`
pub open spec fn cfg_attr(lit: TokenV, site: Span) -> Seq<TokenV> {
    seq![
        punct('#', site),
        open(Delim::Bracket, site),
        ident("cfg"@, site),
        open(Delim::Paren, site),
        ident("feature"@, site),
        punct('=', site),
        lit,
        close(Delim::Paren, site),
        close(Delim::Bracket, site),
    ]
}

/// `#[cfg(not(feature = LIT))]`
pub open spec fn cfg_not_attr(lit: TokenV, site: Span) -> Seq<TokenV> {
    seq![
        punct('#', site),
        open(Delim::Bracket, site),
        ident("cfg"@, site),
        open(Delim::Paren, site),
        ident("not"@, site),
        open(Delim::Paren, site),
        ident("feature"@, site),
        punct('=', site),
        lit,
        close(Delim::Paren, site),
        close(Delim::Paren, site),
        close(Delim::Bracket, site),
    ]
}

/// `{ #[cfg(feature = LIT)] { on } #[cfg(not(feature = LIT))] { off } }`
pub open spec fn cfg_blocks_tokens(lit: TokenV, on: Seq<TokenV>, off: Seq<TokenV>, site: Span) -> Seq<
    TokenV,
> {
    braced(
        cfg_attr(lit, site) + braced(on, site) + cfg_not_attr(lit, site) + braced(off, site),
        site,
    )
}

/// A choice between two token sequences on whether a feature is enabled,
/// written as two blocks under `#[cfg]` attributes, so that the compiler
/// keeps one and drops the other.
pub struct Gate {
    /// The literal that names the feature.
    pub lit: TokenV,
    /// The name of the feature.
    pub feature: Seq<char>,
    pub on: Seq<TokenV>,
    pub off: Seq<TokenV>,
    pub site: Span,
}

impl Gate {
    /// The token sequence for this choice.
    pub open spec fn tokens(self) -> Seq<TokenV> {
        cfg_blocks_tokens(self.lit, self.on, self.off, self.site)
    }

    /// The tokens that take effect when the features in `enabled` are on.
    pub open spec fn taken(self, enabled: Set<Seq<char>>) -> Seq<TokenV> {
        if enabled.contains(self.feature) {
            self.on
        } else {
            self.off
        }
    }
}

/// A gate on the feature `feature`, named by a literal made at `site`.
pub open spec fn gate(feature: Seq<char>, on: Seq<TokenV>, off: Seq<TokenV>, site: Span) -> Gate {
    Gate { lit: feature_literal(feature, site), feature, on, off, site }
}

pub fn push_ident(out: &mut Vec<Token>, w: &str, site: Span)
    ensures
        final(out).deep_view() == old(out).deep_view().push(ident(w@, site)),
{
    let ghost prev = out.deep_view();
    out.push(Token { kind: TokenKind::Ident(String::from_str(w)), span: site });
    assert(out.deep_view() =~= prev.push(ident(w@, site)));
}

pub fn push_punct(out: &mut Vec<Token>, c: char, site: Span)
    ensures
        final(out).deep_view() == old(out).deep_view().push(punct(c, site)),
{
    let ghost prev = out.deep_view();
    out.push(Token { kind: TokenKind::Punct(c, Spacing::Alone), span: site });
    assert(out.deep_view() =~= prev.push(punct(c, site)));
}

pub fn push_open(out: &mut Vec<Token>, d: Delim, site: Span)
    ensures
        final(out).deep_view() == old(out).deep_view().push(open(d, site)),
{
    let ghost prev = out.deep_view();
    out.push(Token { kind: TokenKind::Open(d), span: site });
    assert(out.deep_view() =~= prev.push(open(d, site)));
}

pub fn push_close(out: &mut Vec<Token>, d: Delim, site: Span)
    ensures
        final(out).deep_view() == old(out).deep_view().push(close(d, site)),
{
    let ghost prev = out.deep_view();
    out.push(Token { kind: TokenKind::Close(d), span: site });
    assert(out.deep_view() =~= prev.push(close(d, site)));
}

pub fn push_token(out: &mut Vec<Token>, t: &Token)
    ensures
        final(out).deep_view() == old(out).deep_view().push(t@),
{
    let ghost prev = out.deep_view();
    out.push(t.clone());
    assert(out.deep_view() =~= prev.push(t@));
}

/// The string literal `value`, made at `site`.
pub fn make_feature_literal(value: &str, site: Span) -> (r: Token)
    ensures
        r@ == feature_literal(value@, site),
{
    Token { kind: TokenKind::Str(String::from_str(value)), span: site }
}

/// Appends `{ inner }`.
pub fn push_braced(out: &mut Vec<Token>, inner: &Vec<Token>, site: Span)
    ensures
        final(out).deep_view() == old(out).deep_view() + braced(inner.deep_view(), site),
{
    let ghost prev = out.deep_view();
    push_open(out, Delim::Brace, site);
    append_all(out, inner);
    push_close(out, Delim::Brace, site);
    assert(out.deep_view() =~= prev + braced(inner.deep_view(), site));
}

/// Appends `#[cfg(feature = LIT)]`, or `#[cfg(not(feature = LIT))]` when
/// `negated`.
pub fn push_cfg_attr(out: &mut Vec<Token>, lit: &Token, negated: bool, site: Span)
    ensures
        final(out).deep_view() == old(out).deep_view() + if negated {
            cfg_not_attr(lit@, site)
        } else {
            cfg_attr(lit@, site)
        },
{
    let ghost prev = out.deep_view();
    push_punct(out, '#', site);
    push_open(out, Delim::Bracket, site);
    push_ident(out, "cfg", site);
    push_open(out, Delim::Paren, site);
    if negated {
        push_ident(out, "not", site);
        push_open(out, Delim::Paren, site);
    }
    push_ident(out, "feature", site);
    push_punct(out, '=', site);
    push_token(out, lit);
    push_close(out, Delim::Paren, site);
    if negated {
        push_close(out, Delim::Paren, site);
    }
    push_close(out, Delim::Bracket, site);
    if negated {
        assert(out.deep_view() =~= prev + cfg_not_attr(lit@, site));
    } else {
        assert(out.deep_view() =~= prev + cfg_attr(lit@, site));
    }
}

/// `{ #[cfg(feature = LIT)] { on } #[cfg(not(feature = LIT))] { off } }`
pub fn cfg_blocks(lit: &Token, on: &Vec<Token>, off: &Vec<Token>, site: Span) -> (r: Vec<Token>)
    ensures
        r.deep_view() == cfg_blocks_tokens(lit@, on.deep_view(), off.deep_view(), site),
{
    let mut out: Vec<Token> = Vec::new();
    push_open(&mut out, Delim::Brace, site);
    push_cfg_attr(&mut out, lit, false, site);
    push_braced(&mut out, on, site);
    push_cfg_attr(&mut out, lit, true, site);
    push_braced(&mut out, off, site);
    push_close(&mut out, Delim::Brace, site);
    assert(out.deep_view() =~= cfg_blocks_tokens(lit@, on.deep_view(), off.deep_view(), site));
    out
}

} // verus!
