//! The pieces of token-level parsing that the three macros share: single
//! tokens, string literals, `=>`, and the extent of an expression.

use vstd::prelude::*;
use vstd::string::*;
use crate::outside::{parse_expr_prefix, string_literal_value, syn_expr_rest, syn_string_value};
use crate::tokens::{
    count_trees, count_trees_from, render, render_from, skip_trees, skip_trees_from, Delim, KindV,
    Spacing, Token, TokenKind, TokenV,
};

verus! {

/// What went wrong while parsing a macro input.
#[derive(Clone, Copy, PartialEq, Eq, Debug, Structural)]
pub enum ErrorKind {
    ExpectedStringLiteral,
    ExpectedFatArrow,
    ExpectedSeparator,
    UnexpectedToken,
    InvalidExpression,
    InvalidItem,
}

/// A parse error: its kind, the index of the token where it arose (the
/// length of the input at its end), and, for an expression or an item that
/// does not parse, a message: `syn`'s where `syn` rejected the text.
#[derive(Debug)]
pub struct ParseError {
    pub kind: ErrorKind,
    pub at: usize,
    pub detail: Option<String>,
}

impl ParseError {
    /// The error is `e`, and carries a message exactly when it is about an
    /// expression or an item.
    pub open spec fn spec_is(&self, e: (ErrorKind, int)) -> bool {
        &&& self.kind == e.0
        &&& self.at == e.1
        &&& (self.detail is Some <==> (e.0 == ErrorKind::InvalidExpression || e.0
            == ErrorKind::InvalidItem))
    }
}

pub fn parse_error(kind: ErrorKind, at: usize, detail: Option<String>) -> (r: ParseError)
    ensures
        r.kind == kind,
        r.at == at,
        r.detail == detail,
{
    ParseError { kind, at, detail }
}

/// `t` is the punctuation character `c`, of either spacing.
pub open spec fn is_punct_spec(t: TokenV, c: char) -> bool {
    t.kind matches KindV::Punct(d, _) && d == c
}

/// `t` is the identifier `w`.
pub open spec fn is_ident_spec(t: TokenV, w: Seq<char>) -> bool {
    t.kind == KindV::Ident(w)
}

/// The value of `t` when it is a string literal: as `syn` reads it from the
/// source text of a literal.
pub open spec fn lit_value_spec(t: TokenV) -> Option<Seq<char>> {
    match t.kind {
        KindV::Lit(text) => syn_string_value(text),
        KindV::Str(v) => Some(v),
        _ => None,
    }
}

/// The string literal that starts at `i`, looking through invisible groups
/// round it (as a `macro_rules!` fragment hands one over): the index of the
/// literal token, and the index just past the groups that close round it.
pub open spec fn lit_at(s: Seq<TokenV>, i: int) -> Option<(int, int)>
    decreases s.len() - i,
{
    if i < 0 || i >= s.len() {
        None
    } else if lit_value_spec(s[i]) is Some {
        Some((i, i + 1))
    } else if s[i].kind == KindV::Open(Delim::Invisible) {
        match lit_at(s, i + 1) {
            Some((k, e)) => if 0 <= e < s.len() && s[e].kind == KindV::Close(Delim::Invisible) {
                Some((k, e + 1))
            } else {
                None
            },
            None => None,
        }
    } else {
        None
    }
}

/// A literal found by [`lit_at`] lies after `i`, and the groups round it
/// close before the end.
pub proof fn lemma_lit_at_bounds(s: Seq<TokenV>, i: int)
    requires
        lit_at(s, i) is Some,
    ensures
        0 <= i <= lit_at(s, i).unwrap().0 < lit_at(s, i).unwrap().1 <= s.len(),
        lit_value_spec(s[lit_at(s, i).unwrap().0]) is Some,
    decreases s.len() - i,
{
    if lit_value_spec(s[i]) is None {
        lemma_lit_at_bounds(s, i + 1);
    }
}

/// A `=>` starts at `i`: `=` joint with the `>` after it.
pub open spec fn fat_arrow_at(s: Seq<TokenV>, i: int) -> bool {
    &&& 0 <= i
    &&& i + 1 < s.len()
    &&& s[i].kind == KindV::Punct('=', Spacing::Joint)
    &&& is_punct_spec(s[i + 1], '>')
}

/// Where the expression that `syn` parses at `j` ends. `syn` reads the
/// source text of the tokens from `j`, each invisible group as a
/// parenthesized one and each negative literal in parentheses, so that
/// every token tree stays one tree.
pub open spec fn expr_end(s: Seq<TokenV>, j: int) -> Option<int> {
    match syn_expr_rest(render(s.subrange(j, s.len() as int), false)) {
        Some(rest) => if rest <= count_trees(s, j) {
            Some(skip_trees(s, j, (count_trees(s, j) - rest) as nat))
        } else {
            None
        },
        None => None,
    }
}

pub fn is_punct(t: &Token, c: char) -> (r: bool)
    ensures
        r == is_punct_spec(t@, c),
{
    match &t.kind {
        TokenKind::Punct(d, _) => *d == c,
        _ => false,
    }
}

pub fn is_ident(t: &Token, w: &str) -> (r: bool)
    ensures
        r == is_ident_spec(t@, w@),
{
    match &t.kind {
        TokenKind::Ident(x) => *x == String::from_str(w),
        _ => false,
    }
}

/// The value of `t` when it is a string literal.
pub fn lit_value(t: &Token) -> (r: Option<String>)
    ensures
        r matches Some(v) ==> lit_value_spec(t@) == Some(v@),
        r is None ==> lit_value_spec(t@) is None,
{
    match &t.kind {
        TokenKind::Lit(text) => string_literal_value(text.as_str()),
        TokenKind::Str(v) => Some(v.clone()),
        _ => None,
    }
}

/// Finds the string literal that starts at `i`, through invisible groups.
pub fn find_lit(s: &Vec<Token>, i: usize) -> (r: Option<(usize, usize)>)
    requires
        i <= s.len(),
    ensures
        match r {
            Some((k, e)) => lit_at(s.deep_view(), i as int) == Some((k as int, e as int)),
            None => lit_at(s.deep_view(), i as int) is None,
        },
    decreases s.len() - i,
{
    if i >= s.len() {
        return None;
    }
    if lit_value(&s[i]).is_some() {
        return Some((i, i + 1));
    }
    let opens = match &s[i].kind {
        TokenKind::Open(d) => *d == Delim::Invisible,
        _ => false,
    };
    if !opens {
        return None;
    }
    match find_lit(s, i + 1) {
        Some((k, e)) => {
            proof {
                lemma_lit_at_bounds(s.deep_view(), i + 1);
            }
            let closes = e < s.len() && match &s[e].kind {
                TokenKind::Close(d) => *d == Delim::Invisible,
                _ => false,
            };
            if closes {
                Some((k, e + 1))
            } else {
                None
            }
        },
        None => None,
    }
}

pub fn fat_arrow(s: &Vec<Token>, i: usize) -> (r: bool)
    ensures
        r == fat_arrow_at(s.deep_view(), i as int),
{
    if i < s.len() && i + 1 < s.len() {
        let joint_eq = match &s[i].kind {
            TokenKind::Punct(c, sp) => *c == '=' && *sp == Spacing::Joint,
            _ => false,
        };
        joint_eq && is_punct(&s[i + 1], '>')
    } else {
        false
    }
}

/// A copy of the tokens from `lo` to `hi`.
pub fn copy_range(s: &Vec<Token>, lo: usize, hi: usize) -> (r: Vec<Token>)
    requires
        lo <= hi <= s.len(),
    ensures
        r.deep_view() == s.deep_view().subrange(lo as int, hi as int),
{
    let mut r: Vec<Token> = Vec::new();
    let mut i = lo;
    while i < hi
        invariant
            lo <= i <= hi <= s.len(),
            r.deep_view() =~= s.deep_view().subrange(lo as int, i as int),
        decreases hi - i,
    {
        let ghost prev = r.deep_view();
        r.push(s[i].clone());
        assert(r.deep_view() =~= prev.push(s.deep_view()[i as int]));
        i = i + 1;
    }
    r
}

/// Appends copies of all the tokens of `src` to `out`.
pub fn append_all(out: &mut Vec<Token>, src: &Vec<Token>)
    ensures
        final(out).deep_view() == old(out).deep_view() + src.deep_view(),
{
    let ghost start = out.deep_view();
    let mut i: usize = 0;
    while i < src.len()
        invariant
            i <= src.len(),
            out.deep_view() =~= start + src.deep_view().subrange(0, i as int),
        decreases src.len() - i,
    {
        let ghost prev = out.deep_view();
        out.push(src[i].clone());
        assert(out.deep_view() =~= prev.push(src.deep_view()[i as int]));
        i = i + 1;
    }
    assert(src.deep_view().subrange(0, src.len() as int) =~= src.deep_view());
}

/// The end of the expression that `syn` parses at `j`.
pub fn parse_expr(s: &Vec<Token>, j: usize) -> (r: Result<usize, ParseError>)
    requires
        j <= s.len(),
    ensures
        r matches Ok(e) ==> expr_end(s.deep_view(), j as int) == Some(e as int) && j <= e <= s.len(),
        r matches Err(err) ==> expr_end(s.deep_view(), j as int) is None && err.spec_is(
            (ErrorKind::InvalidExpression, j as int),
        ),
{
    let text = render_from(s, j, false);
    match parse_expr_prefix(text.as_str()) {
        Ok(rest) => {
            let total = count_trees_from(s, j);
            if rest <= total {
                Ok(skip_trees_from(s, j, total - rest))
            } else {
                let message = String::from_str("the expression does not end between two token trees");
                Err(parse_error(ErrorKind::InvalidExpression, j, Some(message)))
            }
        },
        Err(message) => Err(parse_error(ErrorKind::InvalidExpression, j, Some(message))),
    }
}

} // verus!
