#![allow(dead_code)]

use might_be_async::tokens::{Delim, Spacing, Token, TokenKind};
use proc_macro2::{Delimiter, Span, TokenStream, TokenTree};

fn flatten(ts: TokenStream, out: &mut Vec<Token>) {
    for tree in ts {
        match tree {
            TokenTree::Ident(i) => out.push(Token { kind: TokenKind::Ident(i.to_string()), span: i.span() }),
            TokenTree::Punct(p) => {
                let spacing = match p.spacing() {
                    proc_macro2::Spacing::Joint => Spacing::Joint,
                    proc_macro2::Spacing::Alone => Spacing::Alone,
                };
                out.push(Token { kind: TokenKind::Punct(p.as_char(), spacing), span: p.span() })
            }
            TokenTree::Literal(l) => out.push(Token { kind: TokenKind::Lit(l.to_string()), span: l.span() }),
            TokenTree::Group(g) => {
                let d = match g.delimiter() {
                    Delimiter::Parenthesis => Delim::Paren,
                    Delimiter::Brace => Delim::Brace,
                    Delimiter::Bracket => Delim::Bracket,
                    Delimiter::None => Delim::Invisible,
                };
                out.push(Token { kind: TokenKind::Open(d), span: g.span() });
                flatten(g.stream(), out);
                out.push(Token { kind: TokenKind::Close(d), span: g.span() });
            }
        }
    }
}

/// The flat tokens of a piece of source text.
fn lex(src: &str) -> Vec<Token> {
    let mut out = Vec::new();
    flatten(src.parse::<TokenStream>().unwrap(), &mut out);
    out
}

fn site() -> Span {
    Span::call_site()
}

fn text_of(t: &Token) -> String {
    match &t.kind {
        TokenKind::Ident(s) | TokenKind::Lit(s) => s.clone(),
        TokenKind::Str(v) => format!("{v:?}"),
        TokenKind::Punct(c, _) => c.to_string(),
        TokenKind::Open(Delim::Paren) | TokenKind::Open(Delim::Invisible) => "(".to_string(),
        TokenKind::Open(Delim::Brace) => "{".to_string(),
        TokenKind::Open(Delim::Bracket) => "[".to_string(),
        TokenKind::Close(Delim::Paren) | TokenKind::Close(Delim::Invisible) => ")".to_string(),
        TokenKind::Close(Delim::Brace) => "}".to_string(),
        TokenKind::Close(Delim::Bracket) => "]".to_string(),
    }
}

/// The tokens, one space between each two.
fn show(ts: &[Token]) -> String {
    ts.iter().map(text_of).collect::<Vec<_>>().join(" ")
}

/// The same text, normalized through the lexer.
fn norm(src: &str) -> String {
    show(&lex(src))
}

/// Index of the token that closes the group opened at `open`.
fn matching(ts: &[Token], open: usize) -> usize {
    let mut depth = 0usize;
    for (i, t) in ts.iter().enumerate().skip(open) {
        match t.kind {
            TokenKind::Open(_) => depth += 1,
            TokenKind::Close(_) => {
                depth -= 1;
                if depth == 0 {
                    return i;
                }
            }
            _ => {}
        }
    }
    panic!("unbalanced tokens")
}

fn unquote(t: &Token) -> String {
    let s = text_of(t);
    s.trim_matches('"').to_string()
}

/// The code that takes effect, in an expansion of `select!` or `invoke!`,
/// when the features `enabled` are on.
fn taken(out: &[Token], enabled: &[&str]) -> Vec<Token> {
    // { # [ cfg ( feature = LIT ) ] { A } # [ cfg ( not ( feature = LIT ) ) ] { B } }
    let feature = unquote(&out[7]);
    let a_close = matching(out, 10);
    let b_open = a_close + 13;
    let b_close = matching(out, b_open);
    assert_eq!(b_close + 2, out.len());
    if enabled.contains(&feature.as_str()) {
        out[11..a_close].iter().cloned().collect()
    } else {
        out[b_open + 1..b_close].iter().cloned().collect()
    }
}

/// The value of a sum of integer literals, in braces or not.
fn eval_int(ts: &[Token]) -> i64 {
    show(ts)
        .split(|c: char| c == '+' || c == '{' || c == '}' || c.is_whitespace())
        .filter(|w| !w.is_empty())
        .map(|w| w.parse::<i64>().unwrap())
        .sum()
}

use might_be_async::select::select;

fn expand_select(src: &str) -> Vec<might_be_async::tokens::Token> {
    select(&lex(src), "async", site()).unwrap()
}

#[test]
fn test_select_explicit_sync() {
    let r = eval_int(&taken(&expand_select("\"async\" => 100, \"sync\" => 200"), &[]));
    assert_eq!(r, 200);
}

#[test]
fn test_select_explicit_async() {
    let r = eval_int(&taken(&expand_select("\"async\" => 100, \"sync\" => 200"), &["async"]));
    assert_eq!(r, 100);
}

#[test]
fn test_select_not_sync() {
    let r = eval_int(&taken(&expand_select("\"async\" => 10, ! => 20"), &[]));
    assert_eq!(r, 20);
}

#[test]
fn test_select_not_async() {
    let r = eval_int(&taken(&expand_select("\"async\" => 10, ! => 20"), &["async"]));
    assert_eq!(r, 10);
}

#[test]
fn test_select_not_first_sync() {
    let r = eval_int(&taken(&expand_select("! => 30, \"async\" => 40"), &[]));
    assert_eq!(r, 30);
}

#[test]
fn test_select_not_first_async() {
    let r = eval_int(&taken(&expand_select("! => 30, \"async\" => 40"), &["async"]));
    assert_eq!(r, 40);
}

#[test]
fn test_select_implicit_no_await_sync() {
    let r = eval_int(&taken(&expand_select("10 + 20, 30 + 40"), &[]));
    assert_eq!(r, 70);
}

#[test]
fn test_select_implicit_no_await_async() {
    let r = eval_int(&taken(&expand_select("10 + 20, 30 + 40"), &["async"]));
    assert_eq!(r, 30);
}

#[test]
fn test_select_implicit_block_sync() {
    let r = eval_int(&taken(&expand_select("{ 50 }, { 60 }"), &[]));
    assert_eq!(r, 60);
}

#[test]
fn test_select_implicit_block_async() {
    let r = eval_int(&taken(&expand_select("{ 50 }, { 60 }"), &["async"]));
    assert_eq!(r, 50);
}
