#![allow(dead_code)]

use might_be_async::tokens::{Delim, Spacing, Token, TokenKind};
use proc_macro2::{Delimiter, Span, TokenStream, TokenTree};

fn flatten(ts: TokenStream, out: &mut Vec<Token>) {
    for tree in ts {
        match tree {
            TokenTree::Ident(i) => out.push(Token { kind: TokenKind::Ident(i.to_string()), span: i.span() }),
            TokenTree::Punct(p) => {
                let spacing = match p.spacing() {
                    proc_macro2::Spacing::Joint => Spacing::Joint,
                    proc_macro2::Spacing::Alone => Spacing::Alone,
                };
                out.push(Token { kind: TokenKind::Punct(p.as_char(), spacing), span: p.span() })
            }
            TokenTree::Literal(l) => out.push(Token { kind: TokenKind::Lit(l.to_string()), span: l.span() }),
            TokenTree::Group(g) => {
                let d = match g.delimiter() {
                    Delimiter::Parenthesis => Delim::Paren,
                    Delimiter::Brace => Delim::Brace,
                    Delimiter::Bracket => Delim::Bracket,
                    Delimiter::None => Delim::Invisible,
                };
                out.push(Token { kind: TokenKind::Open(d), span: g.span() });
                flatten(g.stream(), out);
                out.push(Token { kind: TokenKind::Close(d), span: g.span() });
            }
        }
    }
}

/// The flat tokens of a piece of source text.
fn lex(src: &str) -> Vec<Token> {
    let mut out = Vec::new();
    flatten(src.parse::<TokenStream>().unwrap(), &mut out);
    out
}

fn site() -> Span {
    Span::call_site()
}

fn text_of(t: &Token) -> String {
    match &t.kind {
        TokenKind::Ident(s) | TokenKind::Lit(s) => s.clone(),
        TokenKind::Str(v) => format!("{v:?}"),
        TokenKind::Punct(c, _) => c.to_string(),
        TokenKind::Open(Delim::Paren) | TokenKind::Open(Delim::Invisible) => "(".to_string(),
        TokenKind::Open(Delim::Brace) => "{".to_string(),
        TokenKind::Open(Delim::Bracket) => "[".to_string(),
        TokenKind::Close(Delim::Paren) | TokenKind::Close(Delim::Invisible) => ")".to_string(),
        TokenKind::Close(Delim::Brace) => "}".to_string(),
        TokenKind::Close(Delim::Bracket) => "]".to_string(),
    }
}

/// The tokens, one space between each two.
fn show(ts: &[Token]) -> String {
    ts.iter().map(text_of).collect::<Vec<_>>().join(" ")
}

/// The same text, normalized through the lexer.
fn norm(src: &str) -> String {
    show(&lex(src))
}

/// Index of the token that closes the group opened at `open`.
fn matching(ts: &[Token], open: usize) -> usize {
    let mut depth = 0usize;
    for (i, t) in ts.iter().enumerate().skip(open) {
        match t.kind {
            TokenKind::Open(_) => depth += 1,
            TokenKind::Close(_) => {
                depth -= 1;
                if depth == 0 {
                    return i;
                }
            }
            _ => {}
        }
    }
    panic!("unbalanced tokens")
}

fn unquote(t: &Token) -> String {
    let s = text_of(t);
    s.trim_matches('"').to_string()
}

/// The code that takes effect, in an expansion of `select!` or `invoke!`,
/// when the features `enabled` are on.
fn taken(out: &[Token], enabled: &[&str]) -> Vec<Token> {
    // { # [ cfg ( feature = LIT ) ] { A } # [ cfg ( not ( feature = LIT ) ) ] { B } }
    let feature = unquote(&out[7]);
    let a_close = matching(out, 10);
    let b_open = a_close + 13;
    let b_close = matching(out, b_open);
    assert_eq!(b_close + 2, out.len());
    if enabled.contains(&feature.as_str()) {
        out[11..a_close].iter().cloned().collect()
    } else {
        out[b_open + 1..b_close].iter().cloned().collect()
    }
}

/// The value of a sum of integer literals, in braces or not.
fn eval_int(ts: &[Token]) -> i64 {
    show(ts)
        .split(|c: char| c == '+' || c == '{' || c == '}' || c.is_whitespace())
        .filter(|w| !w.is_empty())
        .map(|w| w.parse::<i64>().unwrap())
        .sum()
}

use might_be_async::func::func;

// The definitions that the expansions checked below produce when the
// feature is off.
fn identity(x: i32) -> i32 {
    x
}

fn first<T: PartialEq + Clone>(a: T, _b: T) -> T
where
    T: std::fmt::Debug,
{
    a.clone()
}

fn add(x: i32, y: i32) -> i32 {
    x + y
}

/// The definition that `#[func]` with the attribute tokens `attr` leaves
/// on the item `item` when the feature is off.
fn sync_definition(attr: &str, feature: &str, item: &str) {
    let out = func(&lex(attr), &lex(item), site()).unwrap();
    let sync = norm(&format!("#[cfg(not(feature = \"{feature}\"))] {item}"));
    let asyn = norm(&format!("#[cfg(feature = \"{feature}\")] async {item}"));
    assert_eq!(show(&out), format!("{sync} {asyn}"));
}

#[test]
fn test_identity() {
    sync_definition("", "async", "fn identity(x: i32) -> i32 { x }");
    assert_eq!(identity(42), 42);
}

#[test]
fn test_first() {
    sync_definition(
        "",
        "async",
        "fn first<T: PartialEq + Clone>(a: T, _b: T) -> T where T: std::fmt::Debug, { a.clone() }",
    );
    assert_eq!(first(1, 2), 1);
    assert_eq!(first("hello", "world"), "hello");
}

#[test]
fn test_add() {
    sync_definition("\"async\"", "async", "fn add(x: i32, y: i32) -> i32 { x + y }");
    assert_eq!(add(2, 3), 5);
}
