//! Items that Verus trusts: declarations of outside types and the calls
//! into `proc-macro2`, `syn` and std that the verified code makes.

use vstd::prelude::*;

verus! {

/// The span of a token; carried through unchanged, never inspected.
#[verifier::external_type_specification]
#[verifier::external_body]
pub struct ExSpan(proc_macro2::Span);

/// `String::push` appends one character.
pub assume_specification[ String::push ](string: &mut String, ch: char)
    ensures
        final(string)@ == old(string)@.push(ch),
;

/// What `syn` makes of the source text `text` when it parses one
/// expression (`syn::Expr`) from its start: the number of token trees that
/// are left after the expression, or `None` when the text does not lex or
/// does not start with an expression.
pub uninterp spec fn syn_expr_rest(text: Seq<char>) -> Option<usize>;

/// Parses one `syn::Expr` from the start of `text` with `syn`'s parser and
/// counts the token trees that follow it. The contract claims that the
/// result is `syn_expr_rest(text)`; on failure it hands back `syn`'s error
/// message, of which nothing is stated.
#[verifier::external_body]
pub(crate) fn parse_expr_prefix(text: &str) -> (r: Result<usize, String>)
    ensures
        r matches Ok(n) ==> syn_expr_rest(text@) == Some(n),
        r is Err ==> syn_expr_rest(text@) is None,
{
    syn::parse::Parser::parse_str(
        |input: syn::parse::ParseStream| {
            Ok((input.parse::<syn::Expr>()?, input.parse::<proc_macro2::TokenStream>()?))
        },
        text,
    ).map(|(_, rest)| rest.into_iter().count()).map_err(|e| e.to_string())
}

/// The value of the string literal whose source text is `text`, as
/// `syn::LitStr::value` gives it; `None` when `text` is not one string
/// literal token.
pub uninterp spec fn syn_string_value(text: Seq<char>) -> Option<Seq<char>>;

/// Parses `text` as a `syn::LitStr` and takes its value. The contract
/// claims that the result is `syn_string_value(text)`.
#[verifier::external_body]
pub(crate) fn string_literal_value(text: &str) -> (r: Option<String>)
    ensures
        r matches Some(v) ==> syn_string_value(text@) == Some(v@),
        r is None ==> syn_string_value(text@) is None,
{
    syn::parse_str::<syn::LitStr>(text).ok().map(|lit| lit.value())
}

/// Whether `syn` parses the source text `text` as one function item
/// (`syn::ItemFn`) that spans all of it.
pub uninterp spec fn syn_parses_item_fn(text: Seq<char>) -> bool;

/// Parses `text` as a `syn::ItemFn`. The contract claims that it succeeds
/// exactly when `syn_parses_item_fn(text)`; on failure it hands back
/// `syn`'s error message, of which nothing is stated.
#[verifier::external_body]
pub(crate) fn check_item_fn(text: &str) -> (r: Result<(), String>)
    ensures
        r is Ok <==> syn_parses_item_fn(text@),
{
    syn::parse_str::<syn::ItemFn>(text).map(|_| ()).map_err(|e| e.to_string())
}

} // verus!
