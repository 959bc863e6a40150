//! The arguments of `#[func]` and the input of `invoke!`.

use vstd::prelude::*;
use vstd::string::*;
use crate::syntax::{
    copy_range, fat_arrow, fat_arrow_at, find_lit, lemma_lit_at_bounds, lit_at, lit_value,
    lit_value_spec, parse_error, ErrorKind, ParseError,
};
use crate::tokens::{Token, TokenV};

verus! {

/// Arguments of the `#[func]` attribute: the name of the feature that
/// switches the function to `async`.
#[derive(Debug)]
pub struct FuncArgs {
    pub feature_name: String,
}

impl Default for FuncArgs {
    /// The feature name `"async"`.
    fn default() -> (r: Self)
        ensures
            r.feature_name@ == "async"@,
    {
        FuncArgs { feature_name: String::from_str("async") }
    }
}

/// The feature name that the attribute tokens `s` give: `"async"` when
/// there are none, else the value of the one string literal (which may
/// stand in invisible groups).
pub open spec fn func_args_spec(s: Seq<TokenV>) -> Result<Seq<char>, (ErrorKind, int)> {
    if s.len() == 0 {
        Ok("async"@)
    } else {
        match lit_at(s, 0) {
            Some((k, e)) => if e == s.len() {
                Ok(lit_value_spec(s[k]).unwrap())
            } else {
                Err((ErrorKind::UnexpectedToken, e))
            },
            None => Err((ErrorKind::ExpectedStringLiteral, 0)),
        }
    }
}

impl FuncArgs {
    /// Parses the attribute's tokens: nothing, or one string literal.
    pub fn parse(s: &Vec<Token>) -> (r: Result<FuncArgs, ParseError>)
        ensures
            r matches Ok(args) ==> func_args_spec(s.deep_view()) == Ok::<_, (ErrorKind, int)>(
                args.feature_name@,
            ),
            r matches Err(e) ==> func_args_spec(s.deep_view()) matches Err(x) && e.spec_is(x),
    {
        if s.len() == 0 {
            return Ok(FuncArgs::default());
        }
        match find_lit(s, 0) {
            Some((k, e)) => {
                proof {
                    lemma_lit_at_bounds(s.deep_view(), 0);
                }
                if e == s.len() {
                    Ok(FuncArgs { feature_name: lit_value(&s[k]).unwrap() })
                } else {
                    Err(parse_error(ErrorKind::UnexpectedToken, e, None))
                }
            },
            None => Err(parse_error(ErrorKind::ExpectedStringLiteral, 0, None)),
        }
    }
}

/// Input for the `invoke!` macro.
#[derive(Debug)]
pub enum InvokeInput {
    /// `invoke!(expr)`: the feature name is `"async"`.
    Default(Vec<Token>),
    /// `invoke!("feat" => expr)`: the literal that names the feature, and
    /// the expression.
    Explicit(Token, Vec<Token>),
}

/// The value of an [`InvokeInput`].
pub enum InvokeV {
    Default(Seq<TokenV>),
    Explicit(TokenV, Seq<TokenV>),
}

impl View for InvokeInput {
    type V = InvokeV;

    open spec fn view(&self) -> InvokeV {
        match self {
            InvokeInput::Default(e) => InvokeV::Default(e.deep_view()),
            InvokeInput::Explicit(f, e) => InvokeV::Explicit(f@, e.deep_view()),
        }
    }
}

/// The input that the tokens `s` give `invoke!`.
pub open spec fn invoke_input_spec(s: Seq<TokenV>) -> Result<InvokeV, (ErrorKind, int)> {
    match lit_at(s, 0) {
        Some((k, e)) => if fat_arrow_at(s, e) {
            Ok(InvokeV::Explicit(s[k], s.subrange(e + 2, s.len() as int)))
        } else {
            Err((ErrorKind::ExpectedFatArrow, e))
        },
        None => Ok(InvokeV::Default(s)),
    }
}

impl InvokeInput {
    /// Parses `"feat" => tokens` when the input starts with a string
    /// literal (which may stand in invisible groups), else takes all of it
    /// as the expression.
    pub fn parse(s: &Vec<Token>) -> (r: Result<InvokeInput, ParseError>)
        ensures
            r matches Ok(input) ==> invoke_input_spec(s.deep_view()) == Ok::<_, (ErrorKind, int)>(
                input@,
            ),
            r matches Err(e) ==> invoke_input_spec(s.deep_view()) matches Err(x) && e.spec_is(x),
    {
        match find_lit(s, 0) {
            Some((k, e)) => {
                proof {
                    lemma_lit_at_bounds(s.deep_view(), 0);
                }
                if !fat_arrow(s, e) {
                    return Err(parse_error(ErrorKind::ExpectedFatArrow, e, None));
                }
                assert(s.deep_view().len() == s.len());
                let feat = s[k].clone();
                let expr = copy_range(s, e + 2, s.len());
                Ok(InvokeInput::Explicit(feat, expr))
            },
            None => {
                let expr = copy_range(s, 0, s.len());
                assert(expr.deep_view() =~= s.deep_view());
                Ok(InvokeInput::Default(expr))
            },
        }
    }
}

} // verus!
