//! A flat model of a token stream: identifiers, punctuation, literals, and
//! the opening and closing delimiters of groups.

use vstd::prelude::*;
use vstd::string::*;
use proc_macro2::Span;

verus! {

/// The delimiter of a group.
#[derive(Clone, Copy, PartialEq, Eq, Debug, Structural)]
pub enum Delim {
    Paren,
    Brace,
    Bracket,
    /// A group without visible delimiters.
    Invisible,
}

/// Whether a punctuation character is immediately followed by another one.
#[derive(Clone, Copy, PartialEq, Eq, Debug, Structural)]
pub enum Spacing {
    Alone,
    Joint,
}

/// The kind of one token of the flat stream.
#[derive(Debug)]
pub enum TokenKind {
    Ident(String),
    Punct(char, Spacing),
    /// A literal, held as its source text.
    Lit(String),
    /// A string literal, held as its value.
    Str(String),
    Open(Delim),
    Close(Delim),
}

/// One token with its span.
#[derive(Debug)]
pub struct Token {
    pub kind: TokenKind,
    pub span: Span,
}

/// The mathematical value of a [`TokenKind`].
pub enum KindV {
    Ident(Seq<char>),
    Punct(char, Spacing),
    Lit(Seq<char>),
    Str(Seq<char>),
    Open(Delim),
    Close(Delim),
}

/// The mathematical value of a [`Token`].
pub struct TokenV {
    pub kind: KindV,
    pub span: Span,
}

impl View for TokenKind {
    type V = KindV;

    open spec fn view(&self) -> KindV {
        match self {
            TokenKind::Ident(s) => KindV::Ident(s@),
            TokenKind::Punct(c, sp) => KindV::Punct(*c, *sp),
            TokenKind::Lit(s) => KindV::Lit(s@),
            TokenKind::Str(s) => KindV::Str(s@),
            TokenKind::Open(d) => KindV::Open(*d),
            TokenKind::Close(d) => KindV::Close(*d),
        }
    }
}

impl View for Token {
    type V = TokenV;

    open spec fn view(&self) -> TokenV {
        TokenV { kind: self.kind@, span: self.span }
    }
}

impl DeepView for Token {
    type V = TokenV;

    open spec fn deep_view(&self) -> TokenV {
        self@
    }
}

impl Clone for TokenKind {
    fn clone(&self) -> (r: Self)
        ensures
            r@ == self@,
    {
        match self {
            TokenKind::Ident(s) => TokenKind::Ident(s.clone()),
            TokenKind::Punct(c, sp) => TokenKind::Punct(*c, *sp),
            TokenKind::Lit(s) => TokenKind::Lit(s.clone()),
            TokenKind::Str(s) => TokenKind::Str(s.clone()),
            TokenKind::Open(d) => TokenKind::Open(*d),
            TokenKind::Close(d) => TokenKind::Close(*d),
        }
    }
}

impl Clone for Token {
    fn clone(&self) -> (r: Self)
        ensures
            r@ == self@,
    {
        Token { kind: self.kind.clone(), span: self.span }
    }
}

/// Index just past the group whose contents start at `j`, with `depth`
/// groups still open; `s.len()` when they never all close.
pub open spec fn group_end(s: Seq<TokenV>, j: int, depth: nat) -> int
    decreases s.len() - j,
{
    if j >= s.len() || depth == 0 {
        j
    } else if s[j].kind is Open {
        group_end(s, j + 1, depth + 1)
    } else if s[j].kind is Close {
        group_end(s, j + 1, (depth - 1) as nat)
    } else {
        group_end(s, j + 1, depth)
    }
}

/// Index just past the token tree that starts at `i`: a whole group when
/// `s[i]` opens one, else the single token.
pub open spec fn tree_end(s: Seq<TokenV>, i: int) -> int {
    if s[i].kind is Open {
        group_end(s, i + 1, 1)
    } else {
        i + 1
    }
}

pub proof fn lemma_group_end_bounds(s: Seq<TokenV>, j: int, depth: nat)
    requires
        j <= s.len(),
    ensures
        j <= group_end(s, j, depth) <= s.len(),
    decreases s.len() - j,
{
    if j >= s.len() || depth == 0 {
    } else if s[j].kind is Open {
        lemma_group_end_bounds(s, j + 1, depth + 1);
    } else if s[j].kind is Close {
        lemma_group_end_bounds(s, j + 1, (depth - 1) as nat);
    } else {
        lemma_group_end_bounds(s, j + 1, depth);
    }
}

pub proof fn lemma_tree_end_bounds(s: Seq<TokenV>, i: int)
    requires
        0 <= i < s.len(),
    ensures
        i < tree_end(s, i) <= s.len(),
{
    if s[i].kind is Open {
        lemma_group_end_bounds(s, i + 1, 1);
    }
}

/// Number of token trees from `i` to the end.
pub open spec fn count_trees(s: Seq<TokenV>, i: int) -> nat
    decreases s.len() - i,
{
    if i < 0 || i >= s.len() {
        0
    } else {
        proof {
            lemma_tree_end_bounds(s, i);
        }
        1 + count_trees(s, tree_end(s, i))
    }
}

/// Index reached after skipping `k` token trees from `i`.
pub open spec fn skip_trees(s: Seq<TokenV>, i: int, k: nat) -> int
    decreases k,
{
    if k == 0 || i < 0 || i >= s.len() {
        i
    } else {
        skip_trees(s, tree_end(s, i), (k - 1) as nat)
    }
}

/// Skipping fewer trees than there are lands on a token.
pub proof fn lemma_skip_in_bounds(s: Seq<TokenV>, i: int, k: nat)
    requires
        0 <= i,
        k < count_trees(s, i),
    ensures
        i <= skip_trees(s, i, k) < s.len(),
    decreases k,
{
    lemma_tree_end_bounds(s, i);
    if k > 0 {
        lemma_skip_in_bounds(s, tree_end(s, i), (k - 1) as nat);
    }
}

/// Skipping one tree more goes to the end of the next tree.
pub proof fn lemma_skip_succ(s: Seq<TokenV>, i: int, k: nat)
    requires
        0 <= i,
        k < count_trees(s, i),
    ensures
        skip_trees(s, i, k + 1) == tree_end(s, skip_trees(s, i, k)),
    decreases k,
{
    assert(i < s.len());
    lemma_tree_end_bounds(s, i);
    assert(skip_trees(s, i, k + 1) == skip_trees(s, tree_end(s, i), k));
    if k > 0 {
        assert(count_trees(s, i) == 1 + count_trees(s, tree_end(s, i)));
        lemma_skip_succ(s, tree_end(s, i), (k - 1) as nat);
        assert(skip_trees(s, i, k) == skip_trees(s, tree_end(s, i), (k - 1) as nat));
    }
}

/// Skipping all the trees reaches the end.
pub proof fn lemma_skip_all(s: Seq<TokenV>, i: int)
    requires
        0 <= i <= s.len(),
    ensures
        skip_trees(s, i, count_trees(s, i)) == s.len(),
    decreases s.len() - i,
{
    if i < s.len() {
        lemma_tree_end_bounds(s, i);
        lemma_skip_all(s, tree_end(s, i));
    }
}

/// The `depth` groups open at `j` all close within `s`.
pub open spec fn closes_within(s: Seq<TokenV>, j: int, depth: nat) -> bool
    decreases s.len() - j,
{
    if depth == 0 {
        true
    } else if j < 0 || j >= s.len() {
        false
    } else if s[j].kind is Open {
        closes_within(s, j + 1, depth + 1)
    } else if s[j].kind is Close {
        closes_within(s, j + 1, (depth - 1) as nat)
    } else {
        closes_within(s, j + 1, depth)
    }
}

/// Every group that opens in `s` closes in `s`.
pub open spec fn groups_close(s: Seq<TokenV>) -> bool {
    forall|i: int| 0 <= i < s.len() && (#[trigger] s[i]).kind is Open ==> closes_within(s, i + 1, 1)
}

/// Groups that close within `s` end where they did when more tokens
/// follow.
pub proof fn lemma_group_end_prefix(s: Seq<TokenV>, x: Seq<TokenV>, j: int, depth: nat)
    requires
        0 <= j <= s.len(),
        closes_within(s, j, depth),
    ensures
        group_end(s + x, j, depth) == group_end(s, j, depth),
        group_end(s, j, depth) <= s.len(),
    decreases s.len() - j,
{
    if depth > 0 {
        assert((s + x)[j] == s[j]);
        if s[j].kind is Open {
            lemma_group_end_prefix(s, x, j + 1, depth + 1);
        } else if s[j].kind is Close {
            lemma_group_end_prefix(s, x, j + 1, (depth - 1) as nat);
        } else {
            lemma_group_end_prefix(s, x, j + 1, depth);
        }
    }
}

/// When every group of `s` closes in `s`, the token trees of `s + x` from
/// a point of `s` are those of `s`, then those of `x`.
pub proof fn lemma_trees_prefix(s: Seq<TokenV>, x: Seq<TokenV>, i: int)
    requires
        groups_close(s),
        0 <= i <= s.len(),
    ensures
        count_trees(s + x, i) == count_trees(s, i) + count_trees(s + x, s.len() as int),
        skip_trees(s + x, i, count_trees(s, i)) == s.len(),
        forall|k: nat| k <= count_trees(s, i) ==> #[trigger] skip_trees(s + x, i, k) == skip_trees(
            s,
            i,
            k,
        ),
    decreases s.len() - i,
{
    if i < s.len() {
        let u = s + x;
        assert(u[i] == s[i]);
        lemma_tree_end_bounds(s, i);
        if s[i].kind is Open {
            lemma_group_end_prefix(s, x, i + 1, 1);
        }
        assert(tree_end(u, i) == tree_end(s, i));
        let e = tree_end(s, i);
        lemma_trees_prefix(s, x, e);
        assert forall|k: nat| k <= count_trees(s, i) implies #[trigger] skip_trees(u, i, k)
            == skip_trees(s, i, k) by {
            if k > 0 {
                assert(skip_trees(u, i, k) == skip_trees(u, e, (k - 1) as nat));
                assert(skip_trees(s, i, k) == skip_trees(s, e, (k - 1) as nat));
            }
        }
    } else {
        assert forall|k: nat| k <= count_trees(s, i) implies #[trigger] skip_trees(s + x, i, k)
            == skip_trees(s, i, k) by {}
    }
}

/// Index just past the token tree that starts at `i`.
pub fn find_tree_end(s: &Vec<Token>, i: usize) -> (r: usize)
    requires
        i < s.len(),
    ensures
        r == tree_end(s.deep_view(), i as int),
        i < r <= s.len(),
{
    let ghost sv = s.deep_view();
    match &s[i].kind {
        TokenKind::Open(_) => {},
        _ => {
            return i + 1;
        },
    }
    let mut j = i + 1;
    let mut depth: usize = 1;
    while j < s.len() && depth > 0
        invariant
            sv == s.deep_view(),
            i < j <= s.len(),
            depth <= j - i,
            group_end(sv, i + 1, 1) == group_end(sv, j as int, depth as nat),
        decreases s.len() - j,
    {
        match &s[j].kind {
            TokenKind::Open(_) => {
                depth = depth + 1;
            },
            TokenKind::Close(_) => {
                depth = depth - 1;
            },
            _ => {},
        }
        j = j + 1;
    }
    j
}


/// Number of token trees from `i` to the end.
pub fn count_trees_from(s: &Vec<Token>, i: usize) -> (r: usize)
    requires
        i <= s.len(),
    ensures
        r == count_trees(s.deep_view(), i as int),
{
    let ghost sv = s.deep_view();
    let mut j = i;
    let mut n: usize = 0;
    while j < s.len()
        invariant
            sv == s.deep_view(),
            i <= j <= s.len(),
            n <= j - i,
            count_trees(sv, i as int) == n + count_trees(sv, j as int),
        decreases s.len() - j,
    {
        j = find_tree_end(s, j);
        n = n + 1;
    }
    n
}

/// Index reached after skipping `k` token trees from `i`.
pub fn skip_trees_from(s: &Vec<Token>, i: usize, k: usize) -> (r: usize)
    requires
        i <= s.len(),
    ensures
        r == skip_trees(s.deep_view(), i as int, k as nat),
        i <= r <= s.len(),
{
    let ghost sv = s.deep_view();
    let mut j = i;
    let mut left = k;
    while left > 0 && j < s.len()
        invariant
            sv == s.deep_view(),
            i <= j <= s.len(),
            skip_trees(sv, i as int, k as nat) == skip_trees(sv, j as int, left as nat),
        decreases left,
    {
        j = find_tree_end(s, j);
        left = left - 1;
    }
    j
}

/// The text of a token as it reads in source. When `transparent`, the
/// delimiters of an invisible group read as nothing; else every token tree
/// reads as one tree: an invisible group as a parenthesized one, and a
/// negative literal (whose `-` would lex on its own) in parentheses.
pub open spec fn token_text(t: TokenV, transparent: bool) -> Seq<char> {
    match t.kind {
        KindV::Ident(w) => w,
        KindV::Lit(w) => if !transparent && negative(w) {
            seq!['('] + w + seq![')']
        } else {
            w
        },
        KindV::Str(v) => string_source(v),
        KindV::Punct(c, _) => seq![c],
        KindV::Open(d) => if transparent && d == Delim::Invisible {
            seq![]
        } else {
            seq![open_char(d)]
        },
        KindV::Close(d) => if transparent && d == Delim::Invisible {
            seq![]
        } else {
            seq![close_char(d)]
        },
    }
}

/// The text of a literal that starts with `-`.
pub open spec fn negative(w: Seq<char>) -> bool {
    w.len() > 0 && w[0] == '-'
}

/// A character as it reads inside a string literal.
pub open spec fn escaped(c: char) -> Seq<char> {
    if c == '\\' {
        seq!['\\', '\\']
    } else if c == '"' {
        seq!['\\', '"']
    } else if c == '\r' {
        seq!['\\', 'r']
    } else {
        seq![c]
    }
}

/// The characters of `v` as they read inside a string literal.
pub open spec fn escaped_all(v: Seq<char>) -> Seq<char>
    decreases v.len(),
{
    if v.len() == 0 {
        seq![]
    } else {
        escaped_all(v.drop_last()) + escaped(v.last())
    }
}

/// The source text of a string literal whose value is `v`.
pub open spec fn string_source(v: Seq<char>) -> Seq<char> {
    seq!['"'] + escaped_all(v) + seq!['"']
}

/// Appends the source text of a string literal whose value is `v`.
fn push_string_source(out: &mut String, v: &str)
    ensures
        final(out)@ == old(out)@ + string_source(v@),
{
    let ghost start = out@;
    let n = v.unicode_len();
    out.push('"');
    let mut i: usize = 0;
    while i < n
        invariant
            n == v@.len(),
            i <= n,
            out@ == start + seq!['"'] + escaped_all(v@.subrange(0, i as int)),
        decreases n - i,
    {
        let c = v.get_char(i);
        if c == '\\' {
            out.push('\\');
            out.push('\\');
        } else if c == '"' {
            out.push('\\');
            out.push('"');
        } else if c == '\r' {
            out.push('\\');
            out.push('r');
        } else {
            out.push(c);
        }
        assert(v@.subrange(0, i + 1).drop_last() =~= v@.subrange(0, i as int));
        i = i + 1;
        assert(out@ =~= start + seq!['"'] + escaped_all(v@.subrange(0, i as int)));
    }
    assert(v@.subrange(0, n as int) =~= v@);
    out.push('"');
    assert(out@ =~= start + string_source(v@));
}

pub open spec fn open_char(d: Delim) -> char {
    match d {
        Delim::Paren => '(',
        Delim::Brace => '{',
        Delim::Bracket => '[',
        Delim::Invisible => '(',
    }
}

pub open spec fn close_char(d: Delim) -> char {
    match d {
        Delim::Paren => ')',
        Delim::Brace => '}',
        Delim::Bracket => ']',
        Delim::Invisible => ')',
    }
}

/// The source text of a token sequence: tokens are separated by one space,
/// except after a punctuation character that is joint with the next one.
/// Invisible groups read as parenthesized ones and negative literals stand
/// in parentheses, or (when `transparent`) groups read as their contents
/// alone and literals as written.
pub open spec fn render(s: Seq<TokenV>, transparent: bool) -> Seq<char>
    decreases s.len(),
{
    if s.len() == 0 {
        seq![]
    } else {
        let init = s.drop_last();
        let sep: Seq<char> = if init.len() == 0 || is_joint(init.last()) {
            seq![]
        } else {
            seq![' ']
        };
        render(init, transparent) + sep + token_text(s.last(), transparent)
    }
}

/// `t` is a punctuation character joint with the next token.
pub open spec fn is_joint(t: TokenV) -> bool {
    t.kind matches KindV::Punct(_, Spacing::Joint)
}

fn delim_chars(d: Delim) -> (r: (char, char))
    ensures
        r == (open_char(d), close_char(d)),
{
    match d {
        Delim::Paren => ('(', ')'),
        Delim::Brace => ('{', '}'),
        Delim::Bracket => ('[', ']'),
        Delim::Invisible => ('(', ')'),
    }
}

/// The source text of the tokens from `from` to the end.
pub fn render_from(s: &Vec<Token>, from: usize, transparent: bool) -> (r: String)
    requires
        from <= s.len(),
    ensures
        r@ == render(s.deep_view().subrange(from as int, s.len() as int), transparent),
{
    let ghost sv = s.deep_view();
    let mut out = String::new();
    let mut i = from;
    let mut joint = true;
    assert(sv.subrange(from as int, from as int) =~= Seq::<TokenV>::empty());
    while i < s.len()
        invariant
            sv == s.deep_view(),
            from <= i <= s.len(),
            out@ == render(sv.subrange(from as int, i as int), transparent),
            joint == (i == from || is_joint(sv[i - 1])),
        decreases s.len() - i,
    {
        let ghost prev = sv.subrange(from as int, i as int);
        if !joint {
            out.push(' ');
        }
        match &s[i].kind {
            TokenKind::Ident(w) => {
                out.append(w.as_str());
                joint = false;
            },
            TokenKind::Lit(w) => {
                let wrap = !transparent && w.as_str().unicode_len() > 0 && w.as_str().get_char(0)
                    == '-';
                if wrap {
                    out.push('(');
                }
                out.append(w.as_str());
                if wrap {
                    out.push(')');
                }
                joint = false;
            },
            TokenKind::Str(v) => {
                push_string_source(&mut out, v.as_str());
                joint = false;
            },
            TokenKind::Punct(c, sp) => {
                out.push(*c);
                joint = *sp == Spacing::Joint;
            },
            TokenKind::Open(d) => {
                if !(transparent && *d == Delim::Invisible) {
                    out.push(delim_chars(*d).0);
                }
                joint = false;
            },
            TokenKind::Close(d) => {
                if !(transparent && *d == Delim::Invisible) {
                    out.push(delim_chars(*d).1);
                }
                joint = false;
            },
        }
        i = i + 1;
        assert(sv.subrange(from as int, i as int).drop_last() =~= prev);
        assert(out@ =~= render(sv.subrange(from as int, i as int), transparent));
    }
    out
}

} // verus!
