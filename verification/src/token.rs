use vstd::prelude::*;

verus! {

/// One host token, as the generator's grammar sees it.
///
/// A host front end flattens its token stream into this shape: identifiers
/// keep their text, the punctuation the grammar cares about gets a variant
/// of its own, and everything else is carried verbatim in `Other` so that it
/// can be re-emitted unchanged inside visibility groups and generic
/// arguments.
pub enum Token {
    /// An identifier, with its text.
    Ident(String),
    /// The visibility keyword `pub`.
    KwPub,
    /// A single colon.
    Colon,
    /// The path separator `::`.
    PathSep,
    /// A comma.
    Comma,
    /// An opening angle bracket.
    Lt,
    /// A closing angle bracket.
    Gt,
    /// An opening parenthesis.
    OpenParen,
    /// A closing parenthesis.
    CloseParen,
    /// Any other token, carried as its source text.
    Other(String),
}

/// The mathematical model of a token: the same shape, with identifier text
/// as a character sequence.
pub ghost enum TokenView {
    Ident(Seq<char>),
    KwPub,
    Colon,
    PathSep,
    Comma,
    Lt,
    Gt,
    OpenParen,
    CloseParen,
    Other(Seq<char>),
}

impl View for Token {
    type V = TokenView;

    open spec fn view(&self) -> TokenView {
        match self {
            Token::Ident(s) => TokenView::Ident(s@),
            Token::KwPub => TokenView::KwPub,
            Token::Colon => TokenView::Colon,
            Token::PathSep => TokenView::PathSep,
            Token::Comma => TokenView::Comma,
            Token::Lt => TokenView::Lt,
            Token::Gt => TokenView::Gt,
            Token::OpenParen => TokenView::OpenParen,
            Token::CloseParen => TokenView::CloseParen,
            Token::Other(s) => TokenView::Other(s@),
        }
    }
}

impl DeepView for Token {
    type V = TokenView;

    open spec fn deep_view(&self) -> TokenView {
        self.view()
    }
}

/// The source text of a single token.
pub open spec fn token_text(t: TokenView) -> Seq<char> {
    match t {
        TokenView::Ident(s) => s,
        TokenView::KwPub => "pub"@,
        TokenView::Colon => ":"@,
        TokenView::PathSep => "::"@,
        TokenView::Comma => ","@,
        TokenView::Lt => "<"@,
        TokenView::Gt => ">"@,
        TokenView::OpenParen => "("@,
        TokenView::CloseParen => ")"@,
        TokenView::Other(s) => s,
    }
}

/// Whether two adjacent tokens are printed without a space between them.
///
/// The choice only shapes the emitted text; any spacing at all yields the
/// same host tokens. Spaces are kept between word-like neighbours so that
/// re-emitted token runs never merge into one identifier.
pub open spec fn no_space_between(a: TokenView, b: TokenView) -> bool {
    a is PathSep || a is Lt || a is OpenParen || b is PathSep || b is Lt || b is Gt
        || b is Comma || b is OpenParen || b is CloseParen
}

/// The separator printed between two adjacent tokens.
pub open spec fn sep_text(a: TokenView, b: TokenView) -> Seq<char> {
    if no_space_between(a, b) {
        Seq::empty()
    } else {
        " "@
    }
}

/// The source text of the first `n` tokens of `ts`, with separators.
pub open spec fn tokens_text_prefix(ts: Seq<TokenView>, n: int) -> Seq<char>
    decreases n,
{
    if n <= 0 {
        Seq::empty()
    } else if n == 1 {
        token_text(ts[0])
    } else {
        tokens_text_prefix(ts, n - 1) + sep_text(ts[n - 2], ts[n - 1]) + token_text(ts[n - 1])
    }
}

/// The source text of a token run, re-emitted verbatim.
pub open spec fn tokens_text(ts: Seq<TokenView>) -> Seq<char> {
    tokens_text_prefix(ts, ts.len() as int)
}

/// Copies one token; the copy models the same token.
pub fn clone_token(t: &Token) -> (r: Token)
    ensures
        r@ == t@,
{
    match t {
        Token::Ident(s) => Token::Ident(s.clone()),
        Token::KwPub => Token::KwPub,
        Token::Colon => Token::Colon,
        Token::PathSep => Token::PathSep,
        Token::Comma => Token::Comma,
        Token::Lt => Token::Lt,
        Token::Gt => Token::Gt,
        Token::OpenParen => Token::OpenParen,
        Token::CloseParen => Token::CloseParen,
        Token::Other(s) => Token::Other(s.clone()),
    }
}

/// Appends the source text of one token to `out`.
pub fn append_token_text(out: &mut String, t: &Token)
    ensures
        final(out)@ == old(out)@ + token_text(t@),
{
    match t {
        Token::Ident(s) => out.append(s.as_str()),
        Token::KwPub => out.append("pub"),
        Token::Colon => out.append(":"),
        Token::PathSep => out.append("::"),
        Token::Comma => out.append(","),
        Token::Lt => out.append("<"),
        Token::Gt => out.append(">"),
        Token::OpenParen => out.append("("),
        Token::CloseParen => out.append(")"),
        Token::Other(s) => out.append(s.as_str()),
    }
}

/// Whether two adjacent tokens are printed without a space, decided in code.
fn needs_no_space(a: &Token, b: &Token) -> (r: bool)
    ensures
        r == no_space_between(a@, b@),
{
    match a {
        Token::PathSep => true,
        Token::Lt => true,
        Token::OpenParen => true,
        _ => match b {
            Token::PathSep => true,
            Token::Lt => true,
            Token::Gt => true,
            Token::Comma => true,
            Token::OpenParen => true,
            Token::CloseParen => true,
            _ => false,
        },
    }
}

/// Appends the verbatim source text of a token run to `out`.
pub fn append_tokens_text(out: &mut String, ts: &Vec<Token>)
    ensures
        final(out)@ == old(out)@ + tokens_text(ts.deep_view()),
{
    let ghost tsv = ts.deep_view();
    let mut i: usize = 0;
    while i < ts.len()
        invariant
            i <= ts@.len(),
            tsv == ts.deep_view(),
            tsv.len() == ts@.len(),
            out@ == old(out)@ + tokens_text_prefix(tsv, i as int),
        decreases ts@.len() - i,
    {
        if i > 0 {
            if !needs_no_space(&ts[i - 1], &ts[i]) {
                out.append(" ");
            }
        }
        append_token_text(out, &ts[i]);
        i = i + 1;
    }
}

} // verus!
