use vstd::prelude::*;
use crate::token::{clone_token, Token, TokenView};
use crate::variant::{TypePath, TypePathView};

verus! {

/// The visibility marker of a specification: absent, `pub`, or `pub`
/// followed by a parenthesized qualifier such as `(crate)`, carried
/// verbatim.
pub enum Visibility {
    Default,
    Public,
    Restricted(Vec<Token>),
}

/// The mathematical model of a visibility marker.
pub ghost enum VisibilityView {
    Default,
    Public,
    Restricted(Seq<TokenView>),
}

impl View for Visibility {
    type V = VisibilityView;

    open spec fn view(&self) -> VisibilityView {
        match self {
            Visibility::Default => VisibilityView::Default,
            Visibility::Public => VisibilityView::Public,
            Visibility::Restricted(ts) => VisibilityView::Restricted(ts.deep_view()),
        }
    }
}

/// Why a specification failed to parse.
#[derive(Clone, Copy, PartialEq, Eq, Structural, Debug)]
pub enum ParseError {
    /// No type name follows the visibility marker.
    MissingName,
    /// `pub` is followed by an unterminated or nested parenthesis group.
    MalformedVisibility,
    /// No colon follows the type name.
    MissingColon,
    /// No path follows the colon.
    EmptyPathList,
    /// A path is missing an identifier or has unterminated generic
    /// arguments.
    MalformedPath,
    /// Tokens remain after the specification.
    TrailingTokens,
}

/// A parsed specification: the visibility to copy onto the generated type,
/// the generated type's name, and the wrapped error types in input order.
pub struct ErrorSpecification {
    pub visibility: Visibility,
    pub name: String,
    pub error_types: Vec<TypePath>,
}

/// The mathematical model of a parsed specification.
pub ghost struct ErrorSpecificationView {
    pub visibility: VisibilityView,
    pub name: Seq<char>,
    pub error_types: Seq<TypePathView>,
}

impl ErrorSpecificationView {
    /// A specification wraps at least one error type, and every path has
    /// at least one segment.
    pub open spec fn wf(&self) -> bool {
        &&& self.error_types.len() >= 1
        &&& forall|k: int| 0 <= k < self.error_types.len() ==> (#[trigger] self.error_types[k]).wf()
    }
}

impl View for ErrorSpecification {
    type V = ErrorSpecificationView;

    open spec fn view(&self) -> ErrorSpecificationView {
        ErrorSpecificationView {
            visibility: self.visibility@,
            name: self.name@,
            error_types: self.error_types.deep_view(),
        }
    }
}

/// The text of an identifier token; the empty sequence for any other token.
pub open spec fn ident_text(t: TokenView) -> Seq<char> {
    match t {
        TokenView::Ident(s) => s,
        _ => Seq::empty(),
    }
}

/// The index of the parenthesis closing a visibility qualifier that starts
/// at `i`, scanning only flat token runs: a nested opening parenthesis or
/// a missing closing one yields `None`.
pub open spec fn simple_group_end(toks: Seq<TokenView>, i: int) -> Option<int>
    decreases toks.len() - i,
{
    if i < 0 || i >= toks.len() {
        None
    } else if toks[i] is CloseParen {
        Some(i)
    } else if toks[i] is OpenParen {
        None
    } else {
        simple_group_end(toks, i + 1)
    }
}

/// Parses the optional visibility marker at the front of the token run:
/// the marker's model and the index of the first token after it, or `None`
/// when `pub` is followed by a malformed qualifier group.
pub open spec fn visibility_parse(toks: Seq<TokenView>) -> Option<(VisibilityView, int)> {
    if toks.len() == 0 || !(toks[0] is KwPub) {
        Some((VisibilityView::Default, 0))
    } else if toks.len() >= 2 && toks[1] is OpenParen {
        match simple_group_end(toks, 2) {
            Some(j) => Some((VisibilityView::Restricted(toks.subrange(2, j)), j + 1)),
            None => None,
        }
    } else {
        Some((VisibilityView::Public, 1))
    }
}

/// Parses the `::`-separated segments following the first one: `acc`
/// already holds the segments read so far. Yields the segments and the
/// index of the first token after them, or `None` when `::` is not
/// followed by an identifier.
pub open spec fn segments_parse(toks: Seq<TokenView>, i: int, acc: Seq<Seq<char>>) -> Option<
    (Seq<Seq<char>>, int),
>
    decreases toks.len() - i,
{
    if 0 <= i < toks.len() && toks[i] is PathSep {
        if i + 1 < toks.len() && toks[i + 1] is Ident {
            segments_parse(toks, i + 2, acc.push(ident_text(toks[i + 1])))
        } else {
            None
        }
    } else {
        Some((acc, i))
    }
}

/// The index of the `>` that closes a generic-argument group: `i` is the
/// first index inside the group and `depth` the number of open `<`.
pub open spec fn generics_end(toks: Seq<TokenView>, i: int, depth: int) -> Option<int>
    decreases toks.len() - i,
{
    if i < 0 || i >= toks.len() {
        None
    } else if toks[i] is Gt {
        if depth == 1 {
            Some(i)
        } else {
            generics_end(toks, i + 1, depth - 1)
        }
    } else if toks[i] is Lt {
        generics_end(toks, i + 1, depth + 1)
    } else {
        generics_end(toks, i + 1, depth)
    }
}

/// Parses one qualified path starting at `i`: identifier segments joined
/// by `::`, with optional balanced generic arguments after the last
/// segment. Yields the path's model and the index of the first token after
/// it.
pub open spec fn path_parse(toks: Seq<TokenView>, i: int) -> Option<(TypePathView, int)> {
    if 0 <= i < toks.len() && toks[i] is Ident {
        match segments_parse(toks, i + 1, seq![ident_text(toks[i])]) {
            Some((segs, j)) => {
                if j < toks.len() && toks[j] is Lt {
                    match generics_end(toks, j + 1, 1) {
                        Some(k) => Some(
                            (TypePathView { segments: segs, args: toks.subrange(j, k + 1) }, k + 1),
                        ),
                        None => None,
                    }
                } else {
                    Some((TypePathView { segments: segs, args: Seq::empty() }, j))
                }
            },
            None => None,
        }
    } else {
        None
    }
}

/// Parses the non-empty, comma-separated path list that runs to the end of
/// the tokens; a trailing comma is accepted, and any token that neither
/// continues a path nor separates two paths fails the parse.
pub open spec fn path_list_parse(toks: Seq<TokenView>, i: int) -> Result<
    Seq<TypePathView>,
    ParseError,
>
    decreases toks.len() - i,
{
    match path_parse(toks, i) {
        Some((p, j)) => {
            if j <= i {
                // a parsed path always consumes at least one token, so this
                // branch never holds; it keeps the recursion visibly bounded
                Err(ParseError::MalformedPath)
            } else if j >= toks.len() {
                Ok(seq![p])
            } else if toks[j] is Comma {
                if j + 1 >= toks.len() {
                    Ok(seq![p])
                } else {
                    match path_list_parse(toks, j + 1) {
                        Ok(ps) => Ok(seq![p] + ps),
                        Err(e) => Err(e),
                    }
                }
            } else {
                Err(ParseError::TrailingTokens)
            }
        },
        None => Err(ParseError::MalformedPath),
    }
}

/// Parses a whole specification: optional visibility, name, colon, then a
/// non-empty path list running to the end of the tokens. The result is
/// fully determined by the input tokens, and so is the reported error.
pub open spec fn specification_parse(toks: Seq<TokenView>) -> Result<
    ErrorSpecificationView,
    ParseError,
> {
    match visibility_parse(toks) {
        None => Err(ParseError::MalformedVisibility),
        Some((vis, i)) => {
            if !(i < toks.len() && toks[i] is Ident) {
                Err(ParseError::MissingName)
            } else if !(i + 1 < toks.len() && toks[i + 1] is Colon) {
                Err(ParseError::MissingColon)
            } else if i + 2 >= toks.len() {
                Err(ParseError::EmptyPathList)
            } else {
                match path_list_parse(toks, i + 2) {
                    Ok(paths) => Ok(
                        ErrorSpecificationView {
                            visibility: vis,
                            name: ident_text(toks[i]),
                            error_types: paths,
                        },
                    ),
                    Err(e) => Err(e),
                }
            }
        },
    }
}

/// Finds the parenthesis closing a visibility qualifier, in code.
fn find_group_close(toks: &Vec<Token>, start: usize) -> (r: Option<usize>)
    requires
        start <= toks@.len(),
    ensures
        match r {
            Some(k) => simple_group_end(toks.deep_view(), start as int) == Some(k as int)
                && start <= k < toks@.len(),
            None => simple_group_end(toks.deep_view(), start as int) is None,
        },
{
    let ghost tsv = toks.deep_view();
    let mut j: usize = start;
    while j < toks.len()
        invariant
            start <= j <= toks@.len(),
            tsv == toks.deep_view(),
            tsv.len() == toks@.len(),
            simple_group_end(tsv, start as int) == simple_group_end(tsv, j as int),
        decreases toks@.len() - j,
    {
        match &toks[j] {
            Token::CloseParen => {
                return Some(j);
            },
            Token::OpenParen => {
                return None;
            },
            _ => {
                j = j + 1;
            },
        }
    }
    None
}

/// Parses the optional visibility marker, in code.
fn parse_visibility(toks: &Vec<Token>) -> (r: Result<(Visibility, usize), ParseError>)
    ensures
        match r {
            Ok(vi) => visibility_parse(toks.deep_view()) == Some((vi.0@, vi.1 as int)) && vi.1
                <= toks@.len(),
            Err(e) => visibility_parse(toks.deep_view()) is None && e
                == ParseError::MalformedVisibility,
        },
{
    let ghost tsv = toks.deep_view();
    if toks.len() == 0 {
        return Ok((Visibility::Default, 0));
    }
    match &toks[0] {
        Token::KwPub => {
            if toks.len() >= 2 {
                let is_group = match &toks[1] {
                    Token::OpenParen => true,
                    _ => false,
                };
                if is_group {
                    match find_group_close(toks, 2) {
                        Some(k) => {
                            let mut inner: Vec<Token> = Vec::new();
                            let mut m: usize = 2;
                            while m < k
                                invariant
                                    2 <= m <= k < toks@.len(),
                                    tsv == toks.deep_view(),
                                    tsv.len() == toks@.len(),
                                    inner.deep_view() == tsv.subrange(2, m as int),
                                decreases k - m,
                            {
                                let ghost before = inner.deep_view();
                                inner.push(clone_token(&toks[m]));
                                proof {
                                    assert(inner.deep_view() =~= before.push(tsv[m as int]));
                                    assert(inner.deep_view() =~= tsv.subrange(2, m as int + 1));
                                }
                                m = m + 1;
                            }
                            return Ok((Visibility::Restricted(inner), k + 1));
                        },
                        None => {
                            return Err(ParseError::MalformedVisibility);
                        },
                    }
                }
            }
            Ok((Visibility::Public, 1))
        },
        _ => Ok((Visibility::Default, 0)),
    }
}

/// Parses the segments following the first one, in code. `acc` holds the
/// segments read so far and is extended in place.
fn parse_more_segments(toks: &Vec<Token>, i: usize, acc: Vec<String>) -> (r: Result<
    (Vec<String>, usize),
    ParseError,
>)
    requires
        i <= toks@.len(),
    ensures
        match r {
            Ok(sj) => segments_parse(toks.deep_view(), i as int, acc.deep_view()) == Some(
                (sj.0.deep_view(), sj.1 as int),
            ) && i <= sj.1 <= toks@.len() && sj.0@.len() >= acc@.len(),
            Err(e) => segments_parse(toks.deep_view(), i as int, acc.deep_view()) is None && e
                == ParseError::MalformedPath,
        },
    decreases toks@.len() - i,
{
    let ghost tsv = toks.deep_view();
    if i < toks.len() {
        let is_sep = match &toks[i] {
            Token::PathSep => true,
            _ => false,
        };
        if is_sep {
            if i + 1 < toks.len() {
                match &toks[i + 1] {
                    Token::Ident(s) => {
                        let mut acc2 = acc;
                        acc2.push(s.clone());
                        assert(acc2.deep_view() =~= acc.deep_view().push(ident_text(
                            tsv[i + 1 as int],
                        )));
                        return parse_more_segments(toks, i + 2, acc2);
                    },
                    _ => {
                        return Err(ParseError::MalformedPath);
                    },
                }
            }
            return Err(ParseError::MalformedPath);
        }
    }
    Ok((acc, i))
}

/// Finds the `>` closing a generic-argument group, in code.
fn find_generics_end(toks: &Vec<Token>, start: usize) -> (r: Option<usize>)
    requires
        1 <= start <= toks@.len(),
    ensures
        match r {
            Some(k) => generics_end(toks.deep_view(), start as int, 1) == Some(k as int) && start
                <= k < toks@.len(),
            None => generics_end(toks.deep_view(), start as int, 1) is None,
        },
{
    let ghost tsv = toks.deep_view();
    let mut j: usize = start;
    let mut depth: usize = 1;
    while j < toks.len()
        invariant
            start <= j <= toks@.len(),
            1 <= start,
            depth >= 1,
            depth <= 1 + j - start,
            tsv == toks.deep_view(),
            tsv.len() == toks@.len(),
            generics_end(tsv, start as int, 1) == generics_end(tsv, j as int, depth as int),
        decreases toks@.len() - j,
    {
        match &toks[j] {
            Token::Gt => {
                if depth == 1 {
                    return Some(j);
                }
                depth = depth - 1;
            },
            Token::Lt => {
                depth = depth + 1;
            },
            _ => {},
        }
        j = j + 1;
    }
    None
}

/// Parses one qualified path, in code.
fn parse_path(toks: &Vec<Token>, i: usize) -> (r: Result<(TypePath, usize), ParseError>)
    requires
        i <= toks@.len(),
    ensures
        match r {
            Ok(pj) => path_parse(toks.deep_view(), i as int) == Some((pj.0@, pj.1 as int)) && i
                < pj.1 <= toks@.len() && pj.0.wf(),
            Err(e) => path_parse(toks.deep_view(), i as int) is None && e
                == ParseError::MalformedPath,
        },
{
    let ghost tsv = toks.deep_view();
    if i >= toks.len() {
        return Err(ParseError::MalformedPath);
    }
    let first = match &toks[i] {
        Token::Ident(s) => s.clone(),
        _ => {
            return Err(ParseError::MalformedPath);
        },
    };
    let mut segments: Vec<String> = Vec::new();
    segments.push(first);
    assert(segments.deep_view() =~= seq![ident_text(tsv[i as int])]);
    let (segments, j) = match parse_more_segments(toks, i + 1, segments) {
        Ok(sj) => sj,
        Err(e) => {
            return Err(e);
        },
    };
    let has_generics = j < toks.len() && match &toks[j] {
        Token::Lt => true,
        _ => false,
    };
    if has_generics {
        match find_generics_end(toks, j + 1) {
            Some(k) => {
                let n = toks.len();
                let mut args: Vec<Token> = Vec::new();
                let mut m: usize = j;
                while m <= k
                    invariant
                        j <= m <= k + 1,
                        k < n,
                        n == toks@.len(),
                        tsv == toks.deep_view(),
                        tsv.len() == toks@.len(),
                        args.deep_view() == tsv.subrange(j as int, m as int),
                    decreases k + 1 - m,
                {
                    let ghost before = args.deep_view();
                    args.push(clone_token(&toks[m]));
                    proof {
                        assert(args.deep_view() =~= before.push(tsv[m as int]));
                        assert(args.deep_view() =~= tsv.subrange(j as int, m as int + 1));
                    }
                    m = m + 1;
                }
                Ok((TypePath { segments, args }, k + 1))
            },
            None => Err(ParseError::MalformedPath),
        }
    } else {
        let args: Vec<Token> = Vec::new();
        assert(args.deep_view() =~= Seq::<TokenView>::empty());
        Ok((TypePath { segments, args }, j))
    }
}

/// Parses the comma-separated path list that runs to the end of the
/// tokens, in code.
fn parse_path_list(toks: &Vec<Token>, i: usize) -> (r: Result<Vec<TypePath>, ParseError>)
    requires
        i <= toks@.len(),
    ensures
        match r {
            Ok(ps) => path_list_parse(toks.deep_view(), i as int) == Ok::<_, ParseError>(
                ps.deep_view(),
            ) && ps@.len() >= 1 && forall|k: int|
                0 <= k < ps@.len() ==> (#[trigger] ps@[k]).wf(),
            Err(e) => path_list_parse(toks.deep_view(), i as int) == Err::<Seq<TypePathView>, _>(e),
        },
    decreases toks@.len() - i,
{
    let ghost tsv = toks.deep_view();
    let (p, j) = match parse_path(toks, i) {
        Ok(pj) => pj,
        Err(e) => {
            return Err(e);
        },
    };
    if j >= toks.len() {
        let mut ps: Vec<TypePath> = Vec::new();
        ps.push(p);
        assert(ps.deep_view() =~= seq![ps@[0]@]);
        return Ok(ps);
    }
    let is_comma = match &toks[j] {
        Token::Comma => true,
        _ => false,
    };
    if !is_comma {
        return Err(ParseError::TrailingTokens);
    }
    if j + 1 >= toks.len() {
        let mut ps: Vec<TypePath> = Vec::new();
        ps.push(p);
        assert(ps.deep_view() =~= seq![ps@[0]@]);
        return Ok(ps);
    }
    match parse_path_list(toks, j + 1) {
        Ok(mut ps) => {
            let ghost rest = ps.deep_view();
            ps.insert(0, p);
            assert(ps.deep_view() =~= seq![ps@[0]@] + rest);
            Ok(ps)
        },
        Err(e) => Err(e),
    }
}

/// The debug text of one segment identifier: `Ident(name)`.
pub open spec fn ident_debug_text(s: Seq<char>) -> Seq<char> {
    "Ident("@ + s + ")"@
}

/// The debug text of the first `n` segment identifiers, comma-separated.
pub open spec fn segments_debug_prefix(segs: Seq<Seq<char>>, n: int) -> Seq<char>
    decreases n,
{
    if n <= 0 {
        Seq::empty()
    } else if n == 1 {
        ident_debug_text(segs[0])
    } else {
        segments_debug_prefix(segs, n - 1) + ", "@ + ident_debug_text(segs[n - 1])
    }
}

/// The debug text of one path: its segment identifiers in brackets.
pub open spec fn path_debug_text(p: TypePathView) -> Seq<char> {
    "["@ + segments_debug_prefix(p.segments, p.segments.len() as int) + "]"@
}

/// The debug text of the first `n` paths, comma-separated.
pub open spec fn paths_debug_prefix(paths: Seq<TypePathView>, n: int) -> Seq<char>
    decreases n,
{
    if n <= 0 {
        Seq::empty()
    } else if n == 1 {
        path_debug_text(paths[0])
    } else {
        paths_debug_prefix(paths, n - 1) + ", "@ + path_debug_text(paths[n - 1])
    }
}

/// The debug text of a parsed specification: its name, and the segment
/// identifiers of every path, in input order.
pub open spec fn specification_debug_text(e: ErrorSpecificationView) -> Seq<char> {
    "ErrorSpecification { name: "@ + e.name + ", error_types: ["@ + paths_debug_prefix(
        e.error_types,
        e.error_types.len() as int,
    ) + "] }"@
}

/// Appends the debug text of one path's segments to `out`.
fn append_path_debug(out: &mut String, path: &TypePath)
    ensures
        final(out)@ == old(out)@ + path_debug_text(path@),
{
    let ghost segs = path.segments.deep_view();
    out.append("[");
    let mut i: usize = 0;
    while i < path.segments.len()
        invariant
            i <= path.segments@.len(),
            segs == path.segments.deep_view(),
            out@ == old(out)@ + "["@ + segments_debug_prefix(segs, i as int),
        decreases path.segments@.len() - i,
    {
        if i > 0 {
            out.append(", ");
        }
        out.append("Ident(");
        out.append(path.segments[i].as_str());
        out.append(")");
        i = i + 1;
    }
    out.append("]");
}

impl ErrorSpecification {
    /// A specification wraps at least one error type, each with at least
    /// one path segment.
    pub open spec fn wf(&self) -> bool {
        self@.wf()
    }

    /// Renders the specification in its debug form: the name and the
    /// segment identifiers of every path.
    pub fn debug_string(&self) -> (r: String)
        ensures
            r@ == specification_debug_text(self@),
    {
        let ghost paths = self.error_types.deep_view();
        let mut out = String::new();
        out.append("ErrorSpecification { name: ");
        out.append(self.name.as_str());
        out.append(", error_types: [");
        let mut i: usize = 0;
        while i < self.error_types.len()
            invariant
                i <= self.error_types@.len(),
                paths == self.error_types.deep_view(),
                out@ == "ErrorSpecification { name: "@ + self.name@ + ", error_types: ["@
                    + paths_debug_prefix(paths, i as int),
            decreases self.error_types@.len() - i,
        {
            if i > 0 {
                out.append(", ");
            }
            append_path_debug(&mut out, &self.error_types[i]);
            i = i + 1;
        }
        out.append("] }");
        out
    }

    /// Parses a whole specification from a token run. Success, the parsed
    /// value, and the reported error are exactly those of
    /// [`specification_parse`] on the tokens' model.
    pub fn parse(tokens: &Vec<Token>) -> (r: Result<ErrorSpecification, ParseError>)
        ensures
            match r {
                Ok(es) => specification_parse(tokens.deep_view()) == Ok::<_, ParseError>(es@)
                    && es.wf(),
                Err(e) => specification_parse(tokens.deep_view()) == Err::<
                    ErrorSpecificationView,
                    _,
                >(e),
            },
    {
        let ghost tsv = tokens.deep_view();
        let (visibility, i) = match parse_visibility(tokens) {
            Ok(vi) => vi,
            Err(e) => {
                return Err(e);
            },
        };
        if i >= tokens.len() {
            return Err(ParseError::MissingName);
        }
        let name = match &tokens[i] {
            Token::Ident(s) => s.clone(),
            _ => {
                return Err(ParseError::MissingName);
            },
        };
        let has_colon = i + 1 < tokens.len() && match &tokens[i + 1] {
            Token::Colon => true,
            _ => false,
        };
        if !has_colon {
            return Err(ParseError::MissingColon);
        }
        if i + 2 >= tokens.len() {
            return Err(ParseError::EmptyPathList);
        }
        match parse_path_list(tokens, i + 2) {
            Ok(error_types) => Ok(ErrorSpecification { visibility, name, error_types }),
            Err(e) => Err(e),
        }
    }
}

} // verus!
