use vstd::prelude::*;
use vstd::string::StrSliceExecFns;
use crate::chars::{is_lower_char, is_upper_char, lower_char, push_char, to_lower_char, to_upper_char, upper_char};
use crate::token::{append_tokens_text, tokens_text, Token, TokenView};

verus! {

/// A qualified type reference: the identifier of each path segment, in
/// order, plus the verbatim tokens of the generic arguments carried by the
/// last segment (empty when there are none, and including the enclosing
/// angle brackets when present).
pub struct TypePath {
    pub segments: Vec<String>,
    pub args: Vec<Token>,
}

/// The mathematical model of a path: its segment identifiers and its
/// generic-argument tokens.
pub ghost struct TypePathView {
    pub segments: Seq<Seq<char>>,
    pub args: Seq<TokenView>,
}

/// The source text of path segments joined by `::`, for the first `n`
/// segments.
pub open spec fn segments_text_prefix(segs: Seq<Seq<char>>, n: int) -> Seq<char>
    decreases n,
{
    if n <= 0 {
        Seq::empty()
    } else if n == 1 {
        segs[0]
    } else {
        segments_text_prefix(segs, n - 1) + "::"@ + segs[n - 1]
    }
}

impl TypePathView {
    /// A path has at least one segment.
    pub open spec fn wf(&self) -> bool {
        self.segments.len() >= 1
    }

    /// The verbatim source text of the path: the segments joined by `::`,
    /// followed by the generic-argument tokens, if any.
    pub open spec fn text(&self) -> Seq<char> {
        segments_text_prefix(self.segments, self.segments.len() as int) + tokens_text(self.args)
    }
}

impl View for TypePath {
    type V = TypePathView;

    open spec fn view(&self) -> TypePathView {
        TypePathView { segments: self.segments.deep_view(), args: self.args.deep_view() }
    }
}

impl DeepView for TypePath {
    type V = TypePathView;

    open spec fn deep_view(&self) -> TypePathView {
        self.view()
    }
}

impl TypePath {
    /// A path has at least one segment.
    pub open spec fn wf(&self) -> bool {
        self@.wf()
    }

    /// The verbatim source text of the path.
    pub open spec fn text(&self) -> Seq<char> {
        self@.text()
    }
}

/// Appends the verbatim source text of a path to `out`.
pub fn append_path_text(out: &mut String, path: &TypePath)
    requires
        path.wf(),
    ensures
        final(out)@ == old(out)@ + path.text(),
{
    let ghost segs = path.segments.deep_view();
    let mut i: usize = 0;
    while i < path.segments.len()
        invariant
            i <= path.segments@.len(),
            segs == path.segments.deep_view(),
            out@ == old(out)@ + segments_text_prefix(segs, i as int),
        decreases path.segments@.len() - i,
    {
        if i > 0 {
            out.append("::");
        }
        out.append(path.segments[i].as_str());
        i = i + 1;
    }
    append_tokens_text(out, &path.args);
}

/// What the `i`-th character of a segment identifier contributes to the
/// derived variant name: underscores are dropped; the first character of
/// each underscore-delimited word, and every character starting a new
/// capitalized sub-word at a lowercase-to-uppercase boundary, is
/// uppercased; every other character is lowercased.
pub open spec fn class_char(s: Seq<char>, i: int) -> Seq<char> {
    if s[i] == '_' {
        Seq::empty()
    } else if i == 0 || s[i - 1] == '_' || (is_lower_char(s[i - 1]) && is_upper_char(s[i])) {
        seq![upper_char(s[i])]
    } else {
        seq![lower_char(s[i])]
    }
}

/// The class-cased form of the first `n` characters of a segment identifier.
pub open spec fn class_case_prefix(s: Seq<char>, n: int) -> Seq<char>
    decreases n,
{
    if n <= 0 {
        Seq::empty()
    } else {
        class_case_prefix(s, n - 1) + class_char(s, n - 1)
    }
}

/// The class-cased form of one segment identifier.
pub open spec fn class_case(s: Seq<char>) -> Seq<char> {
    class_case_prefix(s, s.len() as int)
}

/// The variant identifier derived from the first `n` segment identifiers.
pub open spec fn derived_name_prefix(segs: Seq<Seq<char>>, n: int) -> Seq<char>
    decreases n,
{
    if n <= 0 {
        Seq::empty()
    } else {
        derived_name_prefix(segs, n - 1) + class_case(segs[n - 1])
    }
}

/// The variant identifier derived from a path's segment identifiers: the
/// class-cased words of every segment, concatenated in order with no
/// separator. Generic arguments contribute nothing.
pub open spec fn derived_variant_name(segs: Seq<Seq<char>>) -> Seq<char> {
    derived_name_prefix(segs, segs.len() as int)
}

/// The variant identifier that belongs to a path.
pub open spec fn variant_name_of(p: TypePathView) -> Seq<char> {
    derived_variant_name(p.segments)
}

/// Name determinism: two path lists whose entries carry the same segment
/// identifiers — whatever their generic arguments — derive the same
/// variant names, in the same order. The derived name is a function of
/// the segment identifiers alone.
pub proof fn lemma_name_determinism(a: Seq<TypePathView>, b: Seq<TypePathView>)
    requires
        a.len() == b.len(),
        forall|k: int| 0 <= k < a.len() ==> (#[trigger] a[k]).segments == b[k].segments,
    ensures
        forall|k: int|
            0 <= k < a.len() ==> variant_name_of(#[trigger] a[k]) == variant_name_of(b[k]),
{
}

/// Appends the class-cased form of one segment identifier to `out`.
fn append_class_case(out: &mut String, seg: &str)
    ensures
        final(out)@ == old(out)@ + class_case(seg@),
{
    let n = seg.unicode_len();
    let mut i: usize = 0;
    let mut prev: char = ' ';
    while i < n
        invariant
            n == seg@.len(),
            i <= n,
            i > 0 ==> prev == seg@[i as int - 1],
            out@ == old(out)@ + class_case_prefix(seg@, i as int),
        decreases n - i,
    {
        let c = seg.get_char(i);
        if c == '_' {
            // dropped: underscores only delimit words
        } else if i == 0 || prev == '_' || ('a' <= prev && prev <= 'z' && 'A' <= c && c <= 'Z') {
            push_char(out, to_upper_char(c));
        } else {
            push_char(out, to_lower_char(c));
        }
        prev = c;
        i = i + 1;
    }
}

/// Derives the variant identifier for a path: every segment identifier is
/// split on underscores into words, each word is class-cased, and the
/// results are concatenated in order.
pub fn recapitalize_error_path(path: &TypePath) -> (r: String)
    ensures
        r@ == derived_variant_name(path@.segments),
{
    let ghost segs = path.segments.deep_view();
    let mut name = String::new();
    let mut i: usize = 0;
    while i < path.segments.len()
        invariant
            i <= path.segments@.len(),
            segs == path.segments.deep_view(),
            name@ == derived_name_prefix(segs, i as int),
        decreases path.segments@.len() - i,
    {
        append_class_case(&mut name, path.segments[i].as_str());
        i = i + 1;
    }
    name
}

/// One arm of the generated sum type: the derived variant identifier and
/// the wrapped type's path, re-emitted verbatim wherever the type is
/// needed.
pub struct Variant {
    pub variant_name: String,
    pub error_type: TypePath,
}

/// The text of one variant declaration inside the generated enum:
/// `Name(path)`.
pub open spec fn variant_decl_text(name: Seq<char>, p: TypePathView) -> Seq<char> {
    name + "("@ + p.text() + ")"@
}

/// The text of the injection from one wrapped type into the generated
/// enum: a `From` implementation selecting this variant, with every
/// standard item fully qualified from the language root.
pub open spec fn from_impl_text(name: Seq<char>, p: TypePathView, enum_name: Seq<char>) -> Seq<
    char,
> {
    "impl ::std::convert::From<"@ + p.text() + "> for "@ + enum_name + " {\n    fn from(error: "@
        + p.text() + ") -> Self {\n        Self::"@ + name + "(error)\n    }\n}\n"@
}

impl Variant {
    /// The variant name is exactly the one derived from the path.
    pub open spec fn wf(&self) -> bool {
        &&& self.error_type.wf()
        &&& self.variant_name@ == derived_variant_name(self.error_type@.segments)
    }

    /// Builds the variant for a path, deriving its identifier.
    pub fn from(path: TypePath) -> (r: Variant)
        requires
            path.wf(),
        ensures
            r.error_type == path,
            r.wf(),
    {
        let variant_name = recapitalize_error_path(&path);
        Variant { variant_name, error_type: path }
    }

    /// Appends the injection implementation for this variant to `tokens`.
    pub fn build_from_impl(&self, enum_name: &String, tokens: &mut String)
        requires
            self.error_type.wf(),
        ensures
            final(tokens)@ == old(tokens)@ + from_impl_text(
                self.variant_name@,
                self.error_type@,
                enum_name@,
            ),
    {
        tokens.append("impl ::std::convert::From<");
        append_path_text(tokens, &self.error_type);
        tokens.append("> for ");
        tokens.append(enum_name.as_str());
        tokens.append(" {\n    fn from(error: ");
        append_path_text(tokens, &self.error_type);
        tokens.append(") -> Self {\n        Self::");
        tokens.append(self.variant_name.as_str());
        tokens.append("(error)\n    }\n}\n");
    }

    /// Appends this variant's declaration, `Name(path)`, to `tokens`.
    pub fn to_tokens(&self, tokens: &mut String)
        requires
            self.error_type.wf(),
        ensures
            final(tokens)@ == old(tokens)@ + variant_decl_text(self.variant_name@, self.error_type@),
    {
        tokens.append(self.variant_name.as_str());
        tokens.append("(");
        append_path_text(tokens, &self.error_type);
        tokens.append(")");
    }
}

} // verus!
