use vstd::prelude::*;
use crate::parser::{Visibility, VisibilityView};
use crate::token::{append_tokens_text, tokens_text};
use crate::variant::{from_impl_text, variant_decl_text, variant_name_of, TypePathView, Variant};

verus! {

/// The text of the visibility marker as written before `enum`, with a
/// trailing space; default visibility contributes nothing.
pub open spec fn vis_prefix_text(v: VisibilityView) -> Seq<char> {
    match v {
        VisibilityView::Default => Seq::empty(),
        VisibilityView::Public => "pub "@,
        VisibilityView::Restricted(ts) => "pub("@ + tokens_text(ts) + ") "@,
    }
}

/// The text of the first `n` variant declarations inside the enum body,
/// one indented line each.
pub open spec fn variants_block_text(paths: Seq<TypePathView>, n: int) -> Seq<char>
    decreases n,
{
    if n <= 0 {
        Seq::empty()
    } else {
        variants_block_text(paths, n - 1) + "    "@ + variant_decl_text(
            variant_name_of(paths[n - 1]),
            paths[n - 1],
        ) + ",\n"@
    }
}

/// The text of the generated enum declaration: a derived debug rendering,
/// the requested visibility and name, and one variant per path, in input
/// order.
pub open spec fn enum_decl_text(vis: VisibilityView, name: Seq<char>, paths: Seq<TypePathView>) -> Seq<
    char,
> {
    "#[derive(::std::fmt::Debug)]\n"@ + vis_prefix_text(vis) + "enum "@ + name + " {\n"@
        + variants_block_text(paths, paths.len() as int) + "}\n"@
}

/// The text of the display rendering, which delegates to the debug form.
pub open spec fn display_impl_text(name: Seq<char>) -> Seq<char> {
    "impl ::std::fmt::Display for "@ + name
        + " {\n    fn fmt(&self, f: &mut ::std::fmt::Formatter<'_>) -> ::std::fmt::Result {\n        write!(f, \"{:?}\", self)\n    }\n}\n"@
}

/// The text of the declaration that the generated type takes part in the
/// standard error abstraction, with no overrides.
pub open spec fn error_impl_text(name: Seq<char>) -> Seq<char> {
    "impl ::std::error::Error for "@ + name + " {}\n"@
}

/// The text of the first `n` injection implementations, in variant order.
pub open spec fn from_impls_text(paths: Seq<TypePathView>, enum_name: Seq<char>, n: int) -> Seq<
    char,
>
    decreases n,
{
    if n <= 0 {
        Seq::empty()
    } else {
        from_impls_text(paths, enum_name, n - 1) + from_impl_text(
            variant_name_of(paths[n - 1]),
            paths[n - 1],
            enum_name,
        )
    }
}

/// The whole generated output for a specification: the enum declaration,
/// the display and error-trait declarations, then one injection per
/// variant, in that order and nothing else.
pub open spec fn generated_text(
    vis: VisibilityView,
    name: Seq<char>,
    paths: Seq<TypePathView>,
) -> Seq<char> {
    enum_decl_text(vis, name, paths) + display_impl_text(name) + error_impl_text(name)
        + from_impls_text(paths, name, paths.len() as int)
}

/// Exhaustiveness of the emitted arms: the enum body holds exactly one
/// declaration per input path and nothing else — the block for `n + 1`
/// paths is the block for the first `n`, followed by the single arm of
/// path `n`.
pub proof fn lemma_exactly_one_arm_per_path(paths: Seq<TypePathView>, n: int)
    requires
        0 <= n < paths.len(),
    ensures
        variants_block_text(paths, n + 1) == variants_block_text(paths, n) + "    "@
            + variant_decl_text(variant_name_of(paths[n]), paths[n]) + ",\n"@,
{
}

/// The text of the generated enum declaration after its visibility
/// marker. It is a function of the name and the paths alone.
pub open spec fn enum_after_vis_text(name: Seq<char>, paths: Seq<TypePathView>) -> Seq<char> {
    "enum "@ + name + " {\n"@ + variants_block_text(paths, paths.len() as int) + "}\n"@
}

/// Visibility preservation: the generated text is the fixed derive line,
/// then the input visibility marker verbatim, then text that does not
/// depend on the visibility at all.
pub proof fn lemma_visibility_preservation(
    vis: VisibilityView,
    name: Seq<char>,
    paths: Seq<TypePathView>,
)
    ensures
        generated_text(vis, name, paths) == "#[derive(::std::fmt::Debug)]\n"@ + vis_prefix_text(
            vis,
        ) + (enum_after_vis_text(name, paths) + display_impl_text(name) + error_impl_text(name)
            + from_impls_text(paths, name, paths.len() as int)),
{
    assert(generated_text(vis, name, paths) =~= "#[derive(::std::fmt::Debug)]\n"@
        + vis_prefix_text(vis) + (enum_after_vis_text(name, paths) + display_impl_text(name)
        + error_impl_text(name) + from_impls_text(paths, name, paths.len() as int)));
}

/// Appends the visibility marker, with its trailing space, to `out`.
pub fn append_vis_prefix(out: &mut String, vis: &Visibility)
    ensures
        final(out)@ == old(out)@ + vis_prefix_text(vis@),
{
    match vis {
        Visibility::Default => {},
        Visibility::Public => out.append("pub "),
        Visibility::Restricted(ts) => {
            out.append("pub(");
            append_tokens_text(out, ts);
            out.append(") ");
        },
    }
}

/// Appends the generated enum declaration for the given variants to `out`.
pub fn append_enum_decl(out: &mut String, vis: &Visibility, name: &String, variants: &Vec<Variant>)
    requires
        forall|k: int| 0 <= k < variants@.len() ==> (#[trigger] variants@[k]).wf(),
    ensures
        final(out)@ == old(out)@ + enum_decl_text(vis@, name@, paths_of(variants@)),
{
    let ghost paths = paths_of(variants@);
    out.append("#[derive(::std::fmt::Debug)]\n");
    append_vis_prefix(out, vis);
    out.append("enum ");
    out.append(name.as_str());
    out.append(" {\n");
    let mut i: usize = 0;
    while i < variants.len()
        invariant
            i <= variants@.len(),
            paths == paths_of(variants@),
            forall|k: int| 0 <= k < variants@.len() ==> (#[trigger] variants@[k]).wf(),
            out@ == old(out)@ + "#[derive(::std::fmt::Debug)]\n"@ + vis_prefix_text(vis@)
                + "enum "@ + name@ + " {\n"@ + variants_block_text(paths, i as int),
        decreases variants@.len() - i,
    {
        out.append("    ");
        variants[i].to_tokens(out);
        out.append(",\n");
        i = i + 1;
    }
    out.append("}\n");
}

/// The models of the variants' wrapped-type paths, in order.
pub open spec fn paths_of(vs: Seq<Variant>) -> Seq<TypePathView> {
    vs.map_values(|v: Variant| v.error_type@)
}

/// Appends the display rendering, which delegates to the debug form, to
/// `out`.
pub fn append_display_impl(out: &mut String, name: &String)
    ensures
        final(out)@ == old(out)@ + display_impl_text(name@),
{
    out.append("impl ::std::fmt::Display for ");
    out.append(name.as_str());
    out.append(
        " {\n    fn fmt(&self, f: &mut ::std::fmt::Formatter<'_>) -> ::std::fmt::Result {\n        write!(f, \"{:?}\", self)\n    }\n}\n",
    );
}

/// Appends the declaration joining the standard error abstraction to
/// `out`.
pub fn append_error_impl(out: &mut String, name: &String)
    ensures
        final(out)@ == old(out)@ + error_impl_text(name@),
{
    out.append("impl ::std::error::Error for ");
    out.append(name.as_str());
    out.append(" {}\n");
}

/// Appends every injection implementation, in variant order, to `out`.
pub fn append_from_impls(out: &mut String, name: &String, variants: &Vec<Variant>)
    requires
        forall|k: int| 0 <= k < variants@.len() ==> (#[trigger] variants@[k]).wf(),
    ensures
        final(out)@ == old(out)@ + from_impls_text(
            paths_of(variants@),
            name@,
            variants@.len() as int,
        ),
{
    let ghost paths = paths_of(variants@);
    let mut i: usize = 0;
    while i < variants.len()
        invariant
            i <= variants@.len(),
            paths == paths_of(variants@),
            forall|k: int| 0 <= k < variants@.len() ==> (#[trigger] variants@[k]).wf(),
            out@ == old(out)@ + from_impls_text(paths, name@, i as int),
        decreases variants@.len() - i,
    {
        variants[i].build_from_impl(name, out);
        i = i + 1;
    }
}

} // verus!
