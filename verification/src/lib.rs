//! A compile-time generator of per-call-site error enums.
//!
//! From one declarative line — a visibility, a type name, and a list of
//! qualified error-type paths — the generator produces the text of a sum
//! type with one variant per path, a display rendering that delegates to
//! the debug form, participation in the standard error trait, and a `From`
//! injection for every wrapped type.
//!
//! The library works on a plain token model: a host front end turns its
//! token stream into [`token::Token`] values, calls [`create_error`], and
//! turns the returned source text back into host tokens.

use vstd::prelude::*;

pub mod chars;
pub mod emit;
pub mod parser;
pub mod token;
pub mod variant;

use crate::emit::{
    append_display_impl, append_enum_decl, append_error_impl, append_from_impls, generated_text,
    paths_of,
};
use crate::parser::{specification_parse, ErrorSpecification, ErrorSpecificationView, ParseError};
use crate::token::Token;
use crate::variant::Variant;

verus! {

/// Runs the whole generator on one token run: parses the specification,
/// derives a variant identifier for every path, and renders the generated
/// declarations as source text. On success the output is exactly the
/// rendering of the parsed specification; on failure the reported error is
/// exactly the parse of the tokens, and nothing is produced.
pub fn create_error(tokens: &Vec<Token>) -> (r: Result<String, ParseError>)
    ensures
        ({
            let s = specification_parse(tokens.deep_view());
            match r {
                Ok(out) => s matches Ok(sh) && out@ == generated_text(
                    sh.visibility,
                    sh.name,
                    sh.error_types,
                ),
                Err(e) => s == Err::<ErrorSpecificationView, _>(e),
            }
        }),
{
    let es = match ErrorSpecification::parse(tokens) {
        Ok(es) => es,
        Err(e) => {
            return Err(e);
        },
    };
    let ghost shape = es@;
    let ErrorSpecification { visibility, name, error_types } = es;
    let mut error_types = error_types;
    let mut variants: Vec<Variant> = Vec::new();
    proof {
        assert(error_types.deep_view() =~= shape.error_types.skip(0));
    }
    while error_types.len() > 0
        invariant
            shape.wf(),
            variants@.len() + error_types@.len() == shape.error_types.len(),
            forall|k: int|
                0 <= k < variants@.len() ==> (#[trigger] variants@[k]).wf()
                    && variants@[k].error_type@ == shape.error_types[k],
            error_types.deep_view() == shape.error_types.skip(variants@.len() as int),
        decreases error_types@.len(),
    {
        let ghost before = error_types.deep_view();
        let p = error_types.remove(0);
        proof {
            assert(error_types.deep_view() =~= before.skip(1));
            assert(error_types.deep_view() =~= shape.error_types.skip(
                variants@.len() as int + 1,
            ));
            assert(before[0] == shape.error_types[variants@.len() as int]);
            assert(p@ == before[0]);
        }
        variants.push(Variant::from(p));
    }
    proof {
        assert(paths_of(variants@) =~= shape.error_types);
    }
    let mut out = String::new();
    append_enum_decl(&mut out, &visibility, &name, &variants);
    append_display_impl(&mut out, &name);
    append_error_impl(&mut out, &name);
    append_from_impls(&mut out, &name, &variants);
    Ok(out)
}

} // verus!
