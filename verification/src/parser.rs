//! The declaration parser: from a parsed type declaration to the model.
//!
//! `parse` validates that the declaration is an enumerated type and builds
//! one `VariantRecord` per variant, in source order. The only error it can
//! report is `NotAnEnum`, anchored at the declaration's span; once the enum
//! check passes, per-variant extraction always succeeds, and the model
//! mirrors the declaration: same identifier, same span, and the variants in
//! source order with their identifiers, spans and shapes.

use vstd::prelude::*;

use crate::model::{DerivationError, EnumModel, VariantRecord};
use crate::syntax;

verus! {

/// The records mirror the parsed variants: same count, and at every
/// position the record carries that variant's identifier text, its shape
/// classification, and its span — no reordering, filtering or duplication.
pub open spec fn variants_match(records: Seq<VariantRecord>, vs: Seq<syn::Variant>) -> bool {
    &&& records.len() == vs.len()
    &&& forall|i: int|
        0 <= i < records.len() ==> {
            &&& records[i].ident@ == syntax::variant_ident(#[trigger] vs[i])
            &&& records[i].shape == syntax::fields_shape(syntax::variant_fields(vs[i]))
            &&& records[i].span == syntax::variant_span(vs[i])
        }
}

/// Builds the intermediate model of an enumerated type declaration, or
/// refuses a declaration that is not one. The enum check is the sole
/// failure point: the result is an error exactly when the declaration's
/// body is not an enumeration, and the error is `NotAnEnum` with the whole
/// declaration's span. On success the model mirrors the declaration.
pub fn parse(input: syn::DeriveInput) -> (r: Result<EnumModel, DerivationError>)
    ensures
        r is Err <==> !syntax::body_is_enum(syntax::decl_body(input)),
        r matches Err(e) ==> (e matches DerivationError::NotAnEnum { span } && span
            == syntax::decl_span(input)),
        r matches Ok(m) ==> m.ident@ == syntax::decl_ident(input) && m.span == syntax::decl_span(
            input,
        ) && variants_match(m.variants@, syntax::body_variants(syntax::decl_body(input))),
{
    let (ident, span, data) = syntax::split_declaration(input);
    match syntax::enum_variant_list(data) {
        None => Err(DerivationError::NotAnEnum { span }),
        Some(variants) => {
            let ghost all: Seq<syn::Variant> = variants@;
            let mut variants = variants;
            let mut records: Vec<VariantRecord> = Vec::new();
            while variants.len() > 0
                invariant
                    records@.len() + variants@.len() == all.len(),
                    variants@ == all.skip(records@.len() as int),
                    variants_match(records@, all.take(records@.len() as int)),
                decreases variants.len(),
            {
                let ghost done: int = records@.len() as int;
                let variant = variants.remove(0);
                proof {
                    assert(variant == all[done]);
                    assert(all.skip(done).remove(0) =~= all.skip(done + 1));
                }
                let (variant_ident, variant_span, fields) = syntax::split_variant(variant);
                let shape = syntax::classify_fields(fields);
                records.push(VariantRecord::new(variant_span, variant_ident, shape));
                proof {
                    assert(all.take(done + 1).drop_last() =~= all.take(done));
                    assert forall|i: int| 0 <= i < records@.len() implies {
                        &&& records@[i].ident@ == syntax::variant_ident(
                            #[trigger] all.take(done + 1)[i],
                        )
                        &&& records@[i].shape == syntax::fields_shape(
                            syntax::variant_fields(all.take(done + 1)[i]),
                        )
                        &&& records@[i].span == syntax::variant_span(all.take(done + 1)[i])
                    } by {
                        if i < done {
                            assert(all.take(done + 1)[i] == all.take(done)[i]);
                        } else {
                            assert(all.take(done + 1)[i] == all[done]);
                        }
                    }
                }
            }
            proof {
                assert(all.take(records@.len() as int) =~= all);
            }
            Ok(EnumModel::new(span, ident, records))
        },
    }
}

} // verus!
