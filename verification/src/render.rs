//! The code generator: renders the source text of the derived declarations.
//!
//! Given an `EnumModel`, `render` produces the text of the kind type's
//! declaration, the projection method, and the conversion impl, exactly as
//! `spec_render` states it. The two emitted doc lines are fixed text. Every
//! function here is pure string assembly over the model; nothing outside the
//! crate is called.

use vstd::prelude::*;

use crate::model::{EnumModel, VariantRecord, VariantShape};

verus! {

/// The identifier of the generated kind type: the original identifier with
/// the suffix `Kind`.
pub open spec fn spec_kind_ident(enum_ident: Seq<char>) -> Seq<char> {
    enum_ident + crate::kind_suffix()
}

/// The comma-separated wildcard placeholders that discard the payload of a
/// tuple-like variant of the given arity: one `_` per field.
pub open spec fn spec_placeholders(n: nat) -> Seq<char>
    decreases n,
{
    if n == 0 {
        Seq::empty()
    } else if n == 1 {
        "_"@
    } else {
        spec_placeholders((n - 1) as nat) + ", _"@
    }
}

/// The pattern fragment that follows a variant's identifier and discards
/// its fields: nothing for a unit variant, one wildcard per field for a
/// tuple-like variant, and a single field-agnostic wildcard for a
/// struct-like variant.
pub open spec fn spec_shape_pattern(shape: VariantShape) -> Seq<char> {
    match shape {
        VariantShape::Unit => Seq::empty(),
        VariantShape::Unnamed { arity } => "("@ + spec_placeholders(arity as nat) + ")"@,
        VariantShape::Named { .. } => " { .. }"@,
    }
}

/// The case line emitted for one variant in the kind type's declaration.
pub open spec fn spec_case_line(v: VariantRecord) -> Seq<char> {
    v.ident@ + ",\n"@
}

/// The case lines of all variants, in declaration order.
pub open spec fn spec_cases(vs: Seq<VariantRecord>) -> Seq<char>
    decreases vs.len(),
{
    if vs.len() == 0 {
        Seq::empty()
    } else {
        spec_case_line(vs[0]) + spec_cases(vs.drop_first())
    }
}

/// The match arm emitted for one variant: the variant with its fields
/// discarded on the left, the corresponding kind case on the right.
pub open spec fn spec_arm(enum_ident: Seq<char>, kind_ident: Seq<char>, v: VariantRecord) -> Seq<
    char,
> {
    enum_ident + "::"@ + v.ident@ + spec_shape_pattern(v.shape) + " => "@ + kind_ident + "::"@
        + v.ident@ + ",\n"@
}

/// The match arms of all variants, in declaration order.
pub open spec fn spec_arms(
    enum_ident: Seq<char>,
    kind_ident: Seq<char>,
    vs: Seq<VariantRecord>,
) -> Seq<char>
    decreases vs.len(),
{
    if vs.len() == 0 {
        Seq::empty()
    } else {
        spec_arm(enum_ident, kind_ident, vs[0]) + spec_arms(enum_ident, kind_ident, vs.drop_first())
    }
}

/// The declaration of a kind type for a type named `ident` whose case
/// lines are `cases`: fixed doc lines, the derive list that makes every
/// case cheap to copy, compare, order and hash, and the case lines.
pub open spec fn spec_kind_decl_text(ident: Seq<char>, cases: Seq<char>) -> Seq<char> {
    "/// A enum representing a copy of all variants representable for the\n/// type `#enum_ident`.\n#[derive(Debug, Clone, Copy, PartialEq, Eq, PartialOrd, Ord, Hash)]\npub enum "@
        + spec_kind_ident(ident) + " {\n"@ + cases + "}\n"@
}

/// The impl carrying the projection method `as_variant_kind` for a type
/// named `ident`, with the match arms `arms`.
pub open spec fn spec_projection_impl_text(ident: Seq<char>, arms: Seq<char>) -> Seq<char> {
    "impl "@ + ident
        + " {\n/// Returns the corresponding `Copy`-able variant kind for a given enum variant.\npub fn as_variant_kind(&self) -> "@
        + spec_kind_ident(ident) + " {\nmatch self {\n"@ + arms + "}\n}\n}\n"@
}

/// The conversion from the type named `ident` to its kind type, defined
/// in terms of the projection method.
pub open spec fn spec_from_impl_text(ident: Seq<char>) -> Seq<char> {
    "impl From<"@ + ident + "> for "@ + spec_kind_ident(ident) + " {\nfn from(src: "@ + ident
        + ") -> Self {\nsrc.as_variant_kind()\n}\n}\n"@
}

/// The whole emitted text for a type named `ident` with case lines
/// `cases` and match arms `arms`: the kind type's declaration, the
/// projection impl, and the conversion impl, in that order.
pub open spec fn spec_render_text(ident: Seq<char>, cases: Seq<char>, arms: Seq<char>) -> Seq<
    char,
> {
    spec_kind_decl_text(ident, cases) + spec_projection_impl_text(ident, arms)
        + spec_from_impl_text(ident)
}

/// The declaration of the kind type of a model: one unit case per variant
/// of the input, in declaration order.
pub open spec fn spec_kind_decl(m: EnumModel) -> Seq<char> {
    spec_kind_decl_text(m.ident@, spec_cases(m.variants@))
}

/// The impl carrying the projection method `as_variant_kind`: one match
/// arm per variant, in declaration order, each discarding the payload.
pub open spec fn spec_projection_impl(m: EnumModel) -> Seq<char> {
    spec_projection_impl_text(
        m.ident@,
        spec_arms(m.ident@, spec_kind_ident(m.ident@), m.variants@),
    )
}

/// The conversion from the original type to the kind type, defined in
/// terms of the projection method.
pub open spec fn spec_from_impl(m: EnumModel) -> Seq<char> {
    spec_from_impl_text(m.ident@)
}

/// The whole emitted text: the kind type's declaration, the projection
/// impl, and the conversion impl, in that order.
pub open spec fn spec_render(m: EnumModel) -> Seq<char> {
    spec_kind_decl(m) + spec_projection_impl(m) + spec_from_impl(m)
}

/// Appending one variant's case line extends the case lines by exactly
/// that line.
pub proof fn lemma_cases_push(vs: Seq<VariantRecord>, v: VariantRecord)
    ensures
        spec_cases(vs.push(v)) == spec_cases(vs) + spec_case_line(v),
    decreases vs.len(),
{
    if vs.len() == 0 {
        assert(vs.push(v)[0] == v);
        assert(vs.push(v).drop_first() =~= Seq::<VariantRecord>::empty());
        assert(spec_cases(vs.push(v)) == spec_case_line(v) + spec_cases(
            Seq::<VariantRecord>::empty(),
        ));
        assert(spec_cases(vs.push(v)) =~= spec_cases(vs) + spec_case_line(v));
    } else {
        lemma_cases_push(vs.drop_first(), v);
        assert(vs.push(v)[0] == vs[0]);
        assert(vs.push(v).drop_first() =~= vs.drop_first().push(v));
        assert(spec_cases(vs.push(v)) == spec_case_line(vs[0]) + spec_cases(
            vs.drop_first().push(v),
        ));
        assert(spec_cases(vs.push(v)) =~= spec_cases(vs) + spec_case_line(v));
    }
}

/// Appending one variant's match arm extends the arms by exactly that arm.
pub proof fn lemma_arms_push(e: Seq<char>, k: Seq<char>, vs: Seq<VariantRecord>, v: VariantRecord)
    ensures
        spec_arms(e, k, vs.push(v)) == spec_arms(e, k, vs) + spec_arm(e, k, v),
    decreases vs.len(),
{
    if vs.len() == 0 {
        assert(vs.push(v)[0] == v);
        assert(vs.push(v).drop_first() =~= Seq::<VariantRecord>::empty());
        assert(spec_arms(e, k, vs.push(v)) == spec_arm(e, k, v) + spec_arms(
            e,
            k,
            Seq::<VariantRecord>::empty(),
        ));
        assert(spec_arms(e, k, vs.push(v)) =~= spec_arms(e, k, vs) + spec_arm(e, k, v));
    } else {
        lemma_arms_push(e, k, vs.drop_first(), v);
        assert(vs.push(v)[0] == vs[0]);
        assert(vs.push(v).drop_first() =~= vs.drop_first().push(v));
        assert(spec_arms(e, k, vs.push(v)) == spec_arm(e, k, vs[0]) + spec_arms(
            e,
            k,
            vs.drop_first().push(v),
        ));
        assert(spec_arms(e, k, vs.push(v)) =~= spec_arms(e, k, vs) + spec_arm(e, k, v));
    }
}

/// Renders the wildcard placeholders for a tuple-like variant of the given
/// arity.
pub fn render_placeholders(n: usize) -> (r: String)
    ensures
        r@ == spec_placeholders(n as nat),
{
    let mut out = String::new();
    if n == 0 {
        return out;
    }
    out.append("_");
    let mut i: usize = 1;
    while i < n
        invariant
            1 <= i <= n,
            out@ == spec_placeholders(i as nat),
        decreases n - i,
    {
        out.append(", _");
        i = i + 1;
    }
    out
}

/// Appends the discard pattern fragment for one variant shape.
fn render_shape_pattern(out: &mut String, shape: &VariantShape)
    ensures
        final(out)@ == old(out)@ + spec_shape_pattern(*shape),
{
    match shape {
        VariantShape::Unit => {
            assert(out@ =~= old(out)@ + spec_shape_pattern(*shape));
        },
        VariantShape::Unnamed { arity } => {
            out.append("(");
            let placeholders = render_placeholders(*arity);
            out.append(placeholders.as_str());
            out.append(")");
            assert(out@ =~= old(out)@ + spec_shape_pattern(*shape));
        },
        VariantShape::Named { .. } => {
            out.append(" { .. }");
            assert(out@ =~= old(out)@ + spec_shape_pattern(*shape));
        },
    }
}

/// Appends the match arm for one variant.
fn render_arm(out: &mut String, enum_ident: &str, kind_ident: &str, v: &VariantRecord)
    ensures
        final(out)@ == old(out)@ + spec_arm(enum_ident@, kind_ident@, *v),
{
    out.append(enum_ident);
    out.append("::");
    out.append(v.ident.as_str());
    render_shape_pattern(out, &v.shape);
    out.append(" => ");
    out.append(kind_ident);
    out.append("::");
    out.append(v.ident.as_str());
    out.append(",\n");
    assert(out@ =~= old(out)@ + spec_arm(enum_ident@, kind_ident@, *v));
}

/// Appends the case lines of all variants, in declaration order.
fn render_cases(out: &mut String, variants: &Vec<VariantRecord>)
    ensures
        final(out)@ == old(out)@ + spec_cases(variants@),
{
    let ghost base: Seq<char> = out@;
    let n: usize = variants.len();
    let mut i: usize = 0;
    while i < n
        invariant
            i <= n,
            n == variants@.len(),
            out@ == base + spec_cases(variants@.take(i as int)),
        decreases n - i,
    {
        let v = &variants[i];
        out.append(v.ident.as_str());
        out.append(",\n");
        proof {
            lemma_cases_push(variants@.take(i as int), variants@[i as int]);
            assert(variants@.take(i as int + 1) =~= variants@.take(i as int).push(
                variants@[i as int],
            ));
            assert(out@ =~= base + spec_cases(variants@.take(i as int + 1)));
        }
        i = i + 1;
    }
    proof {
        assert(variants@.take(n as int) =~= variants@);
    }
}

/// Appends the match arms of all variants, in declaration order.
fn render_arms(out: &mut String, enum_ident: &str, kind_ident: &str, variants: &Vec<VariantRecord>)
    ensures
        final(out)@ == old(out)@ + spec_arms(enum_ident@, kind_ident@, variants@),
{
    let ghost base: Seq<char> = out@;
    let n: usize = variants.len();
    let mut i: usize = 0;
    while i < n
        invariant
            i <= n,
            n == variants@.len(),
            out@ == base + spec_arms(enum_ident@, kind_ident@, variants@.take(i as int)),
        decreases n - i,
    {
        render_arm(out, enum_ident, kind_ident, &variants[i]);
        proof {
            lemma_arms_push(
                enum_ident@,
                kind_ident@,
                variants@.take(i as int),
                variants@[i as int],
            );
            assert(variants@.take(i as int + 1) =~= variants@.take(i as int).push(
                variants@[i as int],
            ));
            assert(out@ =~= base + spec_arms(enum_ident@, kind_ident@, variants@.take(
                i as int + 1,
            )));
        }
        i = i + 1;
    }
    proof {
        assert(variants@.take(n as int) =~= variants@);
    }
}

/// Renders the whole emitted text for a model: the kind type's
/// declaration, the projection impl, and the conversion impl.
pub fn render(model: &EnumModel) -> (r: String)
    ensures
        r@ == spec_render(*model),
{
    let kind = crate::kind_ident(model.ident.as_str());
    let mut out = String::new();
    out.append(
        "/// A enum representing a copy of all variants representable for the\n/// type `#enum_ident`.\n#[derive(Debug, Clone, Copy, PartialEq, Eq, PartialOrd, Ord, Hash)]\npub enum ",
    );
    out.append(kind.as_str());
    out.append(" {\n");
    render_cases(&mut out, &model.variants);
    out.append("}\n");
    assert(out@ =~= spec_kind_decl(*model));
    let ghost part_one: Seq<char> = out@;
    out.append("impl ");
    out.append(model.ident.as_str());
    out.append(
        " {\n/// Returns the corresponding `Copy`-able variant kind for a given enum variant.\npub fn as_variant_kind(&self) -> ",
    );
    out.append(kind.as_str());
    out.append(" {\nmatch self {\n");
    render_arms(&mut out, model.ident.as_str(), kind.as_str(), &model.variants);
    out.append("}\n}\n}\n");
    assert(out@ =~= part_one + spec_projection_impl(*model));
    let ghost part_two: Seq<char> = out@;
    out.append("impl From<");
    out.append(model.ident.as_str());
    out.append("> for ");
    out.append(kind.as_str());
    out.append(" {\nfn from(src: ");
    out.append(model.ident.as_str());
    out.append(") -> Self {\nsrc.as_variant_kind()\n}\n}\n");
    assert(out@ =~= part_two + spec_from_impl(*model));
    assert(out@ =~= spec_render(*model));
    out
}

} // verus!
