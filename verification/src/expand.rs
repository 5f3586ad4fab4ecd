//! The whole derivation: parse, generate, and report errors as diagnostics.
//!
//! The spec functions here restate the emitted text directly over a parsed
//! declaration — through the named results of the trusted boundary — so
//! that every step of the pipeline, up to the entry point, carries a
//! functional contract: the output is a function of the input alone.

use vstd::prelude::*;

use crate::model::{DerivationError, EnumModel, VariantRecord};
use crate::parser::variants_match;
use crate::render::{
    render,
    spec_arm,
    spec_arms,
    spec_case_line,
    spec_cases,
    spec_kind_ident,
    spec_render,
    spec_render_text,
    spec_shape_pattern,
};
use crate::syntax;

verus! {

/// The case lines of a sequence of parsed variants, in source order: the
/// same text `spec_cases` gives for the records that mirror them.
pub open spec fn raw_case_lines(vs: Seq<syn::Variant>) -> Seq<char>
    decreases vs.len(),
{
    if vs.len() == 0 {
        Seq::empty()
    } else {
        syntax::variant_ident(vs[0]) + ",\n"@ + raw_case_lines(vs.drop_first())
    }
}

/// The match arm of one parsed variant: the same text `spec_arm` gives
/// for the record that mirrors it.
pub open spec fn raw_arm(e: Seq<char>, k: Seq<char>, v: syn::Variant) -> Seq<char> {
    e + "::"@ + syntax::variant_ident(v) + spec_shape_pattern(
        syntax::fields_shape(syntax::variant_fields(v)),
    ) + " => "@ + k + "::"@ + syntax::variant_ident(v) + ",\n"@
}

/// The match arms of a sequence of parsed variants, in source order.
pub open spec fn raw_arms(e: Seq<char>, k: Seq<char>, vs: Seq<syn::Variant>) -> Seq<char>
    decreases vs.len(),
{
    if vs.len() == 0 {
        Seq::empty()
    } else {
        raw_arm(e, k, vs[0]) + raw_arms(e, k, vs.drop_first())
    }
}

/// The whole emitted text for an enumerated type declaration, stated
/// directly over the declaration.
pub open spec fn raw_render(d: syn::DeriveInput) -> Seq<char> {
    spec_render_text(
        syntax::decl_ident(d),
        raw_case_lines(syntax::body_variants(syntax::decl_body(d))),
        raw_arms(
            syntax::decl_ident(d),
            spec_kind_ident(syntax::decl_ident(d)),
            syntax::body_variants(syntax::decl_body(d)),
        ),
    )
}

/// Records that mirror parsed variants render the same case lines and the
/// same match arms.
pub proof fn lemma_matching_variants_render_alike(
    records: Seq<VariantRecord>,
    vs: Seq<syn::Variant>,
    e: Seq<char>,
    k: Seq<char>,
)
    requires
        variants_match(records, vs),
    ensures
        spec_cases(records) == raw_case_lines(vs),
        spec_arms(e, k, records) == raw_arms(e, k, vs),
    decreases records.len(),
{
    if records.len() == 0 {
    } else {
        assert(variants_match(records.drop_first(), vs.drop_first())) by {
            assert forall|i: int| 0 <= i < records.drop_first().len() implies {
                &&& records.drop_first()[i].ident@ == syntax::variant_ident(
                    #[trigger] vs.drop_first()[i],
                )
                &&& records.drop_first()[i].shape == syntax::fields_shape(
                    syntax::variant_fields(vs.drop_first()[i]),
                )
                &&& records.drop_first()[i].span == syntax::variant_span(vs.drop_first()[i])
            } by {
                assert(records.drop_first()[i] == records[i + 1]);
                assert(vs.drop_first()[i] == vs[i + 1]);
            }
        }
        lemma_matching_variants_render_alike(records.drop_first(), vs.drop_first(), e, k);
        assert(records[0].ident@ == syntax::variant_ident(vs[0]));
        assert(records[0].shape == syntax::fields_shape(syntax::variant_fields(vs[0])));
        assert(spec_case_line(records[0]) == syntax::variant_ident(vs[0]) + ",\n"@);
        assert(spec_arm(e, k, records[0]) == raw_arm(e, k, vs[0]));
    }
}

/// The tokens the derivation hands back for an already-parsed declaration:
/// the diagnostic for a non-enum declaration, the lexed render of an enum
/// declaration, or — defensively — the diagnostic for render text that
/// does not lex.
pub open spec fn spec_expansion_of(d: syn::DeriveInput) -> proc_macro2::TokenStream {
    if !syntax::body_is_enum(syntax::decl_body(d)) {
        syntax::diagnostic_tokens(
            syntax::diagnostic_at(syntax::decl_span(d), "derive macro only works on enums"@),
        )
    } else if syntax::text_lexes(raw_render(d)) {
        syntax::lexed_tokens(raw_render(d))
    } else {
        syntax::diagnostic_tokens(syntax::lex_diagnostic(syntax::lex_failure(raw_render(d))))
    }
}

/// The tokens the derivation hands back for raw input tokens: syn's own
/// diagnostic when they do not parse as a type declaration, and the
/// expansion of the parsed declaration otherwise.
pub open spec fn spec_derivation_of(tokens: proc_macro2::TokenStream) -> proc_macro2::TokenStream {
    if syntax::tokens_parse_as_decl(tokens) {
        spec_expansion_of(syntax::parsed_decl(tokens))
    } else {
        syntax::diagnostic_tokens(syntax::decl_parse_diagnostic(tokens))
    }
}

/// Generates the derived declarations for a model: renders their source
/// text, exactly as `spec_render` states it, and lexes that text back into
/// a token stream. Generation succeeds exactly when the rendered text
/// lexes — text that does not can only arise from a model whose
/// identifiers are not well-formed — and otherwise reports the lexing
/// failure as an identifier-construction error.
pub fn codegen(model: &EnumModel) -> (r: Result<proc_macro2::TokenStream, DerivationError>)
    ensures
        r is Ok <==> syntax::text_lexes(spec_render(*model)),
        r matches Ok(ts) ==> ts == syntax::lexed_tokens(spec_render(*model)),
        r matches Err(e) ==> (e matches DerivationError::IdentifierConstruction { lex } && lex
            == syntax::lex_failure(spec_render(*model))),
{
    let text = render(model);
    match syntax::tokens_from_text(text.as_str()) {
        Ok(tokens) => Ok(tokens),
        Err(lex) => Err(DerivationError::IdentifierConstruction { lex }),
    }
}

/// Renders a derivation error as the token stream of a compile-error
/// invocation: `NotAnEnum` with its fixed message at the span it carries,
/// an identifier-construction error with the lexing error's own message
/// and span.
pub fn error_tokens(err: DerivationError) -> (r: proc_macro2::TokenStream)
    ensures
        (err matches DerivationError::NotAnEnum { span } ==> r == syntax::diagnostic_tokens(
            syntax::diagnostic_at(span, "derive macro only works on enums"@),
        )),
        (err matches DerivationError::IdentifierConstruction { lex } ==> r
            == syntax::diagnostic_tokens(syntax::lex_diagnostic(lex))),
{
    let diagnostic = match err {
        DerivationError::NotAnEnum { span } => syntax::diagnostic_new(
            span,
            "derive macro only works on enums",
        ),
        DerivationError::IdentifierConstruction { lex } => syntax::diagnostic_from_lex(lex),
    };
    syntax::diagnostic_into_tokens(diagnostic)
}

/// Expands one derivation request on an already-parsed declaration: builds
/// the model, generates the derived declarations, and on either error
/// emits its diagnostic in place of the generated code. The result is
/// exactly `spec_expansion_of` the declaration.
pub fn expand(input: syn::DeriveInput) -> (r: proc_macro2::TokenStream)
    ensures
        r == spec_expansion_of(input),
{
    match crate::parser::parse(input) {
        Ok(model) => {
            proof {
                lemma_matching_variants_render_alike(
                    model.variants@,
                    syntax::body_variants(syntax::decl_body(input)),
                    model.ident@,
                    spec_kind_ident(model.ident@),
                );
                assert(spec_render(model) == raw_render(input));
            }
            match codegen(&model) {
                Ok(tokens) => tokens,
                Err(err) => error_tokens(err),
            }
        },
        Err(err) => error_tokens(err),
    }
}

/// The derivation entry point over raw tokens: parses the annotated
/// declaration and expands it. Tokens that do not parse as a type
/// declaration are reported with syn's own diagnostic, as the host
/// compiler's derive bridge would. The result is exactly
/// `spec_derivation_of` the input tokens, so repeated invocations on the
/// same tokens yield the same result.
pub fn generate_variant_iter(input: proc_macro2::TokenStream) -> (r: proc_macro2::TokenStream)
    ensures
        r == spec_derivation_of(input),
{
    match syntax::parse_declaration(input) {
        Ok(declaration) => expand(declaration),
        Err(err) => syntax::diagnostic_into_tokens(err),
    }
}

} // verus!
