//! Trusted boundary to the host-language syntax crates.
//!
//! The declarations here make the opaque syntax types of `syn` and
//! `proc_macro2` available to verified code, and each wrapper carries out
//! exactly one call into those crates. Every call here is a function of its
//! arguments alone, so each result is given a name (an uninterpreted spec
//! function), and the wrapper's contract says only that the call returns the
//! named value; the verified modules state and prove everything else over
//! those names. Everything stated here is taken on trust.

use vstd::prelude::*;

use crate::model::VariantShape;

verus! {

/// An opaque source location, used only to anchor diagnostics.
#[verifier::external_type_specification]
#[verifier::external_body]
pub struct ExSpan(proc_macro2::Span);

/// An opaque stream of host-language tokens.
#[verifier::external_type_specification]
#[verifier::external_body]
pub struct ExTokenStream(proc_macro2::TokenStream);

/// The error that `proc_macro2` reports for text that does not lex.
#[verifier::external_type_specification]
#[verifier::external_body]
pub struct ExLexError(proc_macro2::LexError);

/// The parsed form of a type declaration handed to a derivation.
#[verifier::external_type_specification]
#[verifier::external_body]
pub struct ExDeriveInput(syn::DeriveInput);

/// The body of a parsed type declaration: record, enumeration, or union.
#[verifier::external_type_specification]
#[verifier::external_body]
pub struct ExData(syn::Data);

/// One parsed variant of an enumerated type declaration.
#[verifier::external_type_specification]
#[verifier::external_body]
pub struct ExVariant(syn::Variant);

/// The parsed fields of a variant: named, unnamed, or none.
#[verifier::external_type_specification]
#[verifier::external_body]
pub struct ExFields(syn::Fields);

/// A host-language diagnostic, reported in place of generated code.
#[verifier::external_type_specification]
#[verifier::external_body]
pub struct ExSynError(syn::Error);

/// Whether the given tokens parse as a type declaration.
pub uninterp spec fn tokens_parse_as_decl(tokens: proc_macro2::TokenStream) -> bool;

/// The declaration the given tokens parse as, when they parse as one.
pub uninterp spec fn parsed_decl(tokens: proc_macro2::TokenStream) -> syn::DeriveInput;

/// The diagnostic syn reports for tokens that do not parse as a type
/// declaration.
pub uninterp spec fn decl_parse_diagnostic(tokens: proc_macro2::TokenStream) -> syn::Error;

/// The identifier text of a parsed type declaration.
pub uninterp spec fn decl_ident(input: syn::DeriveInput) -> Seq<char>;

/// The span of a whole parsed type declaration.
pub uninterp spec fn decl_span(input: syn::DeriveInput) -> proc_macro2::Span;

/// The body of a parsed type declaration.
pub uninterp spec fn decl_body(input: syn::DeriveInput) -> syn::Data;

/// Whether a declaration body is an enumeration.
pub uninterp spec fn body_is_enum(data: syn::Data) -> bool;

/// The variants an enumeration body carries, in source order.
pub uninterp spec fn body_variants(data: syn::Data) -> Seq<syn::Variant>;

/// The identifier text of a parsed variant.
pub uninterp spec fn variant_ident(variant: syn::Variant) -> Seq<char>;

/// The span of a parsed variant.
pub uninterp spec fn variant_span(variant: syn::Variant) -> proc_macro2::Span;

/// The fields of a parsed variant.
pub uninterp spec fn variant_fields(variant: syn::Variant) -> syn::Fields;

/// The shape classification of a variant's parsed fields.
pub uninterp spec fn fields_shape(fields: syn::Fields) -> VariantShape;

/// Whether the given text lexes as a well-formed token sequence.
pub uninterp spec fn text_lexes(text: Seq<char>) -> bool;

/// The token stream the given text lexes to, when it lexes.
pub uninterp spec fn lexed_tokens(text: Seq<char>) -> proc_macro2::TokenStream;

/// The lexing error reported for text that does not lex.
pub uninterp spec fn lex_failure(text: Seq<char>) -> proc_macro2::LexError;

/// The diagnostic carrying the given message, anchored at the given span.
pub uninterp spec fn diagnostic_at(span: proc_macro2::Span, message: Seq<char>) -> syn::Error;

/// The diagnostic a lexing error converts to.
pub uninterp spec fn lex_diagnostic(lex: proc_macro2::LexError) -> syn::Error;

/// The compile-error invocation tokens of a diagnostic.
pub uninterp spec fn diagnostic_tokens(error: syn::Error) -> proc_macro2::TokenStream;

/// Relies on syn::parse2 to parse a token stream as a type declaration,
/// returning syn's own diagnostic when the tokens are not one. Parsing
/// depends on the tokens alone.
#[verifier::external_body]
pub(crate) fn parse_declaration(tokens: proc_macro2::TokenStream) -> (r: Result<
    syn::DeriveInput,
    syn::Error,
>)
    ensures
        r is Ok <==> tokens_parse_as_decl(tokens),
        r matches Ok(d) ==> d == parsed_decl(tokens),
        r matches Err(e) ==> e == decl_parse_diagnostic(tokens),
{
    syn::parse2::<syn::DeriveInput>(tokens)
}

/// Relies on syn's DeriveInput fields and its Spanned impl: yields the
/// declared type's identifier text, the whole declaration's span, and the
/// declaration's body, each a function of the declaration alone.
#[verifier::external_body]
pub(crate) fn split_declaration(input: syn::DeriveInput) -> (r: (
    String,
    proc_macro2::Span,
    syn::Data,
))
    ensures
        r.0@ == decl_ident(input),
        r.1 == decl_span(input),
        r.2 == decl_body(input),
{
    let span = syn::spanned::Spanned::span(&input);
    let ident = input.ident.to_string();
    (ident, span, input.data)
}

/// Relies on syn::Data: an enumerated declaration carries its variants in
/// source order; a record or union declaration carries none.
#[verifier::external_body]
pub(crate) fn enum_variant_list(data: syn::Data) -> (r: Option<Vec<syn::Variant>>)
    ensures
        r is Some <==> body_is_enum(data),
        r matches Some(vs) ==> vs@ == body_variants(data),
{
    match data {
        syn::Data::Enum(body) => Some(body.variants.into_iter().collect()),
        syn::Data::Struct(_) => None,
        syn::Data::Union(_) => None,
    }
}

/// Relies on syn's Variant fields and its Spanned impl: yields the
/// variant's identifier text, its span, and its fields, each a function of
/// the variant alone.
#[verifier::external_body]
pub(crate) fn split_variant(variant: syn::Variant) -> (r: (
    String,
    proc_macro2::Span,
    syn::Fields,
))
    ensures
        r.0@ == variant_ident(variant),
        r.1 == variant_span(variant),
        r.2 == variant_fields(variant),
{
    let span = syn::spanned::Spanned::span(&variant);
    let ident = variant.ident.to_string();
    (ident, span, variant.fields)
}

/// Relies on syn::Fields: classifies a variant's parsed fields as named,
/// unnamed with their arity, or absent, keeping each field's identifier
/// text in source order. A hand-built named field with no identifier would
/// be kept under an empty name; parsed input cannot produce one, and the
/// names are never used downstream.
#[verifier::external_body]
pub(crate) fn classify_fields(fields: syn::Fields) -> (r: VariantShape)
    ensures
        r == fields_shape(fields),
{
    match fields {
        syn::Fields::Unit => VariantShape::Unit,
        syn::Fields::Unnamed(f) => VariantShape::Unnamed { arity: f.unnamed.len() },
        syn::Fields::Named(f) => VariantShape::Named {
            names: f.named.iter().map(
                |field| field.ident.as_ref().map(|i| i.to_string()).unwrap_or_default(),
            ).collect(),
        },
    }
}

/// Relies on proc_macro2's FromStr for TokenStream: lexes the given text
/// into a token stream, or reports a lexing error for text that is not a
/// well-formed token sequence. Lexing depends on the text alone. Upstream
/// reserves the right to panic instead of returning the error on some
/// ill-formed inputs; its fallback lexer does not.
#[verifier::external_body]
pub(crate) fn tokens_from_text(text: &str) -> (r: Result<
    proc_macro2::TokenStream,
    proc_macro2::LexError,
>)
    ensures
        r is Ok <==> text_lexes(text@),
        r matches Ok(ts) ==> ts == lexed_tokens(text@),
        r matches Err(e) ==> e == lex_failure(text@),
{
    <proc_macro2::TokenStream as core::str::FromStr>::from_str(text)
}

/// Relies on syn::Error::new: builds the diagnostic carrying the given
/// message, anchored at the given span.
#[verifier::external_body]
pub(crate) fn diagnostic_new(span: proc_macro2::Span, message: &str) -> (r: syn::Error)
    ensures
        r == diagnostic_at(span, message@),
{
    syn::Error::new(span, message)
}

/// Relies on syn's From<proc_macro2::LexError> impl: turns a lexing error
/// into the diagnostic anchored at the lexing error's own span.
#[verifier::external_body]
pub(crate) fn diagnostic_from_lex(lex: proc_macro2::LexError) -> (r: syn::Error)
    ensures
        r == lex_diagnostic(lex),
{
    syn::Error::from(lex)
}

/// Relies on syn::Error::into_compile_error: renders a diagnostic as the
/// tokens of one compile-error invocation per message, reported in place
/// of the generated code.
#[verifier::external_body]
pub(crate) fn diagnostic_into_tokens(error: syn::Error) -> (r: proc_macro2::TokenStream)
    ensures
        r == diagnostic_tokens(error),
{
    error.into_compile_error()
}

} // verus!
