//! The intermediate model of an enumerated type declaration.
//!
//! The parser builds one `EnumModel` per derivation; the generator consumes
//! it. A variant's shape records exactly as much structure as the generator
//! needs to build the pattern that discards the variant's payload.

use vstd::prelude::*;

verus! {

/// How much structural information a variant carries. The shape alone
/// determines the discard pattern used in the generated projection.
pub enum VariantShape {
    /// A variant with no fields.
    Unit,
    /// A tuple-like variant; `arity` is the literal number of its fields.
    Unnamed { arity: usize },
    /// A struct-like variant; the field names are kept only to classify
    /// the shape and are never referenced in generated code.
    Named { names: Vec<String> },
}

/// One variant of the input type: its identifier, its shape, and the
/// source location of its declaration.
pub struct VariantRecord {
    pub ident: String,
    pub shape: VariantShape,
    pub span: proc_macro2::Span,
}

/// The parsed form of the whole input type: its identifier, its variants
/// in declaration order, and the source location of the declaration.
pub struct EnumModel {
    pub ident: String,
    pub variants: Vec<VariantRecord>,
    pub span: proc_macro2::Span,
}

/// Why a derivation was refused. Every error is reported as a compile-time
/// diagnostic in place of the generated code.
#[derive(Debug)]
pub enum DerivationError {
    /// The annotated declaration is not an enumerated type.
    NotAnEnum { span: proc_macro2::Span },
    /// A generated fragment could not be lexed back into tokens.
    IdentifierConstruction { lex: proc_macro2::LexError },
}

impl VariantRecord {
    /// Builds the record for one variant, keeping every part as given.
    pub fn new(span: proc_macro2::Span, ident: String, shape: VariantShape) -> (r: VariantRecord)
        ensures
            r.span == span,
            r.ident == ident,
            r.shape == shape,
    {
        VariantRecord { ident, shape, span }
    }
}

impl EnumModel {
    /// Builds the model of a whole enumerated type, keeping the variants
    /// exactly as given, in declaration order.
    pub fn new(span: proc_macro2::Span, ident: String, variants: Vec<VariantRecord>) -> (r:
        EnumModel)
        ensures
            r.span == span,
            r.ident == ident,
            r.variants == variants,
    {
        EnumModel { ident, variants, span }
    }
}

} // verus!
