//! Derivation of a payload-free "kind" companion for an enumerated type.
//!
//! Given the parsed declaration of an enumerated type `Name`, the library
//! builds an intermediate model of its variants and emits the source text of
//! a companion type `NameKind` with one unit case per variant, a projection
//! method `as_variant_kind` mapping each variant to its case while
//! discarding the payload, and a `From` conversion defined through that
//! method. A declaration that is not an enumerated type is refused with a
//! diagnostic anchored at the declaration.

use vstd::prelude::*;

pub mod expand;
pub mod laws;
pub mod model;
pub mod parser;
pub mod render;
pub mod syntax;

verus! {

/// The suffix appended to the input type's identifier to form the name of
/// the generated kind type.
pub open spec fn kind_suffix() -> Seq<char> {
    "Kind"@
}

/// Builds the identifier of the generated kind type: the original type's
/// identifier with the literal suffix `Kind` appended.
pub fn kind_ident(enum_ident: &str) -> (r: String)
    ensures
        r@ == enum_ident@ + kind_suffix(),
{
    let mut out = enum_ident.to_owned();
    out.append("Kind");
    out
}

} // verus!
