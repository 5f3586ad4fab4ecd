use enum_variant_kind::expand::{codegen, generate_variant_iter};
use enum_variant_kind::kind_ident;
use enum_variant_kind::model::{DerivationError, EnumModel, VariantRecord, VariantShape};
use enum_variant_kind::parser::parse;
use enum_variant_kind::render::render;

fn input(source: &str) -> syn::DeriveInput {
    syn::parse_str::<syn::DeriveInput>(source).expect("declaration should parse")
}

/// The exact text the generator emits for an enum `e` whose case lines are
/// `cases` and whose match arms are `arms`.
fn expected_text(e: &str, cases: &str, arms: &str) -> String {
    let k = format!("{e}Kind");
    format!(
        "/// A enum representing a copy of all variants representable for the\n/// type `#enum_ident`.\n#[derive(Debug, Clone, Copy, PartialEq, Eq, PartialOrd, Ord, Hash)]\npub enum {k} {{\n{cases}}}\nimpl {e} {{\n/// Returns the corresponding `Copy`-able variant kind for a given enum variant.\npub fn as_variant_kind(&self) -> {k} {{\nmatch self {{\n{arms}}}\n}}\n}}\nimpl From<{e}> for {k} {{\nfn from(src: {e}) -> Self {{\nsrc.as_variant_kind()\n}}\n}}\n"
    )
}

#[test]
fn kind_ident_appends_suffix() {
    assert_eq!(kind_ident("GrammarElement"), "GrammarElementKind");
    assert_eq!(kind_ident(""), "Kind");
}

#[test]
fn grammar_element_renders_exactly() {
    let model = parse(input("enum GrammarElement { Expr, Factor, Term }")).unwrap();
    let text = render(&model);
    assert_eq!(
        text,
        expected_text(
            "GrammarElement",
            "Expr,\nFactor,\nTerm,\n",
            "GrammarElement::Expr => GrammarElementKind::Expr,\nGrammarElement::Factor => GrammarElementKind::Factor,\nGrammarElement::Term => GrammarElementKind::Term,\n",
        )
    );
}

#[test]
fn parser_classifies_shapes() {
    let model = parse(input(
        "enum Mixed { U, T(u8, String), N { a: u8, b: u8 } }",
    ))
    .unwrap();
    assert_eq!(model.ident, "Mixed");
    assert_eq!(model.variants.len(), 3);
    assert_eq!(model.variants[0].ident, "U");
    assert!(matches!(model.variants[0].shape, VariantShape::Unit));
    assert_eq!(model.variants[1].ident, "T");
    assert!(matches!(
        model.variants[1].shape,
        VariantShape::Unnamed { arity: 2 }
    ));
    assert_eq!(model.variants[2].ident, "N");
    match &model.variants[2].shape {
        VariantShape::Named { names } => assert_eq!(names, &vec!["a".to_string(), "b".to_string()]),
        _ => panic!("expected named fields"),
    }
}

#[test]
fn shapes_render_their_discard_patterns() {
    let model = parse(input(
        "enum Mixed { U, T(u8, String), N { a: u8, b: u8 } }",
    ))
    .unwrap();
    let text = render(&model);
    assert_eq!(
        text,
        expected_text(
            "Mixed",
            "U,\nT,\nN,\n",
            "Mixed::U => MixedKind::U,\nMixed::T(_, _) => MixedKind::T,\nMixed::N { .. } => MixedKind::N,\n",
        )
    );
}

#[test]
fn single_field_tuple_gets_one_placeholder() {
    let model = parse(input("enum Wrap { One(u64) }")).unwrap();
    let text = render(&model);
    assert_eq!(
        text,
        expected_text("Wrap", "One,\n", "Wrap::One(_) => WrapKind::One,\n")
    );
}

#[test]
fn declaration_order_is_preserved() {
    let model = parse(input("enum P { Zed, Alpha, Mid }")).unwrap();
    let text = render(&model);
    assert_eq!(
        text,
        expected_text(
            "P",
            "Zed,\nAlpha,\nMid,\n",
            "P::Zed => PKind::Zed,\nP::Alpha => PKind::Alpha,\nP::Mid => PKind::Mid,\n",
        )
    );
    let zed = text.find("Zed,\n").unwrap();
    let alpha = text.find("Alpha,\n").unwrap();
    let mid = text.find("Mid,\n").unwrap();
    assert!(zed < alpha && alpha < mid);
}

#[test]
fn zero_variant_enum_renders_empty_kind() {
    let model = parse(input("enum Empty {}")).unwrap();
    assert_eq!(model.variants.len(), 0);
    let text = render(&model);
    assert_eq!(text, expected_text("Empty", "", ""));
}

#[test]
fn struct_declaration_is_rejected() {
    let r = parse(input("struct Point { x: u8, y: u8 }"));
    assert!(matches!(r, Err(DerivationError::NotAnEnum { .. })));
}

#[test]
fn union_declaration_is_rejected() {
    let r = parse(input("union U { a: u8, b: u16 }"));
    assert!(matches!(r, Err(DerivationError::NotAnEnum { .. })));
}

#[test]
fn rejection_emits_compile_error_tokens() {
    let tokens = <proc_macro2::TokenStream as std::str::FromStr>::from_str(
        "struct Point { x: u8, y: u8 }",
    )
    .unwrap();
    let out = generate_variant_iter(tokens).to_string();
    assert!(out.contains("compile_error"));
    assert!(out.contains("derive macro only works on enums"));
    assert!(!out.contains("PointKind"));
}

#[test]
fn unparsable_input_reports_syn_diagnostic() {
    let tokens =
        <proc_macro2::TokenStream as std::str::FromStr>::from_str("fn answer() -> u8 { 42 }")
            .unwrap();
    let out = generate_variant_iter(tokens).to_string();
    assert!(out.contains("compile_error"));
}

#[test]
fn codegen_lexes_rendered_text() {
    let model = parse(input("enum Tok { Plus, Minus, Num(i64) }")).unwrap();
    let tokens = codegen(&model).unwrap();
    let out = tokens.to_string();
    assert!(out.contains("TokKind"));
    assert!(out.contains("as_variant_kind"));
    assert!(out.contains("From"));
}

#[test]
fn generated_text_parses_as_declarations() {
    let model = parse(input("enum Tok { Plus, Minus, Num(i64) }")).unwrap();
    let text = render(&model);
    let file = syn::parse_str::<syn::File>(&text).expect("emitted text should parse");
    assert_eq!(file.items.len(), 3);
    match &file.items[0] {
        syn::Item::Enum(decl) => {
            assert_eq!(decl.ident.to_string(), "TokKind");
            let names: Vec<String> = decl.variants.iter().map(|v| v.ident.to_string()).collect();
            assert_eq!(names, vec!["Plus", "Minus", "Num"]);
            assert!(decl.variants.iter().all(|v| matches!(v.fields, syn::Fields::Unit)));
        }
        _ => panic!("first emitted item should be the kind enum"),
    }
    assert!(matches!(&file.items[1], syn::Item::Impl(_)));
    assert!(matches!(&file.items[2], syn::Item::Impl(_)));
}

#[test]
fn ill_formed_identifier_is_a_construction_error() {
    let model = EnumModel::new(
        proc_macro2::Span::call_site(),
        "Un(".to_string(),
        Vec::new(),
    );
    let r = codegen(&model);
    assert!(matches!(
        r,
        Err(DerivationError::IdentifierConstruction { .. })
    ));
}

#[test]
fn model_constructors_keep_their_parts() {
    let span = proc_macro2::Span::call_site();
    let record = VariantRecord::new(span, "Leaf".to_string(), VariantShape::Unnamed { arity: 3 });
    assert_eq!(record.ident, "Leaf");
    assert!(matches!(record.shape, VariantShape::Unnamed { arity: 3 }));
    let model = EnumModel::new(span, "Tree".to_string(), vec![record]);
    assert_eq!(model.ident, "Tree");
    assert_eq!(model.variants.len(), 1);
    assert_eq!(model.variants[0].ident, "Leaf");
}
