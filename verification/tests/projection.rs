//! Runtime behavior of the emitted declarations.
//!
//! The derivation emits source text, so these tests write out, item for
//! item, the declarations it emits for two concrete enums, check that the
//! rendered text is exactly that code, and then exercise the projection
//! itself: every variant maps to the kind case of the same name, whatever
//! payload it carries.

use enum_variant_kind::parser::parse;
use enum_variant_kind::render::render;

#[derive(Debug, Clone, Copy, PartialEq, Eq)]
enum GrammarElement {
    Expr,
    Factor,
    Term,
}

// The declarations emitted for `GrammarElement`, written out.
#[derive(Debug, Clone, Copy, PartialEq, Eq, PartialOrd, Ord, Hash)]
pub enum GrammarElementKind {
    Expr,
    Factor,
    Term,
}

impl GrammarElement {
    pub fn as_variant_kind(&self) -> GrammarElementKind {
        match self {
            GrammarElement::Expr => GrammarElementKind::Expr,
            GrammarElement::Factor => GrammarElementKind::Factor,
            GrammarElement::Term => GrammarElementKind::Term,
        }
    }
}

impl From<GrammarElement> for GrammarElementKind {
    fn from(src: GrammarElement) -> Self {
        src.as_variant_kind()
    }
}

#[derive(Debug, Clone, PartialEq, Eq)]
enum Message {
    Quit,
    Write(String, u8),
    Move { x: i32, y: i32 },
}

// The declarations emitted for `Message`, written out.
#[derive(Debug, Clone, Copy, PartialEq, Eq, PartialOrd, Ord, Hash)]
pub enum MessageKind {
    Quit,
    Write,
    Move,
}

impl Message {
    pub fn as_variant_kind(&self) -> MessageKind {
        match self {
            Message::Quit => MessageKind::Quit,
            Message::Write(_, _) => MessageKind::Write,
            Message::Move { .. } => MessageKind::Move,
        }
    }
}

impl From<Message> for MessageKind {
    fn from(src: Message) -> Self {
        src.as_variant_kind()
    }
}

fn normalized_tokens(text: &str) -> String {
    <proc_macro2::TokenStream as std::str::FromStr>::from_str(text)
        .expect("text should lex")
        .to_string()
}

/// The rendered text for `GrammarElement` is exactly the code written out
/// above, up to the whitespace that tokenization discards.
#[test]
fn rendered_grammar_element_matches_written_expansion() {
    let input =
        syn::parse_str::<syn::DeriveInput>("enum GrammarElement { Expr, Factor, Term }").unwrap();
    let model = parse(input).unwrap();
    let written = "/// A enum representing a copy of all variants representable for the\n/// type `#enum_ident`.\n#[derive(Debug, Clone, Copy, PartialEq, Eq, PartialOrd, Ord, Hash)]\npub enum GrammarElementKind { Expr, Factor, Term, }\nimpl GrammarElement {\n/// Returns the corresponding `Copy`-able variant kind for a given enum variant.\npub fn as_variant_kind(&self) -> GrammarElementKind {\nmatch self {\nGrammarElement::Expr => GrammarElementKind::Expr,\nGrammarElement::Factor => GrammarElementKind::Factor,\nGrammarElement::Term => GrammarElementKind::Term,\n}\n}\n}\nimpl From<GrammarElement> for GrammarElementKind {\nfn from(src: GrammarElement) -> Self {\nsrc.as_variant_kind()\n}\n}\n";
    assert_eq!(normalized_tokens(&render(&model)), normalized_tokens(written));
}

#[test]
fn every_unit_variant_projects_to_its_case() {
    assert_eq!(
        GrammarElement::Expr.as_variant_kind(),
        GrammarElementKind::Expr
    );
    assert_eq!(
        GrammarElement::Factor.as_variant_kind(),
        GrammarElementKind::Factor
    );
    assert_eq!(
        GrammarElement::Term.as_variant_kind(),
        GrammarElementKind::Term
    );
}

#[test]
fn projection_of_sequence_keeps_order() {
    let variants = [
        GrammarElement::Expr,
        GrammarElement::Factor,
        GrammarElement::Term,
    ];
    let kinds: Vec<GrammarElementKind> = variants.iter().map(|v| v.as_variant_kind()).collect();
    assert_eq!(
        kinds,
        vec![
            GrammarElementKind::Expr,
            GrammarElementKind::Factor,
            GrammarElementKind::Term,
        ]
    );
}

#[test]
fn projection_ignores_payload() {
    assert_eq!(
        Message::Write("a".to_string(), 1).as_variant_kind(),
        MessageKind::Write
    );
    assert_eq!(
        Message::Write("completely different".to_string(), 200).as_variant_kind(),
        MessageKind::Write
    );
    assert_eq!(
        Message::Move { x: -3, y: 7 }.as_variant_kind(),
        MessageKind::Move
    );
    assert_eq!(Message::Quit.as_variant_kind(), MessageKind::Quit);
}

#[test]
fn conversion_goes_through_the_projection() {
    assert_eq!(
        MessageKind::from(Message::Quit),
        Message::Quit.as_variant_kind()
    );
    assert_eq!(
        MessageKind::from(Message::Write(String::new(), 0)),
        MessageKind::Write
    );
    let kind: GrammarElementKind = GrammarElement::Factor.into();
    assert_eq!(kind, GrammarElementKind::Factor);
}

/// The kind type's derived total order follows declaration order.
#[test]
fn kind_order_follows_declaration_order() {
    assert!(GrammarElementKind::Expr < GrammarElementKind::Factor);
    assert!(GrammarElementKind::Factor < GrammarElementKind::Term);
    assert!(MessageKind::Quit < MessageKind::Write);
    assert!(MessageKind::Write < MessageKind::Move);
}
