use libsyntax2::ast::{AstNode, NameOwner};
use libsyntax2::{File, SyntaxKind, Token, tokenize};

fn token_kinds(text: &str) -> Vec<SyntaxKind> {
    tokenize(text).iter().map(|t| t.kind).collect()
}

#[test]
fn tokenize_covers_whole_input() {
    for text in [
        "fn f() { 1 + 1 }",
        "",
        "   ",
        "struct S { a: T }",
        "fn f( { ",
        "@#!",
        "mod m;",
        "\u{3b1}\u{3b2} 12 fnx fn",
    ] {
        let tokens = tokenize(text);
        let total: usize = tokens.iter().map(|t| t.len).sum();
        assert_eq!(total, text.chars().count());
        assert!(tokens.iter().all(|t| t.len >= 1));
    }
}

#[test]
fn tokenize_classifies_kinds() {
    assert_eq!(
        token_kinds("fn f() { 1 + 1 }"),
        vec![
            SyntaxKind::FN_KW,
            SyntaxKind::WHITESPACE,
            SyntaxKind::IDENT,
            SyntaxKind::L_PAREN,
            SyntaxKind::R_PAREN,
            SyntaxKind::WHITESPACE,
            SyntaxKind::L_CURLY,
            SyntaxKind::WHITESPACE,
            SyntaxKind::INT_NUMBER,
            SyntaxKind::WHITESPACE,
            SyntaxKind::PLUS,
            SyntaxKind::WHITESPACE,
            SyntaxKind::INT_NUMBER,
            SyntaxKind::WHITESPACE,
            SyntaxKind::R_CURLY,
        ]
    );
    assert_eq!(
        tokenize("struct mod fnx"),
        vec![
            Token { kind: SyntaxKind::STRUCT_KW, len: 6 },
            Token { kind: SyntaxKind::WHITESPACE, len: 1 },
            Token { kind: SyntaxKind::MOD_KW, len: 3 },
            Token { kind: SyntaxKind::WHITESPACE, len: 1 },
            Token { kind: SyntaxKind::IDENT, len: 3 },
        ]
    );
    assert_eq!(token_kinds("@"), vec![SyntaxKind::ERROR_TOKEN]);
    assert_eq!(token_kinds("123"), vec![SyntaxKind::INT_NUMBER]);
}

#[test]
fn round_trip_well_formed() {
    let text = "fn f() { 1 + 1 }";
    let file = File::parse(text);
    assert_eq!(file.text(), text);
    assert_eq!(file.syntax().text(), text);
}

#[test]
fn round_trip_malformed_inputs() {
    for text in [
        "",
        "fn",
        "fn f( { ",
        "}}}}",
        "struct S { a: , }",
        "   \n\t fn  ",
        "@@ fn f() {} @@",
        "\u{3b4}\u{3b5}\u{3b6}",
    ] {
        let file = File::parse(text);
        assert_eq!(file.syntax().text(), text, "lossless parse of {:?}", text);
    }
}

#[test]
fn simple_fn_parses_cleanly() {
    let file = File::parse("fn f() { 1 + 1 }");
    assert!(file.errors().is_empty());
    let root = file.ast();
    let functions = root.functions();
    assert_eq!(functions.len(), 1);
    let name = functions[0].name().expect("the function has a name");
    assert_eq!(name.text(), "f");
}

#[test]
fn malformed_fn_parses_with_diagnostics() {
    let text = "fn f( { ";
    let file = File::parse(text);
    assert!(file.errors().len() >= 1);
    assert_eq!(file.syntax().text(), text);
    // Diagnostics carry ranges within the document.
    let n = text.chars().count();
    for e in file.errors() {
        assert!(e.range.start <= e.range.end);
        assert!(e.range.end <= n);
    }
}

#[test]
fn parse_never_fails_on_stray_tokens() {
    let file = File::parse("+ + +");
    assert_eq!(file.syntax().text(), "+ + +");
    assert!(file.errors().len() >= 1);
    assert_eq!(file.syntax().kind(), SyntaxKind::ROOT);
}

#[test]
fn module_with_semicolon() {
    let file = File::parse("mod m;");
    assert!(file.errors().is_empty());
    let root = file.ast();
    let modules = root.modules();
    assert_eq!(modules.len(), 1);
    assert!(modules[0].has_semi());
    assert_eq!(modules[0].name().unwrap().text(), "m");
}

#[test]
fn struct_parses_with_field_list() {
    let text = "struct S { a: T }";
    let file = File::parse(text);
    assert!(file.errors().is_empty(), "errors: {:?}", file.errors().len());
    assert_eq!(file.syntax().text(), text);
    // The struct node holds its fields behind a field-definition list.
    let root = file.syntax();
    let struct_node = root
        .children()
        .into_iter()
        .find(|c| c.kind() == SyntaxKind::STRUCT_DEF)
        .expect("a struct node");
    let list = struct_node
        .children()
        .into_iter()
        .find(|c| c.kind() == SyntaxKind::NAMED_FIELD_DEF_LIST)
        .expect("a field list");
    let field = list
        .children()
        .into_iter()
        .find(|c| c.kind() == SyntaxKind::NAMED_FIELD_DEF)
        .expect("a field");
    assert_eq!(field.text(), "a: T");
}

#[test]
fn empty_input_parses_to_an_empty_root() {
    let file = File::parse("");
    assert!(file.errors().is_empty());
    assert_eq!(file.syntax().kind(), SyntaxKind::ROOT);
    assert_eq!(file.syntax().num_children(), 0);
    assert_eq!(file.text(), "");
}

#[test]
fn unrecognized_characters_become_error_tokens() {
    // Characters outside the token alphabet, including non-ascii letters,
    // each become a one-character error token; nothing is lost.
    let tokens = tokenize("\u{e9}?");
    assert_eq!(tokens.len(), 2);
    assert!(tokens.iter().all(|t| t.kind == SyntaxKind::ERROR_TOKEN && t.len == 1));
    let file = File::parse("\u{e9}?");
    assert_eq!(file.syntax().text(), "\u{e9}?");
    assert!(file.errors().len() >= 1);
}

#[test]
fn errors_are_an_independent_copy() {
    let file = File::parse("fn f( { ");
    let mut first = file.errors();
    let before = file.errors().len();
    first.clear();
    assert_eq!(file.errors().len(), before);
}
