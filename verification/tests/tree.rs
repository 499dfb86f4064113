use libsyntax2::builder::GreenBuilder;
use libsyntax2::syntax::SyntaxRoot;
use libsyntax2::{
    File, OwnedRoot, SyntaxKind, SyntaxNode, TextRange, validate_block_structure,
};

fn node_from_builder(b: GreenBuilder) -> SyntaxNode<OwnedRoot> {
    let (green, errors) = b.finish();
    SyntaxNode::new_owned(SyntaxRoot { green, errors })
}

#[test]
fn navigation_over_a_parsed_tree() {
    let file = File::parse("fn f() { 1 }");
    let root = file.syntax();
    assert_eq!(root.kind(), SyntaxKind::ROOT);
    assert_eq!(root.range(), TextRange { start: 0, end: 12 });
    assert!(root.parent().is_none());
    let children = root.children();
    assert_eq!(children.len(), 1);
    let fn_def = &children[0];
    assert_eq!(fn_def.kind(), SyntaxKind::FN_DEF);
    assert_eq!(fn_def.text(), "fn f() { 1 }");
    assert_eq!(fn_def.parent().unwrap().kind(), SyntaxKind::ROOT);

    let first = fn_def.first_child().unwrap();
    assert_eq!(first.kind(), SyntaxKind::FN_KW);
    assert_eq!(first.leaf_text().unwrap(), "fn");
    assert!(first.prev_sibling().is_none());
    let ws = first.next_sibling().unwrap();
    assert_eq!(ws.kind(), SyntaxKind::WHITESPACE);
    assert_eq!(ws.prev_sibling().unwrap().kind(), SyntaxKind::FN_KW);

    let last = fn_def.last_child().unwrap();
    assert_eq!(last.kind(), SyntaxKind::BLOCK);
    assert_eq!(last.range(), TextRange { start: 7, end: 12 });
    assert_eq!(last.text(), "{ 1 }");
    assert!(last.leaf_text().is_none());
    assert!(last.next_sibling().is_none());

    // The ancestor sequence starts at the node itself and ends at the root.
    let ancestors = last.ancestors();
    assert_eq!(ancestors.len(), 3);
    assert_eq!(ancestors[0].kind(), SyntaxKind::BLOCK);
    assert_eq!(ancestors[1].kind(), SyntaxKind::FN_DEF);
    assert_eq!(ancestors[2].kind(), SyntaxKind::ROOT);
}

#[test]
fn owned_and_borrowed_views_agree() {
    let file = File::parse("fn f() { 1 }");
    let borrowed = file.syntax();
    let block = borrowed.children()[0].last_child().unwrap();
    let owned = block.owned();
    assert_eq!(owned.kind(), block.kind());
    assert_eq!(owned.range(), block.range());
    assert_eq!(owned.text(), block.text());
    // The owned view outlives the file it came from.
    drop(file);
    assert_eq!(owned.text(), "{ 1 }");
}

#[test]
fn builder_materializes_a_balanced_event_sequence() {
    let mut b = GreenBuilder::new();
    b.start_node(SyntaxKind::ROOT);
    b.start_node(SyntaxKind::BLOCK);
    b.token(SyntaxKind::L_CURLY, "{".to_string());
    b.token(SyntaxKind::WHITESPACE, " ".to_string());
    b.token(SyntaxKind::R_CURLY, "}".to_string());
    b.finish_node();
    b.finish_node();
    let node = node_from_builder(b);
    assert_eq!(node.text(), "{ }");
    assert_eq!(node.kind(), SyntaxKind::ROOT);
    let block = node.first_child().unwrap();
    assert_eq!(block.kind(), SyntaxKind::BLOCK);
    assert_eq!(block.num_children(), 3);
}

#[test]
fn builder_records_diagnostics() {
    let mut b = GreenBuilder::new();
    b.start_node(SyntaxKind::ROOT);
    b.token(SyntaxKind::ERROR_TOKEN, "@".to_string());
    b.error(TextRange { start: 0, end: 1 }, "unexpected token".to_string());
    b.finish_node();
    let node = node_from_builder(b);
    let errors = node.root_errors();
    assert_eq!(errors.len(), 1);
    assert_eq!(errors[0].range, TextRange { start: 0, end: 1 });
    assert_eq!(errors[0].msg, "unexpected token");
}

#[test]
fn retroactive_wrap_adopts_finished_nodes() {
    let mut b = GreenBuilder::new();
    b.start_node(SyntaxKind::ROOT);
    let cp = b.checkpoint();
    b.token(SyntaxKind::INT_NUMBER, "1".to_string());
    b.start_node_at(cp, SyntaxKind::BIN_EXPR);
    b.token(SyntaxKind::PLUS, "+".to_string());
    b.token(SyntaxKind::INT_NUMBER, "2".to_string());
    b.finish_node();
    b.finish_node();
    let node = node_from_builder(b);
    assert_eq!(node.text(), "1+2");
    let bin = node.first_child().unwrap();
    assert_eq!(bin.kind(), SyntaxKind::BIN_EXPR);
    assert_eq!(bin.num_children(), 3);
}

#[test]
fn checker_accepts_well_bracketed_trees() {
    let file = File::parse("fn f() { 1 + 1 }");
    assert!(validate_block_structure(&file.syntax()));
    // A dangling open brace is tolerated: it pairs with nothing.
    let dangling = File::parse("fn f() {");
    assert!(validate_block_structure(&dangling.syntax()));
    // The fast reparse path keeps the invariant.
    let edit = libsyntax2::AtomEdit::insert(9, "1".to_string());
    let reparsed = File::parse("fn f() {  }").reparse(&edit);
    assert!(validate_block_structure(&reparsed.syntax()));
}

#[test]
fn checker_tolerates_malformed_input_trees() {
    // Unmatched braces coming from malformed input pair with nothing: they
    // signal no construction bug, so the checker accepts the trees the
    // error-tolerant grammar builds for them.
    for text in ["}", "} {", "fn f( { ", "}}}}"] {
        let file = File::parse(text);
        assert!(validate_block_structure(&file.syntax()), "tolerated: {:?}", text);
    }
    // A closer that closes nothing within one parent is tolerated too.
    let mut b = GreenBuilder::new();
    b.start_node(SyntaxKind::BLOCK);
    b.token(SyntaxKind::WHITESPACE, " ".to_string());
    b.token(SyntaxKind::R_CURLY, "}".to_string());
    b.finish_node();
    let node = node_from_builder(b);
    assert!(validate_block_structure(&node));
}

#[test]
fn checker_reports_a_broken_brace_pair() {
    // A pair whose left brace has a preceding sibling does not bound a
    // contiguous region: the checker reports it and nothing crashes.
    let mut b = GreenBuilder::new();
    b.start_node(SyntaxKind::BLOCK);
    b.token(SyntaxKind::IDENT, "x".to_string());
    b.token(SyntaxKind::L_CURLY, "{".to_string());
    b.token(SyntaxKind::R_CURLY, "}".to_string());
    b.finish_node();
    let node = node_from_builder(b);
    assert!(!validate_block_structure(&node));
    // Downstream reads still work on the structurally suspect tree.
    assert_eq!(node.text(), "x{}");
}

#[test]
fn checker_reports_a_pair_with_a_trailing_sibling() {
    // A matched pair must bound the whole region: a sibling after the
    // closing brace breaks the invariant.
    let mut b = GreenBuilder::new();
    b.start_node(SyntaxKind::BLOCK);
    b.token(SyntaxKind::L_CURLY, "{".to_string());
    b.token(SyntaxKind::R_CURLY, "}".to_string());
    b.token(SyntaxKind::IDENT, "x".to_string());
    b.finish_node();
    let node = node_from_builder(b);
    assert!(!validate_block_structure(&node));
}

#[test]
fn preorder_walk_lists_the_whole_subtree() {
    let file = File::parse("fn f() { 1 }");
    let nodes = libsyntax2::algo::preorder(&file.syntax());
    let kinds: Vec<SyntaxKind> = nodes.iter().map(|n| n.kind()).collect();
    assert_eq!(
        kinds,
        vec![
            SyntaxKind::ROOT,
            SyntaxKind::FN_DEF,
            SyntaxKind::FN_KW,
            SyntaxKind::WHITESPACE,
            SyntaxKind::NAME,
            SyntaxKind::IDENT,
            SyntaxKind::PARAM_LIST,
            SyntaxKind::L_PAREN,
            SyntaxKind::R_PAREN,
            SyntaxKind::WHITESPACE,
            SyntaxKind::BLOCK,
            SyntaxKind::L_CURLY,
            SyntaxKind::WHITESPACE,
            SyntaxKind::LITERAL,
            SyntaxKind::INT_NUMBER,
            SyntaxKind::WHITESPACE,
            SyntaxKind::R_CURLY,
        ]
    );
}

#[test]
fn covering_node_is_minimal() {
    let file = File::parse("fn f() { 1 }");
    let root = file.syntax();
    // The range of the literal: only the literal's token covers it.
    let covering = libsyntax2::algo::find_covering_node(&root, TextRange::new(9, 10));
    assert_eq!(covering.kind(), SyntaxKind::INT_NUMBER);
    assert_eq!(covering.range(), TextRange { start: 9, end: 10 });
    // A range spanning the braces is covered only by the whole block.
    let covering = libsyntax2::algo::find_covering_node(&root, TextRange::new(7, 12));
    assert_eq!(covering.kind(), SyntaxKind::BLOCK);
}

#[test]
fn text_ranges_compose() {
    let r = TextRange::new(2, 6);
    assert_eq!(r.len(), 4);
    assert!(r.contains_range(&TextRange::new(3, 5)));
    assert!(r.contains_range(&TextRange::new(2, 6)));
    assert!(!r.contains_range(&TextRange::new(1, 5)));
    assert!(!r.contains_range(&TextRange::new(3, 7)));
}
