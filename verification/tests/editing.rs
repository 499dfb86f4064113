use libsyntax2::algo::preorder;
use libsyntax2::{AtomEdit, File, SyntaxKind, SyntaxNodeRef, TextRange};

fn apply_edit_to_string(text: &str, edit: &AtomEdit) -> String {
    let chars: Vec<char> = text.chars().collect();
    let mut out: String = chars[..edit.delete.start].iter().collect();
    out.push_str(&edit.insert);
    let tail: String = chars[edit.delete.end..].iter().collect();
    out.push_str(&tail);
    out
}

fn preorder_kinds(node: &SyntaxNodeRef) -> Vec<SyntaxKind> {
    preorder(node).iter().map(|n| n.kind()).collect()
}

#[test]
fn edit_helpers_build_the_expected_edit() {
    let e = AtomEdit::replace(TextRange::new(2, 5), "xy".to_string());
    assert_eq!(e.delete, TextRange { start: 2, end: 5 });
    assert_eq!(e.insert, "xy");
    let d = AtomEdit::delete(TextRange::new(1, 3));
    assert_eq!(d.delete, TextRange { start: 1, end: 3 });
    assert_eq!(d.insert, "");
    let i = AtomEdit::insert(4, "z".to_string());
    assert_eq!(i.delete, TextRange { start: 4, end: 4 });
    assert_eq!(i.insert, "z");
}

#[test]
fn insert_into_block_gap_reparses_incrementally() {
    let text = "fn f() {  }";
    let file = File::parse(text);
    let edit = AtomEdit::insert(9, "1".to_string());
    // The fast path applies: the edit is confined to the block body.
    let fast = file.incremental_reparse(&edit);
    assert!(fast.is_some());
    assert_eq!(fast.unwrap().text(), "fn f() { 1 }");
    // The public entry point gives the same text.
    let new_file = file.reparse(&edit);
    assert_eq!(new_file.text(), "fn f() { 1 }");
    // The receiver is unaffected.
    assert_eq!(file.text(), text);
}

#[test]
fn reparse_matches_plain_string_edit() {
    let cases: [(&str, AtomEdit); 5] = [
        ("fn f() { 1 + 1 }", AtomEdit::replace(TextRange::new(9, 10), "7".to_string())),
        ("fn f() { 1 + 1 }", AtomEdit::delete(TextRange::new(9, 13))),
        ("fn f() {  }", AtomEdit::insert(9, "2 + (3 * 4)".to_string())),
        ("struct S { a: T }", AtomEdit::insert(11, "b: U, ".to_string())),
        ("fn f( { ", AtomEdit::insert(0, "x".to_string())),
    ];
    for (text, edit) in cases {
        let file = File::parse(text);
        let new_file = file.reparse(&edit);
        assert_eq!(new_file.text(), apply_edit_to_string(text, &edit));
        assert_eq!(file.text(), text);
    }
}

#[test]
fn fast_and_slow_reparse_agree_on_shape() {
    // An edit confined inside one reparsable region: the kind-shape of the
    // incrementally reparsed tree equals that of a full reparse.
    let text = "fn f() { 1 + 1 }";
    let file = File::parse(text);
    let edit = AtomEdit::replace(TextRange::new(13, 14), "9".to_string());
    let fast = file.incremental_reparse(&edit).expect("the fast path applies");
    let slow = File::parse(&apply_edit_to_string(text, &edit));
    assert_eq!(fast.text(), slow.text());
    assert_eq!(preorder_kinds(&fast.syntax()), preorder_kinds(&slow.syntax()));
}

#[test]
fn fast_and_slow_agree_on_field_list_edits() {
    let text = "struct S { a: T }";
    let file = File::parse(text);
    let edit = AtomEdit::insert(16, " , b: U ".to_string());
    let fast = file.incremental_reparse(&edit).expect("the fast path applies");
    let slow = File::parse(&apply_edit_to_string(text, &edit));
    assert_eq!(fast.text(), slow.text());
    assert_eq!(preorder_kinds(&fast.syntax()), preorder_kinds(&slow.syntax()));
}

#[test]
fn unbalanced_local_stream_falls_back() {
    // Inserting a stray closing brace makes the localized token stream dip
    // below balance zero: the fast path must refuse, and the fallback must
    // still produce the exact edited text.
    let text = "fn f() { 1 }";
    let file = File::parse(text);
    let edit = AtomEdit::insert(9, "} ".to_string());
    assert!(file.incremental_reparse(&edit).is_none());
    let new_file = file.reparse(&edit);
    assert_eq!(new_file.text(), apply_edit_to_string(text, &edit));
}

#[test]
fn edit_outside_any_reparsable_region_falls_back() {
    // An edit touching the function name is not inside a block or a field
    // list, so there is nothing to reparse locally.
    let text = "fn f() { 1 }";
    let file = File::parse(text);
    let edit = AtomEdit::replace(TextRange::new(3, 4), "g".to_string());
    assert!(file.incremental_reparse(&edit).is_none());
    let new_file = file.reparse(&edit);
    assert_eq!(new_file.text(), "fn g() { 1 }");
}

#[test]
fn deleting_everything_reparses_to_empty() {
    let text = "fn f() { 1 }";
    let file = File::parse(text);
    let edit = AtomEdit::delete(TextRange::new(0, text.chars().count()));
    let new_file = file.reparse(&edit);
    assert_eq!(new_file.text(), "");
    assert_eq!(new_file.syntax().kind(), SyntaxKind::ROOT);
}

#[test]
fn fast_reparse_replaces_only_the_regions_diagnostics() {
    // Two diagnostics: a missing function name outside the block, and a
    // stray token inside it. A fast-path edit fixing the stray token
    // replaces only the block's diagnostic; the other is left untouched.
    let text = "fn ( ) { @ }";
    let file = File::parse(text);
    assert_eq!(file.errors().len(), 2);
    let edit = AtomEdit::replace(TextRange::new(9, 10), "1".to_string());
    let fixed = file.incremental_reparse(&edit).expect("the fast path applies");
    assert_eq!(fixed.text(), "fn ( ) { 1 }");
    let errors = fixed.errors();
    assert_eq!(errors.len(), 1);
    assert_eq!(errors[0].range, TextRange { start: 3, end: 4 });
    assert_eq!(errors[0].msg, "expected a function name");
}

#[test]
fn reparse_chains_stay_lossless() {
    let mut file = File::parse("fn f() {  }");
    let edits = [
        AtomEdit::insert(9, "1".to_string()),
        AtomEdit::insert(10, " + 2".to_string()),
        AtomEdit::delete(TextRange::new(9, 10)),
    ];
    let mut expected = "fn f() {  }".to_string();
    for edit in edits {
        expected = apply_edit_to_string(&expected, &edit);
        file = file.reparse(&edit);
        assert_eq!(file.text(), expected);
    }
    assert_eq!(expected, "fn f() {  + 2 }");
}
