use libsyntax2::ast::{
    AstNode, AttrsOwner, Attr, BinExpr, Block, Expr, FnDef, ImplItem, NameOwner, NominalDef,
    PathType, TypeParamsOwner, TypeRef,
};
use libsyntax2::builder::GreenBuilder;
use libsyntax2::syntax::SyntaxRoot;
use libsyntax2::{File, OwnedRoot, SyntaxKind, SyntaxNode, SyntaxNodeRef};

fn node_from_builder(b: GreenBuilder) -> SyntaxNode<OwnedRoot> {
    let (green, errors) = b.finish();
    SyntaxNode::new_owned(SyntaxRoot { green, errors })
}

fn find_descendant<'a>(node: &SyntaxNodeRef<'a>, kind: SyntaxKind) -> Option<SyntaxNodeRef<'a>> {
    if node.kind() == kind {
        return Some(node.duplicate());
    }
    for c in node.children() {
        if let Some(found) = find_descendant(&c, kind) {
            return Some(found);
        }
    }
    None
}

#[test]
fn cast_succeeds_exactly_on_matching_kind() {
    let file = File::parse("fn f() { 1 + 1 }");
    let root = file.syntax();
    let block = find_descendant(&root, SyntaxKind::BLOCK).unwrap();
    assert!(Block::cast(block.duplicate()).is_some());
    assert!(FnDef::cast(block.duplicate()).is_none());
    assert!(Attr::cast(block).is_none());
    let fn_def = find_descendant(&root, SyntaxKind::FN_DEF).unwrap();
    assert!(FnDef::cast(fn_def.duplicate()).is_some());
    assert!(Block::cast(fn_def).is_none());
}

#[test]
fn union_cast_picks_the_kind_determined_variant() {
    let file = File::parse("fn f() { 1 + 1 }");
    let root = file.syntax();
    let bin = find_descendant(&root, SyntaxKind::BIN_EXPR).unwrap();
    match Expr::cast(bin.duplicate()) {
        Some(Expr::BinExpr(inner)) => {
            assert_eq!(inner.syntax().kind(), SyntaxKind::BIN_EXPR);
        },
        other => panic!("expected the binary-expression variant, got none or another: {}", other.is_some()),
    }
    // A kind outside the union's set is rejected.
    let name = find_descendant(&root, SyntaxKind::NAME).unwrap();
    assert!(Expr::cast(name.duplicate()).is_none());
    assert!(TypeRef::cast(name).is_none());
    // Casting the same node twice gives the same variant.
    let again = Expr::cast(bin).unwrap();
    assert!(matches!(again, Expr::BinExpr(_)));
}

#[test]
fn nominal_def_distinguishes_struct_and_enum_kinds() {
    let file = File::parse("struct S { a: T }");
    let root = file.syntax();
    let s = find_descendant(&root, SyntaxKind::STRUCT_DEF).unwrap();
    match NominalDef::cast(s) {
        Some(NominalDef::StructDef(inner)) => {
            assert_eq!(inner.name().unwrap().text(), "S");
        },
        _ => panic!("expected the struct variant"),
    }
    let ty = find_descendant(&root, SyntaxKind::PATH_TYPE).unwrap();
    match TypeRef::cast(ty.duplicate()) {
        Some(TypeRef::PathType(_)) => {},
        _ => panic!("expected the path-type variant"),
    }
    assert!(PathType::cast(ty).is_some());
}

#[test]
fn name_capability_absent_when_child_is_missing() {
    let file = File::parse("fn () {  }");
    assert!(file.errors().len() >= 1);
    let root = file.syntax();
    let fn_node = find_descendant(&root, SyntaxKind::FN_DEF).unwrap();
    let fn_def = FnDef::cast(fn_node).unwrap();
    // Absence yields an explicit "no value", never a failure.
    assert!(fn_def.name().is_none());
    assert!(fn_def.type_param_list().is_none());
    assert!(fn_def.where_clause().is_none());
    assert!(fn_def.attrs().is_empty());
}

#[test]
fn attribute_atom_shape() {
    let mut b = GreenBuilder::new();
    b.start_node(SyntaxKind::ATTR);
    b.start_node(SyntaxKind::TOKEN_TREE);
    b.token(SyntaxKind::L_PAREN, "(".to_string());
    b.token(SyntaxKind::IDENT, "test".to_string());
    b.token(SyntaxKind::R_PAREN, ")".to_string());
    b.finish_node();
    b.finish_node();
    let node = node_from_builder(b);
    let attr = Attr::cast(node.borrowed()).unwrap();
    assert_eq!(attr.as_atom().unwrap(), "test");
    assert!(attr.as_call().is_none());
}

#[test]
fn attribute_call_shape() {
    let mut b = GreenBuilder::new();
    b.start_node(SyntaxKind::ATTR);
    b.start_node(SyntaxKind::TOKEN_TREE);
    b.token(SyntaxKind::L_PAREN, "(".to_string());
    b.token(SyntaxKind::IDENT, "derive".to_string());
    b.start_node(SyntaxKind::TOKEN_TREE);
    b.token(SyntaxKind::L_PAREN, "(".to_string());
    b.token(SyntaxKind::IDENT, "Copy".to_string());
    b.token(SyntaxKind::R_PAREN, ")".to_string());
    b.finish_node();
    b.token(SyntaxKind::R_PAREN, ")".to_string());
    b.finish_node();
    b.finish_node();
    let node = node_from_builder(b);
    let attr = Attr::cast(node.borrowed()).unwrap();
    assert!(attr.as_atom().is_none());
    let (name, args) = attr.as_call().unwrap();
    assert_eq!(name, "derive");
    assert_eq!(args.syntax().text(), "(Copy)");
}

#[test]
fn has_atom_attr_finds_the_attribute() {
    let mut b = GreenBuilder::new();
    b.start_node(SyntaxKind::FN_DEF);
    b.start_node(SyntaxKind::ATTR);
    b.start_node(SyntaxKind::TOKEN_TREE);
    b.token(SyntaxKind::L_PAREN, "(".to_string());
    b.token(SyntaxKind::IDENT, "test".to_string());
    b.token(SyntaxKind::R_PAREN, ")".to_string());
    b.finish_node();
    b.finish_node();
    b.token(SyntaxKind::WHITESPACE, " ".to_string());
    b.token(SyntaxKind::FN_KW, "fn".to_string());
    b.finish_node();
    let node = node_from_builder(b);
    let fn_def = FnDef::cast(node.borrowed()).unwrap();
    assert!(fn_def.has_atom_attr("test"));
    assert!(!fn_def.has_atom_attr("bench"));
    assert_eq!(fn_def.attrs().len(), 1);
}

#[test]
fn impl_item_targets() {
    let mut b = GreenBuilder::new();
    b.start_node(SyntaxKind::IMPL_ITEM);
    b.start_node(SyntaxKind::PATH_TYPE);
    b.token(SyntaxKind::IDENT, "Trait".to_string());
    b.finish_node();
    b.token(SyntaxKind::WHITESPACE, " ".to_string());
    b.start_node(SyntaxKind::PATH_TYPE);
    b.token(SyntaxKind::IDENT, "Type".to_string());
    b.finish_node();
    b.finish_node();
    let node = node_from_builder(b);
    let item = ImplItem::cast(node.borrowed()).unwrap();
    let trait_ref = item.target_trait().expect("two types: the first is the trait");
    assert_eq!(trait_ref.syntax().text(), "Trait");
    let type_ref = item.target_type().expect("two types: the second is the type");
    assert_eq!(type_ref.syntax().text(), "Type");
}

#[test]
fn impl_item_single_target() {
    let mut b = GreenBuilder::new();
    b.start_node(SyntaxKind::IMPL_ITEM);
    b.start_node(SyntaxKind::PATH_TYPE);
    b.token(SyntaxKind::IDENT, "Only".to_string());
    b.finish_node();
    b.finish_node();
    let node = node_from_builder(b);
    let item = ImplItem::cast(node.borrowed()).unwrap();
    assert!(item.target_trait().is_none());
    assert_eq!(item.target_type().unwrap().syntax().text(), "Only");
}

#[test]
fn struct_fields_scan_direct_children_only() {
    // The accessor scans direct children; a parsed struct keeps its fields
    // behind a field-definition list, so a direct-child scan sees none.
    let file = File::parse("struct S { a: T }");
    let root = file.syntax();
    let s = find_descendant(&root, SyntaxKind::STRUCT_DEF).unwrap();
    let struct_def = match NominalDef::cast(s.duplicate()) {
        Some(NominalDef::StructDef(_)) => libsyntax2::ast::StructDef::cast(s).unwrap(),
        _ => panic!("expected a struct"),
    };
    assert!(struct_def.fields().is_empty());
    // A node with direct field children is seen by the scan.
    let mut b = GreenBuilder::new();
    b.start_node(SyntaxKind::STRUCT_DEF);
    b.start_node(SyntaxKind::NAMED_FIELD_DEF);
    b.token(SyntaxKind::IDENT, "a".to_string());
    b.finish_node();
    b.start_node(SyntaxKind::NAMED_FIELD_DEF);
    b.token(SyntaxKind::IDENT, "b".to_string());
    b.finish_node();
    b.finish_node();
    let node = node_from_builder(b);
    let direct = libsyntax2::ast::StructDef::cast(node.borrowed()).unwrap();
    assert_eq!(direct.fields().len(), 2);
}

#[test]
fn attrs_lists_every_attribute_in_order() {
    let mut b = GreenBuilder::new();
    b.start_node(SyntaxKind::FN_DEF);
    for name in ["first", "second"] {
        b.start_node(SyntaxKind::ATTR);
        b.start_node(SyntaxKind::TOKEN_TREE);
        b.token(SyntaxKind::L_PAREN, "(".to_string());
        b.token(SyntaxKind::IDENT, name.to_string());
        b.token(SyntaxKind::R_PAREN, ")".to_string());
        b.finish_node();
        b.finish_node();
    }
    b.token(SyntaxKind::FN_KW, "fn".to_string());
    b.finish_node();
    let node = node_from_builder(b);
    let fn_def = FnDef::cast(node.borrowed()).unwrap();
    let attrs = fn_def.attrs();
    assert_eq!(attrs.len(), 2);
    assert_eq!(attrs[0].as_atom().unwrap(), "first");
    assert_eq!(attrs[1].as_atom().unwrap(), "second");
}

#[test]
fn name_accessor_picks_the_first_name_child() {
    let mut b = GreenBuilder::new();
    b.start_node(SyntaxKind::FN_DEF);
    b.start_node(SyntaxKind::NAME);
    b.token(SyntaxKind::IDENT, "one".to_string());
    b.finish_node();
    b.start_node(SyntaxKind::NAME);
    b.token(SyntaxKind::IDENT, "two".to_string());
    b.finish_node();
    b.finish_node();
    let node = node_from_builder(b);
    let fn_def = FnDef::cast(node.borrowed()).unwrap();
    assert_eq!(fn_def.name().unwrap().text(), "one");
}

#[test]
fn type_params_list_their_parameters() {
    let mut b = GreenBuilder::new();
    b.start_node(SyntaxKind::TYPE_PARAM_LIST);
    for name in ["T", "U"] {
        b.start_node(SyntaxKind::TYPE_PARAM);
        b.start_node(SyntaxKind::NAME);
        b.token(SyntaxKind::IDENT, name.to_string());
        b.finish_node();
        b.finish_node();
    }
    b.finish_node();
    let node = node_from_builder(b);
    let list = libsyntax2::ast::TypeParamList::cast(node.borrowed()).unwrap();
    let params = list.type_params();
    assert_eq!(params.len(), 2);
    assert_eq!(params[0].name().unwrap().text(), "T");
    assert_eq!(params[1].name().unwrap().text(), "U");
}

#[test]
fn ast_root_matches_syntax_root() {
    let file = File::parse("fn f() {  }");
    let syntax = file.ast().syntax();
    assert_eq!(syntax.kind(), SyntaxKind::ROOT);
    assert_eq!(syntax.text(), "fn f() {  }");
}

#[test]
fn bin_expr_wrapper_covers_operator_chain() {
    let file = File::parse("fn f() { 1 + 2 + 3 }");
    assert!(file.errors().is_empty());
    let root = file.syntax();
    let outer = find_descendant(&root, SyntaxKind::BIN_EXPR).unwrap();
    let bin = BinExpr::cast(outer).unwrap();
    // Left association: the outer node spans the whole chain.
    assert_eq!(bin.syntax().text(), "1 + 2 + 3");
}
