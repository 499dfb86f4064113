//! The per-kind wrapper types, the capability implementations, and the
//! closed tagged unions over alternative node shapes. One wrapper per
//! syntactically meaningful kind; the kind-to-variant mapping of each union
//! is written once, here, so matching stays exhaustive as the catalogue
//! grows.

use vstd::prelude::*;
use crate::kinds::SyntaxKind;
use crate::syntax::SyntaxNodeRef;
use crate::ast::{AstNode, NameOwner, TypeParamsOwner, AttrsOwner};
use crate::ast::{first_child_of_kind, children_of_kind, str_eq};
use crate::ast::{
    child_kind, num_children_of, name_text_spec, attr_atom_spec, attr_call_spec, has_atom_spec,
    is_first_type_ref, is_second_type_ref, first_tt_atom, first_tt_call,
};
use crate::green::GreenNode;
use std::sync::Arc;

verus! {

/// A typed view of one `ARRAY_EXPR` node.
pub struct ArrayExpr<'a> {
    pub(in crate::ast) syntax: SyntaxNodeRef<'a>,
}

impl<'a> AstNode<'a> for ArrayExpr<'a> {
    open spec fn kind_set(k: SyntaxKind) -> bool {
        k == SyntaxKind::ARRAY_EXPR
    }

    closed spec fn node_spec(&self) -> SyntaxNodeRef<'a> {
        self.syntax
    }

    closed spec fn variant_kind_spec(&self) -> SyntaxKind {
        SyntaxKind::ARRAY_EXPR
    }

    fn cast(syntax: SyntaxNodeRef<'a>) -> (r: Option<Self>) {
        if syntax.kind() == SyntaxKind::ARRAY_EXPR {
            Some(ArrayExpr { syntax })
        } else {
            None
        }
    }

    fn syntax(self) -> (r: SyntaxNodeRef<'a>) {
        self.syntax
    }
}

/// A typed view of one `ARRAY_TYPE` node.
pub struct ArrayType<'a> {
    pub(in crate::ast) syntax: SyntaxNodeRef<'a>,
}

impl<'a> AstNode<'a> for ArrayType<'a> {
    open spec fn kind_set(k: SyntaxKind) -> bool {
        k == SyntaxKind::ARRAY_TYPE
    }

    closed spec fn node_spec(&self) -> SyntaxNodeRef<'a> {
        self.syntax
    }

    closed spec fn variant_kind_spec(&self) -> SyntaxKind {
        SyntaxKind::ARRAY_TYPE
    }

    fn cast(syntax: SyntaxNodeRef<'a>) -> (r: Option<Self>) {
        if syntax.kind() == SyntaxKind::ARRAY_TYPE {
            Some(ArrayType { syntax })
        } else {
            None
        }
    }

    fn syntax(self) -> (r: SyntaxNodeRef<'a>) {
        self.syntax
    }
}

/// A typed view of one `ATTR` node.
pub struct Attr<'a> {
    pub(in crate::ast) syntax: SyntaxNodeRef<'a>,
}

impl<'a> AstNode<'a> for Attr<'a> {
    open spec fn kind_set(k: SyntaxKind) -> bool {
        k == SyntaxKind::ATTR
    }

    closed spec fn node_spec(&self) -> SyntaxNodeRef<'a> {
        self.syntax
    }

    closed spec fn variant_kind_spec(&self) -> SyntaxKind {
        SyntaxKind::ATTR
    }

    fn cast(syntax: SyntaxNodeRef<'a>) -> (r: Option<Self>) {
        if syntax.kind() == SyntaxKind::ATTR {
            Some(Attr { syntax })
        } else {
            None
        }
    }

    fn syntax(self) -> (r: SyntaxNodeRef<'a>) {
        self.syntax
    }
}

/// A typed view of one `BIN_EXPR` node.
pub struct BinExpr<'a> {
    pub(in crate::ast) syntax: SyntaxNodeRef<'a>,
}

impl<'a> AstNode<'a> for BinExpr<'a> {
    open spec fn kind_set(k: SyntaxKind) -> bool {
        k == SyntaxKind::BIN_EXPR
    }

    closed spec fn node_spec(&self) -> SyntaxNodeRef<'a> {
        self.syntax
    }

    closed spec fn variant_kind_spec(&self) -> SyntaxKind {
        SyntaxKind::BIN_EXPR
    }

    fn cast(syntax: SyntaxNodeRef<'a>) -> (r: Option<Self>) {
        if syntax.kind() == SyntaxKind::BIN_EXPR {
            Some(BinExpr { syntax })
        } else {
            None
        }
    }

    fn syntax(self) -> (r: SyntaxNodeRef<'a>) {
        self.syntax
    }
}

/// A typed view of one `BLOCK` node.
pub struct Block<'a> {
    pub(in crate::ast) syntax: SyntaxNodeRef<'a>,
}

impl<'a> AstNode<'a> for Block<'a> {
    open spec fn kind_set(k: SyntaxKind) -> bool {
        k == SyntaxKind::BLOCK
    }

    closed spec fn node_spec(&self) -> SyntaxNodeRef<'a> {
        self.syntax
    }

    closed spec fn variant_kind_spec(&self) -> SyntaxKind {
        SyntaxKind::BLOCK
    }

    fn cast(syntax: SyntaxNodeRef<'a>) -> (r: Option<Self>) {
        if syntax.kind() == SyntaxKind::BLOCK {
            Some(Block { syntax })
        } else {
            None
        }
    }

    fn syntax(self) -> (r: SyntaxNodeRef<'a>) {
        self.syntax
    }
}

/// A typed view of one `BLOCK_EXPR` node.
pub struct BlockExpr<'a> {
    pub(in crate::ast) syntax: SyntaxNodeRef<'a>,
}

impl<'a> AstNode<'a> for BlockExpr<'a> {
    open spec fn kind_set(k: SyntaxKind) -> bool {
        k == SyntaxKind::BLOCK_EXPR
    }

    closed spec fn node_spec(&self) -> SyntaxNodeRef<'a> {
        self.syntax
    }

    closed spec fn variant_kind_spec(&self) -> SyntaxKind {
        SyntaxKind::BLOCK_EXPR
    }

    fn cast(syntax: SyntaxNodeRef<'a>) -> (r: Option<Self>) {
        if syntax.kind() == SyntaxKind::BLOCK_EXPR {
            Some(BlockExpr { syntax })
        } else {
            None
        }
    }

    fn syntax(self) -> (r: SyntaxNodeRef<'a>) {
        self.syntax
    }
}

/// A typed view of one `BREAK_EXPR` node.
pub struct BreakExpr<'a> {
    pub(in crate::ast) syntax: SyntaxNodeRef<'a>,
}

impl<'a> AstNode<'a> for BreakExpr<'a> {
    open spec fn kind_set(k: SyntaxKind) -> bool {
        k == SyntaxKind::BREAK_EXPR
    }

    closed spec fn node_spec(&self) -> SyntaxNodeRef<'a> {
        self.syntax
    }

    closed spec fn variant_kind_spec(&self) -> SyntaxKind {
        SyntaxKind::BREAK_EXPR
    }

    fn cast(syntax: SyntaxNodeRef<'a>) -> (r: Option<Self>) {
        if syntax.kind() == SyntaxKind::BREAK_EXPR {
            Some(BreakExpr { syntax })
        } else {
            None
        }
    }

    fn syntax(self) -> (r: SyntaxNodeRef<'a>) {
        self.syntax
    }
}

/// A typed view of one `CALL_EXPR` node.
pub struct CallExpr<'a> {
    pub(in crate::ast) syntax: SyntaxNodeRef<'a>,
}

impl<'a> AstNode<'a> for CallExpr<'a> {
    open spec fn kind_set(k: SyntaxKind) -> bool {
        k == SyntaxKind::CALL_EXPR
    }

    closed spec fn node_spec(&self) -> SyntaxNodeRef<'a> {
        self.syntax
    }

    closed spec fn variant_kind_spec(&self) -> SyntaxKind {
        SyntaxKind::CALL_EXPR
    }

    fn cast(syntax: SyntaxNodeRef<'a>) -> (r: Option<Self>) {
        if syntax.kind() == SyntaxKind::CALL_EXPR {
            Some(CallExpr { syntax })
        } else {
            None
        }
    }

    fn syntax(self) -> (r: SyntaxNodeRef<'a>) {
        self.syntax
    }
}

/// A typed view of one `CAST_EXPR` node.
pub struct CastExpr<'a> {
    pub(in crate::ast) syntax: SyntaxNodeRef<'a>,
}

impl<'a> AstNode<'a> for CastExpr<'a> {
    open spec fn kind_set(k: SyntaxKind) -> bool {
        k == SyntaxKind::CAST_EXPR
    }

    closed spec fn node_spec(&self) -> SyntaxNodeRef<'a> {
        self.syntax
    }

    closed spec fn variant_kind_spec(&self) -> SyntaxKind {
        SyntaxKind::CAST_EXPR
    }

    fn cast(syntax: SyntaxNodeRef<'a>) -> (r: Option<Self>) {
        if syntax.kind() == SyntaxKind::CAST_EXPR {
            Some(CastExpr { syntax })
        } else {
            None
        }
    }

    fn syntax(self) -> (r: SyntaxNodeRef<'a>) {
        self.syntax
    }
}

/// A typed view of one `CONST_DEF` node.
pub struct ConstDef<'a> {
    pub(in crate::ast) syntax: SyntaxNodeRef<'a>,
}

impl<'a> AstNode<'a> for ConstDef<'a> {
    open spec fn kind_set(k: SyntaxKind) -> bool {
        k == SyntaxKind::CONST_DEF
    }

    closed spec fn node_spec(&self) -> SyntaxNodeRef<'a> {
        self.syntax
    }

    closed spec fn variant_kind_spec(&self) -> SyntaxKind {
        SyntaxKind::CONST_DEF
    }

    fn cast(syntax: SyntaxNodeRef<'a>) -> (r: Option<Self>) {
        if syntax.kind() == SyntaxKind::CONST_DEF {
            Some(ConstDef { syntax })
        } else {
            None
        }
    }

    fn syntax(self) -> (r: SyntaxNodeRef<'a>) {
        self.syntax
    }
}

impl<'a> NameOwner<'a> for ConstDef<'a> {
    fn name(&self) -> (r: Option<Name<'a>>) {
        match first_child_of_kind(&self.syntax, SyntaxKind::NAME) {
            Some(c) => Some(Name { syntax: c }),
            None => None,
        }
    }
}

impl<'a> TypeParamsOwner<'a> for ConstDef<'a> {
    fn type_param_list(&self) -> (r: Option<TypeParamList<'a>>) {
        match first_child_of_kind(&self.syntax, SyntaxKind::TYPE_PARAM_LIST) {
            Some(c) => Some(TypeParamList { syntax: c }),
            None => None,
        }
    }

    fn where_clause(&self) -> (r: Option<WhereClause<'a>>) {
        match first_child_of_kind(&self.syntax, SyntaxKind::WHERE_CLAUSE) {
            Some(c) => Some(WhereClause { syntax: c }),
            None => None,
        }
    }
}

impl<'a> AttrsOwner<'a> for ConstDef<'a> {
    fn attrs(&self) -> (r: Vec<Attr<'a>>)
    {
        let vs = children_of_kind(&self.syntax, SyntaxKind::ATTR);
        let ghost gvs = vs@;
        let r = wrap_attr_nodes(vs);
        proof {
            assert forall|m: int| 0 <= m < r@.len() implies {
                &&& (#[trigger] r@[m]).node_spec().wf()
                &&& r@[m].node_spec().same_tree(self.node_spec())
                &&& exists|i: usize|
                    {
                        &&& i < crate::ast::num_children_of(self.node_spec().node_spec())
                        &&& crate::ast::child_kind(self.node_spec().node_spec(), i as int)
                            == SyntaxKind::ATTR
                        &&& r@[m].node_spec().path_spec() == self.node_spec().path_spec().push(i)
                    }
            } by {
                let q = choose|q: usize|
                    {
                        &&& q < crate::ast::num_children_of(self.node_spec().node_spec())
                        &&& crate::ast::child_kind(self.node_spec().node_spec(), q as int)
                            == SyntaxKind::ATTR
                        &&& gvs[m].path_spec() == self.node_spec().path_spec().push(q)
                    };
                assert(r@[m].node_spec().path_spec() == self.node_spec().path_spec().push(q));
            }
            assert forall|i: usize|
                i < crate::ast::num_children_of(self.node_spec().node_spec())
                    && #[trigger] crate::ast::child_kind(self.node_spec().node_spec(), i as int)
                    == SyntaxKind::ATTR implies exists|m: int|
                0 <= m < r@.len() && (#[trigger] r@[m]).node_spec().path_spec()
                    == self.node_spec().path_spec().push(i) by {
                let m0 = choose|m: int|
                    0 <= m < gvs.len() && (#[trigger] gvs[m]).path_spec()
                        == self.node_spec().path_spec().push(i);
                assert(r@[m0].node_spec().path_spec() == self.node_spec().path_spec().push(i));
            }
            assert forall|m1: int, m2: int|
                0 <= m1 < m2 < r@.len() implies (#[trigger] r@[m1]).node_spec().path_spec().last()
                < (#[trigger] r@[m2]).node_spec().path_spec().last() by {
                assert(r@[m1].node_spec().path_spec() == gvs[m1].path_spec());
                assert(r@[m2].node_spec().path_spec() == gvs[m2].path_spec());
                assert(gvs[m1].path_spec().last() < gvs[m2].path_spec().last());
            }
        }
        r
    }
}

/// A typed view of one `CONTINUE_EXPR` node.
pub struct ContinueExpr<'a> {
    pub(in crate::ast) syntax: SyntaxNodeRef<'a>,
}

impl<'a> AstNode<'a> for ContinueExpr<'a> {
    open spec fn kind_set(k: SyntaxKind) -> bool {
        k == SyntaxKind::CONTINUE_EXPR
    }

    closed spec fn node_spec(&self) -> SyntaxNodeRef<'a> {
        self.syntax
    }

    closed spec fn variant_kind_spec(&self) -> SyntaxKind {
        SyntaxKind::CONTINUE_EXPR
    }

    fn cast(syntax: SyntaxNodeRef<'a>) -> (r: Option<Self>) {
        if syntax.kind() == SyntaxKind::CONTINUE_EXPR {
            Some(ContinueExpr { syntax })
        } else {
            None
        }
    }

    fn syntax(self) -> (r: SyntaxNodeRef<'a>) {
        self.syntax
    }
}

/// A typed view of one `DYN_TRAIT_TYPE` node.
pub struct DynTraitType<'a> {
    pub(in crate::ast) syntax: SyntaxNodeRef<'a>,
}

impl<'a> AstNode<'a> for DynTraitType<'a> {
    open spec fn kind_set(k: SyntaxKind) -> bool {
        k == SyntaxKind::DYN_TRAIT_TYPE
    }

    closed spec fn node_spec(&self) -> SyntaxNodeRef<'a> {
        self.syntax
    }

    closed spec fn variant_kind_spec(&self) -> SyntaxKind {
        SyntaxKind::DYN_TRAIT_TYPE
    }

    fn cast(syntax: SyntaxNodeRef<'a>) -> (r: Option<Self>) {
        if syntax.kind() == SyntaxKind::DYN_TRAIT_TYPE {
            Some(DynTraitType { syntax })
        } else {
            None
        }
    }

    fn syntax(self) -> (r: SyntaxNodeRef<'a>) {
        self.syntax
    }
}

/// A typed view of one `ENUM_DEF` node.
pub struct EnumDef<'a> {
    pub(in crate::ast) syntax: SyntaxNodeRef<'a>,
}

impl<'a> AstNode<'a> for EnumDef<'a> {
    open spec fn kind_set(k: SyntaxKind) -> bool {
        k == SyntaxKind::ENUM_DEF
    }

    closed spec fn node_spec(&self) -> SyntaxNodeRef<'a> {
        self.syntax
    }

    closed spec fn variant_kind_spec(&self) -> SyntaxKind {
        SyntaxKind::ENUM_DEF
    }

    fn cast(syntax: SyntaxNodeRef<'a>) -> (r: Option<Self>) {
        if syntax.kind() == SyntaxKind::ENUM_DEF {
            Some(EnumDef { syntax })
        } else {
            None
        }
    }

    fn syntax(self) -> (r: SyntaxNodeRef<'a>) {
        self.syntax
    }
}

impl<'a> NameOwner<'a> for EnumDef<'a> {
    fn name(&self) -> (r: Option<Name<'a>>) {
        match first_child_of_kind(&self.syntax, SyntaxKind::NAME) {
            Some(c) => Some(Name { syntax: c }),
            None => None,
        }
    }
}

impl<'a> TypeParamsOwner<'a> for EnumDef<'a> {
    fn type_param_list(&self) -> (r: Option<TypeParamList<'a>>) {
        match first_child_of_kind(&self.syntax, SyntaxKind::TYPE_PARAM_LIST) {
            Some(c) => Some(TypeParamList { syntax: c }),
            None => None,
        }
    }

    fn where_clause(&self) -> (r: Option<WhereClause<'a>>) {
        match first_child_of_kind(&self.syntax, SyntaxKind::WHERE_CLAUSE) {
            Some(c) => Some(WhereClause { syntax: c }),
            None => None,
        }
    }
}

impl<'a> AttrsOwner<'a> for EnumDef<'a> {
    fn attrs(&self) -> (r: Vec<Attr<'a>>)
    {
        let vs = children_of_kind(&self.syntax, SyntaxKind::ATTR);
        let ghost gvs = vs@;
        let r = wrap_attr_nodes(vs);
        proof {
            assert forall|m: int| 0 <= m < r@.len() implies {
                &&& (#[trigger] r@[m]).node_spec().wf()
                &&& r@[m].node_spec().same_tree(self.node_spec())
                &&& exists|i: usize|
                    {
                        &&& i < crate::ast::num_children_of(self.node_spec().node_spec())
                        &&& crate::ast::child_kind(self.node_spec().node_spec(), i as int)
                            == SyntaxKind::ATTR
                        &&& r@[m].node_spec().path_spec() == self.node_spec().path_spec().push(i)
                    }
            } by {
                let q = choose|q: usize|
                    {
                        &&& q < crate::ast::num_children_of(self.node_spec().node_spec())
                        &&& crate::ast::child_kind(self.node_spec().node_spec(), q as int)
                            == SyntaxKind::ATTR
                        &&& gvs[m].path_spec() == self.node_spec().path_spec().push(q)
                    };
                assert(r@[m].node_spec().path_spec() == self.node_spec().path_spec().push(q));
            }
            assert forall|i: usize|
                i < crate::ast::num_children_of(self.node_spec().node_spec())
                    && #[trigger] crate::ast::child_kind(self.node_spec().node_spec(), i as int)
                    == SyntaxKind::ATTR implies exists|m: int|
                0 <= m < r@.len() && (#[trigger] r@[m]).node_spec().path_spec()
                    == self.node_spec().path_spec().push(i) by {
                let m0 = choose|m: int|
                    0 <= m < gvs.len() && (#[trigger] gvs[m]).path_spec()
                        == self.node_spec().path_spec().push(i);
                assert(r@[m0].node_spec().path_spec() == self.node_spec().path_spec().push(i));
            }
            assert forall|m1: int, m2: int|
                0 <= m1 < m2 < r@.len() implies (#[trigger] r@[m1]).node_spec().path_spec().last()
                < (#[trigger] r@[m2]).node_spec().path_spec().last() by {
                assert(r@[m1].node_spec().path_spec() == gvs[m1].path_spec());
                assert(r@[m2].node_spec().path_spec() == gvs[m2].path_spec());
                assert(gvs[m1].path_spec().last() < gvs[m2].path_spec().last());
            }
        }
        r
    }
}

/// A typed view of one `FIELD_EXPR` node.
pub struct FieldExpr<'a> {
    pub(in crate::ast) syntax: SyntaxNodeRef<'a>,
}

impl<'a> AstNode<'a> for FieldExpr<'a> {
    open spec fn kind_set(k: SyntaxKind) -> bool {
        k == SyntaxKind::FIELD_EXPR
    }

    closed spec fn node_spec(&self) -> SyntaxNodeRef<'a> {
        self.syntax
    }

    closed spec fn variant_kind_spec(&self) -> SyntaxKind {
        SyntaxKind::FIELD_EXPR
    }

    fn cast(syntax: SyntaxNodeRef<'a>) -> (r: Option<Self>) {
        if syntax.kind() == SyntaxKind::FIELD_EXPR {
            Some(FieldExpr { syntax })
        } else {
            None
        }
    }

    fn syntax(self) -> (r: SyntaxNodeRef<'a>) {
        self.syntax
    }
}

/// A typed view of one `FN_DEF` node.
pub struct FnDef<'a> {
    pub(in crate::ast) syntax: SyntaxNodeRef<'a>,
}

impl<'a> AstNode<'a> for FnDef<'a> {
    open spec fn kind_set(k: SyntaxKind) -> bool {
        k == SyntaxKind::FN_DEF
    }

    closed spec fn node_spec(&self) -> SyntaxNodeRef<'a> {
        self.syntax
    }

    closed spec fn variant_kind_spec(&self) -> SyntaxKind {
        SyntaxKind::FN_DEF
    }

    fn cast(syntax: SyntaxNodeRef<'a>) -> (r: Option<Self>) {
        if syntax.kind() == SyntaxKind::FN_DEF {
            Some(FnDef { syntax })
        } else {
            None
        }
    }

    fn syntax(self) -> (r: SyntaxNodeRef<'a>) {
        self.syntax
    }
}

impl<'a> NameOwner<'a> for FnDef<'a> {
    fn name(&self) -> (r: Option<Name<'a>>) {
        match first_child_of_kind(&self.syntax, SyntaxKind::NAME) {
            Some(c) => Some(Name { syntax: c }),
            None => None,
        }
    }
}

impl<'a> TypeParamsOwner<'a> for FnDef<'a> {
    fn type_param_list(&self) -> (r: Option<TypeParamList<'a>>) {
        match first_child_of_kind(&self.syntax, SyntaxKind::TYPE_PARAM_LIST) {
            Some(c) => Some(TypeParamList { syntax: c }),
            None => None,
        }
    }

    fn where_clause(&self) -> (r: Option<WhereClause<'a>>) {
        match first_child_of_kind(&self.syntax, SyntaxKind::WHERE_CLAUSE) {
            Some(c) => Some(WhereClause { syntax: c }),
            None => None,
        }
    }
}

impl<'a> AttrsOwner<'a> for FnDef<'a> {
    fn attrs(&self) -> (r: Vec<Attr<'a>>)
    {
        let vs = children_of_kind(&self.syntax, SyntaxKind::ATTR);
        let ghost gvs = vs@;
        let r = wrap_attr_nodes(vs);
        proof {
            assert forall|m: int| 0 <= m < r@.len() implies {
                &&& (#[trigger] r@[m]).node_spec().wf()
                &&& r@[m].node_spec().same_tree(self.node_spec())
                &&& exists|i: usize|
                    {
                        &&& i < crate::ast::num_children_of(self.node_spec().node_spec())
                        &&& crate::ast::child_kind(self.node_spec().node_spec(), i as int)
                            == SyntaxKind::ATTR
                        &&& r@[m].node_spec().path_spec() == self.node_spec().path_spec().push(i)
                    }
            } by {
                let q = choose|q: usize|
                    {
                        &&& q < crate::ast::num_children_of(self.node_spec().node_spec())
                        &&& crate::ast::child_kind(self.node_spec().node_spec(), q as int)
                            == SyntaxKind::ATTR
                        &&& gvs[m].path_spec() == self.node_spec().path_spec().push(q)
                    };
                assert(r@[m].node_spec().path_spec() == self.node_spec().path_spec().push(q));
            }
            assert forall|i: usize|
                i < crate::ast::num_children_of(self.node_spec().node_spec())
                    && #[trigger] crate::ast::child_kind(self.node_spec().node_spec(), i as int)
                    == SyntaxKind::ATTR implies exists|m: int|
                0 <= m < r@.len() && (#[trigger] r@[m]).node_spec().path_spec()
                    == self.node_spec().path_spec().push(i) by {
                let m0 = choose|m: int|
                    0 <= m < gvs.len() && (#[trigger] gvs[m]).path_spec()
                        == self.node_spec().path_spec().push(i);
                assert(r@[m0].node_spec().path_spec() == self.node_spec().path_spec().push(i));
            }
            assert forall|m1: int, m2: int|
                0 <= m1 < m2 < r@.len() implies (#[trigger] r@[m1]).node_spec().path_spec().last()
                < (#[trigger] r@[m2]).node_spec().path_spec().last() by {
                assert(r@[m1].node_spec().path_spec() == gvs[m1].path_spec());
                assert(r@[m2].node_spec().path_spec() == gvs[m2].path_spec());
                assert(gvs[m1].path_spec().last() < gvs[m2].path_spec().last());
            }
        }
        r
    }
}

/// A typed view of one `FN_POINTER_TYPE` node.
pub struct FnPointerType<'a> {
    pub(in crate::ast) syntax: SyntaxNodeRef<'a>,
}

impl<'a> AstNode<'a> for FnPointerType<'a> {
    open spec fn kind_set(k: SyntaxKind) -> bool {
        k == SyntaxKind::FN_POINTER_TYPE
    }

    closed spec fn node_spec(&self) -> SyntaxNodeRef<'a> {
        self.syntax
    }

    closed spec fn variant_kind_spec(&self) -> SyntaxKind {
        SyntaxKind::FN_POINTER_TYPE
    }

    fn cast(syntax: SyntaxNodeRef<'a>) -> (r: Option<Self>) {
        if syntax.kind() == SyntaxKind::FN_POINTER_TYPE {
            Some(FnPointerType { syntax })
        } else {
            None
        }
    }

    fn syntax(self) -> (r: SyntaxNodeRef<'a>) {
        self.syntax
    }
}

/// A typed view of one `FOR_EXPR` node.
pub struct ForExpr<'a> {
    pub(in crate::ast) syntax: SyntaxNodeRef<'a>,
}

impl<'a> AstNode<'a> for ForExpr<'a> {
    open spec fn kind_set(k: SyntaxKind) -> bool {
        k == SyntaxKind::FOR_EXPR
    }

    closed spec fn node_spec(&self) -> SyntaxNodeRef<'a> {
        self.syntax
    }

    closed spec fn variant_kind_spec(&self) -> SyntaxKind {
        SyntaxKind::FOR_EXPR
    }

    fn cast(syntax: SyntaxNodeRef<'a>) -> (r: Option<Self>) {
        if syntax.kind() == SyntaxKind::FOR_EXPR {
            Some(ForExpr { syntax })
        } else {
            None
        }
    }

    fn syntax(self) -> (r: SyntaxNodeRef<'a>) {
        self.syntax
    }
}

/// A typed view of one `FOR_TYPE` node.
pub struct ForType<'a> {
    pub(in crate::ast) syntax: SyntaxNodeRef<'a>,
}

impl<'a> AstNode<'a> for ForType<'a> {
    open spec fn kind_set(k: SyntaxKind) -> bool {
        k == SyntaxKind::FOR_TYPE
    }

    closed spec fn node_spec(&self) -> SyntaxNodeRef<'a> {
        self.syntax
    }

    closed spec fn variant_kind_spec(&self) -> SyntaxKind {
        SyntaxKind::FOR_TYPE
    }

    fn cast(syntax: SyntaxNodeRef<'a>) -> (r: Option<Self>) {
        if syntax.kind() == SyntaxKind::FOR_TYPE {
            Some(ForType { syntax })
        } else {
            None
        }
    }

    fn syntax(self) -> (r: SyntaxNodeRef<'a>) {
        self.syntax
    }
}

/// A typed view of one `IF_EXPR` node.
pub struct IfExpr<'a> {
    pub(in crate::ast) syntax: SyntaxNodeRef<'a>,
}

impl<'a> AstNode<'a> for IfExpr<'a> {
    open spec fn kind_set(k: SyntaxKind) -> bool {
        k == SyntaxKind::IF_EXPR
    }

    closed spec fn node_spec(&self) -> SyntaxNodeRef<'a> {
        self.syntax
    }

    closed spec fn variant_kind_spec(&self) -> SyntaxKind {
        SyntaxKind::IF_EXPR
    }

    fn cast(syntax: SyntaxNodeRef<'a>) -> (r: Option<Self>) {
        if syntax.kind() == SyntaxKind::IF_EXPR {
            Some(IfExpr { syntax })
        } else {
            None
        }
    }

    fn syntax(self) -> (r: SyntaxNodeRef<'a>) {
        self.syntax
    }
}

/// A typed view of one `IMPL_ITEM` node.
pub struct ImplItem<'a> {
    pub(in crate::ast) syntax: SyntaxNodeRef<'a>,
}

impl<'a> AstNode<'a> for ImplItem<'a> {
    open spec fn kind_set(k: SyntaxKind) -> bool {
        k == SyntaxKind::IMPL_ITEM
    }

    closed spec fn node_spec(&self) -> SyntaxNodeRef<'a> {
        self.syntax
    }

    closed spec fn variant_kind_spec(&self) -> SyntaxKind {
        SyntaxKind::IMPL_ITEM
    }

    fn cast(syntax: SyntaxNodeRef<'a>) -> (r: Option<Self>) {
        if syntax.kind() == SyntaxKind::IMPL_ITEM {
            Some(ImplItem { syntax })
        } else {
            None
        }
    }

    fn syntax(self) -> (r: SyntaxNodeRef<'a>) {
        self.syntax
    }
}

/// A typed view of one `IMPL_TRAIT_TYPE` node.
pub struct ImplTraitType<'a> {
    pub(in crate::ast) syntax: SyntaxNodeRef<'a>,
}

impl<'a> AstNode<'a> for ImplTraitType<'a> {
    open spec fn kind_set(k: SyntaxKind) -> bool {
        k == SyntaxKind::IMPL_TRAIT_TYPE
    }

    closed spec fn node_spec(&self) -> SyntaxNodeRef<'a> {
        self.syntax
    }

    closed spec fn variant_kind_spec(&self) -> SyntaxKind {
        SyntaxKind::IMPL_TRAIT_TYPE
    }

    fn cast(syntax: SyntaxNodeRef<'a>) -> (r: Option<Self>) {
        if syntax.kind() == SyntaxKind::IMPL_TRAIT_TYPE {
            Some(ImplTraitType { syntax })
        } else {
            None
        }
    }

    fn syntax(self) -> (r: SyntaxNodeRef<'a>) {
        self.syntax
    }
}

/// A typed view of one `INDEX_EXPR` node.
pub struct IndexExpr<'a> {
    pub(in crate::ast) syntax: SyntaxNodeRef<'a>,
}

impl<'a> AstNode<'a> for IndexExpr<'a> {
    open spec fn kind_set(k: SyntaxKind) -> bool {
        k == SyntaxKind::INDEX_EXPR
    }

    closed spec fn node_spec(&self) -> SyntaxNodeRef<'a> {
        self.syntax
    }

    closed spec fn variant_kind_spec(&self) -> SyntaxKind {
        SyntaxKind::INDEX_EXPR
    }

    fn cast(syntax: SyntaxNodeRef<'a>) -> (r: Option<Self>) {
        if syntax.kind() == SyntaxKind::INDEX_EXPR {
            Some(IndexExpr { syntax })
        } else {
            None
        }
    }

    fn syntax(self) -> (r: SyntaxNodeRef<'a>) {
        self.syntax
    }
}

/// A typed view of one `LABEL` node.
pub struct Label<'a> {
    pub(in crate::ast) syntax: SyntaxNodeRef<'a>,
}

impl<'a> AstNode<'a> for Label<'a> {
    open spec fn kind_set(k: SyntaxKind) -> bool {
        k == SyntaxKind::LABEL
    }

    closed spec fn node_spec(&self) -> SyntaxNodeRef<'a> {
        self.syntax
    }

    closed spec fn variant_kind_spec(&self) -> SyntaxKind {
        SyntaxKind::LABEL
    }

    fn cast(syntax: SyntaxNodeRef<'a>) -> (r: Option<Self>) {
        if syntax.kind() == SyntaxKind::LABEL {
            Some(Label { syntax })
        } else {
            None
        }
    }

    fn syntax(self) -> (r: SyntaxNodeRef<'a>) {
        self.syntax
    }
}

/// A typed view of one `LAMBDA_EXPR` node.
pub struct LambdaExpr<'a> {
    pub(in crate::ast) syntax: SyntaxNodeRef<'a>,
}

impl<'a> AstNode<'a> for LambdaExpr<'a> {
    open spec fn kind_set(k: SyntaxKind) -> bool {
        k == SyntaxKind::LAMBDA_EXPR
    }

    closed spec fn node_spec(&self) -> SyntaxNodeRef<'a> {
        self.syntax
    }

    closed spec fn variant_kind_spec(&self) -> SyntaxKind {
        SyntaxKind::LAMBDA_EXPR
    }

    fn cast(syntax: SyntaxNodeRef<'a>) -> (r: Option<Self>) {
        if syntax.kind() == SyntaxKind::LAMBDA_EXPR {
            Some(LambdaExpr { syntax })
        } else {
            None
        }
    }

    fn syntax(self) -> (r: SyntaxNodeRef<'a>) {
        self.syntax
    }
}

/// A typed view of one `LOOP_EXPR` node.
pub struct LoopExpr<'a> {
    pub(in crate::ast) syntax: SyntaxNodeRef<'a>,
}

impl<'a> AstNode<'a> for LoopExpr<'a> {
    open spec fn kind_set(k: SyntaxKind) -> bool {
        k == SyntaxKind::LOOP_EXPR
    }

    closed spec fn node_spec(&self) -> SyntaxNodeRef<'a> {
        self.syntax
    }

    closed spec fn variant_kind_spec(&self) -> SyntaxKind {
        SyntaxKind::LOOP_EXPR
    }

    fn cast(syntax: SyntaxNodeRef<'a>) -> (r: Option<Self>) {
        if syntax.kind() == SyntaxKind::LOOP_EXPR {
            Some(LoopExpr { syntax })
        } else {
            None
        }
    }

    fn syntax(self) -> (r: SyntaxNodeRef<'a>) {
        self.syntax
    }
}

/// A typed view of one `MATCH_ARM` node.
pub struct MatchArm<'a> {
    pub(in crate::ast) syntax: SyntaxNodeRef<'a>,
}

impl<'a> AstNode<'a> for MatchArm<'a> {
    open spec fn kind_set(k: SyntaxKind) -> bool {
        k == SyntaxKind::MATCH_ARM
    }

    closed spec fn node_spec(&self) -> SyntaxNodeRef<'a> {
        self.syntax
    }

    closed spec fn variant_kind_spec(&self) -> SyntaxKind {
        SyntaxKind::MATCH_ARM
    }

    fn cast(syntax: SyntaxNodeRef<'a>) -> (r: Option<Self>) {
        if syntax.kind() == SyntaxKind::MATCH_ARM {
            Some(MatchArm { syntax })
        } else {
            None
        }
    }

    fn syntax(self) -> (r: SyntaxNodeRef<'a>) {
        self.syntax
    }
}

/// A typed view of one `MATCH_ARM_LIST` node.
pub struct MatchArmList<'a> {
    pub(in crate::ast) syntax: SyntaxNodeRef<'a>,
}

impl<'a> AstNode<'a> for MatchArmList<'a> {
    open spec fn kind_set(k: SyntaxKind) -> bool {
        k == SyntaxKind::MATCH_ARM_LIST
    }

    closed spec fn node_spec(&self) -> SyntaxNodeRef<'a> {
        self.syntax
    }

    closed spec fn variant_kind_spec(&self) -> SyntaxKind {
        SyntaxKind::MATCH_ARM_LIST
    }

    fn cast(syntax: SyntaxNodeRef<'a>) -> (r: Option<Self>) {
        if syntax.kind() == SyntaxKind::MATCH_ARM_LIST {
            Some(MatchArmList { syntax })
        } else {
            None
        }
    }

    fn syntax(self) -> (r: SyntaxNodeRef<'a>) {
        self.syntax
    }
}

/// A typed view of one `MATCH_EXPR` node.
pub struct MatchExpr<'a> {
    pub(in crate::ast) syntax: SyntaxNodeRef<'a>,
}

impl<'a> AstNode<'a> for MatchExpr<'a> {
    open spec fn kind_set(k: SyntaxKind) -> bool {
        k == SyntaxKind::MATCH_EXPR
    }

    closed spec fn node_spec(&self) -> SyntaxNodeRef<'a> {
        self.syntax
    }

    closed spec fn variant_kind_spec(&self) -> SyntaxKind {
        SyntaxKind::MATCH_EXPR
    }

    fn cast(syntax: SyntaxNodeRef<'a>) -> (r: Option<Self>) {
        if syntax.kind() == SyntaxKind::MATCH_EXPR {
            Some(MatchExpr { syntax })
        } else {
            None
        }
    }

    fn syntax(self) -> (r: SyntaxNodeRef<'a>) {
        self.syntax
    }
}

/// A typed view of one `MATCH_GUARD` node.
pub struct MatchGuard<'a> {
    pub(in crate::ast) syntax: SyntaxNodeRef<'a>,
}

impl<'a> AstNode<'a> for MatchGuard<'a> {
    open spec fn kind_set(k: SyntaxKind) -> bool {
        k == SyntaxKind::MATCH_GUARD
    }

    closed spec fn node_spec(&self) -> SyntaxNodeRef<'a> {
        self.syntax
    }

    closed spec fn variant_kind_spec(&self) -> SyntaxKind {
        SyntaxKind::MATCH_GUARD
    }

    fn cast(syntax: SyntaxNodeRef<'a>) -> (r: Option<Self>) {
        if syntax.kind() == SyntaxKind::MATCH_GUARD {
            Some(MatchGuard { syntax })
        } else {
            None
        }
    }

    fn syntax(self) -> (r: SyntaxNodeRef<'a>) {
        self.syntax
    }
}

/// A typed view of one `METHOD_CALL_EXPR` node.
pub struct MethodCallExpr<'a> {
    pub(in crate::ast) syntax: SyntaxNodeRef<'a>,
}

impl<'a> AstNode<'a> for MethodCallExpr<'a> {
    open spec fn kind_set(k: SyntaxKind) -> bool {
        k == SyntaxKind::METHOD_CALL_EXPR
    }

    closed spec fn node_spec(&self) -> SyntaxNodeRef<'a> {
        self.syntax
    }

    closed spec fn variant_kind_spec(&self) -> SyntaxKind {
        SyntaxKind::METHOD_CALL_EXPR
    }

    fn cast(syntax: SyntaxNodeRef<'a>) -> (r: Option<Self>) {
        if syntax.kind() == SyntaxKind::METHOD_CALL_EXPR {
            Some(MethodCallExpr { syntax })
        } else {
            None
        }
    }

    fn syntax(self) -> (r: SyntaxNodeRef<'a>) {
        self.syntax
    }
}

/// A typed view of one `MODULE` node.
pub struct Module<'a> {
    pub(in crate::ast) syntax: SyntaxNodeRef<'a>,
}

impl<'a> AstNode<'a> for Module<'a> {
    open spec fn kind_set(k: SyntaxKind) -> bool {
        k == SyntaxKind::MODULE
    }

    closed spec fn node_spec(&self) -> SyntaxNodeRef<'a> {
        self.syntax
    }

    closed spec fn variant_kind_spec(&self) -> SyntaxKind {
        SyntaxKind::MODULE
    }

    fn cast(syntax: SyntaxNodeRef<'a>) -> (r: Option<Self>) {
        if syntax.kind() == SyntaxKind::MODULE {
            Some(Module { syntax })
        } else {
            None
        }
    }

    fn syntax(self) -> (r: SyntaxNodeRef<'a>) {
        self.syntax
    }
}

impl<'a> NameOwner<'a> for Module<'a> {
    fn name(&self) -> (r: Option<Name<'a>>) {
        match first_child_of_kind(&self.syntax, SyntaxKind::NAME) {
            Some(c) => Some(Name { syntax: c }),
            None => None,
        }
    }
}

impl<'a> AttrsOwner<'a> for Module<'a> {
    fn attrs(&self) -> (r: Vec<Attr<'a>>)
    {
        let vs = children_of_kind(&self.syntax, SyntaxKind::ATTR);
        let ghost gvs = vs@;
        let r = wrap_attr_nodes(vs);
        proof {
            assert forall|m: int| 0 <= m < r@.len() implies {
                &&& (#[trigger] r@[m]).node_spec().wf()
                &&& r@[m].node_spec().same_tree(self.node_spec())
                &&& exists|i: usize|
                    {
                        &&& i < crate::ast::num_children_of(self.node_spec().node_spec())
                        &&& crate::ast::child_kind(self.node_spec().node_spec(), i as int)
                            == SyntaxKind::ATTR
                        &&& r@[m].node_spec().path_spec() == self.node_spec().path_spec().push(i)
                    }
            } by {
                let q = choose|q: usize|
                    {
                        &&& q < crate::ast::num_children_of(self.node_spec().node_spec())
                        &&& crate::ast::child_kind(self.node_spec().node_spec(), q as int)
                            == SyntaxKind::ATTR
                        &&& gvs[m].path_spec() == self.node_spec().path_spec().push(q)
                    };
                assert(r@[m].node_spec().path_spec() == self.node_spec().path_spec().push(q));
            }
            assert forall|i: usize|
                i < crate::ast::num_children_of(self.node_spec().node_spec())
                    && #[trigger] crate::ast::child_kind(self.node_spec().node_spec(), i as int)
                    == SyntaxKind::ATTR implies exists|m: int|
                0 <= m < r@.len() && (#[trigger] r@[m]).node_spec().path_spec()
                    == self.node_spec().path_spec().push(i) by {
                let m0 = choose|m: int|
                    0 <= m < gvs.len() && (#[trigger] gvs[m]).path_spec()
                        == self.node_spec().path_spec().push(i);
                assert(r@[m0].node_spec().path_spec() == self.node_spec().path_spec().push(i));
            }
            assert forall|m1: int, m2: int|
                0 <= m1 < m2 < r@.len() implies (#[trigger] r@[m1]).node_spec().path_spec().last()
                < (#[trigger] r@[m2]).node_spec().path_spec().last() by {
                assert(r@[m1].node_spec().path_spec() == gvs[m1].path_spec());
                assert(r@[m2].node_spec().path_spec() == gvs[m2].path_spec());
                assert(gvs[m1].path_spec().last() < gvs[m2].path_spec().last());
            }
        }
        r
    }
}

/// A typed view of one `NAME` node.
pub struct Name<'a> {
    pub(in crate::ast) syntax: SyntaxNodeRef<'a>,
}

impl<'a> AstNode<'a> for Name<'a> {
    open spec fn kind_set(k: SyntaxKind) -> bool {
        k == SyntaxKind::NAME
    }

    closed spec fn node_spec(&self) -> SyntaxNodeRef<'a> {
        self.syntax
    }

    closed spec fn variant_kind_spec(&self) -> SyntaxKind {
        SyntaxKind::NAME
    }

    fn cast(syntax: SyntaxNodeRef<'a>) -> (r: Option<Self>) {
        if syntax.kind() == SyntaxKind::NAME {
            Some(Name { syntax })
        } else {
            None
        }
    }

    fn syntax(self) -> (r: SyntaxNodeRef<'a>) {
        self.syntax
    }
}

/// A typed view of one `NAME_REF` node.
pub struct NameRef<'a> {
    pub(in crate::ast) syntax: SyntaxNodeRef<'a>,
}

impl<'a> AstNode<'a> for NameRef<'a> {
    open spec fn kind_set(k: SyntaxKind) -> bool {
        k == SyntaxKind::NAME_REF
    }

    closed spec fn node_spec(&self) -> SyntaxNodeRef<'a> {
        self.syntax
    }

    closed spec fn variant_kind_spec(&self) -> SyntaxKind {
        SyntaxKind::NAME_REF
    }

    fn cast(syntax: SyntaxNodeRef<'a>) -> (r: Option<Self>) {
        if syntax.kind() == SyntaxKind::NAME_REF {
            Some(NameRef { syntax })
        } else {
            None
        }
    }

    fn syntax(self) -> (r: SyntaxNodeRef<'a>) {
        self.syntax
    }
}

/// A typed view of one `NAMED_FIELD` node.
pub struct NamedField<'a> {
    pub(in crate::ast) syntax: SyntaxNodeRef<'a>,
}

impl<'a> AstNode<'a> for NamedField<'a> {
    open spec fn kind_set(k: SyntaxKind) -> bool {
        k == SyntaxKind::NAMED_FIELD
    }

    closed spec fn node_spec(&self) -> SyntaxNodeRef<'a> {
        self.syntax
    }

    closed spec fn variant_kind_spec(&self) -> SyntaxKind {
        SyntaxKind::NAMED_FIELD
    }

    fn cast(syntax: SyntaxNodeRef<'a>) -> (r: Option<Self>) {
        if syntax.kind() == SyntaxKind::NAMED_FIELD {
            Some(NamedField { syntax })
        } else {
            None
        }
    }

    fn syntax(self) -> (r: SyntaxNodeRef<'a>) {
        self.syntax
    }
}

/// A typed view of one `NAMED_FIELD_DEF` node.
pub struct NamedFieldDef<'a> {
    pub(in crate::ast) syntax: SyntaxNodeRef<'a>,
}

impl<'a> AstNode<'a> for NamedFieldDef<'a> {
    open spec fn kind_set(k: SyntaxKind) -> bool {
        k == SyntaxKind::NAMED_FIELD_DEF
    }

    closed spec fn node_spec(&self) -> SyntaxNodeRef<'a> {
        self.syntax
    }

    closed spec fn variant_kind_spec(&self) -> SyntaxKind {
        SyntaxKind::NAMED_FIELD_DEF
    }

    fn cast(syntax: SyntaxNodeRef<'a>) -> (r: Option<Self>) {
        if syntax.kind() == SyntaxKind::NAMED_FIELD_DEF {
            Some(NamedFieldDef { syntax })
        } else {
            None
        }
    }

    fn syntax(self) -> (r: SyntaxNodeRef<'a>) {
        self.syntax
    }
}

impl<'a> NameOwner<'a> for NamedFieldDef<'a> {
    fn name(&self) -> (r: Option<Name<'a>>) {
        match first_child_of_kind(&self.syntax, SyntaxKind::NAME) {
            Some(c) => Some(Name { syntax: c }),
            None => None,
        }
    }
}

impl<'a> AttrsOwner<'a> for NamedFieldDef<'a> {
    fn attrs(&self) -> (r: Vec<Attr<'a>>)
    {
        let vs = children_of_kind(&self.syntax, SyntaxKind::ATTR);
        let ghost gvs = vs@;
        let r = wrap_attr_nodes(vs);
        proof {
            assert forall|m: int| 0 <= m < r@.len() implies {
                &&& (#[trigger] r@[m]).node_spec().wf()
                &&& r@[m].node_spec().same_tree(self.node_spec())
                &&& exists|i: usize|
                    {
                        &&& i < crate::ast::num_children_of(self.node_spec().node_spec())
                        &&& crate::ast::child_kind(self.node_spec().node_spec(), i as int)
                            == SyntaxKind::ATTR
                        &&& r@[m].node_spec().path_spec() == self.node_spec().path_spec().push(i)
                    }
            } by {
                let q = choose|q: usize|
                    {
                        &&& q < crate::ast::num_children_of(self.node_spec().node_spec())
                        &&& crate::ast::child_kind(self.node_spec().node_spec(), q as int)
                            == SyntaxKind::ATTR
                        &&& gvs[m].path_spec() == self.node_spec().path_spec().push(q)
                    };
                assert(r@[m].node_spec().path_spec() == self.node_spec().path_spec().push(q));
            }
            assert forall|i: usize|
                i < crate::ast::num_children_of(self.node_spec().node_spec())
                    && #[trigger] crate::ast::child_kind(self.node_spec().node_spec(), i as int)
                    == SyntaxKind::ATTR implies exists|m: int|
                0 <= m < r@.len() && (#[trigger] r@[m]).node_spec().path_spec()
                    == self.node_spec().path_spec().push(i) by {
                let m0 = choose|m: int|
                    0 <= m < gvs.len() && (#[trigger] gvs[m]).path_spec()
                        == self.node_spec().path_spec().push(i);
                assert(r@[m0].node_spec().path_spec() == self.node_spec().path_spec().push(i));
            }
            assert forall|m1: int, m2: int|
                0 <= m1 < m2 < r@.len() implies (#[trigger] r@[m1]).node_spec().path_spec().last()
                < (#[trigger] r@[m2]).node_spec().path_spec().last() by {
                assert(r@[m1].node_spec().path_spec() == gvs[m1].path_spec());
                assert(r@[m2].node_spec().path_spec() == gvs[m2].path_spec());
                assert(gvs[m1].path_spec().last() < gvs[m2].path_spec().last());
            }
        }
        r
    }
}

/// A typed view of one `NAMED_FIELD_LIST` node.
pub struct NamedFieldList<'a> {
    pub(in crate::ast) syntax: SyntaxNodeRef<'a>,
}

impl<'a> AstNode<'a> for NamedFieldList<'a> {
    open spec fn kind_set(k: SyntaxKind) -> bool {
        k == SyntaxKind::NAMED_FIELD_LIST
    }

    closed spec fn node_spec(&self) -> SyntaxNodeRef<'a> {
        self.syntax
    }

    closed spec fn variant_kind_spec(&self) -> SyntaxKind {
        SyntaxKind::NAMED_FIELD_LIST
    }

    fn cast(syntax: SyntaxNodeRef<'a>) -> (r: Option<Self>) {
        if syntax.kind() == SyntaxKind::NAMED_FIELD_LIST {
            Some(NamedFieldList { syntax })
        } else {
            None
        }
    }

    fn syntax(self) -> (r: SyntaxNodeRef<'a>) {
        self.syntax
    }
}

/// A typed view of one `NEVER_TYPE` node.
pub struct NeverType<'a> {
    pub(in crate::ast) syntax: SyntaxNodeRef<'a>,
}

impl<'a> AstNode<'a> for NeverType<'a> {
    open spec fn kind_set(k: SyntaxKind) -> bool {
        k == SyntaxKind::NEVER_TYPE
    }

    closed spec fn node_spec(&self) -> SyntaxNodeRef<'a> {
        self.syntax
    }

    closed spec fn variant_kind_spec(&self) -> SyntaxKind {
        SyntaxKind::NEVER_TYPE
    }

    fn cast(syntax: SyntaxNodeRef<'a>) -> (r: Option<Self>) {
        if syntax.kind() == SyntaxKind::NEVER_TYPE {
            Some(NeverType { syntax })
        } else {
            None
        }
    }

    fn syntax(self) -> (r: SyntaxNodeRef<'a>) {
        self.syntax
    }
}

/// A typed view of one `PAREN_EXPR` node.
pub struct ParenExpr<'a> {
    pub(in crate::ast) syntax: SyntaxNodeRef<'a>,
}

impl<'a> AstNode<'a> for ParenExpr<'a> {
    open spec fn kind_set(k: SyntaxKind) -> bool {
        k == SyntaxKind::PAREN_EXPR
    }

    closed spec fn node_spec(&self) -> SyntaxNodeRef<'a> {
        self.syntax
    }

    closed spec fn variant_kind_spec(&self) -> SyntaxKind {
        SyntaxKind::PAREN_EXPR
    }

    fn cast(syntax: SyntaxNodeRef<'a>) -> (r: Option<Self>) {
        if syntax.kind() == SyntaxKind::PAREN_EXPR {
            Some(ParenExpr { syntax })
        } else {
            None
        }
    }

    fn syntax(self) -> (r: SyntaxNodeRef<'a>) {
        self.syntax
    }
}

/// A typed view of one `PAREN_TYPE` node.
pub struct ParenType<'a> {
    pub(in crate::ast) syntax: SyntaxNodeRef<'a>,
}

impl<'a> AstNode<'a> for ParenType<'a> {
    open spec fn kind_set(k: SyntaxKind) -> bool {
        k == SyntaxKind::PAREN_TYPE
    }

    closed spec fn node_spec(&self) -> SyntaxNodeRef<'a> {
        self.syntax
    }

    closed spec fn variant_kind_spec(&self) -> SyntaxKind {
        SyntaxKind::PAREN_TYPE
    }

    fn cast(syntax: SyntaxNodeRef<'a>) -> (r: Option<Self>) {
        if syntax.kind() == SyntaxKind::PAREN_TYPE {
            Some(ParenType { syntax })
        } else {
            None
        }
    }

    fn syntax(self) -> (r: SyntaxNodeRef<'a>) {
        self.syntax
    }
}

/// A typed view of one `PATH_EXPR` node.
pub struct PathExpr<'a> {
    pub(in crate::ast) syntax: SyntaxNodeRef<'a>,
}

impl<'a> AstNode<'a> for PathExpr<'a> {
    open spec fn kind_set(k: SyntaxKind) -> bool {
        k == SyntaxKind::PATH_EXPR
    }

    closed spec fn node_spec(&self) -> SyntaxNodeRef<'a> {
        self.syntax
    }

    closed spec fn variant_kind_spec(&self) -> SyntaxKind {
        SyntaxKind::PATH_EXPR
    }

    fn cast(syntax: SyntaxNodeRef<'a>) -> (r: Option<Self>) {
        if syntax.kind() == SyntaxKind::PATH_EXPR {
            Some(PathExpr { syntax })
        } else {
            None
        }
    }

    fn syntax(self) -> (r: SyntaxNodeRef<'a>) {
        self.syntax
    }
}

/// A typed view of one `PATH_TYPE` node.
pub struct PathType<'a> {
    pub(in crate::ast) syntax: SyntaxNodeRef<'a>,
}

impl<'a> AstNode<'a> for PathType<'a> {
    open spec fn kind_set(k: SyntaxKind) -> bool {
        k == SyntaxKind::PATH_TYPE
    }

    closed spec fn node_spec(&self) -> SyntaxNodeRef<'a> {
        self.syntax
    }

    closed spec fn variant_kind_spec(&self) -> SyntaxKind {
        SyntaxKind::PATH_TYPE
    }

    fn cast(syntax: SyntaxNodeRef<'a>) -> (r: Option<Self>) {
        if syntax.kind() == SyntaxKind::PATH_TYPE {
            Some(PathType { syntax })
        } else {
            None
        }
    }

    fn syntax(self) -> (r: SyntaxNodeRef<'a>) {
        self.syntax
    }
}

/// A typed view of one `PLACEHOLDER_TYPE` node.
pub struct PlaceholderType<'a> {
    pub(in crate::ast) syntax: SyntaxNodeRef<'a>,
}

impl<'a> AstNode<'a> for PlaceholderType<'a> {
    open spec fn kind_set(k: SyntaxKind) -> bool {
        k == SyntaxKind::PLACEHOLDER_TYPE
    }

    closed spec fn node_spec(&self) -> SyntaxNodeRef<'a> {
        self.syntax
    }

    closed spec fn variant_kind_spec(&self) -> SyntaxKind {
        SyntaxKind::PLACEHOLDER_TYPE
    }

    fn cast(syntax: SyntaxNodeRef<'a>) -> (r: Option<Self>) {
        if syntax.kind() == SyntaxKind::PLACEHOLDER_TYPE {
            Some(PlaceholderType { syntax })
        } else {
            None
        }
    }

    fn syntax(self) -> (r: SyntaxNodeRef<'a>) {
        self.syntax
    }
}

/// A typed view of one `POINTER_TYPE` node.
pub struct PointerType<'a> {
    pub(in crate::ast) syntax: SyntaxNodeRef<'a>,
}

impl<'a> AstNode<'a> for PointerType<'a> {
    open spec fn kind_set(k: SyntaxKind) -> bool {
        k == SyntaxKind::POINTER_TYPE
    }

    closed spec fn node_spec(&self) -> SyntaxNodeRef<'a> {
        self.syntax
    }

    closed spec fn variant_kind_spec(&self) -> SyntaxKind {
        SyntaxKind::POINTER_TYPE
    }

    fn cast(syntax: SyntaxNodeRef<'a>) -> (r: Option<Self>) {
        if syntax.kind() == SyntaxKind::POINTER_TYPE {
            Some(PointerType { syntax })
        } else {
            None
        }
    }

    fn syntax(self) -> (r: SyntaxNodeRef<'a>) {
        self.syntax
    }
}

/// A typed view of one `PREFIX_EXPR` node.
pub struct PrefixExpr<'a> {
    pub(in crate::ast) syntax: SyntaxNodeRef<'a>,
}

impl<'a> AstNode<'a> for PrefixExpr<'a> {
    open spec fn kind_set(k: SyntaxKind) -> bool {
        k == SyntaxKind::PREFIX_EXPR
    }

    closed spec fn node_spec(&self) -> SyntaxNodeRef<'a> {
        self.syntax
    }

    closed spec fn variant_kind_spec(&self) -> SyntaxKind {
        SyntaxKind::PREFIX_EXPR
    }

    fn cast(syntax: SyntaxNodeRef<'a>) -> (r: Option<Self>) {
        if syntax.kind() == SyntaxKind::PREFIX_EXPR {
            Some(PrefixExpr { syntax })
        } else {
            None
        }
    }

    fn syntax(self) -> (r: SyntaxNodeRef<'a>) {
        self.syntax
    }
}

/// A typed view of one `RANGE_EXPR` node.
pub struct RangeExpr<'a> {
    pub(in crate::ast) syntax: SyntaxNodeRef<'a>,
}

impl<'a> AstNode<'a> for RangeExpr<'a> {
    open spec fn kind_set(k: SyntaxKind) -> bool {
        k == SyntaxKind::RANGE_EXPR
    }

    closed spec fn node_spec(&self) -> SyntaxNodeRef<'a> {
        self.syntax
    }

    closed spec fn variant_kind_spec(&self) -> SyntaxKind {
        SyntaxKind::RANGE_EXPR
    }

    fn cast(syntax: SyntaxNodeRef<'a>) -> (r: Option<Self>) {
        if syntax.kind() == SyntaxKind::RANGE_EXPR {
            Some(RangeExpr { syntax })
        } else {
            None
        }
    }

    fn syntax(self) -> (r: SyntaxNodeRef<'a>) {
        self.syntax
    }
}

/// A typed view of one `REF_EXPR` node.
pub struct RefExpr<'a> {
    pub(in crate::ast) syntax: SyntaxNodeRef<'a>,
}

impl<'a> AstNode<'a> for RefExpr<'a> {
    open spec fn kind_set(k: SyntaxKind) -> bool {
        k == SyntaxKind::REF_EXPR
    }

    closed spec fn node_spec(&self) -> SyntaxNodeRef<'a> {
        self.syntax
    }

    closed spec fn variant_kind_spec(&self) -> SyntaxKind {
        SyntaxKind::REF_EXPR
    }

    fn cast(syntax: SyntaxNodeRef<'a>) -> (r: Option<Self>) {
        if syntax.kind() == SyntaxKind::REF_EXPR {
            Some(RefExpr { syntax })
        } else {
            None
        }
    }

    fn syntax(self) -> (r: SyntaxNodeRef<'a>) {
        self.syntax
    }
}

/// A typed view of one `REFERENCE_TYPE` node.
pub struct ReferenceType<'a> {
    pub(in crate::ast) syntax: SyntaxNodeRef<'a>,
}

impl<'a> AstNode<'a> for ReferenceType<'a> {
    open spec fn kind_set(k: SyntaxKind) -> bool {
        k == SyntaxKind::REFERENCE_TYPE
    }

    closed spec fn node_spec(&self) -> SyntaxNodeRef<'a> {
        self.syntax
    }

    closed spec fn variant_kind_spec(&self) -> SyntaxKind {
        SyntaxKind::REFERENCE_TYPE
    }

    fn cast(syntax: SyntaxNodeRef<'a>) -> (r: Option<Self>) {
        if syntax.kind() == SyntaxKind::REFERENCE_TYPE {
            Some(ReferenceType { syntax })
        } else {
            None
        }
    }

    fn syntax(self) -> (r: SyntaxNodeRef<'a>) {
        self.syntax
    }
}

/// A typed view of one `RETURN_EXPR` node.
pub struct ReturnExpr<'a> {
    pub(in crate::ast) syntax: SyntaxNodeRef<'a>,
}

impl<'a> AstNode<'a> for ReturnExpr<'a> {
    open spec fn kind_set(k: SyntaxKind) -> bool {
        k == SyntaxKind::RETURN_EXPR
    }

    closed spec fn node_spec(&self) -> SyntaxNodeRef<'a> {
        self.syntax
    }

    closed spec fn variant_kind_spec(&self) -> SyntaxKind {
        SyntaxKind::RETURN_EXPR
    }

    fn cast(syntax: SyntaxNodeRef<'a>) -> (r: Option<Self>) {
        if syntax.kind() == SyntaxKind::RETURN_EXPR {
            Some(ReturnExpr { syntax })
        } else {
            None
        }
    }

    fn syntax(self) -> (r: SyntaxNodeRef<'a>) {
        self.syntax
    }
}

/// A typed view of one `ROOT` node.
pub struct Root<'a> {
    pub(in crate::ast) syntax: SyntaxNodeRef<'a>,
}

impl<'a> AstNode<'a> for Root<'a> {
    open spec fn kind_set(k: SyntaxKind) -> bool {
        k == SyntaxKind::ROOT
    }

    closed spec fn node_spec(&self) -> SyntaxNodeRef<'a> {
        self.syntax
    }

    closed spec fn variant_kind_spec(&self) -> SyntaxKind {
        SyntaxKind::ROOT
    }

    fn cast(syntax: SyntaxNodeRef<'a>) -> (r: Option<Self>) {
        if syntax.kind() == SyntaxKind::ROOT {
            Some(Root { syntax })
        } else {
            None
        }
    }

    fn syntax(self) -> (r: SyntaxNodeRef<'a>) {
        self.syntax
    }
}

/// A typed view of one `SLICE_TYPE` node.
pub struct SliceType<'a> {
    pub(in crate::ast) syntax: SyntaxNodeRef<'a>,
}

impl<'a> AstNode<'a> for SliceType<'a> {
    open spec fn kind_set(k: SyntaxKind) -> bool {
        k == SyntaxKind::SLICE_TYPE
    }

    closed spec fn node_spec(&self) -> SyntaxNodeRef<'a> {
        self.syntax
    }

    closed spec fn variant_kind_spec(&self) -> SyntaxKind {
        SyntaxKind::SLICE_TYPE
    }

    fn cast(syntax: SyntaxNodeRef<'a>) -> (r: Option<Self>) {
        if syntax.kind() == SyntaxKind::SLICE_TYPE {
            Some(SliceType { syntax })
        } else {
            None
        }
    }

    fn syntax(self) -> (r: SyntaxNodeRef<'a>) {
        self.syntax
    }
}

/// A typed view of one `STATIC_DEF` node.
pub struct StaticDef<'a> {
    pub(in crate::ast) syntax: SyntaxNodeRef<'a>,
}

impl<'a> AstNode<'a> for StaticDef<'a> {
    open spec fn kind_set(k: SyntaxKind) -> bool {
        k == SyntaxKind::STATIC_DEF
    }

    closed spec fn node_spec(&self) -> SyntaxNodeRef<'a> {
        self.syntax
    }

    closed spec fn variant_kind_spec(&self) -> SyntaxKind {
        SyntaxKind::STATIC_DEF
    }

    fn cast(syntax: SyntaxNodeRef<'a>) -> (r: Option<Self>) {
        if syntax.kind() == SyntaxKind::STATIC_DEF {
            Some(StaticDef { syntax })
        } else {
            None
        }
    }

    fn syntax(self) -> (r: SyntaxNodeRef<'a>) {
        self.syntax
    }
}

impl<'a> NameOwner<'a> for StaticDef<'a> {
    fn name(&self) -> (r: Option<Name<'a>>) {
        match first_child_of_kind(&self.syntax, SyntaxKind::NAME) {
            Some(c) => Some(Name { syntax: c }),
            None => None,
        }
    }
}

impl<'a> TypeParamsOwner<'a> for StaticDef<'a> {
    fn type_param_list(&self) -> (r: Option<TypeParamList<'a>>) {
        match first_child_of_kind(&self.syntax, SyntaxKind::TYPE_PARAM_LIST) {
            Some(c) => Some(TypeParamList { syntax: c }),
            None => None,
        }
    }

    fn where_clause(&self) -> (r: Option<WhereClause<'a>>) {
        match first_child_of_kind(&self.syntax, SyntaxKind::WHERE_CLAUSE) {
            Some(c) => Some(WhereClause { syntax: c }),
            None => None,
        }
    }
}

impl<'a> AttrsOwner<'a> for StaticDef<'a> {
    fn attrs(&self) -> (r: Vec<Attr<'a>>)
    {
        let vs = children_of_kind(&self.syntax, SyntaxKind::ATTR);
        let ghost gvs = vs@;
        let r = wrap_attr_nodes(vs);
        proof {
            assert forall|m: int| 0 <= m < r@.len() implies {
                &&& (#[trigger] r@[m]).node_spec().wf()
                &&& r@[m].node_spec().same_tree(self.node_spec())
                &&& exists|i: usize|
                    {
                        &&& i < crate::ast::num_children_of(self.node_spec().node_spec())
                        &&& crate::ast::child_kind(self.node_spec().node_spec(), i as int)
                            == SyntaxKind::ATTR
                        &&& r@[m].node_spec().path_spec() == self.node_spec().path_spec().push(i)
                    }
            } by {
                let q = choose|q: usize|
                    {
                        &&& q < crate::ast::num_children_of(self.node_spec().node_spec())
                        &&& crate::ast::child_kind(self.node_spec().node_spec(), q as int)
                            == SyntaxKind::ATTR
                        &&& gvs[m].path_spec() == self.node_spec().path_spec().push(q)
                    };
                assert(r@[m].node_spec().path_spec() == self.node_spec().path_spec().push(q));
            }
            assert forall|i: usize|
                i < crate::ast::num_children_of(self.node_spec().node_spec())
                    && #[trigger] crate::ast::child_kind(self.node_spec().node_spec(), i as int)
                    == SyntaxKind::ATTR implies exists|m: int|
                0 <= m < r@.len() && (#[trigger] r@[m]).node_spec().path_spec()
                    == self.node_spec().path_spec().push(i) by {
                let m0 = choose|m: int|
                    0 <= m < gvs.len() && (#[trigger] gvs[m]).path_spec()
                        == self.node_spec().path_spec().push(i);
                assert(r@[m0].node_spec().path_spec() == self.node_spec().path_spec().push(i));
            }
            assert forall|m1: int, m2: int|
                0 <= m1 < m2 < r@.len() implies (#[trigger] r@[m1]).node_spec().path_spec().last()
                < (#[trigger] r@[m2]).node_spec().path_spec().last() by {
                assert(r@[m1].node_spec().path_spec() == gvs[m1].path_spec());
                assert(r@[m2].node_spec().path_spec() == gvs[m2].path_spec());
                assert(gvs[m1].path_spec().last() < gvs[m2].path_spec().last());
            }
        }
        r
    }
}

/// A typed view of one `STRUCT_DEF` node.
pub struct StructDef<'a> {
    pub(in crate::ast) syntax: SyntaxNodeRef<'a>,
}

impl<'a> AstNode<'a> for StructDef<'a> {
    open spec fn kind_set(k: SyntaxKind) -> bool {
        k == SyntaxKind::STRUCT_DEF
    }

    closed spec fn node_spec(&self) -> SyntaxNodeRef<'a> {
        self.syntax
    }

    closed spec fn variant_kind_spec(&self) -> SyntaxKind {
        SyntaxKind::STRUCT_DEF
    }

    fn cast(syntax: SyntaxNodeRef<'a>) -> (r: Option<Self>) {
        if syntax.kind() == SyntaxKind::STRUCT_DEF {
            Some(StructDef { syntax })
        } else {
            None
        }
    }

    fn syntax(self) -> (r: SyntaxNodeRef<'a>) {
        self.syntax
    }
}

impl<'a> NameOwner<'a> for StructDef<'a> {
    fn name(&self) -> (r: Option<Name<'a>>) {
        match first_child_of_kind(&self.syntax, SyntaxKind::NAME) {
            Some(c) => Some(Name { syntax: c }),
            None => None,
        }
    }
}

impl<'a> TypeParamsOwner<'a> for StructDef<'a> {
    fn type_param_list(&self) -> (r: Option<TypeParamList<'a>>) {
        match first_child_of_kind(&self.syntax, SyntaxKind::TYPE_PARAM_LIST) {
            Some(c) => Some(TypeParamList { syntax: c }),
            None => None,
        }
    }

    fn where_clause(&self) -> (r: Option<WhereClause<'a>>) {
        match first_child_of_kind(&self.syntax, SyntaxKind::WHERE_CLAUSE) {
            Some(c) => Some(WhereClause { syntax: c }),
            None => None,
        }
    }
}

impl<'a> AttrsOwner<'a> for StructDef<'a> {
    fn attrs(&self) -> (r: Vec<Attr<'a>>)
    {
        let vs = children_of_kind(&self.syntax, SyntaxKind::ATTR);
        let ghost gvs = vs@;
        let r = wrap_attr_nodes(vs);
        proof {
            assert forall|m: int| 0 <= m < r@.len() implies {
                &&& (#[trigger] r@[m]).node_spec().wf()
                &&& r@[m].node_spec().same_tree(self.node_spec())
                &&& exists|i: usize|
                    {
                        &&& i < crate::ast::num_children_of(self.node_spec().node_spec())
                        &&& crate::ast::child_kind(self.node_spec().node_spec(), i as int)
                            == SyntaxKind::ATTR
                        &&& r@[m].node_spec().path_spec() == self.node_spec().path_spec().push(i)
                    }
            } by {
                let q = choose|q: usize|
                    {
                        &&& q < crate::ast::num_children_of(self.node_spec().node_spec())
                        &&& crate::ast::child_kind(self.node_spec().node_spec(), q as int)
                            == SyntaxKind::ATTR
                        &&& gvs[m].path_spec() == self.node_spec().path_spec().push(q)
                    };
                assert(r@[m].node_spec().path_spec() == self.node_spec().path_spec().push(q));
            }
            assert forall|i: usize|
                i < crate::ast::num_children_of(self.node_spec().node_spec())
                    && #[trigger] crate::ast::child_kind(self.node_spec().node_spec(), i as int)
                    == SyntaxKind::ATTR implies exists|m: int|
                0 <= m < r@.len() && (#[trigger] r@[m]).node_spec().path_spec()
                    == self.node_spec().path_spec().push(i) by {
                let m0 = choose|m: int|
                    0 <= m < gvs.len() && (#[trigger] gvs[m]).path_spec()
                        == self.node_spec().path_spec().push(i);
                assert(r@[m0].node_spec().path_spec() == self.node_spec().path_spec().push(i));
            }
            assert forall|m1: int, m2: int|
                0 <= m1 < m2 < r@.len() implies (#[trigger] r@[m1]).node_spec().path_spec().last()
                < (#[trigger] r@[m2]).node_spec().path_spec().last() by {
                assert(r@[m1].node_spec().path_spec() == gvs[m1].path_spec());
                assert(r@[m2].node_spec().path_spec() == gvs[m2].path_spec());
                assert(gvs[m1].path_spec().last() < gvs[m2].path_spec().last());
            }
        }
        r
    }
}

/// A typed view of one `STRUCT_LIT` node.
pub struct StructLit<'a> {
    pub(in crate::ast) syntax: SyntaxNodeRef<'a>,
}

impl<'a> AstNode<'a> for StructLit<'a> {
    open spec fn kind_set(k: SyntaxKind) -> bool {
        k == SyntaxKind::STRUCT_LIT
    }

    closed spec fn node_spec(&self) -> SyntaxNodeRef<'a> {
        self.syntax
    }

    closed spec fn variant_kind_spec(&self) -> SyntaxKind {
        SyntaxKind::STRUCT_LIT
    }

    fn cast(syntax: SyntaxNodeRef<'a>) -> (r: Option<Self>) {
        if syntax.kind() == SyntaxKind::STRUCT_LIT {
            Some(StructLit { syntax })
        } else {
            None
        }
    }

    fn syntax(self) -> (r: SyntaxNodeRef<'a>) {
        self.syntax
    }
}

/// A typed view of one `TOKEN_TREE` node.
pub struct TokenTree<'a> {
    pub(in crate::ast) syntax: SyntaxNodeRef<'a>,
}

impl<'a> AstNode<'a> for TokenTree<'a> {
    open spec fn kind_set(k: SyntaxKind) -> bool {
        k == SyntaxKind::TOKEN_TREE
    }

    closed spec fn node_spec(&self) -> SyntaxNodeRef<'a> {
        self.syntax
    }

    closed spec fn variant_kind_spec(&self) -> SyntaxKind {
        SyntaxKind::TOKEN_TREE
    }

    fn cast(syntax: SyntaxNodeRef<'a>) -> (r: Option<Self>) {
        if syntax.kind() == SyntaxKind::TOKEN_TREE {
            Some(TokenTree { syntax })
        } else {
            None
        }
    }

    fn syntax(self) -> (r: SyntaxNodeRef<'a>) {
        self.syntax
    }
}

/// A typed view of one `TRAIT_DEF` node.
pub struct TraitDef<'a> {
    pub(in crate::ast) syntax: SyntaxNodeRef<'a>,
}

impl<'a> AstNode<'a> for TraitDef<'a> {
    open spec fn kind_set(k: SyntaxKind) -> bool {
        k == SyntaxKind::TRAIT_DEF
    }

    closed spec fn node_spec(&self) -> SyntaxNodeRef<'a> {
        self.syntax
    }

    closed spec fn variant_kind_spec(&self) -> SyntaxKind {
        SyntaxKind::TRAIT_DEF
    }

    fn cast(syntax: SyntaxNodeRef<'a>) -> (r: Option<Self>) {
        if syntax.kind() == SyntaxKind::TRAIT_DEF {
            Some(TraitDef { syntax })
        } else {
            None
        }
    }

    fn syntax(self) -> (r: SyntaxNodeRef<'a>) {
        self.syntax
    }
}

impl<'a> NameOwner<'a> for TraitDef<'a> {
    fn name(&self) -> (r: Option<Name<'a>>) {
        match first_child_of_kind(&self.syntax, SyntaxKind::NAME) {
            Some(c) => Some(Name { syntax: c }),
            None => None,
        }
    }
}

impl<'a> AttrsOwner<'a> for TraitDef<'a> {
    fn attrs(&self) -> (r: Vec<Attr<'a>>)
    {
        let vs = children_of_kind(&self.syntax, SyntaxKind::ATTR);
        let ghost gvs = vs@;
        let r = wrap_attr_nodes(vs);
        proof {
            assert forall|m: int| 0 <= m < r@.len() implies {
                &&& (#[trigger] r@[m]).node_spec().wf()
                &&& r@[m].node_spec().same_tree(self.node_spec())
                &&& exists|i: usize|
                    {
                        &&& i < crate::ast::num_children_of(self.node_spec().node_spec())
                        &&& crate::ast::child_kind(self.node_spec().node_spec(), i as int)
                            == SyntaxKind::ATTR
                        &&& r@[m].node_spec().path_spec() == self.node_spec().path_spec().push(i)
                    }
            } by {
                let q = choose|q: usize|
                    {
                        &&& q < crate::ast::num_children_of(self.node_spec().node_spec())
                        &&& crate::ast::child_kind(self.node_spec().node_spec(), q as int)
                            == SyntaxKind::ATTR
                        &&& gvs[m].path_spec() == self.node_spec().path_spec().push(q)
                    };
                assert(r@[m].node_spec().path_spec() == self.node_spec().path_spec().push(q));
            }
            assert forall|i: usize|
                i < crate::ast::num_children_of(self.node_spec().node_spec())
                    && #[trigger] crate::ast::child_kind(self.node_spec().node_spec(), i as int)
                    == SyntaxKind::ATTR implies exists|m: int|
                0 <= m < r@.len() && (#[trigger] r@[m]).node_spec().path_spec()
                    == self.node_spec().path_spec().push(i) by {
                let m0 = choose|m: int|
                    0 <= m < gvs.len() && (#[trigger] gvs[m]).path_spec()
                        == self.node_spec().path_spec().push(i);
                assert(r@[m0].node_spec().path_spec() == self.node_spec().path_spec().push(i));
            }
            assert forall|m1: int, m2: int|
                0 <= m1 < m2 < r@.len() implies (#[trigger] r@[m1]).node_spec().path_spec().last()
                < (#[trigger] r@[m2]).node_spec().path_spec().last() by {
                assert(r@[m1].node_spec().path_spec() == gvs[m1].path_spec());
                assert(r@[m2].node_spec().path_spec() == gvs[m2].path_spec());
                assert(gvs[m1].path_spec().last() < gvs[m2].path_spec().last());
            }
        }
        r
    }
}

/// A typed view of one `TRY_EXPR` node.
pub struct TryExpr<'a> {
    pub(in crate::ast) syntax: SyntaxNodeRef<'a>,
}

impl<'a> AstNode<'a> for TryExpr<'a> {
    open spec fn kind_set(k: SyntaxKind) -> bool {
        k == SyntaxKind::TRY_EXPR
    }

    closed spec fn node_spec(&self) -> SyntaxNodeRef<'a> {
        self.syntax
    }

    closed spec fn variant_kind_spec(&self) -> SyntaxKind {
        SyntaxKind::TRY_EXPR
    }

    fn cast(syntax: SyntaxNodeRef<'a>) -> (r: Option<Self>) {
        if syntax.kind() == SyntaxKind::TRY_EXPR {
            Some(TryExpr { syntax })
        } else {
            None
        }
    }

    fn syntax(self) -> (r: SyntaxNodeRef<'a>) {
        self.syntax
    }
}

/// A typed view of one `TUPLE_EXPR` node.
pub struct TupleExpr<'a> {
    pub(in crate::ast) syntax: SyntaxNodeRef<'a>,
}

impl<'a> AstNode<'a> for TupleExpr<'a> {
    open spec fn kind_set(k: SyntaxKind) -> bool {
        k == SyntaxKind::TUPLE_EXPR
    }

    closed spec fn node_spec(&self) -> SyntaxNodeRef<'a> {
        self.syntax
    }

    closed spec fn variant_kind_spec(&self) -> SyntaxKind {
        SyntaxKind::TUPLE_EXPR
    }

    fn cast(syntax: SyntaxNodeRef<'a>) -> (r: Option<Self>) {
        if syntax.kind() == SyntaxKind::TUPLE_EXPR {
            Some(TupleExpr { syntax })
        } else {
            None
        }
    }

    fn syntax(self) -> (r: SyntaxNodeRef<'a>) {
        self.syntax
    }
}

/// A typed view of one `TUPLE_TYPE` node.
pub struct TupleType<'a> {
    pub(in crate::ast) syntax: SyntaxNodeRef<'a>,
}

impl<'a> AstNode<'a> for TupleType<'a> {
    open spec fn kind_set(k: SyntaxKind) -> bool {
        k == SyntaxKind::TUPLE_TYPE
    }

    closed spec fn node_spec(&self) -> SyntaxNodeRef<'a> {
        self.syntax
    }

    closed spec fn variant_kind_spec(&self) -> SyntaxKind {
        SyntaxKind::TUPLE_TYPE
    }

    fn cast(syntax: SyntaxNodeRef<'a>) -> (r: Option<Self>) {
        if syntax.kind() == SyntaxKind::TUPLE_TYPE {
            Some(TupleType { syntax })
        } else {
            None
        }
    }

    fn syntax(self) -> (r: SyntaxNodeRef<'a>) {
        self.syntax
    }
}

/// A typed view of one `TYPE_DEF` node.
pub struct TypeDef<'a> {
    pub(in crate::ast) syntax: SyntaxNodeRef<'a>,
}

impl<'a> AstNode<'a> for TypeDef<'a> {
    open spec fn kind_set(k: SyntaxKind) -> bool {
        k == SyntaxKind::TYPE_DEF
    }

    closed spec fn node_spec(&self) -> SyntaxNodeRef<'a> {
        self.syntax
    }

    closed spec fn variant_kind_spec(&self) -> SyntaxKind {
        SyntaxKind::TYPE_DEF
    }

    fn cast(syntax: SyntaxNodeRef<'a>) -> (r: Option<Self>) {
        if syntax.kind() == SyntaxKind::TYPE_DEF {
            Some(TypeDef { syntax })
        } else {
            None
        }
    }

    fn syntax(self) -> (r: SyntaxNodeRef<'a>) {
        self.syntax
    }
}

impl<'a> NameOwner<'a> for TypeDef<'a> {
    fn name(&self) -> (r: Option<Name<'a>>) {
        match first_child_of_kind(&self.syntax, SyntaxKind::NAME) {
            Some(c) => Some(Name { syntax: c }),
            None => None,
        }
    }
}

impl<'a> TypeParamsOwner<'a> for TypeDef<'a> {
    fn type_param_list(&self) -> (r: Option<TypeParamList<'a>>) {
        match first_child_of_kind(&self.syntax, SyntaxKind::TYPE_PARAM_LIST) {
            Some(c) => Some(TypeParamList { syntax: c }),
            None => None,
        }
    }

    fn where_clause(&self) -> (r: Option<WhereClause<'a>>) {
        match first_child_of_kind(&self.syntax, SyntaxKind::WHERE_CLAUSE) {
            Some(c) => Some(WhereClause { syntax: c }),
            None => None,
        }
    }
}

/// A typed view of one `TYPE_PARAM` node.
pub struct TypeParam<'a> {
    pub(in crate::ast) syntax: SyntaxNodeRef<'a>,
}

impl<'a> AstNode<'a> for TypeParam<'a> {
    open spec fn kind_set(k: SyntaxKind) -> bool {
        k == SyntaxKind::TYPE_PARAM
    }

    closed spec fn node_spec(&self) -> SyntaxNodeRef<'a> {
        self.syntax
    }

    closed spec fn variant_kind_spec(&self) -> SyntaxKind {
        SyntaxKind::TYPE_PARAM
    }

    fn cast(syntax: SyntaxNodeRef<'a>) -> (r: Option<Self>) {
        if syntax.kind() == SyntaxKind::TYPE_PARAM {
            Some(TypeParam { syntax })
        } else {
            None
        }
    }

    fn syntax(self) -> (r: SyntaxNodeRef<'a>) {
        self.syntax
    }
}

impl<'a> NameOwner<'a> for TypeParam<'a> {
    fn name(&self) -> (r: Option<Name<'a>>) {
        match first_child_of_kind(&self.syntax, SyntaxKind::NAME) {
            Some(c) => Some(Name { syntax: c }),
            None => None,
        }
    }
}

/// A typed view of one `TYPE_PARAM_LIST` node.
pub struct TypeParamList<'a> {
    pub(in crate::ast) syntax: SyntaxNodeRef<'a>,
}

impl<'a> AstNode<'a> for TypeParamList<'a> {
    open spec fn kind_set(k: SyntaxKind) -> bool {
        k == SyntaxKind::TYPE_PARAM_LIST
    }

    closed spec fn node_spec(&self) -> SyntaxNodeRef<'a> {
        self.syntax
    }

    closed spec fn variant_kind_spec(&self) -> SyntaxKind {
        SyntaxKind::TYPE_PARAM_LIST
    }

    fn cast(syntax: SyntaxNodeRef<'a>) -> (r: Option<Self>) {
        if syntax.kind() == SyntaxKind::TYPE_PARAM_LIST {
            Some(TypeParamList { syntax })
        } else {
            None
        }
    }

    fn syntax(self) -> (r: SyntaxNodeRef<'a>) {
        self.syntax
    }
}

/// A typed view of one `WHERE_CLAUSE` node.
pub struct WhereClause<'a> {
    pub(in crate::ast) syntax: SyntaxNodeRef<'a>,
}

impl<'a> AstNode<'a> for WhereClause<'a> {
    open spec fn kind_set(k: SyntaxKind) -> bool {
        k == SyntaxKind::WHERE_CLAUSE
    }

    closed spec fn node_spec(&self) -> SyntaxNodeRef<'a> {
        self.syntax
    }

    closed spec fn variant_kind_spec(&self) -> SyntaxKind {
        SyntaxKind::WHERE_CLAUSE
    }

    fn cast(syntax: SyntaxNodeRef<'a>) -> (r: Option<Self>) {
        if syntax.kind() == SyntaxKind::WHERE_CLAUSE {
            Some(WhereClause { syntax })
        } else {
            None
        }
    }

    fn syntax(self) -> (r: SyntaxNodeRef<'a>) {
        self.syntax
    }
}

/// A typed view of one `WHILE_EXPR` node.
pub struct WhileExpr<'a> {
    pub(in crate::ast) syntax: SyntaxNodeRef<'a>,
}

impl<'a> AstNode<'a> for WhileExpr<'a> {
    open spec fn kind_set(k: SyntaxKind) -> bool {
        k == SyntaxKind::WHILE_EXPR
    }

    closed spec fn node_spec(&self) -> SyntaxNodeRef<'a> {
        self.syntax
    }

    closed spec fn variant_kind_spec(&self) -> SyntaxKind {
        SyntaxKind::WHILE_EXPR
    }

    fn cast(syntax: SyntaxNodeRef<'a>) -> (r: Option<Self>) {
        if syntax.kind() == SyntaxKind::WHILE_EXPR {
            Some(WhileExpr { syntax })
        } else {
            None
        }
    }

    fn syntax(self) -> (r: SyntaxNodeRef<'a>) {
        self.syntax
    }
}

/// Wraps already-checked `ATTR` nodes into their typed views.
fn wrap_attr_nodes<'a>(vs: Vec<SyntaxNodeRef<'a>>) -> (r: Vec<Attr<'a>>)
    ensures
        r@.len() == vs@.len(),
        forall|m: int|
            0 <= m < vs@.len() ==> {
                &&& (#[trigger] r@[m]).node_spec().path_spec() == vs@[m].path_spec()
                &&& r@[m].node_spec().green_root_spec() == vs@[m].green_root_spec()
                &&& r@[m].node_spec().errors_spec() == vs@[m].errors_spec()
            },
{
    let mut r: Vec<Attr<'a>> = Vec::new();
    let mut m: usize = 0;
    while m < vs.len()
        invariant
            m <= vs@.len(),
            r@.len() == m,
            forall|q: int|
                0 <= q < m ==> {
                    &&& (#[trigger] r@[q]).node_spec().path_spec() == vs@[q].path_spec()
                    &&& r@[q].node_spec().green_root_spec() == vs@[q].green_root_spec()
                    &&& r@[q].node_spec().errors_spec() == vs@[q].errors_spec()
                },
        decreases vs@.len() - m,
    {
        r.push(Attr { syntax: vs[m].duplicate() });
        m += 1;
    }
    r
}

/// Wraps already-checked `FN_DEF` nodes into their typed views.
fn wrap_fn_def_nodes<'a>(vs: Vec<SyntaxNodeRef<'a>>) -> (r: Vec<FnDef<'a>>)
    ensures
        r@.len() == vs@.len(),
        forall|m: int|
            0 <= m < vs@.len() ==> {
                &&& (#[trigger] r@[m]).node_spec().path_spec() == vs@[m].path_spec()
                &&& r@[m].node_spec().green_root_spec() == vs@[m].green_root_spec()
                &&& r@[m].node_spec().errors_spec() == vs@[m].errors_spec()
            },
{
    let mut r: Vec<FnDef<'a>> = Vec::new();
    let mut m: usize = 0;
    while m < vs.len()
        invariant
            m <= vs@.len(),
            r@.len() == m,
            forall|q: int|
                0 <= q < m ==> {
                    &&& (#[trigger] r@[q]).node_spec().path_spec() == vs@[q].path_spec()
                    &&& r@[q].node_spec().green_root_spec() == vs@[q].green_root_spec()
                    &&& r@[q].node_spec().errors_spec() == vs@[q].errors_spec()
                },
        decreases vs@.len() - m,
    {
        r.push(FnDef { syntax: vs[m].duplicate() });
        m += 1;
    }
    r
}

/// Wraps already-checked `MODULE` nodes into their typed views.
fn wrap_module_nodes<'a>(vs: Vec<SyntaxNodeRef<'a>>) -> (r: Vec<Module<'a>>)
    ensures
        r@.len() == vs@.len(),
        forall|m: int|
            0 <= m < vs@.len() ==> {
                &&& (#[trigger] r@[m]).node_spec().path_spec() == vs@[m].path_spec()
                &&& r@[m].node_spec().green_root_spec() == vs@[m].green_root_spec()
                &&& r@[m].node_spec().errors_spec() == vs@[m].errors_spec()
            },
{
    let mut r: Vec<Module<'a>> = Vec::new();
    let mut m: usize = 0;
    while m < vs.len()
        invariant
            m <= vs@.len(),
            r@.len() == m,
            forall|q: int|
                0 <= q < m ==> {
                    &&& (#[trigger] r@[q]).node_spec().path_spec() == vs@[q].path_spec()
                    &&& r@[q].node_spec().green_root_spec() == vs@[q].green_root_spec()
                    &&& r@[q].node_spec().errors_spec() == vs@[q].errors_spec()
                },
        decreases vs@.len() - m,
    {
        r.push(Module { syntax: vs[m].duplicate() });
        m += 1;
    }
    r
}

/// Wraps already-checked `NAMED_FIELD_DEF` nodes into their typed views.
fn wrap_named_field_def_nodes<'a>(vs: Vec<SyntaxNodeRef<'a>>) -> (r: Vec<NamedFieldDef<'a>>)
    ensures
        r@.len() == vs@.len(),
        forall|m: int|
            0 <= m < vs@.len() ==> {
                &&& (#[trigger] r@[m]).node_spec().path_spec() == vs@[m].path_spec()
                &&& r@[m].node_spec().green_root_spec() == vs@[m].green_root_spec()
                &&& r@[m].node_spec().errors_spec() == vs@[m].errors_spec()
            },
{
    let mut r: Vec<NamedFieldDef<'a>> = Vec::new();
    let mut m: usize = 0;
    while m < vs.len()
        invariant
            m <= vs@.len(),
            r@.len() == m,
            forall|q: int|
                0 <= q < m ==> {
                    &&& (#[trigger] r@[q]).node_spec().path_spec() == vs@[q].path_spec()
                    &&& r@[q].node_spec().green_root_spec() == vs@[q].green_root_spec()
                    &&& r@[q].node_spec().errors_spec() == vs@[q].errors_spec()
                },
        decreases vs@.len() - m,
    {
        r.push(NamedFieldDef { syntax: vs[m].duplicate() });
        m += 1;
    }
    r
}

/// Wraps already-checked `TYPE_PARAM` nodes into their typed views.
fn wrap_type_param_nodes<'a>(vs: Vec<SyntaxNodeRef<'a>>) -> (r: Vec<TypeParam<'a>>)
    ensures
        r@.len() == vs@.len(),
        forall|m: int|
            0 <= m < vs@.len() ==> {
                &&& (#[trigger] r@[m]).node_spec().path_spec() == vs@[m].path_spec()
                &&& r@[m].node_spec().green_root_spec() == vs@[m].green_root_spec()
                &&& r@[m].node_spec().errors_spec() == vs@[m].errors_spec()
            },
{
    let mut r: Vec<TypeParam<'a>> = Vec::new();
    let mut m: usize = 0;
    while m < vs.len()
        invariant
            m <= vs@.len(),
            r@.len() == m,
            forall|q: int|
                0 <= q < m ==> {
                    &&& (#[trigger] r@[q]).node_spec().path_spec() == vs@[q].path_spec()
                    &&& r@[q].node_spec().green_root_spec() == vs@[q].green_root_spec()
                    &&& r@[q].node_spec().errors_spec() == vs@[q].errors_spec()
                },
        decreases vs@.len() - m,
    {
        r.push(TypeParam { syntax: vs[m].duplicate() });
        m += 1;
    }
    r
}

impl<'a> Root<'a> {
    /// Every function defined directly in this file.
    pub fn functions(&self) -> (r: Vec<FnDef<'a>>)
        requires
            self.node_spec().wf(),
        ensures
            forall|m: int|
                0 <= m < r@.len() ==> {
                    &&& (#[trigger] r@[m]).node_spec().wf()
                    &&& r@[m].node_spec().same_tree(self.node_spec())
                    &&& exists|i: usize|
                        {
                            &&& i < crate::ast::num_children_of(self.node_spec().node_spec())
                            &&& crate::ast::child_kind(self.node_spec().node_spec(), i as int)
                                == SyntaxKind::FN_DEF
                            &&& r@[m].node_spec().path_spec() == self.node_spec().path_spec().push(
                                i,
                            )
                        }
                },
            forall|i: usize|
                i < crate::ast::num_children_of(self.node_spec().node_spec())
                    && #[trigger] crate::ast::child_kind(self.node_spec().node_spec(), i as int)
                    == SyntaxKind::FN_DEF ==> exists|m: int|
                    0 <= m < r@.len() && (#[trigger] r@[m]).node_spec().path_spec()
                        == self.node_spec().path_spec().push(i),
            forall|m1: int, m2: int|
                0 <= m1 < m2 < r@.len() ==> (#[trigger] r@[m1]).node_spec().path_spec().last() < (
                #[trigger] r@[m2]).node_spec().path_spec().last(),
    {
        let vs = children_of_kind(&self.syntax, SyntaxKind::FN_DEF);
        let ghost gvs = vs@;
        let r = wrap_fn_def_nodes(vs);
        proof {
            assert forall|m: int| 0 <= m < r@.len() implies {
                &&& (#[trigger] r@[m]).node_spec().wf()
                &&& r@[m].node_spec().same_tree(self.node_spec())
                &&& exists|i: usize|
                    {
                        &&& i < crate::ast::num_children_of(self.node_spec().node_spec())
                        &&& crate::ast::child_kind(self.node_spec().node_spec(), i as int)
                            == SyntaxKind::FN_DEF
                        &&& r@[m].node_spec().path_spec() == self.node_spec().path_spec().push(i)
                    }
            } by {
                let q = choose|q: usize|
                    {
                        &&& q < crate::ast::num_children_of(self.node_spec().node_spec())
                        &&& crate::ast::child_kind(self.node_spec().node_spec(), q as int)
                            == SyntaxKind::FN_DEF
                        &&& gvs[m].path_spec() == self.node_spec().path_spec().push(q)
                    };
                assert(r@[m].node_spec().path_spec() == self.node_spec().path_spec().push(q));
            }
            assert forall|i: usize|
                i < crate::ast::num_children_of(self.node_spec().node_spec())
                    && #[trigger] crate::ast::child_kind(self.node_spec().node_spec(), i as int)
                    == SyntaxKind::FN_DEF implies exists|m: int|
                0 <= m < r@.len() && (#[trigger] r@[m]).node_spec().path_spec()
                    == self.node_spec().path_spec().push(i) by {
                let m0 = choose|m: int|
                    0 <= m < gvs.len() && (#[trigger] gvs[m]).path_spec()
                        == self.node_spec().path_spec().push(i);
                assert(r@[m0].node_spec().path_spec() == self.node_spec().path_spec().push(i));
            }
            assert forall|m1: int, m2: int|
                0 <= m1 < m2 < r@.len() implies (#[trigger] r@[m1]).node_spec().path_spec().last()
                < (#[trigger] r@[m2]).node_spec().path_spec().last() by {
                assert(r@[m1].node_spec().path_spec() == gvs[m1].path_spec());
                assert(r@[m2].node_spec().path_spec() == gvs[m2].path_spec());
                assert(gvs[m1].path_spec().last() < gvs[m2].path_spec().last());
            }
        }
        r
    }
}

impl<'a> Root<'a> {
    /// Every module declared directly in this file.
    pub fn modules(&self) -> (r: Vec<Module<'a>>)
        requires
            self.node_spec().wf(),
        ensures
            forall|m: int|
                0 <= m < r@.len() ==> {
                    &&& (#[trigger] r@[m]).node_spec().wf()
                    &&& r@[m].node_spec().same_tree(self.node_spec())
                    &&& exists|i: usize|
                        {
                            &&& i < crate::ast::num_children_of(self.node_spec().node_spec())
                            &&& crate::ast::child_kind(self.node_spec().node_spec(), i as int)
                                == SyntaxKind::MODULE
                            &&& r@[m].node_spec().path_spec() == self.node_spec().path_spec().push(
                                i,
                            )
                        }
                },
            forall|i: usize|
                i < crate::ast::num_children_of(self.node_spec().node_spec())
                    && #[trigger] crate::ast::child_kind(self.node_spec().node_spec(), i as int)
                    == SyntaxKind::MODULE ==> exists|m: int|
                    0 <= m < r@.len() && (#[trigger] r@[m]).node_spec().path_spec()
                        == self.node_spec().path_spec().push(i),
            forall|m1: int, m2: int|
                0 <= m1 < m2 < r@.len() ==> (#[trigger] r@[m1]).node_spec().path_spec().last() < (
                #[trigger] r@[m2]).node_spec().path_spec().last(),
    {
        let vs = children_of_kind(&self.syntax, SyntaxKind::MODULE);
        let ghost gvs = vs@;
        let r = wrap_module_nodes(vs);
        proof {
            assert forall|m: int| 0 <= m < r@.len() implies {
                &&& (#[trigger] r@[m]).node_spec().wf()
                &&& r@[m].node_spec().same_tree(self.node_spec())
                &&& exists|i: usize|
                    {
                        &&& i < crate::ast::num_children_of(self.node_spec().node_spec())
                        &&& crate::ast::child_kind(self.node_spec().node_spec(), i as int)
                            == SyntaxKind::MODULE
                        &&& r@[m].node_spec().path_spec() == self.node_spec().path_spec().push(i)
                    }
            } by {
                let q = choose|q: usize|
                    {
                        &&& q < crate::ast::num_children_of(self.node_spec().node_spec())
                        &&& crate::ast::child_kind(self.node_spec().node_spec(), q as int)
                            == SyntaxKind::MODULE
                        &&& gvs[m].path_spec() == self.node_spec().path_spec().push(q)
                    };
                assert(r@[m].node_spec().path_spec() == self.node_spec().path_spec().push(q));
            }
            assert forall|i: usize|
                i < crate::ast::num_children_of(self.node_spec().node_spec())
                    && #[trigger] crate::ast::child_kind(self.node_spec().node_spec(), i as int)
                    == SyntaxKind::MODULE implies exists|m: int|
                0 <= m < r@.len() && (#[trigger] r@[m]).node_spec().path_spec()
                    == self.node_spec().path_spec().push(i) by {
                let m0 = choose|m: int|
                    0 <= m < gvs.len() && (#[trigger] gvs[m]).path_spec()
                        == self.node_spec().path_spec().push(i);
                assert(r@[m0].node_spec().path_spec() == self.node_spec().path_spec().push(i));
            }
            assert forall|m1: int, m2: int|
                0 <= m1 < m2 < r@.len() implies (#[trigger] r@[m1]).node_spec().path_spec().last()
                < (#[trigger] r@[m2]).node_spec().path_spec().last() by {
                assert(r@[m1].node_spec().path_spec() == gvs[m1].path_spec());
                assert(r@[m2].node_spec().path_spec() == gvs[m2].path_spec());
                assert(gvs[m1].path_spec().last() < gvs[m2].path_spec().last());
            }
        }
        r
    }
}

impl<'a> Module<'a> {
    /// Every module declared directly inside this one.
    pub fn modules(&self) -> (r: Vec<Module<'a>>)
        requires
            self.node_spec().wf(),
        ensures
            forall|m: int|
                0 <= m < r@.len() ==> {
                    &&& (#[trigger] r@[m]).node_spec().wf()
                    &&& r@[m].node_spec().same_tree(self.node_spec())
                    &&& exists|i: usize|
                        {
                            &&& i < crate::ast::num_children_of(self.node_spec().node_spec())
                            &&& crate::ast::child_kind(self.node_spec().node_spec(), i as int)
                                == SyntaxKind::MODULE
                            &&& r@[m].node_spec().path_spec() == self.node_spec().path_spec().push(
                                i,
                            )
                        }
                },
            forall|i: usize|
                i < crate::ast::num_children_of(self.node_spec().node_spec())
                    && #[trigger] crate::ast::child_kind(self.node_spec().node_spec(), i as int)
                    == SyntaxKind::MODULE ==> exists|m: int|
                    0 <= m < r@.len() && (#[trigger] r@[m]).node_spec().path_spec()
                        == self.node_spec().path_spec().push(i),
            forall|m1: int, m2: int|
                0 <= m1 < m2 < r@.len() ==> (#[trigger] r@[m1]).node_spec().path_spec().last() < (
                #[trigger] r@[m2]).node_spec().path_spec().last(),
    {
        let vs = children_of_kind(&self.syntax, SyntaxKind::MODULE);
        let ghost gvs = vs@;
        let r = wrap_module_nodes(vs);
        proof {
            assert forall|m: int| 0 <= m < r@.len() implies {
                &&& (#[trigger] r@[m]).node_spec().wf()
                &&& r@[m].node_spec().same_tree(self.node_spec())
                &&& exists|i: usize|
                    {
                        &&& i < crate::ast::num_children_of(self.node_spec().node_spec())
                        &&& crate::ast::child_kind(self.node_spec().node_spec(), i as int)
                            == SyntaxKind::MODULE
                        &&& r@[m].node_spec().path_spec() == self.node_spec().path_spec().push(i)
                    }
            } by {
                let q = choose|q: usize|
                    {
                        &&& q < crate::ast::num_children_of(self.node_spec().node_spec())
                        &&& crate::ast::child_kind(self.node_spec().node_spec(), q as int)
                            == SyntaxKind::MODULE
                        &&& gvs[m].path_spec() == self.node_spec().path_spec().push(q)
                    };
                assert(r@[m].node_spec().path_spec() == self.node_spec().path_spec().push(q));
            }
            assert forall|i: usize|
                i < crate::ast::num_children_of(self.node_spec().node_spec())
                    && #[trigger] crate::ast::child_kind(self.node_spec().node_spec(), i as int)
                    == SyntaxKind::MODULE implies exists|m: int|
                0 <= m < r@.len() && (#[trigger] r@[m]).node_spec().path_spec()
                    == self.node_spec().path_spec().push(i) by {
                let m0 = choose|m: int|
                    0 <= m < gvs.len() && (#[trigger] gvs[m]).path_spec()
                        == self.node_spec().path_spec().push(i);
                assert(r@[m0].node_spec().path_spec() == self.node_spec().path_spec().push(i));
            }
            assert forall|m1: int, m2: int|
                0 <= m1 < m2 < r@.len() implies (#[trigger] r@[m1]).node_spec().path_spec().last()
                < (#[trigger] r@[m2]).node_spec().path_spec().last() by {
                assert(r@[m1].node_spec().path_spec() == gvs[m1].path_spec());
                assert(r@[m2].node_spec().path_spec() == gvs[m2].path_spec());
                assert(gvs[m1].path_spec().last() < gvs[m2].path_spec().last());
            }
        }
        r
    }
}

impl<'a> StructDef<'a> {
    /// Every field defined directly under this node.
    pub fn fields(&self) -> (r: Vec<NamedFieldDef<'a>>)
        requires
            self.node_spec().wf(),
        ensures
            forall|m: int|
                0 <= m < r@.len() ==> {
                    &&& (#[trigger] r@[m]).node_spec().wf()
                    &&& r@[m].node_spec().same_tree(self.node_spec())
                    &&& exists|i: usize|
                        {
                            &&& i < crate::ast::num_children_of(self.node_spec().node_spec())
                            &&& crate::ast::child_kind(self.node_spec().node_spec(), i as int)
                                == SyntaxKind::NAMED_FIELD_DEF
                            &&& r@[m].node_spec().path_spec() == self.node_spec().path_spec().push(
                                i,
                            )
                        }
                },
            forall|i: usize|
                i < crate::ast::num_children_of(self.node_spec().node_spec())
                    && #[trigger] crate::ast::child_kind(self.node_spec().node_spec(), i as int)
                    == SyntaxKind::NAMED_FIELD_DEF ==> exists|m: int|
                    0 <= m < r@.len() && (#[trigger] r@[m]).node_spec().path_spec()
                        == self.node_spec().path_spec().push(i),
            forall|m1: int, m2: int|
                0 <= m1 < m2 < r@.len() ==> (#[trigger] r@[m1]).node_spec().path_spec().last() < (
                #[trigger] r@[m2]).node_spec().path_spec().last(),
    {
        let vs = children_of_kind(&self.syntax, SyntaxKind::NAMED_FIELD_DEF);
        let ghost gvs = vs@;
        let r = wrap_named_field_def_nodes(vs);
        proof {
            assert forall|m: int| 0 <= m < r@.len() implies {
                &&& (#[trigger] r@[m]).node_spec().wf()
                &&& r@[m].node_spec().same_tree(self.node_spec())
                &&& exists|i: usize|
                    {
                        &&& i < crate::ast::num_children_of(self.node_spec().node_spec())
                        &&& crate::ast::child_kind(self.node_spec().node_spec(), i as int)
                            == SyntaxKind::NAMED_FIELD_DEF
                        &&& r@[m].node_spec().path_spec() == self.node_spec().path_spec().push(i)
                    }
            } by {
                let q = choose|q: usize|
                    {
                        &&& q < crate::ast::num_children_of(self.node_spec().node_spec())
                        &&& crate::ast::child_kind(self.node_spec().node_spec(), q as int)
                            == SyntaxKind::NAMED_FIELD_DEF
                        &&& gvs[m].path_spec() == self.node_spec().path_spec().push(q)
                    };
                assert(r@[m].node_spec().path_spec() == self.node_spec().path_spec().push(q));
            }
            assert forall|i: usize|
                i < crate::ast::num_children_of(self.node_spec().node_spec())
                    && #[trigger] crate::ast::child_kind(self.node_spec().node_spec(), i as int)
                    == SyntaxKind::NAMED_FIELD_DEF implies exists|m: int|
                0 <= m < r@.len() && (#[trigger] r@[m]).node_spec().path_spec()
                    == self.node_spec().path_spec().push(i) by {
                let m0 = choose|m: int|
                    0 <= m < gvs.len() && (#[trigger] gvs[m]).path_spec()
                        == self.node_spec().path_spec().push(i);
                assert(r@[m0].node_spec().path_spec() == self.node_spec().path_spec().push(i));
            }
            assert forall|m1: int, m2: int|
                0 <= m1 < m2 < r@.len() implies (#[trigger] r@[m1]).node_spec().path_spec().last()
                < (#[trigger] r@[m2]).node_spec().path_spec().last() by {
                assert(r@[m1].node_spec().path_spec() == gvs[m1].path_spec());
                assert(r@[m2].node_spec().path_spec() == gvs[m2].path_spec());
                assert(gvs[m1].path_spec().last() < gvs[m2].path_spec().last());
            }
        }
        r
    }
}

impl<'a> TypeParamList<'a> {
    /// Every type parameter of this list.
    pub fn type_params(&self) -> (r: Vec<TypeParam<'a>>)
        requires
            self.node_spec().wf(),
        ensures
            forall|m: int|
                0 <= m < r@.len() ==> {
                    &&& (#[trigger] r@[m]).node_spec().wf()
                    &&& r@[m].node_spec().same_tree(self.node_spec())
                    &&& exists|i: usize|
                        {
                            &&& i < crate::ast::num_children_of(self.node_spec().node_spec())
                            &&& crate::ast::child_kind(self.node_spec().node_spec(), i as int)
                                == SyntaxKind::TYPE_PARAM
                            &&& r@[m].node_spec().path_spec() == self.node_spec().path_spec().push(
                                i,
                            )
                        }
                },
            forall|i: usize|
                i < crate::ast::num_children_of(self.node_spec().node_spec())
                    && #[trigger] crate::ast::child_kind(self.node_spec().node_spec(), i as int)
                    == SyntaxKind::TYPE_PARAM ==> exists|m: int|
                    0 <= m < r@.len() && (#[trigger] r@[m]).node_spec().path_spec()
                        == self.node_spec().path_spec().push(i),
            forall|m1: int, m2: int|
                0 <= m1 < m2 < r@.len() ==> (#[trigger] r@[m1]).node_spec().path_spec().last() < (
                #[trigger] r@[m2]).node_spec().path_spec().last(),
    {
        let vs = children_of_kind(&self.syntax, SyntaxKind::TYPE_PARAM);
        let ghost gvs = vs@;
        let r = wrap_type_param_nodes(vs);
        proof {
            assert forall|m: int| 0 <= m < r@.len() implies {
                &&& (#[trigger] r@[m]).node_spec().wf()
                &&& r@[m].node_spec().same_tree(self.node_spec())
                &&& exists|i: usize|
                    {
                        &&& i < crate::ast::num_children_of(self.node_spec().node_spec())
                        &&& crate::ast::child_kind(self.node_spec().node_spec(), i as int)
                            == SyntaxKind::TYPE_PARAM
                        &&& r@[m].node_spec().path_spec() == self.node_spec().path_spec().push(i)
                    }
            } by {
                let q = choose|q: usize|
                    {
                        &&& q < crate::ast::num_children_of(self.node_spec().node_spec())
                        &&& crate::ast::child_kind(self.node_spec().node_spec(), q as int)
                            == SyntaxKind::TYPE_PARAM
                        &&& gvs[m].path_spec() == self.node_spec().path_spec().push(q)
                    };
                assert(r@[m].node_spec().path_spec() == self.node_spec().path_spec().push(q));
            }
            assert forall|i: usize|
                i < crate::ast::num_children_of(self.node_spec().node_spec())
                    && #[trigger] crate::ast::child_kind(self.node_spec().node_spec(), i as int)
                    == SyntaxKind::TYPE_PARAM implies exists|m: int|
                0 <= m < r@.len() && (#[trigger] r@[m]).node_spec().path_spec()
                    == self.node_spec().path_spec().push(i) by {
                let m0 = choose|m: int|
                    0 <= m < gvs.len() && (#[trigger] gvs[m]).path_spec()
                        == self.node_spec().path_spec().push(i);
                assert(r@[m0].node_spec().path_spec() == self.node_spec().path_spec().push(i));
            }
            assert forall|m1: int, m2: int|
                0 <= m1 < m2 < r@.len() implies (#[trigger] r@[m1]).node_spec().path_spec().last()
                < (#[trigger] r@[m2]).node_spec().path_spec().last() by {
                assert(r@[m1].node_spec().path_spec() == gvs[m1].path_spec());
                assert(r@[m2].node_spec().path_spec() == gvs[m2].path_spec());
                assert(gvs[m1].path_spec().last() < gvs[m2].path_spec().last());
            }
        }
        r
    }
}

impl<'a> Attr<'a> {
    /// The attribute's token-tree payload: the first `TOKEN_TREE` among
    /// direct children, if one is present.
    pub fn value(&self) -> (r: Option<TokenTree<'a>>)
        requires
            self.node_spec().wf(),
        ensures
            r is None ==> forall|i: int|
                0 <= i < crate::ast::num_children_of(self.node_spec().node_spec())
                    ==> #[trigger] crate::ast::child_kind(self.node_spec().node_spec(), i)
                    != SyntaxKind::TOKEN_TREE,
            r matches Some(w) ==> {
                &&& w.node_spec().wf()
                &&& w.node_spec().same_tree(self.node_spec())
                &&& exists|i: usize|
                    {
                        &&& i < crate::ast::num_children_of(self.node_spec().node_spec())
                        &&& crate::ast::child_kind(self.node_spec().node_spec(), i as int)
                            == SyntaxKind::TOKEN_TREE
                        &&& w.node_spec().path_spec() == self.node_spec().path_spec().push(i)
                        &&& forall|j: int|
                            0 <= j < i ==> #[trigger] crate::ast::child_kind(
                                self.node_spec().node_spec(),
                                j,
                            ) != SyntaxKind::TOKEN_TREE
                    }
            },
    {
        match first_child_of_kind(&self.syntax, SyntaxKind::TOKEN_TREE) {
            Some(c) => Some(TokenTree { syntax: c }),
            None => None,
        }
    }
}

/// A closed union over every expression-position node shape.
pub enum Expr<'a> {
    TupleExpr(TupleExpr<'a>),
    ArrayExpr(ArrayExpr<'a>),
    ParenExpr(ParenExpr<'a>),
    PathExpr(PathExpr<'a>),
    LambdaExpr(LambdaExpr<'a>),
    IfExpr(IfExpr<'a>),
    LoopExpr(LoopExpr<'a>),
    ForExpr(ForExpr<'a>),
    WhileExpr(WhileExpr<'a>),
    ContinueExpr(ContinueExpr<'a>),
    BreakExpr(BreakExpr<'a>),
    Label(Label<'a>),
    BlockExpr(BlockExpr<'a>),
    ReturnExpr(ReturnExpr<'a>),
    MatchExpr(MatchExpr<'a>),
    MatchArmList(MatchArmList<'a>),
    MatchArm(MatchArm<'a>),
    MatchGuard(MatchGuard<'a>),
    StructLit(StructLit<'a>),
    NamedFieldList(NamedFieldList<'a>),
    NamedField(NamedField<'a>),
    CallExpr(CallExpr<'a>),
    IndexExpr(IndexExpr<'a>),
    MethodCallExpr(MethodCallExpr<'a>),
    FieldExpr(FieldExpr<'a>),
    TryExpr(TryExpr<'a>),
    CastExpr(CastExpr<'a>),
    RefExpr(RefExpr<'a>),
    PrefixExpr(PrefixExpr<'a>),
    RangeExpr(RangeExpr<'a>),
    BinExpr(BinExpr<'a>),
}

/// The closed set of kinds usable at this grammar position.
pub open spec fn expr_kind(k: SyntaxKind) -> bool {
    k == SyntaxKind::TUPLE_EXPR || k == SyntaxKind::ARRAY_EXPR || k == SyntaxKind::PAREN_EXPR || k == SyntaxKind::PATH_EXPR || k == SyntaxKind::LAMBDA_EXPR || k == SyntaxKind::IF_EXPR || k == SyntaxKind::LOOP_EXPR || k == SyntaxKind::FOR_EXPR || k == SyntaxKind::WHILE_EXPR || k == SyntaxKind::CONTINUE_EXPR || k == SyntaxKind::BREAK_EXPR || k == SyntaxKind::LABEL || k == SyntaxKind::BLOCK_EXPR || k == SyntaxKind::RETURN_EXPR || k == SyntaxKind::MATCH_EXPR || k == SyntaxKind::MATCH_ARM_LIST || k == SyntaxKind::MATCH_ARM || k == SyntaxKind::MATCH_GUARD || k == SyntaxKind::STRUCT_LIT || k == SyntaxKind::NAMED_FIELD_LIST || k == SyntaxKind::NAMED_FIELD || k == SyntaxKind::CALL_EXPR || k == SyntaxKind::INDEX_EXPR || k == SyntaxKind::METHOD_CALL_EXPR || k == SyntaxKind::FIELD_EXPR || k == SyntaxKind::TRY_EXPR || k == SyntaxKind::CAST_EXPR || k == SyntaxKind::REF_EXPR || k == SyntaxKind::PREFIX_EXPR || k == SyntaxKind::RANGE_EXPR || k == SyntaxKind::BIN_EXPR
}

impl<'a> AstNode<'a> for Expr<'a> {
    open spec fn kind_set(k: SyntaxKind) -> bool {
        expr_kind(k)
    }

    closed spec fn node_spec(&self) -> SyntaxNodeRef<'a> {
        match self {
            Expr::TupleExpr(inner) => inner.node_spec(),
            Expr::ArrayExpr(inner) => inner.node_spec(),
            Expr::ParenExpr(inner) => inner.node_spec(),
            Expr::PathExpr(inner) => inner.node_spec(),
            Expr::LambdaExpr(inner) => inner.node_spec(),
            Expr::IfExpr(inner) => inner.node_spec(),
            Expr::LoopExpr(inner) => inner.node_spec(),
            Expr::ForExpr(inner) => inner.node_spec(),
            Expr::WhileExpr(inner) => inner.node_spec(),
            Expr::ContinueExpr(inner) => inner.node_spec(),
            Expr::BreakExpr(inner) => inner.node_spec(),
            Expr::Label(inner) => inner.node_spec(),
            Expr::BlockExpr(inner) => inner.node_spec(),
            Expr::ReturnExpr(inner) => inner.node_spec(),
            Expr::MatchExpr(inner) => inner.node_spec(),
            Expr::MatchArmList(inner) => inner.node_spec(),
            Expr::MatchArm(inner) => inner.node_spec(),
            Expr::MatchGuard(inner) => inner.node_spec(),
            Expr::StructLit(inner) => inner.node_spec(),
            Expr::NamedFieldList(inner) => inner.node_spec(),
            Expr::NamedField(inner) => inner.node_spec(),
            Expr::CallExpr(inner) => inner.node_spec(),
            Expr::IndexExpr(inner) => inner.node_spec(),
            Expr::MethodCallExpr(inner) => inner.node_spec(),
            Expr::FieldExpr(inner) => inner.node_spec(),
            Expr::TryExpr(inner) => inner.node_spec(),
            Expr::CastExpr(inner) => inner.node_spec(),
            Expr::RefExpr(inner) => inner.node_spec(),
            Expr::PrefixExpr(inner) => inner.node_spec(),
            Expr::RangeExpr(inner) => inner.node_spec(),
            Expr::BinExpr(inner) => inner.node_spec(),
        }
    }

    closed spec fn variant_kind_spec(&self) -> SyntaxKind {
        match self {
            Expr::TupleExpr(_) => SyntaxKind::TUPLE_EXPR,
            Expr::ArrayExpr(_) => SyntaxKind::ARRAY_EXPR,
            Expr::ParenExpr(_) => SyntaxKind::PAREN_EXPR,
            Expr::PathExpr(_) => SyntaxKind::PATH_EXPR,
            Expr::LambdaExpr(_) => SyntaxKind::LAMBDA_EXPR,
            Expr::IfExpr(_) => SyntaxKind::IF_EXPR,
            Expr::LoopExpr(_) => SyntaxKind::LOOP_EXPR,
            Expr::ForExpr(_) => SyntaxKind::FOR_EXPR,
            Expr::WhileExpr(_) => SyntaxKind::WHILE_EXPR,
            Expr::ContinueExpr(_) => SyntaxKind::CONTINUE_EXPR,
            Expr::BreakExpr(_) => SyntaxKind::BREAK_EXPR,
            Expr::Label(_) => SyntaxKind::LABEL,
            Expr::BlockExpr(_) => SyntaxKind::BLOCK_EXPR,
            Expr::ReturnExpr(_) => SyntaxKind::RETURN_EXPR,
            Expr::MatchExpr(_) => SyntaxKind::MATCH_EXPR,
            Expr::MatchArmList(_) => SyntaxKind::MATCH_ARM_LIST,
            Expr::MatchArm(_) => SyntaxKind::MATCH_ARM,
            Expr::MatchGuard(_) => SyntaxKind::MATCH_GUARD,
            Expr::StructLit(_) => SyntaxKind::STRUCT_LIT,
            Expr::NamedFieldList(_) => SyntaxKind::NAMED_FIELD_LIST,
            Expr::NamedField(_) => SyntaxKind::NAMED_FIELD,
            Expr::CallExpr(_) => SyntaxKind::CALL_EXPR,
            Expr::IndexExpr(_) => SyntaxKind::INDEX_EXPR,
            Expr::MethodCallExpr(_) => SyntaxKind::METHOD_CALL_EXPR,
            Expr::FieldExpr(_) => SyntaxKind::FIELD_EXPR,
            Expr::TryExpr(_) => SyntaxKind::TRY_EXPR,
            Expr::CastExpr(_) => SyntaxKind::CAST_EXPR,
            Expr::RefExpr(_) => SyntaxKind::REF_EXPR,
            Expr::PrefixExpr(_) => SyntaxKind::PREFIX_EXPR,
            Expr::RangeExpr(_) => SyntaxKind::RANGE_EXPR,
            Expr::BinExpr(_) => SyntaxKind::BIN_EXPR,
        }
    }

    fn cast(syntax: SyntaxNodeRef<'a>) -> (r: Option<Self>) {
        let k = syntax.kind();
        if k == SyntaxKind::TUPLE_EXPR {
            Some(Expr::TupleExpr(TupleExpr { syntax }))
        } else if k == SyntaxKind::ARRAY_EXPR {
            Some(Expr::ArrayExpr(ArrayExpr { syntax }))
        } else if k == SyntaxKind::PAREN_EXPR {
            Some(Expr::ParenExpr(ParenExpr { syntax }))
        } else if k == SyntaxKind::PATH_EXPR {
            Some(Expr::PathExpr(PathExpr { syntax }))
        } else if k == SyntaxKind::LAMBDA_EXPR {
            Some(Expr::LambdaExpr(LambdaExpr { syntax }))
        } else if k == SyntaxKind::IF_EXPR {
            Some(Expr::IfExpr(IfExpr { syntax }))
        } else if k == SyntaxKind::LOOP_EXPR {
            Some(Expr::LoopExpr(LoopExpr { syntax }))
        } else if k == SyntaxKind::FOR_EXPR {
            Some(Expr::ForExpr(ForExpr { syntax }))
        } else if k == SyntaxKind::WHILE_EXPR {
            Some(Expr::WhileExpr(WhileExpr { syntax }))
        } else if k == SyntaxKind::CONTINUE_EXPR {
            Some(Expr::ContinueExpr(ContinueExpr { syntax }))
        } else if k == SyntaxKind::BREAK_EXPR {
            Some(Expr::BreakExpr(BreakExpr { syntax }))
        } else if k == SyntaxKind::LABEL {
            Some(Expr::Label(Label { syntax }))
        } else if k == SyntaxKind::BLOCK_EXPR {
            Some(Expr::BlockExpr(BlockExpr { syntax }))
        } else if k == SyntaxKind::RETURN_EXPR {
            Some(Expr::ReturnExpr(ReturnExpr { syntax }))
        } else if k == SyntaxKind::MATCH_EXPR {
            Some(Expr::MatchExpr(MatchExpr { syntax }))
        } else if k == SyntaxKind::MATCH_ARM_LIST {
            Some(Expr::MatchArmList(MatchArmList { syntax }))
        } else if k == SyntaxKind::MATCH_ARM {
            Some(Expr::MatchArm(MatchArm { syntax }))
        } else if k == SyntaxKind::MATCH_GUARD {
            Some(Expr::MatchGuard(MatchGuard { syntax }))
        } else if k == SyntaxKind::STRUCT_LIT {
            Some(Expr::StructLit(StructLit { syntax }))
        } else if k == SyntaxKind::NAMED_FIELD_LIST {
            Some(Expr::NamedFieldList(NamedFieldList { syntax }))
        } else if k == SyntaxKind::NAMED_FIELD {
            Some(Expr::NamedField(NamedField { syntax }))
        } else if k == SyntaxKind::CALL_EXPR {
            Some(Expr::CallExpr(CallExpr { syntax }))
        } else if k == SyntaxKind::INDEX_EXPR {
            Some(Expr::IndexExpr(IndexExpr { syntax }))
        } else if k == SyntaxKind::METHOD_CALL_EXPR {
            Some(Expr::MethodCallExpr(MethodCallExpr { syntax }))
        } else if k == SyntaxKind::FIELD_EXPR {
            Some(Expr::FieldExpr(FieldExpr { syntax }))
        } else if k == SyntaxKind::TRY_EXPR {
            Some(Expr::TryExpr(TryExpr { syntax }))
        } else if k == SyntaxKind::CAST_EXPR {
            Some(Expr::CastExpr(CastExpr { syntax }))
        } else if k == SyntaxKind::REF_EXPR {
            Some(Expr::RefExpr(RefExpr { syntax }))
        } else if k == SyntaxKind::PREFIX_EXPR {
            Some(Expr::PrefixExpr(PrefixExpr { syntax }))
        } else if k == SyntaxKind::RANGE_EXPR {
            Some(Expr::RangeExpr(RangeExpr { syntax }))
        } else if k == SyntaxKind::BIN_EXPR {
            Some(Expr::BinExpr(BinExpr { syntax }))
        } else {
            None
        }
    }

    fn syntax(self) -> (r: SyntaxNodeRef<'a>) {
        match self {
            Expr::TupleExpr(inner) => inner.syntax(),
            Expr::ArrayExpr(inner) => inner.syntax(),
            Expr::ParenExpr(inner) => inner.syntax(),
            Expr::PathExpr(inner) => inner.syntax(),
            Expr::LambdaExpr(inner) => inner.syntax(),
            Expr::IfExpr(inner) => inner.syntax(),
            Expr::LoopExpr(inner) => inner.syntax(),
            Expr::ForExpr(inner) => inner.syntax(),
            Expr::WhileExpr(inner) => inner.syntax(),
            Expr::ContinueExpr(inner) => inner.syntax(),
            Expr::BreakExpr(inner) => inner.syntax(),
            Expr::Label(inner) => inner.syntax(),
            Expr::BlockExpr(inner) => inner.syntax(),
            Expr::ReturnExpr(inner) => inner.syntax(),
            Expr::MatchExpr(inner) => inner.syntax(),
            Expr::MatchArmList(inner) => inner.syntax(),
            Expr::MatchArm(inner) => inner.syntax(),
            Expr::MatchGuard(inner) => inner.syntax(),
            Expr::StructLit(inner) => inner.syntax(),
            Expr::NamedFieldList(inner) => inner.syntax(),
            Expr::NamedField(inner) => inner.syntax(),
            Expr::CallExpr(inner) => inner.syntax(),
            Expr::IndexExpr(inner) => inner.syntax(),
            Expr::MethodCallExpr(inner) => inner.syntax(),
            Expr::FieldExpr(inner) => inner.syntax(),
            Expr::TryExpr(inner) => inner.syntax(),
            Expr::CastExpr(inner) => inner.syntax(),
            Expr::RefExpr(inner) => inner.syntax(),
            Expr::PrefixExpr(inner) => inner.syntax(),
            Expr::RangeExpr(inner) => inner.syntax(),
            Expr::BinExpr(inner) => inner.syntax(),
        }
    }
}

/// A closed union over the nominal type-definition shapes.
pub enum NominalDef<'a> {
    StructDef(StructDef<'a>),
    EnumDef(EnumDef<'a>),
}

/// The closed set of kinds usable at this grammar position.
pub open spec fn nominaldef_kind(k: SyntaxKind) -> bool {
    k == SyntaxKind::STRUCT_DEF || k == SyntaxKind::ENUM_DEF
}

impl<'a> AstNode<'a> for NominalDef<'a> {
    open spec fn kind_set(k: SyntaxKind) -> bool {
        nominaldef_kind(k)
    }

    closed spec fn node_spec(&self) -> SyntaxNodeRef<'a> {
        match self {
            NominalDef::StructDef(inner) => inner.node_spec(),
            NominalDef::EnumDef(inner) => inner.node_spec(),
        }
    }

    closed spec fn variant_kind_spec(&self) -> SyntaxKind {
        match self {
            NominalDef::StructDef(_) => SyntaxKind::STRUCT_DEF,
            NominalDef::EnumDef(_) => SyntaxKind::ENUM_DEF,
        }
    }

    fn cast(syntax: SyntaxNodeRef<'a>) -> (r: Option<Self>) {
        let k = syntax.kind();
        if k == SyntaxKind::STRUCT_DEF {
            Some(NominalDef::StructDef(StructDef { syntax }))
        } else if k == SyntaxKind::ENUM_DEF {
            Some(NominalDef::EnumDef(EnumDef { syntax }))
        } else {
            None
        }
    }

    fn syntax(self) -> (r: SyntaxNodeRef<'a>) {
        match self {
            NominalDef::StructDef(inner) => inner.syntax(),
            NominalDef::EnumDef(inner) => inner.syntax(),
        }
    }
}

/// A closed union over every type-position node shape.
pub enum TypeRef<'a> {
    ParenType(ParenType<'a>),
    TupleType(TupleType<'a>),
    NeverType(NeverType<'a>),
    PathType(PathType<'a>),
    PointerType(PointerType<'a>),
    ArrayType(ArrayType<'a>),
    SliceType(SliceType<'a>),
    ReferenceType(ReferenceType<'a>),
    PlaceholderType(PlaceholderType<'a>),
    FnPointerType(FnPointerType<'a>),
    ForType(ForType<'a>),
    ImplTraitType(ImplTraitType<'a>),
    DynTraitType(DynTraitType<'a>),
}

/// The closed set of kinds usable at this grammar position.
pub open spec fn typeref_kind(k: SyntaxKind) -> bool {
    k == SyntaxKind::PAREN_TYPE || k == SyntaxKind::TUPLE_TYPE || k == SyntaxKind::NEVER_TYPE || k == SyntaxKind::PATH_TYPE || k == SyntaxKind::POINTER_TYPE || k == SyntaxKind::ARRAY_TYPE || k == SyntaxKind::SLICE_TYPE || k == SyntaxKind::REFERENCE_TYPE || k == SyntaxKind::PLACEHOLDER_TYPE || k == SyntaxKind::FN_POINTER_TYPE || k == SyntaxKind::FOR_TYPE || k == SyntaxKind::IMPL_TRAIT_TYPE || k == SyntaxKind::DYN_TRAIT_TYPE
}

impl<'a> AstNode<'a> for TypeRef<'a> {
    open spec fn kind_set(k: SyntaxKind) -> bool {
        typeref_kind(k)
    }

    closed spec fn node_spec(&self) -> SyntaxNodeRef<'a> {
        match self {
            TypeRef::ParenType(inner) => inner.node_spec(),
            TypeRef::TupleType(inner) => inner.node_spec(),
            TypeRef::NeverType(inner) => inner.node_spec(),
            TypeRef::PathType(inner) => inner.node_spec(),
            TypeRef::PointerType(inner) => inner.node_spec(),
            TypeRef::ArrayType(inner) => inner.node_spec(),
            TypeRef::SliceType(inner) => inner.node_spec(),
            TypeRef::ReferenceType(inner) => inner.node_spec(),
            TypeRef::PlaceholderType(inner) => inner.node_spec(),
            TypeRef::FnPointerType(inner) => inner.node_spec(),
            TypeRef::ForType(inner) => inner.node_spec(),
            TypeRef::ImplTraitType(inner) => inner.node_spec(),
            TypeRef::DynTraitType(inner) => inner.node_spec(),
        }
    }

    closed spec fn variant_kind_spec(&self) -> SyntaxKind {
        match self {
            TypeRef::ParenType(_) => SyntaxKind::PAREN_TYPE,
            TypeRef::TupleType(_) => SyntaxKind::TUPLE_TYPE,
            TypeRef::NeverType(_) => SyntaxKind::NEVER_TYPE,
            TypeRef::PathType(_) => SyntaxKind::PATH_TYPE,
            TypeRef::PointerType(_) => SyntaxKind::POINTER_TYPE,
            TypeRef::ArrayType(_) => SyntaxKind::ARRAY_TYPE,
            TypeRef::SliceType(_) => SyntaxKind::SLICE_TYPE,
            TypeRef::ReferenceType(_) => SyntaxKind::REFERENCE_TYPE,
            TypeRef::PlaceholderType(_) => SyntaxKind::PLACEHOLDER_TYPE,
            TypeRef::FnPointerType(_) => SyntaxKind::FN_POINTER_TYPE,
            TypeRef::ForType(_) => SyntaxKind::FOR_TYPE,
            TypeRef::ImplTraitType(_) => SyntaxKind::IMPL_TRAIT_TYPE,
            TypeRef::DynTraitType(_) => SyntaxKind::DYN_TRAIT_TYPE,
        }
    }

    fn cast(syntax: SyntaxNodeRef<'a>) -> (r: Option<Self>) {
        let k = syntax.kind();
        if k == SyntaxKind::PAREN_TYPE {
            Some(TypeRef::ParenType(ParenType { syntax }))
        } else if k == SyntaxKind::TUPLE_TYPE {
            Some(TypeRef::TupleType(TupleType { syntax }))
        } else if k == SyntaxKind::NEVER_TYPE {
            Some(TypeRef::NeverType(NeverType { syntax }))
        } else if k == SyntaxKind::PATH_TYPE {
            Some(TypeRef::PathType(PathType { syntax }))
        } else if k == SyntaxKind::POINTER_TYPE {
            Some(TypeRef::PointerType(PointerType { syntax }))
        } else if k == SyntaxKind::ARRAY_TYPE {
            Some(TypeRef::ArrayType(ArrayType { syntax }))
        } else if k == SyntaxKind::SLICE_TYPE {
            Some(TypeRef::SliceType(SliceType { syntax }))
        } else if k == SyntaxKind::REFERENCE_TYPE {
            Some(TypeRef::ReferenceType(ReferenceType { syntax }))
        } else if k == SyntaxKind::PLACEHOLDER_TYPE {
            Some(TypeRef::PlaceholderType(PlaceholderType { syntax }))
        } else if k == SyntaxKind::FN_POINTER_TYPE {
            Some(TypeRef::FnPointerType(FnPointerType { syntax }))
        } else if k == SyntaxKind::FOR_TYPE {
            Some(TypeRef::ForType(ForType { syntax }))
        } else if k == SyntaxKind::IMPL_TRAIT_TYPE {
            Some(TypeRef::ImplTraitType(ImplTraitType { syntax }))
        } else if k == SyntaxKind::DYN_TRAIT_TYPE {
            Some(TypeRef::DynTraitType(DynTraitType { syntax }))
        } else {
            None
        }
    }

    fn syntax(self) -> (r: SyntaxNodeRef<'a>) {
        match self {
            TypeRef::ParenType(inner) => inner.syntax(),
            TypeRef::TupleType(inner) => inner.syntax(),
            TypeRef::NeverType(inner) => inner.syntax(),
            TypeRef::PathType(inner) => inner.syntax(),
            TypeRef::PointerType(inner) => inner.syntax(),
            TypeRef::ArrayType(inner) => inner.syntax(),
            TypeRef::SliceType(inner) => inner.syntax(),
            TypeRef::ReferenceType(inner) => inner.syntax(),
            TypeRef::PlaceholderType(inner) => inner.syntax(),
            TypeRef::FnPointerType(inner) => inner.syntax(),
            TypeRef::ForType(inner) => inner.syntax(),
            TypeRef::ImplTraitType(inner) => inner.syntax(),
            TypeRef::DynTraitType(inner) => inner.syntax(),
        }
    }
}

impl<'a> NominalDef<'a> {
    /// The wrapped node, by reference.
    fn syntax_ref(&self) -> (r: &SyntaxNodeRef<'a>)
        ensures
            *r == self.node_spec(),
    {
        match self {
            NominalDef::StructDef(inner) => &inner.syntax,
            NominalDef::EnumDef(inner) => &inner.syntax,
        }
    }
}

impl<'a> NameOwner<'a> for NominalDef<'a> {
    fn name(&self) -> (r: Option<Name<'a>>) {
        match first_child_of_kind(self.syntax_ref(), SyntaxKind::NAME) {
            Some(c) => Some(Name { syntax: c }),
            None => None,
        }
    }
}

impl<'a> TypeParamsOwner<'a> for NominalDef<'a> {
    fn type_param_list(&self) -> (r: Option<TypeParamList<'a>>) {
        match first_child_of_kind(self.syntax_ref(), SyntaxKind::TYPE_PARAM_LIST) {
            Some(c) => Some(TypeParamList { syntax: c }),
            None => None,
        }
    }

    fn where_clause(&self) -> (r: Option<WhereClause<'a>>) {
        match first_child_of_kind(self.syntax_ref(), SyntaxKind::WHERE_CLAUSE) {
            Some(c) => Some(WhereClause { syntax: c }),
            None => None,
        }
    }
}

impl<'a> AttrsOwner<'a> for NominalDef<'a> {
    fn attrs(&self) -> (r: Vec<Attr<'a>>)
    {
        let vs = children_of_kind(self.syntax_ref(), SyntaxKind::ATTR);
        let ghost gvs = vs@;
        let r = wrap_attr_nodes(vs);
        proof {
            assert forall|m: int| 0 <= m < r@.len() implies {
                &&& (#[trigger] r@[m]).node_spec().wf()
                &&& r@[m].node_spec().same_tree(self.node_spec())
                &&& exists|i: usize|
                    {
                        &&& i < crate::ast::num_children_of(self.node_spec().node_spec())
                        &&& crate::ast::child_kind(self.node_spec().node_spec(), i as int)
                            == SyntaxKind::ATTR
                        &&& r@[m].node_spec().path_spec() == self.node_spec().path_spec().push(i)
                    }
            } by {
                let q = choose|q: usize|
                    {
                        &&& q < crate::ast::num_children_of(self.node_spec().node_spec())
                        &&& crate::ast::child_kind(self.node_spec().node_spec(), q as int)
                            == SyntaxKind::ATTR
                        &&& gvs[m].path_spec() == self.node_spec().path_spec().push(q)
                    };
                assert(r@[m].node_spec().path_spec() == self.node_spec().path_spec().push(q));
            }
            assert forall|i: usize|
                i < crate::ast::num_children_of(self.node_spec().node_spec())
                    && #[trigger] crate::ast::child_kind(self.node_spec().node_spec(), i as int)
                    == SyntaxKind::ATTR implies exists|m: int|
                0 <= m < r@.len() && (#[trigger] r@[m]).node_spec().path_spec()
                    == self.node_spec().path_spec().push(i) by {
                let m0 = choose|m: int|
                    0 <= m < gvs.len() && (#[trigger] gvs[m]).path_spec()
                        == self.node_spec().path_spec().push(i);
                assert(r@[m0].node_spec().path_spec() == self.node_spec().path_spec().push(i));
            }
            assert forall|m1: int, m2: int|
                0 <= m1 < m2 < r@.len() implies (#[trigger] r@[m1]).node_spec().path_spec().last()
                < (#[trigger] r@[m2]).node_spec().path_spec().last() by {
                assert(r@[m1].node_spec().path_spec() == gvs[m1].path_spec());
                assert(r@[m2].node_spec().path_spec() == gvs[m2].path_spec());
                assert(gvs[m1].path_spec().last() < gvs[m2].path_spec().last());
            }
        }
        r
    }
}


impl<'a> Name<'a> {
    /// The identifier this name consists of.
    pub fn text(&self) -> (r: String)
        requires
            self.node_spec().wf(),
        ensures
            r@ == name_text_spec(self.node_spec().node_spec()),
    {
        match self.syntax.first_child() {
            Some(c) => match c.leaf_text() {
                Some(t) => t,
                None => String::new(),
            },
            None => String::new(),
        }
    }
}


impl<'a> NameRef<'a> {
    /// The identifier this reference consists of.
    pub fn text(&self) -> (r: String)
        requires
            self.node_spec().wf(),
        ensures
            r@ == name_text_spec(self.node_spec().node_spec()),
    {
        match self.syntax.first_child() {
            Some(c) => match c.leaf_text() {
                Some(t) => t,
                None => String::new(),
            },
            None => String::new(),
        }
    }
}


impl<'a> Module<'a> {
    /// Whether the module is declared with a trailing semicolon.
    pub fn has_semi(&self) -> (r: bool)
        requires
            self.node_spec().wf(),
        ensures
            r == (num_children_of(self.node_spec().node_spec()) > 0 && child_kind(
                self.node_spec().node_spec(),
                num_children_of(self.node_spec().node_spec()) - 1,
            ) == SyntaxKind::SEMI),
    {
        match self.syntax.last_child() {
            None => false,
            Some(c) => c.kind() == SyntaxKind::SEMI,
        }
    }
}


impl<'a> Attr<'a> {
    /// The attribute's payload as a bare atom, where it has that shape.
    #[verifier::loop_isolation(false)]
    pub fn as_atom(&self) -> (r: Option<String>)
        requires
            self.node_spec().wf(),
        ensures
            r is Some <==> attr_atom_spec(self.node_spec().node_spec()) is Some,
            r matches Some(s) ==> attr_atom_spec(self.node_spec().node_spec()) == Some(s@),
    {
        let g: &GreenNode = self.syntax.green_node();
        if g.is_leaf() {
            return None;
        }
        let cs = g.children();
        let n = cs.len();
        proof {
            assert(cs@.skip(0) =~= cs@);
        }
        let mut i: usize = 0;
        while i < n
            invariant
                i <= n,
                attr_atom_spec(self.node_spec().node_spec()) == first_tt_atom(cs@.skip(i as int)),
            decreases n - i,
        {
            proof {
                assert(cs@.skip(i as int)[0] == cs@[i as int]);
                assert(cs@.skip(i as int).drop_first() =~= cs@.skip(i as int + 1));
            }
            let c: &GreenNode = &cs[i];
            if c.kind() == SyntaxKind::TOKEN_TREE {
                if c.is_leaf() {
                    return None;
                }
                let tcs = c.children();
                if tcs.len() == 3 {
                    let mid: &GreenNode = &tcs[1];
                    if mid.kind() == SyntaxKind::IDENT {
                        match mid {
                            GreenNode::Leaf { text, .. } => {
                                return Some(text.clone());
                            },
                            GreenNode::Node { .. } => {
                                return None;
                            },
                        }
                    }
                }
                return None;
            }
            i += 1;
        }
        proof {
            assert(cs@.skip(n as int) =~= Seq::<Arc<GreenNode>>::empty());
        }
        None
    }

    /// The attribute's payload as a call, where it has that shape: the call
    /// name together with its argument token tree.
    #[verifier::loop_isolation(false)]
    pub fn as_call(&self) -> (r: Option<(String, TokenTree<'a>)>)
        requires
            self.node_spec().wf(),
        ensures
            r is Some <==> attr_call_spec(self.node_spec().node_spec()) is Some,
            r matches Some(p) ==> {
                &&& attr_call_spec(self.node_spec().node_spec()) == Some(p.0@)
                &&& p.1.node_spec().wf()
                &&& p.1.node_spec().same_tree(self.node_spec())
                &&& exists|i: usize|
                    {
                        &&& i < num_children_of(self.node_spec().node_spec())
                        &&& child_kind(self.node_spec().node_spec(), i as int)
                            == SyntaxKind::TOKEN_TREE
                        &&& (forall|j: int|
                            0 <= j < i ==> #[trigger] child_kind(self.node_spec().node_spec(), j)
                                != SyntaxKind::TOKEN_TREE)
                        &&& p.1.node_spec().path_spec() == self.node_spec().path_spec().push(
                            i,
                        ).push(2usize)
                    }
            },
    {
        let g: &GreenNode = self.syntax.green_node();
        if g.is_leaf() {
            return None;
        }
        let cs = g.children();
        let n = cs.len();
        proof {
            assert(cs@.skip(0) =~= cs@);
        }
        let mut i: usize = 0;
        while i < n
            invariant
                i <= n,
                n == cs@.len(),
                attr_call_spec(self.node_spec().node_spec()) == first_tt_call(cs@.skip(i as int)),
                forall|j: int|
                    0 <= j < i ==> #[trigger] child_kind(self.node_spec().node_spec(), j)
                        != SyntaxKind::TOKEN_TREE,
            decreases n - i,
        {
            proof {
                assert(cs@.skip(i as int)[0] == cs@[i as int]);
                assert(cs@.skip(i as int).drop_first() =~= cs@.skip(i as int + 1));
            }
            let c: &GreenNode = &cs[i];
            if c.kind() == SyntaxKind::TOKEN_TREE {
                if c.is_leaf() {
                    return None;
                }
                let tcs = c.children();
                if tcs.len() == 4 {
                    let mid: &GreenNode = &tcs[1];
                    let args: &GreenNode = &tcs[2];
                    if mid.kind() == SyntaxKind::IDENT && args.kind() == SyntaxKind::TOKEN_TREE {
                        match mid {
                            GreenNode::Leaf { text, .. } => {
                                let tt_node = self.syntax.child(i);
                                let args_node = tt_node.child(2);
                                proof {
                                    assert(child_kind(self.node_spec().node_spec(), i as int)
                                        == SyntaxKind::TOKEN_TREE);
                                    assert(args_node.path_spec()
                                        == self.node_spec().path_spec().push(i).push(2usize));
                                }
                                return Some((text.clone(), TokenTree { syntax: args_node }));
                            },
                            GreenNode::Node { .. } => {
                                return None;
                            },
                        }
                    }
                }
                return None;
            }
            i += 1;
        }
        proof {
            assert(cs@.skip(n as int) =~= Seq::<Arc<GreenNode>>::empty());
        }
        None
    }
}


impl<'a> FnDef<'a> {
    /// Whether the function carries the given bare-atom attribute.
    #[verifier::loop_isolation(false)]
    pub fn has_atom_attr(&self, atom: &str) -> (r: bool)
        requires
            self.node_spec().wf(),
        ensures
            r == has_atom_spec(self.node_spec().node_spec().children_spec(), atom@),
    {
        let ghost cs = self.node_spec().node_spec().children_spec();
        let n = self.syntax.num_children();
        proof {
            assert(cs.skip(0) =~= cs);
        }
        let mut i: usize = 0;
        while i < n
            invariant
                i <= n,
                has_atom_spec(cs, atom@) == has_atom_spec(cs.skip(i as int), atom@),
            decreases n - i,
        {
            proof {
                assert(cs.skip(i as int)[0] == cs[i as int]);
                assert(cs.skip(i as int).drop_first() =~= cs.skip(i as int + 1));
            }
            let c = self.syntax.child(i);
            if c.kind() == SyntaxKind::ATTR {
                let a = Attr { syntax: c };
                match a.as_atom() {
                    Some(s) => {
                        if str_eq(s.as_str(), atom) {
                            return true;
                        }
                    },
                    None => {},
                }
            }
            i += 1;
        }
        proof {
            assert(cs.skip(n as int) =~= Seq::<Arc<GreenNode>>::empty());
        }
        false
    }
}


impl<'a> ImplItem<'a> {
    /// The first two type references among direct children.
    #[verifier::loop_isolation(false)]
    fn target(&self) -> (r: (Option<TypeRef<'a>>, Option<TypeRef<'a>>))
        requires
            self.node_spec().wf(),
        ensures
            r.0 is None <==> forall|i: int|
                0 <= i < num_children_of(self.node_spec().node_spec()) ==> !typeref_kind(
                    #[trigger] child_kind(self.node_spec().node_spec(), i),
                ),
            r.1 is Some <==> exists|i: int, j: int|
                #[trigger] is_second_type_ref(self.node_spec().node_spec(), i, j),
            r.0 matches Some(t) ==> {
                &&& t.node_spec().wf()
                &&& t.node_spec().same_tree(self.node_spec())
                &&& exists|i: int|
                    is_first_type_ref(self.node_spec().node_spec(), i)
                        && #[trigger] t.node_spec().path_spec()
                        == self.node_spec().path_spec().push(i as usize)
            },
            r.1 matches Some(t) ==> {
                &&& t.node_spec().wf()
                &&& t.node_spec().same_tree(self.node_spec())
                &&& exists|i: int, j: int|
                    is_second_type_ref(self.node_spec().node_spec(), i, j)
                        && #[trigger] t.node_spec().path_spec()
                        == self.node_spec().path_spec().push(j as usize)
            },
            r.1 is Some ==> r.0 is Some,
    {
        let ghost n_green = self.node_spec().node_spec();
        let n = self.syntax.num_children();
        let mut first: Option<TypeRef<'a>> = None;
        let ghost mut first_idx: int = 0;
        let mut i: usize = 0;
        while i < n
            invariant
                i <= n,
                n == num_children_of(n_green),
                first is None ==> forall|j: int|
                    0 <= j < i ==> !typeref_kind(#[trigger] child_kind(n_green, j)),
                first matches Some(t) ==> {
                    &&& t.node_spec().wf()
                    &&& t.node_spec().same_tree(self.node_spec())
                    &&& is_first_type_ref(n_green, first_idx)
                    &&& first_idx < i
                    &&& t.node_spec().path_spec() == self.node_spec().path_spec().push(
                        first_idx as usize,
                    )
                    &&& forall|q: int|
                        first_idx < q < i ==> !typeref_kind(#[trigger] child_kind(n_green, q))
                },
            decreases n - i,
        {
            let c = self.syntax.child(i);
            let k = c.kind();
            if is_type_ref_kind(k) {
                let t = match TypeRef::cast(c) {
                    Some(t) => t,
                    None => unreached(),
                };
                match first {
                    None => {
                        proof {
                            first_idx = i as int;
                        }
                        first = Some(t);
                    },
                    Some(f) => {
                        proof {
                            assert(is_second_type_ref(n_green, first_idx, i as int));
                        }
                        return (Some(f), Some(t));
                    },
                }
            }
            i += 1;
        }
        proof {
            let ng = n_green;
            assert forall|a: int, b: int| !(#[trigger] is_second_type_ref(ng, a, b)) by {
                if is_second_type_ref(ng, a, b) {
                    match first {
                        Some(_) => {
                            // The first type reference is unique, so `a` is
                            // it; but nothing after it fits a type position.
                            if a < first_idx {
                                assert(!typeref_kind(child_kind(ng, a)));
                            } else if a > first_idx {
                                assert(!typeref_kind(child_kind(ng, first_idx)));
                            } else {
                                assert(!typeref_kind(child_kind(ng, b)));
                            }
                        },
                        None => {
                            assert(!typeref_kind(child_kind(ng, a)));
                        },
                    }
                }
            }
        }
        (first, None)
    }

    /// The type an `impl` block is for: with a trait, the second type
    /// reference; without one, the only type reference.
    pub fn target_type(&self) -> (r: Option<TypeRef<'a>>)
        requires
            self.node_spec().wf(),
        ensures
            r is None <==> forall|i: int|
                0 <= i < num_children_of(self.node_spec().node_spec()) ==> !typeref_kind(
                    #[trigger] child_kind(self.node_spec().node_spec(), i),
                ),
            r matches Some(t) ==> {
                &&& t.node_spec().wf()
                &&& t.node_spec().same_tree(self.node_spec())
                &&& ((exists|i: int, j: int|
                    #[trigger] is_second_type_ref(self.node_spec().node_spec(), i, j)) ==> exists|
                    i: int,
                    j: int,
                |
                    #[trigger] is_second_type_ref(self.node_spec().node_spec(), i, j)
                        && t.node_spec().path_spec() == self.node_spec().path_spec().push(
                        j as usize,
                    ))
                &&& (!(exists|i: int, j: int|
                    #[trigger] is_second_type_ref(self.node_spec().node_spec(), i, j)) ==> exists|
                    i: int,
                |
                    is_first_type_ref(self.node_spec().node_spec(), i)
                        && #[trigger] t.node_spec().path_spec()
                        == self.node_spec().path_spec().push(i as usize))
            },
    {
        match self.target() {
            (Some(t), None) => Some(t),
            (_, Some(t)) => Some(t),
            _ => None,
        }
    }

    /// The trait an `impl` block implements: the first type reference,
    /// defined exactly when a second type reference follows it.
    pub fn target_trait(&self) -> (r: Option<TypeRef<'a>>)
        requires
            self.node_spec().wf(),
        ensures
            r is Some <==> exists|i: int, j: int|
                #[trigger] is_second_type_ref(self.node_spec().node_spec(), i, j),
            r matches Some(t) ==> {
                &&& t.node_spec().wf()
                &&& t.node_spec().same_tree(self.node_spec())
                &&& exists|i: int|
                    is_first_type_ref(self.node_spec().node_spec(), i)
                        && #[trigger] t.node_spec().path_spec()
                        == self.node_spec().path_spec().push(i as usize)
            },
    {
        match self.target() {
            (Some(t), Some(_)) => Some(t),
            _ => None,
        }
    }
}


/// Recognizes the kinds usable at a type position.
fn is_type_ref_kind(k: SyntaxKind) -> (r: bool)
    ensures
        r == typeref_kind(k),
{
    match k {
        SyntaxKind::PAREN_TYPE
        | SyntaxKind::TUPLE_TYPE
        | SyntaxKind::NEVER_TYPE
        | SyntaxKind::PATH_TYPE
        | SyntaxKind::POINTER_TYPE
        | SyntaxKind::ARRAY_TYPE
        | SyntaxKind::SLICE_TYPE
        | SyntaxKind::REFERENCE_TYPE
        | SyntaxKind::PLACEHOLDER_TYPE
        | SyntaxKind::FN_POINTER_TYPE
        | SyntaxKind::FOR_TYPE
        | SyntaxKind::IMPL_TRAIT_TYPE
        | SyntaxKind::DYN_TRAIT_TYPE => true,
        _ => false,
    }
}


/// A tagged union's variant is a function of the node's kind alone: two
/// expression views accepted under the same kind are the same alternative,
/// so for disjoint kind sets at most one alternative ever matches a node.
pub proof fn lemma_expr_variant_determined<'a>(a: Expr<'a>, b: Expr<'a>)
    requires
        a.variant_kind_spec() == b.variant_kind_spec(),
    ensures
        a is TupleExpr <==> b is TupleExpr,
        a is ArrayExpr <==> b is ArrayExpr,
        a is ParenExpr <==> b is ParenExpr,
        a is PathExpr <==> b is PathExpr,
        a is LambdaExpr <==> b is LambdaExpr,
        a is IfExpr <==> b is IfExpr,
        a is LoopExpr <==> b is LoopExpr,
        a is ForExpr <==> b is ForExpr,
        a is WhileExpr <==> b is WhileExpr,
        a is ContinueExpr <==> b is ContinueExpr,
        a is BreakExpr <==> b is BreakExpr,
        a is Label <==> b is Label,
        a is BlockExpr <==> b is BlockExpr,
        a is ReturnExpr <==> b is ReturnExpr,
        a is MatchExpr <==> b is MatchExpr,
        a is MatchArmList <==> b is MatchArmList,
        a is MatchArm <==> b is MatchArm,
        a is MatchGuard <==> b is MatchGuard,
        a is StructLit <==> b is StructLit,
        a is NamedFieldList <==> b is NamedFieldList,
        a is NamedField <==> b is NamedField,
        a is CallExpr <==> b is CallExpr,
        a is IndexExpr <==> b is IndexExpr,
        a is MethodCallExpr <==> b is MethodCallExpr,
        a is FieldExpr <==> b is FieldExpr,
        a is TryExpr <==> b is TryExpr,
        a is CastExpr <==> b is CastExpr,
        a is RefExpr <==> b is RefExpr,
        a is PrefixExpr <==> b is PrefixExpr,
        a is RangeExpr <==> b is RangeExpr,
        a is BinExpr <==> b is BinExpr,
{
}


/// As for expressions: a type-position union's variant is a function of the
/// node's kind alone.
pub proof fn lemma_type_ref_variant_determined<'a>(a: TypeRef<'a>, b: TypeRef<'a>)
    requires
        a.variant_kind_spec() == b.variant_kind_spec(),
    ensures
        a is ParenType <==> b is ParenType,
        a is TupleType <==> b is TupleType,
        a is NeverType <==> b is NeverType,
        a is PathType <==> b is PathType,
        a is PointerType <==> b is PointerType,
        a is ArrayType <==> b is ArrayType,
        a is SliceType <==> b is SliceType,
        a is ReferenceType <==> b is ReferenceType,
        a is PlaceholderType <==> b is PlaceholderType,
        a is FnPointerType <==> b is FnPointerType,
        a is ForType <==> b is ForType,
        a is ImplTraitType <==> b is ImplTraitType,
        a is DynTraitType <==> b is DynTraitType,
{
}


/// As for expressions: a nominal-definition union's variant is a function
/// of the node's kind alone.
pub proof fn lemma_nominal_def_variant_determined<'a>(a: NominalDef<'a>, b: NominalDef<'a>)
    requires
        a.variant_kind_spec() == b.variant_kind_spec(),
    ensures
        a is StructDef <==> b is StructDef,
        a is EnumDef <==> b is EnumDef,
{
}


} // verus!
