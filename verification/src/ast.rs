//! The typed projection layer over the untyped tree.
//!
//! Each syntactically meaningful kind gets a zero-overhead wrapper holding
//! just a navigable node; the only way from the untyped tree to a typed
//! view is a checked cast, defined exactly when the node's kind belongs to
//! the wrapper's declared kind set. Structural accessors scan direct
//! children only, and shared accessor behavior is factored into capability
//! traits that unrelated wrapper types opt into independently — there is no
//! common base type.

pub mod generated;

use vstd::prelude::*;
use crate::kinds::SyntaxKind;
use crate::green::GreenNode;
use crate::syntax::SyntaxNodeRef;
use std::sync::Arc;
pub use self::generated::{
    ArrayExpr, ArrayType, Attr, BinExpr, Block, BlockExpr, BreakExpr, CallExpr, CastExpr,
    ConstDef, ContinueExpr, DynTraitType, EnumDef, FieldExpr, FnDef, FnPointerType, ForExpr,
    ForType, IfExpr, ImplItem, ImplTraitType, IndexExpr, Label, LambdaExpr, LoopExpr, MatchArm,
    MatchArmList, MatchExpr, MatchGuard, MethodCallExpr, Module, Name, NameRef, NamedField,
    NamedFieldDef, NamedFieldList, NeverType, ParenExpr, ParenType, PathExpr, PathType,
    PlaceholderType, PointerType, PrefixExpr, RangeExpr, RefExpr, ReferenceType, ReturnExpr,
    Root, SliceType, StaticDef, StructDef, StructLit, TokenTree, TraitDef, TryExpr, TupleExpr,
    TupleType, TypeDef, TypeParam, TypeParamList, WhereClause, WhileExpr, Expr, NominalDef,
    TypeRef, expr_kind, nominaldef_kind, typeref_kind,
};

verus! {

/// The kind of the `i`-th direct child.
pub open spec fn child_kind(n: GreenNode, i: int) -> SyntaxKind {
    (*n.children_spec()[i]).kind_spec()
}

/// How many direct children a node has.
pub open spec fn num_children_of(n: GreenNode) -> int {
    n.children_spec().len() as int
}

/// A typed wrapper over a navigable node: a checked narrowing, never a
/// silent coercion.
pub trait AstNode<'a>: Sized {
    /// The closed set of kinds this wrapper accepts.
    spec fn kind_set(k: SyntaxKind) -> bool;

    /// The wrapped navigable node.
    spec fn node_spec(&self) -> SyntaxNodeRef<'a>;

    /// The kind this value was accepted under; for a tagged union, the
    /// variant is a function of this kind alone.
    spec fn variant_kind_spec(&self) -> SyntaxKind;

    /// Casts the untyped node into this wrapper: defined exactly when the
    /// node's kind belongs to the wrapper's kind set.
    fn cast(syntax: SyntaxNodeRef<'a>) -> (r: Option<Self>)
        requires
            syntax.wf(),
        ensures
            r is Some <==> Self::kind_set(syntax.kind_spec()),
            r matches Some(w) ==> (w.node_spec() == syntax && w.variant_kind_spec()
                == syntax.kind_spec() && w.node_spec().wf()),
    ;

    /// The wrapped node back.
    fn syntax(self) -> (r: SyntaxNodeRef<'a>)
        ensures
            r == self.node_spec(),
    ;
}

/// The capability of exposing a name: the first `NAME` among direct
/// children, if one is present.
pub trait NameOwner<'a>: AstNode<'a> {
    fn name(&self) -> (r: Option<Name<'a>>)
        requires
            self.node_spec().wf(),
        ensures
            r is None ==> forall|i: int|
                0 <= i < num_children_of(self.node_spec().node_spec()) ==> #[trigger] child_kind(
                    self.node_spec().node_spec(),
                    i,
                ) != SyntaxKind::NAME,
            r matches Some(w) ==> {
                &&& w.node_spec().wf()
                &&& w.node_spec().same_tree(self.node_spec())
                &&& exists|i: usize|
                    {
                        &&& i < num_children_of(self.node_spec().node_spec())
                        &&& child_kind(self.node_spec().node_spec(), i as int) == SyntaxKind::NAME
                        &&& w.node_spec().path_spec() == self.node_spec().path_spec().push(i)
                        &&& forall|j: int|
                            0 <= j < i ==> #[trigger] child_kind(self.node_spec().node_spec(), j)
                                != SyntaxKind::NAME
                    }
            },
    ;
}

/// The capability of exposing generic parameters and a where clause.
pub trait TypeParamsOwner<'a>: AstNode<'a> {
    fn type_param_list(&self) -> (r: Option<TypeParamList<'a>>)
        requires
            self.node_spec().wf(),
        ensures
            r is None ==> forall|i: int|
                0 <= i < num_children_of(self.node_spec().node_spec()) ==> #[trigger] child_kind(
                    self.node_spec().node_spec(),
                    i,
                ) != SyntaxKind::TYPE_PARAM_LIST,
            r matches Some(w) ==> {
                &&& w.node_spec().wf()
                &&& w.node_spec().same_tree(self.node_spec())
                &&& exists|i: usize|
                    {
                        &&& i < num_children_of(self.node_spec().node_spec())
                        &&& child_kind(self.node_spec().node_spec(), i as int)
                            == SyntaxKind::TYPE_PARAM_LIST
                        &&& w.node_spec().path_spec() == self.node_spec().path_spec().push(i)
                        &&& forall|j: int|
                            0 <= j < i ==> #[trigger] child_kind(self.node_spec().node_spec(), j)
                                != SyntaxKind::TYPE_PARAM_LIST
                    }
            },
    ;

    fn where_clause(&self) -> (r: Option<WhereClause<'a>>)
        requires
            self.node_spec().wf(),
        ensures
            r is None ==> forall|i: int|
                0 <= i < num_children_of(self.node_spec().node_spec()) ==> #[trigger] child_kind(
                    self.node_spec().node_spec(),
                    i,
                ) != SyntaxKind::WHERE_CLAUSE,
            r matches Some(w) ==> {
                &&& w.node_spec().wf()
                &&& w.node_spec().same_tree(self.node_spec())
                &&& exists|i: usize|
                    {
                        &&& i < num_children_of(self.node_spec().node_spec())
                        &&& child_kind(self.node_spec().node_spec(), i as int)
                            == SyntaxKind::WHERE_CLAUSE
                        &&& w.node_spec().path_spec() == self.node_spec().path_spec().push(i)
                        &&& forall|j: int|
                            0 <= j < i ==> #[trigger] child_kind(self.node_spec().node_spec(), j)
                                != SyntaxKind::WHERE_CLAUSE
                    }
            },
    ;
}

/// The capability of carrying attributes: every `ATTR` among direct
/// children, in order.
pub trait AttrsOwner<'a>: AstNode<'a> {
    fn attrs(&self) -> (r: Vec<Attr<'a>>)
        requires
            self.node_spec().wf(),
        ensures
            forall|m: int|
                0 <= m < r@.len() ==> {
                    &&& (#[trigger] r@[m]).node_spec().wf()
                    &&& r@[m].node_spec().same_tree(self.node_spec())
                    &&& exists|i: usize|
                        {
                            &&& i < num_children_of(self.node_spec().node_spec())
                            &&& child_kind(self.node_spec().node_spec(), i as int)
                                == SyntaxKind::ATTR
                            &&& r@[m].node_spec().path_spec() == self.node_spec().path_spec().push(
                                i,
                            )
                        }
                },
            forall|i: usize|
                i < num_children_of(self.node_spec().node_spec()) && #[trigger] child_kind(
                    self.node_spec().node_spec(),
                    i as int,
                ) == SyntaxKind::ATTR ==> exists|m: int|
                    0 <= m < r@.len() && (#[trigger] r@[m]).node_spec().path_spec()
                        == self.node_spec().path_spec().push(i),
            forall|m1: int, m2: int|
                0 <= m1 < m2 < r@.len() ==> (#[trigger] r@[m1]).node_spec().path_spec().last() < (
                #[trigger] r@[m2]).node_spec().path_spec().last(),
    ;
}

/// The first direct child of the given kind, if any.
pub fn first_child_of_kind<'a>(node: &SyntaxNodeRef<'a>, kind: SyntaxKind) -> (r: Option<
    SyntaxNodeRef<'a>,
>)
    requires
        node.wf(),
    ensures
        r is None ==> forall|i: int|
            0 <= i < num_children_of(node.node_spec()) ==> #[trigger] child_kind(
                node.node_spec(),
                i,
            ) != kind,
        r matches Some(c) ==> {
            &&& c.wf()
            &&& c.same_tree(*node)
            &&& exists|i: usize|
                {
                    &&& i < num_children_of(node.node_spec())
                    &&& child_kind(node.node_spec(), i as int) == kind
                    &&& c.path_spec() == node.path_spec().push(i)
                    &&& forall|j: int|
                        0 <= j < i ==> #[trigger] child_kind(node.node_spec(), j) != kind
                }
        },
{
    let n = node.num_children();
    let mut i: usize = 0;
    while i < n
        invariant
            node.wf(),
            i <= n,
            n == num_children_of(node.node_spec()),
            forall|j: int| 0 <= j < i ==> #[trigger] child_kind(node.node_spec(), j) != kind,
        decreases n - i,
    {
        let c = node.child(i);
        if c.kind() == kind {
            return Some(c);
        }
        i += 1;
    }
    None
}

/// Every direct child of the given kind, in order.
pub fn children_of_kind<'a>(node: &SyntaxNodeRef<'a>, kind: SyntaxKind) -> (r: Vec<
    SyntaxNodeRef<'a>,
>)
    requires
        node.wf(),
    ensures
        forall|m: int|
            0 <= m < r@.len() ==> {
                &&& (#[trigger] r@[m]).wf()
                &&& r@[m].same_tree(*node)
                &&& exists|i: usize|
                    {
                        &&& i < num_children_of(node.node_spec())
                        &&& child_kind(node.node_spec(), i as int) == kind
                        &&& r@[m].path_spec() == node.path_spec().push(i)
                    }
            },
        forall|i: usize|
            i < num_children_of(node.node_spec()) && #[trigger] child_kind(
                node.node_spec(),
                i as int,
            ) == kind ==> exists|m: int|
                0 <= m < r@.len() && (#[trigger] r@[m]).path_spec() == node.path_spec().push(i),
        forall|m1: int, m2: int|
            0 <= m1 < m2 < r@.len() ==> (#[trigger] r@[m1]).path_spec().last() < (
            #[trigger] r@[m2]).path_spec().last(),
{
    let n = node.num_children();
    let mut r: Vec<SyntaxNodeRef<'a>> = Vec::new();
    let mut i: usize = 0;
    while i < n
        invariant
            node.wf(),
            i <= n,
            n == num_children_of(node.node_spec()),
            forall|m: int| 0 <= m < r@.len() ==> (#[trigger] r@[m]).path_spec().last() < i,
            forall|m1: int, m2: int|
                0 <= m1 < m2 < r@.len() ==> (#[trigger] r@[m1]).path_spec().last() < (
                #[trigger] r@[m2]).path_spec().last(),
            forall|m: int|
                0 <= m < r@.len() ==> {
                    &&& (#[trigger] r@[m]).wf()
                    &&& r@[m].same_tree(*node)
                    &&& exists|q: usize|
                        {
                            &&& q < num_children_of(node.node_spec())
                            &&& child_kind(node.node_spec(), q as int) == kind
                            &&& r@[m].path_spec() == node.path_spec().push(q)
                        }
                },
            forall|q: usize|
                q < i && #[trigger] child_kind(node.node_spec(), q as int) == kind ==> exists|
                    m: int,
                |
                    0 <= m < r@.len() && (#[trigger] r@[m]).path_spec()
                        == node.path_spec().push(q),
        decreases n - i,
    {
        let c = node.child(i);
        if c.kind() == kind {
            let ghost prev = r@;
            r.push(c);
            proof {
                assert(r@[r@.len() - 1].path_spec() == node.path_spec().push(i));
                assert forall|q: usize|
                    q < i + 1 && #[trigger] child_kind(node.node_spec(), q as int)
                        == kind implies exists|m: int|
                    0 <= m < r@.len() && (#[trigger] r@[m]).path_spec() == node.path_spec().push(
                        q,
                    ) by {
                    if q < i {
                        let m0 = choose|m: int|
                            0 <= m < prev.len() && (#[trigger] prev[m]).path_spec()
                                == node.path_spec().push(q);
                        assert(r@[m0].path_spec() == node.path_spec().push(q));
                    } else {
                        assert(r@[r@.len() - 1].path_spec() == node.path_spec().push(q));
                    }
                }
            }
        }
        i += 1;
    }
    r
}

/// Character-for-character equality of two string slices.
pub fn str_eq(a: &str, b: &str) -> (r: bool)
    ensures
        r == (a@ == b@),
{
    let na = a.unicode_len();
    let nb = b.unicode_len();
    if na != nb {
        proof {
            assert(a@.len() != b@.len());
        }
        return false;
    }
    let mut i: usize = 0;
    while i < na
        invariant
            i <= na,
            na == a@.len(),
            na == b@.len(),
            forall|j: int| 0 <= j < i ==> a@[j] == b@[j],
        decreases na - i,
    {
        if a.get_char(i) != b.get_char(i) {
            return false;
        }
        i += 1;
    }
    proof {
        assert(a@ =~= b@);
    }
    true
}

/// The text of a name-like node: the leaf text of its first child, empty
/// where the node is malformed.
pub open spec fn name_text_spec(n: GreenNode) -> Seq<char> {
    if n.children_spec().len() > 0 {
        (*n.children_spec()[0]).leaf_text_spec()
    } else {
        Seq::empty()
    }
}

/// What an attribute token tree denotes as a bare atom: defined when it is
/// exactly a delimiter, one identifier, and a delimiter.
pub open spec fn tt_atom(tt: GreenNode) -> Option<Seq<char>> {
    let cs = tt.children_spec();
    if cs.len() == 3 && (*cs[1]).is_leaf_spec() && (*cs[1]).kind_spec() == SyntaxKind::IDENT {
        Some((*cs[1]).leaf_text_spec())
    } else {
        None
    }
}

/// What an attribute token tree denotes as a call: defined when it is a
/// delimiter, an identifier, a nested token tree, and a delimiter.
pub open spec fn tt_call(tt: GreenNode) -> Option<Seq<char>> {
    let cs = tt.children_spec();
    if cs.len() == 4 && (*cs[1]).is_leaf_spec() && (*cs[1]).kind_spec() == SyntaxKind::IDENT && (
    *cs[2]).kind_spec() == SyntaxKind::TOKEN_TREE {
        Some((*cs[1]).leaf_text_spec())
    } else {
        None
    }
}

/// The atom denoted by the first token tree among the children, if any.
pub open spec fn first_tt_atom(cs: Seq<Arc<GreenNode>>) -> Option<Seq<char>>
    decreases cs.len(),
{
    if cs.len() == 0 {
        None
    } else if (*cs[0]).kind_spec() == SyntaxKind::TOKEN_TREE {
        tt_atom(*cs[0])
    } else {
        first_tt_atom(cs.drop_first())
    }
}

/// The call denoted by the first token tree among the children, if any.
pub open spec fn first_tt_call(cs: Seq<Arc<GreenNode>>) -> Option<Seq<char>>
    decreases cs.len(),
{
    if cs.len() == 0 {
        None
    } else if (*cs[0]).kind_spec() == SyntaxKind::TOKEN_TREE {
        tt_call(*cs[0])
    } else {
        first_tt_call(cs.drop_first())
    }
}

/// The atom an attribute denotes, if it is of the one-identifier shape.
pub open spec fn attr_atom_spec(attr: GreenNode) -> Option<Seq<char>> {
    first_tt_atom(attr.children_spec())
}

/// The call name an attribute denotes, if it is of the call shape.
pub open spec fn attr_call_spec(attr: GreenNode) -> Option<Seq<char>> {
    first_tt_call(attr.children_spec())
}

/// Whether some attribute among the children denotes the given atom.
pub open spec fn has_atom_spec(cs: Seq<Arc<GreenNode>>, atom: Seq<char>) -> bool
    decreases cs.len(),
{
    if cs.len() == 0 {
        false
    } else {
        ((*cs[0]).kind_spec() == SyntaxKind::ATTR && attr_atom_spec(*cs[0]) == Some(atom))
            || has_atom_spec(cs.drop_first(), atom)
    }
}

/// Whether `i` is the first direct child whose kind fits a type position.
pub open spec fn is_first_type_ref(n: GreenNode, i: int) -> bool {
    &&& 0 <= i < num_children_of(n)
    &&& typeref_kind(child_kind(n, i))
    &&& forall|j: int| 0 <= j < i ==> !typeref_kind(#[trigger] child_kind(n, j))
}

/// Whether `j` is the second direct child whose kind fits a type position,
/// the first being `i`.
pub open spec fn is_second_type_ref(n: GreenNode, i: int, j: int) -> bool {
    &&& is_first_type_ref(n, i)
    &&& i < j < num_children_of(n)
    &&& typeref_kind(child_kind(n, j))
    &&& forall|q: int| i < q < j ==> !typeref_kind(#[trigger] child_kind(n, q))
}

} // verus!
