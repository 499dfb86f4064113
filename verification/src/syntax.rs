//! The navigable ("red") view over a green tree.
//!
//! A navigable node is a handle to the owning tree root plus a path of child
//! indices identifying a position within it; kind, absolute range, text and
//! the neighbouring nodes are computed on demand. The view comes in two
//! ownership flavors sharing one navigation contract: one that keeps the
//! underlying tree alive itself and one that borrows it from a caller.

use vstd::prelude::*;
use std::sync::Arc;
use crate::kinds::SyntaxKind;
use crate::green::{
    GreenNode, green_text, green_concat, green_wf, lemma_green_concat_split,
    lemma_green_concat_take_succ, lemma_green_concat_child_bound,
};
use crate::text::TextRange;

verus! {

/// A recoverable syntax error: the range it covers and a message.
pub struct SyntaxError {
    pub range: TextRange,
    pub msg: String,
}

/// The mathematical value of a diagnostic: its range and message text.
pub ghost struct ErrView {
    pub range: TextRange,
    pub msg: Seq<char>,
}

impl View for SyntaxError {
    type V = ErrView;

    open spec fn view(&self) -> ErrView {
        ErrView { range: self.range, msg: self.msg@ }
    }
}

impl DeepView for SyntaxError {
    type V = ErrView;

    open spec fn deep_view(&self) -> ErrView {
        self@
    }
}

impl SyntaxError {
    /// Builds a diagnostic from its range and message.
    pub fn new(range: TextRange, msg: String) -> (e: SyntaxError)
        ensures
            e@ == (ErrView { range, msg: msg@ }),
    {
        SyntaxError { range, msg }
    }

    /// An independent copy of the diagnostic.
    pub fn duplicate(&self) -> (e: SyntaxError)
        ensures
            e@ == self@,
    {
        SyntaxError { range: self.range, msg: self.msg.clone() }
    }
}

/// Copies a diagnostic list; the result aliases nothing.
pub fn copy_errors(errors: &Vec<SyntaxError>) -> (r: Vec<SyntaxError>)
    ensures
        r.deep_view() == errors.deep_view(),
{
    let mut r: Vec<SyntaxError> = Vec::new();
    let mut i: usize = 0;
    while i < errors.len()
        invariant
            i <= errors@.len(),
            r.deep_view() =~= errors.deep_view().take(i as int),
        decreases errors@.len() - i,
    {
        let ghost prev = r.deep_view();
        r.push(errors[i].duplicate());
        proof {
            assert(r.deep_view() =~= prev.push(errors.deep_view()[i as int]));
            assert(errors.deep_view().take(i as int + 1) =~= errors.deep_view().take(
                i as int,
            ).push(errors.deep_view()[i as int]));
        }
        i += 1;
    }
    proof {
        assert(errors.deep_view().take(errors@.len() as int) =~= errors.deep_view());
    }
    r
}

/// One parse result: the green tree and the diagnostics produced with it.
pub struct SyntaxRoot {
    pub green: Arc<GreenNode>,
    pub errors: Vec<SyntaxError>,
}

impl SyntaxRoot {
    /// A root is well formed when its green tree is.
    pub open spec fn wf(self) -> bool {
        green_wf(*self.green)
    }
}

/// Whether `path` denotes a node within `n`: at every step it selects an
/// existing child of a composite.
pub open spec fn path_valid(n: GreenNode, path: Seq<usize>) -> bool
    decreases path.len(),
{
    path.len() == 0 || {
        &&& !n.is_leaf_spec()
        &&& path[0] < n.children_spec().len()
        &&& path_valid(*n.children_spec()[path[0] as int], path.drop_first())
    }
}

/// The node that `path` denotes within `n`.
pub open spec fn node_at(n: GreenNode, path: Seq<usize>) -> GreenNode
    decreases path.len(),
{
    if path.len() == 0 {
        n
    } else {
        node_at(*n.children_spec()[path[0] as int], path.drop_first())
    }
}

/// The character offset, within `n`'s text, at which the text of the node
/// that `path` denotes begins.
pub open spec fn path_offset(n: GreenNode, path: Seq<usize>) -> int
    decreases path.len(),
{
    if path.len() == 0 {
        0
    } else {
        green_concat(n.children_spec().take(path[0] as int)).len()
            + path_offset(*n.children_spec()[path[0] as int], path.drop_first())
    }
}

/// Every prefix of a valid path is valid.
pub proof fn lemma_path_valid_prefix(n: GreenNode, path: Seq<usize>, i: int)
    requires
        path_valid(n, path),
        0 <= i <= path.len(),
    ensures
        path_valid(n, path.take(i)),
    decreases i,
{
    if i == 0 {
        assert(path.take(0).len() == 0);
    } else {
        let ghost child = *n.children_spec()[path[0] as int];
        lemma_path_valid_prefix(child, path.drop_first(), i - 1);
        assert(path.take(i)[0] == path[0]);
        assert(path.take(i).drop_first() =~= path.drop_first().take(i - 1));
    }
}

/// Extending a path by one child index steps into that child.
pub proof fn lemma_node_at_snoc(n: GreenNode, path: Seq<usize>, c: usize)
    requires
        path_valid(n, path),
    ensures
        path_valid(n, path.push(c)) <==> (!node_at(n, path).is_leaf_spec() && c
            < node_at(n, path).children_spec().len()),
        path_valid(n, path.push(c)) ==> node_at(n, path.push(c)) == *node_at(
            n,
            path,
        ).children_spec()[c as int],
        path_valid(n, path.push(c)) ==> path_offset(n, path.push(c)) == path_offset(n, path)
            + green_concat(node_at(n, path).children_spec().take(c as int)).len(),
    decreases path.len(),
{
    if path.len() == 0 {
        reveal_with_fuel(path_valid, 2);
        reveal_with_fuel(node_at, 2);
        reveal_with_fuel(path_offset, 2);
        assert(path.push(c)[0] == c);
        assert(path.push(c).drop_first() =~= Seq::<usize>::empty());
    } else {
        let ghost child = *n.children_spec()[path[0] as int];
        lemma_node_at_snoc(child, path.drop_first(), c);
        assert(path.push(c)[0] == path[0]);
        assert(path.push(c).drop_first() =~= path.drop_first().push(c));
    }
}

/// Every node a valid path reaches within a well-formed tree is well formed.
pub proof fn lemma_wf_node_at(n: GreenNode, path: Seq<usize>)
    requires
        green_wf(n),
        path_valid(n, path),
    ensures
        green_wf(node_at(n, path)),
    decreases path.len(),
{
    if path.len() != 0 {
        let ghost child = *n.children_spec()[path[0] as int];
        assert(green_wf(child));
        lemma_wf_node_at(child, path.drop_first());
    }
}

/// The text of the node a path reaches is the slice of the whole text that
/// starts at the path's offset and spans the node's width.
pub proof fn lemma_node_text_slice(n: GreenNode, path: Seq<usize>)
    requires
        green_wf(n),
        path_valid(n, path),
    ensures
        0 <= path_offset(n, path),
        path_offset(n, path) + green_text(node_at(n, path)).len() <= green_text(n).len(),
        green_text(node_at(n, path)) == green_text(n).subrange(
            path_offset(n, path),
            path_offset(n, path) + green_text(node_at(n, path)).len(),
        ),
    decreases path.len(),
{
    if path.len() == 0 {
        assert(green_text(node_at(n, path)) =~= green_text(n).subrange(
            0,
            green_text(n).len() as int,
        ));
    } else {
        let d = path[0] as int;
        let cs = n.children_spec();
        let child = *cs[d];
        assert(green_wf(child));
        lemma_node_text_slice(child, path.drop_first());
        lemma_green_concat_split(cs, d);
        lemma_green_concat_take_succ(cs, d);
        let base = green_concat(cs.take(d)).len() as int;
        let sub = node_at(child, path.drop_first());
        let off = path_offset(child, path.drop_first());
        // The child's text is a slice of the whole text.
        assert(green_text(n) == green_concat(cs));
        assert(green_concat(cs) == green_concat(cs.take(d)) + green_concat(cs.skip(d)));
        assert(green_concat(cs.take(d + 1)) == green_concat(cs.take(d)) + green_text(child));
        lemma_green_concat_split(cs, d + 1);
        assert(green_concat(cs) == green_concat(cs.take(d + 1)) + green_concat(cs.skip(d + 1)));
        assert(green_text(child) == green_text(n).subrange(base, base + green_text(child).len()))
            by {
            assert(green_text(n) =~= green_concat(cs.take(d)) + green_text(child) + green_concat(
                cs.skip(d + 1),
            ));
            assert(green_text(n).subrange(base, base + green_text(child).len()) =~= green_text(
                child,
            ));
        }
        // Compose with the slice inside the child.
        assert(green_text(sub) == green_text(child).subrange(off, off + green_text(sub).len()));
        assert(green_text(sub) =~= green_text(n).subrange(
            base + off,
            base + off + green_text(sub).len(),
        ));
    }
}

/// Copies a path of child indices.
fn clone_path(path: &Vec<usize>) -> (r: Vec<usize>)
    ensures
        r@ == path@,
{
    let mut r: Vec<usize> = Vec::new();
    let mut i: usize = 0;
    while i < path.len()
        invariant
            i <= path@.len(),
            r@ =~= path@.take(i as int),
        decreases path@.len() - i,
    {
        r.push(path[i]);
        proof {
            assert(r@ =~= path@.take(i as int + 1));
        }
        i += 1;
    }
    proof {
        assert(path@.take(path@.len() as int) =~= path@);
    }
    r
}

/// How a navigable node keeps its tree root alive. The two implementations
/// — an owning handle and a borrowing one — are interchangeable wherever
/// navigation is used; they differ only in how long the tree must outlive
/// the node.
pub trait TreeRoot: Sized {
    /// The root this handle designates.
    spec fn root_spec(&self) -> SyntaxRoot;

    /// Access to the designated root.
    fn syntax_root(&self) -> (r: &SyntaxRoot)
        ensures
            *r == self.root_spec(),
    ;

    /// A second handle to the same root.
    fn duplicate(&self) -> (r: Self)
        ensures
            r.root_spec() == self.root_spec(),
    ;
}

/// A root handle that keeps the tree alive by shared ownership.
pub struct OwnedRoot(pub Arc<SyntaxRoot>);

/// A root handle borrowed from a caller that holds the tree.
pub struct RefRoot<'a>(pub &'a Arc<SyntaxRoot>);

impl TreeRoot for OwnedRoot {
    open spec fn root_spec(&self) -> SyntaxRoot {
        *self.0
    }

    fn syntax_root(&self) -> (r: &SyntaxRoot) {
        &self.0
    }

    fn duplicate(&self) -> (r: Self) {
        OwnedRoot(self.0.clone())
    }
}

impl<'a> TreeRoot for RefRoot<'a> {
    open spec fn root_spec(&self) -> SyntaxRoot {
        **self.0
    }

    fn syntax_root(&self) -> (r: &SyntaxRoot) {
        self.0
    }

    fn duplicate(&self) -> (r: Self) {
        RefRoot(self.0)
    }
}

/// An ephemeral, position-aware view of one node: a handle to the owning
/// tree root plus the path of child indices that reaches the node.
pub struct SyntaxNode<R: TreeRoot> {
    root: R,
    path: Vec<usize>,
}

/// The borrowing flavor of a navigable node.
pub type SyntaxNodeRef<'a> = SyntaxNode<RefRoot<'a>>;

impl<R: TreeRoot> SyntaxNode<R> {
    /// The green tree this node lives in.
    pub closed spec fn green_root_spec(self) -> GreenNode {
        *self.root.root_spec().green
    }

    /// The diagnostics attached to this node's tree.
    pub closed spec fn errors_spec(self) -> Seq<ErrView> {
        self.root.root_spec().errors.deep_view()
    }

    /// The path of child indices from the root to this node.
    pub closed spec fn path_spec(self) -> Seq<usize> {
        self.path@
    }

    /// A navigable node is well formed when its tree is and its path
    /// denotes a node of it.
    pub open spec fn wf(self) -> bool {
        &&& green_wf(self.green_root_spec())
        &&& path_valid(self.green_root_spec(), self.path_spec())
    }

    /// The green node this view designates.
    pub open spec fn node_spec(self) -> GreenNode {
        node_at(self.green_root_spec(), self.path_spec())
    }

    /// The node's kind.
    pub open spec fn kind_spec(self) -> SyntaxKind {
        self.node_spec().kind_spec()
    }

    /// The node's text.
    pub open spec fn text_spec(self) -> Seq<char> {
        green_text(self.node_spec())
    }

    /// The absolute character offset of the node's text in the document.
    pub open spec fn offset_spec(self) -> int {
        path_offset(self.green_root_spec(), self.path_spec())
    }

    /// The whole document's text.
    pub open spec fn full_text_spec(self) -> Seq<char> {
        green_text(self.green_root_spec())
    }

    /// Whether `other` is a view into the same tree.
    pub open spec fn same_tree<R2: TreeRoot>(self, other: SyntaxNode<R2>) -> bool {
        self.green_root_spec() == other.green_root_spec() && self.errors_spec()
            == other.errors_spec()
    }

    /// A reference to the designated green node.
    fn node_ref(&self) -> (r: &GreenNode)
        requires
            self.wf(),
        ensures
            *r == self.node_spec(),
    {
        let root = self.root.syntax_root();
        let mut n: &GreenNode = &root.green;
        let mut i: usize = 0;
        while i < self.path.len()
            invariant
                self.wf(),
                i <= self.path@.len(),
                path_valid(self.green_root_spec(), self.path@.take(i as int)),
                *n == node_at(self.green_root_spec(), self.path@.take(i as int)),
            decreases self.path@.len() - i,
        {
            proof {
                lemma_path_valid_prefix(self.green_root_spec(), self.path@, i as int + 1);
                assert(self.path@.take(i as int + 1) =~= self.path@.take(i as int).push(
                    self.path@[i as int],
                ));
                lemma_node_at_snoc(
                    self.green_root_spec(),
                    self.path@.take(i as int),
                    self.path@[i as int],
                );
            }
            let d = self.path[i];
            n = &n.children()[d];
            i += 1;
        }
        proof {
            assert(self.path@.take(self.path@.len() as int) =~= self.path@);
        }
        n
    }

    /// The path of child indices from the root to this node.
    pub fn path_vec(&self) -> (r: Vec<usize>)
        ensures
            r@ == self.path_spec(),
    {
        clone_path(&self.path)
    }

    /// A reference to the green node this view designates.
    pub fn green_node(&self) -> (r: &GreenNode)
        requires
            self.wf(),
        ensures
            *r == self.node_spec(),
    {
        self.node_ref()
    }

    /// The node's kind.
    pub fn kind(&self) -> (k: SyntaxKind)
        requires
            self.wf(),
        ensures
            k == self.kind_spec(),
    {
        self.node_ref().kind()
    }

    /// The node's full text.
    pub fn text(&self) -> (r: String)
        requires
            self.wf(),
        ensures
            r@ == self.text_spec(),
    {
        self.node_ref().to_text()
    }

    /// A token leaf's literal text; a composite has none.
    pub fn leaf_text(&self) -> (r: Option<String>)
        requires
            self.wf(),
        ensures
            r is Some <==> self.node_spec().is_leaf_spec(),
            r matches Some(t) ==> t@ == self.node_spec().leaf_text_spec(),
    {
        match self.node_ref() {
            GreenNode::Leaf { text, .. } => Some(text.clone()),
            GreenNode::Node { .. } => None,
        }
    }

    /// The node's absolute text range within the document.
    pub fn range(&self) -> (r: TextRange)
        requires
            self.wf(),
        ensures
            r.start == self.offset_spec(),
            r.end == self.offset_spec() + self.text_spec().len(),
    {
        proof {
            lemma_node_text_slice(self.green_root_spec(), self.path_spec());
            lemma_wf_node_at(self.green_root_spec(), self.path_spec());
        }
        let root = self.root.syntax_root();
        let mut n: &GreenNode = &root.green;
        let total_w = n.width();
        let mut off: usize = 0;
        let mut i: usize = 0;
        while i < self.path.len()
            invariant
                self.wf(),
                i <= self.path@.len(),
                path_valid(self.green_root_spec(), self.path@.take(i as int)),
                *n == node_at(self.green_root_spec(), self.path@.take(i as int)),
                off == path_offset(self.green_root_spec(), self.path@.take(i as int)),
                off + green_text(*n).len() <= green_text(self.green_root_spec()).len(),
                green_text(self.green_root_spec()).len() <= usize::MAX,
            decreases self.path@.len() - i,
        {
            proof {
                lemma_path_valid_prefix(self.green_root_spec(), self.path@, i as int + 1);
                assert(self.path@.take(i as int + 1) =~= self.path@.take(i as int).push(
                    self.path@[i as int],
                ));
                lemma_node_at_snoc(
                    self.green_root_spec(),
                    self.path@.take(i as int),
                    self.path@[i as int],
                );
                lemma_wf_node_at(self.green_root_spec(), self.path@.take(i as int));
            }
            let d = self.path[i];
            let cs = n.children();
            let ghost parent = *n;
            let ghost base = off as int;
            let mut k: usize = 0;
            while k < d
                invariant
                    self.wf(),
                    k <= d,
                    d < cs@.len(),
                    cs@ == parent.children_spec(),
                    green_wf(parent),
                    off == base + green_concat(parent.children_spec().take(k as int)).len(),
                    base + green_text(parent).len() <= green_text(
                        self.green_root_spec(),
                    ).len(),
                    green_text(self.green_root_spec()).len() <= usize::MAX,
                    green_text(parent) == green_concat(parent.children_spec()),
                decreases d - k,
            {
                proof {
                    lemma_green_concat_child_bound(parent.children_spec(), k as int);
                    lemma_green_concat_take_succ(parent.children_spec(), k as int);
                    assert(green_wf(*parent.children_spec()[k as int]));
                }
                let c: &GreenNode = &cs[k];
                off = off + c.width();
                k += 1;
            }
            proof {
                lemma_node_text_slice(
                    self.green_root_spec(),
                    self.path@.take(i as int + 1),
                );
            }
            n = &n.children()[d];
            i += 1;
        }
        proof {
            assert(self.path@.take(self.path@.len() as int) =~= self.path@);
            lemma_wf_node_at(self.green_root_spec(), self.path_spec());
        }
        let w = n.width();
        TextRange { start: off, end: off + w }
    }

    /// The node's parent; absent only at the root.
    pub fn parent(&self) -> (r: Option<Self>)
        requires
            self.wf(),
        ensures
            r is Some <==> self.path_spec().len() > 0,
            r matches Some(p) ==> {
                &&& p.wf()
                &&& p.same_tree(*self)
                &&& p.path_spec() == self.path_spec().take(self.path_spec().len() - 1)
            },
    {
        if self.path.len() == 0 {
            None
        } else {
            let mut path = clone_path(&self.path);
            path.pop();
            proof {
                assert(path@ =~= self.path@.take(self.path@.len() - 1));
                lemma_path_valid_prefix(
                    self.green_root_spec(),
                    self.path@,
                    self.path@.len() - 1,
                );
            }
            Some(SyntaxNode { root: self.root.duplicate(), path })
        }
    }

    /// How many children the node has.
    pub fn num_children(&self) -> (r: usize)
        requires
            self.wf(),
        ensures
            r == self.node_spec().children_spec().len(),
    {
        self.node_ref().num_children()
    }

    /// The `i`-th child.
    pub fn child(&self, i: usize) -> (r: Self)
        requires
            self.wf(),
            i < self.node_spec().children_spec().len(),
        ensures
            r.wf(),
            r.same_tree(*self),
            r.path_spec() == self.path_spec().push(i),
            r.node_spec() == *self.node_spec().children_spec()[i as int],
    {
        proof {
            lemma_node_at_snoc(self.green_root_spec(), self.path_spec(), i);
        }
        let mut path = clone_path(&self.path);
        path.push(i);
        SyntaxNode { root: self.root.duplicate(), path }
    }

    /// The first child, if any.
    pub fn first_child(&self) -> (r: Option<Self>)
        requires
            self.wf(),
        ensures
            r is Some <==> self.node_spec().children_spec().len() > 0,
            r matches Some(c) ==> {
                &&& c.wf()
                &&& c.same_tree(*self)
                &&& c.path_spec() == self.path_spec().push(0usize)
                &&& c.node_spec() == *self.node_spec().children_spec()[0]
            },
    {
        if self.num_children() == 0 {
            None
        } else {
            Some(self.child(0))
        }
    }

    /// The last child, if any.
    pub fn last_child(&self) -> (r: Option<Self>)
        requires
            self.wf(),
        ensures
            r is Some <==> self.node_spec().children_spec().len() > 0,
            r matches Some(c) ==> {
                &&& c.wf()
                &&& c.same_tree(*self)
                &&& c.path_spec() == self.path_spec().push(
                    (self.node_spec().children_spec().len() - 1) as usize,
                )
                &&& c.node_spec() == *self.node_spec().children_spec()[self.node_spec().children_spec().len() - 1]
            },
    {
        let n = self.num_children();
        if n == 0 {
            None
        } else {
            Some(self.child(n - 1))
        }
    }

    /// The next sibling under the same parent, if any.
    pub fn next_sibling(&self) -> (r: Option<Self>)
        requires
            self.wf(),
        ensures
            r is Some <==> (self.path_spec().len() > 0 && self.path_spec().last() + 1 < node_at(
                self.green_root_spec(),
                self.path_spec().take(self.path_spec().len() - 1),
            ).children_spec().len()),
            r matches Some(s) ==> {
                &&& s.wf()
                &&& s.same_tree(*self)
                &&& s.path_spec() == self.path_spec().take(self.path_spec().len() - 1).push(
                    (self.path_spec().last() + 1) as usize,
                )
            },
    {
        match self.parent() {
            None => None,
            Some(p) => {
                let d = self.path[self.path.len() - 1];
                let siblings = p.num_children();
                if d < usize::MAX && d + 1 < siblings {
                    proof {
                        lemma_node_at_snoc(p.green_root_spec(), p.path_spec(), (d + 1) as usize);
                    }
                    let mut path = clone_path(&p.path);
                    path.push(d + 1);
                    Some(SyntaxNode { root: self.root.duplicate(), path })
                } else {
                    None
                }
            },
        }
    }

    /// The previous sibling under the same parent, if any.
    pub fn prev_sibling(&self) -> (r: Option<Self>)
        requires
            self.wf(),
        ensures
            r is Some <==> (self.path_spec().len() > 0 && self.path_spec().last() > 0),
            r matches Some(s) ==> {
                &&& s.wf()
                &&& s.same_tree(*self)
                &&& s.path_spec() == self.path_spec().take(self.path_spec().len() - 1).push(
                    (self.path_spec().last() - 1) as usize,
                )
            },
    {
        match self.parent() {
            None => None,
            Some(p) => {
                let d = self.path[self.path.len() - 1];
                if d > 0 {
                    proof {
                        lemma_node_at_snoc(p.green_root_spec(), p.path_spec(), (d - 1) as usize);
                        assert(path_valid(self.green_root_spec(), self.path_spec()));
                        assert(node_at(p.green_root_spec(), p.path_spec()).children_spec().len()
                            > d - 1) by {
                            lemma_node_at_snoc(p.green_root_spec(), p.path_spec(), d);
                            assert(p.path_spec().push(d) =~= self.path_spec());
                        }
                    }
                    let mut path = clone_path(&p.path);
                    path.push(d - 1);
                    Some(SyntaxNode { root: self.root.duplicate(), path })
                } else {
                    None
                }
            },
        }
    }

    /// All children in order.
    pub fn children(&self) -> (r: Vec<Self>)
        requires
            self.wf(),
        ensures
            r@.len() == self.node_spec().children_spec().len(),
            forall|i: int|
                0 <= i < r@.len() ==> {
                    &&& (#[trigger] r@[i]).wf()
                    &&& r@[i].same_tree(*self)
                    &&& r@[i].path_spec() == self.path_spec().push(i as usize)
                    &&& r@[i].node_spec() == *self.node_spec().children_spec()[i]
                },
    {
        let n = self.num_children();
        let mut r: Vec<Self> = Vec::new();
        let mut i: usize = 0;
        while i < n
            invariant
                self.wf(),
                i <= n,
                n == self.node_spec().children_spec().len(),
                r@.len() == i,
                forall|k: int|
                    0 <= k < i ==> {
                        &&& (#[trigger] r@[k]).wf()
                        &&& r@[k].same_tree(*self)
                        &&& r@[k].path_spec() == self.path_spec().push(k as usize)
                        &&& r@[k].node_spec() == *self.node_spec().children_spec()[k]
                    },
            decreases n - i,
        {
            r.push(self.child(i));
            i += 1;
        }
        r
    }

    /// This node and every ancestor up to the root, nearest first.
    pub fn ancestors(&self) -> (r: Vec<Self>)
        requires
            self.wf(),
        ensures
            r@.len() == self.path_spec().len() + 1,
            forall|k: int|
                0 <= k < r@.len() ==> {
                    &&& (#[trigger] r@[k]).wf()
                    &&& r@[k].same_tree(*self)
                    &&& r@[k].path_spec() == self.path_spec().take(self.path_spec().len() - k)
                },
    {
        let mut r: Vec<Self> = Vec::new();
        let cur = SyntaxNode { root: self.root.duplicate(), path: clone_path(&self.path) };
        proof {
            assert(self.path_spec().take(self.path_spec().len() as int) =~= self.path_spec());
        }
        r.push(cur);
        let mut keep = self.path.len();
        while keep > 0
            invariant
                self.wf(),
                keep <= self.path@.len(),
                r@.len() == self.path@.len() - keep + 1,
                forall|j: int|
                    0 <= j < r@.len() ==> {
                        &&& (#[trigger] r@[j]).wf()
                        &&& r@[j].same_tree(*self)
                        &&& r@[j].path_spec() == self.path_spec().take(self.path_spec().len() - j)
                    },
            decreases keep,
        {
            keep -= 1;
            proof {
                lemma_path_valid_prefix(self.green_root_spec(), self.path_spec(), keep as int);
            }
            let mut path = clone_path(&self.path);
            path.truncate(keep);
            proof {
                assert(path@ =~= self.path_spec().take(keep as int));
            }
            r.push(SyntaxNode { root: self.root.duplicate(), path });
        }
        r
    }

    /// A second view of the same node.
    pub fn duplicate(&self) -> (r: Self)
        ensures
            r.green_root_spec() == self.green_root_spec(),
            r.errors_spec() == self.errors_spec(),
            r.path_spec() == self.path_spec(),
    {
        SyntaxNode { root: self.root.duplicate(), path: clone_path(&self.path) }
    }

    /// The diagnostics of the owning tree, as an independent copy.
    pub fn root_errors(&self) -> (r: Vec<SyntaxError>)
        ensures
            r.deep_view() == self.errors_spec(),
    {
        copy_errors(&self.root.syntax_root().errors)
    }
}

impl SyntaxNode<OwnedRoot> {
    /// Wraps a parse result into an owned navigable root node.
    pub fn new_owned(root: SyntaxRoot) -> (r: Self)
        ensures
            r.green_root_spec() == root.green,
            r.errors_spec() == root.errors.deep_view(),
            r.path_spec() == Seq::<usize>::empty(),
    {
        SyntaxNode { root: OwnedRoot(Arc::new(root)), path: Vec::new() }
    }

    /// The same view borrowing this node's tree.
    pub fn borrowed<'a>(&'a self) -> (r: SyntaxNodeRef<'a>)
        ensures
            r.green_root_spec() == self.green_root_spec(),
            r.errors_spec() == self.errors_spec(),
            r.path_spec() == self.path_spec(),
    {
        SyntaxNode { root: RefRoot(&self.root.0), path: clone_path(&self.path) }
    }

    /// The same view, owning the tree.
    pub fn owned(&self) -> (r: SyntaxNode<OwnedRoot>)
        ensures
            r.green_root_spec() == self.green_root_spec(),
            r.errors_spec() == self.errors_spec(),
            r.path_spec() == self.path_spec(),
    {
        self.duplicate()
    }
}

impl<'a> SyntaxNode<RefRoot<'a>> {
    /// The same view with an owning handle to the tree.
    pub fn owned(&self) -> (r: SyntaxNode<OwnedRoot>)
        ensures
            r.green_root_spec() == self.green_root_spec(),
            r.errors_spec() == self.errors_spec(),
            r.path_spec() == self.path_spec(),
    {
        SyntaxNode { root: OwnedRoot(self.root.0.clone()), path: clone_path(&self.path) }
    }
}

} // verus!
