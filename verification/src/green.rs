//! The immutable ("green") tree model.
//!
//! A green node is position-free: a leaf carries a kind and its exact source
//! text, a composite carries a kind, a stored width and an ordered sequence
//! of shared child handles. Offsets are always derived, never stored, so a
//! subtree can be shared by reference between tree versions.

use vstd::prelude::*;
use std::sync::Arc;
use crate::kinds::SyntaxKind;

verus! {

/// An immutable syntax tree value: either a token leaf with its literal
/// source text or a composite node with shared children.
pub enum GreenNode {
    Leaf { kind: SyntaxKind, text: String },
    Node { kind: SyntaxKind, width: usize, children: Vec<Arc<GreenNode>> },
}

/// The text of a green node: a leaf's own text, or the concatenation of the
/// children's texts in order.
pub open spec fn green_text(n: GreenNode) -> Seq<char>
    decreases n via green_text_decreases
{
    match n {
        GreenNode::Leaf { kind, text } => text@,
        GreenNode::Node { kind, width, children } => green_concat(children@),
    }
}

/// The concatenation of the texts of a sequence of green nodes.
pub open spec fn green_concat(cs: Seq<Arc<GreenNode>>) -> Seq<char>
    decreases cs via green_concat_decreases
{
    if cs.len() == 0 {
        Seq::empty()
    } else {
        green_text(*cs[0]) + green_concat(cs.drop_first())
    }
}

#[via_fn]
proof fn green_text_decreases(n: GreenNode) {
    match n {
        GreenNode::Leaf { kind, text } => {
        },
        GreenNode::Node { kind, width, children } => {
            assert(decreases_to!(n => children));
            assert(decreases_to!(children => children@));
        },
    }
}

#[via_fn]
proof fn green_concat_decreases(cs: Seq<Arc<GreenNode>>) {
    if cs.len() != 0 {
        assert(decreases_to!(cs => cs[0]));
    }
}

/// Well-formedness: a leaf's kind is a token kind; a composite's stored
/// width equals the sum of its children's widths, which in turn equals the
/// length of its text.
pub open spec fn green_wf(n: GreenNode) -> bool
    decreases n via green_wf_decreases
{
    match n {
        GreenNode::Leaf { kind, text } => kind.is_token_kind(),
        GreenNode::Node { kind, width, children } => {
            &&& !kind.is_token_kind()
            &&& width == green_concat(children@).len()
            &&& forall|i: int| 0 <= i < children@.len() ==> green_wf(#[trigger] *children@[i])
        },
    }
}

#[via_fn]
proof fn green_wf_decreases(n: GreenNode) {
    match n {
        GreenNode::Leaf { kind, text } => {
        },
        GreenNode::Node { kind, width, children } => {
            assert forall|i: int| 0 <= i < children@.len() implies decreases_to!(n => *children@[i]) by {
                assert(decreases_to!(n => children));
                assert(decreases_to!(children@ => children@[i]));
            }
        },
    }
}

/// The node a shared handle designates.
pub open spec fn green_of(rc: Arc<GreenNode>) -> GreenNode {
    *rc
}

/// The leaf tokens of a subtree, in document order: each leaf contributes
/// its kind and its width.
pub open spec fn green_leaves(n: GreenNode) -> Seq<(SyntaxKind, nat)>
    decreases n via green_leaves_decreases
{
    match n {
        GreenNode::Leaf { kind, text } => Seq::empty().push((kind, text@.len())),
        GreenNode::Node { kind, width, children } => leaves_concat(children@),
    }
}

/// The leaf tokens of a sequence of subtrees, in order.
pub open spec fn leaves_concat(cs: Seq<Arc<GreenNode>>) -> Seq<(SyntaxKind, nat)>
    decreases cs via leaves_concat_decreases
{
    if cs.len() == 0 {
        Seq::empty()
    } else {
        green_leaves(*cs[0]) + leaves_concat(cs.drop_first())
    }
}

#[via_fn]
proof fn green_leaves_decreases(n: GreenNode) {
    match n {
        GreenNode::Leaf { kind, text } => {
        },
        GreenNode::Node { kind, width, children } => {
            assert(decreases_to!(n => children));
            assert(decreases_to!(children => children@));
        },
    }
}

#[via_fn]
proof fn leaves_concat_decreases(cs: Seq<Arc<GreenNode>>) {
    if cs.len() != 0 {
        assert(decreases_to!(cs => cs[0]));
    }
}

/// Appending one subtree extends the leaf listing by that subtree's leaves.
pub proof fn lemma_leaves_concat_push(cs: Seq<Arc<GreenNode>>, x: Arc<GreenNode>)
    ensures
        leaves_concat(cs.push(x)) == leaves_concat(cs) + green_leaves(*x),
    decreases cs.len(),
{
    if cs.len() == 0 {
        reveal_with_fuel(leaves_concat, 2);
        assert(cs.push(x)[0] == x);
        assert(cs.push(x).drop_first() =~= Seq::<Arc<GreenNode>>::empty());
        assert(leaves_concat(cs.push(x)) =~= green_leaves(*x));
        assert(leaves_concat(cs) + green_leaves(*x) =~= green_leaves(*x));
    } else {
        assert(cs.push(x)[0] == cs[0]);
        assert(cs.push(x).drop_first() =~= cs.drop_first().push(x));
        lemma_leaves_concat_push(cs.drop_first(), x);
        assert(leaves_concat(cs.push(x)) =~= leaves_concat(cs) + green_leaves(*x));
    }
}

/// The leaf listing splits at any subtree boundary.
pub proof fn lemma_leaves_concat_split(cs: Seq<Arc<GreenNode>>, i: int)
    requires
        0 <= i <= cs.len(),
    ensures
        leaves_concat(cs) == leaves_concat(cs.take(i)) + leaves_concat(cs.skip(i)),
    decreases i,
{
    if i == 0 {
        assert(cs.take(0) =~= Seq::<Arc<GreenNode>>::empty());
        assert(cs.skip(0) =~= cs);
        assert(leaves_concat(cs) =~= leaves_concat(cs.take(0)) + leaves_concat(cs.skip(0)));
    } else {
        lemma_leaves_concat_split(cs.drop_first(), i - 1);
        assert(cs.take(i)[0] == cs[0]);
        assert(cs.take(i).drop_first() =~= cs.drop_first().take(i - 1));
        assert(cs.skip(i) =~= cs.drop_first().skip(i - 1));
        assert(leaves_concat(cs) =~= leaves_concat(cs.take(i)) + leaves_concat(cs.skip(i)));
    }
}

/// The height of a green node: leaves have height zero, a composite is one
/// higher than its highest child.
pub open spec fn green_height(n: GreenNode) -> nat
    decreases n via green_height_decreases
{
    match n {
        GreenNode::Leaf { .. } => 0,
        GreenNode::Node { children, .. } => 1 + max_child_height(children@),
    }
}

/// The greatest height among a sequence of nodes.
pub open spec fn max_child_height(cs: Seq<Arc<GreenNode>>) -> nat
    decreases cs via max_child_height_decreases
{
    if cs.len() == 0 {
        0
    } else {
        let h0 = green_height(*cs[0]);
        let hr = max_child_height(cs.drop_first());
        if h0 > hr {
            h0
        } else {
            hr
        }
    }
}

#[via_fn]
proof fn green_height_decreases(n: GreenNode) {
    match n {
        GreenNode::Leaf { .. } => {
        },
        GreenNode::Node { kind, width, children } => {
            assert(decreases_to!(n => children));
            assert(decreases_to!(children => children@));
        },
    }
}

#[via_fn]
proof fn max_child_height_decreases(cs: Seq<Arc<GreenNode>>) {
    if cs.len() != 0 {
        assert(decreases_to!(cs => cs[0]));
    }
}

/// Every child is strictly lower than its parent.
pub proof fn lemma_child_height(cs: Seq<Arc<GreenNode>>, i: int)
    requires
        0 <= i < cs.len(),
    ensures
        green_height(*cs[i]) <= max_child_height(cs),
    decreases cs.len(),
{
    if i == 0 {
    } else {
        lemma_child_height(cs.drop_first(), i - 1);
        assert(cs.drop_first()[i - 1] == cs[i]);
    }
}

/// Appending one node extends the concatenated text by that node's text.
pub proof fn lemma_green_concat_push(cs: Seq<Arc<GreenNode>>, x: Arc<GreenNode>)
    ensures
        green_concat(cs.push(x)) == green_concat(cs) + green_text(*x),
    decreases cs.len(),
{
    if cs.len() == 0 {
        reveal_with_fuel(green_concat, 2);
        assert(cs.push(x)[0] == x);
        assert(cs.push(x).drop_first() =~= Seq::<Arc<GreenNode>>::empty());
        assert(green_concat(cs.push(x)) =~= green_text(*x));
        assert(green_concat(cs) + green_text(*x) =~= green_text(*x));
    } else {
        assert(cs.push(x)[0] == cs[0]);
        assert(cs.push(x).drop_first() =~= cs.drop_first().push(x));
        lemma_green_concat_push(cs.drop_first(), x);
        assert(green_concat(cs.push(x)) =~= green_concat(cs) + green_text(*x));
    }
}

/// The concatenated text splits at any child boundary.
pub proof fn lemma_green_concat_split(cs: Seq<Arc<GreenNode>>, i: int)
    requires
        0 <= i <= cs.len(),
    ensures
        green_concat(cs) == green_concat(cs.take(i)) + green_concat(cs.skip(i)),
    decreases i,
{
    if i == 0 {
        assert(cs.take(0) =~= Seq::<Arc<GreenNode>>::empty());
        assert(cs.skip(0) =~= cs);
        assert(green_concat(cs) =~= green_concat(cs.take(0)) + green_concat(cs.skip(0)));
    } else {
        lemma_green_concat_split(cs.drop_first(), i - 1);
        assert(cs.take(i)[0] == cs[0]);
        assert(cs.take(i).drop_first() =~= cs.drop_first().take(i - 1));
        assert(cs.skip(i) =~= cs.drop_first().skip(i - 1));
        assert(green_concat(cs) =~= green_concat(cs.take(i)) + green_concat(cs.skip(i)));
    }
}

/// Taking one more child extends the concatenated prefix by that child's text.
pub proof fn lemma_green_concat_take_succ(cs: Seq<Arc<GreenNode>>, i: int)
    requires
        0 <= i < cs.len(),
    ensures
        green_concat(cs.take(i + 1)) == green_concat(cs.take(i)) + green_text(*cs[i]),
{
    assert(cs.take(i + 1) =~= cs.take(i).push(cs[i]));
    lemma_green_concat_push(cs.take(i), cs[i]);
}

/// A child's text is never longer than the whole concatenation.
pub proof fn lemma_green_concat_child_bound(cs: Seq<Arc<GreenNode>>, i: int)
    requires
        0 <= i < cs.len(),
    ensures
        green_concat(cs.take(i)).len() + green_text(*cs[i]).len() <= green_concat(cs).len(),
{
    lemma_green_concat_split(cs, i + 1);
    lemma_green_concat_take_succ(cs, i);
}

impl GreenNode {
    /// The node's kind.
    pub open spec fn kind_spec(self) -> SyntaxKind {
        match self {
            GreenNode::Leaf { kind, .. } => kind,
            GreenNode::Node { kind, .. } => kind,
        }
    }

    /// The node's kind.
    pub fn kind(&self) -> (k: SyntaxKind)
        ensures
            k == self.kind_spec(),
    {
        match self {
            GreenNode::Leaf { kind, .. } => *kind,
            GreenNode::Node { kind, .. } => *kind,
        }
    }

    /// Builds a token leaf.
    pub fn leaf(kind: SyntaxKind, text: String) -> (n: GreenNode)
        requires
            kind.is_token_kind(),
        ensures
            green_wf(n),
            n.kind_spec() == kind,
            green_text(n) == text@,
    {
        GreenNode::Leaf { kind, text }
    }

    /// Builds a composite node over the given children, computing its width
    /// as the sum of theirs.
    pub fn node(kind: SyntaxKind, children: Vec<Arc<GreenNode>>) -> (n: GreenNode)
        requires
            !kind.is_token_kind(),
            forall|i: int| 0 <= i < children@.len() ==> green_wf(#[trigger] *children@[i]),
            green_concat(children@).len() <= usize::MAX,
        ensures
            green_wf(n),
            n.kind_spec() == kind,
            green_text(n) == green_concat(children@),
            n == (GreenNode::Node { kind, width: green_concat(children@).len() as usize, children }),
    {
        let mut width: usize = 0;
        let mut j: usize = 0;
        while j < children.len()
            invariant
                j <= children@.len(),
                width == green_concat(children@.take(j as int)).len(),
                green_concat(children@).len() <= usize::MAX,
                forall|i: int| 0 <= i < children@.len() ==> green_wf(#[trigger] *children@[i]),
            decreases children@.len() - j,
        {
            proof {
                lemma_green_concat_child_bound(children@, j as int);
                lemma_green_concat_take_succ(children@, j as int);
            }
            let c: &GreenNode = &children[j];
            width = width + c.width();
            j = j + 1;
        }
        proof {
            assert(children@.take(children@.len() as int) =~= children@);
        }
        GreenNode::Node { kind, width, children }
    }

    /// Whether the node is a token leaf.
    pub open spec fn is_leaf_spec(self) -> bool {
        self matches GreenNode::Leaf { .. }
    }

    /// Whether the node is a token leaf.
    pub fn is_leaf(&self) -> (r: bool)
        ensures
            r == self.is_leaf_spec(),
    {
        match self {
            GreenNode::Leaf { .. } => true,
            GreenNode::Node { .. } => false,
        }
    }

    /// The node's children; a leaf has none.
    pub open spec fn children_spec(self) -> Seq<Arc<GreenNode>> {
        match self {
            GreenNode::Leaf { .. } => Seq::empty(),
            GreenNode::Node { children, .. } => children@,
        }
    }

    /// The node's children, defined for composites only.
    pub fn children(&self) -> (r: &Vec<Arc<GreenNode>>)
        requires
            !self.is_leaf_spec(),
        ensures
            r@ == self.children_spec(),
    {
        match self {
            GreenNode::Node { children, .. } => children,
            GreenNode::Leaf { .. } => unreached(),
        }
    }

    /// How many children the node has; zero for a leaf.
    pub fn num_children(&self) -> (r: usize)
        ensures
            r == self.children_spec().len(),
    {
        match self {
            GreenNode::Node { children, .. } => children.len(),
            GreenNode::Leaf { .. } => 0,
        }
    }

    /// A leaf's literal text, empty for a composite.
    pub open spec fn leaf_text_spec(self) -> Seq<char> {
        match self {
            GreenNode::Leaf { text, .. } => text@,
            GreenNode::Node { .. } => Seq::empty(),
        }
    }

    /// Materializes the node's full text.
    pub fn to_text(&self) -> (r: String)
        ensures
            r@ == green_text(*self),
        decreases *self,
    {
        match self {
            GreenNode::Leaf { text, .. } => text.clone(),
            GreenNode::Node { children, .. } => {
                let mut s = String::new();
                let mut j: usize = 0;
                while j < children.len()
                    invariant
                        j <= children@.len(),
                        s@ == green_concat(children@.take(j as int)),
                        green_text(*self) == green_concat(children@),
                        decreases_to!(*self => children@),
                    decreases children@.len() - j,
                {
                    proof {
                        assert(decreases_to!(children@ => children@[j as int]));
                    }
                    let c: &GreenNode = &children[j];
                    let part = c.to_text();
                    s.append(part.as_str());
                    proof {
                        lemma_green_concat_take_succ(children@, j as int);
                    }
                    j += 1;
                }
                proof {
                    assert(children@.take(children@.len() as int) =~= children@);
                }
                s
            },
        }
    }

    /// The node's width: the length of its text.
    pub fn width(&self) -> (w: usize)
        requires
            green_wf(*self),
        ensures
            w == green_text(*self).len(),
    {
        match self {
            GreenNode::Leaf { kind, text } => text.as_str().unicode_len(),
            GreenNode::Node { width, .. } => *width,
        }
    }
}

} // verus!
