//! The builder contract the grammar drives.
//!
//! A balanced sequence of `start_node`, `token`, `finish_node` and `error`
//! calls is materialized into a green tree plus a diagnostic list. The
//! builder keeps a stack of open nodes and the flat list of finished
//! siblings; the text it has accumulated is always exactly the token texts
//! fed in, in order — that is what makes the parse lossless.

use vstd::prelude::*;
use std::sync::Arc;
use crate::kinds::SyntaxKind;
use crate::green::{
    GreenNode, green_text, green_concat, green_wf, green_leaves, leaves_concat,
    lemma_green_concat_push, lemma_green_concat_split, lemma_leaves_concat_push,
    lemma_leaves_concat_split,
};
use crate::text::TextRange;
use crate::syntax::{SyntaxError, ErrView};

verus! {

/// The builder's structural invariant, over its open-node stack and its
/// list of finished nodes: start marks never exceed the number of finished
/// nodes and never decrease up the stack, open kinds are composite kinds,
/// and every finished node is well formed.
pub open spec fn stack_wf(parents: Seq<(SyntaxKind, usize)>, children: Seq<Arc<GreenNode>>) -> bool {
    &&& forall|i: int, j: int|
        0 <= i <= j < parents.len() ==> (#[trigger] parents[i]).1 <= (#[trigger] parents[j]).1
    &&& forall|i: int| 0 <= i < parents.len() ==> (#[trigger] parents[i]).1 <= children.len()
    &&& forall|i: int| 0 <= i < parents.len() ==> !(#[trigger] parents[i]).0.is_token_kind()
    &&& forall|i: int| 0 <= i < children.len() ==> green_wf(#[trigger] *children[i])
}

/// Appending a well-formed finished node preserves the invariant.
proof fn lemma_stack_wf_push_child(
    parents: Seq<(SyntaxKind, usize)>,
    children: Seq<Arc<GreenNode>>,
    x: Arc<GreenNode>,
)
    requires
        stack_wf(parents, children),
        green_wf(*x),
    ensures
        stack_wf(parents, children.push(x)),
{
    assert forall|i: int| 0 <= i < children.push(x).len() implies green_wf(
        #[trigger] *children.push(x)[i],
    ) by {
        if i < children.len() {
            assert(children.push(x)[i] == children[i]);
            assert(green_wf(*children[i]));
        } else {
            assert(children.push(x)[i] == x);
        }
    }
}

/// Opening a node at a mark above every open mark preserves the invariant.
proof fn lemma_stack_wf_push_parent(
    parents: Seq<(SyntaxKind, usize)>,
    children: Seq<Arc<GreenNode>>,
    kind: SyntaxKind,
    mark: usize,
)
    requires
        stack_wf(parents, children),
        !kind.is_token_kind(),
        mark <= children.len(),
        parents.len() > 0 ==> parents.last().1 <= mark,
    ensures
        stack_wf(parents.push((kind, mark)), children),
{
    let p2 = parents.push((kind, mark));
    assert forall|i: int, j: int| 0 <= i <= j < p2.len() implies (#[trigger] p2[i]).1 <= (
    #[trigger] p2[j]).1 by {
        if j < parents.len() {
            assert(p2[i] == parents[i]);
            assert(p2[j] == parents[j]);
        } else if i < parents.len() {
            assert(p2[i] == parents[i]);
            assert(parents[i].1 <= parents.last().1);
        }
    }
    assert forall|i: int| 0 <= i < p2.len() implies (#[trigger] p2[i]).1 <= children.len() by {
        if i < parents.len() {
            assert(p2[i] == parents[i]);
        }
    }
    assert forall|i: int| 0 <= i < p2.len() implies !(#[trigger] p2[i]).0.is_token_kind() by {
        if i < parents.len() {
            assert(p2[i] == parents[i]);
        }
    }
}

/// Closing the innermost open node preserves the invariant.
proof fn lemma_stack_wf_finish(
    parents: Seq<(SyntaxKind, usize)>,
    children: Seq<Arc<GreenNode>>,
    node: Arc<GreenNode>,
)
    requires
        stack_wf(parents, children),
        parents.len() > 0,
        green_wf(*node),
    ensures
        stack_wf(parents.drop_last(), children.take(parents.last().1 as int).push(node)),
{
    let p2 = parents.drop_last();
    let c2 = children.take(parents.last().1 as int).push(node);
    assert forall|i: int, j: int| 0 <= i <= j < p2.len() implies (#[trigger] p2[i]).1 <= (
    #[trigger] p2[j]).1 by {
        assert(p2[i] == parents[i]);
        assert(p2[j] == parents[j]);
    }
    assert forall|i: int| 0 <= i < p2.len() implies (#[trigger] p2[i]).1 <= c2.len() by {
        assert(p2[i] == parents[i]);
        assert(parents[i].1 <= parents.last().1);
    }
    assert forall|i: int| 0 <= i < p2.len() implies !(#[trigger] p2[i]).0.is_token_kind() by {
        assert(p2[i] == parents[i]);
    }
    assert forall|i: int| 0 <= i < c2.len() implies green_wf(#[trigger] *c2[i]) by {
        if i < c2.len() - 1 {
            assert(c2[i] == children[i]);
            assert(green_wf(*children[i]));
        } else {
            assert(c2[i] == node);
        }
    }
}

/// Materializes tree-construction events into a green tree.
pub struct GreenBuilder {
    /// Open composite nodes: the kind and the index in `children` at which
    /// the node's children start.
    parents: Vec<(SyntaxKind, usize)>,
    /// Finished nodes awaiting a parent, across all open levels.
    children: Vec<Arc<GreenNode>>,
    /// Diagnostics recorded so far.
    errors: Vec<SyntaxError>,
    /// Characters consumed so far.
    pos: usize,
}

impl GreenBuilder {
    /// The open-node stack: kind and start mark of each.
    pub closed spec fn parents_spec(self) -> Seq<(SyntaxKind, usize)> {
        self.parents@
    }

    /// The finished nodes awaiting a parent.
    pub closed spec fn children_spec(self) -> Seq<Arc<GreenNode>> {
        self.children@
    }

    /// The diagnostics recorded so far.
    pub closed spec fn errors_spec(self) -> Seq<ErrView> {
        self.errors.deep_view()
    }

    /// How many nodes are open.
    pub open spec fn depth(self) -> int {
        self.parents_spec().len() as int
    }

    /// The text accumulated so far: the concatenation of every token text
    /// fed in, in order.
    pub open spec fn text_spec(self) -> Seq<char> {
        green_concat(self.children_spec())
    }

    /// The leaf tokens accumulated so far: one kind-and-width entry per
    /// token fed in, in order, whatever grouping the nodes impose.
    pub open spec fn leaves_spec(self) -> Seq<(SyntaxKind, nat)> {
        leaves_concat(self.children_spec())
    }

    /// The consumed-character counter agrees with the accumulated text.
    pub closed spec fn pos_ok(self) -> bool {
        self.pos == self.text_spec().len()
    }

    /// The builder's invariant.
    pub open spec fn wf(self) -> bool {
        stack_wf(self.parents_spec(), self.children_spec()) && self.pos_ok()
    }

    /// A fresh builder: nothing open, nothing consumed.
    pub fn new() -> (b: GreenBuilder)
        ensures
            b.wf(),
            b.depth() == 0,
            b.children_spec() == Seq::<Arc<GreenNode>>::empty(),
            b.text_spec() == Seq::<char>::empty(),
            b.errors_spec() == Seq::<ErrView>::empty(),
    {
        let b = GreenBuilder {
            parents: Vec::new(),
            children: Vec::new(),
            errors: Vec::new(),
            pos: 0,
        };
        proof {
            assert(b.children_spec() =~= Seq::<Arc<GreenNode>>::empty());
            assert(b.errors.deep_view() =~= Seq::<ErrView>::empty());
        }
        b
    }

    /// The number of characters consumed so far.
    pub fn pos(&self) -> (r: usize)
        requires
            self.wf(),
        ensures
            r == self.text_spec().len(),
    {
        self.pos
    }

    /// A mark before which the already-finished nodes stay where they are;
    /// a node started at this mark later adopts everything finished after it.
    pub fn checkpoint(&self) -> (r: usize)
        ensures
            r == self.children_spec().len(),
    {
        self.children.len()
    }

    /// Feeds one token: a leaf with the given kind and text.
    pub fn token(&mut self, kind: SyntaxKind, text: String)
        requires
            old(self).wf(),
            kind.is_token_kind(),
            old(self).text_spec().len() + text@.len() <= usize::MAX,
        ensures
            final(self).wf(),
            final(self).parents_spec() == old(self).parents_spec(),
            final(self).children_spec() == old(self).children_spec().push(
                final(self).children_spec().last(),
            ),
            final(self).children_spec().len() == old(self).children_spec().len() + 1,
            (*final(self).children_spec().last()).is_leaf_spec(),
            (*final(self).children_spec().last()).kind_spec() == kind,
            green_text(*final(self).children_spec().last()) == text@,
            final(self).text_spec() == old(self).text_spec() + text@,
            final(self).leaves_spec() == old(self).leaves_spec().push((kind, text@.len())),
            final(self).errors_spec() == old(self).errors_spec(),
    {
        let len = text.as_str().unicode_len();
        let leaf = GreenNode::leaf(kind, text);
        self.children.push(Arc::new(leaf));
        self.pos = self.pos + len;
        proof {
            assert(self.children@ =~= old(self).children@.push(self.children@.last()));
            lemma_green_concat_push(old(self).children@, self.children@.last());
            lemma_leaves_concat_push(old(self).children@, self.children@.last());
            assert(self.leaves_spec() =~= old(self).leaves_spec().push(
                green_leaves(*self.children@.last())[0],
            ));
            lemma_stack_wf_push_child(
                old(self).parents_spec(),
                old(self).children_spec(),
                self.children@.last(),
            );
        }
    }

    /// Opens a composite node; its children are whatever is finished
    /// between now and the matching `finish_node`.
    pub fn start_node(&mut self, kind: SyntaxKind)
        requires
            old(self).wf(),
            !kind.is_token_kind(),
        ensures
            final(self).wf(),
            final(self).parents_spec() == old(self).parents_spec().push(
                final(self).parents_spec().last(),
            ),
            final(self).parents_spec().len() == old(self).parents_spec().len() + 1,
            final(self).parents_spec().last().0 == kind,
            final(self).parents_spec().last().1 == old(self).children_spec().len(),
            final(self).children_spec() == old(self).children_spec(),
            final(self).text_spec() == old(self).text_spec(),
            final(self).errors_spec() == old(self).errors_spec(),
    {
        let mark = self.children.len();
        self.parents.push((kind, mark));
        proof {
            lemma_stack_wf_push_parent(
                old(self).parents_spec(),
                old(self).children_spec(),
                kind,
                mark,
            );
        }
    }

    /// Opens a composite node that retroactively starts at `checkpoint`:
    /// the nodes finished since that mark become its first children.
    pub fn start_node_at(&mut self, checkpoint: usize, kind: SyntaxKind)
        requires
            old(self).wf(),
            !kind.is_token_kind(),
            checkpoint <= old(self).children_spec().len(),
            old(self).depth() > 0 ==> old(self).parents_spec().last().1 <= checkpoint,
        ensures
            final(self).wf(),
            final(self).parents_spec() == old(self).parents_spec().push((kind, checkpoint)),
            final(self).children_spec() == old(self).children_spec(),
            final(self).text_spec() == old(self).text_spec(),
            final(self).errors_spec() == old(self).errors_spec(),
    {
        self.parents.push((kind, checkpoint));
        proof {
            lemma_stack_wf_push_parent(
                old(self).parents_spec(),
                old(self).children_spec(),
                kind,
                checkpoint,
            );
        }
    }

    /// Closes the most recently opened node, wrapping everything finished
    /// since its start mark into one composite.
    pub fn finish_node(&mut self)
        requires
            old(self).wf(),
            old(self).depth() > 0,
        ensures
            final(self).wf(),
            final(self).parents_spec() == old(self).parents_spec().drop_last(),
            final(self).children_spec().len() == old(self).parents_spec().last().1 + 1,
            final(self).children_spec() == old(self).children_spec().take(
                old(self).parents_spec().last().1 as int,
            ).push(final(self).children_spec().last()),
            (*final(self).children_spec().last()).kind_spec() == old(self).parents_spec().last().0,
            !(*final(self).children_spec().last()).is_leaf_spec(),
            (*final(self).children_spec().last()).children_spec() == old(self).children_spec().skip(
                old(self).parents_spec().last().1 as int,
            ),
            final(self).text_spec() == old(self).text_spec(),
            final(self).leaves_spec() == old(self).leaves_spec(),
            final(self).errors_spec() == old(self).errors_spec(),
    {
        let (kind, mark) = match self.parents.pop() {
            Some(p) => p,
            None => unreached(),
        };
        proof {
            assert(old(self).parents_spec().last().1 <= old(self).children_spec().len());
            lemma_green_concat_split(self.children@, mark as int);
            lemma_leaves_concat_split(self.children@, mark as int);
        }
        let tail = self.children.split_off(mark);
        let node = GreenNode::node(kind, tail);
        self.children.push(Arc::new(node));
        proof {
            let ghost m = mark as int;
            assert(self.children@ =~= old(self).children@.take(m).push(self.children@.last()));
            lemma_green_concat_push(old(self).children@.take(m), self.children@.last());
            lemma_leaves_concat_push(old(self).children@.take(m), self.children@.last());
            assert(green_leaves(*self.children@.last()) == leaves_concat(
                old(self).children@.skip(m),
            ));
            assert(self.parents@ =~= old(self).parents@.drop_last());
            lemma_stack_wf_finish(
                old(self).parents_spec(),
                old(self).children_spec(),
                self.children@.last(),
            );
        }
    }

    /// Records a diagnostic; parsing always continues.
    pub fn error(&mut self, range: TextRange, msg: String)
        requires
            old(self).wf(),
        ensures
            final(self).wf(),
            final(self).parents_spec() == old(self).parents_spec(),
            final(self).children_spec() == old(self).children_spec(),
            final(self).text_spec() == old(self).text_spec(),
            final(self).errors_spec() == old(self).errors_spec().push(
                ErrView { range, msg: msg@ },
            ),
    {
        let ghost prev = self.errors.deep_view();
        self.errors.push(SyntaxError::new(range, msg));
        proof {
            assert(self.errors.deep_view() =~= prev.push(self.errors.deep_view().last()));
        }
    }

    /// Ends building: exactly one root must remain, with nothing open.
    pub fn finish(self) -> (r: (Arc<GreenNode>, Vec<SyntaxError>))
        requires
            self.wf(),
            self.depth() == 0,
            self.children_spec().len() == 1,
        ensures
            green_wf(*r.0),
            green_text(*r.0) == self.text_spec(),
            green_leaves(*r.0) == self.leaves_spec(),
            r.0 == self.children_spec()[0],
            r.1.deep_view() == self.errors_spec(),
    {
        let GreenBuilder { parents, mut children, errors, pos } = self;
        let node = match children.pop() {
            Some(n) => n,
            None => unreached(),
        };
        proof {
            reveal_with_fuel(green_concat, 2);
            reveal_with_fuel(leaves_concat, 2);
            assert(self.children_spec() =~= Seq::<Arc<GreenNode>>::empty().push(node));
            assert(self.children_spec().drop_first() =~= Seq::<Arc<GreenNode>>::empty());
        }
        (node, errors)
    }
}

} // verus!
