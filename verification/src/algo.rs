//! Tree-query utilities: the smallest node covering a given range, and the
//! facts about nested ranges that make walking for it sound.

use vstd::prelude::*;
use std::sync::Arc;
use crate::green::{
    GreenNode, green_of, green_text, green_wf, green_height, green_concat, lemma_child_height,
    lemma_green_concat_child_bound,
};
use crate::syntax::{
    SyntaxNode, TreeRoot, path_valid, node_at, path_offset, lemma_node_at_snoc,
    lemma_path_valid_prefix, lemma_wf_node_at,
};
use crate::text::TextRange;

verus! {

/// Whether the node at `path` within `g` covers the character range.
pub open spec fn covers(g: GreenNode, path: Seq<usize>, range: TextRange) -> bool {
    path_offset(g, path) <= range.start && range.end <= path_offset(g, path) + green_text(
        node_at(g, path),
    ).len()
}

/// A child's range lies within its parent's range.
pub proof fn lemma_child_range_nested(g: GreenNode, path: Seq<usize>, c: usize)
    requires
        green_wf(g),
        path_valid(g, path.push(c)),
        path_valid(g, path),
    ensures
        path_offset(g, path) <= path_offset(g, path.push(c)),
        path_offset(g, path.push(c)) + green_text(node_at(g, path.push(c))).len() <= path_offset(
            g,
            path,
        ) + green_text(node_at(g, path)).len(),
{
    lemma_node_at_snoc(g, path, c);
    lemma_wf_node_at(g, path);
    let parent = node_at(g, path);
    let cs = parent.children_spec();
    lemma_green_concat_child_bound(cs, c as int);
}

/// Every ancestor covers whatever one of its descendants covers.
pub proof fn lemma_prefix_covers(g: GreenNode, path: Seq<usize>, k: int, range: TextRange)
    requires
        green_wf(g),
        path_valid(g, path),
        0 <= k <= path.len(),
        covers(g, path, range),
    ensures
        covers(g, path.take(k), range),
    decreases path.len() - k,
{
    if k == path.len() {
        assert(path.take(k) =~= path);
    } else {
        lemma_prefix_covers(g, path, k + 1, range);
        lemma_path_valid_prefix(g, path, k + 1);
        lemma_path_valid_prefix(g, path, k);
        assert(path.take(k + 1) =~= path.take(k).push(path[k]));
        lemma_child_range_nested(g, path.take(k), path[k]);
    }
}


/// The first child index at or after `c` whose subtree covers the range;
/// the child count when none does.
pub open spec fn first_covering_child(
    g: GreenNode,
    path: Seq<usize>,
    range: TextRange,
    c: int,
) -> int
    decreases node_at(g, path).children_spec().len() - c,
{
    let cs = node_at(g, path).children_spec();
    if c < 0 || c >= cs.len() {
        cs.len() as int
    } else if covers(g, path.push(c as usize), range) {
        c
    } else {
        first_covering_child(g, path, range, c + 1)
    }
}

/// The result lies between `c` and the child count, covers the range when
/// it is a child, and no child before it covers the range.
pub proof fn lemma_first_cov_from(
    g: GreenNode,
    path: Seq<usize>,
    range: TextRange,
    c: int,
    i: int,
)
    requires
        node_at(g, path).children_spec().len() <= usize::MAX,
        0 <= c <= i <= node_at(g, path).children_spec().len(),
        forall|j: usize| c <= j < i ==> !covers(g, #[trigger] path.push(j), range),
        i < node_at(g, path).children_spec().len() ==> covers(g, path.push(i as usize), range),
    ensures
        first_covering_child(g, path, range, c) == i,
    decreases i - c,
{
    let cs = node_at(g, path).children_spec();
    if c == i {
        if i < cs.len() {
            assert(covers(g, path.push(c as usize), range));
        }
    } else {
        assert(!covers(g, path.push(c as usize), range));
        lemma_first_cov_from(g, path, range, c + 1, i);
    }
}

/// The path the covering-node descent reaches from `path`: step into the
/// first covering child as long as one exists.
pub open spec fn covering_path(g: GreenNode, path: Seq<usize>, range: TextRange) -> Seq<usize>
    decreases green_height(node_at(g, path)),
    when path_valid(g, path)
    via covering_path_decreases
{
    let cs = node_at(g, path).children_spec();
    let k = first_covering_child(g, path, range, 0);
    if k < cs.len() {
        covering_path(g, path.push(k as usize), range)
    } else {
        path
    }
}

#[via_fn]
proof fn covering_path_decreases(g: GreenNode, path: Seq<usize>, range: TextRange) {
    let cs = node_at(g, path).children_spec();
    let k = first_covering_child(g, path, range, 0);
    lemma_first_cov_bounds(g, path, range, 0);
    if k < cs.len() {
        let ku = k as usize;
        if cs.len() > usize::MAX {
            assert(ku < cs.len());
        } else {
            assert(ku == k);
        }
        assert(!node_at(g, path).is_leaf_spec());
        lemma_node_at_snoc(g, path, ku);
        lemma_child_height(cs, ku as int);
        assert(green_height(node_at(g, path)) == 1 + crate::green::max_child_height(cs));
    }
}

/// The first covering child index never leaves `[c, child count]`.
pub proof fn lemma_first_cov_bounds(g: GreenNode, path: Seq<usize>, range: TextRange, c: int)
    requires
        0 <= c <= node_at(g, path).children_spec().len(),
    ensures
        c <= first_covering_child(g, path, range, c) <= node_at(g, path).children_spec().len(),
    decreases node_at(g, path).children_spec().len() - c,
{
    let cs = node_at(g, path).children_spec();
    if c < cs.len() && !covers(g, path.push(c as usize), range) {
        lemma_first_cov_bounds(g, path, range, c + 1);
    }
}

/// Finds the smallest node, at or below `node`, whose range fully contains
/// `range`: descends into the first covering child as long as one exists.
pub fn find_covering_node<R: TreeRoot>(node: &SyntaxNode<R>, range: TextRange) -> (r: SyntaxNode<
    R,
>)
    requires
        node.wf(),
        node.offset_spec() <= range.start,
        range.end <= node.offset_spec() + node.text_spec().len(),
    ensures
        r.wf(),
        r.same_tree(*node),
        node.path_spec().is_prefix_of(r.path_spec()),
        covers(r.green_root_spec(), r.path_spec(), range),
        forall|i: usize|
            i < r.node_spec().children_spec().len() ==> !covers(
                r.green_root_spec(),
                #[trigger] r.path_spec().push(i),
                range,
            ),
        r.path_spec() == covering_path(node.green_root_spec(), node.path_spec(), range),
{
    let mut cur = node.duplicate();
    let mut done = false;
    while !done
        invariant
            node.wf(),
            cur.wf(),
            cur.same_tree(*node),
            cur.green_root_spec() == node.green_root_spec(),
            node.path_spec().is_prefix_of(cur.path_spec()),
            covers(cur.green_root_spec(), cur.path_spec(), range),
            covering_path(node.green_root_spec(), node.path_spec(), range) == covering_path(
                cur.green_root_spec(),
                cur.path_spec(),
                range,
            ),
            done ==> covering_path(cur.green_root_spec(), cur.path_spec(), range)
                == cur.path_spec(),
            done ==> forall|i: usize|
                i < cur.node_spec().children_spec().len() ==> !covers(
                    cur.green_root_spec(),
                    #[trigger] cur.path_spec().push(i),
                    range,
                ),
        decreases green_height(cur.node_spec()), (if done {
            0int
        } else {
            1int
        }),
    {
        let nch = cur.num_children();
        let mut i: usize = 0;
        let mut descended = false;
        let ghost prev = cur;
        let ghost mut found_idx: usize = 0;
        while i < nch && !descended
            invariant
                prev.wf(),
                i <= nch,
                nch == prev.node_spec().children_spec().len(),
                !descended ==> cur == prev,
                forall|j: usize|
                    j < i ==> !covers(
                        prev.green_root_spec(),
                        #[trigger] prev.path_spec().push(j),
                        range,
                    ),
                descended ==> {
                    &&& cur.wf()
                    &&& cur.same_tree(prev)
                    &&& cur.green_root_spec() == prev.green_root_spec()
                    &&& found_idx < nch
                    &&& cur.path_spec() == prev.path_spec().push(found_idx)
                    &&& forall|j: usize|
                        j < found_idx ==> !covers(
                            prev.green_root_spec(),
                            #[trigger] prev.path_spec().push(j),
                            range,
                        )
                    &&& covers(cur.green_root_spec(), cur.path_spec(), range)
                    &&& green_height(cur.node_spec()) < green_height(prev.node_spec())
                },
            decreases nch - i, (if descended {
                0int
            } else {
                1int
            }),
        {
            let c = cur.child(i);
            let cr = c.range();
            if cr.start <= range.start && range.end <= cr.end {
                proof {
                    lemma_child_height(prev.node_spec().children_spec(), i as int);
                    found_idx = i;
                }
                cur = c;
                descended = true;
            } else {
                i += 1;
            }
        }
        proof {
            let g = prev.green_root_spec();
            assert(prev.node_spec().children_spec().len() == nch);
            if descended {
                lemma_first_cov_from(g, prev.path_spec(), range, 0, found_idx as int);
                assert(covering_path(g, prev.path_spec(), range) == covering_path(
                    g,
                    prev.path_spec().push(found_idx),
                    range,
                ));
                assert(node.path_spec().is_prefix_of(cur.path_spec()));
            } else {
                lemma_first_cov_from(g, prev.path_spec(), range, 0, nch as int);
                assert(covering_path(g, prev.path_spec(), range) == prev.path_spec());
            }
        }
        if !descended {
            done = true;
        }
    }
    cur
}

/// The paths of every node of the subtree rooted at `n` (whose own path is
/// `base`), in preorder: the node itself first, then each child's subtree
/// in order.
pub open spec fn preorder_of(n: GreenNode, base: Seq<usize>) -> Seq<Seq<usize>>
    decreases n, 0int via preorder_of_decreases
{
    match n {
        GreenNode::Leaf { kind, text } => Seq::empty().push(base),
        GreenNode::Node { kind, width, children } => Seq::empty().push(base) + preorder_children(
            children@,
            base,
            0,
        ),
    }
}

/// The preorder paths contributed by the children from index `i` on.
pub open spec fn preorder_children(cs: Seq<Arc<GreenNode>>, base: Seq<usize>, i: int) -> Seq<
    Seq<usize>,
>
    decreases cs, cs.len() - i via preorder_children_decreases
{
    if i < 0 || i >= cs.len() {
        Seq::empty()
    } else {
        preorder_of(*cs[i], base.push(i as usize)) + preorder_children(cs, base, i + 1)
    }
}

#[via_fn]
proof fn preorder_of_decreases(n: GreenNode, base: Seq<usize>) {
    match n {
        GreenNode::Leaf { kind, text } => {
        },
        GreenNode::Node { kind, width, children } => {
            assert(decreases_to!(n => children));
            assert(decreases_to!(children => children@));
        },
    }
}

#[via_fn]
proof fn preorder_children_decreases(cs: Seq<Arc<GreenNode>>, base: Seq<usize>, i: int) {
    if 0 <= i < cs.len() {
        assert(decreases_to!(cs => cs[i]));
    }
}

/// A preorder listing begins with the subtree's own path; the rest is the
/// children's contribution.
pub proof fn lemma_preorder_unfold(n: GreenNode, base: Seq<usize>)
    ensures
        preorder_of(n, base).len() >= 1,
        preorder_of(n, base)[0] == base,
        preorder_of(n, base).skip(1) == preorder_children(n.children_spec(), base, 0),
{
    match n {
        GreenNode::Leaf { kind, text } => {
            assert(n.children_spec() =~= Seq::<Arc<GreenNode>>::empty());
            assert(preorder_of(n, base).skip(1) =~= preorder_children(
                n.children_spec(),
                base,
                0,
            ));
        },
        GreenNode::Node { kind, width, children } => {
            assert(preorder_of(n, base)[0] == base);
            assert(preorder_of(n, base).skip(1) =~= preorder_children(children@, base, 0));
        },
    }
}

/// Collects the whole subtree under `cur` into `out`, preorder.
fn preorder_into<R: TreeRoot>(cur: &SyntaxNode<R>, out: &mut Vec<SyntaxNode<R>>)
    requires
        cur.wf(),
    ensures
        final(out)@.len() == old(out)@.len() + preorder_of(cur.node_spec(), cur.path_spec()).len(),
        forall|m: int| 0 <= m < old(out)@.len() ==> final(out)@[m] == old(out)@[m],
        forall|t: int|
            0 <= t < preorder_of(cur.node_spec(), cur.path_spec()).len() ==> {
                &&& (#[trigger] final(out)@[old(out)@.len() + t]).wf()
                &&& final(out)@[old(out)@.len() + t].same_tree(*cur)
                &&& final(out)@[old(out)@.len() + t].path_spec() == preorder_of(
                    cur.node_spec(),
                    cur.path_spec(),
                )[t]
            },
    decreases green_height(cur.node_spec()),
{
    let ghost start = out@.len() as int;
    let ghost n0 = cur.node_spec();
    let ghost base = cur.path_spec();
    let ghost full = preorder_of(n0, base);
    out.push(cur.duplicate());
    proof {
        lemma_preorder_unfold(n0, base);
    }
    let nch = cur.num_children();
    let ghost cs = n0.children_spec();
    let mut i: usize = 0;
    let ghost mut covered: int = 1;
    while i < nch
        invariant
            cur.wf(),
            n0 == cur.node_spec(),
            base == cur.path_spec(),
            full == preorder_of(n0, base),
            cs == n0.children_spec(),
            start == old(out)@.len(),
            i <= nch,
            nch == cs.len(),
            1 <= covered <= full.len(),
            out@.len() == start + covered,
            full.skip(covered) == preorder_children(cs, base, i as int),
            forall|m: int| 0 <= m < start ==> out@[m] == old(out)@[m],
            forall|t: int|
                0 <= t < covered ==> {
                    &&& (#[trigger] out@[start + t]).wf()
                    &&& out@[start + t].same_tree(*cur)
                    &&& out@[start + t].path_spec() == full[t]
                },
        decreases nch - i,
    {
        let c = cur.child(i);
        proof {
            lemma_child_height(cs, i as int);
            assert(!n0.is_leaf_spec());
            assert(green_height(n0) == 1 + crate::green::max_child_height(cs));
            assert(preorder_children(cs, base, i as int) == preorder_of(*cs[i as int], base.push(
                i,
            )) + preorder_children(cs, base, i as int + 1));
            lemma_preorder_unfold(green_of(cs[i as int]), base.push(i));
        }
        let ghost seg = preorder_of(c.node_spec(), c.path_spec());
        let ghost before = out@;
        preorder_into(&c, out);
        proof {
            let k = seg.len() as int;
            assert forall|t: int| 0 <= t < k implies full[covered + t] == seg[t] by {
                assert(full.skip(covered)[t] == seg[t]);
            }
            assert(full.skip(covered).skip(k) =~= full.skip(covered + k));
            assert((seg + preorder_children(cs, base, i as int + 1)).skip(k) =~= preorder_children(
                cs,
                base,
                i as int + 1,
            ));
            assert(full.skip(covered + k) =~= preorder_children(cs, base, i as int + 1));
            assert forall|t: int| 0 <= t < covered + k implies {
                &&& (#[trigger] out@[start + t]).wf()
                &&& out@[start + t].same_tree(*cur)
                &&& out@[start + t].path_spec() == full[t]
            } by {
                if t < covered {
                    assert(out@[start + t] == before[start + t]);
                } else {
                    let t2 = t - covered;
                    assert(out@[before.len() + t2].path_spec() == seg[t2]);
                    assert(out@[start + t] == out@[before.len() + t2]);
                }
            }
            covered = covered + k;
        }
        i += 1;
    }
    proof {
        assert(full.skip(covered) =~= Seq::<Seq<usize>>::empty());
        assert(covered == full.len());
    }
}

/// Every node of the subtree under `node`, in preorder: the node itself
/// first, then each child's subtree in order.
pub fn preorder<R: TreeRoot>(node: &SyntaxNode<R>) -> (r: Vec<SyntaxNode<R>>)
    requires
        node.wf(),
    ensures
        r@.len() == preorder_of(node.node_spec(), node.path_spec()).len(),
        forall|t: int|
            0 <= t < r@.len() ==> {
                &&& (#[trigger] r@[t]).wf()
                &&& r@[t].same_tree(*node)
                &&& r@[t].path_spec() == preorder_of(node.node_spec(), node.path_spec())[t]
            },
{
    let mut out: Vec<SyntaxNode<R>> = Vec::new();
    let ghost prev = out@;
    preorder_into(node, &mut out);
    proof {
        assert forall|t: int| 0 <= t < out@.len() implies {
            &&& (#[trigger] out@[t]).wf()
            &&& out@[t].same_tree(*node)
            &&& out@[t].path_spec() == preorder_of(node.node_spec(), node.path_spec())[t]
        } by {
            assert(out@[prev.len() + t].wf());
            assert(out@[prev.len() + t].same_tree(*node));
            assert(out@[prev.len() + t].path_spec() == preorder_of(
                node.node_spec(),
                node.path_spec(),
            )[t]);
            assert(out@[prev.len() + t] == out@[t]);
        }
    }
    out
}


} // verus!
