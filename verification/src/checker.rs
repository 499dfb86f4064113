//! The debug invariant checker: whole-tree brace-pairing consistency.
//!
//! Within a single parent, a left curly may stand only as the first child
//! and a right curly only as the last, paired with a left one — a brace
//! pair bounds a contiguous region, never an arbitrary interleaving. A
//! violation signals a grammar or tree-construction bug, not a user-facing
//! error, so the checker reports it instead of failing: parsing never
//! crashes on structurally suspect trees.

use vstd::prelude::*;
use std::sync::Arc;
use crate::kinds::SyntaxKind;
use crate::green::GreenNode;
use crate::syntax::{SyntaxNode, TreeRoot};

verus! {

/// The brace rule among one parent's children: a left curly followed by a
/// right curly must be the bounding pair — the first and the last child —
/// so the pair encloses a contiguous region. A brace that pairs with
/// nothing (a dangling opener, or a closer with no opener before it) is
/// tolerated: error-tolerant parsing produces such nodes from malformed
/// input, and they signal no construction bug.
pub open spec fn children_braces_ok(cs: Seq<Arc<GreenNode>>) -> bool {
    forall|i: int, j: int|
        0 <= i < j < cs.len() && (#[trigger] cs[i]).kind_spec() == SyntaxKind::L_CURLY && (
        #[trigger] cs[j]).kind_spec() == SyntaxKind::R_CURLY ==> (i == 0 && j == cs.len() - 1)
}

/// The brace rule, everywhere in a subtree.
pub open spec fn braces_ok(n: GreenNode) -> bool
    decreases n via braces_ok_decreases
{
    match n {
        GreenNode::Leaf { .. } => true,
        GreenNode::Node { kind, width, children } => {
            &&& children_braces_ok(children@)
            &&& forall|i: int| 0 <= i < children@.len() ==> braces_ok(#[trigger] *children@[i])
        },
    }
}

#[via_fn]
proof fn braces_ok_decreases(n: GreenNode) {
    match n {
        GreenNode::Leaf { .. } => {
        },
        GreenNode::Node { kind, width, children } => {
            assert forall|i: int| 0 <= i < children@.len() implies decreases_to!(
                n => *children@[i]
            ) by {
                assert(decreases_to!(n => children));
                assert(decreases_to!(children@ => children@[i]));
            }
        },
    }
}

/// Checks the brace rule over a whole green subtree.
pub fn check_braces(n: &GreenNode) -> (r: bool)
    ensures
        r == braces_ok(*n),
    decreases *n,
{
    match n {
        GreenNode::Leaf { .. } => true,
        GreenNode::Node { children, .. } => {
            let len = children.len();
            let mut i: usize = 0;
            while i < len
                invariant
                    *n matches GreenNode::Node { .. },
                    (*n).children_spec() == children@,
                    i <= len,
                    len == children@.len(),
                    forall|a: int, b: int|
                        0 <= a < i && a < b < len && (#[trigger] children@[a]).kind_spec()
                            == SyntaxKind::L_CURLY && (#[trigger] children@[b]).kind_spec()
                            == SyntaxKind::R_CURLY ==> (a == 0 && b == len - 1),
                    forall|a: int| 0 <= a < i ==> braces_ok(#[trigger] *children@[a]),
                    decreases_to!(*n => children@),
                decreases len - i,
            {
                proof {
                    assert(decreases_to!(children@ => children@[i as int]));
                }
                let c: &GreenNode = &children[i];
                if c.kind() == SyntaxKind::L_CURLY {
                    let mut j: usize = i + 1;
                    while j < len
                        invariant
                            *n matches GreenNode::Node { .. },
                            (*n).children_spec() == children@,
                            i < j <= len,
                            len == children@.len(),
                            (*children@[i as int]).kind_spec() == SyntaxKind::L_CURLY,
                            forall|b: int|
                                i < b < j && (#[trigger] children@[b]).kind_spec()
                                    == SyntaxKind::R_CURLY ==> (i == 0 && b == len - 1),
                        decreases len - j,
                    {
                        let d: &GreenNode = &children[j];
                        if d.kind() == SyntaxKind::R_CURLY {
                            if !(i == 0 && j + 1 == len) {
                                proof {
                                    assert((*children@[j as int]).kind_spec()
                                        == SyntaxKind::R_CURLY);
                                    assert(!children_braces_ok(children@));
                                    assert(!braces_ok(*n));
                                }
                                return false;
                            }
                        }
                        j += 1;
                    }
                }
                if !check_braces(c) {
                    proof {
                        assert(!braces_ok(*children@[i as int]));
                        assert(!braces_ok(*n));
                    }
                    return false;
                }
                i += 1;
            }
            true
        },
    }
}

/// Walks a whole tree checking the brace invariant; reports rather than
/// fails, so release use may treat a `false` as "structurally suspect"
/// without aborting.
pub fn validate_block_structure<R: TreeRoot>(root: &SyntaxNode<R>) -> (r: bool)
    requires
        root.wf(),
    ensures
        r == braces_ok(root.node_spec()),
{
    check_braces(root.green_node())
}

} // verus!
