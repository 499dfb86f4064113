//! The pieces of the incremental reparse: splicing a fresh subtree into a
//! green tree, the delimiter-balance safety check, and the merge of old and
//! new diagnostics.

use vstd::prelude::*;
use std::sync::Arc;
use crate::kinds::SyntaxKind;
use crate::green::{
    GreenNode, green_of, green_text, green_concat, green_wf, lemma_green_concat_split,
    lemma_green_concat_take_succ, lemma_green_concat_push,
};
use crate::syntax::{
    SyntaxError, ErrView, path_valid, node_at, path_offset, lemma_node_text_slice,
    lemma_wf_node_at,
};
use crate::text::TextRange;
use crate::lexer::{Token, TokenView};

verus! {

/// Concatenation of texts distributes over concatenation of nodes.
pub proof fn lemma_green_concat_append(a: Seq<Arc<GreenNode>>, b: Seq<Arc<GreenNode>>)
    ensures
        green_concat(a + b) == green_concat(a) + green_concat(b),
    decreases a.len(),
{
    if a.len() == 0 {
        assert(a + b =~= b);
        assert(green_concat(a) + green_concat(b) =~= green_concat(b));
    } else {
        lemma_green_concat_append(a.drop_first(), b);
        assert((a + b)[0] == a[0]);
        assert((a + b).drop_first() =~= a.drop_first() + b);
        assert(green_concat(a + b) =~= green_concat(a) + green_concat(b));
    }
}

/// Replaces the node that `path` (from index `i` on) reaches within `n` by
/// `new_sub`, rebuilding only the nodes along the path and sharing every
/// sibling subtree by reference. The resulting text is the old text with
/// exactly the replaced node's slice substituted.
pub fn replace_node_at(
    n: &GreenNode,
    path: &Vec<usize>,
    i: usize,
    new_sub: Arc<GreenNode>,
) -> (r: Arc<GreenNode>)
    requires
        green_wf(*n),
        i <= path@.len(),
        path_valid(*n, path@.skip(i as int)),
        green_wf(*new_sub),
        green_text(*n).len() - green_text(node_at(*n, path@.skip(i as int))).len() + green_text(
            *new_sub,
        ).len() <= usize::MAX,
    ensures
        green_wf(*r),
        i < path@.len() ==> (*r).kind_spec() == (*n).kind_spec(),
        i == path@.len() ==> r == new_sub,
        i < path@.len() ==> {
            &&& !(*r).is_leaf_spec()
            &&& (*r).children_spec().len() == (*n).children_spec().len()
            &&& forall|c: int|
                0 <= c < (*n).children_spec().len() && c != path@[i as int]
                    ==> (#[trigger] (*r).children_spec()[c]) == (*n).children_spec()[c]
        },
        green_text(*r) == green_text(*n).take(path_offset(*n, path@.skip(i as int)))
            + green_text(*new_sub) + green_text(*n).skip(
            path_offset(*n, path@.skip(i as int)) + green_text(
                node_at(*n, path@.skip(i as int)),
            ).len(),
        ),
    decreases path@.len() - i,
{
    let ghost tail = path@.skip(i as int);
    if i >= path.len() {
        proof {
            assert(tail.len() == 0);
            assert(green_text(*n).take(0) =~= Seq::<char>::empty());
            assert(green_text(*n).skip(green_text(*n).len() as int) =~= Seq::<char>::empty());
            assert(green_text(*n).take(0) + green_text(*new_sub) + green_text(*n).skip(
                green_text(*n).len() as int,
            ) =~= green_text(*new_sub));
        }
        return new_sub;
    }
    let d = path[i];
    proof {
        assert(tail[0] == path@[i as int]);
        assert(tail.drop_first() =~= path@.skip(i as int + 1));
    }
    let cs = n.children();
    let ghost child_rc = cs@[d as int];
    let ghost sub_tail = path@.skip(i as int + 1);
    proof {
        // Bound the recursive call's width requirement by this level's.
        lemma_green_concat_split(cs@, d as int);
        lemma_green_concat_take_succ(cs@, d as int);
        lemma_wf_node_at(*n, tail);
        assert(green_wf(*child_rc));
        lemma_node_text_slice(green_of(child_rc), sub_tail);
    }
    let mut v: Vec<Arc<GreenNode>> = Vec::new();
    let mut k: usize = 0;
    while k < d
        invariant
            k <= d,
            d < cs@.len(),
            v@ =~= cs@.take(k as int),
        decreases d - k,
    {
        v.push(cs[k].clone());
        proof {
            assert(v@ =~= cs@.take(k as int + 1));
        }
        k += 1;
    }
    let replaced = replace_node_at(&cs[d], path, i + 1, new_sub);
    let ghost rep = replaced;
    v.push(replaced);
    proof {
        assert(cs.len() == cs@.len());
    }
    let mut k2: usize = d + 1;
    while k2 < cs.len()
        invariant
            d < k2 <= cs@.len(),
            v@ =~= cs@.take(d as int).push(rep) + cs@.subrange(d as int + 1, k2 as int),
        decreases cs@.len() - k2,
    {
        v.push(cs[k2].clone());
        proof {
            assert(cs@.subrange(d as int + 1, k2 as int + 1) =~= cs@.subrange(
                d as int + 1,
                k2 as int,
            ).push(cs@[k2 as int]));
            assert(v@ =~= cs@.take(d as int).push(rep) + cs@.subrange(d as int + 1, k2 as int + 1));
        }
        k2 += 1;
    }
    proof {
        assert(v@ =~= cs@.take(d as int) + (Seq::<Arc<GreenNode>>::empty().push(rep) + cs@.skip(
            d as int + 1,
        )));
        lemma_green_concat_append(
            cs@.take(d as int),
            Seq::<Arc<GreenNode>>::empty().push(rep) + cs@.skip(d as int + 1),
        );
        lemma_green_concat_append(Seq::<Arc<GreenNode>>::empty().push(rep), cs@.skip(d as int + 1));
        lemma_green_concat_push(Seq::<Arc<GreenNode>>::empty(), rep);
        assert(green_concat(Seq::<Arc<GreenNode>>::empty()) + green_text(*rep) =~= green_text(
            *rep,
        ));
        // The whole text of the rebuilt children list.
        assert(green_concat(v@) == green_concat(cs@.take(d as int)) + green_text(*rep)
            + green_concat(cs@.skip(d as int + 1)));
        // Well-formedness of each rebuilt child.
        assert forall|j: int| 0 <= j < v@.len() implies green_wf(#[trigger] *v@[j]) by {
            if j < d {
                assert(v@[j] == cs@[j]);
            } else if j == d {
                assert(v@[j] == rep);
            } else {
                assert(v@[j] == cs@[j]);
            }
        }
        // The old text decomposes around the replaced child.
        lemma_green_concat_split(cs@, d as int + 1);
        assert(green_text(*n) =~= green_concat(cs@.take(d as int)) + green_text(*child_rc)
            + green_concat(cs@.skip(d as int + 1)));
    }
    let node = GreenNode::node(n.kind(), v);
    proof {
        let off_in_child = path_offset(green_of(child_rc), sub_tail);
        let old_target = node_at(green_of(child_rc), sub_tail);
        let base = green_concat(cs@.take(d as int)).len() as int;
        let off = path_offset(*n, tail);
        assert(off == base + off_in_child);
        assert(green_text(*rep) == green_text(*child_rc).take(off_in_child) + green_text(*new_sub)
            + green_text(*child_rc).skip(off_in_child + green_text(old_target).len()));
        assert(green_text(node) =~= green_text(*n).take(off) + green_text(*new_sub) + green_text(
            *n,
        ).skip(off + green_text(node_at(*n, tail)).len()));
    }
    Arc::new(node)
}

/// The running curly-brace balance over the first `k` tokens.
pub open spec fn curly_balance(ts: Seq<TokenView>, k: int) -> int
    decreases k,
{
    if k <= 0 {
        0
    } else {
        curly_balance(ts, k - 1) + (if ts[k - 1].kind == SyntaxKind::L_CURLY {
            1int
        } else if ts[k - 1].kind == SyntaxKind::R_CURLY {
            -1int
        } else {
            0int
        })
    }
}

/// A localized token stream is safe to reparse as a delimited unit exactly
/// when it starts with the opening curly, ends with the matching closing
/// one, never dips below balance zero, and returns to exactly zero.
pub open spec fn is_balanced_spec(ts: Seq<TokenView>) -> bool {
    &&& ts.len() > 0
    &&& ts[0].kind == SyntaxKind::L_CURLY
    &&& ts[ts.len() - 1].kind == SyntaxKind::R_CURLY
    &&& forall|k: int| 0 <= k <= ts.len() ==> curly_balance(ts, k) >= 0
    &&& curly_balance(ts, ts.len() as int) == 0
}

/// Decides the delimiter-balance safety check.
#[verifier::spinoff_prover]
#[verifier::rlimit(30)]
pub fn is_balanced(tokens: &Vec<Token>) -> (r: bool)
    ensures
        r == is_balanced_spec(tokens@.map_values(|t: Token| t@)),
{
    let ghost ts = tokens@.map_values(|t: Token| t@);
    let n = tokens.len();
    if n == 0 {
        return false;
    }
    proof {
        assert(ts[0] == tokens@[0]@);
        assert(ts[ts.len() - 1] == tokens@[ts.len() - 1]@);
    }
    if !(tokens[0].kind == SyntaxKind::L_CURLY) {
        return false;
    }
    if !(tokens[n - 1].kind == SyntaxKind::R_CURLY) {
        return false;
    }
    let mut balance: usize = 0;
    let mut i: usize = 0;
    while i < n
        invariant
            i <= n,
            n == ts.len(),
            ts == tokens@.map_values(|t: Token| t@),
            balance == curly_balance(ts, i as int),
            forall|k: int| 0 <= k <= i ==> curly_balance(ts, k) >= 0,
        decreases n - i,
    {
        proof {
            assert(ts[i as int] == tokens@[i as int]@);
        }
        let k = tokens[i].kind;
        if k == SyntaxKind::L_CURLY {
            if balance == usize::MAX {
                proof {
                    assert(curly_balance(ts, i as int + 1) > usize::MAX);
                    assert(forall|m: int|
                        i + 1 <= m <= ts.len() ==> #[trigger] curly_balance(ts, m) >= curly_balance(
                            ts,
                            i as int + 1,
                        ) - (m - i - 1)) by {
                        assert forall|m: int|
                            i + 1 <= m <= ts.len() implies #[trigger] curly_balance(ts, m)
                            >= curly_balance(ts, i as int + 1) - (m - i - 1) by {
                            lemma_balance_drop(ts, i as int + 1, m);
                        }
                    }
                }
                // A nesting this deep cannot re-balance within the stream.
                return false;
            }
            balance = balance + 1;
        } else if k == SyntaxKind::R_CURLY {
            if balance == 0 {
                return false;
            }
            balance = balance - 1;
        }
        i += 1;
    }
    balance == 0
}

/// The balance can fall by at most one per token.
proof fn lemma_balance_drop(ts: Seq<TokenView>, a: int, b: int)
    requires
        0 <= a <= b,
    ensures
        curly_balance(ts, b) >= curly_balance(ts, a) - (b - a),
    decreases b - a,
{
    if a < b {
        lemma_balance_drop(ts, a, b - 1);
    }
}

/// Whether a diagnostic's range lies entirely within `cut`.
pub open spec fn err_within(e: ErrView, cut: TextRange) -> bool {
    cut.start <= e.range.start && e.range.end <= cut.end
}

/// A diagnostic moved right by `shift` characters.
pub open spec fn err_shifted(e: ErrView, shift: int) -> ErrView {
    ErrView {
        range: TextRange {
            start: (e.range.start + shift) as usize,
            end: (e.range.end + shift) as usize,
        },
        msg: e.msg,
    }
}

/// The diagnostics of a list that do not lie inside `cut`, in order.
pub open spec fn errs_outside(olds: Seq<ErrView>, cut: TextRange) -> Seq<ErrView> {
    olds.filter(|e: ErrView| !err_within(e, cut))
}

/// Every diagnostic of a list moved right by `shift` characters.
pub open spec fn errs_shifted_all(news: Seq<ErrView>, shift: int) -> Seq<ErrView> {
    news.map_values(|e: ErrView| err_shifted(e, shift))
}

/// Replaces the diagnostics owned by the reparsed region: those of the old
/// list whose range fell inside it are dropped, and the localized parse's
/// diagnostics take their place, shifted to absolute positions. All others
/// are left untouched.
pub fn merge_errors(olds: &Vec<SyntaxError>, cut: TextRange, news: &Vec<SyntaxError>, shift: usize) -> (r: Vec<
    SyntaxError,
>)
    requires
        forall|k: int|
            0 <= k < news.deep_view().len() ==> (#[trigger] news.deep_view()[k]).range.start <= news.deep_view()[k].range.end
                && news.deep_view()[k].range.end + shift <= usize::MAX,
    ensures
        r.deep_view() == errs_outside(olds.deep_view(), cut) + errs_shifted_all(
            news.deep_view(),
            shift as int,
        ),
{
    let mut r: Vec<SyntaxError> = Vec::new();
    let mut i: usize = 0;
    while i < olds.len()
        invariant
            i <= olds@.len(),
            r.deep_view() =~= errs_outside(olds.deep_view().take(i as int), cut),
        decreases olds@.len() - i,
    {
        let e = &olds[i];
        let ghost prev = r.deep_view();
        proof {
            reveal(Seq::filter);
            assert(olds.deep_view().take(i as int + 1).drop_last() =~= olds.deep_view().take(
                i as int,
            ));
            assert(olds.deep_view().take(i as int + 1).last() == olds.deep_view()[i as int]);
        }
        if !(cut.start <= e.range.start && e.range.end <= cut.end) {
            r.push(e.duplicate());
            proof {
                assert(r.deep_view() =~= prev.push(olds.deep_view()[i as int]));
                assert(r.deep_view() =~= errs_outside(olds.deep_view().take(i as int + 1), cut));
            }
        } else {
            proof {
                assert(r.deep_view() =~= errs_outside(olds.deep_view().take(i as int + 1), cut));
            }
        }
        i += 1;
    }
    let ghost kept = r.deep_view();
    proof {
        assert(olds.deep_view().take(olds.deep_view().len() as int) =~= olds.deep_view());
    }
    let mut j: usize = 0;
    while j < news.len()
        invariant
            j <= news@.len(),
            kept == errs_outside(olds.deep_view(), cut),
            forall|k: int|
                0 <= k < news.deep_view().len() ==> (#[trigger] news.deep_view()[k]).range.start
                    <= news.deep_view()[k].range.end && news.deep_view()[k].range.end + shift
                    <= usize::MAX,
            r.deep_view() =~= kept + errs_shifted_all(
                news.deep_view().take(j as int),
                shift as int,
            ),
        decreases news@.len() - j,
    {
        let e = &news[j];
        let ghost prev = r.deep_view();
        proof {
            assert(news.deep_view()[j as int] == news@[j as int]@);
        }
        let range = TextRange { start: e.range.start + shift, end: e.range.end + shift };
        r.push(SyntaxError::new(range, e.msg.clone()));
        proof {
            assert(r.deep_view() =~= prev.push(
                err_shifted(news.deep_view()[j as int], shift as int),
            ));
            assert(errs_shifted_all(news.deep_view().take(j as int + 1), shift as int)
                =~= errs_shifted_all(news.deep_view().take(j as int), shift as int).push(
                err_shifted(news.deep_view()[j as int], shift as int),
            ));
        }
        j += 1;
    }
    proof {
        assert(news.deep_view().take(news.deep_view().len() as int) =~= news.deep_view());
    }
    r
}

} // verus!
