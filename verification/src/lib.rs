//! A lossless, error-tolerant syntax tree library for interactive tooling.
//!
//! The tree keeps every character of the source text, a parse always
//! produces a tree together with a list of diagnostics, and a single edit
//! can be reflected by a localized reparse that falls back to a full
//! reparse whenever the fast path is not provably safe.

use vstd::prelude::*;

pub mod kinds;
pub mod green;
pub mod text;
pub mod syntax;
pub mod builder;
pub mod lexer;
pub mod parser;
pub mod grammar;
pub mod checker;
pub mod algo;
pub mod reparse;
pub mod ast;

pub use crate::kinds::SyntaxKind;
pub use crate::text::{TextRange, AtomEdit};
pub use crate::green::GreenNode;
pub use crate::syntax::{SyntaxNode, SyntaxNodeRef, OwnedRoot, RefRoot, TreeRoot, SyntaxError};
pub use crate::lexer::{tokenize, Token};
pub use crate::checker::validate_block_structure;
pub use crate::ast::AstNode;

use crate::green::{green_text, green_wf, green_leaves};
use crate::syntax::{
    ErrView, SyntaxRoot, path_valid, node_at, path_offset, lemma_node_text_slice,
    lemma_wf_node_at,
};
use crate::text::{splice_text, replace_range};
use crate::lexer::spec_tokens;
use crate::parser::{errs_wf, leaves_match};
use crate::grammar::{parse_file_text, parse_block_text, parse_fields_text};
use crate::algo::{find_covering_node, covers, covering_path, lemma_prefix_covers};
use crate::reparse::{
    replace_node_at, is_balanced, is_balanced_spec, merge_errors, errs_outside, errs_shifted_all,
};
use std::sync::Arc;

verus! {

/// Kinds with a dedicated grammar entry point able to parse just that
/// node's content in isolation.
pub open spec fn reparsable_kind(k: SyntaxKind) -> bool {
    k == SyntaxKind::BLOCK || k == SyntaxKind::NAMED_FIELD_DEF_LIST
}

/// The conditions under which the localized fast path may produce a tree:
/// the path reaches a reparsable node that covers the whole delete range,
/// and the retokenized replacement text forms a single, zero-balance,
/// delimiter-bounded unit.
pub open spec fn fast_path_ok(
    g: GreenNode,
    path: Seq<usize>,
    delete: TextRange,
    insert: Seq<char>,
) -> bool {
    &&& path_valid(g, path)
    &&& reparsable_kind(node_at(g, path).kind_spec())
    &&& covers(g, path, delete)
    &&& is_balanced_spec(
        spec_tokens(
            splice_text(
                green_text(node_at(g, path)),
                TextRange {
                    start: (delete.start - path_offset(g, path)) as usize,
                    end: (delete.end - path_offset(g, path)) as usize,
                },
                insert,
            ),
        ),
    )
}

/// The nearest ancestor (the path itself first) whose kind has a dedicated
/// grammar entry point.
pub open spec fn nearest_reparsable(g: GreenNode, path: Seq<usize>) -> Option<Seq<usize>>
    decreases path.len(),
{
    if reparsable_kind(node_at(g, path).kind_spec()) {
        Some(path)
    } else if path.len() == 0 {
        None
    } else {
        nearest_reparsable(g, path.drop_last())
    }
}

/// The region the localized reparse works on: the nearest reparsable
/// ancestor of the smallest node covering the delete range.
pub open spec fn chosen_region(g: GreenNode, delete: TextRange) -> Option<Seq<usize>> {
    nearest_reparsable(g, covering_path(g, Seq::empty(), delete))
}

/// After a localized reparse of the region at `path`, the diagnostics are
/// the old ones whose range lay outside the region, in order, followed by
/// the localized parse's own, shifted to absolute positions and confined
/// to the region's new extent.
pub open spec fn fast_errors_ok(
    g: GreenNode,
    path: Seq<usize>,
    delete: TextRange,
    insert: Seq<char>,
    olds: Seq<ErrView>,
    finals: Seq<ErrView>,
) -> bool {
    let off = path_offset(g, path);
    let old_len = green_text(node_at(g, path)).len();
    let cut = TextRange { start: off as usize, end: (off + old_len) as usize };
    exists|news: Seq<ErrView>|
        {
            &&& errs_wf(news, old_len - delete.len_spec() + insert.len())
            &&& finals == errs_outside(olds, cut) + errs_shifted_all(news, off)
        }
}

/// One parse result: a self-owned navigable root plus its diagnostics. A
/// reparse never mutates a file, it produces a new one.
pub struct File {
    root: SyntaxNode<OwnedRoot>,
}

impl File {
    /// The navigable root this file owns.
    pub closed spec fn root_spec(self) -> SyntaxNode<OwnedRoot> {
        self.root
    }

    /// A file is well formed when its tree is, viewed from the very root,
    /// and the root node is a whole-file node.
    pub open spec fn wf(self) -> bool {
        &&& self.root_spec().wf()
        &&& self.root_spec().path_spec().len() == 0
        &&& self.root_spec().kind_spec() == SyntaxKind::ROOT
    }

    /// The whole document's text.
    pub open spec fn text_spec(self) -> Seq<char> {
        self.root_spec().full_text_spec()
    }

    /// The diagnostics attached to this parse result.
    pub open spec fn errors_spec(self) -> Seq<ErrView> {
        self.root_spec().errors_spec()
    }

    /// Wraps a finished green tree and its diagnostics as a file.
    fn from_parts(green: Arc<GreenNode>, errors: Vec<SyntaxError>) -> (f: File)
        requires
            green_wf(*green),
            (*green).kind_spec() == SyntaxKind::ROOT,
        ensures
            f.wf(),
            f.text_spec() == green_text(*green),
            f.root_spec().green_root_spec() == *green,
            f.errors_spec() == errors.deep_view(),
    {
        File { root: SyntaxNode::new_owned(SyntaxRoot { green, errors }) }
    }

    /// Parses a whole document. This never fails, however malformed the
    /// text: the resulting tree always reproduces the input exactly, and
    /// whatever was wrong with it is reported in the diagnostics.
    pub fn parse(text: &str) -> (f: File)
        ensures
            f.wf(),
            f.text_spec() == text@,
            leaves_match(
                green_leaves(f.root_spec().green_root_spec()),
                spec_tokens(text@),
            ),
            f.root_spec().kind_spec() == SyntaxKind::ROOT,
            errs_wf(f.errors_spec(), text@.len() as int),
    {
        let (green, errors) = parse_file_text(text);
        File::from_parts(green, errors)
    }

    /// The untyped navigable root, borrowing this file's tree.
    pub fn syntax<'a>(&'a self) -> (r: SyntaxNodeRef<'a>)
        requires
            self.wf(),
        ensures
            r.wf(),
            r.path_spec() == Seq::<usize>::empty(),
            r.green_root_spec() == self.root_spec().green_root_spec(),
            r.errors_spec() == self.errors_spec(),
            r.node_spec() == self.root_spec().green_root_spec(),
            r.text_spec() == self.text_spec(),
    {
        let r = self.root.borrowed();
        proof {
            assert(r.path_spec() =~= Seq::<usize>::empty());
        }
        r
    }

    /// An independent copy of the diagnostic list.
    pub fn errors(&self) -> (r: Vec<SyntaxError>)
        ensures
            r.deep_view() == self.errors_spec(),
    {
        self.root.root_errors()
    }

    /// The typed view of the root: the file as a whole-file node.
    pub fn ast<'b>(&'b self) -> (r: crate::ast::Root<'b>)
        requires
            self.wf(),
        ensures
            r.node_spec().wf(),
            r.node_spec().path_spec() == Seq::<usize>::empty(),
            r.node_spec().green_root_spec() == self.root_spec().green_root_spec(),
            r.node_spec().errors_spec() == self.errors_spec(),
    {
        match crate::ast::Root::cast(self.syntax()) {
            Some(r) => r,
            None => unreached(),
        }
    }

    /// The document's full text.
    pub fn text(&self) -> (r: String)
        requires
            self.wf(),
        ensures
            r@ == self.text_spec(),
    {
        self.root.text()
    }

    /// Reflects one edit: a localized reparse where that is provably safe,
    /// a full reparse of the edited text otherwise. The receiver is
    /// unaffected; the result's text is always exactly the edit applied to
    /// the old text as a plain string operation.
    pub fn reparse(&self, edit: &AtomEdit) -> (f: File)
        requires
            self.wf(),
            edit.delete.wf(),
            edit.delete.end <= self.text_spec().len(),
            self.text_spec().len() - edit.delete.len_spec() + edit.insert@.len() <= usize::MAX,
        ensures
            f.wf(),
            f.text_spec() == splice_text(self.text_spec(), edit.delete, edit.insert@),
    {
        match self.incremental_reparse(edit) {
            Some(f) => f,
            None => self.full_reparse(edit),
        }
    }

    /// Retokenizes and reparses only the smallest reparsable node around
    /// the edit, splicing the fresh subtree into the old tree and reusing
    /// every sibling subtree unchanged. The result is a tree exactly when
    /// the chosen region exists and passes every safety check; otherwise
    /// nothing, so that the caller falls back to a full reparse.
    #[verifier::loop_isolation(false)]
    pub fn incremental_reparse(&self, edit: &AtomEdit) -> (r: Option<File>)
        requires
            self.wf(),
            edit.delete.wf(),
            edit.delete.end <= self.text_spec().len(),
            self.text_spec().len() - edit.delete.len_spec() + edit.insert@.len() <= usize::MAX,
        ensures
            r is Some <==> (chosen_region(self.root_spec().green_root_spec(), edit.delete) matches
                Some(p) && fast_path_ok(
                self.root_spec().green_root_spec(),
                p,
                edit.delete,
                edit.insert@,
            )),
            r matches Some(f) ==> {
                &&& f.wf()
                &&& f.text_spec() == splice_text(self.text_spec(), edit.delete, edit.insert@)
                &&& (chosen_region(self.root_spec().green_root_spec(), edit.delete) matches Some(
                    p,
                ) && fast_errors_ok(
                    self.root_spec().green_root_spec(),
                    p,
                    edit.delete,
                    edit.insert@,
                    self.errors_spec(),
                    f.errors_spec(),
                ))
            },
    {
        let ghost g = self.root_spec().green_root_spec();
        let root_ref = self.syntax();
        let covering = find_covering_node(&root_ref, edit.delete);
        let ghost cov = covering.path_spec();
        proof {
            assert(cov == covering_path(g, Seq::<usize>::empty(), edit.delete));
            assert(cov.take(cov.len() as int) =~= cov);
        }
        let ancs = covering.ancestors();
        let n_anc = ancs.len();
        let mut i: usize = 0;
        while i < n_anc
            invariant
                i <= n_anc,
                i < n_anc ==> nearest_reparsable(g, cov) == nearest_reparsable(
                    g,
                    cov.take(cov.len() - i),
                ),
                i == n_anc ==> nearest_reparsable(g, cov) is None,
            decreases n_anc - i,
        {
            let node = &ancs[i];
            let k = node.kind();
            if k == SyntaxKind::BLOCK || k == SyntaxKind::NAMED_FIELD_DEF_LIST {
                proof {
                    // This is the nearest reparsable ancestor: the chosen
                    // region of the edit.
                    assert(nearest_reparsable(g, cov.take(cov.len() - i)) == Some(
                        node.path_spec(),
                    ));
                    assert(chosen_region(g, edit.delete) == Some(node.path_spec()));
                    lemma_prefix_covers(
                        g,
                        covering.path_spec(),
                        covering.path_spec().len() - i,
                        edit.delete,
                    );
                    lemma_wf_node_at(g, node.path_spec());
                    lemma_node_text_slice(g, node.path_spec());
                }
                let node_range = node.range();
                let rel = edit.delete.shift_left(node_range.start);
                let node_text = node.text();
                let new_node_text = replace_range(node_text, rel, edit.insert.as_str());
                let ghost off = path_offset(g, node.path_spec());
                let ghost old_sub = node_at(g, node.path_spec());
                proof {
                    // The replacement text is exactly the localized splice
                    // that the fast-path conditions speak of.
                    assert(rel == (TextRange {
                        start: (edit.delete.start - off) as usize,
                        end: (edit.delete.end - off) as usize,
                    }));
                    assert(new_node_text@ == splice_text(green_text(old_sub), rel, edit.insert@));
                }
                let tokens = tokenize(new_node_text.as_str());
                if !is_balanced(&tokens) {
                    proof {
                        assert(!fast_path_ok(g, node.path_spec(), edit.delete, edit.insert@));
                    }
                    return None;
                }
                let (sub, new_errors) = if k == SyntaxKind::BLOCK {
                    parse_block_text(new_node_text.as_str())
                } else {
                    parse_fields_text(new_node_text.as_str())
                };
                let path = node.path_vec();
                proof {
                    assert(path@.skip(0) =~= node.path_spec());
                    assert(green_text(*sub).len() == new_node_text@.len());
                    // The found node is reparsable, so it cannot be the root
                    // itself: the spliced tree keeps the whole-file kind.
                    assert(node.path_spec().len() > 0);
                }
                let new_green = replace_node_at(root_ref.green_node(), &path, 0, sub);
                let old_errors = self.errors();
                proof {
                    assert forall|m: int|
                        0 <= m < new_errors.deep_view().len() implies (
                    #[trigger] new_errors.deep_view()[m]).range.start
                        <= new_errors.deep_view()[m].range.end
                        && new_errors.deep_view()[m].range.end + node_range.start
                        <= usize::MAX by {
                        assert(new_errors.deep_view()[m].range.end <= new_node_text@.len());
                    }
                }
                let merged = merge_errors(&old_errors, node_range, &new_errors, node_range.start);
                let f = File::from_parts(new_green, merged);
                proof {
                    let t = self.text_spec();
                    let nlen = green_text(old_sub).len() as int;
                    // The node's text is the slice of the whole text.
                    assert(green_text(old_sub) == t.subrange(off, off + nlen));
                    // The replacement text is the edit applied to that slice.
                    assert(new_node_text@ == green_text(old_sub).take(rel.start as int)
                        + edit.insert@ + green_text(old_sub).skip(rel.end as int));
                    // The spliced tree's text substitutes exactly that slice.
                    assert(f.text_spec() == t.take(off) + new_node_text@ + t.skip(off + nlen));
                    // Reassociate: the result is the edit applied to the whole text.
                    assert(t.take(off) + green_text(old_sub).take(rel.start as int) =~= t.take(
                        edit.delete.start as int,
                    ));
                    assert(green_text(old_sub).skip(rel.end as int) + t.skip(off + nlen) =~= t.skip(
                        edit.delete.end as int,
                    ));
                    assert(f.text_spec() =~= splice_text(t, edit.delete, edit.insert@));
                    // The fast-path conditions hold of the chosen region.
                    assert(fast_path_ok(g, node.path_spec(), edit.delete, edit.insert@));
                    // The diagnostics were merged exactly as stated: old
                    // ones outside the region kept, new ones shifted in.
                    assert(node_range == (TextRange {
                        start: off as usize,
                        end: (off + nlen) as usize,
                    }));
                    assert(new_node_text@.len() == nlen - edit.delete.len_spec()
                        + edit.insert@.len());
                    assert(f.errors_spec() == errs_outside(self.errors_spec(), node_range)
                        + errs_shifted_all(new_errors.deep_view(), off));
                    assert(fast_errors_ok(
                        g,
                        node.path_spec(),
                        edit.delete,
                        edit.insert@,
                        self.errors_spec(),
                        f.errors_spec(),
                    ));
                }
                return Some(f);
            }
            proof {
                // Not a reparsable kind: the nearest reparsable ancestor,
                // if any, lies further up.
                let p = cov.take(cov.len() - i);
                assert(node.path_spec() == p);
                assert(!reparsable_kind(node_at(g, p).kind_spec()));
                if p.len() > 0 {
                    assert(p.drop_last() =~= cov.take(cov.len() - (i + 1)));
                }
            }
            i += 1;
        }
        proof {
            assert(chosen_region(g, edit.delete) is None);
        }
        None
    }

    /// Reparses the whole edited text from scratch: the result is in every
    /// stated respect what parsing the edited text yields.
    fn full_reparse(&self, edit: &AtomEdit) -> (f: File)
        requires
            self.wf(),
            edit.delete.wf(),
            edit.delete.end <= self.text_spec().len(),
        ensures
            f.wf(),
            f.text_spec() == splice_text(self.text_spec(), edit.delete, edit.insert@),
            leaves_match(
                green_leaves(f.root_spec().green_root_spec()),
                spec_tokens(splice_text(self.text_spec(), edit.delete, edit.insert@)),
            ),
            errs_wf(f.errors_spec(), splice_text(self.text_spec(), edit.delete, edit.insert@).len() as int),
    {
        let text = self.text();
        let new_text = replace_range(text, edit.delete, edit.insert.as_str());
        File::parse(new_text.as_str())
    }
}

} // verus!
