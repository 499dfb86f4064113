//! The parser state the grammar functions drive.
//!
//! A parser owns the token stream, the original text and a builder; its
//! invariant ties them together: the characters consumed so far are exactly
//! the text the builder has accumulated, so whatever the grammar does, the
//! finished tree reproduces the input.

use vstd::prelude::*;
use std::sync::Arc;
use crate::kinds::SyntaxKind;
use crate::green::{GreenNode, green_text, green_wf, green_leaves};
use crate::text::TextRange;
use crate::syntax::{SyntaxError, ErrView};
use crate::builder::GreenBuilder;
use crate::lexer::{
    Token, TokenView, tokenize, spec_tokens, spec_tokens_from, tokens_len, token_at,
    lemma_tokens_cover, lemma_token_at_bounds,
};

verus! {

/// Every token spans at least one character and carries a token kind.
pub open spec fn toks_wf(ts: Seq<TokenView>) -> bool {
    forall|k: int|
        0 <= k < ts.len() ==> ((#[trigger] ts[k]).len >= 1 && ts[k].kind.is_token_kind())
}

/// A token list never spans a negative number of characters.
pub proof fn lemma_tokens_len_nonneg(ts: Seq<TokenView>)
    ensures
        tokens_len(ts) >= 0,
    decreases ts.len(),
{
    if ts.len() > 0 {
        lemma_tokens_len_nonneg(ts.drop_first());
    }
}

/// Splitting off the first remaining token splits its length.
pub proof fn lemma_tokens_len_skip(ts: Seq<TokenView>, k: int)
    requires
        0 <= k < ts.len(),
    ensures
        tokens_len(ts.skip(k)) == ts[k].len + tokens_len(ts.skip(k + 1)),
{
    assert(ts.skip(k)[0] == ts[k]);
    assert(ts.skip(k).drop_first() =~= ts.skip(k + 1));
}

/// Every token of the stream of any text is well formed.
pub proof fn lemma_spec_tokens_wf(s: Seq<char>, i: int)
    requires
        0 <= i <= s.len(),
    ensures
        toks_wf(crate::lexer::spec_tokens_from(s, i)),
    decreases s.len() - i,
{
    if i < s.len() {
        lemma_token_at_bounds(s, i);
        let t = token_at(s, i);
        assert(t.kind.is_token_kind());
        lemma_spec_tokens_wf(s, i + t.len);
        let ts = spec_tokens_from(s, i);
        let rest = spec_tokens_from(s, i + t.len);
        assert forall|k: int| 0 <= k < ts.len() implies ((#[trigger] ts[k]).len >= 1
            && ts[k].kind.is_token_kind()) by {
            if k == 0 {
                assert(ts[0] == t);
            } else {
                assert(ts[k] == rest[k - 1]);
            }
        }
    }
}

/// Whether a tree's leaf listing is exactly a token stream: same count,
/// and the same kind and width position by position.
pub open spec fn leaves_match(ls: Seq<(SyntaxKind, nat)>, ts: Seq<TokenView>) -> bool {
    &&& ls.len() == ts.len()
    &&& forall|j: int|
        0 <= j < ts.len() ==> ((#[trigger] ls[j]).0 == ts[j].kind && ls[j].1 == ts[j].len)
}

/// Every diagnostic range is proper and lies within the text.
pub open spec fn errs_wf(es: Seq<ErrView>, n: int) -> bool {
    forall|k: int|
        0 <= k < es.len() ==> ((#[trigger] es[k]).range.start <= es[k].range.end && es[k].range.end
            <= n)
}

/// The state the grammar functions drive.
pub struct Parser {
    tokens: Vec<Token>,
    text: String,
    /// Index of the next unconsumed token.
    pos: usize,
    /// Character offset of the next unconsumed token.
    tpos: usize,
    builder: GreenBuilder,
}

impl Parser {
    /// The token stream being parsed.
    pub closed spec fn toks(self) -> Seq<TokenView> {
        self.tokens@.map_values(|t: Token| t@)
    }

    /// The input text.
    pub closed spec fn text_spec(self) -> Seq<char> {
        self.text@
    }

    /// The index of the next unconsumed token.
    pub closed spec fn pos_spec(self) -> int {
        self.pos as int
    }

    /// The character offset of the next unconsumed token.
    pub closed spec fn tpos_spec(self) -> int {
        self.tpos as int
    }

    /// The open-node stack of the underlying builder.
    pub open spec fn parents(self) -> Seq<(SyntaxKind, usize)> {
        self.builder_spec().parents_spec()
    }

    /// The underlying builder.
    pub closed spec fn builder_spec(self) -> GreenBuilder {
        self.builder
    }

    /// The diagnostics recorded so far.
    pub open spec fn errors_spec(self) -> Seq<ErrView> {
        self.builder_spec().errors_spec()
    }

    /// How many tokens there are in total.
    pub open spec fn num_tokens(self) -> int {
        self.toks().len() as int
    }

    /// The kind of the next unconsumed token.
    pub open spec fn cur_kind(self) -> SyntaxKind
        recommends
            self.pos_spec() < self.num_tokens(),
    {
        self.toks()[self.pos_spec()].kind
    }

    /// The parser's invariant: the builder is sound, the consumed prefix of
    /// the text is exactly the builder's accumulated text, and the
    /// remaining tokens cover exactly the remaining text.
    pub open spec fn wf(self) -> bool {
        &&& self.builder_spec().wf()
        &&& toks_wf(self.toks())
        &&& 0 <= self.pos_spec() <= self.num_tokens()
        &&& self.tpos_spec() + tokens_len(self.toks().skip(self.pos_spec()))
            == self.text_spec().len()
        &&& 0 <= self.tpos_spec() <= self.text_spec().len()
        &&& self.text_spec().len() <= usize::MAX
        &&& self.builder_spec().text_spec() == self.text_spec().take(self.tpos_spec())
        &&& leaves_match(self.builder_spec().leaves_spec(), self.toks().take(self.pos_spec()))
        &&& errs_wf(self.errors_spec(), self.text_spec().len() as int)
    }

    /// Starts parsing `text` from its first token.
    pub fn new(text: &str) -> (p: Parser)
        ensures
            p.wf(),
            p.text_spec() == text@,
            p.toks() == spec_tokens(text@),
            p.pos_spec() == 0,
            p.tpos_spec() == 0,
            p.parents() == Seq::<(SyntaxKind, usize)>::empty(),
            p.errors_spec() == Seq::<ErrView>::empty(),
            p.builder_spec().children_spec() == Seq::<Arc<GreenNode>>::empty(),
    {
        let tokens = tokenize(text);
        let builder = GreenBuilder::new();
        let p = Parser { tokens, text: text.to_owned(), pos: 0, tpos: 0, builder };
        proof {
            lemma_spec_tokens_wf(text@, 0);
            lemma_tokens_cover(text@, 0);
            assert(p.toks().skip(0) =~= p.toks());
            assert(p.text_spec().take(0) =~= Seq::<char>::empty());
            assert(p.toks().take(0) =~= Seq::<TokenView>::empty());
            assert(p.builder_spec().leaves_spec() =~= Seq::<(SyntaxKind, nat)>::empty());
        }
        p
    }

    /// Whether every token has been consumed.
    pub fn at_eof(&self) -> (r: bool)
        ensures
            r == (self.pos_spec() >= self.num_tokens()),
    {
        self.pos >= self.tokens.len()
    }

    /// The kind of the next unconsumed token, absent at the end.
    pub fn current(&self) -> (r: Option<SyntaxKind>)
        ensures
            r is Some <==> self.pos_spec() < self.num_tokens(),
            r matches Some(k) ==> k == self.cur_kind(),
    {
        if self.pos < self.tokens.len() {
            proof {
                assert(self.toks()[self.pos as int] == self.tokens@[self.pos as int]@);
            }
            Some(self.tokens[self.pos].kind)
        } else {
            None
        }
    }

    /// Whether the next token is whitespace or a comment.
    pub fn at_trivia(&self) -> (r: bool)
        ensures
            r == (self.pos_spec() < self.num_tokens() && (self.cur_kind() == SyntaxKind::WHITESPACE
                || self.cur_kind() == SyntaxKind::COMMENT)),
    {
        match self.current() {
            Some(k) => k.is_trivia(),
            None => false,
        }
    }

    /// Whether the next token has the given kind.
    pub fn at(&self, kind: SyntaxKind) -> (r: bool)
        ensures
            r == (self.pos_spec() < self.num_tokens() && self.cur_kind() == kind),
    {
        match self.current() {
            Some(k) => k == kind,
            None => false,
        }
    }

    /// Consumes the next token, feeding it to the builder.
    pub fn bump(&mut self)
        requires
            old(self).wf(),
            old(self).pos_spec() < old(self).num_tokens(),
        ensures
            final(self).wf(),
            final(self).toks() == old(self).toks(),
            final(self).text_spec() == old(self).text_spec(),
            final(self).pos_spec() == old(self).pos_spec() + 1,
            final(self).parents() == old(self).parents(),
            final(self).builder_spec().children_spec().len() == old(
                self,
            ).builder_spec().children_spec().len() + 1,
            final(self).errors_spec() == old(self).errors_spec(),
    {
        proof {
            lemma_tokens_len_skip(self.toks(), self.pos as int);
            lemma_tokens_len_nonneg(self.toks().skip(self.pos as int + 1));
            assert(self.toks()[self.pos as int] == self.tokens@[self.pos as int]@);
        }
        let t = self.tokens[self.pos];
        let tok_text = self.text.as_str().substring_char(self.tpos, self.tpos + t.len);
        let owned_text = tok_text.to_owned();
        proof {
            assert(old(self).text_spec().take(self.tpos as int) + owned_text@
                =~= old(self).text_spec().take(self.tpos as int + t.len as int));
        }
        self.builder.token(t.kind, owned_text);
        proof {
            assert(self.tokens.len() == self.tokens@.len());
            assert(self.toks().take(old(self).pos_spec() + 1) =~= self.toks().take(
                old(self).pos_spec(),
            ).push(self.toks()[old(self).pos_spec()]));
        }
        self.pos = self.pos + 1;
        self.tpos = self.tpos + t.len;
    }

    /// Opens a composite node.
    pub fn start(&mut self, kind: SyntaxKind)
        requires
            old(self).wf(),
            !kind.is_token_kind(),
        ensures
            final(self).wf(),
            final(self).toks() == old(self).toks(),
            final(self).text_spec() == old(self).text_spec(),
            final(self).pos_spec() == old(self).pos_spec(),
            final(self).parents() == old(self).parents().push(final(self).parents().last()),
            final(self).parents().len() == old(self).parents().len() + 1,
            final(self).parents().last().0 == kind,
            final(self).parents().last().1 == old(self).builder_spec().children_spec().len(),
            final(self).builder_spec().children_spec() == old(self).builder_spec().children_spec(),
            final(self).errors_spec() == old(self).errors_spec(),
    {
        self.builder.start_node(kind);
    }

    /// A mark for retroactively wrapping what follows; see `wrap`.
    pub fn checkpoint(&self) -> (r: usize)
        ensures
            r == self.builder_spec().children_spec().len(),
    {
        self.builder.checkpoint()
    }

    /// Opens a composite node that adopts everything finished since the
    /// checkpoint.
    pub fn wrap(&mut self, checkpoint: usize, kind: SyntaxKind)
        requires
            old(self).wf(),
            !kind.is_token_kind(),
            checkpoint <= old(self).builder_spec().children_spec().len(),
            old(self).parents().len() > 0 ==> old(self).parents().last().1 <= checkpoint,
        ensures
            final(self).wf(),
            final(self).toks() == old(self).toks(),
            final(self).text_spec() == old(self).text_spec(),
            final(self).pos_spec() == old(self).pos_spec(),
            final(self).parents() == old(self).parents().push((kind, checkpoint)),
            final(self).builder_spec().children_spec() == old(self).builder_spec().children_spec(),
            final(self).errors_spec() == old(self).errors_spec(),
    {
        self.builder.start_node_at(checkpoint, kind);
    }

    /// Closes the most recently opened node.
    pub fn finish(&mut self)
        requires
            old(self).wf(),
            old(self).parents().len() > 0,
        ensures
            final(self).wf(),
            final(self).toks() == old(self).toks(),
            final(self).text_spec() == old(self).text_spec(),
            final(self).pos_spec() == old(self).pos_spec(),
            final(self).parents() == old(self).parents().drop_last(),
            final(self).builder_spec().children_spec().len() == old(self).parents().last().1 + 1,
            (*final(self).builder_spec().children_spec().last()).kind_spec() == old(
                self,
            ).parents().last().0,
            !(*final(self).builder_spec().children_spec().last()).is_leaf_spec(),
            final(self).errors_spec() == old(self).errors_spec(),
    {
        self.builder.finish_node();
    }

    /// Records a diagnostic covering the next token (or the end position).
    pub fn error_here(&mut self, msg: String)
        requires
            old(self).wf(),
        ensures
            final(self).wf(),
            final(self).toks() == old(self).toks(),
            final(self).text_spec() == old(self).text_spec(),
            final(self).pos_spec() == old(self).pos_spec(),
            final(self).parents() == old(self).parents(),
            final(self).builder_spec().children_spec() == old(self).builder_spec().children_spec(),
            final(self).errors_spec().len() == old(self).errors_spec().len() + 1,
    {
        let end = if self.pos < self.tokens.len() {
            proof {
                lemma_tokens_len_skip(self.toks(), self.pos as int);
                lemma_tokens_len_nonneg(self.toks().skip(self.pos as int + 1));
                assert(self.toks()[self.pos as int] == self.tokens@[self.pos as int]@);
            }
            self.tpos + self.tokens[self.pos].len
        } else {
            self.tpos
        };
        let range = TextRange { start: self.tpos, end };
        self.builder.error(range, msg);
        proof {
            let es = self.builder.errors_spec();
            let n = self.text_spec().len() as int;
            assert forall|k: int| 0 <= k < es.len() implies ((#[trigger] es[k]).range.start
                <= es[k].range.end && es[k].range.end <= n) by {
                if k < es.len() - 1 {
                    assert(es[k] == old(self).errors_spec()[k]);
                }
            }
        }
    }

    /// Ends parsing: every token consumed, one root built.
    pub fn into_tree(self) -> (r: (Arc<GreenNode>, Vec<SyntaxError>))
        requires
            self.wf(),
            self.pos_spec() == self.num_tokens(),
            self.parents().len() == 0,
            self.builder_spec().children_spec().len() == 1,
        ensures
            green_wf(*r.0),
            green_text(*r.0) == self.text_spec(),
            green_leaves(*r.0).len() == self.toks().len(),
            leaves_match(green_leaves(*r.0), self.toks()),
            r.0 == self.builder_spec().children_spec()[0],
            r.1.deep_view() == self.errors_spec(),
    {
        proof {
            assert(self.toks().skip(self.pos_spec()) =~= Seq::<TokenView>::empty());
            assert(self.text_spec().take(self.tpos_spec()) =~= self.text_spec());
            assert(self.toks().take(self.pos_spec()) =~= self.toks());
        }
        self.builder.finish()
    }
}

} // verus!
