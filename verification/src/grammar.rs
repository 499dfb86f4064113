//! The grammar driver: one entry point per reparsable kind plus one
//! whole-file entry point.
//!
//! Every function is error tolerant: unexpected input is recorded as a
//! diagnostic and consumed, never propagated as a failure, so a tree is
//! produced for any input whatsoever. The contracts state what makes that
//! safe: the parser invariant is kept, the token stream and text never
//! change, the open-node stack is restored, and consumption advances.

use vstd::prelude::*;
use std::sync::Arc;
use crate::kinds::SyntaxKind;
use crate::green::{GreenNode, green_text, green_wf, green_leaves};
use crate::syntax::SyntaxError;
use crate::parser::{Parser, errs_wf, leaves_match};

verus! {

/// The parts of a parser that no grammar function may change: the tokens
/// and the text being parsed.
pub open spec fn same_stream(a: Parser, b: Parser) -> bool {
    a.toks() == b.toks() && a.text_spec() == b.text_spec()
}

/// Token kinds that may begin an expression atom.
pub open spec fn is_atom_start(k: SyntaxKind) -> bool {
    k == SyntaxKind::INT_NUMBER || k == SyntaxKind::IDENT || k == SyntaxKind::L_PAREN
}

/// Binary operators.
pub open spec fn is_binop(k: SyntaxKind) -> bool {
    k == SyntaxKind::PLUS || k == SyntaxKind::MINUS || k == SyntaxKind::STAR || k
        == SyntaxKind::SLASH
}

/// Whether the parser stands at an expression-atom start.
fn at_atom_start(p: &Parser) -> (r: bool)
    ensures
        r == (p.pos_spec() < p.num_tokens() && is_atom_start(p.cur_kind())),
{
    p.at(SyntaxKind::INT_NUMBER) || p.at(SyntaxKind::IDENT) || p.at(SyntaxKind::L_PAREN)
}

/// Whether the parser stands at a binary operator.
fn at_binop(p: &Parser) -> (r: bool)
    ensures
        r == (p.pos_spec() < p.num_tokens() && is_binop(p.cur_kind())),
{
    p.at(SyntaxKind::PLUS) || p.at(SyntaxKind::MINUS) || p.at(SyntaxKind::STAR) || p.at(
        SyntaxKind::SLASH,
    )
}

/// Consumes any run of whitespace and comment tokens.
fn eat_trivia(p: &mut Parser)
    requires
        old(p).wf(),
    ensures
        final(p).wf(),
        same_stream(*old(p), *final(p)),
        final(p).parents() == old(p).parents(),
        final(p).pos_spec() >= old(p).pos_spec(),
        final(p).builder_spec().children_spec().len() >= old(
            p,
        ).builder_spec().children_spec().len(),
        final(p).errors_spec() == old(p).errors_spec(),
{
    while p.at_trivia()
        invariant
            p.wf(),
            same_stream(*old(p), *p),
            p.parents() == old(p).parents(),
            p.pos_spec() >= old(p).pos_spec(),
            p.builder_spec().children_spec().len() >= old(p).builder_spec().children_spec().len(),
            p.errors_spec() == old(p).errors_spec(),
        decreases p.num_tokens() - p.pos_spec(),
    {
        p.bump();
    }
}

/// Parses one `NAME` node out of the identifier at the cursor.
fn parse_name(p: &mut Parser)
    requires
        old(p).wf(),
        old(p).pos_spec() < old(p).num_tokens(),
        old(p).cur_kind() == SyntaxKind::IDENT,
    ensures
        final(p).wf(),
        same_stream(*old(p), *final(p)),
        final(p).parents() == old(p).parents(),
        final(p).pos_spec() > old(p).pos_spec(),
        final(p).builder_spec().children_spec().len() == old(
            p,
        ).builder_spec().children_spec().len() + 1,
        final(p).errors_spec() == old(p).errors_spec(),
{
    p.start(SyntaxKind::NAME);
    p.bump();
    p.finish();
}

/// Parses one `NAME_REF` node out of the identifier at the cursor.
fn parse_name_ref(p: &mut Parser)
    requires
        old(p).wf(),
        old(p).pos_spec() < old(p).num_tokens(),
        old(p).cur_kind() == SyntaxKind::IDENT,
    ensures
        final(p).wf(),
        same_stream(*old(p), *final(p)),
        final(p).parents() == old(p).parents(),
        final(p).pos_spec() > old(p).pos_spec(),
        final(p).builder_spec().children_spec().len() == old(
            p,
        ).builder_spec().children_spec().len() + 1,
        final(p).errors_spec() == old(p).errors_spec(),
{
    p.start(SyntaxKind::NAME_REF);
    p.bump();
    p.finish();
}

/// Parses one expression atom: an integer literal, a path expression, or a
/// parenthesized expression.
fn parse_atom(p: &mut Parser)
    requires
        old(p).wf(),
        old(p).pos_spec() < old(p).num_tokens(),
        is_atom_start(old(p).cur_kind()),
    ensures
        final(p).wf(),
        same_stream(*old(p), *final(p)),
        final(p).parents() == old(p).parents(),
        final(p).pos_spec() > old(p).pos_spec(),
        final(p).builder_spec().children_spec().len() == old(
            p,
        ).builder_spec().children_spec().len() + 1,
    decreases old(p).num_tokens() - old(p).pos_spec(), 0int,
{
    if p.at(SyntaxKind::INT_NUMBER) {
        p.start(SyntaxKind::LITERAL);
        p.bump();
        p.finish();
    } else if p.at(SyntaxKind::IDENT) {
        p.start(SyntaxKind::PATH_EXPR);
        parse_name_ref(p);
        p.finish();
    } else {
        p.start(SyntaxKind::PAREN_EXPR);
        p.bump();
        eat_trivia(p);
        if at_atom_start(p) {
            parse_expr(p);
        } else {
            p.error_here("expected an expression".to_owned());
        }
        eat_trivia(p);
        if p.at(SyntaxKind::R_PAREN) {
            p.bump();
        } else {
            p.error_here("expected a closing parenthesis".to_owned());
        }
        p.finish();
    }
}

/// Parses one expression: an atom, possibly continued by binary operators;
/// consecutive operators nest to the left.
fn parse_expr(p: &mut Parser)
    requires
        old(p).wf(),
        old(p).pos_spec() < old(p).num_tokens(),
        is_atom_start(old(p).cur_kind()),
    ensures
        final(p).wf(),
        same_stream(*old(p), *final(p)),
        final(p).parents() == old(p).parents(),
        final(p).pos_spec() > old(p).pos_spec(),
        final(p).builder_spec().children_spec().len() >= old(
            p,
        ).builder_spec().children_spec().len() + 1,
    decreases old(p).num_tokens() - old(p).pos_spec(), 1int,
{
    let cp = p.checkpoint();
    proof {
        if p.parents().len() > 0 {
            assert(p.parents()[p.parents().len() - 1].1 <= p.builder_spec().children_spec().len());
        }
    }
    parse_atom(p);
    eat_trivia(p);
    while at_binop(p)
        invariant
            p.wf(),
            same_stream(*old(p), *p),
            p.parents() == old(p).parents(),
            p.pos_spec() > old(p).pos_spec(),
            cp == old(p).builder_spec().children_spec().len(),
            p.builder_spec().children_spec().len() >= cp + 1,
            p.parents().len() > 0 ==> p.parents().last().1 <= cp,
        decreases p.num_tokens() - p.pos_spec(),
    {
        p.wrap(cp, SyntaxKind::BIN_EXPR);
        p.bump();
        eat_trivia(p);
        if at_atom_start(p) {
            parse_atom(p);
        } else {
            p.error_here("expected an expression".to_owned());
        }
        p.finish();
        eat_trivia(p);
    }
}

/// Consumes statements up to (not including) a closing brace or the end.
fn block_contents(p: &mut Parser)
    requires
        old(p).wf(),
    ensures
        final(p).wf(),
        same_stream(*old(p), *final(p)),
        final(p).parents() == old(p).parents(),
        final(p).pos_spec() >= old(p).pos_spec(),
        final(p).builder_spec().children_spec().len() >= old(
            p,
        ).builder_spec().children_spec().len(),
{
    while !p.at_eof() && !p.at(SyntaxKind::R_CURLY)
        invariant
            p.wf(),
            same_stream(*old(p), *p),
            p.parents() == old(p).parents(),
            p.pos_spec() >= old(p).pos_spec(),
            p.builder_spec().children_spec().len() >= old(p).builder_spec().children_spec().len(),
        decreases p.num_tokens() - p.pos_spec(),
    {
        eat_trivia(p);
        if !p.at_eof() && !p.at(SyntaxKind::R_CURLY) {
            if at_atom_start(p) {
                parse_expr(p);
            } else if p.at(SyntaxKind::SEMI) {
                p.bump();
            } else {
                p.error_here("unexpected token".to_owned());
                p.start(SyntaxKind::ERROR_NODE);
                p.bump();
                p.finish();
            }
        }
    }
}

/// Parses one `BLOCK` node: braces around statements.
fn parse_block(p: &mut Parser)
    requires
        old(p).wf(),
        old(p).pos_spec() < old(p).num_tokens(),
        old(p).cur_kind() == SyntaxKind::L_CURLY,
    ensures
        final(p).wf(),
        same_stream(*old(p), *final(p)),
        final(p).parents() == old(p).parents(),
        final(p).pos_spec() > old(p).pos_spec(),
        final(p).builder_spec().children_spec().len() == old(
            p,
        ).builder_spec().children_spec().len() + 1,
{
    p.start(SyntaxKind::BLOCK);
    p.bump();
    block_contents(p);
    if p.at(SyntaxKind::R_CURLY) {
        p.bump();
    } else {
        p.error_here("expected a closing brace".to_owned());
    }
    p.finish();
}

/// Parses one `PARAM_LIST` node: parentheses around parameters.
fn parse_param_list(p: &mut Parser)
    requires
        old(p).wf(),
        old(p).pos_spec() < old(p).num_tokens(),
        old(p).cur_kind() == SyntaxKind::L_PAREN,
    ensures
        final(p).wf(),
        same_stream(*old(p), *final(p)),
        final(p).parents() == old(p).parents(),
        final(p).pos_spec() > old(p).pos_spec(),
        final(p).builder_spec().children_spec().len() == old(
            p,
        ).builder_spec().children_spec().len() + 1,
{
    p.start(SyntaxKind::PARAM_LIST);
    p.bump();
    let ghost mark = p.parents().last();
    while !p.at_eof() && !p.at(SyntaxKind::R_PAREN) && !p.at(SyntaxKind::L_CURLY)
        invariant
            p.wf(),
            same_stream(*old(p), *p),
            p.parents() == old(p).parents().push(mark),
            mark.0 == SyntaxKind::PARAM_LIST,
            mark.1 == old(p).builder_spec().children_spec().len(),
            p.pos_spec() > old(p).pos_spec(),
        decreases p.num_tokens() - p.pos_spec(),
    {
        eat_trivia(p);
        if !p.at_eof() && !p.at(SyntaxKind::R_PAREN) && !p.at(SyntaxKind::L_CURLY) {
            if p.at(SyntaxKind::IDENT) || p.at(SyntaxKind::COMMA) || p.at(SyntaxKind::COLON) {
                p.bump();
            } else {
                p.error_here("unexpected token in a parameter list".to_owned());
                p.bump();
            }
        }
    }
    if p.at(SyntaxKind::R_PAREN) {
        p.bump();
    } else {
        p.error_here("expected a closing parenthesis".to_owned());
    }
    p.finish();
}

/// Parses one `PATH_TYPE` node out of the identifier at the cursor.
fn parse_type(p: &mut Parser)
    requires
        old(p).wf(),
        old(p).pos_spec() < old(p).num_tokens(),
        old(p).cur_kind() == SyntaxKind::IDENT,
    ensures
        final(p).wf(),
        same_stream(*old(p), *final(p)),
        final(p).parents() == old(p).parents(),
        final(p).pos_spec() > old(p).pos_spec(),
        final(p).builder_spec().children_spec().len() == old(
            p,
        ).builder_spec().children_spec().len() + 1,
{
    p.start(SyntaxKind::PATH_TYPE);
    parse_name_ref(p);
    p.finish();
}

/// Parses one `NAMED_FIELD_DEF` node: a name, a colon and a type.
fn parse_field(p: &mut Parser)
    requires
        old(p).wf(),
        old(p).pos_spec() < old(p).num_tokens(),
        old(p).cur_kind() == SyntaxKind::IDENT,
    ensures
        final(p).wf(),
        same_stream(*old(p), *final(p)),
        final(p).parents() == old(p).parents(),
        final(p).pos_spec() > old(p).pos_spec(),
        final(p).builder_spec().children_spec().len() == old(
            p,
        ).builder_spec().children_spec().len() + 1,
{
    p.start(SyntaxKind::NAMED_FIELD_DEF);
    parse_name(p);
    eat_trivia(p);
    if p.at(SyntaxKind::COLON) {
        p.bump();
        eat_trivia(p);
        if p.at(SyntaxKind::IDENT) {
            parse_type(p);
        } else {
            p.error_here("expected a type".to_owned());
        }
    } else {
        p.error_here("expected a colon".to_owned());
    }
    p.finish();
}

/// Consumes field definitions up to (not including) a closing brace or the
/// end.
fn field_list_contents(p: &mut Parser)
    requires
        old(p).wf(),
    ensures
        final(p).wf(),
        same_stream(*old(p), *final(p)),
        final(p).parents() == old(p).parents(),
        final(p).pos_spec() >= old(p).pos_spec(),
        final(p).builder_spec().children_spec().len() >= old(
            p,
        ).builder_spec().children_spec().len(),
{
    while !p.at_eof() && !p.at(SyntaxKind::R_CURLY)
        invariant
            p.wf(),
            same_stream(*old(p), *p),
            p.parents() == old(p).parents(),
            p.pos_spec() >= old(p).pos_spec(),
            p.builder_spec().children_spec().len() >= old(p).builder_spec().children_spec().len(),
        decreases p.num_tokens() - p.pos_spec(),
    {
        eat_trivia(p);
        if !p.at_eof() && !p.at(SyntaxKind::R_CURLY) {
            if p.at(SyntaxKind::IDENT) {
                parse_field(p);
            } else if p.at(SyntaxKind::COMMA) {
                p.bump();
            } else {
                p.error_here("unexpected token in a field list".to_owned());
                p.start(SyntaxKind::ERROR_NODE);
                p.bump();
                p.finish();
            }
        }
    }
}

/// Parses one `NAMED_FIELD_DEF_LIST` node: braces around field definitions.
fn parse_field_list(p: &mut Parser)
    requires
        old(p).wf(),
        old(p).pos_spec() < old(p).num_tokens(),
        old(p).cur_kind() == SyntaxKind::L_CURLY,
    ensures
        final(p).wf(),
        same_stream(*old(p), *final(p)),
        final(p).parents() == old(p).parents(),
        final(p).pos_spec() > old(p).pos_spec(),
        final(p).builder_spec().children_spec().len() == old(
            p,
        ).builder_spec().children_spec().len() + 1,
{
    p.start(SyntaxKind::NAMED_FIELD_DEF_LIST);
    p.bump();
    field_list_contents(p);
    if p.at(SyntaxKind::R_CURLY) {
        p.bump();
    } else {
        p.error_here("expected a closing brace".to_owned());
    }
    p.finish();
}

/// Parses one `FN_DEF` node: the `fn` keyword, a name, parameters, a body.
fn parse_fn(p: &mut Parser)
    requires
        old(p).wf(),
        old(p).pos_spec() < old(p).num_tokens(),
        old(p).cur_kind() == SyntaxKind::FN_KW,
    ensures
        final(p).wf(),
        same_stream(*old(p), *final(p)),
        final(p).parents() == old(p).parents(),
        final(p).pos_spec() > old(p).pos_spec(),
        final(p).builder_spec().children_spec().len() == old(
            p,
        ).builder_spec().children_spec().len() + 1,
{
    p.start(SyntaxKind::FN_DEF);
    p.bump();
    eat_trivia(p);
    if p.at(SyntaxKind::IDENT) {
        parse_name(p);
    } else {
        p.error_here("expected a function name".to_owned());
    }
    eat_trivia(p);
    if p.at(SyntaxKind::L_PAREN) {
        parse_param_list(p);
    } else {
        p.error_here("expected a parameter list".to_owned());
    }
    eat_trivia(p);
    if p.at(SyntaxKind::L_CURLY) {
        parse_block(p);
    } else {
        p.error_here("expected a function body".to_owned());
    }
    p.finish();
}

/// Parses one `STRUCT_DEF` node: the `struct` keyword, a name, its fields.
fn parse_struct(p: &mut Parser)
    requires
        old(p).wf(),
        old(p).pos_spec() < old(p).num_tokens(),
        old(p).cur_kind() == SyntaxKind::STRUCT_KW,
    ensures
        final(p).wf(),
        same_stream(*old(p), *final(p)),
        final(p).parents() == old(p).parents(),
        final(p).pos_spec() > old(p).pos_spec(),
        final(p).builder_spec().children_spec().len() == old(
            p,
        ).builder_spec().children_spec().len() + 1,
{
    p.start(SyntaxKind::STRUCT_DEF);
    p.bump();
    eat_trivia(p);
    if p.at(SyntaxKind::IDENT) {
        parse_name(p);
    } else {
        p.error_here("expected a struct name".to_owned());
    }
    eat_trivia(p);
    if p.at(SyntaxKind::L_CURLY) {
        parse_field_list(p);
    } else if p.at(SyntaxKind::SEMI) {
        p.bump();
    } else {
        p.error_here("expected a field list or a semicolon".to_owned());
    }
    p.finish();
}

/// Parses one `MODULE` node: the `mod` keyword, a name and a semicolon.
fn parse_mod(p: &mut Parser)
    requires
        old(p).wf(),
        old(p).pos_spec() < old(p).num_tokens(),
        old(p).cur_kind() == SyntaxKind::MOD_KW,
    ensures
        final(p).wf(),
        same_stream(*old(p), *final(p)),
        final(p).parents() == old(p).parents(),
        final(p).pos_spec() > old(p).pos_spec(),
        final(p).builder_spec().children_spec().len() == old(
            p,
        ).builder_spec().children_spec().len() + 1,
{
    p.start(SyntaxKind::MODULE);
    p.bump();
    eat_trivia(p);
    if p.at(SyntaxKind::IDENT) {
        parse_name(p);
    } else {
        p.error_here("expected a module name".to_owned());
    }
    eat_trivia(p);
    if p.at(SyntaxKind::SEMI) {
        p.bump();
    } else {
        p.error_here("expected a semicolon".to_owned());
    }
    p.finish();
}

/// Parses one item, or consumes one token diagnosing it, so that the
/// whole-file loop always advances.
fn parse_item_or_bump(p: &mut Parser)
    requires
        old(p).wf(),
        old(p).pos_spec() < old(p).num_tokens(),
    ensures
        final(p).wf(),
        same_stream(*old(p), *final(p)),
        final(p).parents() == old(p).parents(),
        final(p).pos_spec() > old(p).pos_spec(),
{
    if p.at(SyntaxKind::FN_KW) {
        parse_fn(p);
    } else if p.at(SyntaxKind::STRUCT_KW) {
        parse_struct(p);
    } else if p.at(SyntaxKind::MOD_KW) {
        parse_mod(p);
    } else if p.at_trivia() {
        p.bump();
    } else {
        p.error_here("expected an item".to_owned());
        p.start(SyntaxKind::ERROR_NODE);
        p.bump();
        p.finish();
    }
}

/// Consumes everything left after a reparse entry's own node, diagnosing it.
fn trailing_junk(p: &mut Parser)
    requires
        old(p).wf(),
    ensures
        final(p).wf(),
        same_stream(*old(p), *final(p)),
        final(p).parents() == old(p).parents(),
        final(p).pos_spec() >= final(p).num_tokens(),
{
    while !p.at_eof()
        invariant
            p.wf(),
            same_stream(*old(p), *p),
            p.parents() == old(p).parents(),
        decreases p.num_tokens() - p.pos_spec(),
    {
        p.error_here("unexpected token".to_owned());
        p.start(SyntaxKind::ERROR_NODE);
        p.bump();
        p.finish();
    }
}

/// The whole-file grammar entry point: always yields a well-formed `ROOT`
/// tree holding exactly the input text, plus the diagnostics.
pub fn parse_file_text(text: &str) -> (r: (Arc<GreenNode>, Vec<SyntaxError>))
    ensures
        green_wf(*r.0),
        green_text(*r.0) == text@,
        leaves_match(green_leaves(*r.0), crate::lexer::spec_tokens(text@)),
        (*r.0).kind_spec() == SyntaxKind::ROOT,
        !(*r.0).is_leaf_spec(),
        errs_wf(r.1.deep_view(), text@.len() as int),
{
    let mut p = Parser::new(text);
    p.start(SyntaxKind::ROOT);
    while !p.at_eof()
        invariant
            p.wf(),
            p.text_spec() == text@,
            p.toks() == crate::lexer::spec_tokens(text@),
            p.parents().len() == 1,
            p.parents()[0].0 == SyntaxKind::ROOT,
            p.parents()[0].1 == 0,
        decreases p.num_tokens() - p.pos_spec(),
    {
        parse_item_or_bump(&mut p);
    }
    p.finish();
    p.into_tree()
}

/// The dedicated grammar entry point for a block body: always yields a
/// well-formed `BLOCK` tree holding exactly the input text.
pub fn parse_block_text(text: &str) -> (r: (Arc<GreenNode>, Vec<SyntaxError>))
    ensures
        green_wf(*r.0),
        green_text(*r.0) == text@,
        leaves_match(green_leaves(*r.0), crate::lexer::spec_tokens(text@)),
        (*r.0).kind_spec() == SyntaxKind::BLOCK,
        !(*r.0).is_leaf_spec(),
        errs_wf(r.1.deep_view(), text@.len() as int),
{
    let mut p = Parser::new(text);
    p.start(SyntaxKind::BLOCK);
    if p.at(SyntaxKind::L_CURLY) {
        p.bump();
    } else {
        p.error_here("expected an opening brace".to_owned());
    }
    block_contents(&mut p);
    if p.at(SyntaxKind::R_CURLY) {
        p.bump();
    } else {
        p.error_here("expected a closing brace".to_owned());
    }
    trailing_junk(&mut p);
    p.finish();
    p.into_tree()
}

/// The dedicated grammar entry point for a field-definition list: always
/// yields a well-formed `NAMED_FIELD_DEF_LIST` tree holding exactly the
/// input text.
pub fn parse_fields_text(text: &str) -> (r: (Arc<GreenNode>, Vec<SyntaxError>))
    ensures
        green_wf(*r.0),
        green_text(*r.0) == text@,
        leaves_match(green_leaves(*r.0), crate::lexer::spec_tokens(text@)),
        (*r.0).kind_spec() == SyntaxKind::NAMED_FIELD_DEF_LIST,
        !(*r.0).is_leaf_spec(),
        errs_wf(r.1.deep_view(), text@.len() as int),
{
    let mut p = Parser::new(text);
    p.start(SyntaxKind::NAMED_FIELD_DEF_LIST);
    if p.at(SyntaxKind::L_CURLY) {
        p.bump();
    } else {
        p.error_here("expected an opening brace".to_owned());
    }
    field_list_contents(&mut p);
    if p.at(SyntaxKind::R_CURLY) {
        p.bump();
    } else {
        p.error_here("expected a closing brace".to_owned());
    }
    trailing_junk(&mut p);
    p.finish();
    p.into_tree()
}

} // verus!
