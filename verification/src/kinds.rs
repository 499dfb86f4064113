//! The closed catalogue of node and token categories.
//!
//! Every entity in the tree is keyed by a [`SyntaxKind`]: leaf tokens carry
//! one of the token kinds, composite nodes one of the node kinds.

use vstd::prelude::*;

verus! {

/// One tag per node or token category; the set is closed and exhaustive.
#[derive(Clone, Copy, Debug, PartialEq, Eq, Hash, Structural)]
#[allow(non_camel_case_types)]
pub enum SyntaxKind {
    // Token kinds (leaves).
    ERROR_TOKEN,
    WHITESPACE,
    COMMENT,
    IDENT,
    INT_NUMBER,
    L_PAREN,
    R_PAREN,
    L_CURLY,
    R_CURLY,
    PLUS,
    MINUS,
    STAR,
    SLASH,
    COMMA,
    SEMI,
    COLON,
    EQ,
    FN_KW,
    STRUCT_KW,
    MOD_KW,
    // Node kinds (composites).
    ROOT,
    ERROR_NODE,
    FN_DEF,
    STRUCT_DEF,
    ENUM_DEF,
    TRAIT_DEF,
    TYPE_DEF,
    CONST_DEF,
    STATIC_DEF,
    MODULE,
    IMPL_ITEM,
    NAME,
    NAME_REF,
    ATTR,
    TOKEN_TREE,
    PARAM_LIST,
    BLOCK,
    LITERAL,
    NAMED_FIELD_DEF_LIST,
    NAMED_FIELD_DEF,
    TYPE_PARAM_LIST,
    TYPE_PARAM,
    WHERE_CLAUSE,
    LABEL,
    TUPLE_EXPR,
    ARRAY_EXPR,
    PAREN_EXPR,
    PATH_EXPR,
    LAMBDA_EXPR,
    IF_EXPR,
    LOOP_EXPR,
    FOR_EXPR,
    WHILE_EXPR,
    CONTINUE_EXPR,
    BREAK_EXPR,
    BLOCK_EXPR,
    RETURN_EXPR,
    MATCH_EXPR,
    MATCH_ARM_LIST,
    MATCH_ARM,
    MATCH_GUARD,
    STRUCT_LIT,
    NAMED_FIELD_LIST,
    NAMED_FIELD,
    CALL_EXPR,
    INDEX_EXPR,
    METHOD_CALL_EXPR,
    FIELD_EXPR,
    TRY_EXPR,
    CAST_EXPR,
    REF_EXPR,
    PREFIX_EXPR,
    RANGE_EXPR,
    BIN_EXPR,
    PAREN_TYPE,
    TUPLE_TYPE,
    NEVER_TYPE,
    PATH_TYPE,
    POINTER_TYPE,
    ARRAY_TYPE,
    SLICE_TYPE,
    REFERENCE_TYPE,
    PLACEHOLDER_TYPE,
    FN_POINTER_TYPE,
    FOR_TYPE,
    IMPL_TRAIT_TYPE,
    DYN_TRAIT_TYPE,
}

impl SyntaxKind {
    /// True of the kinds that only ever label leaf tokens, never composites.
    pub open spec fn is_token_kind(self) -> bool {
        match self {
            SyntaxKind::ERROR_TOKEN
            | SyntaxKind::WHITESPACE
            | SyntaxKind::COMMENT
            | SyntaxKind::IDENT
            | SyntaxKind::INT_NUMBER
            | SyntaxKind::L_PAREN
            | SyntaxKind::R_PAREN
            | SyntaxKind::L_CURLY
            | SyntaxKind::R_CURLY
            | SyntaxKind::PLUS
            | SyntaxKind::MINUS
            | SyntaxKind::STAR
            | SyntaxKind::SLASH
            | SyntaxKind::COMMA
            | SyntaxKind::SEMI
            | SyntaxKind::COLON
            | SyntaxKind::EQ
            | SyntaxKind::FN_KW
            | SyntaxKind::STRUCT_KW
            | SyntaxKind::MOD_KW => true,
            _ => false,
        }
    }

    /// Whitespace and comments: tokens that separate meaningful ones.
    pub fn is_trivia(self) -> (r: bool)
        ensures
            r == (self == SyntaxKind::WHITESPACE || self == SyntaxKind::COMMENT),
    {
        match self {
            SyntaxKind::WHITESPACE | SyntaxKind::COMMENT => true,
            _ => false,
        }
    }
}

} // verus!
