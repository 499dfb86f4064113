//! The tokenizer: raw text to a flat token stream.
//!
//! Tokens cover the entire input with no gaps: the sum of the token lengths
//! always equals the input length, and every character belongs to exactly
//! one token. Unrecognized characters become one-character error tokens, so
//! tokenizing never fails.

use vstd::prelude::*;
use crate::kinds::SyntaxKind;

verus! {

/// One token: its kind and how many characters it spans.
#[derive(Clone, Copy, Debug, PartialEq, Eq, Structural)]
pub struct Token {
    pub kind: SyntaxKind,
    pub len: usize,
}

/// The mathematical value of a token.
#[derive(PartialEq, Eq, Structural)]
pub ghost struct TokenView {
    pub kind: SyntaxKind,
    pub len: nat,
}

impl View for Token {
    type V = TokenView;

    open spec fn view(&self) -> TokenView {
        TokenView { kind: self.kind, len: self.len as nat }
    }
}

/// Whitespace characters.
pub open spec fn is_ws_char(c: char) -> bool {
    c == ' ' || c == '\t' || c == '\n' || c == '\r'
}

/// Decimal digits.
pub open spec fn is_digit_char(c: char) -> bool {
    '0' <= c <= '9'
}

/// Characters that may start an identifier.
pub open spec fn is_ident_start_char(c: char) -> bool {
    ('a' <= c <= 'z') || ('A' <= c <= 'Z') || c == '_'
}

/// Characters that may continue an identifier.
pub open spec fn is_ident_cont_char(c: char) -> bool {
    is_ident_start_char(c) || is_digit_char(c)
}

/// The length of the whitespace run starting at `i`.
pub open spec fn ws_run(s: Seq<char>, i: int) -> nat
    decreases s.len() - i,
    when 0 <= i <= s.len()
{
    if i < s.len() && is_ws_char(s[i]) {
        1 + ws_run(s, i + 1)
    } else {
        0
    }
}

/// The length of the digit run starting at `i`.
pub open spec fn digit_run(s: Seq<char>, i: int) -> nat
    decreases s.len() - i,
    when 0 <= i <= s.len()
{
    if i < s.len() && is_digit_char(s[i]) {
        1 + digit_run(s, i + 1)
    } else {
        0
    }
}

/// The length of the identifier run starting at `i`.
pub open spec fn ident_run(s: Seq<char>, i: int) -> nat
    decreases s.len() - i,
    when 0 <= i <= s.len()
{
    if i < s.len() && is_ident_cont_char(s[i]) {
        1 + ident_run(s, i + 1)
    } else {
        0
    }
}

/// A run never reaches past the end of the text.
pub proof fn lemma_ws_run_bound(s: Seq<char>, i: int)
    requires
        0 <= i <= s.len(),
    ensures
        ws_run(s, i) <= s.len() - i,
    decreases s.len() - i,
{
    if i < s.len() && is_ws_char(s[i]) {
        lemma_ws_run_bound(s, i + 1);
    }
}

/// A run never reaches past the end of the text.
pub proof fn lemma_digit_run_bound(s: Seq<char>, i: int)
    requires
        0 <= i <= s.len(),
    ensures
        digit_run(s, i) <= s.len() - i,
    decreases s.len() - i,
{
    if i < s.len() && is_digit_char(s[i]) {
        lemma_digit_run_bound(s, i + 1);
    }
}

/// A run never reaches past the end of the text.
pub proof fn lemma_ident_run_bound(s: Seq<char>, i: int)
    requires
        0 <= i <= s.len(),
    ensures
        ident_run(s, i) <= s.len() - i,
    decreases s.len() - i,
{
    if i < s.len() && is_ident_cont_char(s[i]) {
        lemma_ident_run_bound(s, i + 1);
    }
}

/// The kind of an identifier-shaped span: a keyword where the characters
/// spell one, an identifier otherwise.
pub open spec fn ident_kind(s: Seq<char>, i: int, n: nat) -> SyntaxKind {
    if n == 2 && s[i] == 'f' && s[i + 1] == 'n' {
        SyntaxKind::FN_KW
    } else if n == 6 && s[i] == 's' && s[i + 1] == 't' && s[i + 2] == 'r' && s[i + 3] == 'u' && s[i
        + 4] == 'c' && s[i + 5] == 't' {
        SyntaxKind::STRUCT_KW
    } else if n == 3 && s[i] == 'm' && s[i + 1] == 'o' && s[i + 2] == 'd' {
        SyntaxKind::MOD_KW
    } else {
        SyntaxKind::IDENT
    }
}

/// The kind of a one-character punctuation token.
pub open spec fn punct_kind(c: char) -> SyntaxKind {
    if c == '(' {
        SyntaxKind::L_PAREN
    } else if c == ')' {
        SyntaxKind::R_PAREN
    } else if c == '{' {
        SyntaxKind::L_CURLY
    } else if c == '}' {
        SyntaxKind::R_CURLY
    } else if c == '+' {
        SyntaxKind::PLUS
    } else if c == '-' {
        SyntaxKind::MINUS
    } else if c == '*' {
        SyntaxKind::STAR
    } else if c == '/' {
        SyntaxKind::SLASH
    } else if c == ',' {
        SyntaxKind::COMMA
    } else if c == ';' {
        SyntaxKind::SEMI
    } else if c == ':' {
        SyntaxKind::COLON
    } else if c == '=' {
        SyntaxKind::EQ
    } else {
        SyntaxKind::ERROR_TOKEN
    }
}

/// The token that starts at position `i` of the text.
pub open spec fn token_at(s: Seq<char>, i: int) -> TokenView
    recommends
        0 <= i < s.len(),
{
    let c = s[i];
    if is_ws_char(c) {
        TokenView { kind: SyntaxKind::WHITESPACE, len: ws_run(s, i) }
    } else if is_ident_start_char(c) {
        TokenView { kind: ident_kind(s, i, ident_run(s, i)), len: ident_run(s, i) }
    } else if is_digit_char(c) {
        TokenView { kind: SyntaxKind::INT_NUMBER, len: digit_run(s, i) }
    } else {
        TokenView { kind: punct_kind(c), len: 1 }
    }
}

/// Every token spans at least one character and stays within the text.
pub proof fn lemma_token_at_bounds(s: Seq<char>, i: int)
    requires
        0 <= i < s.len(),
    ensures
        1 <= token_at(s, i).len,
        i + token_at(s, i).len <= s.len(),
{
    lemma_ws_run_bound(s, i);
    lemma_digit_run_bound(s, i);
    lemma_ident_run_bound(s, i);
}

/// The token stream from position `i` to the end of the text.
pub open spec fn spec_tokens_from(s: Seq<char>, i: int) -> Seq<TokenView>
    decreases s.len() - i,
    when 0 <= i <= s.len()
    via spec_tokens_from_decreases
{
    if i >= s.len() {
        Seq::empty()
    } else {
        Seq::empty().push(token_at(s, i)) + spec_tokens_from(s, i + token_at(s, i).len)
    }
}

#[via_fn]
proof fn spec_tokens_from_decreases(s: Seq<char>, i: int) {
    if i < s.len() {
        lemma_token_at_bounds(s, i);
    }
}

/// The token stream of a whole text.
pub open spec fn spec_tokens(s: Seq<char>) -> Seq<TokenView> {
    spec_tokens_from(s, 0)
}

/// The total number of characters a token list spans.
pub open spec fn tokens_len(ts: Seq<TokenView>) -> int
    decreases ts.len(),
{
    if ts.len() == 0 {
        0
    } else {
        ts[0].len + tokens_len(ts.drop_first())
    }
}

/// The token stream covers the text exactly: no gaps, no overlaps.
pub proof fn lemma_tokens_cover(s: Seq<char>, i: int)
    requires
        0 <= i <= s.len(),
    ensures
        tokens_len(spec_tokens_from(s, i)) == s.len() - i,
    decreases s.len() - i,
{
    if i >= s.len() {
    } else {
        lemma_token_at_bounds(s, i);
        lemma_tokens_cover(s, i + token_at(s, i).len);
        let t = token_at(s, i);
        let ts = spec_tokens_from(s, i);
        assert(ts[0] == t);
        assert(ts.drop_first() =~= spec_tokens_from(s, i + t.len as int));
    }
}

/// Recognizes whitespace.
fn is_ws(c: char) -> (r: bool)
    ensures
        r == is_ws_char(c),
{
    c == ' ' || c == '\t' || c == '\n' || c == '\r'
}

/// Recognizes decimal digits.
fn is_digit(c: char) -> (r: bool)
    ensures
        r == is_digit_char(c),
{
    c >= '0' && c <= '9'
}

/// Recognizes identifier-start characters.
fn is_ident_start(c: char) -> (r: bool)
    ensures
        r == is_ident_start_char(c),
{
    (c >= 'a' && c <= 'z') || (c >= 'A' && c <= 'Z') || c == '_'
}

/// Recognizes identifier-continue characters.
fn is_ident_cont(c: char) -> (r: bool)
    ensures
        r == is_ident_cont_char(c),
{
    is_ident_start(c) || is_digit(c)
}

/// Scans the whitespace run starting at `i`.
fn scan_ws(text: &str, i: usize, n: usize) -> (j: usize)
    requires
        n == text@.len(),
        i < n,
        is_ws_char(text@[i as int]),
    ensures
        i <= j <= n,
        j == i + ws_run(text@, i as int),
{
    let ghost s = text@;
    let mut j = i;
    while j < n && is_ws(text.get_char(j))
        invariant
            i <= j <= n,
            n == s.len(),
            text@ == s,
            ws_run(s, i as int) == j - i + ws_run(s, j as int),
        decreases n - j,
    {
        proof {
            assert(ws_run(s, j as int) == 1 + ws_run(s, j as int + 1));
        }
        j += 1;
    }
    proof {
        assert(ws_run(s, j as int) == 0);
    }
    j
}

/// Scans the digit run starting at `i`.
fn scan_digits(text: &str, i: usize, n: usize) -> (j: usize)
    requires
        n == text@.len(),
        i < n,
        is_digit_char(text@[i as int]),
    ensures
        i <= j <= n,
        j == i + digit_run(text@, i as int),
{
    let ghost s = text@;
    let mut j = i;
    while j < n && is_digit(text.get_char(j))
        invariant
            i <= j <= n,
            n == s.len(),
            text@ == s,
            digit_run(s, i as int) == j - i + digit_run(s, j as int),
        decreases n - j,
    {
        proof {
            assert(digit_run(s, j as int) == 1 + digit_run(s, j as int + 1));
        }
        j += 1;
    }
    proof {
        assert(digit_run(s, j as int) == 0);
    }
    j
}

/// Scans the identifier run starting at `i`.
fn scan_ident(text: &str, i: usize, n: usize) -> (j: usize)
    requires
        n == text@.len(),
        i < n,
        is_ident_cont_char(text@[i as int]),
    ensures
        i <= j <= n,
        j == i + ident_run(text@, i as int),
{
    let ghost s = text@;
    let mut j = i;
    while j < n && is_ident_cont(text.get_char(j))
        invariant
            i <= j <= n,
            n == s.len(),
            text@ == s,
            ident_run(s, i as int) == j - i + ident_run(s, j as int),
        decreases n - j,
    {
        proof {
            assert(ident_run(s, j as int) == 1 + ident_run(s, j as int + 1));
        }
        j += 1;
    }
    proof {
        assert(ident_run(s, j as int) == 0);
    }
    j
}

/// Classifies an identifier-shaped span as a keyword or an identifier.
fn classify_ident(text: &str, i: usize, j: usize) -> (k: SyntaxKind)
    requires
        i < j <= text@.len(),
    ensures
        k == ident_kind(text@, i as int, (j - i) as nat),
{
    let n = j - i;
    if n == 2 && text.get_char(i) == 'f' && text.get_char(i + 1) == 'n' {
        SyntaxKind::FN_KW
    } else if n == 6 && text.get_char(i) == 's' && text.get_char(i + 1) == 't' && text.get_char(
        i + 2,
    ) == 'r' && text.get_char(i + 3) == 'u' && text.get_char(i + 4) == 'c' && text.get_char(i + 5)
        == 't' {
        SyntaxKind::STRUCT_KW
    } else if n == 3 && text.get_char(i) == 'm' && text.get_char(i + 1) == 'o' && text.get_char(
        i + 2,
    ) == 'd' {
        SyntaxKind::MOD_KW
    } else {
        SyntaxKind::IDENT
    }
}

/// Maps a one-character token to its kind.
fn classify_punct(c: char) -> (k: SyntaxKind)
    ensures
        k == punct_kind(c),
{
    if c == '(' {
        SyntaxKind::L_PAREN
    } else if c == ')' {
        SyntaxKind::R_PAREN
    } else if c == '{' {
        SyntaxKind::L_CURLY
    } else if c == '}' {
        SyntaxKind::R_CURLY
    } else if c == '+' {
        SyntaxKind::PLUS
    } else if c == '-' {
        SyntaxKind::MINUS
    } else if c == '*' {
        SyntaxKind::STAR
    } else if c == '/' {
        SyntaxKind::SLASH
    } else if c == ',' {
        SyntaxKind::COMMA
    } else if c == ';' {
        SyntaxKind::SEMI
    } else if c == ':' {
        SyntaxKind::COLON
    } else if c == '=' {
        SyntaxKind::EQ
    } else {
        SyntaxKind::ERROR_TOKEN
    }
}

/// Tokenizes a whole text: an ordered token sequence covering every
/// character of the input with no gaps.
pub fn tokenize(text: &str) -> (r: Vec<Token>)
    ensures
        r@.map_values(|t: Token| t@) == spec_tokens(text@),
        forall|k: int| 0 <= k < r@.len() ==> (#[trigger] r@[k]).len >= 1,
        text@.len() <= usize::MAX,
{
    let ghost s = text@;
    let n = text.unicode_len();
    let mut r: Vec<Token> = Vec::new();
    let mut i: usize = 0;
    while i < n
        invariant
            i <= n,
            n == s.len(),
            text@ == s,
            spec_tokens(s) == r@.map_values(|t: Token| t@) + spec_tokens_from(s, i as int),
            forall|k: int| 0 <= k < r@.len() ==> (#[trigger] r@[k]).len >= 1,
        decreases n - i,
    {
        let c = text.get_char(i);
        let tok: Token = if is_ws(c) {
            let j = scan_ws(text, i, n);
            Token { kind: SyntaxKind::WHITESPACE, len: j - i }
        } else if is_ident_start(c) {
            let j = scan_ident(text, i, n);
            Token { kind: classify_ident(text, i, j), len: j - i }
        } else if is_digit(c) {
            let j = scan_digits(text, i, n);
            Token { kind: SyntaxKind::INT_NUMBER, len: j - i }
        } else {
            Token { kind: classify_punct(c), len: 1 }
        };
        proof {
            assert(tok@ == token_at(s, i as int));
            lemma_token_at_bounds(s, i as int);
        }
        let ghost prev = r@.map_values(|t: Token| t@);
        r.push(tok);
        proof {
            assert(r@.map_values(|t: Token| t@) =~= prev.push(tok@));
            assert(spec_tokens_from(s, i as int) == Seq::empty().push(token_at(s, i as int))
                + spec_tokens_from(s, i as int + token_at(s, i as int).len));
            assert(prev.push(tok@) + spec_tokens_from(
                s,
                i as int + token_at(s, i as int).len,
            ) =~= prev + spec_tokens_from(s, i as int));
        }
        i = i + tok.len;
    }
    proof {
        assert(spec_tokens_from(s, i as int) =~= Seq::<TokenView>::empty());
        assert(r@.map_values(|t: Token| t@) + Seq::<TokenView>::empty() =~= r@.map_values(
            |t: Token| t@,
        ));
    }
    r
}

} // verus!
