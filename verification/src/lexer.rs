//! The grammar lexer: converts DSL source text into a flat sequence of
//! grammar meta-tokens. Space, tab and newline are skipped; `{ } | * + ?`
//! map directly to meta-tokens; a parenthesised or bracketed span is
//! captured raw with its own nesting-depth counter; an identifier is a
//! maximal run of ASCII letters and underscore. Any other character is an
//! `InvalidCharacter` compile error.

use vstd::prelude::*;
use crate::error::{CompileError, CompileErrorView};

verus! {

/// One grammar meta-token of the DSL.
#[derive(Debug, Clone, PartialEq, Eq)]
pub enum ParsingSyntaxToken {
    LBrace,
    RBrace,
    Pipe,
    Asterisk,
    Plus,
    Question,
    /// The raw text between `(` and `)`, exclusive.
    LayerArgs(String),
    /// The raw text between `[` and `]`, exclusive.
    TokenArgs(String),
    Identifier(String),
}

/// The mathematical value of a [`ParsingSyntaxToken`].
pub enum ParsingSyntaxTokenView {
    LBrace,
    RBrace,
    Pipe,
    Asterisk,
    Plus,
    Question,
    LayerArgs(Seq<char>),
    TokenArgs(Seq<char>),
    Identifier(Seq<char>),
}

impl View for ParsingSyntaxToken {
    type V = ParsingSyntaxTokenView;

    open spec fn view(&self) -> ParsingSyntaxTokenView {
        match self {
            ParsingSyntaxToken::LBrace => ParsingSyntaxTokenView::LBrace,
            ParsingSyntaxToken::RBrace => ParsingSyntaxTokenView::RBrace,
            ParsingSyntaxToken::Pipe => ParsingSyntaxTokenView::Pipe,
            ParsingSyntaxToken::Asterisk => ParsingSyntaxTokenView::Asterisk,
            ParsingSyntaxToken::Plus => ParsingSyntaxTokenView::Plus,
            ParsingSyntaxToken::Question => ParsingSyntaxTokenView::Question,
            ParsingSyntaxToken::LayerArgs(s) => ParsingSyntaxTokenView::LayerArgs(s@),
            ParsingSyntaxToken::TokenArgs(s) => ParsingSyntaxTokenView::TokenArgs(s@),
            ParsingSyntaxToken::Identifier(s) => ParsingSyntaxTokenView::Identifier(s@),
        }
    }
}

impl DeepView for ParsingSyntaxToken {
    type V = ParsingSyntaxTokenView;

    open spec fn deep_view(&self) -> ParsingSyntaxTokenView {
        self.view()
    }
}

/// Which bracket pair an argument span was captured with.
#[derive(Debug, Clone, Copy, PartialEq, Eq)]
pub enum ArgSpanKind {
    /// `(`…`)`: a rule call's arguments.
    Parenthesized,
    /// `[`…`]`: a terminal's payload pattern.
    Bracketed,
}

/// An ASCII letter or underscore: the characters an identifier is made of.
/// Digits are deliberately not permitted.
pub open spec fn is_rule_alphabetic(c: char) -> bool {
    (0x41 <= c as u32 && c as u32 <= 0x5a)  // 'A'..='Z'
    || (0x61 <= c as u32 && c as u32 <= 0x7a)  // 'a'..='z'
    || c as u32 == 0x5f  // '_'
}

/// Space, tab or newline: skipped between meta-tokens.
pub open spec fn is_rule_whitespace(c: char) -> bool {
    c == ' ' || c == '\t' || c == '\n'
}

/// The index just past the maximal run of identifier characters starting
/// at `i`.
pub open spec fn sp_scan_ident(s: Seq<char>, i: int) -> int
    decreases s.len() - i,
{
    if 0 <= i < s.len() && is_rule_alphabetic(s[i]) {
        sp_scan_ident(s, i + 1)
    } else {
        i
    }
}

/// The index of the closer that ends an argument span scanned from `i`
/// with `depth` opened pairs still unclosed, or `None` when the text ends
/// first.
pub open spec fn sp_scan_args(s: Seq<char>, i: int, opener: char, closer: char, depth: int) ->
    Option<int>
    decreases s.len() - i,
{
    if !(0 <= i < s.len()) {
        None
    } else if s[i] == closer && depth == 0 {
        Some(i)
    } else if s[i] == opener {
        sp_scan_args(s, i + 1, opener, closer, depth + 1)
    } else if s[i] == closer {
        sp_scan_args(s, i + 1, opener, closer, depth - 1)
    } else {
        sp_scan_args(s, i + 1, opener, closer, depth)
    }
}

/// The lexing of the text from character `i` on, appended after the
/// meta-tokens `acc` already produced.
pub open spec fn sp_lex(s: Seq<char>, i: int, acc: Seq<ParsingSyntaxTokenView>) -> Result<
    Seq<ParsingSyntaxTokenView>,
    CompileErrorView,
>
    decreases s.len() - i,
{
    if !(0 <= i < s.len()) {
        Ok(acc)
    } else {
        let c = s[i];
        if is_rule_whitespace(c) {
            sp_lex(s, i + 1, acc)
        } else if c == '{' {
            sp_lex(s, i + 1, acc.push(ParsingSyntaxTokenView::LBrace))
        } else if c == '}' {
            sp_lex(s, i + 1, acc.push(ParsingSyntaxTokenView::RBrace))
        } else if c == '|' {
            sp_lex(s, i + 1, acc.push(ParsingSyntaxTokenView::Pipe))
        } else if c == '*' {
            sp_lex(s, i + 1, acc.push(ParsingSyntaxTokenView::Asterisk))
        } else if c == '+' {
            sp_lex(s, i + 1, acc.push(ParsingSyntaxTokenView::Plus))
        } else if c == '?' {
            sp_lex(s, i + 1, acc.push(ParsingSyntaxTokenView::Question))
        } else if c == '(' {
            match sp_scan_args(s, i + 1, '(', ')', 0) {
                Some(j) => {
                    let k = if i + 1 <= j + 1 <= s.len() {
                        j + 1
                    } else {
                        i + 1
                    };
                    sp_lex(s, k, acc.push(ParsingSyntaxTokenView::LayerArgs(s.subrange(i + 1, j))))
                },
                None => Err(CompileErrorView::UnclosedGroup),
            }
        } else if c == '[' {
            match sp_scan_args(s, i + 1, '[', ']', 0) {
                Some(j) => {
                    let k = if i + 1 <= j + 1 <= s.len() {
                        j + 1
                    } else {
                        i + 1
                    };
                    sp_lex(s, k, acc.push(ParsingSyntaxTokenView::TokenArgs(s.subrange(i + 1, j))))
                },
                None => Err(CompileErrorView::UnclosedGroup),
            }
        } else if is_rule_alphabetic(c) {
            let j = sp_scan_ident(s, i);
            let k = if i + 1 <= j <= s.len() {
                j
            } else {
                i + 1
            };
            sp_lex(s, k, acc.push(ParsingSyntaxTokenView::Identifier(s.subrange(i, k))))
        } else {
            Err(CompileErrorView::InvalidCharacter(c, i))
        }
    }
}

/// The complete lexing of a DSL text.
pub open spec fn sp_lex_text(s: Seq<char>) -> Result<Seq<ParsingSyntaxTokenView>, CompileErrorView> {
    sp_lex(s, 0, Seq::empty())
}

/// True of an identifier character, as the specification says.
fn rule_alphabetic(c: char) -> (b: bool)
    ensures
        b == is_rule_alphabetic(c),
{
    let u = c as u32;
    (0x41 <= u && u <= 0x5a) || (0x61 <= u && u <= 0x7a) || u == 0x5f
}

/// Appends one meta-token, tracking its value.
fn push_token(tokens: &mut Vec<ParsingSyntaxToken>, t: ParsingSyntaxToken)
    ensures
        final(tokens).deep_view() == old(tokens).deep_view().push(t@),
{
    let ghost dv0 = tokens.deep_view();
    let ghost tv = t@;
    tokens.push(t);
    proof {
        assert(tokens.deep_view() =~= dv0.push(tv));
    }
}

/// Scans the maximal identifier run starting at the cursor and returns its
/// meta-token; the cursor ends just past the run.
pub fn generate_rule_tokens_identifier(text: &str, index: &mut usize) -> (r: ParsingSyntaxToken)
    requires
        *old(index) < text@.len(),
        is_rule_alphabetic(text@[*old(index) as int]),
    ensures
        *final(index) == sp_scan_ident(text@, *old(index) as int),
        *old(index) < *final(index) <= text@.len(),
        r@ == ParsingSyntaxTokenView::Identifier(
            text@.subrange(*old(index) as int, *final(index) as int),
        ),
{
    let n = text.unicode_len();
    let start = *index;
    let mut j = start;
    let mut stop = false;
    while !stop
        invariant
            start <= j <= n,
            n == text@.len(),
            sp_scan_ident(text@, start as int) == sp_scan_ident(text@, j as int),
            stop ==> (j == n || !is_rule_alphabetic(text@[j as int])),
        decreases n - j + (if stop { 0int } else { 1int }),
    {
        if j < n {
            let c = text.get_char(j);
            if rule_alphabetic(c) {
                j = j + 1;
            } else {
                stop = true;
            }
        } else {
            stop = true;
        }
    }
    let ident = text.substring_char(start, j).to_owned();
    *index = j;
    proof {
        assert(sp_scan_ident(text@, j as int) == j as int);
        assert(start < j) by {
            assert(is_rule_alphabetic(text@[start as int]));
        }
    }
    ParsingSyntaxToken::Identifier(ident)
}

/// Scans an argument span whose opener stands under the cursor, capturing
/// the raw text between the delimiters with a per-span nesting-depth
/// counter. On success the cursor ends just past the matching closer; a
/// span the text ends inside is an `UnclosedGroup` error.
pub fn generate_rule_tokens_arguments(
    opener: char,
    closer: char,
    kind: ArgSpanKind,
    text: &str,
    index: &mut usize,
) -> (r: Result<ParsingSyntaxToken, CompileError>)
    requires
        *old(index) < text@.len(),
        opener != closer,
    ensures
        match sp_scan_args(text@, *old(index) + 1, opener, closer, 0) {
            Some(j) => {
                &&& r matches Ok(t)
                &&& *final(index) == j + 1
                &&& *old(index) < *final(index) <= text@.len()
                &&& t@ == (match kind {
                    ArgSpanKind::Parenthesized => ParsingSyntaxTokenView::LayerArgs(
                        text@.subrange(*old(index) + 1, j),
                    ),
                    ArgSpanKind::Bracketed => ParsingSyntaxTokenView::TokenArgs(
                        text@.subrange(*old(index) + 1, j),
                    ),
                })
            },
            None => (r matches Err(e) && e@ == CompileErrorView::UnclosedGroup),
        },
{
    let n = text.unicode_len();
    let start = *index;
    let mut j = start + 1;
    let mut depth: usize = 0;
    let mut found: Option<usize> = None;
    let mut stop = false;
    while !stop
        invariant
            start + 1 <= j <= n,
            n == text@.len(),
            depth <= j - (start + 1),
            !stop ==> found is None,
            sp_scan_args(text@, start + 1, opener, closer, 0) == (match found {
                Some(f) => Some(f as int),
                None => sp_scan_args(text@, j as int, opener, closer, depth as int),
            }),
            found matches Some(f) ==> start + 1 <= f < n,
            stop ==> (found is Some || j == n),
        decreases n - j + (if stop { 0int } else { 1int }),
    {
        if j >= n {
            stop = true;
        } else {
            let c = text.get_char(j);
            if c == closer && depth == 0 {
                found = Some(j);
                stop = true;
            } else if c == opener {
                depth = depth + 1;
                j = j + 1;
            } else if c == closer {
                depth = depth - 1;
                j = j + 1;
            } else {
                j = j + 1;
            }
        }
    }
    match found {
        Some(f) => {
            let raw = text.substring_char(start + 1, f).to_owned();
            *index = f + 1;
            match kind {
                ArgSpanKind::Parenthesized => Ok(ParsingSyntaxToken::LayerArgs(raw)),
                ArgSpanKind::Bracketed => Ok(ParsingSyntaxToken::TokenArgs(raw)),
            }
        },
        None => Err(CompileError::UnclosedGroup),
    }
}

/// Turns DSL source text into the flat sequence of grammar meta-tokens, or
/// reports the first compile error of the text.
pub fn generate_rule_tokens(text: &str) -> (r: Result<Vec<ParsingSyntaxToken>, CompileError>)
    ensures
        match r {
            Ok(v) => sp_lex_text(text@) == Ok::<_, CompileErrorView>(v.deep_view()),
            Err(e) => sp_lex_text(text@) == Err::<Seq<ParsingSyntaxTokenView>, _>(e@),
        },
{
    let n = text.unicode_len();
    let mut tokens: Vec<ParsingSyntaxToken> = Vec::new();
    let mut i: usize = 0;
    proof {
        assert(tokens.deep_view() =~= Seq::<ParsingSyntaxTokenView>::empty());
    }
    while i < n
        invariant
            i <= n,
            n == text@.len(),
            sp_lex_text(text@) == sp_lex(text@, i as int, tokens.deep_view()),
        decreases n - i,
    {
        let c = text.get_char(i);
        if c == ' ' || c == '\t' || c == '\n' {
            i = i + 1;
        } else if c == '{' {
            push_token(&mut tokens, ParsingSyntaxToken::LBrace);
            i = i + 1;
        } else if c == '}' {
            push_token(&mut tokens, ParsingSyntaxToken::RBrace);
            i = i + 1;
        } else if c == '|' {
            push_token(&mut tokens, ParsingSyntaxToken::Pipe);
            i = i + 1;
        } else if c == '*' {
            push_token(&mut tokens, ParsingSyntaxToken::Asterisk);
            i = i + 1;
        } else if c == '+' {
            push_token(&mut tokens, ParsingSyntaxToken::Plus);
            i = i + 1;
        } else if c == '?' {
            push_token(&mut tokens, ParsingSyntaxToken::Question);
            i = i + 1;
        } else if c == '(' {
            match generate_rule_tokens_arguments('(', ')', ArgSpanKind::Parenthesized, text, &mut i)
            {
                Ok(t) => push_token(&mut tokens, t),
                Err(e) => {
                    return Err(e);
                },
            }
        } else if c == '[' {
            match generate_rule_tokens_arguments('[', ']', ArgSpanKind::Bracketed, text, &mut i) {
                Ok(t) => push_token(&mut tokens, t),
                Err(e) => {
                    return Err(e);
                },
            }
        } else if rule_alphabetic(c) {
            let t = generate_rule_tokens_identifier(text, &mut i);
            push_token(&mut tokens, t);
        } else {
            return Err(CompileError::InvalidCharacter(c, i));
        }
    }
    Ok(tokens)
}

} // verus!
