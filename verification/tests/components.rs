//! Component-level tests: the token stream runtime, the grammar lexer,
//! the syntax tree builder, rendering, and the error model.

use parshem::builder::{generate_rule, generate_rule_tree};
use parshem::error::{CompileError, ParseError, ParseErrorType};
use parshem::lexer::{generate_rule_tokens, ParsingSyntaxToken};
use parshem::syntax::{ParsingSyntaxTree, ParsingSyntaxTreePiece, TokenPattern};
use parshem::tokens::{List, ListSnapshot, Position, Token};

fn pos() -> Position {
    Position { location: String::from("input"), line: 1, column: 1 }
}

fn plain(kind: &str) -> Token {
    Token { kind: String::from(kind), payload: None, start: pos(), end: pos() }
}

#[test]
fn list_cursor_and_snapshots_are_independent() {
    let mut list = List::new();
    list.push(plain("A"));
    list.push(plain("B"));
    list.push(plain("C"));
    assert_eq!(list.len(), 3);
    assert!(!list.end());
    assert_eq!(list.get().unwrap().kind, "A");
    let snap_start = list.snapshot();
    assert_eq!(list.next().unwrap().kind, "B");
    let snap_mid = list.snapshot();
    assert_eq!(list.next().unwrap().kind, "C");
    assert!(list.next().is_none());
    assert!(list.end());
    snap_start.restore(&mut list);
    assert_eq!(list.index, 0);
    snap_mid.restore(&mut list);
    assert_eq!(list.index, 1);
    snap_start.restore(&mut list);
    assert_eq!(list.index, 0);
    list.set_index(2);
    assert_eq!(list.get().unwrap().kind, "C");
    list.reset();
    assert_eq!(list.index, 0);
}

#[test]
fn next_saturates_at_end() {
    let mut list = List::new();
    list.push(plain("A"));
    list.set_index(1);
    assert!(list.next().is_none());
    assert_eq!(list.index, 1);
}

#[test]
fn snapshot_new_carries_index() {
    let snap = ListSnapshot::new(2);
    let mut list = List::new();
    list.push(plain("A"));
    list.push(plain("B"));
    list.push(plain("C"));
    snap.restore(&mut list);
    assert_eq!(list.index, 2);
}

#[test]
fn lexer_meta_tokens() {
    let toks = generate_rule_tokens("{ a | b }* (x(y)) [_] +?").unwrap();
    assert_eq!(
        toks,
        vec![
            ParsingSyntaxToken::LBrace,
            ParsingSyntaxToken::Identifier(String::from("a")),
            ParsingSyntaxToken::Pipe,
            ParsingSyntaxToken::Identifier(String::from("b")),
            ParsingSyntaxToken::RBrace,
            ParsingSyntaxToken::Asterisk,
            ParsingSyntaxToken::LayerArgs(String::from("x(y)")),
            ParsingSyntaxToken::TokenArgs(String::from("_")),
            ParsingSyntaxToken::Plus,
            ParsingSyntaxToken::Question,
        ]
    );
}

#[test]
fn lexer_identifier_includes_underscore_excludes_digits() {
    let toks = generate_rule_tokens("my_name").unwrap();
    assert_eq!(toks, vec![ParsingSyntaxToken::Identifier(String::from("my_name"))]);
    assert_eq!(
        generate_rule_tokens("abc1").unwrap_err(),
        CompileError::InvalidCharacter('1', 3)
    );
}

#[test]
fn lexer_invalid_character_offset() {
    assert_eq!(
        generate_rule_tokens("r { 1 }").unwrap_err(),
        CompileError::InvalidCharacter('1', 4)
    );
}

#[test]
fn lexer_unclosed_argument_span() {
    assert_eq!(generate_rule_tokens("f(abc").unwrap_err(), CompileError::UnclosedGroup);
    assert_eq!(generate_rule_tokens("T[abc").unwrap_err(), CompileError::UnclosedGroup);
}

#[test]
fn lexer_nested_argument_span() {
    let toks = generate_rule_tokens("f((a(b))c)").unwrap();
    assert_eq!(
        toks,
        vec![
            ParsingSyntaxToken::Identifier(String::from("f")),
            ParsingSyntaxToken::LayerArgs(String::from("(a(b))c")),
        ]
    );
}

#[test]
fn builder_unwraps_single_alternative() {
    let tree = generate_rule("{ A B }").unwrap();
    assert_eq!(
        tree.pieces,
        vec![
            ParsingSyntaxTreePiece::Token(String::from("A"), TokenPattern::Any),
            ParsingSyntaxTreePiece::Token(String::from("B"), TokenPattern::Any),
        ]
    );
}

#[test]
fn builder_wraps_multiple_alternatives() {
    let tree = generate_rule("{ A | B }").unwrap();
    assert_eq!(tree.pieces.len(), 1);
    match &tree.pieces[0] {
        ParsingSyntaxTreePiece::OneOf(alts) => {
            assert_eq!(alts.len(), 2);
            assert_eq!(
                alts[0].pieces,
                vec![ParsingSyntaxTreePiece::Token(String::from("A"), TokenPattern::Any)]
            );
        },
        other => panic!("expected an ordered choice, got {:?}", other),
    }
}

#[test]
fn builder_quantifiers_and_patterns() {
    let tree = generate_rule("{ {A}* {B}+ {C}? D[_] E[lit] f(x) }").unwrap();
    assert_eq!(tree.pieces.len(), 6);
    assert!(matches!(tree.pieces[0], ParsingSyntaxTreePiece::ZeroOrMore(_)));
    assert!(matches!(tree.pieces[1], ParsingSyntaxTreePiece::OneOrMore(_)));
    assert!(matches!(tree.pieces[2], ParsingSyntaxTreePiece::Optional(_)));
    assert_eq!(
        tree.pieces[3],
        ParsingSyntaxTreePiece::Token(String::from("D"), TokenPattern::Any)
    );
    assert_eq!(
        tree.pieces[4],
        ParsingSyntaxTreePiece::Token(
            String::from("E"),
            TokenPattern::Literal(String::from("lit"))
        )
    );
    assert_eq!(
        tree.pieces[5],
        ParsingSyntaxTreePiece::Layer(String::from("f"), String::from("x"))
    );
}

#[test]
fn builder_rejects_stray_meta_tokens() {
    assert_eq!(generate_rule("{ | }").unwrap_err(), CompileError::UnexpectedToken);
    assert_eq!(generate_rule("{}").unwrap_err(), CompileError::UnexpectedToken);
    assert_eq!(generate_rule("").unwrap_err(), CompileError::UnexpectedToken);
    assert_eq!(generate_rule("{ A ").unwrap_err(), CompileError::UnclosedGroup);
}

#[test]
fn builder_from_token_list() {
    let toks = vec![
        ParsingSyntaxToken::LBrace,
        ParsingSyntaxToken::Identifier(String::from("A")),
        ParsingSyntaxToken::RBrace,
    ];
    let tree = generate_rule_tree(&toks).unwrap();
    assert_eq!(
        tree.pieces,
        vec![ParsingSyntaxTreePiece::Token(String::from("A"), TokenPattern::Any)]
    );
}

#[test]
fn tree_new_and_put_next_concatenate() {
    let mut t = ParsingSyntaxTree::new(ParsingSyntaxTreePiece::Token(
        String::from("A"),
        TokenPattern::Any,
    ));
    let u = ParsingSyntaxTree::new(ParsingSyntaxTreePiece::Token(
        String::from("B"),
        TokenPattern::Any,
    ));
    t.put_next(u);
    assert_eq!(t.pieces.len(), 2);
    assert_eq!(
        t.pieces[1],
        ParsingSyntaxTreePiece::Token(String::from("B"), TokenPattern::Any)
    );
}

#[test]
fn gen_snippet_renders_dsl_text() {
    let tree = generate_rule("{ Identifier[_] {Plus Identifier[_]}* Eof }").unwrap();
    assert_eq!(tree.gen_snippet(), "Identifier { Plus Identifier }* Eof");
    let choice = generate_rule("{ A | B[x] | f(y) }").unwrap();
    assert_eq!(choice.gen_snippet(), "{ A | B[x] | f(y) }");
}

#[test]
fn gen_snippet_round_trips_through_builder() {
    let tree = generate_rule("{ { A | B C }? f(x) E[v] }").unwrap();
    let rendered = format!("{{ {} }}", tree.gen_snippet());
    let again = generate_rule(&rendered).unwrap();
    assert_eq!(tree, again);
}

#[test]
fn piece_gen_snippet_shapes() {
    let p = ParsingSyntaxTreePiece::Token(String::from("A"), TokenPattern::Any);
    assert_eq!(p.gen_snippet(), "A");
    let q = ParsingSyntaxTreePiece::Token(
        String::from("A"),
        TokenPattern::Literal(String::from("v")),
    );
    assert_eq!(q.gen_snippet(), "A[v]");
    let l = ParsingSyntaxTreePiece::Layer(String::from("f"), String::from("a, b"));
    assert_eq!(l.gen_snippet(), "f(a, b)");
}

#[test]
fn error_codes_and_construction() {
    let missing = ParseError::new(ParseErrorType::MissingToken(vec![String::from("Eof")]));
    assert_eq!(missing.error_code(), 1);
    let agg = ParseError::new(ParseErrorType::OneOf(vec![missing]));
    assert_eq!(agg.error_code(), 2);
}

#[test]
fn error_rendering() {
    let one = ParseError::new(ParseErrorType::MissingToken(vec![String::from("Eof")]));
    assert_eq!(one.render(), "Token Eof missing.");
    let two = ParseError::new(ParseErrorType::MissingToken(vec![
        String::from("Integer"),
        String::from("Plus"),
    ]));
    assert_eq!(two.render(), "Token Integer or Plus missing.");
    let agg = ParseError::new(ParseErrorType::OneOf(vec![
        ParseError::new(ParseErrorType::MissingToken(vec![String::from("A")])),
        ParseError::new(ParseErrorType::MissingToken(vec![String::from("B")])),
    ]));
    assert_eq!(agg.render(), "One of: (Token A missing.) or (Token B missing.)");
}
