//! End-to-end scenarios: compiling grammar texts and running them against
//! concrete token streams.

use parshem::engine::{Grammar, MatchResult};
use parshem::error::{CompileError, ParseErrorType};
use parshem::tokens::{List, Position, Token};

fn pos() -> Position {
    Position { location: String::from("input"), line: 1, column: 1 }
}

fn tok(kind: &str, payload: Option<&str>) -> Token {
    Token {
        kind: String::from(kind),
        payload: payload.map(String::from),
        start: pos(),
        end: pos(),
    }
}

fn stream(toks: Vec<Token>) -> List {
    let mut list = List::new();
    for t in toks {
        list.push(t);
    }
    list
}

fn alphabet() -> Vec<String> {
    vec![
        String::from("Identifier"),
        String::from("Integer"),
        String::from("Plus"),
        String::from("Eof"),
    ]
}

const FUEL: u64 = 1000;

#[test]
fn scenario_sum_success() {
    let g = Grammar::compile("sum { Identifier[_] {Plus Identifier[_]}* Eof }", alphabet())
        .unwrap();
    let mut s = stream(vec![
        tok("Identifier", Some("a")),
        tok("Plus", None),
        tok("Identifier", Some("b")),
        tok("Eof", None),
    ]);
    let r = g.run("sum", &mut s, FUEL);
    assert_eq!(r, MatchResult::Matched);
    assert_eq!(s.index, 4);
}

#[test]
fn scenario_sum_missing_eof() {
    let g = Grammar::compile("sum { Identifier[_] {Plus Identifier[_]}* Eof }", alphabet())
        .unwrap();
    let mut s = stream(vec![
        tok("Identifier", Some("a")),
        tok("Plus", None),
        tok("Eof", None),
    ]);
    let r = g.run("sum", &mut s, FUEL);
    match r {
        MatchResult::Failed(e) => match e.error {
            ParseErrorType::MissingToken(descs) => {
                assert_eq!(descs, vec![String::from("Eof")]);
            },
            other => panic!("expected a missing-token error, got {:?}", other),
        },
        other => panic!("expected failure, got {:?}", other),
    }
    assert_eq!(s.index, 1);
}

#[test]
fn scenario_atom_second_alternative() {
    let g = Grammar::compile("atom { Integer[_] | Identifier[_] }", alphabet()).unwrap();
    let mut s = stream(vec![tok("Identifier", Some("x"))]);
    let r = g.run("atom", &mut s, FUEL);
    assert_eq!(r, MatchResult::Matched);
    assert_eq!(s.index, 1);
}

#[test]
fn scenario_unknown_rule() {
    let r = Grammar::compile("main { foo() }", alphabet());
    assert_eq!(r.unwrap_err(), CompileError::UnknownRule(String::from("foo")));
}

#[test]
fn scenario_unclosed_group() {
    let r = Grammar::compile("main { Identifier[_] ", alphabet());
    assert_eq!(r.unwrap_err(), CompileError::UnclosedGroup);
}

#[test]
fn determinism_repeated_runs() {
    let g = Grammar::compile("sum { Identifier[_] {Plus Identifier[_]}* Eof }", alphabet())
        .unwrap();
    let mut s = stream(vec![
        tok("Identifier", Some("a")),
        tok("Plus", None),
        tok("Eof", None),
    ]);
    let r1 = g.run("sum", &mut s, FUEL);
    let i1 = s.index;
    let r2 = g.run("sum", &mut s, FUEL);
    let i2 = s.index;
    assert_eq!(r1, r2);
    assert_eq!(i1, i2);
}

#[test]
fn ordered_choice_takes_first_alternative() {
    // Both alternatives can match, the second would consume more; only the
    // first is taken.
    let g = Grammar::compile("r { { Plus | Plus Identifier[_] } }", alphabet()).unwrap();
    let mut s = stream(vec![tok("Plus", None), tok("Identifier", Some("a"))]);
    let r = g.run("r", &mut s, FUEL);
    assert_eq!(r, MatchResult::Matched);
    assert_eq!(s.index, 1);
}

#[test]
fn zero_width_repetition_terminates() {
    // The repetition body can match zero-width (an optional that fails);
    // the loop must stop rather than spin.
    let g = Grammar::compile("r { {{Eof}?}* Identifier[_] }", alphabet()).unwrap();
    let mut s = stream(vec![tok("Identifier", Some("a"))]);
    let r = g.run("r", &mut s, FUEL);
    assert_eq!(r, MatchResult::Matched);
    assert_eq!(s.index, 1);
}

#[test]
fn optional_never_fails_and_consumes_only_on_match() {
    let g = Grammar::compile("r { {Identifier[_]}? Plus }", alphabet()).unwrap();
    let mut s1 = stream(vec![tok("Plus", None)]);
    assert_eq!(g.run("r", &mut s1, FUEL), MatchResult::Matched);
    assert_eq!(s1.index, 1);
    let mut s2 = stream(vec![tok("Identifier", Some("x")), tok("Plus", None)]);
    assert_eq!(g.run("r", &mut s2, FUEL), MatchResult::Matched);
    assert_eq!(s2.index, 2);
}

#[test]
fn round_trip_rendering_recompiles_structurally_equal() {
    let text = "sum { Identifier[_] {Plus Identifier[_]}* Eof } atom(x) { Integer[_] | sum() }";
    let g1 = Grammar::compile(text, alphabet()).unwrap();
    let mut rendered = String::new();
    for rule in &g1.rules {
        rendered.push_str(&rule.name);
        if !rule.params.is_empty() {
            rendered.push('(');
            rendered.push_str(&rule.params);
            rendered.push(')');
        }
        rendered.push_str(" { ");
        rendered.push_str(&rule.body.gen_snippet());
        rendered.push_str(" } ");
    }
    let g2 = Grammar::compile(&rendered, alphabet()).unwrap();
    assert_eq!(g1.rules, g2.rules);
    assert_eq!(g1.entry, g2.entry);
}

#[test]
fn one_of_failure_lists_every_branch() {
    let g = Grammar::compile("r { { Integer[_] | Plus } }", alphabet()).unwrap();
    let mut s = stream(vec![tok("Identifier", Some("x"))]);
    let r = g.run("r", &mut s, FUEL);
    match r {
        MatchResult::Failed(e) => {
            assert_eq!(e.error_code(), 2);
            match e.error {
                ParseErrorType::OneOf(branches) => {
                    assert_eq!(branches.len(), 2);
                    match &branches[0].error {
                        ParseErrorType::MissingToken(d) => {
                            assert_eq!(d, &vec![String::from("Integer")])
                        },
                        other => panic!("expected missing token, got {:?}", other),
                    }
                    match &branches[1].error {
                        ParseErrorType::MissingToken(d) => {
                            assert_eq!(d, &vec![String::from("Plus")])
                        },
                        other => panic!("expected missing token, got {:?}", other),
                    }
                },
                other => panic!("expected a choice error, got {:?}", other),
            }
        },
        other => panic!("expected failure, got {:?}", other),
    }
    assert_eq!(s.index, 0);
}

#[test]
fn recursion_budget_reports_exhausted() {
    let g = Grammar::compile("r { r() }", alphabet()).unwrap();
    let mut s = stream(vec![tok("Plus", None)]);
    assert_eq!(g.run("r", &mut s, 5), MatchResult::Exhausted);
}

#[test]
fn mutual_recursion_within_budget() {
    let g = Grammar::compile("expr { { Plus expr() | Eof } }", alphabet()).unwrap();
    let mut s = stream(vec![tok("Plus", None), tok("Plus", None), tok("Eof", None)]);
    assert_eq!(g.run("expr", &mut s, 100), MatchResult::Matched);
    assert_eq!(s.index, 3);
}

#[test]
fn payload_literal_matching() {
    let g = Grammar::compile("r { Identifier[abc] }", alphabet()).unwrap();
    let mut s1 = stream(vec![tok("Identifier", Some("abc"))]);
    assert_eq!(g.run("r", &mut s1, FUEL), MatchResult::Matched);
    let mut s2 = stream(vec![tok("Identifier", Some("xyz"))]);
    match g.run("r", &mut s2, FUEL) {
        MatchResult::Failed(e) => match e.error {
            ParseErrorType::MissingToken(d) => {
                assert_eq!(d, vec![String::from("Identifier[abc]")])
            },
            other => panic!("expected missing token, got {:?}", other),
        },
        other => panic!("expected failure, got {:?}", other),
    }
    let mut s3 = stream(vec![tok("Identifier", None)]);
    assert!(matches!(g.run("r", &mut s3, FUEL), MatchResult::Failed(_)));
}

#[test]
fn unknown_entry_rule_fails() {
    let g = Grammar::compile("r { Plus }", alphabet()).unwrap();
    let mut s = stream(vec![tok("Plus", None)]);
    match g.run("missing", &mut s, FUEL) {
        MatchResult::Failed(e) => match e.error {
            ParseErrorType::MissingToken(d) => assert!(d.is_empty()),
            other => panic!("expected missing token, got {:?}", other),
        },
        other => panic!("expected failure, got {:?}", other),
    }
}

#[test]
fn sequencing_commits_eagerly() {
    // A failed sequence leaves what it already consumed consumed.
    let g = Grammar::compile("r { Plus Integer[_] }", alphabet()).unwrap();
    let mut s = stream(vec![tok("Plus", None), tok("Eof", None)]);
    assert!(matches!(g.run("r", &mut s, FUEL), MatchResult::Failed(_)));
    assert_eq!(s.index, 1);
}

#[test]
fn one_or_more_requires_first_match() {
    let g = Grammar::compile("r { {Plus}+ Eof }", alphabet()).unwrap();
    let mut s1 = stream(vec![tok("Eof", None)]);
    assert!(matches!(g.run("r", &mut s1, FUEL), MatchResult::Failed(_)));
    assert_eq!(s1.index, 0);
    let mut s2 = stream(vec![tok("Plus", None), tok("Plus", None), tok("Eof", None)]);
    assert_eq!(g.run("r", &mut s2, FUEL), MatchResult::Matched);
    assert_eq!(s2.index, 3);
}

#[test]
fn quantifier_attaches_to_choice_group() {
    // A quantifier after a multi-alternative group wraps the whole choice.
    let g = Grammar::compile("r { { Plus | Integer[_] }* Eof }", alphabet()).unwrap();
    let mut s = stream(vec![
        tok("Plus", None),
        tok("Integer", Some("1")),
        tok("Plus", None),
        tok("Eof", None),
    ]);
    assert_eq!(g.run("r", &mut s, FUEL), MatchResult::Matched);
    assert_eq!(s.index, 4);
}

#[test]
fn empty_grammar_compiles() {
    let g = Grammar::compile("", alphabet()).unwrap();
    assert!(g.rules.is_empty());
    assert_eq!(g.entry, String::new());
}

#[test]
fn first_rule_is_entry_and_alphabet_is_kept() {
    let g = Grammar::compile("first { Plus } second { Eof }", alphabet()).unwrap();
    assert_eq!(g.entry, "first");
    assert_eq!(g.rules.len(), 2);
    assert_eq!(g.rules[1].name, "second");
    assert_eq!(g.alphabet, alphabet());
}
