//! The rule compiler and interpreter: a compiled grammar holds named
//! rules; running a rule evaluates its syntax tree against a token stream
//! with backtracking realised through cursor snapshots.
//!
//! Plain sequencing commits eagerly; only choice, repetition and
//! optionality are transactional. Because rules may call each other in
//! mutual recursion, every run carries an explicit recursion budget: each
//! nested rule call spends one unit, and a run whose budget runs out
//! reports `Exhausted` rather than failing to terminate.

use vstd::prelude::*;
use crate::error::{descs_view, errors_view, CompileError, CompileErrorView, ParseError,
    ParseErrorType, ParseErrorView};
use crate::builder::{generate_rule_tree_part, sp_parse_part};
use crate::lexer::{generate_rule_tokens, sp_lex_text, ParsingSyntaxToken, ParsingSyntaxTokenView};
use crate::syntax::{alts_view, piece_view, pieces_view, size_alts_from, size_piece,
    size_pieces_from, size_tree, ParsingSyntaxTree, ParsingSyntaxTreePiece, PieceView,
    TokenPattern};
use crate::tokens::{List, Token};

verus! {

/// A named grammar production: its name, the raw text of its declared
/// parameters, and its body.
#[derive(Debug, PartialEq, Eq)]
pub struct Rule {
    pub name: String,
    pub params: String,
    pub body: ParsingSyntaxTree,
}

/// A compiled grammar: an ordered list of rules, the designated entry-rule
/// name, and the declared token alphabet. Built once and read-only
/// thereafter.
#[derive(Debug, PartialEq, Eq)]
pub struct Grammar {
    pub rules: Vec<Rule>,
    pub entry: String,
    pub alphabet: Vec<String>,
}

/// The outcome of one matching attempt: success, a structured parse
/// failure, or an exhausted recursion budget.
#[derive(Debug, PartialEq, Eq)]
pub enum MatchResult {
    Matched,
    Failed(ParseError),
    Exhausted,
}

/// The mathematical value of a [`MatchResult`].
pub enum MatchResultView {
    Matched,
    Failed(ParseErrorView),
    Exhausted,
}

impl View for MatchResult {
    type V = MatchResultView;

    open spec fn view(&self) -> MatchResultView {
        match self {
            MatchResult::Matched => MatchResultView::Matched,
            MatchResult::Failed(e) => MatchResultView::Failed(e@),
            MatchResult::Exhausted => MatchResultView::Exhausted,
        }
    }
}

/// The outcome of trying an ordered choice's alternatives: success, the
/// per-alternative errors of an all-failed choice, or an exhausted budget.
pub enum AltsView {
    Matched,
    Failed(Seq<ParseErrorView>),
    Exhausted,
}

/// The exec counterpart of [`AltsView`].
enum AltsResult {
    Matched,
    Failed(Vec<ParseError>),
    Exhausted,
}

spec fn alts_result_view(r: AltsResult) -> AltsView {
    match r {
        AltsResult::Matched => AltsView::Matched,
        AltsResult::Failed(v) => AltsView::Failed(errors_view(v@)),
        AltsResult::Exhausted => AltsView::Exhausted,
    }
}

/// How many tokens stand at or after position `pos`.
pub open spec fn tok_remaining(toks: Seq<Token>, pos: int) -> int {
    if 0 <= pos <= toks.len() {
        toks.len() - pos
    } else {
        0
    }
}

/// The index of the first rule from `i` on whose name is `name`.
pub open spec fn sp_find_rule(rules: Seq<Rule>, i: int, name: Seq<char>) -> Option<int>
    decreases rules.len() - i,
{
    if !(0 <= i < rules.len()) {
        None
    } else if rules[i].name@ == name {
        Some(i)
    } else {
        sp_find_rule(rules, i + 1, name)
    }
}

/// Whether the token at `pos` satisfies a terminal match: it exists, its
/// kind is `kind`, and its payload equals the pattern's literal unless the
/// pattern is the wildcard.
pub open spec fn sp_token_matches(toks: Seq<Token>, pos: int, kind: Seq<char>, pat: TokenPattern)
    -> bool {
    &&& 0 <= pos < toks.len()
    &&& toks[pos].kind@ == kind
    &&& match pat {
        TokenPattern::Any => true,
        TokenPattern::Literal(l) => toks[pos].payload matches Some(p) && p@ == l@,
    }
}

/// The description of an expected terminal, as reported in errors.
pub open spec fn sp_expected_desc(kind: Seq<char>, pat: TokenPattern) -> Seq<char> {
    match pat {
        TokenPattern::Any => kind,
        TokenPattern::Literal(l) => kind + "["@ + l@ + "]"@,
    }
}

/// Evaluates the pieces of a sequence from index `i`, left to right,
/// stopping at the first failure and propagating it with no rollback.
/// Yields the outcome and the final cursor position.
pub open spec fn sp_eval_seq(
    g: Grammar,
    pieces: Seq<ParsingSyntaxTreePiece>,
    i: int,
    toks: Seq<Token>,
    pos: int,
    fuel: nat,
) -> (MatchResultView, int)
    decreases fuel, size_pieces_from(pieces, i), tok_remaining(toks, pos), 0int,
{
    if !(0 <= i < pieces.len()) {
        (MatchResultView::Matched, pos)
    } else {
        let r = sp_eval_piece(g, pieces[i], toks, pos, fuel);
        match r.0 {
            MatchResultView::Matched => sp_eval_seq(g, pieces, i + 1, toks, r.1, fuel),
            _ => r,
        }
    }
}

/// Evaluates a whole tree: its pieces in sequence from the start.
pub open spec fn sp_eval_tree(
    g: Grammar,
    t: ParsingSyntaxTree,
    toks: Seq<Token>,
    pos: int,
    fuel: nat,
) -> (MatchResultView, int)
    decreases fuel, size_tree(t), tok_remaining(toks, pos), 0int,
{
    sp_eval_seq(g, t.pieces@, 0, toks, pos, fuel)
}

/// Evaluates one piece at `pos`. A terminal consumes one matching token or
/// fails in place; a rule call resolves its callee and evaluates it on one
/// unit less of budget; choice, repetition and optionality snapshot and
/// restore the cursor as the combinator semantics say.
pub open spec fn sp_eval_piece(
    g: Grammar,
    piece: ParsingSyntaxTreePiece,
    toks: Seq<Token>,
    pos: int,
    fuel: nat,
) -> (MatchResultView, int)
    decreases fuel, size_piece(piece), tok_remaining(toks, pos), 0int,
{
    match piece {
        ParsingSyntaxTreePiece::Token(name, pat) => {
            if sp_token_matches(toks, pos, name@, pat) {
                (MatchResultView::Matched, pos + 1)
            } else {
                (
                    MatchResultView::Failed(
                        ParseErrorView::MissingToken(seq![sp_expected_desc(name@, pat)]),
                    ),
                    pos,
                )
            }
        },
        ParsingSyntaxTreePiece::Layer(name, _args) => {
            if fuel == 0 {
                (MatchResultView::Exhausted, pos)
            } else {
                match sp_find_rule(g.rules@, 0, name@) {
                    None => (
                        MatchResultView::Failed(ParseErrorView::MissingToken(Seq::empty())),
                        pos,
                    ),
                    Some(ri) => sp_eval_tree(g, g.rules@[ri].body, toks, pos, (fuel - 1) as nat),
                }
            }
        },
        ParsingSyntaxTreePiece::OneOf(alts) => {
            let r = sp_eval_alts(g, alts@, 0, toks, pos, fuel);
            match r.0 {
                AltsView::Matched => (MatchResultView::Matched, r.1),
                AltsView::Failed(es) => (MatchResultView::Failed(ParseErrorView::OneOf(es)), r.1),
                AltsView::Exhausted => (MatchResultView::Exhausted, r.1),
            }
        },
        ParsingSyntaxTreePiece::ZeroOrMore(t) => sp_eval_star(g, t, toks, pos, fuel),
        ParsingSyntaxTreePiece::OneOrMore(t) => {
            let r = sp_eval_tree(g, t, toks, pos, fuel);
            match r.0 {
                MatchResultView::Matched => if 0 <= pos < r.1 <= toks.len() {
                    sp_eval_star(g, t, toks, r.1, fuel)
                } else {
                    (MatchResultView::Matched, r.1)
                },
                MatchResultView::Failed(e) => (MatchResultView::Failed(e), pos),
                MatchResultView::Exhausted => (MatchResultView::Exhausted, pos),
            }
        },
        ParsingSyntaxTreePiece::Optional(t) => {
            let r = sp_eval_tree(g, t, toks, pos, fuel);
            match r.0 {
                MatchResultView::Matched => (MatchResultView::Matched, r.1),
                MatchResultView::Failed(_) => (MatchResultView::Matched, pos),
                MatchResultView::Exhausted => (MatchResultView::Exhausted, pos),
            }
        },
    }
}

/// Tries the alternatives of an ordered choice from index `i`, each from
/// the same position: the first full success wins; a failed alternative is
/// rolled back and its error recorded, in declared order.
pub open spec fn sp_eval_alts(
    g: Grammar,
    alts: Seq<ParsingSyntaxTree>,
    i: int,
    toks: Seq<Token>,
    pos: int,
    fuel: nat,
) -> (AltsView, int)
    decreases fuel, size_alts_from(alts, i), tok_remaining(toks, pos), 0int,
{
    if !(0 <= i < alts.len()) {
        (AltsView::Failed(Seq::empty()), pos)
    } else {
        let r = sp_eval_tree(g, alts[i], toks, pos, fuel);
        match r.0 {
            MatchResultView::Matched => (AltsView::Matched, r.1),
            MatchResultView::Exhausted => (AltsView::Exhausted, pos),
            MatchResultView::Failed(e) => {
                let rest = sp_eval_alts(g, alts, i + 1, toks, pos, fuel);
                match rest.0 {
                    AltsView::Failed(es) => (AltsView::Failed(es.insert(0, e)), pos),
                    _ => rest,
                }
            },
        }
    }
}

/// The repetition loop shared by `ZeroOrMore` and the committed part of
/// `OneOrMore`: attempt the body, commit and continue on a consuming
/// success, stop on failure (rolled back) or on a zero-width success, so
/// the loop terminates whatever the body matches.
pub open spec fn sp_eval_star(
    g: Grammar,
    t: ParsingSyntaxTree,
    toks: Seq<Token>,
    pos: int,
    fuel: nat,
) -> (MatchResultView, int)
    decreases fuel, size_tree(t), tok_remaining(toks, pos), 1int,
{
    let r = sp_eval_tree(g, t, toks, pos, fuel);
    match r.0 {
        MatchResultView::Failed(_) => (MatchResultView::Matched, pos),
        MatchResultView::Exhausted => (MatchResultView::Exhausted, pos),
        MatchResultView::Matched => if 0 <= pos < r.1 <= toks.len() {
            sp_eval_star(g, t, toks, r.1, fuel)
        } else {
            (MatchResultView::Matched, r.1)
        },
    }
}

/// A top-level invocation: the cursor is reset to the start, the entry
/// rule resolved by name and evaluated once. An entry name the grammar
/// does not define fails with an empty expectation list.
pub open spec fn sp_run(g: Grammar, entry: Seq<char>, toks: Seq<Token>, fuel: nat) -> (
    MatchResultView,
    int,
) {
    match sp_find_rule(g.rules@, 0, entry) {
        None => (MatchResultView::Failed(ParseErrorView::MissingToken(Seq::empty())), 0),
        Some(ri) => sp_eval_tree(g, g.rules@[ri].body, toks, 0, fuel),
    }
}

/// Finds the first rule from `i` on with the given name.
fn find_rule_from(rules: &Vec<Rule>, i: usize, name: &String) -> (r: Option<usize>)
    ensures
        match sp_find_rule(rules@, i as int, name@) {
            Some(j) => (r matches Some(u) && u as int == j && j < rules@.len()),
            None => r is None,
        },
    decreases rules@.len() - i,
{
    if i >= rules.len() {
        None
    } else if rules[i].name == *name {
        Some(i)
    } else {
        find_rule_from(rules, i + 1, name)
    }
}

/// Whether the current token satisfies a terminal match.
fn token_matches(toks: &List, kind: &String, pat: &TokenPattern) -> (b: bool)
    ensures
        b == sp_token_matches(toks.tokens@, toks.index as int, kind@, *pat),
{
    match toks.get() {
        None => false,
        Some(t) => {
            if t.kind == *kind {
                match pat {
                    TokenPattern::Any => true,
                    TokenPattern::Literal(l) => {
                        match &t.payload {
                            Some(p) => *p == *l,
                            None => false,
                        }
                    },
                }
            } else {
                false
            }
        },
    }
}

/// Builds the description of an expected terminal.
fn expected_desc(kind: &String, pat: &TokenPattern) -> (d: String)
    ensures
        d@ == sp_expected_desc(kind@, *pat),
{
    match pat {
        TokenPattern::Any => kind.clone(),
        TokenPattern::Literal(l) => {
            let mut s = kind.clone();
            s.append("[");
            s.append(l.as_str());
            s.append("]");
            proof {
                assert(s@ =~= sp_expected_desc(kind@, *pat));
            }
            s
        },
    }
}

/// The error of a terminal that did not match.
fn missing_token_error(kind: &String, pat: &TokenPattern) -> (e: ParseError)
    ensures
        e@ == ParseErrorView::MissingToken(seq![sp_expected_desc(kind@, *pat)]),
{
    let d = expected_desc(kind, pat);
    let ghost dv = d@;
    let mut v: Vec<String> = Vec::new();
    v.push(d);
    proof {
        assert(descs_view(v@) =~= seq![dv]);
    }
    ParseError::new(ParseErrorType::MissingToken(v))
}

/// Evaluates the pieces of a sequence from index `i`, as the evaluation
/// specification says.
fn m_seq(g: &Grammar, pieces: &Vec<ParsingSyntaxTreePiece>, i: usize, toks: &mut List, fuel: u64)
    -> (r: MatchResult)
    requires
        old(toks).index <= old(toks).tokens@.len(),
    ensures
        ({
            let res = sp_eval_seq(*g, pieces@, i as int, old(toks).tokens@, old(toks).index as int,
                fuel as nat);
            &&& r@ == res.0
            &&& final(toks).index as int == res.1
            &&& final(toks).tokens@ == old(toks).tokens@
            &&& final(toks).index <= final(toks).tokens@.len()
        }),
    decreases fuel, size_pieces_from(pieces@, i as int), tok_remaining(toks.tokens@, toks.index as int), 0int,
{
    if i >= pieces.len() {
        return MatchResult::Matched;
    }
    let p = &pieces[i];
    proof {
        assert(*p == pieces@[i as int]);
    }
    let r1 = m_piece(g, p, toks, fuel);
    match r1 {
        MatchResult::Matched => m_seq(g, pieces, i + 1, toks, fuel),
        _ => r1,
    }
}

/// Evaluates a whole tree from its first piece.
fn m_tree(g: &Grammar, t: &ParsingSyntaxTree, toks: &mut List, fuel: u64) -> (r: MatchResult)
    requires
        old(toks).index <= old(toks).tokens@.len(),
    ensures
        ({
            let res = sp_eval_tree(*g, *t, old(toks).tokens@, old(toks).index as int, fuel as nat);
            &&& r@ == res.0
            &&& final(toks).index as int == res.1
            &&& final(toks).tokens@ == old(toks).tokens@
            &&& final(toks).index <= final(toks).tokens@.len()
        }),
    decreases fuel, size_tree(*t), tok_remaining(toks.tokens@, toks.index as int), 0int,
{
    m_seq(g, &t.pieces, 0, toks, fuel)
}

/// Evaluates one piece, as the evaluation specification says.
fn m_piece(g: &Grammar, piece: &ParsingSyntaxTreePiece, toks: &mut List, fuel: u64) -> (r:
    MatchResult)
    requires
        old(toks).index <= old(toks).tokens@.len(),
    ensures
        ({
            let res = sp_eval_piece(*g, *piece, old(toks).tokens@, old(toks).index as int,
                fuel as nat);
            &&& r@ == res.0
            &&& final(toks).index as int == res.1
            &&& final(toks).tokens@ == old(toks).tokens@
            &&& final(toks).index <= final(toks).tokens@.len()
        }),
    decreases fuel, size_piece(*piece), tok_remaining(toks.tokens@, toks.index as int), 0int,
{
    match piece {
        ParsingSyntaxTreePiece::Token(name, pat) => {
            if token_matches(toks, name, pat) {
                let _ = toks.next();
                MatchResult::Matched
            } else {
                MatchResult::Failed(missing_token_error(name, pat))
            }
        },
        ParsingSyntaxTreePiece::Layer(name, _args) => {
            if fuel == 0 {
                MatchResult::Exhausted
            } else {
                match find_rule_from(&g.rules, 0, name) {
                    None => {
                        let v: Vec<String> = Vec::new();
                        proof {
                            assert(descs_view(v@) =~= Seq::<Seq<char>>::empty());
                        }
                        MatchResult::Failed(ParseError::new(ParseErrorType::MissingToken(v)))
                    },
                    Some(ri) => {
                        let body = &g.rules[ri].body;
                        proof {
                            assert(g.rules@[ri as int].body == *body);
                        }
                        m_tree(g, body, toks, fuel - 1)
                    },
                }
            }
        },
        ParsingSyntaxTreePiece::OneOf(alts) => {
            let r = m_alts(g, alts, 0, toks, fuel);
            match r {
                AltsResult::Matched => MatchResult::Matched,
                AltsResult::Failed(es) => MatchResult::Failed(
                    ParseError::new(ParseErrorType::OneOf(es)),
                ),
                AltsResult::Exhausted => MatchResult::Exhausted,
            }
        },
        ParsingSyntaxTreePiece::ZeroOrMore(t) => m_star(g, t, toks, fuel),
        ParsingSyntaxTreePiece::OneOrMore(t) => {
            let start = toks.index;
            let snap = toks.snapshot();
            let r1 = m_tree(g, t, toks, fuel);
            match r1 {
                MatchResult::Failed(e) => {
                    snap.restore(toks);
                    MatchResult::Failed(e)
                },
                MatchResult::Exhausted => {
                    snap.restore(toks);
                    MatchResult::Exhausted
                },
                MatchResult::Matched => {
                    if toks.index > start {
                        m_star(g, t, toks, fuel)
                    } else {
                        MatchResult::Matched
                    }
                },
            }
        },
        ParsingSyntaxTreePiece::Optional(t) => {
            let snap = toks.snapshot();
            let r1 = m_tree(g, t, toks, fuel);
            match r1 {
                MatchResult::Matched => MatchResult::Matched,
                MatchResult::Failed(_) => {
                    snap.restore(toks);
                    MatchResult::Matched
                },
                MatchResult::Exhausted => {
                    snap.restore(toks);
                    MatchResult::Exhausted
                },
            }
        },
    }
}

/// Tries an ordered choice's alternatives from index `i`, restoring the
/// cursor after each failed attempt and collecting the branch errors in
/// declared order.
fn m_alts(g: &Grammar, alts: &Vec<ParsingSyntaxTree>, i: usize, toks: &mut List, fuel: u64) -> (r:
    AltsResult)
    requires
        old(toks).index <= old(toks).tokens@.len(),
    ensures
        ({
            let res = sp_eval_alts(*g, alts@, i as int, old(toks).tokens@, old(toks).index as int,
                fuel as nat);
            &&& alts_result_view(r) == res.0
            &&& final(toks).index as int == res.1
            &&& final(toks).tokens@ == old(toks).tokens@
            &&& final(toks).index <= final(toks).tokens@.len()
        }),
    decreases fuel, size_alts_from(alts@, i as int), tok_remaining(toks.tokens@, toks.index as int), 0int,
{
    if i >= alts.len() {
        let v: Vec<ParseError> = Vec::new();
        proof {
            assert(errors_view(v@) =~= Seq::<ParseErrorView>::empty());
        }
        return AltsResult::Failed(v);
    }
    let tree = &alts[i];
    proof {
        assert(*tree == alts@[i as int]);
        assert(size_tree(alts@[i as int]) < size_alts_from(alts@, i as int));
    }
    let snap = toks.snapshot();
    let r1 = m_tree(g, tree, toks, fuel);
    match r1 {
        MatchResult::Matched => AltsResult::Matched,
        MatchResult::Exhausted => {
            snap.restore(toks);
            AltsResult::Exhausted
        },
        MatchResult::Failed(e) => {
            snap.restore(toks);
            let rest = m_alts(g, alts, i + 1, toks, fuel);
            match rest {
                AltsResult::Failed(es) => {
                    let ghost ev = e@;
                    let ghost esv = errors_view(es@);
                    let mut es2 = es;
                    es2.insert(0, e);
                    proof {
                        assert(errors_view(es2@) =~= esv.insert(0, ev));
                    }
                    AltsResult::Failed(es2)
                },
                _ => rest,
            }
        },
    }
}

/// The repetition loop: attempts the body, commits a consuming success and
/// tries again, and stops on failure or a zero-width success.
fn m_star(g: &Grammar, t: &ParsingSyntaxTree, toks: &mut List, fuel: u64) -> (r: MatchResult)
    requires
        old(toks).index <= old(toks).tokens@.len(),
    ensures
        ({
            let res = sp_eval_star(*g, *t, old(toks).tokens@, old(toks).index as int, fuel as nat);
            &&& r@ == res.0
            &&& final(toks).index as int == res.1
            &&& final(toks).tokens@ == old(toks).tokens@
            &&& final(toks).index <= final(toks).tokens@.len()
        }),
    decreases fuel, size_tree(*t), tok_remaining(toks.tokens@, toks.index as int), 1int,
{
    let start = toks.index;
    let snap = toks.snapshot();
    let r1 = m_tree(g, t, toks, fuel);
    match r1 {
        MatchResult::Failed(_) => {
            snap.restore(toks);
            MatchResult::Matched
        },
        MatchResult::Exhausted => {
            snap.restore(toks);
            MatchResult::Exhausted
        },
        MatchResult::Matched => {
            if toks.index > start {
                m_star(g, t, toks, fuel)
            } else {
                MatchResult::Matched
            }
        },
    }
}

impl Grammar {
    /// Resets the stream's cursor and runs the named entry rule once
    /// against it, with the given recursion budget for nested rule calls.
    /// Success does not imply full consumption of the stream: a grammar
    /// that wants that matches an explicit end-of-stream token kind last.
    pub fn run(&self, entry: &str, tokens: &mut List, fuel: u64) -> (r: MatchResult)
        ensures
            ({
                let res = sp_run(*self, entry@, old(tokens).tokens@, fuel as nat);
                &&& r@ == res.0
                &&& final(tokens).index as int == res.1
                &&& final(tokens).tokens@ == old(tokens).tokens@
            }),
    {
        tokens.reset();
        let entry_name = String::from_str(entry);
        match find_rule_from(&self.rules, 0, &entry_name) {
            None => {
                let v: Vec<String> = Vec::new();
                proof {
                    assert(descs_view(v@) =~= Seq::<Seq<char>>::empty());
                }
                MatchResult::Failed(ParseError::new(ParseErrorType::MissingToken(v)))
            },
            Some(ri) => {
                let body = &self.rules[ri].body;
                proof {
                    assert(self.rules@[ri as int].body == *body);
                }
                m_tree(self, body, tokens, fuel)
            },
        }
    }
}


/// The mathematical value of a [`Rule`].
pub struct RuleView {
    pub name: Seq<char>,
    pub params: Seq<char>,
    pub body: Seq<PieceView>,
}

/// The value of one rule.
pub open spec fn rule_view(r: Rule) -> RuleView {
    RuleView { name: r.name@, params: r.params@, body: pieces_view(r.body.pieces@) }
}

/// The values of a list of rules, elementwise.
pub open spec fn rules_view(s: Seq<Rule>) -> Seq<RuleView> {
    Seq::new(
        s.len(),
        |i: int|
            if 0 <= i < s.len() {
                rule_view(s[i])
            } else {
                RuleView { name: Seq::empty(), params: Seq::empty(), body: Seq::empty() }
            },
    )
}

/// The parse of the rule definitions from meta-token `i` on, appended
/// after those in `acc`. A definition is an identifier, an optional
/// parenthesised parameter list, and a braced group as the rule's body.
pub open spec fn sp_parse_defs(
    toks: Seq<ParsingSyntaxTokenView>,
    i: int,
    acc: Seq<RuleView>,
) -> Result<Seq<RuleView>, CompileErrorView>
    decreases toks.len() - i,
{
    if !(0 <= i < toks.len()) {
        Ok(acc)
    } else {
        match toks[i] {
            ParsingSyntaxTokenView::Identifier(name) => {
                let has_params = i + 1 < toks.len() && toks[i + 1] is LayerArgs;
                let params = if has_params {
                    toks[i + 1]->LayerArgs_0
                } else {
                    Seq::empty()
                };
                let bp = if has_params {
                    i + 2
                } else {
                    i + 1
                };
                if bp < toks.len() && toks[bp] is LBrace {
                    match sp_parse_part(toks, bp) {
                        Err(e) => Err(e),
                        Ok((t, j)) => {
                            let k = if bp < j <= toks.len() {
                                j
                            } else {
                                toks.len() as int
                            };
                            sp_parse_defs(toks, k, acc.push(RuleView { name, params, body: t }))
                        },
                    }
                } else {
                    Err(CompileErrorView::UnexpectedToken)
                }
            },
            _ => Err(CompileErrorView::UnexpectedToken),
        }
    }
}

/// The declared rule names, in order.
pub open spec fn sp_rule_names(rules: Seq<RuleView>) -> Seq<Seq<char>> {
    Seq::new(
        rules.len(),
        |i: int|
            if 0 <= i < rules.len() {
                rules[i].name
            } else {
                Seq::empty()
            },
    )
}

/// The first rule-call name from piece `i` on that `names` does not
/// declare, walking the tree in order.
pub open spec fn sp_unknown_pieces(pieces: Seq<PieceView>, i: int, names: Seq<Seq<char>>) ->
    Option<Seq<char>>
    decreases pieces, pieces.len() - i, 0int,
{
    if !(0 <= i < pieces.len()) {
        None
    } else {
        let h = match pieces[i] {
            PieceView::Token(_, _) => None,
            PieceView::Layer(n, _) => if names.contains(n) {
                None
            } else {
                Some(n)
            },
            PieceView::ZeroOrMore(b) => sp_unknown_pieces(b, 0, names),
            PieceView::OneOrMore(b) => sp_unknown_pieces(b, 0, names),
            PieceView::Optional(b) => sp_unknown_pieces(b, 0, names),
            PieceView::OneOf(alts) => sp_unknown_alts(alts, 0, names),
        };
        match h {
            Some(nm) => Some(nm),
            None => sp_unknown_pieces(pieces, i + 1, names),
        }
    }
}

/// The first undeclared rule-call name in the alternatives from `i` on.
pub open spec fn sp_unknown_alts(alts: Seq<Seq<PieceView>>, i: int, names: Seq<Seq<char>>) ->
    Option<Seq<char>>
    decreases alts, alts.len() - i, 1int,
{
    if !(0 <= i < alts.len()) {
        None
    } else {
        match sp_unknown_pieces(alts[i], 0, names) {
            Some(nm) => Some(nm),
            None => sp_unknown_alts(alts, i + 1, names),
        }
    }
}

/// The first undeclared rule-call name in the rules from `i` on.
pub open spec fn sp_unknown_rules(rules: Seq<RuleView>, i: int, names: Seq<Seq<char>>) -> Option<
    Seq<char>,
>
    decreases rules.len() - i,
{
    if !(0 <= i < rules.len()) {
        None
    } else {
        match sp_unknown_pieces(rules[i].body, 0, names) {
            Some(nm) => Some(nm),
            None => sp_unknown_rules(rules, i + 1, names),
        }
    }
}

/// The compilation of a grammar text: lex, parse the rule definitions,
/// and reject the first rule call whose name no definition declares. The
/// first rule is the designated entry rule.
pub open spec fn sp_compile(s: Seq<char>) -> Result<(Seq<RuleView>, Seq<char>), CompileErrorView> {
    match sp_lex_text(s) {
        Err(e) => Err(e),
        Ok(toks) => match sp_parse_defs(toks, 0, Seq::empty()) {
            Err(e) => Err(e),
            Ok(rules) => match sp_unknown_rules(rules, 0, sp_rule_names(rules)) {
                Some(nm) => Err(CompileErrorView::UnknownRule(nm)),
                None => Ok(
                    (
                        rules,
                        if rules.len() > 0 {
                            rules[0].name
                        } else {
                            Seq::empty()
                        },
                    ),
                ),
            },
        },
    }
}

/// Parses the rule definitions from the cursor on, appending to `rules`.
fn parse_defs(tokens: &Vec<ParsingSyntaxToken>, index: &mut usize, rules: &mut Vec<Rule>) -> (r:
    Result<(), CompileError>)
    ensures
        match sp_parse_defs(tokens.deep_view(), *old(index) as int, rules_view(old(rules)@)) {
            Ok(rs) => (r matches Ok(_) && rules_view(final(rules)@) == rs),
            Err(e) => (r matches Err(err) && err@ == e),
        },
    decreases tokens@.len() - *index,
{
    let n = tokens.len();
    if *index >= n {
        return Ok(());
    }
    let ghost i0 = *index as int;
    let ghost rv0 = rules_view(rules@);
    proof {
        assert(tokens.deep_view()[i0] == tokens@[i0]@);
    }
    match &tokens[*index] {
        ParsingSyntaxToken::Identifier(name) => {
            let name_c = name.clone();
            *index = *index + 1;
            let mut params = String::new();
            if *index < n {
                proof {
                    assert(tokens.deep_view()[i0 + 1] == tokens@[i0 + 1]@);
                }
                let has_params = match &tokens[*index] {
                    ParsingSyntaxToken::LayerArgs(_) => true,
                    _ => false,
                };
                if has_params {
                    match &tokens[*index] {
                        ParsingSyntaxToken::LayerArgs(a) => {
                            params = a.clone();
                        },
                        _ => {},
                    }
                    *index = *index + 1;
                }
            }
            let is_lbrace = if *index < n {
                proof {
                    assert(tokens.deep_view()[*index as int] == tokens@[*index as int]@);
                }
                match &tokens[*index] {
                    ParsingSyntaxToken::LBrace => true,
                    _ => false,
                }
            } else {
                false
            };
            if !is_lbrace {
                return Err(CompileError::UnexpectedToken);
            }
            match generate_rule_tree_part(tokens, index) {
                Err(e) => Err(e),
                Ok(t) => {
                    let ghost tv = t@;
                    let ghost namev = name_c@;
                    let ghost paramsv = params@;
                    rules.push(Rule { name: name_c, params, body: t });
                    proof {
                        assert(rules_view(rules@) =~= rv0.push(
                            RuleView { name: namev, params: paramsv, body: tv },
                        ));
                    }
                    parse_defs(tokens, index, rules)
                },
            }
        },
        _ => Err(CompileError::UnexpectedToken),
    }
}

/// Whether a name stands among the declared rule names.
fn contains_name(names: &Vec<String>, n: &String) -> (b: bool)
    ensures
        b == names.deep_view().contains(n@),
{
    let mut i: usize = 0;
    while i < names.len()
        invariant
            i <= names@.len(),
            forall|j: int| 0 <= j < i ==> names.deep_view()[j] != n@,
        decreases names@.len() - i,
    {
        if names[i] == *n {
            proof {
                assert(names.deep_view()[i as int] == n@);
            }
            return true;
        }
        i = i + 1;
    }
    proof {
        assert(!names.deep_view().contains(n@));
    }
    false
}

/// Walks the pieces from `i` on for the first undeclared rule call.
fn unknown_in_pieces(pieces: &Vec<ParsingSyntaxTreePiece>, i: usize, names: &Vec<String>) -> (r:
    Option<String>)
    ensures
        match sp_unknown_pieces(pieces_view(pieces@), i as int, names.deep_view()) {
            Some(nm) => (r matches Some(s) && s@ == nm),
            None => r is None,
        },
    decreases size_pieces_from(pieces@, i as int), 0int,
{
    if i >= pieces.len() {
        return None;
    }
    let p = &pieces[i];
    proof {
        assert(*p == pieces@[i as int]);
        assert(pieces_view(pieces@)[i as int] == piece_view(pieces@[i as int]));
    }
    let h: Option<String> = match p {
        ParsingSyntaxTreePiece::Token(_, _) => None,
        ParsingSyntaxTreePiece::Layer(nm, _) => {
            if contains_name(names, nm) {
                None
            } else {
                Some(nm.clone())
            }
        },
        ParsingSyntaxTreePiece::ZeroOrMore(t) => {
            proof {
                reveal_with_fuel(size_pieces_from, 3);
                assert(size_pieces_from(t.pieces@, 0) < size_pieces_from(pieces@, i as int));
            }
            unknown_in_pieces(&t.pieces, 0, names)
        },
        ParsingSyntaxTreePiece::OneOrMore(t) => {
            proof {
                reveal_with_fuel(size_pieces_from, 3);
                assert(size_pieces_from(t.pieces@, 0) < size_pieces_from(pieces@, i as int));
            }
            unknown_in_pieces(&t.pieces, 0, names)
        },
        ParsingSyntaxTreePiece::Optional(t) => {
            proof {
                reveal_with_fuel(size_pieces_from, 3);
                assert(size_pieces_from(t.pieces@, 0) < size_pieces_from(pieces@, i as int));
            }
            unknown_in_pieces(&t.pieces, 0, names)
        },
        ParsingSyntaxTreePiece::OneOf(alts) => {
            proof {
                reveal_with_fuel(size_pieces_from, 2);
                assert(size_alts_from(alts@, 0) < size_pieces_from(pieces@, i as int));
            }
            unknown_in_alts(alts, 0, names)
        },
    };
    match h {
        Some(nm) => Some(nm),
        None => unknown_in_pieces(pieces, i + 1, names),
    }
}

/// Walks the alternatives from `i` on for the first undeclared rule call.
fn unknown_in_alts(alts: &Vec<ParsingSyntaxTree>, i: usize, names: &Vec<String>) -> (r: Option<
    String,
>)
    ensures
        match sp_unknown_alts(alts_view(alts@), i as int, names.deep_view()) {
            Some(nm) => (r matches Some(s) && s@ == nm),
            None => r is None,
        },
    decreases size_alts_from(alts@, i as int), 0int,
{
    if i >= alts.len() {
        return None;
    }
    let tree = &alts[i];
    proof {
        reveal_with_fuel(size_alts_from, 3);
        assert(*tree == alts@[i as int]);
        assert(size_pieces_from(tree.pieces@, 0) < size_alts_from(alts@, i as int));
        assert(alts_view(alts@)[i as int] == pieces_view(alts@[i as int].pieces@));
    }
    match unknown_in_pieces(&tree.pieces, 0, names) {
        Some(nm) => Some(nm),
        None => unknown_in_alts(alts, i + 1, names),
    }
}

/// Walks the rules from `i` on for the first undeclared rule call.
fn unknown_in_rules(rules: &Vec<Rule>, i: usize, names: &Vec<String>) -> (r: Option<String>)
    ensures
        match sp_unknown_rules(rules_view(rules@), i as int, names.deep_view()) {
            Some(nm) => (r matches Some(s) && s@ == nm),
            None => r is None,
        },
    decreases rules@.len() - i,
{
    if i >= rules.len() {
        return None;
    }
    let rule = &rules[i];
    proof {
        assert(*rule == rules@[i as int]);
        assert(rules_view(rules@)[i as int] == rule_view(rules@[i as int]));
    }
    match unknown_in_pieces(&rule.body.pieces, 0, names) {
        Some(nm) => Some(nm),
        None => unknown_in_rules(rules, i + 1, names),
    }
}

/// Collects the declared rule names, in order.
fn rule_names_of(rules: &Vec<Rule>) -> (names: Vec<String>)
    ensures
        names.deep_view() == sp_rule_names(rules_view(rules@)),
{
    let mut names: Vec<String> = Vec::new();
    let mut i: usize = 0;
    proof {
        assert(names.deep_view() =~= sp_rule_names(rules_view(rules@)).subrange(0, 0));
    }
    while i < rules.len()
        invariant
            i <= rules@.len(),
            names.deep_view() =~= sp_rule_names(rules_view(rules@)).subrange(0, i as int),
        decreases rules@.len() - i,
    {
        let ghost dv0 = names.deep_view();
        names.push(rules[i].name.clone());
        proof {
            assert(names.deep_view() =~= dv0.push(rules@[i as int].name@));
            assert(names.deep_view() =~= sp_rule_names(rules_view(rules@)).subrange(
                0,
                i + 1 as int,
            ));
        }
        i = i + 1;
    }
    proof {
        assert(sp_rule_names(rules_view(rules@)).subrange(0, rules@.len() as int)
            =~= sp_rule_names(rules_view(rules@)));
    }
    names
}

impl Grammar {
    /// Compiles DSL grammar text against a declared token alphabet: lexes
    /// it, parses its rule definitions, and rejects the first rule call
    /// whose name no definition declares. The first rule becomes the
    /// designated entry rule.
    pub fn compile(text: &str, alphabet: Vec<String>) -> (r: Result<Grammar, CompileError>)
        ensures
            match sp_compile(text@) {
                Ok(res) => {
                    &&& r matches Ok(g)
                    &&& rules_view(g.rules@) == res.0
                    &&& g.entry@ == res.1
                    &&& g.alphabet == alphabet
                },
                Err(e) => (r matches Err(err) && err@ == e),
            },
    {
        match generate_rule_tokens(text) {
            Err(e) => Err(e),
            Ok(toks) => {
                let mut rules: Vec<Rule> = Vec::new();
                let mut index: usize = 0;
                proof {
                    assert(rules_view(rules@) =~= Seq::<RuleView>::empty());
                }
                match parse_defs(&toks, &mut index, &mut rules) {
                    Err(e) => Err(e),
                    Ok(_) => {
                        let names = rule_names_of(&rules);
                        match unknown_in_rules(&rules, 0, &names) {
                            Some(nm) => Err(CompileError::UnknownRule(nm)),
                            None => {
                                let entry = if rules.len() > 0 {
                                    let e = rules[0].name.clone();
                                    proof {
                                        assert(e@ == rules_view(rules@)[0].name);
                                    }
                                    e
                                } else {
                                    String::new()
                                };
                                Ok(Grammar { rules, entry, alphabet })
                            },
                        }
                    },
                }
            },
        }
    }
}


/// Determinism: for a fixed grammar, entry rule, stream contents and
/// recursion budget, the outcome and final cursor position of a run are a
/// function of those values alone, so repeated invocation yields identical
/// results. `run`'s contract equates each invocation with this function.
pub proof fn lemma_run_deterministic(
    g: Grammar,
    entry: Seq<char>,
    toks1: Seq<Token>,
    toks2: Seq<Token>,
    fuel: nat,
)
    requires
        toks1 == toks2,
    ensures
        sp_run(g, entry, toks1, fuel) == sp_run(g, entry, toks2, fuel),
{
}

/// Ordered choice: when alternative `k` succeeds from the attempt position
/// and every alternative before it (from `i` on) fails, the choice yields
/// exactly alternative `k`'s result, whatever later alternatives would do.
pub proof fn lemma_one_of_ordered(
    g: Grammar,
    alts: Seq<ParsingSyntaxTree>,
    i: int,
    k: int,
    toks: Seq<Token>,
    pos: int,
    fuel: nat,
)
    requires
        0 <= i <= k < alts.len(),
        sp_eval_tree(g, alts[k], toks, pos, fuel).0 is Matched,
        forall|j: int| i <= j < k ==> (#[trigger] sp_eval_tree(g, alts[j], toks, pos, fuel)).0
            is Failed,
    ensures
        sp_eval_alts(g, alts, i, toks, pos, fuel) == (
            AltsView::Matched,
            sp_eval_tree(g, alts[k], toks, pos, fuel).1,
        ),
    decreases k - i,
{
    if i < k {
        assert(sp_eval_tree(g, alts[i], toks, pos, fuel).0 is Failed);
        lemma_one_of_ordered(g, alts, i + 1, k, toks, pos, fuel);
    } else {
        assert(sp_eval_tree(g, alts[k], toks, pos, fuel).0 is Matched);
    }
}

/// Termination of repetition on zero-width matches: a body that succeeds
/// without consuming input stops the loop at once, so the repetition
/// succeeds at the same position in one step. (That every evaluation
/// terminates at all is checked by the measures on the evaluation
/// functions themselves.)
pub proof fn lemma_star_zero_width(
    g: Grammar,
    t: ParsingSyntaxTree,
    toks: Seq<Token>,
    pos: int,
    fuel: nat,
)
    requires
        sp_eval_tree(g, t, toks, pos, fuel) == (MatchResultView::Matched, pos),
    ensures
        sp_eval_star(g, t, toks, pos, fuel) == (MatchResultView::Matched, pos),
{
}

/// A repetition never fails: whatever its body does, `ZeroOrMore` either
/// succeeds or reports an exhausted recursion budget.
pub proof fn lemma_star_never_fails(
    g: Grammar,
    t: ParsingSyntaxTree,
    toks: Seq<Token>,
    pos: int,
    fuel: nat,
)
    ensures
        !(sp_eval_star(g, t, toks, pos, fuel).0 is Failed),
    decreases fuel, size_tree(t), tok_remaining(toks, pos), 1int,
{
    let r = sp_eval_tree(g, t, toks, pos, fuel);
    if r.0 is Matched && 0 <= pos < r.1 <= toks.len() {
        lemma_star_never_fails(g, t, toks, r.1, fuel);
    }
}

/// `Optional` never fails, and consumes input only when its body matches:
/// a matching body's consumption is kept, a failing body is rolled back to
/// the attempt position, and only an exhausted recursion budget passes
/// through.
pub proof fn lemma_optional_never_fails(
    g: Grammar,
    t: ParsingSyntaxTree,
    toks: Seq<Token>,
    pos: int,
    fuel: nat,
)
    ensures
        !(sp_eval_piece(g, ParsingSyntaxTreePiece::Optional(t), toks, pos, fuel).0 is Failed),
        sp_eval_tree(g, t, toks, pos, fuel).0 is Matched ==> sp_eval_piece(
            g,
            ParsingSyntaxTreePiece::Optional(t),
            toks,
            pos,
            fuel,
        ) == (MatchResultView::Matched, sp_eval_tree(g, t, toks, pos, fuel).1),
        sp_eval_tree(g, t, toks, pos, fuel).0 is Failed ==> sp_eval_piece(
            g,
            ParsingSyntaxTreePiece::Optional(t),
            toks,
            pos,
            fuel,
        ) == (MatchResultView::Matched, pos),
        sp_eval_tree(g, t, toks, pos, fuel).0 is Exhausted ==> sp_eval_piece(
            g,
            ParsingSyntaxTreePiece::Optional(t),
            toks,
            pos,
            fuel,
        ) == (MatchResultView::Exhausted, pos),
{
}


/// A repetition piece never fails: `ZeroOrMore` always succeeds, having
/// committed zero or more iterations, unless the recursion budget runs
/// out.
pub proof fn lemma_zero_or_more_never_fails(
    g: Grammar,
    t: ParsingSyntaxTree,
    toks: Seq<Token>,
    pos: int,
    fuel: nat,
)
    ensures
        !(sp_eval_piece(g, ParsingSyntaxTreePiece::ZeroOrMore(t), toks, pos, fuel).0 is Failed),
{
    lemma_star_never_fails(g, t, toks, pos, fuel);
}

/// The first attempt of `OneOrMore` is fatal: when the body fails at the
/// attempt position, the whole construct propagates that same failure with
/// the cursor restored to the pre-attempt position.
pub proof fn lemma_one_or_more_first_failure(
    g: Grammar,
    t: ParsingSyntaxTree,
    toks: Seq<Token>,
    pos: int,
    fuel: nat,
)
    requires
        sp_eval_tree(g, t, toks, pos, fuel).0 is Failed,
    ensures
        sp_eval_piece(g, ParsingSyntaxTreePiece::OneOrMore(t), toks, pos, fuel) == (
            sp_eval_tree(g, t, toks, pos, fuel).0,
            pos,
        ),
{
}


/// The designated entry rule of a non-empty grammar resolves: it is the
/// first rule, so a run under its name never takes the unknown-entry
/// failure path.
pub proof fn lemma_entry_rule_resolves(g: Grammar)
    requires
        g.rules@.len() > 0,
        g.entry@ == g.rules@[0].name@,
    ensures
        sp_find_rule(g.rules@, 0, g.entry@) == Some(0int),
{
}

} // verus!
