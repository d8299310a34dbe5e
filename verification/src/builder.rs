//! The grammar syntax tree builder: a recursive-descent, single forward
//! pass over the meta-token sequence with an explicit index and no
//! backtracking (the DSL itself is unambiguous).
//!
//! A group `{ … }` collects alternatives separated by choice bars; after
//! its closing brace a quantifier `*`, `+` or `?` may wrap the group,
//! whether it resolved to one alternative or to an ordered choice. A
//! single-alternative group is unwrapped, so no spurious one-branch choice
//! nodes appear.

use vstd::prelude::*;
use crate::error::{CompileError, CompileErrorView};
use crate::lexer::{generate_rule_tokens, ParsingSyntaxToken, ParsingSyntaxTokenView, sp_lex_text};
use crate::syntax::{
    alts_view,
    piece_view,
    pieces_view,
    ParsingSyntaxTree,
    ParsingSyntaxTreePiece,
    PatternView,
    PieceView,
    TokenPattern,
};

verus! {

/// The payload pattern a bracketed argument span denotes: the wildcard
/// sentinel `_` matches any payload; any other text is a literal the
/// token's payload must equal.
pub open spec fn sp_pattern_of(args: Seq<char>) -> PatternView {
    if args == "_"@ {
        PatternView::Any
    } else {
        PatternView::Literal(args)
    }
}

/// The parse of one term starting at meta-token `i`: a braced group
/// (with its optional quantifier) or an identifier with its optional
/// argument span. Yields the term's pieces and the index just past it.
pub open spec fn sp_parse_part(toks: Seq<ParsingSyntaxTokenView>, i: int) -> Result<
    (Seq<PieceView>, int),
    CompileErrorView,
>
    decreases toks.len() - i, 0int,
{
    if !(0 <= i < toks.len()) {
        Err(CompileErrorView::UnexpectedToken)
    } else {
        match toks[i] {
            ParsingSyntaxTokenView::LBrace => {
                match sp_parse_part(toks, i + 1) {
                    Err(e) => Err(e),
                    Ok((t1, j1)) => {
                        let k1 = if i + 1 < j1 <= toks.len() {
                            j1
                        } else {
                            toks.len() as int
                        };
                        match sp_parse_group(toks, k1, seq![t1]) {
                            Err(e) => Err(e),
                            Ok((opts, j2)) => {
                                let base: Seq<PieceView> = if opts.len() > 1 {
                                    seq![PieceView::OneOf(opts)]
                                } else {
                                    opts[0]
                                };
                                if j2 < toks.len() && toks[j2] is Asterisk {
                                    Ok((seq![PieceView::ZeroOrMore(base)], j2 + 1))
                                } else if j2 < toks.len() && toks[j2] is Plus {
                                    Ok((seq![PieceView::OneOrMore(base)], j2 + 1))
                                } else if j2 < toks.len() && toks[j2] is Question {
                                    Ok((seq![PieceView::Optional(base)], j2 + 1))
                                } else {
                                    Ok((base, j2))
                                }
                            },
                        }
                    },
                }
            },
            ParsingSyntaxTokenView::Identifier(name) => {
                if i + 1 < toks.len() {
                    match toks[i + 1] {
                        ParsingSyntaxTokenView::LayerArgs(args) => Ok(
                            (seq![PieceView::Layer(name, args)], i + 2),
                        ),
                        ParsingSyntaxTokenView::TokenArgs(args) => Ok(
                            (seq![PieceView::Token(name, sp_pattern_of(args))], i + 2),
                        ),
                        _ => Ok((seq![PieceView::Token(name, PatternView::Any)], i + 1)),
                    }
                } else {
                    Ok((seq![PieceView::Token(name, PatternView::Any)], i + 1))
                }
            },
            _ => Err(CompileErrorView::UnexpectedToken),
        }
    }
}

/// The parse of a group's remaining body from meta-token `i`, with the
/// alternatives collected so far. A close brace ends the group; a choice
/// bar starts a new alternative; any other token must start a term, which
/// is appended to the current alternative. A group the input ends inside
/// is an `UnclosedGroup` error.
pub open spec fn sp_parse_group(
    toks: Seq<ParsingSyntaxTokenView>,
    i: int,
    opts: Seq<Seq<PieceView>>,
) -> Result<(Seq<Seq<PieceView>>, int), CompileErrorView>
    decreases toks.len() - i, 1int,
{
    if !(0 <= i < toks.len()) {
        Err(CompileErrorView::UnclosedGroup)
    } else if toks[i] is RBrace {
        Ok((opts, i + 1))
    } else if toks[i] is Pipe {
        match sp_parse_part(toks, i + 1) {
            Err(e) => Err(e),
            Ok((t, j)) => {
                let k = if i + 1 < j <= toks.len() {
                    j
                } else {
                    toks.len() as int
                };
                sp_parse_group(toks, k, opts.push(t))
            },
        }
    } else {
        match sp_parse_part(toks, i) {
            Err(e) => Err(e),
            Ok((t, j)) => {
                let k = if i < j <= toks.len() {
                    j
                } else {
                    toks.len() as int
                };
                sp_parse_group(toks, k, opts.update(opts.len() - 1, opts.last() + t))
            },
        }
    }
}

/// The grammar syntax tree of a whole rule-body text.
pub open spec fn sp_generate_rule(s: Seq<char>) -> Result<Seq<PieceView>, CompileErrorView> {
    match sp_lex_text(s) {
        Err(e) => Err(e),
        Ok(toks) => match sp_parse_part(toks, 0) {
            Err(e) => Err(e),
            Ok(res) => Ok(res.0),
        },
    }
}

/// Decides the payload pattern of a bracketed argument span.
fn token_pattern_of(args: String) -> (p: TokenPattern)
    ensures
        p@ == sp_pattern_of(args@),
{
    let wildcard = String::from_str("_");
    if args == wildcard {
        TokenPattern::Any
    } else {
        TokenPattern::Literal(args)
    }
}

/// Parses one term starting at the cursor, leaving the cursor just past
/// it, as the parse specification says.
pub fn generate_rule_tree_part(tokens: &Vec<ParsingSyntaxToken>, index: &mut usize) -> (r: Result<
    ParsingSyntaxTree,
    CompileError,
>)
    ensures
        match sp_parse_part(tokens.deep_view(), *old(index) as int) {
            Ok(res) => {
                &&& r matches Ok(tree)
                &&& tree@ == res.0
                &&& *final(index) == res.1
                &&& *old(index) < *final(index) <= tokens@.len()
            },
            Err(e) => (r matches Err(err) && err@ == e),
        },
    decreases tokens@.len() - *index, 0int,
{
    let n = tokens.len();
    if *index >= n {
        return Err(CompileError::UnexpectedToken);
    }
    let ghost i0 = *index as int;
    proof {
        assert(tokens.deep_view()[i0] == tokens@[i0]@);
    }
    match &tokens[*index] {
        ParsingSyntaxToken::LBrace => {
            *index = *index + 1;
            match generate_rule_tree_part(tokens, index) {
                Err(e) => Err(e),
                Ok(t1) => {
                    let mut options: Vec<ParsingSyntaxTree> = Vec::new();
                    let ghost t1v = t1@;
                    options.push(t1);
                    proof {
                        assert(alts_view(options@) =~= seq![t1v]);
                    }
                    match generate_rule_tree_group(tokens, index, &mut options) {
                        Err(e) => Err(e),
                        Ok(_) => {
                            let base: ParsingSyntaxTree = if options.len() > 1 {
                                let b = ParsingSyntaxTree::new(
                                    ParsingSyntaxTreePiece::OneOf(options),
                                );
                                proof {
                                    assert(b@ =~= seq![piece_view(b.pieces@[0])]);
                                }
                                b
                            } else {
                                let b = options.pop().unwrap();
                                proof {
                                    assert(b@ == alts_view(options@.push(b))[0]);
                                }
                                b
                            };
                            if *index < n {
                                match &tokens[*index] {
                                    ParsingSyntaxToken::Asterisk => {
                                        *index = *index + 1;
                                        let w = ParsingSyntaxTree::new(
                                            ParsingSyntaxTreePiece::ZeroOrMore(base),
                                        );
                                        proof {
                                            assert(w@ =~= seq![piece_view(w.pieces@[0])]);
                                        }
                                        Ok(w)
                                    },
                                    ParsingSyntaxToken::Plus => {
                                        *index = *index + 1;
                                        let w = ParsingSyntaxTree::new(
                                            ParsingSyntaxTreePiece::OneOrMore(base),
                                        );
                                        proof {
                                            assert(w@ =~= seq![piece_view(w.pieces@[0])]);
                                        }
                                        Ok(w)
                                    },
                                    ParsingSyntaxToken::Question => {
                                        *index = *index + 1;
                                        let w = ParsingSyntaxTree::new(
                                            ParsingSyntaxTreePiece::Optional(base),
                                        );
                                        proof {
                                            assert(w@ =~= seq![piece_view(w.pieces@[0])]);
                                        }
                                        Ok(w)
                                    },
                                    _ => Ok(base),
                                }
                            } else {
                                Ok(base)
                            }
                        },
                    }
                },
            }
        },
        ParsingSyntaxToken::Identifier(name) => {
            let name_c = name.clone();
            *index = *index + 1;
            if *index < n {
                proof {
                    assert(tokens.deep_view()[i0 + 1] == tokens@[i0 + 1]@);
                }
                match &tokens[*index] {
                    ParsingSyntaxToken::LayerArgs(args) => {
                        let a = args.clone();
                        *index = *index + 1;
                        let w = ParsingSyntaxTree::new(
                            ParsingSyntaxTreePiece::Layer(name_c, a),
                        );
                        proof {
                            assert(w@ =~= seq![piece_view(w.pieces@[0])]);
                        }
                        Ok(w)
                    },
                    ParsingSyntaxToken::TokenArgs(args) => {
                        let a = args.clone();
                        *index = *index + 1;
                        let w = ParsingSyntaxTree::new(
                            ParsingSyntaxTreePiece::Token(name_c, token_pattern_of(a)),
                        );
                        proof {
                            assert(w@ =~= seq![piece_view(w.pieces@[0])]);
                        }
                        Ok(w)
                    },
                    _ => {
                        let w = ParsingSyntaxTree::new(
                            ParsingSyntaxTreePiece::Token(name_c, TokenPattern::Any),
                        );
                        proof {
                            assert(w@ =~= seq![piece_view(w.pieces@[0])]);
                        }
                        Ok(w)
                    },
                }
            } else {
                let w = ParsingSyntaxTree::new(
                    ParsingSyntaxTreePiece::Token(name_c, TokenPattern::Any),
                );
                proof {
                    assert(w@ =~= seq![piece_view(w.pieces@[0])]);
                }
                Ok(w)
            }
        },
        _ => Err(CompileError::UnexpectedToken),
    }
}

/// Parses the rest of a group's body, growing the collected alternatives,
/// and leaves the cursor just past the closing brace.
pub fn generate_rule_tree_group(
    tokens: &Vec<ParsingSyntaxToken>,
    index: &mut usize,
    options: &mut Vec<ParsingSyntaxTree>,
) -> (r: Result<(), CompileError>)
    requires
        old(options)@.len() > 0,
    ensures
        match sp_parse_group(
            tokens.deep_view(),
            *old(index) as int,
            alts_view(old(options)@),
        ) {
            Ok(res) => {
                &&& r matches Ok(_)
                &&& alts_view(final(options)@) == res.0
                &&& final(options)@.len() > 0
                &&& *final(index) == res.1
                &&& *old(index) < *final(index) <= tokens@.len()
            },
            Err(e) => (r matches Err(err) && err@ == e),
        },
    decreases tokens@.len() - *index, 1int,
{
    let n = tokens.len();
    if *index >= n {
        return Err(CompileError::UnclosedGroup);
    }
    let ghost i0 = *index as int;
    let ghost opts0 = alts_view(options@);
    proof {
        assert(tokens.deep_view()[i0] == tokens@[i0]@);
    }
    match &tokens[*index] {
        ParsingSyntaxToken::RBrace => {
            *index = *index + 1;
            Ok(())
        },
        ParsingSyntaxToken::Pipe => {
            *index = *index + 1;
            match generate_rule_tree_part(tokens, index) {
                Err(e) => Err(e),
                Ok(t) => {
                    let ghost tv = t@;
                    options.push(t);
                    proof {
                        assert(alts_view(options@) =~= opts0.push(tv));
                    }
                    generate_rule_tree_group(tokens, index, options)
                },
            }
        },
        _ => {
            match generate_rule_tree_part(tokens, index) {
                Err(e) => Err(e),
                Ok(t) => {
                    let ghost tv = t@;
                    let mut last = options.pop().unwrap();
                    last.put_next(t);
                    options.push(last);
                    proof {
                        assert(pieces_view(options@.last().pieces@) =~= opts0.last() + tv);
                        assert(alts_view(options@) =~= opts0.update(opts0.len() - 1, opts0.last() + tv));
                    }
                    generate_rule_tree_group(tokens, index, options)
                },
            }
        },
    }
}

/// Builds the syntax tree of one term from a whole meta-token sequence;
/// meta-tokens past the term are ignored.
pub fn generate_rule_tree(tokens: &Vec<ParsingSyntaxToken>) -> (r: Result<
    ParsingSyntaxTree,
    CompileError,
>)
    ensures
        match sp_parse_part(tokens.deep_view(), 0) {
            Ok(res) => (r matches Ok(tree) && tree@ == res.0),
            Err(e) => (r matches Err(err) && err@ == e),
        },
{
    let mut index: usize = 0;
    generate_rule_tree_part(tokens, &mut index)
}

/// Builds the syntax tree of a rule-body text: lexes it, then parses one
/// term (a rule body is written as one braced group).
pub fn generate_rule(text: &str) -> (r: Result<ParsingSyntaxTree, CompileError>)
    ensures
        match sp_generate_rule(text@) {
            Ok(t) => (r matches Ok(tree) && tree@ == t),
            Err(e) => (r matches Err(err) && err@ == e),
        },
{
    match generate_rule_tokens(text) {
        Err(e) => Err(e),
        Ok(tokens) => generate_rule_tree(&tokens),
    }
}

} // verus!
