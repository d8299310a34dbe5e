//! The error model: compile-time errors that prevent a grammar from being
//! built, and parse-time errors propagated as plain values through every
//! combinator. No error is ever raised as control flow.

use vstd::prelude::*;

verus! {

/// A failure while turning DSL text into a compiled grammar.
#[derive(Debug, Clone, PartialEq, Eq)]
pub enum CompileError {
    /// A character of the DSL text that no token can start with, and its
    /// character offset.
    InvalidCharacter(char, usize),
    /// An opened group or argument span that never reaches its closer.
    UnclosedGroup,
    /// A term was expected, but the input ended or a stray meta-token
    /// (such as a bare choice bar) stood where a term must start.
    UnexpectedToken,
    /// A rule call names a rule that the grammar does not define.
    UnknownRule(String),
}

/// The mathematical value of a [`CompileError`].
pub enum CompileErrorView {
    InvalidCharacter(char, int),
    UnclosedGroup,
    UnexpectedToken,
    UnknownRule(Seq<char>),
}

impl View for CompileError {
    type V = CompileErrorView;

    open spec fn view(&self) -> CompileErrorView {
        match self {
            CompileError::InvalidCharacter(c, off) => CompileErrorView::InvalidCharacter(
                *c,
                *off as int,
            ),
            CompileError::UnclosedGroup => CompileErrorView::UnclosedGroup,
            CompileError::UnexpectedToken => CompileErrorView::UnexpectedToken,
            CompileError::UnknownRule(name) => CompileErrorView::UnknownRule(name@),
        }
    }
}

/// A structured parse-time failure.
#[derive(Debug, PartialEq, Eq)]
pub struct ParseError {
    pub error: ParseErrorType,
}

/// The two shapes of parse-time failure: a leaf naming the token
/// descriptions that would have been accepted, and an aggregate holding one
/// branch error per failed alternative of an ordered choice, in declared
/// order.
#[derive(Debug, PartialEq, Eq)]
pub enum ParseErrorType {
    MissingToken(Vec<String>),
    OneOf(Vec<ParseError>),
}

/// The mathematical value of a [`ParseError`].
pub enum ParseErrorView {
    MissingToken(Seq<Seq<char>>),
    OneOf(Seq<ParseErrorView>),
}

/// The views of a list of expected-token descriptions.
pub open spec fn descs_view(v: Seq<String>) -> Seq<Seq<char>> {
    v.map_values(|s: String| s@)
}

/// The value of a [`ParseErrorType`], mapping every branch recursively.
pub open spec fn error_type_view(e: ParseErrorType) -> ParseErrorView
    decreases e,
{
    match e {
        ParseErrorType::MissingToken(v) => ParseErrorView::MissingToken(descs_view(v@)),
        ParseErrorType::OneOf(v) => ParseErrorView::OneOf(errors_view(v@)),
    }
}

/// The values of a list of branch errors, in order.
pub open spec fn errors_view(s: Seq<ParseError>) -> Seq<ParseErrorView>
    decreases s,
{
    Seq::new(
        s.len(),
        |i: int|
            if 0 <= i < s.len() {
                error_type_view(s[i].error)
            } else {
                ParseErrorView::MissingToken(Seq::empty())
            },
    )
}

impl View for ParseError {
    type V = ParseErrorView;

    open spec fn view(&self) -> ParseErrorView {
        error_type_view(self.error)
    }
}

impl View for ParseErrorType {
    type V = ParseErrorView;

    open spec fn view(&self) -> ParseErrorView {
        error_type_view(*self)
    }
}

/// The number of nodes of an error value; a measure for recursion over it.
pub open spec fn size_error(e: ParseErrorType) -> nat
    decreases e, 0int,
{
    match e {
        ParseErrorType::MissingToken(_) => 1,
        ParseErrorType::OneOf(v) => 1 + size_errors_from(v@, 0),
    }
}

/// The node count of the branch errors from index `i` on.
pub open spec fn size_errors_from(s: Seq<ParseError>, i: int) -> nat
    decreases s, s.len() - i,
{
    if 0 <= i < s.len() {
        1 + size_error(s[i].error) + size_errors_from(s, i + 1)
    } else {
        0
    }
}

/// The rendering of expected-token descriptions from index `i` on, joined
/// with `or`.
pub open spec fn sp_render_descs(ds: Seq<Seq<char>>, i: int) -> Seq<char>
    decreases ds.len() - i,
{
    if !(0 <= i < ds.len()) {
        Seq::empty()
    } else if i == ds.len() - 1 {
        ds[i]
    } else {
        ds[i] + " or "@ + sp_render_descs(ds, i + 1)
    }
}

/// The rendering of an error for human display. A missing token lists the
/// accepted descriptions joined with `or`; an ordered-choice failure lists
/// every branch's rendering, parenthesised and joined with `or`, so every
/// alternative's failure stays visible.
pub open spec fn sp_render_error(e: ParseErrorType) -> Seq<char>
    decreases e, 0int,
{
    match e {
        ParseErrorType::MissingToken(v) => "Token "@ + sp_render_descs(descs_view(v@), 0)
            + " missing."@,
        ParseErrorType::OneOf(v) => "One of: "@ + sp_render_branches(v@, 0),
    }
}

/// The rendering of the branch errors from index `i` on.
pub open spec fn sp_render_branches(s: Seq<ParseError>, i: int) -> Seq<char>
    decreases s, s.len() - i,
{
    if !(0 <= i < s.len()) {
        Seq::empty()
    } else if i == s.len() - 1 {
        "("@ + sp_render_error(s[i].error) + ")"@
    } else {
        "("@ + sp_render_error(s[i].error) + ")"@ + " or "@ + sp_render_branches(s, i + 1)
    }
}

impl ParseError {
    pub fn new(error: ParseErrorType) -> (r: ParseError)
        ensures
            r.error == error,
    {
        ParseError { error }
    }

    /// A stable numeric code for the error's shape.
    pub fn error_code(&self) -> (r: u16)
        ensures
            self.error matches ParseErrorType::MissingToken(_) ==> r == 1,
            self.error matches ParseErrorType::OneOf(_) ==> r == 2,
    {
        match &self.error {
            ParseErrorType::MissingToken(_) => 1,
            ParseErrorType::OneOf(_) => 2,
        }
    }

    /// The human-readable rendering of the error.
    pub fn render(&self) -> (r: String)
        ensures
            r@ == sp_render_error(self.error),
    {
        render_error_type(&self.error)
    }
}

/// Renders one error node.
fn render_error_type(e: &ParseErrorType) -> (r: String)
    ensures
        r@ == sp_render_error(*e),
    decreases size_error(*e),
{
    match e {
        ParseErrorType::MissingToken(v) => {
            let mut s = String::from_str("Token ");
            let ds = render_descs(v, 0);
            s.append(ds.as_str());
            s.append(" missing.");
            proof {
                assert(s@ =~= sp_render_error(*e));
            }
            s
        },
        ParseErrorType::OneOf(v) => {
            let mut s = String::from_str("One of: ");
            let bs = render_branches(v, 0);
            s.append(bs.as_str());
            proof {
                assert(s@ =~= sp_render_error(*e));
            }
            s
        },
    }
}

/// Renders the descriptions from index `i` on.
fn render_descs(v: &Vec<String>, i: usize) -> (r: String)
    ensures
        r@ == sp_render_descs(descs_view(v@), i as int),
    decreases v@.len() - i,
{
    if i >= v.len() {
        String::new()
    } else if i == v.len() - 1 {
        let r = v[i].clone();
        proof {
            assert(r@ =~= sp_render_descs(descs_view(v@), i as int));
        }
        r
    } else {
        let mut s = v[i].clone();
        s.append(" or ");
        let rest = render_descs(v, i + 1);
        s.append(rest.as_str());
        proof {
            assert(s@ =~= sp_render_descs(descs_view(v@), i as int));
        }
        s
    }
}

/// Renders the branch errors from index `i` on.
fn render_branches(v: &Vec<ParseError>, i: usize) -> (r: String)
    ensures
        r@ == sp_render_branches(v@, i as int),
    decreases size_errors_from(v@, i as int),
{
    if i >= v.len() {
        String::new()
    } else {
        let mut s = String::from_str("(");
        let inner = render_error_type(&v[i].error);
        s.append(inner.as_str());
        s.append(")");
        if i < v.len() - 1 {
            s.append(" or ");
            let rest = render_branches(v, i + 1);
            s.append(rest.as_str());
        }
        proof {
            assert(s@ =~= sp_render_branches(v@, i as int));
        }
        s
    }
}

} // verus!
