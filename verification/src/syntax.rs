//! The grammar syntax tree: the data model of one compiled rule body, and
//! its rendering back to DSL text.

use vstd::prelude::*;

verus! {

/// An ordered, non-empty sequence of grammar terms forming one
/// alternative's body. Sequencing order is significant and fixed at build
/// time.
#[derive(Debug, PartialEq, Eq)]
pub struct ParsingSyntaxTree {
    pub pieces: Vec<ParsingSyntaxTreePiece>,
}

/// One grammar construct.
#[derive(Debug, PartialEq, Eq)]
pub enum ParsingSyntaxTreePiece {
    /// Ordered choice among alternatives, in declared order.
    OneOf(Vec<ParsingSyntaxTree>),
    /// Zero or more repetitions of the body; never fails.
    ZeroOrMore(ParsingSyntaxTree),
    /// One or more repetitions; the first attempt's failure is fatal.
    OneOrMore(ParsingSyntaxTree),
    /// At most one occurrence of the body; never fails.
    Optional(ParsingSyntaxTree),
    /// A single terminal match: a token kind name and a payload pattern.
    Token(String, TokenPattern),
    /// An invocation of another named rule, forwarding raw argument text.
    Layer(String, String),
}

/// What a terminal match asks of the token's payload: anything at all, or
/// equality with one literal value.
#[derive(Debug, Clone, PartialEq, Eq)]
pub enum TokenPattern {
    Any,
    Literal(String),
}

/// The mathematical value of a [`TokenPattern`].
pub enum PatternView {
    Any,
    Literal(Seq<char>),
}

/// The mathematical value of a [`ParsingSyntaxTreePiece`]; a tree's value
/// is the sequence of its pieces' values.
pub enum PieceView {
    OneOf(Seq<Seq<PieceView>>),
    ZeroOrMore(Seq<PieceView>),
    OneOrMore(Seq<PieceView>),
    Optional(Seq<PieceView>),
    Token(Seq<char>, PatternView),
    Layer(Seq<char>, Seq<char>),
}

impl View for TokenPattern {
    type V = PatternView;

    open spec fn view(&self) -> PatternView {
        match self {
            TokenPattern::Any => PatternView::Any,
            TokenPattern::Literal(l) => PatternView::Literal(l@),
        }
    }
}

/// The value of one piece.
pub open spec fn piece_view(p: ParsingSyntaxTreePiece) -> PieceView
    decreases p,
{
    match p {
        ParsingSyntaxTreePiece::OneOf(alts) => PieceView::OneOf(alts_view(alts@)),
        ParsingSyntaxTreePiece::ZeroOrMore(t) => PieceView::ZeroOrMore(pieces_view(t.pieces@)),
        ParsingSyntaxTreePiece::OneOrMore(t) => PieceView::OneOrMore(pieces_view(t.pieces@)),
        ParsingSyntaxTreePiece::Optional(t) => PieceView::Optional(pieces_view(t.pieces@)),
        ParsingSyntaxTreePiece::Token(name, pat) => PieceView::Token(name@, pat@),
        ParsingSyntaxTreePiece::Layer(name, args) => PieceView::Layer(name@, args@),
    }
}

/// The values of a sequence of pieces, elementwise.
pub open spec fn pieces_view(s: Seq<ParsingSyntaxTreePiece>) -> Seq<PieceView>
    decreases s,
{
    Seq::new(
        s.len(),
        |i: int|
            if 0 <= i < s.len() {
                piece_view(s[i])
            } else {
                PieceView::Token(Seq::empty(), PatternView::Any)
            },
    )
}

/// The values of a list of alternatives, elementwise.
pub open spec fn alts_view(s: Seq<ParsingSyntaxTree>) -> Seq<Seq<PieceView>>
    decreases s,
{
    Seq::new(
        s.len(),
        |i: int|
            if 0 <= i < s.len() {
                pieces_view(s[i].pieces@)
            } else {
                Seq::empty()
            },
    )
}

impl View for ParsingSyntaxTree {
    type V = Seq<PieceView>;

    open spec fn view(&self) -> Seq<PieceView> {
        pieces_view(self.pieces@)
    }
}

impl View for ParsingSyntaxTreePiece {
    type V = PieceView;

    open spec fn view(&self) -> PieceView {
        piece_view(*self)
    }
}

/// The number of nodes of one piece; a measure for recursion over trees.
pub open spec fn size_piece(p: ParsingSyntaxTreePiece) -> nat
    decreases p, 0int,
{
    match p {
        ParsingSyntaxTreePiece::OneOf(alts) => 1 + size_alts_from(alts@, 0),
        ParsingSyntaxTreePiece::ZeroOrMore(t) => 1 + size_tree(t),
        ParsingSyntaxTreePiece::OneOrMore(t) => 1 + size_tree(t),
        ParsingSyntaxTreePiece::Optional(t) => 1 + size_tree(t),
        ParsingSyntaxTreePiece::Token(_, _) => 1,
        ParsingSyntaxTreePiece::Layer(_, _) => 1,
    }
}

/// The node count of a whole tree.
pub open spec fn size_tree(t: ParsingSyntaxTree) -> nat
    decreases t, 0int,
{
    1 + size_pieces_from(t.pieces@, 0)
}

/// The node count of the pieces from index `i` on.
pub open spec fn size_pieces_from(s: Seq<ParsingSyntaxTreePiece>, i: int) -> nat
    decreases s, s.len() - i,
{
    if 0 <= i < s.len() {
        1 + size_piece(s[i]) + size_pieces_from(s, i + 1)
    } else {
        0
    }
}

/// The node count of the alternatives from index `i` on.
pub open spec fn size_alts_from(s: Seq<ParsingSyntaxTree>, i: int) -> nat
    decreases s, s.len() - i,
{
    if 0 <= i < s.len() {
        1 + size_tree(s[i]) + size_alts_from(s, i + 1)
    } else {
        0
    }
}

/// The DSL text of one piece. A wildcard terminal renders as the bare kind
/// name; a literal terminal as `kind[literal]`; a rule call as
/// `name(args)`; choice and repetition as a braced group with its
/// quantifier.
pub open spec fn sp_render_piece(p: ParsingSyntaxTreePiece) -> Seq<char>
    decreases p, 0int,
{
    match p {
        ParsingSyntaxTreePiece::OneOf(alts) => "{ "@ + sp_render_alts(alts@, 0) + " }"@,
        ParsingSyntaxTreePiece::ZeroOrMore(t) => "{ "@ + sp_render_pieces(t.pieces@, 0) + " }*"@,
        ParsingSyntaxTreePiece::OneOrMore(t) => "{ "@ + sp_render_pieces(t.pieces@, 0) + " }+"@,
        ParsingSyntaxTreePiece::Optional(t) => "{ "@ + sp_render_pieces(t.pieces@, 0) + " }?"@,
        ParsingSyntaxTreePiece::Token(name, TokenPattern::Any) => name@,
        ParsingSyntaxTreePiece::Token(name, TokenPattern::Literal(l)) => name@ + "["@ + l@
            + "]"@,
        ParsingSyntaxTreePiece::Layer(name, args) => name@ + "("@ + args@ + ")"@,
    }
}

/// The DSL text of the pieces from index `i` on, joined with spaces.
pub open spec fn sp_render_pieces(s: Seq<ParsingSyntaxTreePiece>, i: int) -> Seq<char>
    decreases s, s.len() - i,
{
    if !(0 <= i < s.len()) {
        Seq::empty()
    } else if i == s.len() - 1 {
        sp_render_piece(s[i])
    } else {
        sp_render_piece(s[i]) + " "@ + sp_render_pieces(s, i + 1)
    }
}

/// The DSL text of the alternatives from index `i` on, joined with bars.
pub open spec fn sp_render_alts(s: Seq<ParsingSyntaxTree>, i: int) -> Seq<char>
    decreases s, s.len() - i,
{
    if !(0 <= i < s.len()) {
        Seq::empty()
    } else if i == s.len() - 1 {
        sp_render_pieces(s[i].pieces@, 0)
    } else {
        sp_render_pieces(s[i].pieces@, 0) + " | "@ + sp_render_alts(s, i + 1)
    }
}

impl ParsingSyntaxTree {
    /// A tree holding exactly one piece.
    pub fn new(piece: ParsingSyntaxTreePiece) -> (r: ParsingSyntaxTree)
        ensures
            r.pieces@ == seq![piece],
    {
        let mut pieces: Vec<ParsingSyntaxTreePiece> = Vec::new();
        pieces.push(piece);
        proof {
            assert(pieces@ =~= seq![piece]);
        }
        ParsingSyntaxTree { pieces }
    }

    /// Appends another tree's pieces after this tree's, concatenating the
    /// two sequences of grammar terms.
    pub fn put_next(&mut self, piece: ParsingSyntaxTree)
        ensures
            final(self).pieces@ == old(self).pieces@ + piece.pieces@,
    {
        let mut other = piece;
        self.pieces.append(&mut other.pieces);
    }

    /// Renders this tree back to DSL text.
    pub fn gen_snippet(&self) -> (r: String)
        ensures
            r@ == sp_render_pieces(self.pieces@, 0),
    {
        render_pieces(&self.pieces, 0)
    }
}

impl ParsingSyntaxTreePiece {
    /// Renders this piece back to DSL text.
    pub fn gen_snippet(&self) -> (r: String)
        ensures
            r@ == sp_render_piece(*self),
        decreases size_piece(*self),
    {
        match self {
            ParsingSyntaxTreePiece::OneOf(alts) => {
                let mut s = String::from_str("{ ");
                let inner = render_alts(alts, 0);
                s.append(inner.as_str());
                s.append(" }");
                proof {
                    assert(s@ =~= sp_render_piece(*self));
                }
                s
            },
            ParsingSyntaxTreePiece::ZeroOrMore(t) => {
                let mut s = String::from_str("{ ");
                let inner = render_pieces(&t.pieces, 0);
                s.append(inner.as_str());
                s.append(" }*");
                proof {
                    assert(s@ =~= sp_render_piece(*self));
                }
                s
            },
            ParsingSyntaxTreePiece::OneOrMore(t) => {
                let mut s = String::from_str("{ ");
                let inner = render_pieces(&t.pieces, 0);
                s.append(inner.as_str());
                s.append(" }+");
                proof {
                    assert(s@ =~= sp_render_piece(*self));
                }
                s
            },
            ParsingSyntaxTreePiece::Optional(t) => {
                let mut s = String::from_str("{ ");
                let inner = render_pieces(&t.pieces, 0);
                s.append(inner.as_str());
                s.append(" }?");
                proof {
                    assert(s@ =~= sp_render_piece(*self));
                }
                s
            },
            ParsingSyntaxTreePiece::Token(name, TokenPattern::Any) => name.clone(),
            ParsingSyntaxTreePiece::Token(name, TokenPattern::Literal(l)) => {
                let mut s = name.clone();
                s.append("[");
                s.append(l.as_str());
                s.append("]");
                proof {
                    assert(s@ =~= sp_render_piece(*self));
                }
                s
            },
            ParsingSyntaxTreePiece::Layer(name, args) => {
                let mut s = name.clone();
                s.append("(");
                s.append(args.as_str());
                s.append(")");
                proof {
                    assert(s@ =~= sp_render_piece(*self));
                }
                s
            },
        }
    }
}

/// Renders the pieces from index `i` on, joined with spaces.
fn render_pieces(v: &Vec<ParsingSyntaxTreePiece>, i: usize) -> (r: String)
    ensures
        r@ == sp_render_pieces(v@, i as int),
    decreases size_pieces_from(v@, i as int),
{
    if i >= v.len() {
        String::new()
    } else if i == v.len() - 1 {
        v[i].gen_snippet()
    } else {
        let mut s = v[i].gen_snippet();
        s.append(" ");
        let rest = render_pieces(v, i + 1);
        s.append(rest.as_str());
        proof {
            assert(s@ =~= sp_render_pieces(v@, i as int));
        }
        s
    }
}

/// Renders the alternatives from index `i` on, joined with bars.
fn render_alts(v: &Vec<ParsingSyntaxTree>, i: usize) -> (r: String)
    ensures
        r@ == sp_render_alts(v@, i as int),
    decreases size_alts_from(v@, i as int),
{
    if i >= v.len() {
        String::new()
    } else if i == v.len() - 1 {
        let tree = &v[i];
        proof {
            reveal_with_fuel(size_alts_from, 2);
            assert(*tree == v@[i as int]);
            assert(size_pieces_from(tree.pieces@, 0) < size_alts_from(v@, i as int));
        }
        render_pieces(&tree.pieces, 0)
    } else {
        let tree = &v[i];
        proof {
            reveal_with_fuel(size_alts_from, 2);
            assert(*tree == v@[i as int]);
            assert(size_pieces_from(tree.pieces@, 0) < size_alts_from(v@, i as int));
        }
        let mut s = render_pieces(&tree.pieces, 0);
        s.append(" | ");
        let rest = render_alts(v, i + 1);
        s.append(rest.as_str());
        proof {
            assert(s@ =~= sp_render_alts(v@, i as int));
        }
        s
    }
}

} // verus!
