//! The parser: from the tokens of a formula to its syntax tree.
//!
//! What the parser does is stated over a [`ParserView`]: the input, how far
//! the lexer has read in it, and the two tokens that the parser looks at. Each
//! `parsed_..` function says what one method of [`Parser`] returns from such a
//! state, and in which state it leaves the parser.

use vstd::prelude::*;
use crate::ast::{node_view, nodes_view, set_variant, Node, NodeView};
use crate::attribute::{Accent, ColumnAlign, DisplayStyle, LineThickness};
use crate::error::{ErrorView, LatexError};
use crate::lexer::{char_at, lemma_token_at, token_at, Lexer};
use crate::text::{char_is_digit, is_digit, same_text};
use crate::token::{Token, TokenView};

verus! {

/// The state of a parser.
pub struct ParserView {
    /// The characters of the formula.
    pub input: Seq<char>,
    /// How far the lexer has read.
    pub pos: nat,
    /// The token that the parser stands on.
    pub cur: TokenView,
    /// The token behind it.
    pub peek: TokenView,
}

/// A node, and the state behind it; or what went wrong.
pub type Outcome = Result<(NodeView, ParserView), ErrorView>;

impl ParserView {
    /// The state one token further on. A digit directly behind a token that
    /// acts on a digit is a numeral of its own; every other token is the next
    /// one of the lexer.
    #[verifier::opaque]
    pub open spec fn advance(self) -> ParserView {
        let (token, pos) = if self.peek.acts_on_a_digit() && is_digit(
            char_at(self.input, self.pos),
        ) {
            (TokenView::Number(seq![char_at(self.input, self.pos)]), self.pos + 1)
        } else {
            token_at(self.input, self.pos)
        };
        ParserView { input: self.input, pos, cur: self.peek, peek: token }
    }

    /// The state of a parser that starts to read `input` at `pos`.
    pub open spec fn at(input: Seq<char>, pos: nat) -> ParserView {
        ParserView {
            input,
            pos,
            cur: TokenView::Illegal('\0'),
            peek: TokenView::Illegal('\0'),
        }.advance().advance()
    }

    /// A bound on how often the state can still change: not at all once the
    /// input is read and both tokens are [`TokenView::EOF`].
    pub open spec fn rest(self) -> nat {
        let unread: nat = if self.pos < self.input.len() {
            (self.input.len() - self.pos) as nat
        } else {
            0
        };
        let held: nat = if !(self.peek is EOF) {
            2
        } else if !(self.cur is EOF) {
            1
        } else {
            0
        };
        3 * unread + held
    }

    /// Whether a parser in this state can come to `next`: by not moving, or by
    /// moving nearer to the end.
    pub open spec fn leads_to(self, next: ParserView) -> bool {
        next == self || next.rest() < self.rest()
    }

    /// `next`, as a state that the parser came to from this one. Every state
    /// that a `parsed_..` function yields is such a state, so this changes
    /// nothing; written into the definitions, it shows that they are
    /// well-founded.
    pub open spec fn onward(self, next: ParserView) -> ParserView {
        if self.leads_to(next) {
            next
        } else {
            self
        }
    }
}

/// Every token moves the parser nearer to the end, until the input is read
/// and both tokens are [`TokenView::EOF`]: then nothing changes any more.
pub proof fn lemma_advance(s: ParserView)
    ensures
        s.advance().input == s.input,
        s.leads_to(s.advance()),
        !(s.cur is EOF) || !(s.peek is EOF) ==> s.advance().rest() < s.rest(),
{
    reveal(ParserView::advance);
    lemma_token_at(s.input, s.pos);
}

/// The letters from the current token on, and the state at the first token
/// that is no letter.
pub open spec fn letters_from(s: ParserView) -> (Seq<char>, ParserView)
    decreases s.rest(),
{
    match s.cur {
        TokenView::Letter(x, _) => {
            proof {
                lemma_advance(s);
            }
            let (text, end) = letters_from(s.advance());
            (seq![x] + text, end)
        },
        _ => (Seq::empty(), s),
    }
}

/// A text in braces: the opening brace is skipped, the letters behind it are
/// the text, and the closing brace is left as the current token.
pub open spec fn parsed_text(s: ParserView) -> (Seq<char>, ParserView) {
    letters_from(s.advance())
}

/// Reading letters never goes back, and stays in the same input.
pub proof fn lemma_letters_from(s: ParserView)
    ensures
        s.leads_to(letters_from(s).1),
        letters_from(s).1.input == s.input,
    decreases s.rest(),
{
    if s.cur is Letter {
        lemma_advance(s);
        lemma_letters_from(s.advance());
    }
}

/// Reading a text never goes back, and moves on unless the input has ended.
pub proof fn lemma_parsed_text(s: ParserView)
    ensures
        s.leads_to(parsed_text(s).1),
        !(s.cur is EOF) ==> parsed_text(s).1.rest() < s.rest(),
{
    lemma_advance(s);
    lemma_letters_from(s.advance());
}

/// The delimiter that `token` names behind `\left` or `\right`: the text of a
/// delimiter, or nothing for the dot that stands for none.
pub open spec fn delimiter_of(token: TokenView, location: TokenView) -> Result<
    Seq<char>,
    ErrorView,
> {
    match token {
        TokenView::Paren(text) => Ok(text),
        TokenView::Operator('.') => Ok(Seq::empty()),
        _ => Err(ErrorView::MissingParensethis { location, got: token }),
    }
}

/// What a group of nodes is as one node: the node itself where it is one,
/// else a row.
pub open spec fn grouped(nodes: Seq<NodeView>) -> NodeView {
    if nodes.len() == 1 {
        nodes[0]
    } else {
        NodeView::Row(nodes)
    }
}

/// A binomial coefficient: a fraction without a bar between parentheses, in
/// the size that `display` asks for.
pub open spec fn binomial(
    numerator: NodeView,
    denominator: NodeView,
    display: Option<DisplayStyle>,
) -> NodeView {
    let binom = NodeView::Fenced {
        open: "("@,
        close: ")"@,
        content: Box::new(
            NodeView::Frac(
                Box::new(numerator),
                Box::new(denominator),
                LineThickness::Length(0),
            ),
        ),
    };
    match display {
        Some(d) => NodeView::Style(Some(d), Box::new(NodeView::Row(seq![binom]))),
        None => binom,
    }
}

/// A big operator with what stands below and above it: both, one of them, or
/// the bare operator.
pub open spec fn with_limits(op: char, under: Option<NodeView>, over: Option<NodeView>) -> NodeView {
    match (under, over) {
        (Some(u), Some(o)) => NodeView::UnderOver {
            target: Box::new(NodeView::Operator(op)),
            under: Box::new(u),
            over: Box::new(o),
        },
        (Some(u), None) => NodeView::Under(Box::new(NodeView::Operator(op)), Box::new(u)),
        (None, Some(o)) => NodeView::OverOp(op, Accent::False, Box::new(o)),
        (None, None) => NodeView::Operator(op),
    }
}

/// An integral sign with its lower and upper bound: both, one of them, or the
/// bare sign.
pub open spec fn with_bounds(op: char, sub: Option<NodeView>, sup: Option<NodeView>) -> NodeView {
    match (sub, sup) {
        (Some(b), Some(p)) => NodeView::SubSup {
            target: Box::new(NodeView::Operator(op)),
            sub: Box::new(b),
            sup: Box::new(p),
        },
        (Some(b), None) => NodeView::Subscript(Box::new(NodeView::Operator(op)), Box::new(b)),
        (None, Some(p)) => NodeView::Superscript(Box::new(NodeView::Operator(op)), Box::new(p)),
        (None, None) => NodeView::Operator(op),
    }
}

/// The cells of a table whose body was read as the node `body`.
pub open spec fn cells_of(body: NodeView) -> Seq<NodeView> {
    match body {
        NodeView::Row(cells) => cells,
        _ => seq![body],
    }
}

/// How the columns of the environment `name` are aligned.
pub open spec fn alignment_of(name: Seq<char>) -> ColumnAlign {
    if name == "align"@ {
        ColumnAlign::Left
    } else {
        ColumnAlign::Center
    }
}

/// The environment `name` around `table`: the table alone, the table between
/// the delimiters of the environment, or an error where the name is unknown.
pub open spec fn environment(name: Seq<char>, table: NodeView) -> Result<NodeView, ErrorView> {
    if name == "matrix"@ || name == "align"@ {
        Ok(table)
    } else if name == "pmatrix"@ {
        Ok(NodeView::Fenced { open: "("@, close: ")"@, content: Box::new(table) })
    } else if name == "bmatrix"@ {
        Ok(NodeView::Fenced { open: "["@, close: "]"@, content: Box::new(table) })
    } else if name == "vmatrix"@ {
        Ok(NodeView::Fenced { open: "|"@, close: "|"@, content: Box::new(table) })
    } else {
        Err(ErrorView::UnknownEnvironment(name))
    }
}

/// A node with the prime that follows it, if one does.
pub open spec fn primed(node: NodeView, s: ParserView) -> (NodeView, ParserView) {
    if s.peek == TokenView::Operator('\'') {
        (
            NodeView::Superscript(Box::new(node), Box::new(NodeView::Operator('′'))),
            s.advance(),
        )
    } else {
        (node, s)
    }
}

/// The group that the current token opens: the nodes up to the token `end`,
/// as one node. The parser is left on `end`.
pub open spec fn parsed_group(s: ParserView, end: TokenView) -> Outcome
    decreases s.rest(), 0nat,
{
    let first = s.advance();
    if first.cur is EOF {
        Err(ErrorView::UnexpectedToken { expected: end, got: first.cur })
    } else {
        proof {
            lemma_advance(s);
        }
        match parsed_items(first, end) {
            Ok((nodes, last)) => Ok((grouped(nodes), last)),
            Err(e) => Err(e),
        }
    }
}

/// The nodes from the current token up to the token `end`, which must come
/// before the input ends.
pub open spec fn parsed_items(s: ParserView, end: TokenView) -> Result<
    (Seq<NodeView>, ParserView),
    ErrorView,
>
    decreases s.rest(), 5nat,
{
    if s.cur is EOF {
        Err(ErrorView::UnexpectedToken { expected: end, got: s.cur })
    } else if s.cur == end {
        Ok((Seq::empty(), s))
    } else {
        match parsed_node(s) {
            Ok((node, after)) => {
                proof {
                    lemma_advance(s);
                    lemma_advance(s.onward(after));
                }
                match parsed_items(s.onward(after).advance(), end) {
                    Ok((nodes, last)) => Ok((seq![node] + nodes, last)),
                    Err(e) => Err(e),
                }
            },
            Err(e) => Err(e),
        }
    }
}

/// One node with what is attached to it: a subscript or a superscript, which
/// is a node of the same kind again.
pub open spec fn parsed_node(s: ParserView) -> Outcome
    decreases s.rest(), 4nat,
{
    match parsed_single_node(s) {
        Ok((left, after)) => {
            let a = s.onward(after);
            proof {
                lemma_advance(a);
                lemma_advance(a.advance());
            }
            match a.peek {
                TokenView::Underscore => match parsed_node(a.advance().advance()) {
                    Ok((right, last)) => Ok(
                        (NodeView::Subscript(Box::new(left), Box::new(right)), last),
                    ),
                    Err(e) => Err(e),
                },
                TokenView::Circumflex => match parsed_node(a.advance().advance()) {
                    Ok((right, last)) => Ok(
                        (NodeView::Superscript(Box::new(left), Box::new(right)), last),
                    ),
                    Err(e) => Err(e),
                },
                _ => Ok((left, a)),
            }
        },
        Err(e) => Err(e),
    }
}

/// One node without regard to a subscript or superscript behind it, but with
/// the prime that follows it.
pub open spec fn parsed_single_node(s: ParserView) -> Outcome
    decreases s.rest(), 3nat,
{
    match parsed_atom(s) {
        Ok((node, after)) => Ok(primed(node, after)),
        Err(e) => Err(e),
    }
}

/// What is below and what is above the operator on which the parser stands:
/// a subscript and a superscript behind it, in either order, each one atom.
pub open spec fn parsed_scripts(s: ParserView) -> Result<
    (Option<NodeView>, Option<NodeView>, ParserView),
    ErrorView,
>
    decreases s.rest(), 1nat,
{
    proof {
        lemma_advance(s);
        lemma_advance(s.advance());
    }
    match s.peek {
        TokenView::Underscore => match parsed_single_node(s.advance().advance()) {
            Ok((sub, after)) => {
                let a = s.advance().advance().onward(after);
                proof {
                    lemma_advance(a);
                    lemma_advance(a.advance());
                }
                if a.peek is Circumflex {
                    match parsed_single_node(a.advance().advance()) {
                        Ok((sup, last)) => Ok((Some(sub), Some(sup), last)),
                        Err(e) => Err(e),
                    }
                } else {
                    Ok((Some(sub), None, a))
                }
            },
            Err(e) => Err(e),
        },
        TokenView::Circumflex => match parsed_single_node(s.advance().advance()) {
            Ok((sup, after)) => {
                let a = s.advance().advance().onward(after);
                proof {
                    lemma_advance(a);
                    lemma_advance(a.advance());
                }
                if a.peek is Underscore {
                    match parsed_single_node(a.advance().advance()) {
                        Ok((sub, last)) => Ok((Some(sub), Some(sup), last)),
                        Err(e) => Err(e),
                    }
                } else {
                    Ok((None, Some(sup), a))
                }
            },
            Err(e) => Err(e),
        },
        _ => Ok((None, None, s)),
    }
}

/// The root whose radicand starts at the current token, with its degree in
/// brackets before it where there is one.
pub open spec fn parsed_root(s: ParserView) -> Outcome
    decreases s.rest(), 6nat,
{
    if s.cur == TokenView::Paren("["@) {
        match parsed_group(s, TokenView::Paren("]"@)) {
            Ok((degree, after)) => {
                proof {
                    lemma_advance(s.onward(after));
                }
                match parsed_node(s.onward(after).advance()) {
                    Ok((content, last)) => Ok(
                        (NodeView::Sqrt(Some(Box::new(degree)), Box::new(content)), last),
                    ),
                    Err(e) => Err(e),
                }
            },
            Err(e) => Err(e),
        }
    } else {
        match parsed_node(s) {
            Ok((content, last)) => Ok((NodeView::Sqrt(None, Box::new(content)), last)),
            Err(e) => Err(e),
        }
    }
}

/// Two nodes, the first at the current token, the second one token behind
/// the first.
pub open spec fn parsed_pair(s: ParserView) -> Result<
    (NodeView, NodeView, ParserView),
    ErrorView,
>
    decreases s.rest(), 6nat,
{
    match parsed_node(s) {
        Ok((first, after)) => {
            proof {
                lemma_advance(s.onward(after));
            }
            match parsed_node(s.onward(after).advance()) {
                Ok((second, last)) => Ok((first, second, last)),
                Err(e) => Err(e),
            }
        },
        Err(e) => Err(e),
    }
}

/// The atom at the current token, with the brace `brace` above it (`above`)
/// or below it, and with the label of the brace where one follows: behind a
/// circumflex for a brace above, behind an underscore for one below.
pub open spec fn parsed_brace(s: ParserView, brace: char, above: bool) -> Outcome
    decreases s.rest(), 6nat,
{
    match parsed_single_node(s) {
        Ok((target, after)) => {
            let a = s.onward(after);
            proof {
                lemma_advance(a);
                lemma_advance(a.advance());
            }
            if (above && a.peek is Circumflex) || (!above && a.peek is Underscore) {
                match parsed_single_node(a.advance().advance()) {
                    Ok((label, last)) => Ok((braced(target, brace, Some(label), above), last)),
                    Err(e) => Err(e),
                }
            } else {
                Ok((braced(target, brace, None, above), a))
            }
        },
        Err(e) => Err(e),
    }
}

/// `target` with the brace `brace` above or below it, and the label of the
/// brace beyond the brace.
pub open spec fn braced(target: NodeView, brace: char, label: Option<NodeView>, above: bool) -> NodeView {
    let brace = NodeView::Operator(brace);
    if above {
        let over = match label {
            Some(l) => NodeView::Overset { over: Box::new(l), target: Box::new(brace) },
            None => brace,
        };
        NodeView::Overset { over: Box::new(over), target: Box::new(target) }
    } else {
        let under = match label {
            Some(l) => NodeView::Underset { under: Box::new(l), target: Box::new(brace) },
            None => brace,
        };
        NodeView::Underset { under: Box::new(under), target: Box::new(target) }
    }
}

/// What stands between `\left` and `\right`, with the two delimiters. The
/// current token is the opening delimiter.
pub open spec fn parsed_fence(s: ParserView) -> Outcome
    decreases s.rest(), 6nat,
{
    match delimiter_of(s.cur, TokenView::Left) {
        Ok(open) => match parsed_group(s, TokenView::Right) {
            Ok((content, after)) => {
                let last = s.onward(after).advance();
                match delimiter_of(last.cur, TokenView::Right) {
                    Ok(close) => Ok(
                        (NodeView::Fenced { open, close, content: Box::new(content) }, last),
                    ),
                    Err(e) => Err(e),
                }
            },
            Err(e) => Err(e),
        },
        Err(e) => Err(e),
    }
}

/// The delimiter behind `\middle`, which has to be an operator.
pub open spec fn parsed_middle(s: ParserView) -> Outcome
    decreases s.rest(), 6nat,
{
    match parsed_single_node(s) {
        Ok((NodeView::Operator(op), last)) => Ok((NodeView::StrechedOp(true, seq![op]), last)),
        Ok((NodeView::OtherOperator(op), last)) => Ok((NodeView::StrechedOp(true, op), last)),
        Ok(_) => Err(ErrorView::MissingParensethis { location: TokenView::Middle, got: s.cur }),
        Err(e) => Err(e),
    }
}

/// The environment whose name starts at the current token, which is the
/// brace before the name: the name, the body up to `\end`, and the name again.
pub open spec fn parsed_environment(s: ParserView) -> Outcome
    decreases s.rest(), 6nat,
{
    let (name, body_start) = parsed_text(s);
    proof {
        lemma_parsed_text(s);
    }
    match parsed_group(body_start, TokenView::End) {
        Ok((body, after)) => {
            let table = NodeView::Matrix(cells_of(body), alignment_of(name));
            match environment(name, table) {
                Ok(node) => Ok((node, parsed_text(body_start.onward(after).advance()).1)),
                Err(e) => Err(e),
            }
        },
        Err(e) => Err(e),
    }
}

/// The node that starts at the current token, by the kind of the token.
pub open spec fn parsed_atom(s: ParserView) -> Outcome
    decreases s.rest(), 2nat,
{
    proof {
        lemma_advance(s);
        lemma_advance(s.advance());
    }
    match s.cur {
        TokenView::Number(number) => Ok((NodeView::Number(number), s)),
        TokenView::Letter(x, v) => Ok((NodeView::Letter(x, v), s)),
        TokenView::Operator(op) => Ok((NodeView::Operator(op), s)),
        TokenView::Function(fun) => Ok((NodeView::Function(fun, None), s)),
        TokenView::Space(width) => Ok((NodeView::Space(width), s)),
        TokenView::Sqrt => parsed_root(s.advance()),
        TokenView::Frac => match parsed_pair(s.advance()) {
            Ok((numerator, denominator, last)) => Ok(
                (
                    NodeView::Frac(
                        Box::new(numerator),
                        Box::new(denominator),
                        LineThickness::Medium,
                    ),
                    last,
                ),
            ),
            Err(e) => Err(e),
        },
        TokenView::Binom(display) => match parsed_pair(s.advance()) {
            Ok((numerator, denominator, last)) => Ok(
                (binomial(numerator, denominator, display), last),
            ),
            Err(e) => Err(e),
        },
        TokenView::Over(op, acc) => match parsed_node(s.advance()) {
            Ok((target, last)) => Ok((NodeView::OverOp(op, acc, Box::new(target)), last)),
            Err(e) => Err(e),
        },
        TokenView::Under(op, acc) => match parsed_node(s.advance()) {
            Ok((target, last)) => Ok((NodeView::UnderOp(op, acc, Box::new(target)), last)),
            Err(e) => Err(e),
        },
        TokenView::Overset => match parsed_pair(s.advance()) {
            Ok((over, target, last)) => Ok(
                (NodeView::Overset { over: Box::new(over), target: Box::new(target) }, last),
            ),
            Err(e) => Err(e),
        },
        TokenView::Underset => match parsed_pair(s.advance()) {
            Ok((under, target, last)) => Ok(
                (NodeView::Underset { under: Box::new(under), target: Box::new(target) }, last),
            ),
            Err(e) => Err(e),
        },
        TokenView::Overbrace(x) => parsed_brace(s.advance(), x, true),
        TokenView::Underbrace(x) => parsed_brace(s.advance(), x, false),
        TokenView::BigOp(op) => match parsed_scripts(s) {
            Ok((under, over, last)) => Ok((with_limits(op, under, over), last)),
            Err(e) => Err(e),
        },
        TokenView::Lim(fun) => {
            let lim = NodeView::Function(fun, None);
            if s.peek is Underscore {
                match parsed_single_node(s.advance().advance()) {
                    Ok((under, last)) => Ok(
                        (NodeView::Under(Box::new(lim), Box::new(under)), last),
                    ),
                    Err(e) => Err(e),
                }
            } else {
                Ok((lim, s))
            }
        },
        TokenView::Slashed => match parsed_node(s.advance().advance()) {
            Ok((node, after)) => Ok(
                (NodeView::Slashed(Box::new(node)), s.advance().advance().onward(after).advance()),
            ),
            Err(e) => Err(e),
        },
        TokenView::Style(var) => match parsed_node(s.advance()) {
            Ok((node, last)) => Ok((node.flooded(var), last)),
            Err(e) => Err(e),
        },
        TokenView::Integral(op) => match parsed_scripts(s) {
            Ok((sub, sup, last)) => Ok((with_bounds(op, sub, sup), last)),
            Err(e) => Err(e),
        },
        TokenView::LBrace => parsed_group(s, TokenView::RBrace),
        TokenView::Paren(paren) => Ok((NodeView::OtherOperator(paren), s)),
        TokenView::Left => parsed_fence(s.advance()),
        TokenView::Middle => parsed_middle(s.advance()),
        TokenView::Big(size) => match s.advance().cur {
            TokenView::Paren(paren) => Ok((NodeView::SizedParen { size, paren }, s.advance())),
            other => Err(
                ErrorView::UnexpectedToken { expected: TokenView::Paren(""@), got: other },
            ),
        },
        TokenView::Begin => parsed_environment(s.advance()),
        TokenView::OperatorName => {
            let (name, last) = parsed_text(s.advance());
            Ok((NodeView::Function(name, None), last))
        },
        TokenView::Text => {
            let (text, last) = parsed_text(s.advance());
            Ok((NodeView::Text(text), last))
        },
        TokenView::Ampersand => Ok((NodeView::Ampersand, s)),
        TokenView::NewLine => Ok((NodeView::NewLine, s)),
        _ => Ok((NodeView::Undefined(s.cur.description()), s)),
    }
}

/// The nodes of a formula: one node after the other, up to the first token
/// that is the end of the input.
pub open spec fn parsed(s: ParserView) -> Result<Seq<NodeView>, ErrorView>
    decreases s.rest(),
{
    if s.cur is EOF {
        Ok(Seq::empty())
    } else {
        match parsed_node(s) {
            Ok((node, after)) => {
                proof {
                    lemma_advance(s);
                    lemma_advance(s.onward(after));
                }
                match parsed(s.onward(after).advance()) {
                    Ok(nodes) => Ok(seq![node] + nodes),
                    Err(e) => Err(e),
                }
            },
            Err(e) => Err(e),
        }
    }
}

/// Reading never goes back: each of the three ways to read a node leaves the parser
/// in a state that the state before leads to. So [`ParserView::onward`], which
/// the definitions apply to each state that they read on from, changes none.
pub proof fn lemma_parsed_leads(s: ParserView, end: TokenView)
    ensures
        parsed_node(s) matches Ok((_, last)) ==> s.leads_to(last) && s.onward(last) == last,
        parsed_single_node(s) matches Ok((_, last)) ==> s.leads_to(last) && s.onward(last) == last,
        parsed_group(s, end) matches Ok((_, last)) ==> s.leads_to(last) && s.onward(last) == last,
{
    lemma_node_leads(s);
    lemma_single_node_leads(s);
    lemma_group_leads(s, end);
}

proof fn lemma_group_leads(s: ParserView, end: TokenView)
    ensures
        parsed_group(s, end) matches Ok((_, last)) ==> s.leads_to(last),
    decreases s.rest(), 0nat,
{
    lemma_advance(s);
    if !(s.advance().cur is EOF) {
        lemma_items_leads(s.advance(), end);
    }
}

proof fn lemma_items_leads(s: ParserView, end: TokenView)
    ensures
        parsed_items(s, end) matches Ok((_, last)) ==> s.leads_to(last),
    decreases s.rest(), 5nat,
{
    if !(s.cur is EOF) && s.cur != end {
        match parsed_node(s) {
            Ok((node, after)) => {
                lemma_advance(s);
                lemma_advance(s.onward(after));
                lemma_items_leads(s.onward(after).advance(), end);
            },
            Err(e) => {},
        }
    }
}

proof fn lemma_node_leads(s: ParserView)
    ensures
        parsed_node(s) matches Ok((_, last)) ==> s.leads_to(last),
    decreases s.rest(), 4nat,
{
    match parsed_single_node(s) {
        Ok((left, after)) => {
            let a = s.onward(after);
            lemma_advance(a);
            lemma_advance(a.advance());
            if a.peek is Underscore || a.peek is Circumflex {
                lemma_node_leads(a.advance().advance());
            }
        },
        Err(e) => {},
    }
}

proof fn lemma_single_node_leads(s: ParserView)
    ensures
        parsed_single_node(s) matches Ok((_, last)) ==> s.leads_to(last),
    decreases s.rest(), 3nat,
{
    lemma_atom_leads(s);
    match parsed_atom(s) {
        Ok((node, after)) => {
            lemma_advance(after);
        },
        Err(e) => {},
    }
}

proof fn lemma_scripts_leads(s: ParserView)
    ensures
        parsed_scripts(s) matches Ok((_, _, last)) ==> s.leads_to(last),
    decreases s.rest(), 1nat,
{
    lemma_advance(s);
    lemma_advance(s.advance());
    if s.peek is Underscore || s.peek is Circumflex {
        match parsed_single_node(s.advance().advance()) {
            Ok((first, after)) => {
                let a = s.advance().advance().onward(after);
                lemma_advance(a);
                lemma_advance(a.advance());
                if (s.peek is Underscore && a.peek is Circumflex) || (s.peek is Circumflex
                    && a.peek is Underscore) {
                    lemma_single_node_leads(a.advance().advance());
                }
            },
            Err(e) => {},
        }
    }
}

proof fn lemma_root_leads(s: ParserView)
    ensures
        parsed_root(s) matches Ok((_, last)) ==> s.leads_to(last),
    decreases s.rest(), 6nat,
{
    if s.cur == TokenView::Paren("["@) {
        match parsed_group(s, TokenView::Paren("]"@)) {
            Ok((degree, after)) => {
                lemma_advance(s.onward(after));
                lemma_node_leads(s.onward(after).advance());
            },
            Err(e) => {},
        }
    } else {
        lemma_node_leads(s);
    }
}

proof fn lemma_pair_leads(s: ParserView)
    ensures
        parsed_pair(s) matches Ok((_, _, last)) ==> s.leads_to(last),
    decreases s.rest(), 6nat,
{
    match parsed_node(s) {
        Ok((first, after)) => {
            lemma_advance(s.onward(after));
            lemma_node_leads(s.onward(after).advance());
        },
        Err(e) => {},
    }
}

proof fn lemma_brace_leads(s: ParserView, brace: char, above: bool)
    ensures
        parsed_brace(s, brace, above) matches Ok((_, last)) ==> s.leads_to(last),
    decreases s.rest(), 6nat,
{
    match parsed_single_node(s) {
        Ok((target, after)) => {
            let a = s.onward(after);
            lemma_advance(a);
            lemma_advance(a.advance());
            if (above && a.peek is Circumflex) || (!above && a.peek is Underscore) {
                lemma_single_node_leads(a.advance().advance());
            }
        },
        Err(e) => {},
    }
}

proof fn lemma_fence_leads(s: ParserView)
    ensures
        parsed_fence(s) matches Ok((_, last)) ==> s.leads_to(last),
    decreases s.rest(), 6nat,
{
    match parsed_group(s, TokenView::Right) {
        Ok((content, after)) => {
            lemma_advance(s.onward(after));
        },
        Err(e) => {},
    }
}

proof fn lemma_middle_leads(s: ParserView)
    ensures
        parsed_middle(s) matches Ok((_, last)) ==> s.leads_to(last),
    decreases s.rest(), 6nat,
{
    lemma_single_node_leads(s);
}

proof fn lemma_environment_leads(s: ParserView)
    ensures
        parsed_environment(s) matches Ok((_, last)) ==> s.leads_to(last),
    decreases s.rest(), 6nat,
{
    let (name, body_start) = parsed_text(s);
    lemma_parsed_text(s);
    match parsed_group(body_start, TokenView::End) {
        Ok((body, after)) => {
            lemma_advance(body_start.onward(after));
            lemma_parsed_text(body_start.onward(after).advance());
        },
        Err(e) => {},
    }
}

proof fn lemma_atom_leads(s: ParserView)
    ensures
        parsed_atom(s) matches Ok((_, last)) ==> s.leads_to(last),
    decreases s.rest(), 2nat,
{
    lemma_advance(s);
    lemma_advance(s.advance());
    match s.cur {
        TokenView::Sqrt => lemma_root_leads(s.advance()),
        TokenView::Frac | TokenView::Binom(_) | TokenView::Overset | TokenView::Underset => {
            lemma_pair_leads(s.advance())
        },
        TokenView::Over(_, _) | TokenView::Under(_, _) | TokenView::Style(_) => {
            lemma_node_leads(s.advance())
        },
        TokenView::Overbrace(x) => lemma_brace_leads(s.advance(), x, true),
        TokenView::Underbrace(x) => lemma_brace_leads(s.advance(), x, false),
        TokenView::BigOp(_) | TokenView::Integral(_) => lemma_scripts_leads(s),
        TokenView::Lim(_) => {
            if s.peek is Underscore {
                lemma_single_node_leads(s.advance().advance());
            }
        },
        TokenView::Slashed => {
            match parsed_node(s.advance().advance()) {
                Ok((node, after)) => {
                    lemma_advance(s.advance().advance().onward(after));
                },
                Err(e) => {},
            }
        },
        TokenView::LBrace => lemma_group_leads(s, TokenView::RBrace),
        TokenView::Left => lemma_fence_leads(s.advance()),
        TokenView::Middle => lemma_middle_leads(s.advance()),
        TokenView::Begin => lemma_environment_leads(s.advance()),
        TokenView::OperatorName | TokenView::Text => lemma_parsed_text(s.advance()),
        _ => {},
    }
}

/// Whether `r`, with the parser left in the state `end`, is what `expected`
/// says: the same node and the same state, or the same error.
pub open spec fn parsed_as(r: Result<Node, LatexError>, end: ParserView, expected: Outcome) -> bool {
    match expected {
        Ok((node, last)) => r is Ok && r->Ok_0@ == node && end == last,
        Err(e) => r is Err && r->Err_0@ == e,
    }
}

/// The view of a node that may be missing.
spec fn option_view(node: Option<Node>) -> Option<NodeView> {
    match node {
        Some(n) => Some(n@),
        None => None,
    }
}

/// `nodes` before the nodes of `r`.
spec fn prepended(
    nodes: Seq<NodeView>,
    r: Result<(Seq<NodeView>, ParserView), ErrorView>,
) -> Result<(Seq<NodeView>, ParserView), ErrorView> {
    match r {
        Ok((more, last)) => Ok((nodes + more, last)),
        Err(e) => Err(e),
    }
}

/// `nodes` before the nodes of `r`.
spec fn prepended_all(nodes: Seq<NodeView>, r: Result<Seq<NodeView>, ErrorView>) -> Result<
    Seq<NodeView>,
    ErrorView,
> {
    match r {
        Ok(more) => Ok(nodes + more),
        Err(e) => Err(e),
    }
}

proof fn lemma_prepended(nodes: Seq<NodeView>, node: NodeView, r: Result<(Seq<NodeView>, ParserView), ErrorView>)
    ensures
        prepended(Seq::empty(), r) == r,
        prepended(nodes.push(node), r) == prepended(nodes, prepended(seq![node], r)),
        prepended(nodes, Ok((Seq::empty(), r->Ok_0.1))) == Ok::<_, ErrorView>((nodes, r->Ok_0.1)),
{
    match r {
        Ok((more, last)) => {
            assert(Seq::<NodeView>::empty() + more =~= more);
            assert(nodes.push(node) + more =~= nodes + (seq![node] + more));
        },
        Err(e) => {},
    }
    assert(nodes + Seq::<NodeView>::empty() =~= nodes);
}

proof fn lemma_prepended_all(nodes: Seq<NodeView>, node: NodeView, r: Result<Seq<NodeView>, ErrorView>)
    ensures
        prepended_all(Seq::empty(), r) == r,
        prepended_all(nodes.push(node), r) == prepended_all(nodes, prepended_all(seq![node], r)),
        prepended_all(nodes, Ok(Seq::empty())) == Ok::<_, ErrorView>(nodes),
{
    match r {
        Ok(more) => {
            assert(Seq::<NodeView>::empty() + more =~= more);
            assert(nodes.push(node) + more =~= nodes + (seq![node] + more));
        },
        Err(e) => {},
    }
    assert(nodes + Seq::<NodeView>::empty() =~= nodes);
}

proof fn lemma_nodes_view_push(nodes: Seq<Node>, node: Node)
    ensures
        nodes_view(nodes.push(node)) == nodes_view(nodes).push(node@),
        nodes_view(Seq::empty()) == Seq::<NodeView>::empty(),
        nodes_view(seq![node]) == seq![node@],
{
    assert(nodes_view(nodes.push(node)) =~= nodes_view(nodes).push(node@));
    assert(nodes_view(Seq::empty()) =~= Seq::<NodeView>::empty());
    assert(nodes_view(seq![node]) =~= seq![node@]);
}

/// The binomial coefficient of `numerator` over `denominator`.
fn binomial_node(numerator: Node, denominator: Node, display: Option<DisplayStyle>) -> (r: Node)
    ensures
        r@ == binomial(numerator@, denominator@, display),
{
    proof {
        reveal_with_fuel(node_view, 3);
    }
    let binom = Node::Fenced {
        open: "(",
        close: ")",
        content: Box::new(
            Node::Frac(Box::new(numerator), Box::new(denominator), LineThickness::Length(0)),
        ),
    };
    match display {
        Some(d) => {
            let ghost inner = binom@;
            let mut row: Vec<Node> = Vec::new();
            proof {
                lemma_nodes_view_push(row@, binom);
            }
            row.push(binom);
            assert(nodes_view(row@) =~= seq![inner]);
            Node::Style(Some(d), Box::new(Node::Row(row)))
        },
        None => binom,
    }
}

/// The operator `op` with what stands below and above it.
fn limits_node(op: char, under: Option<Node>, over: Option<Node>) -> (r: Node)
    ensures
        r@ == with_limits(op, option_view(under), option_view(over)),
{
    proof {
        reveal_with_fuel(node_view, 3);
    }
    match (under, over) {
        (Some(u), Some(o)) => Node::UnderOver {
            target: Box::new(Node::Operator(op)),
            under: Box::new(u),
            over: Box::new(o),
        },
        (Some(u), None) => Node::Under(Box::new(Node::Operator(op)), Box::new(u)),
        (None, Some(o)) => Node::OverOp(op, Accent::False, Box::new(o)),
        (None, None) => Node::Operator(op),
    }
}

/// The integral sign `op` with its lower and upper bound.
fn bounds_node(op: char, sub: Option<Node>, sup: Option<Node>) -> (r: Node)
    ensures
        r@ == with_bounds(op, option_view(sub), option_view(sup)),
{
    proof {
        reveal_with_fuel(node_view, 3);
    }
    match (sub, sup) {
        (Some(b), Some(p)) => Node::SubSup {
            target: Box::new(Node::Operator(op)),
            sub: Box::new(b),
            sup: Box::new(p),
        },
        (Some(b), None) => Node::Subscript(Box::new(Node::Operator(op)), Box::new(b)),
        (None, Some(p)) => Node::Superscript(Box::new(Node::Operator(op)), Box::new(p)),
        (None, None) => Node::Operator(op),
    }
}

/// `target` with the brace `brace` above or below it, and the label of the
/// brace beyond the brace.
fn braced_node(target: Node, brace: char, label: Option<Node>, above: bool) -> (r: Node)
    ensures
        r@ == braced(target@, brace, option_view(label), above),
{
    proof {
        reveal_with_fuel(node_view, 3);
    }
    let brace = Node::Operator(brace);
    if above {
        let over = match label {
            Some(l) => Node::Overset { over: Box::new(l), target: Box::new(brace) },
            None => brace,
        };
        Node::Overset { over: Box::new(over), target: Box::new(target) }
    } else {
        let under = match label {
            Some(l) => Node::Underset { under: Box::new(l), target: Box::new(brace) },
            None => brace,
        };
        Node::Underset { under: Box::new(under), target: Box::new(target) }
    }
}

/// The delimiter that `token` names behind `location`.
fn delimiter(token: &Token, location: Token) -> (r: Result<&'static str, LatexError>)
    ensures
        match delimiter_of(token@, location@) {
            Ok(text) => r is Ok && r->Ok_0@ == text,
            Err(e) => r is Err && r->Err_0@ == e,
        },
{
    match token {
        Token::Paren(text) => Ok(text),
        Token::Operator(c) => {
            if *c == '.' {
                proof {
                    reveal_strlit("");
                }
                assert(""@ =~= Seq::<char>::empty());
                Ok("")
            } else {
                Err(LatexError::MissingParensethis { location, got: token.clone() })
            }
        },
        _ => Err(LatexError::MissingParensethis { location, got: token.clone() }),
    }
}

/// The environment `name` around `table`.
fn environment_node(name: String, table: Node) -> (r: Result<Node, LatexError>)
    ensures
        match environment(name@, table@) {
            Ok(node) => r is Ok && r->Ok_0@ == node,
            Err(e) => r is Err && r->Err_0@ == e,
        },
{
    if same_text(name.as_str(), "matrix") || same_text(name.as_str(), "align") {
        Ok(table)
    } else if same_text(name.as_str(), "pmatrix") {
        Ok(Node::Fenced { open: "(", close: ")", content: Box::new(table) })
    } else if same_text(name.as_str(), "bmatrix") {
        Ok(Node::Fenced { open: "[", close: "]", content: Box::new(table) })
    } else if same_text(name.as_str(), "vmatrix") {
        Ok(Node::Fenced { open: "|", close: "|", content: Box::new(table) })
    } else {
        Err(LatexError::UnknownEnvironment(name))
    }
}

/// The parser: a lexer and the two tokens read last.
#[derive(Debug)]
pub struct Parser {
    l: Lexer,
    cur_token: Token,
    peek_token: Token,
}

impl View for Parser {
    type V = ParserView;

    closed spec fn view(&self) -> ParserView {
        ParserView {
            input: self.l.input(),
            pos: self.l.pos(),
            cur: self.cur_token@,
            peek: self.peek_token@,
        }
    }
}

impl Parser {
    /// A parser that reads on where `l` stands, with the first token of the
    /// rest as its current token.
    pub fn new(l: Lexer) -> (p: Parser)
        ensures
            p@ == ParserView::at(l.input(), l.pos()),
    {
        let mut p = Parser { l, cur_token: Token::Illegal('\0'), peek_token: Token::Illegal('\0') };
        p.next_token();
        p.next_token();
        p
    }

    /// Moves on by one token.
    pub fn next_token(&mut self)
        ensures
            final(self)@ == old(self)@.advance(),
            old(self)@.leads_to(final(self)@),
            !(old(self)@.cur is EOF) || !(old(self)@.peek is EOF) ==> final(self)@.rest() < old(
                self,
            )@.rest(),
    {
        proof {
            reveal(ParserView::advance);
            lemma_advance(self@);
        }
        let cur = self.peek_token.clone();
        let peek = if cur.acts_on_a_digit() && char_is_digit(self.l.cur()) {
            let digit = self.l.read_char();
            let mut number = String::new();
            number.push(digit);
            assert(number@ =~= seq![digit]);
            Token::Number(number)
        } else {
            self.l.next_token()
        };
        self.cur_token = cur;
        self.peek_token = peek;
    }

    /// Whether the current token is `expected_token`.
    pub fn cur_token_is(&self, expected_token: &Token) -> (r: bool)
        ensures
            r == (self@.cur == expected_token@),
    {
        self.cur_token == *expected_token
    }

    /// Whether the token behind the current one is `expected_token`.
    pub fn peek_token_is(&self, expected_token: Token) -> (r: bool)
        ensures
            r == (self@.peek == expected_token@),
    {
        self.peek_token == expected_token
    }

    /// Reads a text in braces; the closing brace is left as the current token.
    pub fn parse_text(&mut self) -> (text: String)
        ensures
            (text@, final(self)@) == parsed_text(old(self)@),
            old(self)@.leads_to(final(self)@),
            !(old(self)@.cur is EOF) ==> final(self)@.rest() < old(self)@.rest(),
    {
        proof {
            lemma_parsed_text(self@);
        }
        self.next_token();
        let ghost start = self@;
        let mut text = String::new();
        loop
            invariant
                letters_from(start) == ({
                    let (more, end) = letters_from(self@);
                    (text@ + more, end)
                }),
            ensures
                (text@, self@) == letters_from(start),
            decreases self@.rest(),
        {
            match &self.cur_token {
                Token::Letter(x, _) => {
                    let ghost before = text@;
                    let ghost more = letters_from(self@.advance()).0;
                    text.push(*x);
                    assert(text@ + more =~= before + (seq![*x] + more));
                },
                _ => {
                    assert(text@ + Seq::<char>::empty() =~= text@);
                    break ;
                },
            }
            self.next_token();
        }
        text
    }

    /// Reads the whole formula: its nodes, one after the other.
    pub fn parse(&mut self) -> (r: Result<Vec<Node>, LatexError>)
        ensures
            match parsed(old(self)@) {
                Ok(nodes) => r is Ok && nodes_view(r->Ok_0@) == nodes,
                Err(e) => r is Err && r->Err_0@ == e,
            },
            r is Ok ==> final(self)@.cur is EOF,
    {
        let mut nodes: Vec<Node> = Vec::new();
        proof {
            lemma_nodes_view_push(nodes@, Node::Ampersand);
            lemma_prepended_all(Seq::empty(), NodeView::Ampersand, parsed(self@));
        }
        while !self.cur_token_is(&Token::EOF)
            invariant
                prepended_all(nodes_view(nodes@), parsed(self@)) == parsed(old(self)@),
            decreases self@.rest(),
        {
            let ghost before = self@;
            let node = self.parse_node()?;
            proof {
                lemma_nodes_view_push(nodes@, node);
                lemma_prepended_all(nodes_view(nodes@), node@, parsed(self@.advance()));
            }
            nodes.push(node);
            self.next_token();
        }
        proof {
            lemma_prepended_all(nodes_view(nodes@), NodeView::Ampersand, parsed(self@));
        }
        Ok(nodes)
    }

    /// Reads one node with the subscript or superscript that is attached to it.
    pub fn parse_node(&mut self) -> (r: Result<Node, LatexError>)
        ensures
            parsed_as(r, final(self)@, parsed_node(old(self)@)),
            r is Ok ==> old(self)@.leads_to(final(self)@),
        decreases old(self)@.rest(), 4nat,
    {
        let left = self.parse_single_node()?;
        if self.peek_token_is(Token::Underscore) {
            self.next_token();
            self.next_token();
            let right = self.parse_node()?;
            Ok(Node::Subscript(Box::new(left), Box::new(right)))
        } else if self.peek_token_is(Token::Circumflex) {
            self.next_token();
            self.next_token();
            let right = self.parse_node()?;
            Ok(Node::Superscript(Box::new(left), Box::new(right)))
        } else {
            Ok(left)
        }
    }

    /// Reads one node without regard to a subscript or superscript behind it.
    pub fn parse_single_node(&mut self) -> (r: Result<Node, LatexError>)
        ensures
            parsed_as(r, final(self)@, parsed_single_node(old(self)@)),
            r is Ok ==> old(self)@.leads_to(final(self)@),
        decreases old(self)@.rest(), 3nat,
    {
        proof {
            reveal_with_fuel(node_view, 2);
        }
        let node = self.parse_atom()?;
        if self.peek_token_is(Token::Operator('\'')) {
            self.next_token();
            Ok(Node::Superscript(Box::new(node), Box::new(Node::Operator('′'))))
        } else {
            Ok(node)
        }
    }

    /// Reads the group that the current token opens, up to `end_token`.
    pub fn parse_group(&mut self, end_token: &Token) -> (r: Result<Node, LatexError>)
        ensures
            parsed_as(r, final(self)@, parsed_group(old(self)@, end_token@)),
            r is Ok ==> old(self)@.leads_to(final(self)@),
        decreases old(self)@.rest(), 0nat,
    {
        self.next_token();
        let ghost first = self@;
        let mut nodes: Vec<Node> = Vec::new();
        proof {
            lemma_nodes_view_push(nodes@, Node::Ampersand);
            lemma_prepended(Seq::empty(), NodeView::Ampersand, parsed_items(first, end_token@));
        }
        loop
            invariant
                prepended(nodes_view(nodes@), parsed_items(self@, end_token@)) == parsed_items(
                    first,
                    end_token@,
                ),
                first == old(self)@.advance(),
                old(self)@.leads_to(self@),
                !(self@.cur is EOF) ==> self@.rest() < old(self)@.rest(),
            ensures
                self@.cur == end_token@,
                !(self@.cur is EOF),
            decreases self@.rest(),
        {
            if self.cur_token_is(&Token::EOF) {
                return Err(
                    LatexError::UnexpectedToken {
                        expected: end_token.clone(),
                        got: self.cur_token.clone(),
                    },
                );
            }
            if self.cur_token_is(end_token) {
                break ;
            }
            let node = self.parse_node()?;
            proof {
                lemma_nodes_view_push(nodes@, node);
                lemma_prepended(
                    nodes_view(nodes@),
                    node@,
                    parsed_items(self@.advance(), end_token@),
                );
            }
            nodes.push(node);
            self.next_token();
        }
        proof {
            lemma_prepended(
                nodes_view(nodes@),
                NodeView::Ampersand,
                parsed_items(self@, end_token@),
            );
        }
        if nodes.len() == 1 {
            match nodes.pop() {
                Some(node) => Ok(node),
                None => Ok(Node::Row(nodes)),
            }
        } else {
            Ok(Node::Row(nodes))
        }
    }

    /// Reads what is below and above the operator on which the parser stands.
    fn parse_scripts(&mut self) -> (r: Result<(Option<Node>, Option<Node>), LatexError>)
        ensures
            match parsed_scripts(old(self)@) {
                Ok((below, above, last)) => r is Ok && option_view(r->Ok_0.0) == below
                    && option_view(r->Ok_0.1) == above && final(self)@ == last,
                Err(e) => r is Err && r->Err_0@ == e,
            },
            r is Ok ==> old(self)@.leads_to(final(self)@),
        decreases old(self)@.rest(), 1nat,
    {
        if self.peek_token_is(Token::Underscore) {
            self.next_token();
            self.next_token();
            let below = self.parse_single_node()?;
            if self.peek_token_is(Token::Circumflex) {
                self.next_token();
                self.next_token();
                let above = self.parse_single_node()?;
                Ok((Some(below), Some(above)))
            } else {
                Ok((Some(below), None))
            }
        } else if self.peek_token_is(Token::Circumflex) {
            self.next_token();
            self.next_token();
            let above = self.parse_single_node()?;
            if self.peek_token_is(Token::Underscore) {
                self.next_token();
                self.next_token();
                let below = self.parse_single_node()?;
                Ok((Some(below), Some(above)))
            } else {
                Ok((None, Some(above)))
            }
        } else {
            Ok((None, None))
        }
    }

    /// Reads a root: its degree in brackets, where there is one, and what
    /// stands under it.
    fn parse_root(&mut self) -> (r: Result<Node, LatexError>)
        ensures
            parsed_as(r, final(self)@, parsed_root(old(self)@)),
            r is Ok ==> old(self)@.leads_to(final(self)@),
        decreases old(self)@.rest(), 6nat,
    {
        if self.cur_token_is(&Token::Paren("[")) {
            let degree = self.parse_group(&Token::Paren("]"))?;
            self.next_token();
            let content = self.parse_node()?;
            Ok(Node::Sqrt(Some(Box::new(degree)), Box::new(content)))
        } else {
            let content = self.parse_node()?;
            Ok(Node::Sqrt(None, Box::new(content)))
        }
    }

    /// Reads two nodes, one token between them.
    fn parse_pair(&mut self) -> (r: Result<(Node, Node), LatexError>)
        ensures
            match parsed_pair(old(self)@) {
                Ok((first, second, last)) => r is Ok && r->Ok_0.0@ == first && r->Ok_0.1@
                    == second && final(self)@ == last,
                Err(e) => r is Err && r->Err_0@ == e,
            },
            r is Ok ==> old(self)@.leads_to(final(self)@),
        decreases old(self)@.rest(), 6nat,
    {
        let first = self.parse_node()?;
        self.next_token();
        let second = self.parse_node()?;
        Ok((first, second))
    }

    /// Reads an atom and the label of the brace above or below it.
    fn parse_brace(&mut self, brace: char, above: bool) -> (r: Result<Node, LatexError>)
        ensures
            parsed_as(r, final(self)@, parsed_brace(old(self)@, brace, above)),
            r is Ok ==> old(self)@.leads_to(final(self)@),
        decreases old(self)@.rest(), 6nat,
    {
        let target = self.parse_single_node()?;
        let labelled = if above {
            self.peek_token_is(Token::Circumflex)
        } else {
            self.peek_token_is(Token::Underscore)
        };
        if labelled {
            self.next_token();
            self.next_token();
            let label = self.parse_single_node()?;
            Ok(braced_node(target, brace, Some(label), above))
        } else {
            Ok(braced_node(target, brace, None, above))
        }
    }

    /// Reads what stands between `\left` and `\right`, with both delimiters.
    fn parse_fence(&mut self) -> (r: Result<Node, LatexError>)
        ensures
            parsed_as(r, final(self)@, parsed_fence(old(self)@)),
            r is Ok ==> old(self)@.leads_to(final(self)@),
        decreases old(self)@.rest(), 6nat,
    {
        let open = delimiter(&self.cur_token, Token::Left)?;
        let content = self.parse_group(&Token::Right)?;
        self.next_token();
        let close = delimiter(&self.cur_token, Token::Right)?;
        Ok(Node::Fenced { open, close, content: Box::new(content) })
    }

    /// Reads the delimiter behind `\middle`.
    fn parse_middle(&mut self) -> (r: Result<Node, LatexError>)
        ensures
            parsed_as(r, final(self)@, parsed_middle(old(self)@)),
            r is Ok ==> old(self)@.leads_to(final(self)@),
        decreases old(self)@.rest(), 6nat,
    {
        let got = self.cur_token.clone();
        match self.parse_single_node()? {
            Node::Operator(op) => {
                let mut text = String::new();
                text.push(op);
                assert(text@ =~= seq![op]);
                Ok(Node::StrechedOp(true, text))
            },
            Node::OtherOperator(op) => Ok(Node::StrechedOp(true, op.to_owned())),
            _ => Err(LatexError::MissingParensethis { location: Token::Middle, got }),
        }
    }

    /// Reads an environment: its name, its body up to `\end`, its name again.
    fn parse_environment(&mut self) -> (r: Result<Node, LatexError>)
        ensures
            parsed_as(r, final(self)@, parsed_environment(old(self)@)),
            r is Ok ==> old(self)@.leads_to(final(self)@),
        decreases old(self)@.rest(), 6nat,
    {
        let name = self.parse_text();
        let align = if same_text(name.as_str(), "align") {
            ColumnAlign::Left
        } else {
            ColumnAlign::Center
        };
        let body = self.parse_group(&Token::End)?;
        let cells = match body {
            Node::Row(cells) => cells,
            node => {
                let mut cells: Vec<Node> = Vec::new();
                proof {
                    lemma_nodes_view_push(cells@, node);
                }
                cells.push(node);
                cells
            },
        };
        let node = environment_node(name, Node::Matrix(cells, align))?;
        self.next_token();
        let _ = self.parse_text();
        Ok(node)
    }

    /// Reads the node that starts at the current token.
    #[verifier::rlimit(60)]
    fn parse_atom(&mut self) -> (r: Result<Node, LatexError>)
        ensures
            parsed_as(r, final(self)@, parsed_atom(old(self)@)),
            r is Ok ==> old(self)@.leads_to(final(self)@),
        decreases old(self)@.rest(), 2nat,
    {
        proof {
            reveal_with_fuel(node_view, 2);
        }
        let token = self.cur_token.clone();
        match token {
            Token::Number(number) => Ok(Node::Number(number)),
            Token::Letter(x, v) => Ok(Node::Letter(x, v)),
            Token::Operator(op) => Ok(Node::Operator(op)),
            Token::Function(fun) => Ok(Node::Function(fun.to_owned(), None)),
            Token::Space(width) => Ok(Node::Space(width)),
            Token::Sqrt => {
                self.next_token();
                self.parse_root()
            },
            Token::Frac => {
                self.next_token();
                let (numerator, denominator) = self.parse_pair()?;
                Ok(Node::Frac(Box::new(numerator), Box::new(denominator), LineThickness::Medium))
            },
            Token::Binom(display) => {
                self.next_token();
                let (numerator, denominator) = self.parse_pair()?;
                Ok(binomial_node(numerator, denominator, display))
            },
            Token::Over(op, acc) => {
                self.next_token();
                let target = self.parse_node()?;
                Ok(Node::OverOp(op, acc, Box::new(target)))
            },
            Token::Under(op, acc) => {
                self.next_token();
                let target = self.parse_node()?;
                Ok(Node::UnderOp(op, acc, Box::new(target)))
            },
            Token::Overset => {
                self.next_token();
                let (over, target) = self.parse_pair()?;
                Ok(Node::Overset { over: Box::new(over), target: Box::new(target) })
            },
            Token::Underset => {
                self.next_token();
                let (under, target) = self.parse_pair()?;
                Ok(Node::Underset { under: Box::new(under), target: Box::new(target) })
            },
            Token::Overbrace(x) => {
                self.next_token();
                self.parse_brace(x, true)
            },
            Token::Underbrace(x) => {
                self.next_token();
                self.parse_brace(x, false)
            },
            Token::BigOp(op) => {
                let (under, over) = self.parse_scripts()?;
                Ok(limits_node(op, under, over))
            },
            Token::Lim(fun) => {
                let lim = Node::Function(fun.to_owned(), None);
                if self.peek_token_is(Token::Underscore) {
                    self.next_token();
                    self.next_token();
                    let under = self.parse_single_node()?;
                    Ok(Node::Under(Box::new(lim), Box::new(under)))
                } else {
                    Ok(lim)
                }
            },
            Token::Slashed => {
                self.next_token();
                self.next_token();
                let node = self.parse_node()?;
                self.next_token();
                Ok(Node::Slashed(Box::new(node)))
            },
            Token::Style(var) => {
                self.next_token();
                let node = self.parse_node()?;
                Ok(set_variant(&node, var))
            },
            Token::Integral(op) => {
                let (sub, sup) = self.parse_scripts()?;
                Ok(bounds_node(op, sub, sup))
            },
            Token::LBrace => self.parse_group(&Token::RBrace),
            Token::Paren(paren) => Ok(Node::OtherOperator(paren)),
            Token::Left => {
                self.next_token();
                self.parse_fence()
            },
            Token::Middle => {
                self.next_token();
                self.parse_middle()
            },
            Token::Big(size) => {
                self.next_token();
                match &self.cur_token {
                    Token::Paren(paren) => Ok(Node::SizedParen { size, paren }),
                    other => Err(
                        LatexError::UnexpectedToken {
                            expected: Token::Paren(""),
                            got: other.clone(),
                        },
                    ),
                }
            },
            Token::Begin => {
                self.next_token();
                self.parse_environment()
            },
            Token::OperatorName => {
                self.next_token();
                let name = self.parse_text();
                Ok(Node::Function(name, None))
            },
            Token::Text => {
                self.next_token();
                let text = self.parse_text();
                Ok(Node::Text(text))
            },
            Token::Ampersand => Ok(Node::Ampersand),
            Token::NewLine => Ok(Node::NewLine),
            other => Ok(Node::Undefined(other.description())),
        }
    }
}

} // verus!
