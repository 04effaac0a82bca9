//! What holds of every formula: how an operator takes its limits, how a pair
//! of delimiters is read and written, and which digit a root takes.

use vstd::prelude::*;
use crate::ast::NodeView;
use crate::attribute::Accent;
use crate::error::ErrorView;
use crate::lexer::{command_name, letters_end, number_end, skip_blanks, symbol, token_at};
use crate::parse::{
    delimiter_of, grouped, lemma_advance, lemma_parsed_leads, parsed_atom, parsed_fence,
    parsed, parsed_group, parsed_items, parsed_node, parsed_root, parsed_scripts,
    parsed_single_node, with_bounds, with_limits, Outcome, ParserView,
};
use crate::text::is_digit;
use crate::token::{classify, TokenView};
use crate::vocabulary::{delimiter, keyword, space_width, style};

verus! {

/// Whether `r` is the node `node`, with the parser left in `last`.
pub open spec fn gives(r: Outcome, node: NodeView, last: ParserView) -> bool {
    r matches Ok((n, l)) && n == node && l == last
}

/// Whether `r` is the error `e`.
pub open spec fn fails(r: Outcome, e: ErrorView) -> bool {
    r matches Err(x) && x == e
}

/// Whether `r` is `below` and `above`, with the parser left in `last`.
pub open spec fn attaches(
    r: Result<(Option<NodeView>, Option<NodeView>, ParserView), ErrorView>,
    below: Option<NodeView>,
    above: Option<NodeView>,
    last: ParserView,
) -> bool {
    r matches Ok((b, a, l)) && b == below && a == above && l == last
}

/// What is attached to an operator, by the tokens behind it. Behind an
/// underscore stands what goes below, behind a circumflex what goes above;
/// each is one atom, and the two come in either order. Where the token behind
/// the operator is neither, nothing is attached and nothing is read.
pub proof fn lemma_scripts(s: ParserView)
    ensures
        match s.peek {
            TokenView::Underscore => match parsed_single_node(s.advance().advance()) {
                Ok((below, a)) => if a.peek is Circumflex {
                    match parsed_single_node(a.advance().advance()) {
                        Ok((above, last)) => attaches(parsed_scripts(s), Some(below), Some(above), last),
                        Err(e) => parsed_scripts(s) matches Err(x) && x == e,
                    }
                } else {
                    attaches(parsed_scripts(s), Some(below), None, a)
                },
                Err(e) => parsed_scripts(s) matches Err(x) && x == e,
            },
            TokenView::Circumflex => match parsed_single_node(s.advance().advance()) {
                Ok((above, a)) => if a.peek is Underscore {
                    match parsed_single_node(a.advance().advance()) {
                        Ok((below, last)) => attaches(parsed_scripts(s), Some(below), Some(above), last),
                        Err(e) => parsed_scripts(s) matches Err(x) && x == e,
                    }
                } else {
                    attaches(parsed_scripts(s), None, Some(above), a)
                },
                Err(e) => parsed_scripts(s) matches Err(x) && x == e,
            },
            _ => attaches(parsed_scripts(s), None, None, s),
        },
{
    lemma_parsed_leads(s.advance().advance(), TokenView::EOF);
}

/// The layout of a big operator: with a subscript alone the limit stands
/// below it, with a superscript alone above it, with both the one below and
/// the other above; with neither it is the bare operator.
pub proof fn lemma_big_operator_layout(s: ParserView, op: char)
    requires
        s.cur == TokenView::BigOp(op),
    ensures
        match parsed_scripts(s) {
            Ok((below, above, last)) => gives(parsed_atom(s), with_limits(op, below, above), last),
            Err(e) => fails(parsed_atom(s), e),
        },
        forall|below: NodeView, above: NodeView|
            with_limits(op, Some(below), Some(above)) == (NodeView::UnderOver {
                target: Box::new(NodeView::Operator(op)),
                under: Box::new(below),
                over: Box::new(above),
            }),
        forall|below: NodeView| #[trigger]
            with_limits(op, Some(below), None) == NodeView::Under(
                Box::new(NodeView::Operator(op)),
                Box::new(below),
            ),
        forall|above: NodeView| #[trigger]
            with_limits(op, None, Some(above)) == NodeView::OverOp(
                op,
                Accent::False,
                Box::new(above),
            ),
        with_limits(op, None, None) == NodeView::Operator(op),
{
}

/// The layout of an integral sign: with a subscript alone it has a lower
/// bound, with a superscript alone an upper bound, with both it has both as
/// subscript and superscript; with neither it is the bare sign.
pub proof fn lemma_integral_layout(s: ParserView, op: char)
    requires
        s.cur == TokenView::Integral(op),
    ensures
        match parsed_scripts(s) {
            Ok((below, above, last)) => gives(parsed_atom(s), with_bounds(op, below, above), last),
            Err(e) => fails(parsed_atom(s), e),
        },
        forall|below: NodeView, above: NodeView|
            with_bounds(op, Some(below), Some(above)) == (NodeView::SubSup {
                target: Box::new(NodeView::Operator(op)),
                sub: Box::new(below),
                sup: Box::new(above),
            }),
        forall|below: NodeView| #[trigger]
            with_bounds(op, Some(below), None) == NodeView::Subscript(
                Box::new(NodeView::Operator(op)),
                Box::new(below),
            ),
        forall|above: NodeView| #[trigger]
            with_bounds(op, None, Some(above)) == NodeView::Superscript(
                Box::new(NodeView::Operator(op)),
                Box::new(above),
            ),
        with_bounds(op, None, None) == NodeView::Operator(op),
{
}

/// What stands between `\left` and `\right` is read as one node between the
/// two delimiters that are named, and written between exactly these two: the
/// text of a delimiter as it is, and nothing for the dot that stands for a
/// delimiter that is not shown. `s` is the state on `\left`.
pub proof fn lemma_fence(s: ParserView)
    requires
        s.cur == TokenView::Left,
    ensures
        forall|text: Seq<char>, location: TokenView| #[trigger]
            delimiter_of(TokenView::Paren(text), location) == Ok::<Seq<char>, ErrorView>(text),
        forall|location: TokenView| #[trigger]
            delimiter_of(TokenView::Operator('.'), location) == Ok::<Seq<char>, ErrorView>(
                Seq::empty(),
            ),
        parsed_atom(s) == parsed_fence(s.advance()),
        match delimiter_of(s.advance().cur, TokenView::Left) {
            Ok(open) => match parsed_group(s.advance(), TokenView::Right) {
                Ok((content, at_right)) => match delimiter_of(
                    at_right.advance().cur,
                    TokenView::Right,
                ) {
                    Ok(close) => {
                        let fenced = NodeView::Fenced { open, close, content: Box::new(content) };
                        &&& gives(parsed_atom(s), fenced, at_right.advance())
                        &&& fenced.render() == "<mrow><mo stretchy=\"true\" form=\"prefix\">"@
                            + open + "</mo>"@ + content.render()
                            + "<mo stretchy=\"true\" form=\"postfix\">"@ + close
                            + "</mo></mrow>"@
                    },
                    Err(e) => fails(parsed_atom(s), e),
                },
                Err(e) => fails(parsed_atom(s), e),
            },
            Err(e) => fails(parsed_atom(s), e),
        },
{
    lemma_parsed_leads(s.advance(), TokenView::Right);
}

/// A root without braces takes one digit. Where a digit stands directly
/// behind `\sqrt` and a second digit behind the first, the root is the root of
/// the first digit alone, and the digits behind it are a numeral of their own:
/// the node that follows the root. `s` is the state before the root, with the
/// root as the token behind the current one.
pub proof fn lemma_root_of_a_digit(s: ParserView)
    requires
        s.peek == TokenView::Sqrt,
        s.pos + 1 < s.input.len(),
        is_digit(s.input[s.pos as int]),
        is_digit(s.input[s.pos as int + 1]),
    ensures
        ({
            let root = s.advance();
            let digit = NodeView::Number(seq![s.input[s.pos as int]]);
            let others = s.input.subrange(
                s.pos as int + 1,
                number_end(s.input, (s.pos + 1) as nat, false) as int,
            );
            let behind = root.advance();
            &&& root.cur == TokenView::Sqrt
            &&& gives(parsed_node(root), NodeView::Sqrt(None, Box::new(digit)), behind)
            &&& gives(parsed_atom(behind.advance()), NodeView::Number(others), behind.advance())
        }),
{
    reveal(ParserView::advance);
    let root = s.advance();
    let digit = NodeView::Number(seq![s.input[s.pos as int]]);
    let behind = root.advance();
    assert(skip_blanks(s.input, (s.pos + 1) as nat) == s.pos + 1);
    assert(root.cur == TokenView::Sqrt);
    assert(root.peek == TokenView::Number(seq![s.input[s.pos as int]]));
    assert(behind.cur == root.peek);
    assert(behind.peek is Number);
    lemma_advance(root);
    assert(gives(parsed_atom(behind), digit, behind));
    assert(gives(parsed_single_node(behind), digit, behind));
    assert(gives(parsed_node(behind), digit, behind));
    assert(gives(parsed_root(behind), NodeView::Sqrt(None, Box::new(digit)), behind));
    assert(gives(parsed_atom(root), NodeView::Sqrt(None, Box::new(digit)), behind));
    assert(gives(parsed_single_node(root), NodeView::Sqrt(None, Box::new(digit)), behind));
}

/// A root with braces takes all that stands between them: where a numeral
/// stands between braces directly behind `\sqrt`, the root is the root of the
/// whole numeral. `end` is the position of the closing brace, and what
/// follows the brace is neither a prime nor a subscript or superscript.
pub proof fn lemma_root_of_a_group(s: ParserView, end: nat)
    requires
        s.peek == TokenView::Sqrt,
        s.pos + 1 < end < s.input.len(),
        s.input[s.pos as int] == '{',
        is_digit(s.input[s.pos as int + 1]),
        end == number_end(s.input, (s.pos + 1) as nat, false),
        s.input[end as int] == '}',
        token_at(s.input, end + 1).0 != TokenView::Operator('\''),
        !(token_at(s.input, end + 1).0 is Underscore),
        !(token_at(s.input, end + 1).0 is Circumflex),
    ensures
        ({
            let root = s.advance();
            let numeral = NodeView::Number(s.input.subrange(s.pos as int + 1, end as int));
            &&& root.cur == TokenView::Sqrt
            &&& parsed_node(root) matches Ok((node, last))
            &&& node == NodeView::Sqrt(None, Box::new(numeral))
            &&& last.cur == TokenView::RBrace
            &&& last.peek == token_at(s.input, end + 1).0
        }),
{
    reveal(ParserView::advance);
    let root = s.advance();
    let numeral = NodeView::Number(s.input.subrange(s.pos as int + 1, end as int));
    let opened = root.advance();
    let inside = opened.advance();
    let closed = inside.advance();
    assert(skip_blanks(s.input, s.pos) == s.pos);
    assert(skip_blanks(s.input, (s.pos + 1) as nat) == s.pos + 1);
    assert(skip_blanks(s.input, end) == end);
    assert(root.cur == TokenView::Sqrt && root.peek == TokenView::LBrace);
    assert(opened.cur == TokenView::LBrace);
    assert(opened.peek == TokenView::Number(s.input.subrange(s.pos as int + 1, end as int)));
    assert(opened.pos == end);
    assert(inside.cur == opened.peek);
    assert(inside.peek == TokenView::RBrace);
    assert(inside.pos == end + 1);
    assert(closed.cur == TokenView::RBrace);
    assert(closed.peek == token_at(s.input, end + 1).0);
    lemma_advance(root);
    lemma_advance(opened);
    lemma_advance(inside);
    assert(gives(parsed_atom(inside), numeral, inside));
    assert(gives(parsed_single_node(inside), numeral, inside));
    assert(gives(parsed_node(inside), numeral, inside));
    assert(parsed_items(closed, TokenView::RBrace) matches Ok((nodes, last)) && nodes
        == Seq::<NodeView>::empty() && last == closed);
    assert(parsed_items(inside, TokenView::RBrace) matches Ok((nodes, last)) && nodes
        == seq![numeral] && last == closed) by {
        assert(seq![numeral] + Seq::<NodeView>::empty() =~= seq![numeral]);
    }
    assert(grouped(seq![numeral]) == numeral);
    assert(gives(parsed_group(opened, TokenView::RBrace), numeral, closed));
    assert(gives(parsed_atom(opened), numeral, closed));
    assert(gives(parsed_single_node(opened), numeral, closed));
    assert(gives(parsed_node(opened), numeral, closed));
    assert(gives(parsed_root(opened), NodeView::Sqrt(None, Box::new(numeral)), closed));
    assert(gives(parsed_atom(root), NodeView::Sqrt(None, Box::new(numeral)), closed));
    assert(gives(parsed_single_node(root), NodeView::Sqrt(None, Box::new(numeral)), closed));
}

/// The delimiters that come in pairs are read as the delimiters that they
/// are written as: parentheses, brackets and bars as characters, braces as
/// the commands `\{` and `\}`; and the dot is the sign for a delimiter that
/// is not shown.
pub proof fn lemma_delimiter_tokens()
    ensures
        symbol('(') == TokenView::Paren(seq!['(']),
        symbol(')') == TokenView::Paren(seq![')']),
        symbol('[') == TokenView::Paren(seq!['[']),
        symbol(']') == TokenView::Paren(seq![']']),
        symbol('|') == TokenView::Paren(seq!['|']),
        classify(seq!['{']) == TokenView::Paren(seq!['{']),
        classify(seq!['}']) == TokenView::Paren(seq!['}']),
        symbol('.') == TokenView::Operator('.'),
{
    reveal(classify);
    reveal_strlit("sqrt");
    reveal_strlit("frac");
    reveal_strlit("left");
    reveal_strlit("right");
    reveal_strlit("middle");
    reveal_strlit("begin");
    reveal_strlit("end");
    reveal_strlit("\\");
    reveal_strlit("overset");
    reveal_strlit("underset");
    reveal_strlit("operatorname");
    reveal_strlit("text");
    reveal_strlit("slashed");
    reveal_strlit("binom");
    reveal_strlit("tbinom");
    reveal_strlit("dbinom");
    reveal_strlit("mathrm");
    reveal_strlit("textrm");
    reveal_strlit("mathit");
    reveal_strlit("textit");
    reveal_strlit("mathbf");
    reveal_strlit("textbf");
    reveal_strlit("bm");
    reveal_strlit("symbf");
    reveal_strlit("boldsymbol");
    reveal_strlit("mathbb");
    reveal_strlit("mathfrak");
    reveal_strlit("mathscr");
    reveal_strlit("mathcal");
    reveal_strlit("mathsf");
    reveal_strlit("textsf");
    reveal_strlit("mathtt");
    reveal_strlit("texttt");
    reveal_strlit("!");
    reveal_strlit(",");
    reveal_strlit(":");
    reveal_strlit(";");
    reveal_strlit(" ");
    reveal_strlit("quad");
    reveal_strlit("qquad");
    reveal_strlit("{");
    reveal_strlit("}");
    reveal_strlit("langle");
    reveal_strlit("rangle");
    reveal_strlit("lceil");
    reveal_strlit("rceil");
    reveal_strlit("lfloor");
    reveal_strlit("rfloor");
    reveal_strlit("lgroup");
    reveal_strlit("rgroup");
    reveal_strlit("llbracket");
    reveal_strlit("rrbracket");
    reveal_strlit("lbrack");
    reveal_strlit("rbrack");
    reveal_strlit("lbrace");
    reveal_strlit("rbrace");
    reveal_strlit("vert");
    reveal_strlit("lvert");
    reveal_strlit("rvert");
    reveal_strlit("|");
    reveal_strlit("Vert");
    reveal_strlit("lVert");
    reveal_strlit("rVert");
    let open = seq!['{'];
    let close = seq!['}'];
    assert(open =~= "{"@);
    assert(close =~= "}"@);
    assert(keyword(open) is None && keyword(close) is None);
    assert(style(open) is None && style(close) is None);
    assert(space_width(open) is None && space_width(close) is None);
    assert(delimiter(open) == Some(open));
    assert(delimiter(close) == Some(close));
}

/// A formula is its first node and the formula behind it; at the end of the
/// input it is empty.
pub proof fn lemma_parsed_step(s: ParserView)
    ensures
        s.cur is EOF ==> parsed(s) == Ok::<Seq<NodeView>, ErrorView>(Seq::empty()),
        !(s.cur is EOF) ==> match parsed_node(s) {
            Ok((node, after)) => match parsed(after.advance()) {
                Ok(nodes) => parsed(s) == Ok::<Seq<NodeView>, ErrorView>(seq![node] + nodes),
                Err(e) => parsed(s) == Err::<Seq<NodeView>, ErrorView>(e),
            },
            Err(e) => parsed(s) == Err::<Seq<NodeView>, ErrorView>(e),
        },
{
    lemma_parsed_leads(s, TokenView::EOF);
}

/// The states of a parser that reads `\sqrt` and two digits.
spec fn root_states(first: char, second: char) -> (ParserView, ParserView, ParserView, ParserView) {
    let input = seq!['\\', 's', 'q', 'r', 't', first, second];
    let before = (ParserView {
        input,
        pos: 0,
        cur: TokenView::Illegal('\0'),
        peek: TokenView::Illegal('\0'),
    }).advance();
    let root = before.advance();
    let behind = root.advance();
    let last = behind.advance();
    (before, root, behind, last)
}

/// Before the first digit is read, the root is the token behind the current
/// one, and the lexer stands on the digit.
proof fn lemma_root_is_read(first: char, second: char)
    requires
        is_digit(first),
    ensures
        ({
            let (before, root, behind, last) = root_states(first, second);
            &&& before.input == seq!['\\', 's', 'q', 'r', 't', first, second]
            &&& before.peek == TokenView::Sqrt
            &&& before.pos == 5
        }),
{
    let input = seq!['\\', 's', 'q', 'r', 't', first, second];
    reveal(ParserView::advance);
    reveal(classify);
    reveal_strlit("sqrt");
    assert(skip_blanks(input, 0) == 0);
    assert(letters_end(input, 5) == 5);
    assert(letters_end(input, 4) == 5);
    assert(letters_end(input, 3) == 5);
    assert(letters_end(input, 2) == 5);
    assert(command_name(input, 1) =~= "sqrt"@);
}

/// The second digit is a token of its own, and the last.
proof fn lemma_digits_are_read(first: char, second: char)
    requires
        is_digit(first),
        is_digit(second),
    ensures
        ({
            let (before, root, behind, last) = root_states(first, second);
            &&& root.cur == TokenView::Sqrt
            &&& last.cur == TokenView::Number(seq![second])
            &&& last.peek is EOF
            &&& last.advance().cur is EOF
        }),
{
    let input = seq!['\\', 's', 'q', 'r', 't', first, second];
    let (before, root, behind, last) = root_states(first, second);
    lemma_root_is_read(first, second);
    reveal(ParserView::advance);
    assert(root.cur == TokenView::Sqrt);
    assert(root.peek == TokenView::Number(seq![first]));
    assert(root.pos == 6 && root.input == input);
    assert(skip_blanks(input, 6) == 6);
    assert(number_end(input, 7, false) == 7);
    assert(number_end(input, 6, false) == 7);
    assert(input.subrange(6, 7) =~= seq![second]);
    assert(behind.peek == TokenView::Number(seq![second]));
    assert(behind.pos == 7 && behind.input == input);
    assert(skip_blanks(input, 7) == 7);
}

/// The formula `\sqrt` with two digits directly behind it is two nodes: the
/// root of the first digit, and the second digit.
pub proof fn lemma_root_of_two_digits(first: char, second: char)
    requires
        is_digit(first),
        is_digit(second),
    ensures
        parsed(ParserView::at(seq!['\\', 's', 'q', 'r', 't', first, second], 0)) == Ok::<
            Seq<NodeView>,
            ErrorView,
        >(
            seq![
                NodeView::Sqrt(None, Box::new(NodeView::Number(seq![first]))),
                NodeView::Number(seq![second]),
            ],
        ),
{
    let (before, root, behind, last) = root_states(first, second);
    let radical = NodeView::Sqrt(None, Box::new(NodeView::Number(seq![first])));
    let digit = NodeView::Number(seq![second]);
    lemma_root_is_read(first, second);
    lemma_digits_are_read(first, second);
    lemma_root_of_a_digit(before);
    assert(gives(parsed_node(root), radical, behind));
    assert(gives(parsed_node(last), digit, last)) by {
        assert(gives(parsed_single_node(last), digit, last));
    }
    lemma_parsed_step(last.advance());
    lemma_parsed_step(last);
    lemma_parsed_step(root);
    assert(seq![digit] + Seq::<NodeView>::empty() =~= seq![digit]);
    assert(seq![radical] + seq![digit] =~= seq![radical, digit]);
}

/// The formula `\sqrt` with two digits in braces behind it is one node: the
/// root of the numeral that the two digits are.
pub proof fn lemma_root_of_two_digits_in_braces(first: char, second: char)
    requires
        is_digit(first),
        is_digit(second),
    ensures
        parsed(ParserView::at(seq!['\\', 's', 'q', 'r', 't', '{', first, second, '}'], 0)) == Ok::<
            Seq<NodeView>,
            ErrorView,
        >(seq![NodeView::Sqrt(None, Box::new(NodeView::Number(seq![first, second])))]),
{
    let input = seq!['\\', 's', 'q', 'r', 't', '{', first, second, '}'];
    let before = (ParserView {
        input,
        pos: 0,
        cur: TokenView::Illegal('\0'),
        peek: TokenView::Illegal('\0'),
    }).advance();
    let root = before.advance();
    let radical = NodeView::Sqrt(None, Box::new(NodeView::Number(seq![first, second])));
    assert(before.input == input && before.peek == TokenView::Sqrt && before.pos == 5) by {
        reveal(ParserView::advance);
        reveal(classify);
        reveal_strlit("sqrt");
        assert(skip_blanks(input, 0) == 0);
        assert(letters_end(input, 5) == 5);
        assert(letters_end(input, 4) == 5);
        assert(letters_end(input, 3) == 5);
        assert(letters_end(input, 2) == 5);
        assert(command_name(input, 1) =~= "sqrt"@);
    }
    assert(number_end(input, 6, false) == 8) by {
        assert(number_end(input, 8, false) == 8);
        assert(number_end(input, 7, false) == 8);
    }
    assert(token_at(input, 9).0 is EOF) by {
        assert(skip_blanks(input, 9) == 9);
    }
    assert(input.subrange(6, 8) =~= seq![first, second]);
    lemma_root_of_a_group(before, 8);
    let last = parsed_node(root)->Ok_0.1;
    assert(last.advance().cur is EOF) by {
        reveal(ParserView::advance);
    }
    lemma_parsed_step(last.advance());
    lemma_parsed_step(root);
    assert(seq![radical] + Seq::<NodeView>::empty() =~= seq![radical]);
}

} // verus!
