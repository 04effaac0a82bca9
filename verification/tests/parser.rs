use latex2mathml::ast::Node;
use latex2mathml::attribute::{Accent, ColumnAlign, LineThickness, Variant};
use latex2mathml::lexer::Lexer;
use latex2mathml::parse::Parser;
use latex2mathml::token::Token;
use latex2mathml::{convert_content, DisplayStyle, LatexError};

fn parse(input: &str) -> Result<Vec<Node>, LatexError> {
    Parser::new(Lexer::new(input)).parse()
}

fn nodes(input: &str) -> Vec<Node> {
    parse(input).unwrap()
}

fn letter(c: char) -> Node {
    Node::Letter(c, Variant::Italic)
}

fn number(text: &str) -> Node {
    Node::Number(text.to_owned())
}

fn boxed(node: Node) -> Box<Node> {
    Box::new(node)
}

#[test]
fn parser_starts_on_the_first_token() {
    let mut p = Parser::new(Lexer::new("x+y"));
    assert!(p.cur_token_is(&Token::Letter('x', Variant::Italic)));
    assert!(p.peek_token_is(Token::Operator('+')));
    assert!(!p.cur_token_is(&Token::Operator('+')));
    p.next_token();
    assert!(p.cur_token_is(&Token::Operator('+')));
    assert!(p.peek_token_is(Token::Letter('y', Variant::Italic)));
    p.next_token();
    p.next_token();
    assert!(p.cur_token_is(&Token::EOF));
    p.next_token();
    assert!(p.cur_token_is(&Token::EOF));
    assert!(p.peek_token_is(Token::EOF));
    let p = Parser::new(Lexer::new(""));
    assert!(p.cur_token_is(&Token::EOF));
}

#[test]
fn parser_takes_one_digit_behind_a_root() {
    let mut p = Parser::new(Lexer::new(r"\sqrt12"));
    assert!(p.cur_token_is(&Token::Sqrt));
    assert!(p.peek_token_is(Token::Number("1".to_owned())));
    p.next_token();
    assert!(p.peek_token_is(Token::Number("2".to_owned())));
    let mut p = Parser::new(Lexer::new(r"\sqrt 12"));
    assert!(p.peek_token_is(Token::Number("12".to_owned())));
    p.next_token();
    assert!(p.peek_token_is(Token::EOF));
    let mut p = Parser::new(Lexer::new(r"x \frac987"));
    assert!(p.peek_token_is(Token::Frac));
    p.next_token();
    assert!(p.peek_token_is(Token::Number("9".to_owned())));
    p.next_token();
    assert!(p.peek_token_is(Token::Number("87".to_owned())));
}

#[test]
fn root_of_two_digits_is_the_root_of_the_first() {
    assert_eq!(nodes(r"\sqrt12"), vec![Node::Sqrt(None, boxed(number("1"))), number("2")]);
    assert_eq!(nodes(r"\sqrt123"), vec![Node::Sqrt(None, boxed(number("1"))), number("23")]);
    assert_eq!(nodes(r"\sqrt90.5"), vec![Node::Sqrt(None, boxed(number("9"))), number("0.5")]);
    assert_eq!(nodes(r"\sqrt{12}"), vec![Node::Sqrt(None, boxed(number("12")))]);
    assert_eq!(nodes(r"\sqrt 12"), vec![Node::Sqrt(None, boxed(number("12")))]);
    assert_eq!(
        nodes(r"\sqrt[3]{12}"),
        vec![Node::Sqrt(Some(boxed(number("3"))), boxed(number("12")))]
    );
    assert_eq!(
        nodes(r"\frac123"),
        vec![Node::Frac(boxed(number("1")), boxed(number("23")), LineThickness::Medium)]
    );
    assert_eq!(convert_content(r"\sqrt12").unwrap(), "<msqrt><mn>1</mn></msqrt><mn>2</mn>");
    assert_eq!(convert_content(r"\sqrt{12}").unwrap(), "<msqrt><mn>12</mn></msqrt>");
}

#[test]
fn simple_formulas() {
    assert_eq!(convert_content("x^2").unwrap(), "<msup><mi>x</mi><mn>2</mn></msup>");
    assert_eq!(convert_content(r"\frac{1}{2}").unwrap(), "<mfrac><mn>1</mn><mn>2</mn></mfrac>");
    assert_eq!(convert_content(r"\frac12").unwrap(), "<mfrac><mn>1</mn><mn>2</mn></mfrac>");
    assert_eq!(
        convert_content(r"\left( x \right)").unwrap(),
        r#"<mrow><mo stretchy="true" form="prefix">(</mo><mi>x</mi><mo stretchy="true" form="postfix">)</mo></mrow>"#
    );
    assert_eq!(
        convert_content(r"\begin{pmatrix} x \\ y \end{pmatrix}").unwrap(),
        r#"<mrow><mo stretchy="true" form="prefix">(</mo><mtable><mtr><mtd><mi>x</mi></mtd></mtr><mtr><mtd><mi>y</mi></mtd></mtr></mtable><mo stretchy="true" form="postfix">)</mo></mrow>"#
    );
    assert_eq!(
        convert_content(r"\sum_{i=0}^\infty i").unwrap(),
        r#"<munderover><mo>∑</mo><mrow><mi>i</mi><mo>=</mo><mn>0</mn></mrow><mi mathvariant="normal">∞</mi></munderover><mi>i</mi>"#
    );
    assert_eq!(
        nodes(r"\sum_{i=0}^\infty i"),
        vec![
            Node::UnderOver {
                target: boxed(Node::Operator('∑')),
                under: boxed(Node::Row(vec![letter('i'), Node::Operator('='), number("0")])),
                over: boxed(Node::Letter('∞', Variant::Normal)),
            },
            letter('i'),
        ]
    );
}

#[test]
fn unknown_environment_is_an_error_that_names_it() {
    match parse(r"\begin{foo} x \end{foo}") {
        Err(LatexError::UnknownEnvironment(name)) => assert_eq!(name, "foo"),
        other => panic!("unexpected: {:?}", other),
    }
    match convert_content(r"a + \begin{array} x \end{array}") {
        Err(LatexError::UnknownEnvironment(name)) => assert_eq!(name, "array"),
        other => panic!("unexpected: {:?}", other),
    }
}

#[test]
fn big_operator_takes_its_limits() {
    let sum = || boxed(Node::Operator('∑'));
    assert_eq!(nodes(r"\sum"), vec![Node::Operator('∑')]);
    assert_eq!(nodes(r"\sum x"), vec![Node::Operator('∑'), letter('x')]);
    assert_eq!(nodes(r"\sum_a"), vec![Node::Under(sum(), boxed(letter('a')))]);
    assert_eq!(nodes(r"\sum^b"), vec![Node::OverOp('∑', Accent::False, boxed(letter('b')))]);
    let both = Node::UnderOver { target: sum(), under: boxed(letter('a')), over: boxed(letter('b')) };
    assert_eq!(nodes(r"\sum_a^b"), vec![both]);
    let both = Node::UnderOver { target: sum(), under: boxed(letter('a')), over: boxed(letter('b')) };
    assert_eq!(nodes(r"\sum^b_a x"), vec![both, letter('x')]);
    assert_eq!(
        nodes(r"\prod_a b^c"),
        vec![
            Node::Under(boxed(Node::Operator('∏')), boxed(letter('a'))),
            Node::Superscript(boxed(letter('b')), boxed(letter('c'))),
        ]
    );
}

#[test]
fn integral_takes_its_bounds() {
    let int = || boxed(Node::Operator('∫'));
    assert_eq!(nodes(r"\int"), vec![Node::Operator('∫')]);
    assert_eq!(nodes(r"\int_a"), vec![Node::Subscript(int(), boxed(letter('a')))]);
    assert_eq!(nodes(r"\int^b"), vec![Node::Superscript(int(), boxed(letter('b')))]);
    assert_eq!(
        nodes(r"\int_a^b"),
        vec![Node::SubSup { target: int(), sub: boxed(letter('a')), sup: boxed(letter('b')) }]
    );
    assert_eq!(
        nodes(r"\int^b_a"),
        vec![Node::SubSup { target: int(), sub: boxed(letter('a')), sup: boxed(letter('b')) }]
    );
}

#[test]
fn limit_takes_what_is_below_only() {
    let lim = || Node::Function("lim".to_owned(), None);
    assert_eq!(nodes(r"\lim"), vec![lim()]);
    assert_eq!(
        nodes(r"\lim_{x \to 0} f"),
        vec![
            Node::Under(boxed(lim()), boxed(Node::Row(vec![letter('x'), Node::Operator('→'), number("0")]))),
            letter('f'),
        ]
    );
    assert_eq!(
        nodes(r"\limsup^2"),
        vec![Node::Superscript(boxed(Node::Function("lim sup".to_owned(), None)), boxed(number("2")))]
    );
}

#[test]
fn fences_keep_their_delimiters() {
    let fence = |open: &'static str, close: &'static str| {
        vec![Node::Fenced { open, close, content: boxed(letter('x')) }]
    };
    assert_eq!(nodes(r"\left( x \right)"), fence("(", ")"));
    assert_eq!(nodes(r"\left[ x \right]"), fence("[", "]"));
    assert_eq!(nodes(r"\left\{ x \right\}"), fence("{", "}"));
    assert_eq!(nodes(r"\left| x \right|"), fence("|", "|"));
    assert_eq!(nodes(r"\left( x \right]"), fence("(", "]"));
    assert_eq!(nodes(r"\left. x \right)"), fence("", ")"));
    assert_eq!(nodes(r"\left( x \right."), fence("(", ""));
    assert_eq!(nodes(r"\left\langle x \right\rangle"), fence("⟨", "⟩"));
    for (open, close) in [("(", ")"), ("[", "]"), (r"\{", r"\}"), ("|", "|")] {
        let mathml = convert_content(&format!(r"\left{} x+1 \right{}", open, close)).unwrap();
        let one_sided = convert_content(&format!(r"\left{} x \right.", open)).unwrap();
        let open = open.trim_start_matches('\\');
        let close = close.trim_start_matches('\\');
        assert_eq!(
            mathml,
            format!(
                r#"<mrow><mo stretchy="true" form="prefix">{}</mo><mrow><mi>x</mi><mo>+</mo><mn>1</mn></mrow><mo stretchy="true" form="postfix">{}</mo></mrow>"#,
                open, close
            )
        );
        assert_eq!(
            one_sided,
            format!(
                r#"<mrow><mo stretchy="true" form="prefix">{}</mo><mi>x</mi><mo stretchy="true" form="postfix"></mo></mrow>"#,
                open
            )
        );
    }
}

#[test]
fn fence_without_delimiter_is_an_error() {
    assert!(matches!(
        parse(r"\left x \right)"),
        Err(LatexError::MissingParensethis { location: Token::Left, got: Token::Letter('x', Variant::Italic) })
    ));
    assert!(matches!(
        parse(r"\left( x \right y"),
        Err(LatexError::MissingParensethis { location: Token::Right, got: Token::Letter('y', Variant::Italic) })
    ));
    assert!(matches!(
        parse(r"\left( x \right"),
        Err(LatexError::MissingParensethis { location: Token::Right, got: Token::EOF })
    ));
    assert!(matches!(
        parse(r"\left( x"),
        Err(LatexError::UnexpectedToken { expected: Token::Right, got: Token::EOF })
    ));
}

#[test]
fn group_that_is_not_closed_is_an_error() {
    assert!(matches!(
        parse("{x"),
        Err(LatexError::UnexpectedToken { expected: Token::RBrace, got: Token::EOF })
    ));
    assert!(matches!(
        parse("{"),
        Err(LatexError::UnexpectedToken { expected: Token::RBrace, got: Token::EOF })
    ));
    assert!(matches!(
        parse(r"\sqrt[3{x}"),
        Err(LatexError::UnexpectedToken { expected: Token::Paren("]"), got: Token::EOF })
    ));
    assert!(matches!(
        parse(r"\begin{matrix} x"),
        Err(LatexError::UnexpectedToken { expected: Token::End, got: Token::EOF })
    ));
    assert!(matches!(
        parse(r"\begin{foo} x"),
        Err(LatexError::UnexpectedToken { expected: Token::End, got: Token::EOF })
    ));
    assert!(matches!(
        parse(r"x^{a + \frac{1}{2}"),
        Err(LatexError::UnexpectedToken { expected: Token::RBrace, got: Token::EOF })
    ));
}

#[test]
fn sized_delimiter_needs_a_delimiter() {
    assert_eq!(nodes(r"\bigl("), vec![Node::SizedParen { size: "1.2em", paren: "(" }]);
    assert_eq!(nodes(r"\Biggr]"), vec![Node::SizedParen { size: "2.470em", paren: "]" }]);
    assert!(matches!(
        parse(r"\big x"),
        Err(LatexError::UnexpectedToken { expected: Token::Paren(""), got: Token::Letter('x', Variant::Italic) })
    ));
}

#[test]
fn middle_delimiter_has_to_be_an_operator() {
    assert_eq!(nodes(r"\middle|"), vec![Node::StrechedOp(true, "|".to_owned())]);
    assert_eq!(nodes(r"\middle/"), vec![Node::StrechedOp(true, "/".to_owned())]);
    assert!(matches!(
        parse(r"\middle x"),
        Err(LatexError::MissingParensethis { location: Token::Middle, got: Token::Letter('x', Variant::Italic) })
    ));
    assert!(matches!(
        parse(r"\middle"),
        Err(LatexError::MissingParensethis { location: Token::Middle, got: Token::EOF })
    ));
    assert_eq!(
        convert_content(r"\left\{ x \middle| y \right\}").unwrap(),
        r#"<mrow><mo stretchy="true" form="prefix">{</mo><mrow><mi>x</mi><mo stretchy="true">|</mo><mi>y</mi></mrow><mo stretchy="true" form="postfix">}</mo></mrow>"#
    );
}

#[test]
fn groups_are_one_node() {
    assert_eq!(nodes("{}"), vec![Node::Row(vec![])]);
    assert_eq!(nodes("{x}"), vec![letter('x')]);
    assert_eq!(nodes("{x y}"), vec![Node::Row(vec![letter('x'), letter('y')])]);
    assert_eq!(nodes("{{x}}"), vec![letter('x')]);
    assert_eq!(nodes(""), vec![]);
    assert_eq!(nodes("   "), vec![]);
}

#[test]
fn scripts_bind_to_the_right() {
    assert_eq!(
        nodes("x_a^b"),
        vec![Node::Subscript(
            boxed(letter('x')),
            boxed(Node::Superscript(boxed(letter('a')), boxed(letter('b')))),
        )]
    );
    assert_eq!(
        nodes("x^{a}y"),
        vec![Node::Superscript(boxed(letter('x')), boxed(letter('a'))), letter('y')]
    );
}

#[test]
fn prime_is_a_superscript() {
    let prime = || boxed(Node::Operator('′'));
    assert_eq!(nodes("f'"), vec![Node::Superscript(boxed(letter('f')), prime())]);
    assert_eq!(
        nodes("f'_a"),
        vec![Node::Subscript(boxed(Node::Superscript(boxed(letter('f')), prime())), boxed(letter('a')))]
    );
    assert_eq!(
        nodes("f''"),
        vec![Node::Superscript(boxed(letter('f')), prime()), Node::Operator('\'')]
    );
    assert_eq!(
        nodes(r"\sqrt{x}'"),
        vec![Node::Sqrt(None, boxed(Node::Superscript(boxed(letter('x')), prime())))]
    );
    assert_eq!(
        nodes(r"\alpha' x"),
        vec![Node::Superscript(boxed(letter('α')), prime()), letter('x')]
    );
}

#[test]
fn accents_and_sets() {
    assert_eq!(nodes(r"\hat x"), vec![Node::OverOp('^', Accent::True, boxed(letter('x')))]);
    assert_eq!(nodes(r"\underline{x}"), vec![Node::UnderOp('_', Accent::False, boxed(letter('x')))]);
    assert_eq!(
        nodes(r"\overset{a}{b}"),
        vec![Node::Overset { over: boxed(letter('a')), target: boxed(letter('b')) }]
    );
    assert_eq!(
        nodes(r"\underset{a}{b}"),
        vec![Node::Underset { under: boxed(letter('a')), target: boxed(letter('b')) }]
    );
}

#[test]
fn braces_take_their_label() {
    let brace = || boxed(Node::Operator('\u{23de}'));
    assert_eq!(
        nodes(r"\overbrace{x}"),
        vec![Node::Overset { over: brace(), target: boxed(letter('x')) }]
    );
    assert_eq!(
        nodes(r"\overbrace{x}^{n}"),
        vec![Node::Overset {
            over: boxed(Node::Overset { over: boxed(letter('n')), target: brace() }),
            target: boxed(letter('x')),
        }]
    );
    assert_eq!(
        nodes(r"\overbrace{x}_{n}"),
        vec![Node::Subscript(
            boxed(Node::Overset { over: brace(), target: boxed(letter('x')) }),
            boxed(letter('n')),
        )]
    );
    let brace = || boxed(Node::Operator('\u{23df}'));
    assert_eq!(
        nodes(r"\underbrace{x}_n y"),
        vec![
            Node::Underset {
                under: boxed(Node::Underset { under: boxed(letter('n')), target: brace() }),
                target: boxed(letter('x')),
            },
            letter('y'),
        ]
    );
}

#[test]
fn binomials() {
    let frac = || {
        Node::Fenced {
            open: "(",
            close: ")",
            content: boxed(Node::Frac(boxed(letter('n')), boxed(letter('k')), LineThickness::Length(0))),
        }
    };
    assert_eq!(nodes(r"\binom{n}{k}"), vec![frac()]);
    assert_eq!(
        nodes(r"\dbinom{n}{k}"),
        vec![Node::Style(Some(DisplayStyle::Block), boxed(Node::Row(vec![frac()])))]
    );
    assert_eq!(
        convert_content(r"\tbinom nk").unwrap(),
        r#"<mstyle displaystyle="false"><mrow><mrow><mo stretchy="true" form="prefix">(</mo><mfrac linethickness="0"><mi>n</mi><mi>k</mi></mfrac><mo stretchy="true" form="postfix">)</mo></mrow></mrow></mstyle>"#
    );
}

#[test]
fn styles_flood_the_letters() {
    assert_eq!(nodes(r"\mathbf{x}"), vec![Node::Letter('x', Variant::Bold)]);
    assert_eq!(
        nodes(r"\mathrm{ab}"),
        vec![Node::Row(vec![Node::Letter('a', Variant::Normal), Node::Letter('b', Variant::Normal)])]
    );
    assert_eq!(
        nodes(r"\mathbf{x_1}"),
        vec![Node::Subscript(boxed(Node::Letter('x', Variant::Bold)), boxed(number("1")))]
    );
    assert_eq!(
        nodes(r"\mathbf{\mathit{x} y}"),
        vec![Node::Row(vec![Node::Letter('x', Variant::Bold), Node::Letter('y', Variant::Bold)])]
    );
    assert_eq!(
        nodes(r"\mathit{\mathbf{x} y}"),
        nodes(r"\mathit{x y}")
    );
    assert_eq!(nodes(r"\mathfrak x y"), vec![Node::Letter('x', Variant::Fraktur), letter('y')]);
}

#[test]
fn texts_and_names() {
    assert_eq!(nodes(r"\text{abc}"), vec![Node::Text("abc".to_owned())]);
    assert_eq!(nodes(r"\text{a b}"), vec![Node::Text("ab".to_owned())]);
    assert_eq!(nodes(r"\text{}x"), vec![Node::Text(String::new()), letter('x')]);
    assert_eq!(
        nodes(r"\operatorname{sn} x"),
        vec![Node::Function("sn".to_owned(), None), letter('x')]
    );
    assert_eq!(nodes(r"\sin"), vec![Node::Function("sin".to_owned(), None)]);
    let mut p = Parser::new(Lexer::new("{abc}d"));
    assert_eq!(p.parse_text(), "abc");
    assert!(p.cur_token_is(&Token::RBrace));
    let mut p = Parser::new(Lexer::new("{ab1}"));
    assert_eq!(p.parse_text(), "ab");
    assert!(p.cur_token_is(&Token::Number("1".to_owned())));
}

#[test]
fn slashed_takes_one_node_in_braces() {
    assert_eq!(
        nodes(r"\slashed{\partial} x"),
        vec![Node::Slashed(boxed(Node::Operator('∂'))), letter('x')]
    );
    assert_eq!(convert_content(r"\slashed{\partial}").unwrap(), "<mo>∂&#x0338;</mo>");
    assert_eq!(
        convert_content(r"\slashed{p}").unwrap(),
        r#"<mi mathvariant="italic">p&#x0338;</mi>"#
    );
}

#[test]
fn environments() {
    let cells = || {
        vec![
            letter('a'), Node::Ampersand, letter('b'), Node::NewLine,
            letter('c'), Node::Ampersand, letter('d'),
        ]
    };
    assert_eq!(
        nodes(r"\begin{matrix} a & b \\ c & d \end{matrix}"),
        vec![Node::Matrix(cells(), ColumnAlign::Center)]
    );
    assert_eq!(
        nodes(r"\begin{align} a & b \\ c & d \end{align}"),
        vec![Node::Matrix(cells(), ColumnAlign::Left)]
    );
    assert_eq!(
        nodes(r"\begin{bmatrix} a & b \\ c & d \end{bmatrix} x"),
        vec![
            Node::Fenced { open: "[", close: "]", content: boxed(Node::Matrix(cells(), ColumnAlign::Center)) },
            letter('x'),
        ]
    );
    assert_eq!(
        nodes(r"\begin{vmatrix} a \end{vmatrix}"),
        vec![Node::Fenced {
            open: "|",
            close: "|",
            content: boxed(Node::Matrix(vec![letter('a')], ColumnAlign::Center)),
        }]
    );
    assert_eq!(
        nodes(r"\begin{matrix}\end{matrix}"),
        vec![Node::Matrix(vec![], ColumnAlign::Center)]
    );
    assert_eq!(
        convert_content(r"\begin{matrix} a & b \\ c & d \end{matrix}").unwrap(),
        "<mtable><mtr><mtd><mi>a</mi></mtd><mtd><mi>b</mi></mtd></mtr><mtr><mtd><mi>c</mi></mtd><mtd><mi>d</mi></mtd></mtr></mtable>"
    );
}

#[test]
fn what_makes_no_sense_is_kept_as_undefined() {
    assert_eq!(nodes(r"\erf"), vec![Node::Undefined(r#"Command("erf")"#.to_owned())]);
    assert_eq!(
        convert_content(r"\erf x").unwrap(),
        r#"<mtext>[PARSE ERROR: Undefined("Command(\"erf\")")]</mtext><mi>x</mi>"#
    );
    assert_eq!(nodes("x }"), vec![letter('x'), Node::Undefined("RBrace".to_owned())]);
    assert_eq!(nodes("^"), vec![Node::Undefined("Circumflex".to_owned())]);
    assert_eq!(nodes(r"\right"), vec![Node::Undefined("Right".to_owned())]);
    assert_eq!(nodes(r"\end"), vec![Node::Undefined("End".to_owned())]);
    assert_eq!(
        nodes(r"\frac{1}"),
        vec![Node::Frac(boxed(number("1")), boxed(Node::Undefined("EOF".to_owned())), LineThickness::Medium)]
    );
    assert_eq!(nodes("a & b"), vec![letter('a'), Node::Ampersand, letter('b')]);
    assert_eq!(
        convert_content(r"a \\ b").unwrap(),
        "<mi>a</mi><mtext>[PARSE ERROR: NewLine]</mtext><mi>b</mi>"
    );
}

#[test]
fn single_steps_of_the_parser() {
    let mut p = Parser::new(Lexer::new("x_1 y"));
    assert_eq!(p.parse_single_node().unwrap(), letter('x'));
    assert!(p.cur_token_is(&Token::Letter('x', Variant::Italic)));
    let mut p = Parser::new(Lexer::new("x_1 y"));
    assert_eq!(
        p.parse_node().unwrap(),
        Node::Subscript(boxed(letter('x')), boxed(number("1")))
    );
    assert!(p.cur_token_is(&Token::Number("1".to_owned())));
    assert!(p.peek_token_is(Token::Letter('y', Variant::Italic)));
    let mut p = Parser::new(Lexer::new("[a b] c"));
    assert_eq!(
        p.parse_group(&Token::Paren("]")).unwrap(),
        Node::Row(vec![letter('a'), letter('b')])
    );
    assert!(p.cur_token_is(&Token::Paren("]")));
}
