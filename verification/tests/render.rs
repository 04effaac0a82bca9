use latex2mathml::ast::{set_variant, Node};
use latex2mathml::attribute::{Accent, ColumnAlign, LineThickness, Variant};
use latex2mathml::DisplayStyle;

fn x() -> Node {
    Node::Letter('x', Variant::Italic)
}

fn boxed(node: Node) -> Box<Node> {
    Box::new(node)
}

#[test]
fn attributes_have_their_texts() {
    assert_eq!(Variant::Normal.to_string(), "normal");
    assert_eq!(Variant::Italic.to_string(), "italic");
    assert_eq!(Variant::Bold.to_string(), "bold");
    assert_eq!(Variant::BoldItalic.to_string(), "bold-italic");
    assert_eq!(Variant::DoubleStruck.to_string(), "double-struck");
    assert_eq!(Variant::BoldFraktur.to_string(), "bold-fraktur");
    assert_eq!(Variant::Script.to_string(), "script");
    assert_eq!(Variant::BoldScript.to_string(), "bold-script");
    assert_eq!(Variant::Fraktur.to_string(), "fraktur");
    assert_eq!(Variant::SansSerif.to_string(), "sans-serif");
    assert_eq!(Variant::BoldSansSerif.to_string(), "bold-sans-serif");
    assert_eq!(Variant::SansSerifItalic.to_string(), "sans-serif-italic");
    assert_eq!(Variant::SansSerifBoldItalic.to_string(), "sans-serif-bold-italic");
    assert_eq!(Variant::Monospace.to_string(), "monospace");
    assert_eq!(Accent::True.to_string(), "true");
    assert_eq!(Accent::False.to_string(), "false");
    assert_eq!(DisplayStyle::Block.to_string(), "block");
    assert_eq!(DisplayStyle::Inline.to_string(), "inline");
    assert_eq!(ColumnAlign::Center.to_string(), "");
    assert_eq!(ColumnAlign::Left.to_string(), " columnalign=left");
    assert_eq!(ColumnAlign::Right.to_string(), " columnalign=right");
}

#[test]
fn line_thickness_writes_its_length_in_decimal() {
    assert_eq!(LineThickness::Thin.to_string(), r#" linethickness="thin""#);
    assert_eq!(LineThickness::Medium.to_string(), "");
    assert_eq!(LineThickness::Thick.to_string(), r#" linethickness="medium""#);
    assert_eq!(LineThickness::Length(0).to_string(), r#" linethickness="0""#);
    assert_eq!(LineThickness::Length(7).to_string(), r#" linethickness="7""#);
    assert_eq!(LineThickness::Length(10).to_string(), r#" linethickness="10""#);
    assert_eq!(LineThickness::Length(255).to_string(), r#" linethickness="255""#);
}

#[test]
fn space_writes_its_width_as_a_decimal_fraction() {
    assert_eq!(Node::Space(10000).to_string(), r#"<mspace width="1em"/>"#);
    assert_eq!(Node::Space(20000).to_string(), r#"<mspace width="2em"/>"#);
    assert_eq!(Node::Space(1667).to_string(), r#"<mspace width="0.1667em"/>"#);
    assert_eq!(Node::Space(-1667).to_string(), r#"<mspace width="-0.1667em"/>"#);
    assert_eq!(Node::Space(2222).to_string(), r#"<mspace width="0.2222em"/>"#);
    assert_eq!(Node::Space(2778).to_string(), r#"<mspace width="0.2778em"/>"#);
    assert_eq!(Node::Space(0).to_string(), r#"<mspace width="0em"/>"#);
    assert_eq!(Node::Space(5000).to_string(), r#"<mspace width="0.5em"/>"#);
    assert_eq!(Node::Space(12500).to_string(), r#"<mspace width="1.25em"/>"#);
    assert_eq!(Node::Space(10).to_string(), r#"<mspace width="0.001em"/>"#);
    assert_eq!(Node::Space(1).to_string(), r#"<mspace width="0.0001em"/>"#);
    assert_eq!(Node::Space(-10000).to_string(), r#"<mspace width="-1em"/>"#);
    assert_eq!(Node::Space(i32::MAX).to_string(), r#"<mspace width="214748.3647em"/>"#);
    assert_eq!(Node::Space(i32::MIN).to_string(), r#"<mspace width="-214748.3648em"/>"#);
}

#[test]
fn leaves_are_written_as_one_element() {
    assert_eq!(Node::Number("42".to_owned()).to_string(), "<mn>42</mn>");
    assert_eq!(Node::Letter('x', Variant::Bold).to_string(), r#"<mi mathvariant="bold">x</mi>"#);
    assert_eq!(Node::Operator('+').to_string(), "<mo>+</mo>");
    assert_eq!(Node::Operator('∂').to_string(), r#"<mo mathvariant="italic">∂</mo>"#);
    assert_eq!(Node::Function("sin".to_owned(), None).to_string(), "<mi>sin</mi>");
    assert_eq!(
        Node::Function("sin".to_owned(), Some(boxed(x()))).to_string(),
        "<mi>sin</mi><mo>&#x2061;</mo><mi>x</mi>"
    );
    assert_eq!(Node::OtherOperator("(").to_string(), "<mo>(</mo>");
    assert_eq!(Node::StrechedOp(true, "|".to_owned()).to_string(), r#"<mo stretchy="true">|</mo>"#);
    assert_eq!(Node::StrechedOp(false, "|".to_owned()).to_string(), r#"<mo stretchy="false">|</mo>"#);
    assert_eq!(Node::Text("abc".to_owned()).to_string(), "<mtext>abc</mtext>");
    assert_eq!(
        Node::SizedParen { size: "1.2em", paren: "(" }.to_string(),
        r#"<mrow><mo maxsize="1.2em" minsize="1.2em">(</mo></mrow>"#
    );
}

#[test]
fn layouts_are_written_around_their_children() {
    let two = || Node::Number("2".to_owned());
    assert_eq!(Node::Subscript(boxed(x()), boxed(two())).to_string(), "<msub><mi>x</mi><mn>2</mn></msub>");
    assert_eq!(Node::Superscript(boxed(x()), boxed(two())).to_string(), "<msup><mi>x</mi><mn>2</mn></msup>");
    assert_eq!(
        Node::SubSup { target: boxed(x()), sub: boxed(Node::Number("1".to_owned())), sup: boxed(two()) }.to_string(),
        "<msubsup><mi>x</mi><mn>1</mn><mn>2</mn></msubsup>"
    );
    assert_eq!(
        Node::OverOp('^', Accent::True, boxed(x())).to_string(),
        r#"<mover><mi>x</mi><mo accent="true">^</mo></mover>"#
    );
    assert_eq!(
        Node::UnderOp('_', Accent::False, boxed(x())).to_string(),
        r#"<munder><mi>x</mi><mo accent="false">_</mo></munder>"#
    );
    assert_eq!(
        Node::Overset { over: boxed(two()), target: boxed(x()) }.to_string(),
        "<mover><mi>x</mi><mn>2</mn></mover>"
    );
    assert_eq!(
        Node::Underset { under: boxed(two()), target: boxed(x()) }.to_string(),
        "<munder><mi>x</mi><mn>2</mn></munder>"
    );
    assert_eq!(Node::Under(boxed(x()), boxed(two())).to_string(), "<munder><mi>x</mi><mn>2</mn></munder>");
    assert_eq!(
        Node::UnderOver { target: boxed(x()), under: boxed(Node::Number("1".to_owned())), over: boxed(two()) }.to_string(),
        "<munderover><mi>x</mi><mn>1</mn><mn>2</mn></munderover>"
    );
    assert_eq!(Node::Sqrt(None, boxed(x())).to_string(), "<msqrt><mi>x</mi></msqrt>");
    assert_eq!(Node::Sqrt(Some(boxed(two())), boxed(x())).to_string(), "<mroot><mi>x</mi><mn>2</mn></mroot>");
    assert_eq!(
        Node::Frac(boxed(x()), boxed(two()), LineThickness::Medium).to_string(),
        "<mfrac><mi>x</mi><mn>2</mn></mfrac>"
    );
    assert_eq!(
        Node::Frac(boxed(x()), boxed(two()), LineThickness::Thin).to_string(),
        r#"<mfrac linethickness="thin"><mi>x</mi><mn>2</mn></mfrac>"#
    );
    assert_eq!(Node::Row(vec![]).to_string(), "<mrow></mrow>");
    assert_eq!(
        Node::Fenced { open: "[", close: "", content: boxed(x()) }.to_string(),
        r#"<mrow><mo stretchy="true" form="prefix">[</mo><mi>x</mi><mo stretchy="true" form="postfix"></mo></mrow>"#
    );
    assert_eq!(
        Node::Style(Some(DisplayStyle::Block), boxed(x())).to_string(),
        r#"<mstyle displaystyle="true"><mi>x</mi></mstyle>"#
    );
    assert_eq!(
        Node::Style(Some(DisplayStyle::Inline), boxed(x())).to_string(),
        r#"<mstyle displaystyle="false"><mi>x</mi></mstyle>"#
    );
    assert_eq!(Node::Style(None, boxed(x())).to_string(), "<mstyle><mi>x</mi></mstyle>");
}

#[test]
fn slashed_strikes_through_letters_and_operators_only() {
    assert_eq!(
        Node::Slashed(boxed(x())).to_string(),
        r#"<mi mathvariant="italic">x&#x0338;</mi>"#
    );
    assert_eq!(Node::Slashed(boxed(Node::Operator('∂'))).to_string(), "<mo>∂&#x0338;</mo>");
    assert_eq!(Node::Slashed(boxed(Node::Number("1".to_owned()))).to_string(), "<mn>1</mn>");
}

#[test]
fn matrix_is_regrouped_into_rows_and_cells() {
    let a = || Node::Letter('a', Variant::Italic);
    let b = || Node::Letter('b', Variant::Italic);
    assert_eq!(
        Node::Matrix(vec![a(), Node::Ampersand, b(), Node::NewLine, b(), Node::Ampersand, a()], ColumnAlign::Center).to_string(),
        "<mtable><mtr><mtd><mi>a</mi></mtd><mtd><mi>b</mi></mtd></mtr><mtr><mtd><mi>b</mi></mtd><mtd><mi>a</mi></mtd></mtr></mtable>"
    );
    assert_eq!(
        Node::Matrix(vec![], ColumnAlign::Left).to_string(),
        "<mtable columnalign=left><mtr><mtd></mtd></mtr></mtable>"
    );
    assert_eq!(
        Node::Matrix(vec![a(), b()], ColumnAlign::Right).to_string(),
        "<mtable columnalign=right><mtr><mtd><mi>a</mi><mi>b</mi></mtd></mtr></mtable>"
    );
    assert_eq!(
        Node::Matrix(vec![a(), Node::NewLine], ColumnAlign::Center).to_string(),
        "<mtable><mtr><mtd><mi>a</mi></mtd></mtr><mtr><mtd></mtd></mtr></mtable>"
    );
}

#[test]
fn nodes_without_a_layout_are_written_as_errors() {
    assert_eq!(Node::Ampersand.to_string(), "<mtext>[PARSE ERROR: Ampersand]</mtext>");
    assert_eq!(Node::NewLine.to_string(), "<mtext>[PARSE ERROR: NewLine]</mtext>");
    assert_eq!(
        Node::Undefined("EOF".to_owned()).to_string(),
        r#"<mtext>[PARSE ERROR: Undefined("EOF")]</mtext>"#
    );
    assert_eq!(
        Node::Undefined(r#"Command("erf")"#.to_owned()).to_string(),
        r#"<mtext>[PARSE ERROR: Undefined("Command(\"erf\")")]</mtext>"#
    );
}

#[test]
fn set_variant_changes_every_letter_and_nothing_else() {
    let tree = Node::Row(vec![
        Node::Letter('a', Variant::Italic),
        Node::Number("1".to_owned()),
        Node::Subscript(boxed(Node::Letter('b', Variant::Normal)), boxed(Node::Operator('+'))),
        Node::Frac(
            boxed(Node::Sqrt(Some(boxed(Node::Letter('c', Variant::Italic))), boxed(Node::Text("t".to_owned())))),
            boxed(Node::Function("sin".to_owned(), Some(boxed(Node::Letter('d', Variant::Italic))))),
            LineThickness::Thin,
        ),
        Node::Matrix(vec![Node::Letter('e', Variant::Italic), Node::Ampersand], ColumnAlign::Left),
        Node::Fenced { open: "(", close: ")", content: boxed(Node::Slashed(boxed(Node::Letter('f', Variant::Italic)))) },
    ]);
    let bold = Node::Row(vec![
        Node::Letter('a', Variant::Bold),
        Node::Number("1".to_owned()),
        Node::Subscript(boxed(Node::Letter('b', Variant::Bold)), boxed(Node::Operator('+'))),
        Node::Frac(
            boxed(Node::Sqrt(Some(boxed(Node::Letter('c', Variant::Bold))), boxed(Node::Text("t".to_owned())))),
            boxed(Node::Function("sin".to_owned(), Some(boxed(Node::Letter('d', Variant::Bold))))),
            LineThickness::Thin,
        ),
        Node::Matrix(vec![Node::Letter('e', Variant::Bold), Node::Ampersand], ColumnAlign::Left),
        Node::Fenced { open: "(", close: ")", content: boxed(Node::Slashed(boxed(Node::Letter('f', Variant::Bold)))) },
    ]);
    let once = set_variant(&tree, Variant::Bold);
    assert_eq!(once, bold);
    assert_eq!(set_variant(&once, Variant::Bold), bold);
    assert_eq!(
        set_variant(&once, Variant::Fraktur),
        set_variant(&tree, Variant::Fraktur)
    );
    let plain = tree.to_string().replace(r#" mathvariant="normal""#, "").replace(r#" mathvariant="italic""#, "");
    let styled = once.to_string().replace(r#" mathvariant="bold""#, "");
    assert_eq!(plain, styled);
}
