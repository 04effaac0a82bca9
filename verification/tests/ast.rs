use latex2mathml::ast::Node;
use latex2mathml::attribute::Variant;

#[test]
fn node_display() {
    let problems = vec![
        (Node::Number("3.14".to_owned()), "<mn>3.14</mn>"),
        (Node::Letter('x', Variant::Italic), "<mi>x</mi>"),
        (Node::Letter('α', Variant::Italic), "<mi>α</mi>"),
        (Node::Letter('あ', Variant::Normal), r#"<mi mathvariant="normal">あ</mi>"#),
        (
            Node::Row(vec![ Node::Operator('+'), Node::Operator('-') ]),
            r"<mrow><mo>+</mo><mo>-</mo></mrow>"
        ),
    ];
    for (problem, answer) in problems.iter() {
        assert_eq!(&problem.to_string(), answer);
    }
}
