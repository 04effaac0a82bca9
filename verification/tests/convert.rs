use latex2mathml::convert_content;

#[test]
fn it_works() {
    let problems = vec![
        (r"0",            "<mn>0</mn>"),
        (r"3.14",         "<mn>3.14</mn>"),
        (r"x",            "<mi>x</mi>"),
        (r"\alpha",       "<mi>α</mi>"),
        (r"\phi/\varphi", "<mi>ϕ</mi><mo>/</mo><mi>φ</mi>"),
        (r"x = 3+\alpha", "<mi>x</mi><mo>=</mo><mn>3</mn><mo>+</mo><mi>α</mi>"),
        (r"\sin x",       "<mi>sin</mi><mi>x</mi>"),
        (r"\sqrt 2",      "<msqrt><mn>2</mn></msqrt>"),
        (r"\sqrt12",      "<msqrt><mn>1</mn></msqrt><mn>2</mn>"),
        (r"\sqrt{x+2}",   "<msqrt><mrow><mi>x</mi><mo>+</mo><mn>2</mn></mrow></msqrt>"),
        (r"\sqrt[3]{x}",  "<mroot><mi>x</mi><mn>3</mn></mroot>"),
        (r"\frac{1}{2}",  "<mfrac><mn>1</mn><mn>2</mn></mfrac>"),
        (r"\frac12",      "<mfrac><mn>1</mn><mn>2</mn></mfrac>"),
        (r"\frac{12}{5}", "<mfrac><mn>12</mn><mn>5</mn></mfrac>"),
        (r"x^2",          "<msup><mi>x</mi><mn>2</mn></msup>"),
        (r"g_{\mu\nu}",   "<msub><mi>g</mi><mrow><mi>μ</mi><mi>ν</mi></mrow></msub>"),
        (r"\dot{x}",      "<mover><mi>x</mi><mo accent=\"true\">\u{02d9}</mo></mover>"),
        (r"\sin x",       r#"<mi>sin</mi><mi>x</mi>"#),
        (r"\operatorname{sn} x", r#"<mi>sn</mi><mi>x</mi>"#),
        (r"\binom12",     r#"<mrow><mo stretchy="true" form="prefix">(</mo><mfrac linethickness="0"><mn>1</mn><mn>2</mn></mfrac><mo stretchy="true" form="postfix">)</mo></mrow>"#),
        (r"\left( x \right)", r#"<mrow><mo stretchy="true" form="prefix">(</mo><mi>x</mi><mo stretchy="true" form="postfix">)</mo></mrow>"#),
        (r"\left( x \right.", r#"<mrow><mo stretchy="true" form="prefix">(</mo><mi>x</mi><mo stretchy="true" form="postfix"></mo></mrow>"#),
        (r"\int dx",      r#"<mo>∫</mo><mi>d</mi><mi>x</mi>"#),
        (r"\oint_C dz",   r#"<msub><mo>∮</mo><mi>C</mi></msub><mi>d</mi><mi>z</mi>"#),
        (r"\overset{n}{X}", "<mover><mi>X</mi><mi>n</mi></mover>"),
        (r"\int_0^1 dx",  r#"<msubsup><mo>∫</mo><mn>0</mn><mn>1</mn></msubsup><mi>d</mi><mi>x</mi>"#),
        (r"\int^1_0 dx",  r#"<msubsup><mo>∫</mo><mn>0</mn><mn>1</mn></msubsup><mi>d</mi><mi>x</mi>"#),
        (r"\bm{x}",       r#"<mi mathvariant="bold-italic">x</mi>"#),
        (r"\mathbb{R}",   r#"<mi mathvariant="double-struck">R</mi>"#),
        (r"\sum_{i = 0}^∞ i", r#"<munderover><mo>∑</mo><mrow><mi>i</mi><mo>=</mo><mn>0</mn></mrow><mi mathvariant="normal">∞</mi></munderover><mi>i</mi>"#),
        (r"\prod_n n",        r#"<munder><mo>∏</mo><mi>n</mi></munder><mi>n</mi>"#),
        (r"x\ y",         r#"<mi>x</mi><mspace width="1em"/><mi>y</mi>"#),
        (
            r"\left\{ x  ( x + 2 ) \right\}",
            r#"<mrow><mo stretchy="true" form="prefix">{</mo><mrow><mi>x</mi><mo>(</mo><mi>x</mi><mo>+</mo><mn>2</mn><mo>)</mo></mrow><mo stretchy="true" form="postfix">}</mo></mrow>"#
        ),
        (r"f'", r#"<msup><mi>f</mi><mo>′</mo></msup>"#),
        (
            r"\begin{pmatrix} x \\ y \end{pmatrix}",
            r#"<mrow><mo stretchy="true" form="prefix">(</mo><mtable><mtr><mtd><mi>x</mi></mtd></mtr><mtr><mtd><mi>y</mi></mtd></mtr></mtable><mo stretchy="true" form="postfix">)</mo></mrow>"#
        ),
    ];

    for (problem, answer) in problems.iter() {
        let mathml = convert_content(problem).unwrap();
        assert_eq!(&mathml, answer);
    }
}
