use latex2mathml::{latex_to_mathml, replace, DisplayStyle, LatexError};

#[test]
fn replace_leaves_plain_text_alone() {
    assert_eq!(replace("no formula here").unwrap(), "no formula here");
    assert_eq!(replace("").unwrap(), "");
}

#[test]
fn replace_converts_inline_formula() {
    let expected = format!(
        "The letter {} is here.",
        latex_to_mathml("x", DisplayStyle::Inline).unwrap()
    );
    assert_eq!(replace("The letter $x$ is here.").unwrap(), expected);
    assert_eq!(
        replace("$x$").unwrap(),
        r#"<math xmlns="http://www.w3.org/1998/Math/MathML" display="inline"><mi>x</mi></math>"#
    );
}

#[test]
fn replace_converts_block_formula() {
    assert_eq!(
        replace("a $$x^2$$ b").unwrap(),
        r#"a <math xmlns="http://www.w3.org/1998/Math/MathML" display="block"><msup><mi>x</mi><mn>2</mn></msup></math> b"#
    );
}

#[test]
fn replace_converts_blocks_before_lines() {
    let block = latex_to_mathml("x", DisplayStyle::Block).unwrap();
    let inline = latex_to_mathml("y", DisplayStyle::Inline).unwrap();
    assert_eq!(
        replace("$y$ then $$x$$ then $y$ and $$x$$.").unwrap(),
        format!("{} then {} then {} and {}.", inline, block, inline, block)
    );
}

#[test]
fn replace_rejects_odd_number_of_delimiters() {
    assert!(matches!(replace("price: $3"), Err(LatexError::InvalidNumberOfDollarSigns)));
    assert!(matches!(replace("$$x$$ and $$y"), Err(LatexError::InvalidNumberOfDollarSigns)));
    assert!(matches!(replace("$a$ $b"), Err(LatexError::InvalidNumberOfDollarSigns)));
}

#[test]
fn replace_rejects_delimiters_that_run_into_each_other() {
    assert!(matches!(replace("$$$ x $$$"), Err(LatexError::InvalidNumberOfDollarSigns)));
    assert!(matches!(replace("$$$$"), Err(LatexError::InvalidNumberOfDollarSigns)));
}

#[test]
fn replace_gives_the_error_of_the_formula() {
    match replace(r"ok $x$ bad $\begin{foo} x \end{foo}$") {
        Err(LatexError::UnknownEnvironment(name)) => assert_eq!(name, "foo"),
        other => panic!("unexpected: {:?}", other),
    }
}

#[test]
fn replace_keeps_text_that_is_not_ascii() {
    assert_eq!(
        replace("größe $x$ — ende").unwrap(),
        format!("größe {} — ende", latex_to_mathml("x", DisplayStyle::Inline).unwrap())
    );
}

#[test]
fn latex_to_mathml_wraps_content() {
    assert_eq!(
        latex_to_mathml("x", DisplayStyle::Block).unwrap(),
        r#"<math xmlns="http://www.w3.org/1998/Math/MathML" display="block"><mi>x</mi></math>"#
    );
    assert_eq!(
        latex_to_mathml("", DisplayStyle::Inline).unwrap(),
        r#"<math xmlns="http://www.w3.org/1998/Math/MathML" display="inline"></math>"#
    );
}

#[test]
fn document_of_the_theory_of_relativity() {
    let text = r#"
Let us consider a rigid sphere of radius $R$
which is at rest relative to the system ($K$), and whose centre coincides with the origin of $K$ then the equation of the
surface of this sphere, which is moving with a velocity $v$ relative to $K$, is
$$\xi^2 + \eta^2 + \zeta^2 = R^2$$

At time $t = 0$ the equation is expressed by means of $(x, y, z, t)$ as
$$\frac{ x^2 }{ \left( \sqrt{ 1 - \frac{ v^2 }{ c^2 } } \right)^2 } + y^2 + z^2 = R^2 .$$

$$R {\sqrt{1-{\frac {v^{2}}{c^{2}}}}}, \ R, \ R .$$
"#;
    let mathml = replace(text).unwrap();
    assert!(!mathml.contains('$'));
    assert!(mathml.contains(r#"display="block"><msup><mi>ξ</mi><mn>2</mn></msup>"#));
    assert!(mathml.contains(r#"radius <math xmlns="http://www.w3.org/1998/Math/MathML" display="inline"><mi>R</mi></math>"#));
}
