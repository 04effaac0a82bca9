use latex2mathml::attribute::Variant;
use latex2mathml::token::Token;
use latex2mathml::{convert_content, latex_to_mathml, DisplayStyle, LatexError};

#[test]
fn errors_say_what_happened() {
    assert_eq!(
        LatexError::UnexpectedToken { expected: Token::RBrace, got: Token::EOF }.to_string(),
        r#"The token "RBrace" is expected, but the token "EOF" is found.""#
    );
    assert_eq!(
        LatexError::MissingParensethis {
            location: Token::Left,
            got: Token::Letter('x', Variant::Italic),
        }.to_string(),
        r#"There must be a parenthesis after "Left", but not found. Insted, "Letter('x', Italic)" is found."#
    );
    assert_eq!(
        LatexError::UnknownEnvironment("foo".to_owned()).to_string(),
        r#"An unknown environment "foo" is found"#
    );
    assert_eq!(
        LatexError::InvalidNumberOfDollarSigns.to_string(),
        "The number of dollar sings found is invalid."
    );
}

#[test]
fn errors_of_conversions_carry_the_tokens() {
    assert_eq!(
        convert_content("{x").unwrap_err().to_string(),
        r#"The token "RBrace" is expected, but the token "EOF" is found.""#
    );
    assert_eq!(
        convert_content(r"\sqrt[2").unwrap_err().to_string(),
        r#"The token "Paren("]")" is expected, but the token "EOF" is found.""#
    );
    assert_eq!(
        convert_content(r"\left 1 \right)").unwrap_err().to_string(),
        r#"There must be a parenthesis after "Left", but not found. Insted, "Number("1")" is found."#
    );
    assert_eq!(
        latex_to_mathml(r"\begin{cases} x \end{cases}", DisplayStyle::Block).unwrap_err().to_string(),
        r#"An unknown environment "cases" is found"#
    );
    assert!(latex_to_mathml(r"\begin{cases} x \end{cases}", DisplayStyle::Inline).is_err());
}

#[test]
fn display_changes_the_root_element_only() {
    let block = latex_to_mathml(r"\frac{a}{b} + \sum_i x_i", DisplayStyle::Block).unwrap();
    let inline = latex_to_mathml(r"\frac{a}{b} + \sum_i x_i", DisplayStyle::Inline).unwrap();
    let content = convert_content(r"\frac{a}{b} + \sum_i x_i").unwrap();
    assert_eq!(
        block,
        format!(r#"<math xmlns="http://www.w3.org/1998/Math/MathML" display="block">{}</math>"#, content)
    );
    assert_eq!(
        inline,
        format!(r#"<math xmlns="http://www.w3.org/1998/Math/MathML" display="inline">{}</math>"#, content)
    );
}
