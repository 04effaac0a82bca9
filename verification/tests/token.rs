use latex2mathml::attribute::{Accent, Variant};
use latex2mathml::token::Token;
use latex2mathml::DisplayStyle;

#[test]
fn from_command_knows_the_structural_commands() {
    assert_eq!(Token::from_command("sqrt"), Token::Sqrt);
    assert_eq!(Token::from_command("frac"), Token::Frac);
    assert_eq!(Token::from_command("left"), Token::Left);
    assert_eq!(Token::from_command("right"), Token::Right);
    assert_eq!(Token::from_command("middle"), Token::Middle);
    assert_eq!(Token::from_command("begin"), Token::Begin);
    assert_eq!(Token::from_command("end"), Token::End);
    assert_eq!(Token::from_command("\\"), Token::NewLine);
    assert_eq!(Token::from_command("text"), Token::Text);
    assert_eq!(Token::from_command("operatorname"), Token::OperatorName);
    assert_eq!(Token::from_command("slashed"), Token::Slashed);
    assert_eq!(Token::from_command("overset"), Token::Overset);
    assert_eq!(Token::from_command("underset"), Token::Underset);
    assert_eq!(Token::from_command("binom"), Token::Binom(None));
    assert_eq!(Token::from_command("tbinom"), Token::Binom(Some(DisplayStyle::Inline)));
    assert_eq!(Token::from_command("dbinom"), Token::Binom(Some(DisplayStyle::Block)));
}

#[test]
fn from_command_knows_letters_and_operators() {
    assert_eq!(Token::from_command("alpha"), Token::Letter('α', Variant::Italic));
    assert_eq!(Token::from_command("omega"), Token::Letter('ω', Variant::Italic));
    assert_eq!(Token::from_command("Omega"), Token::Letter('Ω', Variant::Normal));
    assert_eq!(Token::from_command("infty"), Token::Letter('∞', Variant::Normal));
    assert_eq!(Token::from_command("times"), Token::Operator('×'));
    assert_eq!(Token::from_command("partial"), Token::Operator('∂'));
    assert_eq!(Token::from_command("rightarrow"), Token::Operator('→'));
    assert_eq!(Token::from_command("sin"), Token::Function("sin"));
    assert_eq!(Token::from_command("lim"), Token::Lim("lim"));
    assert_eq!(Token::from_command("liminf"), Token::Lim("lim inf"));
    assert_eq!(Token::from_command("sum"), Token::BigOp('∑'));
    assert_eq!(Token::from_command("int"), Token::Integral('∫'));
    assert_eq!(Token::from_command("dot"), Token::Over('\u{02d9}', Accent::True));
    assert_eq!(Token::from_command("underline"), Token::Under('_', Accent::False));
    assert_eq!(Token::from_command("overbrace"), Token::Overbrace('\u{23de}'));
    assert_eq!(Token::from_command("underbrace"), Token::Underbrace('\u{23df}'));
    assert_eq!(Token::from_command("mathbf"), Token::Style(Variant::Bold));
    assert_eq!(Token::from_command("mathbb"), Token::Style(Variant::DoubleStruck));
    assert_eq!(Token::from_command("{"), Token::Paren("{"));
    assert_eq!(Token::from_command("}"), Token::Paren("}"));
    assert_eq!(Token::from_command("langle"), Token::Paren("⟨"));
    assert_eq!(Token::from_command("bigl"), Token::Big("1.2em"));
    assert_eq!(Token::from_command("Biggr"), Token::Big("2.470em"));
}

#[test]
fn from_command_knows_the_spaces() {
    assert_eq!(Token::from_command("!"), Token::Space(-1667));
    assert_eq!(Token::from_command(","), Token::Space(1667));
    assert_eq!(Token::from_command(":"), Token::Space(2222));
    assert_eq!(Token::from_command(";"), Token::Space(2778));
    assert_eq!(Token::from_command(" "), Token::Space(10000));
    assert_eq!(Token::from_command("quad"), Token::Space(10000));
    assert_eq!(Token::from_command("qquad"), Token::Space(20000));
}

#[test]
fn from_command_gives_the_same_token_for_the_same_name() {
    for name in ["alpha", "sqrt", "nosuchcommand", "#", "", "sum", "\\", "é"] {
        let again: String = name.chars().collect();
        assert_eq!(Token::from_command(name), Token::from_command(&again));
    }
}

#[test]
fn from_command_takes_an_unknown_character_as_a_letter() {
    assert_eq!(Token::from_command("#"), Token::Letter('#', Variant::Normal));
    assert_eq!(Token::from_command("%"), Token::Letter('%', Variant::Normal));
    assert_eq!(Token::from_command("q"), Token::Letter('q', Variant::Normal));
    assert_eq!(Token::from_command("é"), Token::Letter('é', Variant::Normal));
    assert_eq!(Token::from_command("\0"), Token::Letter('\0', Variant::Normal));
}

#[test]
fn from_command_keeps_an_unknown_name() {
    assert_eq!(Token::from_command("erf"), Token::Command("erf".to_owned()));
    assert_eq!(Token::from_command("nosuchcommand"), Token::Command("nosuchcommand".to_owned()));
    assert_eq!(Token::from_command(""), Token::Command(String::new()));
    assert_eq!(Token::from_command("Alpha"), Token::Command("Alpha".to_owned()));
}

#[test]
fn acts_on_a_digit_holds_of_roots_and_fractions() {
    assert!(Token::Sqrt.acts_on_a_digit());
    assert!(Token::Frac.acts_on_a_digit());
    assert!(Token::Binom(None).acts_on_a_digit());
    assert!(Token::Binom(Some(DisplayStyle::Block)).acts_on_a_digit());
    assert!(!Token::Overset.acts_on_a_digit());
    assert!(!Token::Style(Variant::Bold).acts_on_a_digit());
    assert!(!Token::Number("1".to_owned()).acts_on_a_digit());
    assert!(!Token::EOF.acts_on_a_digit());
}

#[test]
fn token_equality_looks_at_the_payload() {
    assert_eq!(Token::Paren("("), Token::Paren("("));
    assert_ne!(Token::Paren("("), Token::Paren(")"));
    assert_ne!(Token::Number("1".to_owned()), Token::Number("10".to_owned()));
    assert_ne!(Token::Letter('x', Variant::Italic), Token::Letter('x', Variant::Normal));
    assert_ne!(Token::Over('^', Accent::True), Token::Under('^', Accent::True));
    assert_ne!(Token::Binom(None), Token::Binom(Some(DisplayStyle::Inline)));
    assert_ne!(Token::Space(10000), Token::Space(20000));
    assert_ne!(Token::LBrace, Token::RBrace);
    assert_eq!(Token::Command("a".to_owned()).clone(), Token::Command("a".to_owned()));
}

#[test]
fn description_names_the_kind_and_the_payload() {
    assert_eq!(Token::EOF.description(), "EOF");
    assert_eq!(Token::RBrace.description(), "RBrace");
    assert_eq!(Token::Illegal('\0').description(), r"Illegal('\0')");
    assert_eq!(Token::Paren("(").description(), r#"Paren("(")"#);
    assert_eq!(Token::Paren("").description(), r#"Paren("")"#);
    assert_eq!(Token::Number("3.14".to_owned()).description(), r#"Number("3.14")"#);
    assert_eq!(Token::Letter('x', Variant::Italic).description(), "Letter('x', Italic)");
    assert_eq!(Token::Operator('\'').description(), r"Operator('\'')");
    assert_eq!(Token::Operator('"').description(), r#"Operator('"')"#);
    assert_eq!(Token::Operator('\\').description(), r"Operator('\\')");
    assert_eq!(Token::Over('^', Accent::True).description(), "Over('^', True)");
    assert_eq!(Token::Binom(None).description(), "Binom(None)");
    assert_eq!(Token::Binom(Some(DisplayStyle::Block)).description(), "Binom(Some(Block))");
    assert_eq!(Token::Space(-1667).description(), "Space(-1667)");
    assert_eq!(Token::Space(0).description(), "Space(0)");
    assert_eq!(Token::Style(Variant::SansSerifBoldItalic).description(), "Style(SansSerifBoldItalic)");
    assert_eq!(Token::Command("erf".to_owned()).description(), r#"Command("erf")"#);
    assert_eq!(Token::Command("a\"b\\c\n".to_owned()).description(), r#"Command("a\"b\\c\n")"#);
    assert_eq!(Token::Function("sin").description(), r#"Function("sin")"#);
    assert_eq!(Token::Big("1.2em").description(), r#"Big("1.2em")"#);
}
