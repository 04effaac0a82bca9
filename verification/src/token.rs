//! The tokens of a formula.

use vstd::prelude::*;
use vstd::std_specs::cmp::PartialEqSpecImpl;
use crate::attribute::{Accent, DisplayStyle, Variant};
use crate::text::{
    push_quoted_char, push_quoted_text, push_signed_decimal, quoted_char, quoted_text, same_text,
    signed_decimal,
};
use crate::vocabulary::{
    accent_above, accent_below, arrow, big_operator, binary_operator, brace_above, brace_below,
    delimiter, delimiter_size, find_accent_above, find_accent_below, find_arrow,
    find_big_operator, find_binary_operator, find_brace_above, find_brace_below, find_delimiter,
    find_delimiter_size, find_function_name, find_integral_sign, find_italic_letter,
    find_keyword, find_limit_function, find_relation, find_sign, find_space_width, find_style,
    find_upright_letter, function_name, integral_sign, italic_letter, keyword, limit_function,
    relation, sign, space_width, style, upright_letter,
};

verus! {

/// One lexical unit of a formula.
#[derive(Debug)]
pub enum Token {
    /// A character that no rule accepts.
    Illegal(char),
    /// The end of the input.
    EOF,
    /// `\begin`, which opens an environment.
    Begin,
    /// `\end`, which closes an environment.
    End,
    /// `&`, which ends a cell of a table.
    Ampersand,
    /// `\\`, which ends a row of a table.
    NewLine,
    /// `\left`, before the delimiter that opens a fence.
    Left,
    /// `\right`, before the delimiter that closes a fence.
    Right,
    /// `\middle`, before a delimiter inside a fence.
    Middle,
    /// A delimiter, with the text it is written with.
    Paren(&'static str),
    /// `{`, which opens a group.
    LBrace,
    /// `}`, which closes a group.
    RBrace,
    /// `\frac`, a fraction.
    Frac,
    /// `_`, before a subscript.
    Underscore,
    /// `^`, before a superscript.
    Circumflex,
    /// A binomial coefficient, with the size it asks for.
    Binom(Option<DisplayStyle>),
    /// `\overset`: the first argument above the second.
    Overset,
    /// `\underset`: the first argument below the second.
    Underset,
    /// A brace above what follows, with the character of the brace.
    Overbrace(char),
    /// A brace below what follows, with the character of the brace.
    Underbrace(char),
    /// `\sqrt`, a root.
    Sqrt,
    /// An integral sign.
    Integral(char),
    /// A function that takes a limit below it, with the text it is set in.
    Lim(&'static str),
    /// A space, with its width in ten-thousandths of an em.
    Space(i32),
    /// A command that sets the font of the letters in its argument.
    Style(Variant),
    /// The size of the delimiter that follows.
    Big(&'static str),
    /// An accent or a line above what follows.
    Over(char, Accent),
    /// An accent or a line below what follows.
    Under(char, Accent),
    /// An operator, a relation or another sign.
    Operator(char),
    /// An operator that takes limits below and above it.
    BigOp(char),
    /// A letter with its font: italic for the letters of the alphabets, upright
    /// for every other character.
    Letter(char, Variant),
    /// A numeral, with the text it was written with.
    Number(String),
    /// A function that is set upright under its name.
    Function(&'static str),
    /// `\operatorname`, before the name of a function.
    OperatorName,
    /// `\slashed`, which strikes through its argument.
    Slashed,
    /// `\text`, before a text in braces.
    Text,
    /// A command that the vocabulary does not hold, with its name.
    Command(String),
}

/// What a token is, with each text as a sequence of characters. The variants
/// are those of [`Token`].
pub enum TokenView {
    Illegal(char),
    EOF,
    Begin,
    End,
    Ampersand,
    NewLine,
    Left,
    Right,
    Middle,
    Paren(Seq<char>),
    LBrace,
    RBrace,
    Frac,
    Underscore,
    Circumflex,
    Binom(Option<DisplayStyle>),
    Overset,
    Underset,
    Overbrace(char),
    Underbrace(char),
    Sqrt,
    Integral(char),
    Lim(Seq<char>),
    Space(i32),
    Style(Variant),
    Big(Seq<char>),
    Over(char, Accent),
    Under(char, Accent),
    Operator(char),
    BigOp(char),
    Letter(char, Variant),
    Number(Seq<char>),
    Function(Seq<char>),
    OperatorName,
    Slashed,
    Text,
    Command(Seq<char>),
}

impl View for Token {
    type V = TokenView;

    open spec fn view(&self) -> TokenView {
        match self {
            Token::Illegal(a) => TokenView::Illegal(*a),
            Token::EOF => TokenView::EOF,
            Token::Begin => TokenView::Begin,
            Token::End => TokenView::End,
            Token::Ampersand => TokenView::Ampersand,
            Token::NewLine => TokenView::NewLine,
            Token::Left => TokenView::Left,
            Token::Right => TokenView::Right,
            Token::Middle => TokenView::Middle,
            Token::Paren(a) => TokenView::Paren(a@),
            Token::LBrace => TokenView::LBrace,
            Token::RBrace => TokenView::RBrace,
            Token::Frac => TokenView::Frac,
            Token::Underscore => TokenView::Underscore,
            Token::Circumflex => TokenView::Circumflex,
            Token::Binom(a) => TokenView::Binom(*a),
            Token::Overset => TokenView::Overset,
            Token::Underset => TokenView::Underset,
            Token::Overbrace(a) => TokenView::Overbrace(*a),
            Token::Underbrace(a) => TokenView::Underbrace(*a),
            Token::Sqrt => TokenView::Sqrt,
            Token::Integral(a) => TokenView::Integral(*a),
            Token::Lim(a) => TokenView::Lim(a@),
            Token::Space(a) => TokenView::Space(*a),
            Token::Style(a) => TokenView::Style(*a),
            Token::Big(a) => TokenView::Big(a@),
            Token::Over(a, b) => TokenView::Over(*a, *b),
            Token::Under(a, b) => TokenView::Under(*a, *b),
            Token::Operator(a) => TokenView::Operator(*a),
            Token::BigOp(a) => TokenView::BigOp(*a),
            Token::Letter(a, b) => TokenView::Letter(*a, *b),
            Token::Number(a) => TokenView::Number(a@),
            Token::Function(a) => TokenView::Function(a@),
            Token::OperatorName => TokenView::OperatorName,
            Token::Slashed => TokenView::Slashed,
            Token::Text => TokenView::Text,
            Token::Command(a) => TokenView::Command(a@),
        }
    }
}

impl Clone for Token {
    fn clone(&self) -> (r: Self)
        ensures
            r@ == self@,
    {
        match self {
            Token::Illegal(a) => Token::Illegal(*a),
            Token::EOF => Token::EOF,
            Token::Begin => Token::Begin,
            Token::End => Token::End,
            Token::Ampersand => Token::Ampersand,
            Token::NewLine => Token::NewLine,
            Token::Left => Token::Left,
            Token::Right => Token::Right,
            Token::Middle => Token::Middle,
            Token::Paren(a) => Token::Paren(a),
            Token::LBrace => Token::LBrace,
            Token::RBrace => Token::RBrace,
            Token::Frac => Token::Frac,
            Token::Underscore => Token::Underscore,
            Token::Circumflex => Token::Circumflex,
            Token::Binom(a) => Token::Binom(*a),
            Token::Overset => Token::Overset,
            Token::Underset => Token::Underset,
            Token::Overbrace(a) => Token::Overbrace(*a),
            Token::Underbrace(a) => Token::Underbrace(*a),
            Token::Sqrt => Token::Sqrt,
            Token::Integral(a) => Token::Integral(*a),
            Token::Lim(a) => Token::Lim(a),
            Token::Space(a) => Token::Space(*a),
            Token::Style(a) => Token::Style(*a),
            Token::Big(a) => Token::Big(a),
            Token::Over(a, b) => Token::Over(*a, *b),
            Token::Under(a, b) => Token::Under(*a, *b),
            Token::Operator(a) => Token::Operator(*a),
            Token::BigOp(a) => Token::BigOp(*a),
            Token::Letter(a, b) => Token::Letter(*a, *b),
            Token::Number(a) => Token::Number(a.clone()),
            Token::Function(a) => Token::Function(a),
            Token::OperatorName => Token::OperatorName,
            Token::Slashed => Token::Slashed,
            Token::Text => Token::Text,
            Token::Command(a) => Token::Command(a.clone()),
        }
    }
}

impl PartialEq for Token {
    fn eq(&self, other: &Token) -> (r: bool) {
        match (self, other) {
            (Token::Illegal(a), Token::Illegal(xa)) => *a == *xa,
            (Token::EOF, Token::EOF) => true,
            (Token::Begin, Token::Begin) => true,
            (Token::End, Token::End) => true,
            (Token::Ampersand, Token::Ampersand) => true,
            (Token::NewLine, Token::NewLine) => true,
            (Token::Left, Token::Left) => true,
            (Token::Right, Token::Right) => true,
            (Token::Middle, Token::Middle) => true,
            (Token::Paren(a), Token::Paren(xa)) => same_text(a, xa),
            (Token::LBrace, Token::LBrace) => true,
            (Token::RBrace, Token::RBrace) => true,
            (Token::Frac, Token::Frac) => true,
            (Token::Underscore, Token::Underscore) => true,
            (Token::Circumflex, Token::Circumflex) => true,
            (Token::Binom(a), Token::Binom(xa)) => same_display(*a, *xa),
            (Token::Overset, Token::Overset) => true,
            (Token::Underset, Token::Underset) => true,
            (Token::Overbrace(a), Token::Overbrace(xa)) => *a == *xa,
            (Token::Underbrace(a), Token::Underbrace(xa)) => *a == *xa,
            (Token::Sqrt, Token::Sqrt) => true,
            (Token::Integral(a), Token::Integral(xa)) => *a == *xa,
            (Token::Lim(a), Token::Lim(xa)) => same_text(a, xa),
            (Token::Space(a), Token::Space(xa)) => *a == *xa,
            (Token::Style(a), Token::Style(xa)) => *a == *xa,
            (Token::Big(a), Token::Big(xa)) => same_text(a, xa),
            (Token::Over(a, b), Token::Over(xa, xb)) => *a == *xa && *b == *xb,
            (Token::Under(a, b), Token::Under(xa, xb)) => *a == *xa && *b == *xb,
            (Token::Operator(a), Token::Operator(xa)) => *a == *xa,
            (Token::BigOp(a), Token::BigOp(xa)) => *a == *xa,
            (Token::Letter(a, b), Token::Letter(xa, xb)) => *a == *xa && *b == *xb,
            (Token::Number(a), Token::Number(xa)) => same_text(a.as_str(), xa.as_str()),
            (Token::Function(a), Token::Function(xa)) => same_text(a, xa),
            (Token::OperatorName, Token::OperatorName) => true,
            (Token::Slashed, Token::Slashed) => true,
            (Token::Text, Token::Text) => true,
            (Token::Command(a), Token::Command(xa)) => same_text(a.as_str(), xa.as_str()),
            _ => false,
        }
    }
}

impl PartialEqSpecImpl for Token {
    open spec fn obeys_eq_spec() -> bool {
        true
    }

    open spec fn eq_spec(&self, other: &Token) -> bool {
        self@ == other@
    }
}

fn same_display(a: Option<DisplayStyle>, b: Option<DisplayStyle>) -> (r: bool)
    ensures
        r == (a == b),
{
    match (a, b) {
        (None, None) => true,
        (Some(x), Some(y)) => x == y,
        _ => false,
    }
}

impl TokenView {
    /// Whether a digit directly behind the token is an argument of its own.
    pub open spec fn acts_on_a_digit(self) -> bool {
        self is Sqrt || self is Frac || self is Binom
    }

    /// The token in words: the name of its kind and, in parentheses, what it
    /// holds. Characters stand in single quotes, texts in double quotes.
    pub open spec fn description(self) -> Seq<char> {
        match self {
            TokenView::Illegal(a) => "Illegal("@ + quoted_char(a) + ")"@,
            TokenView::EOF => "EOF"@,
            TokenView::Begin => "Begin"@,
            TokenView::End => "End"@,
            TokenView::Ampersand => "Ampersand"@,
            TokenView::NewLine => "NewLine"@,
            TokenView::Left => "Left"@,
            TokenView::Right => "Right"@,
            TokenView::Middle => "Middle"@,
            TokenView::Paren(a) => "Paren("@ + quoted_text(a) + ")"@,
            TokenView::LBrace => "LBrace"@,
            TokenView::RBrace => "RBrace"@,
            TokenView::Frac => "Frac"@,
            TokenView::Underscore => "Underscore"@,
            TokenView::Circumflex => "Circumflex"@,
            TokenView::Binom(a) => "Binom("@ + display_description(a) + ")"@,
            TokenView::Overset => "Overset"@,
            TokenView::Underset => "Underset"@,
            TokenView::Overbrace(a) => "Overbrace("@ + quoted_char(a) + ")"@,
            TokenView::Underbrace(a) => "Underbrace("@ + quoted_char(a) + ")"@,
            TokenView::Sqrt => "Sqrt"@,
            TokenView::Integral(a) => "Integral("@ + quoted_char(a) + ")"@,
            TokenView::Lim(a) => "Lim("@ + quoted_text(a) + ")"@,
            TokenView::Space(a) => "Space("@ + signed_decimal(a as int) + ")"@,
            TokenView::Style(a) => "Style("@ + a.name() + ")"@,
            TokenView::Big(a) => "Big("@ + quoted_text(a) + ")"@,
            TokenView::Over(a, b) => "Over("@ + quoted_char(a) + ", "@ + b.name() + ")"@,
            TokenView::Under(a, b) => "Under("@ + quoted_char(a) + ", "@ + b.name() + ")"@,
            TokenView::Operator(a) => "Operator("@ + quoted_char(a) + ")"@,
            TokenView::BigOp(a) => "BigOp("@ + quoted_char(a) + ")"@,
            TokenView::Letter(a, b) => "Letter("@ + quoted_char(a) + ", "@ + b.name() + ")"@,
            TokenView::Number(a) => "Number("@ + quoted_text(a) + ")"@,
            TokenView::Function(a) => "Function("@ + quoted_text(a) + ")"@,
            TokenView::OperatorName => "OperatorName"@,
            TokenView::Slashed => "Slashed"@,
            TokenView::Text => "Text"@,
            TokenView::Command(a) => "Command("@ + quoted_text(a) + ")"@,
        }
    }
}

/// The size that a binomial coefficient asks for, in words.
pub open spec fn display_description(d: Option<DisplayStyle>) -> Seq<char> {
    match d {
        None => "None"@,
        Some(x) => "Some("@ + x.name() + ")"@,
    }
}

impl Token {
    /// Whether a digit directly behind the token is an argument of its own:
    /// so it is behind a root, a fraction and a binomial coefficient.
    pub fn acts_on_a_digit(&self) -> (r: bool)
        ensures
            r == self@.acts_on_a_digit(),
    {
        match self {
            Token::Sqrt | Token::Frac | Token::Binom(_) => true,
            _ => false,
        }
    }

    /// The token in words, for a diagnostic.
    pub fn description(&self) -> (s: String)
        ensures
            s@ == self@.description(),
    {
        match self {
            Token::Illegal(a) => {
                let mut s = "Illegal(".to_owned();
                push_quoted_char(&mut s, *a);
                s.append(")");
                s
            },
            Token::EOF => "EOF".to_owned(),
            Token::Begin => "Begin".to_owned(),
            Token::End => "End".to_owned(),
            Token::Ampersand => "Ampersand".to_owned(),
            Token::NewLine => "NewLine".to_owned(),
            Token::Left => "Left".to_owned(),
            Token::Right => "Right".to_owned(),
            Token::Middle => "Middle".to_owned(),
            Token::Paren(a) => {
                let mut s = "Paren(".to_owned();
                push_quoted_text(&mut s, a);
                s.append(")");
                s
            },
            Token::LBrace => "LBrace".to_owned(),
            Token::RBrace => "RBrace".to_owned(),
            Token::Frac => "Frac".to_owned(),
            Token::Underscore => "Underscore".to_owned(),
            Token::Circumflex => "Circumflex".to_owned(),
            Token::Binom(a) => {
                let mut s = "Binom(".to_owned();
                match a {
                    None => s.append("None"),
                    Some(x) => {
                        s.append("Some(");
                        s.append(x.debug_name());
                        s.append(")");
                    },
                }
                s.append(")");
                assert(s@ =~= self@.description());
                s
            },
            Token::Overset => "Overset".to_owned(),
            Token::Underset => "Underset".to_owned(),
            Token::Overbrace(a) => {
                let mut s = "Overbrace(".to_owned();
                push_quoted_char(&mut s, *a);
                s.append(")");
                s
            },
            Token::Underbrace(a) => {
                let mut s = "Underbrace(".to_owned();
                push_quoted_char(&mut s, *a);
                s.append(")");
                s
            },
            Token::Sqrt => "Sqrt".to_owned(),
            Token::Integral(a) => {
                let mut s = "Integral(".to_owned();
                push_quoted_char(&mut s, *a);
                s.append(")");
                s
            },
            Token::Lim(a) => {
                let mut s = "Lim(".to_owned();
                push_quoted_text(&mut s, a);
                s.append(")");
                s
            },
            Token::Space(a) => {
                let mut s = "Space(".to_owned();
                push_signed_decimal(&mut s, *a);
                s.append(")");
                s
            },
            Token::Style(a) => {
                let mut s = "Style(".to_owned();
                s.append(a.debug_name());
                s.append(")");
                s
            },
            Token::Big(a) => {
                let mut s = "Big(".to_owned();
                push_quoted_text(&mut s, a);
                s.append(")");
                s
            },
            Token::Over(a, b) => {
                let mut s = "Over(".to_owned();
                push_quoted_char(&mut s, *a);
                s.append(", ");
                s.append(b.debug_name());
                s.append(")");
                s
            },
            Token::Under(a, b) => {
                let mut s = "Under(".to_owned();
                push_quoted_char(&mut s, *a);
                s.append(", ");
                s.append(b.debug_name());
                s.append(")");
                s
            },
            Token::Operator(a) => {
                let mut s = "Operator(".to_owned();
                push_quoted_char(&mut s, *a);
                s.append(")");
                s
            },
            Token::BigOp(a) => {
                let mut s = "BigOp(".to_owned();
                push_quoted_char(&mut s, *a);
                s.append(")");
                s
            },
            Token::Letter(a, b) => {
                let mut s = "Letter(".to_owned();
                push_quoted_char(&mut s, *a);
                s.append(", ");
                s.append(b.debug_name());
                s.append(")");
                s
            },
            Token::Number(a) => {
                let mut s = "Number(".to_owned();
                push_quoted_text(&mut s, a.as_str());
                s.append(")");
                s
            },
            Token::Function(a) => {
                let mut s = "Function(".to_owned();
                push_quoted_text(&mut s, a);
                s.append(")");
                s
            },
            Token::OperatorName => "OperatorName".to_owned(),
            Token::Slashed => "Slashed".to_owned(),
            Token::Text => "Text".to_owned(),
            Token::Command(a) => {
                let mut s = "Command(".to_owned();
                push_quoted_text(&mut s, a.as_str());
                s.append(")");
                s
            },
        }
    }

    /// The token that the command `command` stands for. `command` is what
    /// follows the backslash: a run of letters, or one other character.
    ///
    /// A name outside the vocabulary is no error: one character alone is
    /// taken as an upright letter, any other name gives [`Token::Command`].
    pub fn from_command(command: &str) -> (t: Token)
        ensures
            t@ == classify(command@),
    {
        reveal(classify);
        if let Some(t) = find_keyword(command) {
            return t;
        }
        if let Some(v) = find_style(command) {
            return Token::Style(v);
        }
        if let Some(w) = find_space_width(command) {
            return Token::Space(w);
        }
        if let Some(s) = find_delimiter(command) {
            return Token::Paren(s);
        }
        if let Some(s) = find_limit_function(command) {
            return Token::Lim(s);
        }
        if let Some(c) = find_integral_sign(command) {
            return Token::Integral(c);
        }
        if let Some((c, a)) = find_accent_above(command) {
            return Token::Over(c, a);
        }
        if let Some((c, a)) = find_accent_below(command) {
            return Token::Under(c, a);
        }
        if let Some(c) = find_brace_above(command) {
            return Token::Overbrace(c);
        }
        if let Some(c) = find_brace_below(command) {
            return Token::Underbrace(c);
        }
        if let Some(c) = find_big_operator(command) {
            return Token::BigOp(c);
        }
        if let Some(s) = find_delimiter_size(command) {
            return Token::Big(s);
        }
        if let Some(s) = find_function_name(command) {
            return Token::Function(s);
        }
        if let Some(c) = find_italic_letter(command) {
            return Token::Letter(c, Variant::Italic);
        }
        if let Some(c) = find_upright_letter(command) {
            return Token::Letter(c, Variant::Normal);
        }
        if let Some(c) = find_sign(command) {
            return Token::Operator(c);
        }
        if let Some(c) = find_binary_operator(command) {
            return Token::Operator(c);
        }
        if let Some(c) = find_relation(command) {
            return Token::Operator(c);
        }
        if let Some(c) = find_arrow(command) {
            return Token::Operator(c);
        }
        if command.unicode_len() == 1 {
            Token::Letter(command.get_char(0), Variant::Normal)
        } else {
            Token::Command(command.to_owned())
        }
    }
}

/// Whether the vocabulary holds the name.
pub open spec fn is_known(name: Seq<char>) -> bool {
    ||| keyword(name) is Some
    ||| style(name) is Some
    ||| space_width(name) is Some
    ||| delimiter(name) is Some
    ||| limit_function(name) is Some
    ||| integral_sign(name) is Some
    ||| accent_above(name) is Some
    ||| accent_below(name) is Some
    ||| brace_above(name) is Some
    ||| brace_below(name) is Some
    ||| big_operator(name) is Some
    ||| delimiter_size(name) is Some
    ||| function_name(name) is Some
    ||| italic_letter(name) is Some
    ||| upright_letter(name) is Some
    ||| sign(name) is Some
    ||| binary_operator(name) is Some
    ||| relation(name) is Some
    ||| arrow(name) is Some
}

/// The token that a command name stands for.
#[verifier::opaque]
pub open spec fn classify(name: Seq<char>) -> TokenView {
    if keyword(name) is Some {
        keyword(name)->0
    } else if style(name) is Some {
        TokenView::Style(style(name)->0)
    } else if space_width(name) is Some {
        TokenView::Space(space_width(name)->0)
    } else if delimiter(name) is Some {
        TokenView::Paren(delimiter(name)->0)
    } else if limit_function(name) is Some {
        TokenView::Lim(limit_function(name)->0)
    } else if integral_sign(name) is Some {
        TokenView::Integral(integral_sign(name)->0)
    } else if accent_above(name) is Some {
        let (c, a) = accent_above(name)->0;
        TokenView::Over(c, a)
    } else if accent_below(name) is Some {
        let (c, a) = accent_below(name)->0;
        TokenView::Under(c, a)
    } else if brace_above(name) is Some {
        TokenView::Overbrace(brace_above(name)->0)
    } else if brace_below(name) is Some {
        TokenView::Underbrace(brace_below(name)->0)
    } else if big_operator(name) is Some {
        TokenView::BigOp(big_operator(name)->0)
    } else if delimiter_size(name) is Some {
        TokenView::Big(delimiter_size(name)->0)
    } else if function_name(name) is Some {
        TokenView::Function(function_name(name)->0)
    } else if italic_letter(name) is Some {
        TokenView::Letter(italic_letter(name)->0, Variant::Italic)
    } else if upright_letter(name) is Some {
        TokenView::Letter(upright_letter(name)->0, Variant::Normal)
    } else if sign(name) is Some {
        TokenView::Operator(sign(name)->0)
    } else if binary_operator(name) is Some {
        TokenView::Operator(binary_operator(name)->0)
    } else if relation(name) is Some {
        TokenView::Operator(relation(name)->0)
    } else if arrow(name) is Some {
        TokenView::Operator(arrow(name)->0)
    } else if name.len() == 1 {
        TokenView::Letter(name[0], Variant::Normal)
    } else {
        TokenView::Command(name)
    }
}

/// Classification is a function of the name's characters: two names with the
/// same characters stand for the same token, whatever was classified before.
pub proof fn lemma_classify_is_a_function(a: Seq<char>, b: Seq<char>)
    requires
        a =~= b,
    ensures
        classify(a) == classify(b),
{
}

/// A name outside the vocabulary never fails: one character alone is an
/// upright letter, anything else is kept as an unknown command.
pub proof fn lemma_classify_unknown(name: Seq<char>)
    requires
        !is_known(name),
    ensures
        name.len() == 1 ==> classify(name) == TokenView::Letter(name[0], Variant::Normal),
        name.len() != 1 ==> classify(name) == TokenView::Command(name),
{
    reveal(classify);
}

} // verus!
