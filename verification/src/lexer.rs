//! The lexer: from the characters of a formula to its tokens, one at a time.
//!
//! The contracts speak of the input as a `Seq<char>` and of a position in it.
//! Behind the last character the input reads as the zero character for ever.

use vstd::prelude::*;
use crate::attribute::Variant;
use crate::text::{
    char_is_blank, char_is_digit, char_is_letter, chars_of, is_blank, is_digit, is_letter,
};
use crate::token::{classify, Token, TokenView};

verus! {

/// The character at `pos`, or the zero character behind the end.
pub open spec fn char_at(input: Seq<char>, pos: nat) -> char {
    if pos < input.len() {
        input[pos as int]
    } else {
        '\0'
    }
}

/// The position behind the character at `pos`; behind the end it stays.
pub open spec fn after(input: Seq<char>, pos: nat) -> nat {
    if pos < input.len() {
        pos + 1
    } else {
        pos
    }
}

/// The first position from `pos` on that holds no blank.
pub open spec fn skip_blanks(input: Seq<char>, pos: nat) -> nat
    decreases input.len() - pos,
{
    if pos < input.len() && is_blank(input[pos as int]) {
        skip_blanks(input, pos + 1)
    } else {
        pos
    }
}

/// The end of the numeral that starts at `pos`: the longest run of digits and
/// of at most one decimal point. `dotted` says that the point has been seen.
pub open spec fn number_end(input: Seq<char>, pos: nat, dotted: bool) -> nat
    decreases input.len() - pos,
{
    if pos < input.len() && (is_digit(input[pos as int]) || (input[pos as int] == '.' && !dotted)) {
        number_end(input, pos + 1, dotted || input[pos as int] == '.')
    } else {
        pos
    }
}

/// The end of the longest run of letters that starts at `pos`.
pub open spec fn letters_end(input: Seq<char>, pos: nat) -> nat
    decreases input.len() - pos,
{
    if pos < input.len() && is_letter(input[pos as int]) {
        letters_end(input, pos + 1)
    } else {
        pos
    }
}

/// The end of the command whose name starts at `pos`, the position behind the
/// backslash: behind the longest run of letters, or behind one other character.
pub open spec fn command_end(input: Seq<char>, pos: nat) -> nat {
    if is_letter(char_at(input, pos)) {
        letters_end(input, pos + 1)
    } else {
        after(input, pos)
    }
}

/// The name of the command that starts at `pos`, the position behind the
/// backslash. It holds one character at least: behind the end of the input
/// that is the zero character.
pub open spec fn command_name(input: Seq<char>, pos: nat) -> Seq<char> {
    if is_letter(char_at(input, pos)) {
        input.subrange(pos as int, letters_end(input, pos + 1) as int)
    } else {
        seq![char_at(input, pos)]
    }
}

/// The token that one character alone stands for.
pub open spec fn symbol(c: char) -> TokenView {
    if c == '=' || c == ';' || c == ',' || c == '.' || c == '\'' || c == '+' || c == '-' || c
        == '*' || c == '/' || c == '!' || c == '<' || c == '>' || c == ':' {
        TokenView::Operator(c)
    } else if c == '(' || c == ')' || c == '[' || c == ']' || c == '|' {
        TokenView::Paren(seq![c])
    } else if c == '{' {
        TokenView::LBrace
    } else if c == '}' {
        TokenView::RBrace
    } else if c == '_' {
        TokenView::Underscore
    } else if c == '^' {
        TokenView::Circumflex
    } else if c == '&' {
        TokenView::Ampersand
    } else if c == '\0' {
        TokenView::EOF
    } else if is_letter(c) {
        TokenView::Letter(c, Variant::Italic)
    } else {
        TokenView::Letter(c, Variant::Normal)
    }
}

/// The token that starts at `pos`, blanks skipped, and the position behind it.
pub open spec fn token_at(input: Seq<char>, pos: nat) -> (TokenView, nat) {
    let p = skip_blanks(input, pos);
    let c = char_at(input, p);
    if c == '\\' {
        (classify(command_name(input, p + 1)), command_end(input, p + 1))
    } else if is_digit(c) {
        let end = number_end(input, p, false);
        (TokenView::Number(input.subrange(p as int, end as int)), end)
    } else if c == ':' && char_at(input, p + 1) == '=' {
        (TokenView::Paren(":="@), p + 2)
    } else {
        (symbol(c), after(input, p))
    }
}

/// Blanks are skipped up to the first character that is none, and never
/// beyond the end of the input.
pub proof fn lemma_skip_blanks(input: Seq<char>, pos: nat)
    ensures
        pos <= skip_blanks(input, pos),
        pos <= input.len() ==> skip_blanks(input, pos) <= input.len(),
        forall|i: int| pos <= i < skip_blanks(input, pos) ==> is_blank(#[trigger] input[i]),
        !is_blank(char_at(input, skip_blanks(input, pos))),
    decreases input.len() - pos,
{
    if pos < input.len() && is_blank(input[pos as int]) {
        lemma_skip_blanks(input, pos + 1);
    }
}

/// A run of letters ends at the first character that is none, and never
/// beyond the end of the input.
pub proof fn lemma_letters_end(input: Seq<char>, pos: nat)
    ensures
        pos <= letters_end(input, pos),
        pos <= input.len() ==> letters_end(input, pos) <= input.len(),
        forall|i: int| pos <= i < letters_end(input, pos) ==> is_letter(#[trigger] input[i]),
        !is_letter(char_at(input, letters_end(input, pos))),
    decreases input.len() - pos,
{
    if pos < input.len() && is_letter(input[pos as int]) {
        lemma_letters_end(input, pos + 1);
    }
}

/// A numeral is the longest run that it can be: it holds digits and decimal
/// points only, and one point at most, counting one seen before `pos`; what
/// follows it is no digit, and is a point only where the numeral has its point.
pub proof fn lemma_number_end(input: Seq<char>, pos: nat, dotted: bool)
    ensures
        pos <= number_end(input, pos, dotted),
        pos <= input.len() ==> number_end(input, pos, dotted) <= input.len(),
        forall|i: int|
            pos <= i < number_end(input, pos, dotted) ==> is_digit(#[trigger] input[i]) || input[i]
                == '.',
        forall|i: int, j: int|
            pos <= i < j < number_end(input, pos, dotted) ==> !(#[trigger] input[i] == '.'
                && #[trigger] input[j] == '.'),
        dotted ==> forall|i: int|
            pos <= i < number_end(input, pos, dotted) ==> #[trigger] input[i] != '.',
        !is_digit(char_at(input, number_end(input, pos, dotted))),
        char_at(input, number_end(input, pos, dotted)) == '.' ==> dotted || exists|i: int|
            pos <= i < number_end(input, pos, dotted) && #[trigger] input[i] == '.',
    decreases input.len() - pos,
{
    if pos < input.len() && (is_digit(input[pos as int]) || (input[pos as int] == '.' && !dotted)) {
        let d = dotted || input[pos as int] == '.';
        lemma_number_end(input, pos + 1, d);
        let end = number_end(input, pos, dotted);
        if char_at(input, end) == '.' && !dotted {
            if input[pos as int] == '.' {
                assert(pos <= pos < end && input[pos as int] == '.');
            } else {
                let i = choose|i: int| pos + 1 <= i < end && #[trigger] input[i] == '.';
                assert(pos <= i < end && input[i] == '.');
            }
        }
    }
}

/// The text of a numeral is the longest prefix of the input from `pos` on that
/// is made of digits and of one decimal point at most, and a second point
/// starts a token of its own.
pub proof fn lemma_number_token(input: Seq<char>, pos: nat)
    requires
        pos < input.len(),
        is_digit(input[pos as int]),
    ensures
        ({
            let (token, end) = token_at(input, pos);
            &&& token == TokenView::Number(input.subrange(pos as int, end as int))
            &&& pos < end <= input.len()
            &&& forall|i: int| pos <= i < end ==> is_digit(#[trigger] input[i]) || input[i] == '.'
            &&& forall|i: int, j: int|
                pos <= i < j < end ==> !(#[trigger] input[i] == '.' && #[trigger] input[j] == '.')
            &&& !is_digit(char_at(input, end))
            &&& char_at(input, end) == '.' ==> {
                &&& exists|i: int| pos <= i < end && #[trigger] input[i] == '.'
                &&& token_at(input, end) == (TokenView::Operator('.'), end + 1)
            }
        }),
{
    lemma_number_end(input, pos, false);
    assert(skip_blanks(input, pos) == pos);
    let end = number_end(input, pos, false);
    if char_at(input, end) == '.' {
        assert(skip_blanks(input, end) == end);
    }
}

/// A token takes at least one character where one is left, and none behind
/// the end of the input, where the token is the end of the input.
pub proof fn lemma_token_at(input: Seq<char>, pos: nat)
    ensures
        pos < input.len() ==> pos < token_at(input, pos).1 <= input.len(),
        pos >= input.len() ==> token_at(input, pos) == (TokenView::EOF, pos),
{
    lemma_skip_blanks(input, pos);
    let p = skip_blanks(input, pos);
    lemma_number_end(input, p, false);
    lemma_letters_end(input, p + 2);
    if pos < input.len() {
        let c = char_at(input, p);
        if is_digit(c) {
            assert(number_end(input, p, false) == number_end(input, p + 1, false));
            lemma_number_end(input, p + 1, false);
        }
    }
}

/// The lexer: the characters of the formula and the position of the next one.
#[derive(Debug)]
pub struct Lexer {
    input: Vec<char>,
    pos: usize,
}

impl Lexer {
    /// The position lies in the input or right behind it.
    #[verifier::type_invariant]
    spec fn in_bounds(self) -> bool {
        self.pos <= self.input@.len()
    }

    /// The characters of the formula.
    pub closed spec fn input(&self) -> Seq<char> {
        self.input@
    }

    /// The position of the current character.
    pub closed spec fn pos(&self) -> nat {
        self.pos as nat
    }

    /// A lexer at the start of `input`.
    pub fn new(input: &str) -> (l: Lexer)
        ensures
            l.input() == input@,
            l.pos() == 0,
    {
        Lexer { input: chars_of(input), pos: 0 }
    }

    /// The current character.
    pub fn cur(&self) -> (c: char)
        ensures
            c == char_at(self.input(), self.pos()),
    {
        if self.pos < self.input.len() {
            self.input[self.pos]
        } else {
            '\0'
        }
    }

    /// The character behind the current one.
    pub fn peek(&self) -> (c: char)
        ensures
            c == char_at(self.input(), self.pos() + 1),
    {
        if self.pos < self.input.len() && self.pos + 1 < self.input.len() {
            self.input[self.pos + 1]
        } else {
            '\0'
        }
    }

    /// Returns the current character and moves on by one.
    pub fn read_char(&mut self) -> (c: char)
        ensures
            c == char_at(old(self).input(), old(self).pos()),
            final(self).input() == old(self).input(),
            final(self).pos() == after(old(self).input(), old(self).pos()),
    {
        let c = self.cur();
        if self.pos < self.input.len() {
            self.pos = self.pos + 1;
        }
        c
    }

    /// Moves on to the first character that is no blank.
    pub fn skip_whitespace(&mut self)
        ensures
            final(self).input() == old(self).input(),
            final(self).pos() == skip_blanks(old(self).input(), old(self).pos()),
    {
        while char_is_blank(self.cur())
            invariant
                self.input() == old(self).input(),
                skip_blanks(self.input(), self.pos()) == skip_blanks(
                    old(self).input(),
                    old(self).pos(),
                ),
            decreases self.input().len() - self.pos(),
        {
            self.read_char();
        }
    }

    /// Reads the command whose backslash is the current character, and returns
    /// the token that its name stands for.
    pub fn read_command(&mut self) -> (t: Token)
        ensures
            final(self).input() == old(self).input(),
            t@ == classify(
                command_name(old(self).input(), after(old(self).input(), old(self).pos())),
            ),
            final(self).pos() == command_end(
                old(self).input(),
                after(old(self).input(), old(self).pos()),
            ),
    {
        self.read_char();
        proof {
            use_type_invariant(&*self);
        }
        let ghost start = self.pos();
        let mut command = String::new();
        let first = self.read_char();
        command.push(first);
        if char_is_letter(first) {
            while char_is_letter(self.cur())
                invariant
                    self.input() == old(self).input(),
                    start < self.pos() <= self.input().len(),
                    command@ == self.input().subrange(start as int, self.pos() as int),
                    letters_end(self.input(), self.pos()) == letters_end(self.input(), start + 1),
                decreases self.input().len() - self.pos(),
            {
                let c = self.read_char();
                command.push(c);
                assert(self.input().subrange(start as int, self.pos() as int)
                    == self.input().subrange(start as int, self.pos() - 1).push(c));
            }
        }
        Token::from_command(command.as_str())
    }

    /// Reads the numeral that starts at the current character.
    pub fn read_number(&mut self) -> (t: Token)
        ensures
            final(self).input() == old(self).input(),
            final(self).pos() == number_end(old(self).input(), old(self).pos(), false),
            t@ == TokenView::Number(
                old(self).input().subrange(old(self).pos() as int, final(self).pos() as int),
            ),
    {
        let mut number = String::new();
        let mut has_period = false;
        let ghost start = self.pos();
        proof {
            use_type_invariant(&*self);
        }
        while char_is_digit(self.cur()) || (self.cur() == '.' && !has_period)
            invariant
                self.input() == old(self).input(),
                start <= self.pos() <= self.input().len(),
                number@ == self.input().subrange(start as int, self.pos() as int),
                number_end(self.input(), self.pos(), has_period) == number_end(
                    self.input(),
                    start,
                    false,
                ),
            decreases self.input().len() - self.pos(),
        {
            if self.cur() == '.' {
                has_period = true;
            }
            let c = self.read_char();
            number.push(c);
            assert(self.input().subrange(start as int, self.pos() as int)
                == self.input().subrange(start as int, self.pos() - 1).push(c));
        }
        Token::Number(number)
    }

    /// Reads the next token: blanks are skipped, and behind the end of the
    /// input every token is [`Token::EOF`].
    pub fn next_token(&mut self) -> (t: Token)
        ensures
            final(self).input() == old(self).input(),
            t@ == token_at(old(self).input(), old(self).pos()).0,
            final(self).pos() == token_at(old(self).input(), old(self).pos()).1,
    {
        self.skip_whitespace();
        let c = self.cur();
        let token = if c == '\\' {
            return self.read_command();
        } else if char_is_digit(c) {
            return self.read_number();
        } else if c == ':' {
            if self.peek() == '=' {
                self.read_char();
                Token::Paren(":=")
            } else {
                Token::Operator(':')
            }
        } else if c == '=' || c == ';' || c == ',' || c == '.' || c == '\'' || c == '+' || c == '-'
            || c == '*' || c == '/' || c == '!' || c == '<' || c == '>' {
            Token::Operator(c)
        } else if c == '(' {
            Token::Paren("(")
        } else if c == ')' {
            Token::Paren(")")
        } else if c == '[' {
            Token::Paren("[")
        } else if c == ']' {
            Token::Paren("]")
        } else if c == '|' {
            Token::Paren("|")
        } else if c == '{' {
            Token::LBrace
        } else if c == '}' {
            Token::RBrace
        } else if c == '_' {
            Token::Underscore
        } else if c == '^' {
            Token::Circumflex
        } else if c == '&' {
            Token::Ampersand
        } else if c == '\0' {
            Token::EOF
        } else if char_is_letter(c) {
            Token::Letter(c, Variant::Italic)
        } else {
            Token::Letter(c, Variant::Normal)
        };
        proof {
            reveal_strlit("(");
            reveal_strlit(")");
            reveal_strlit("[");
            reveal_strlit("]");
            reveal_strlit("|");
            assert("("@ =~= seq!['(']);
            assert(")"@ =~= seq![')']);
            assert("["@ =~= seq!['[']);
            assert("]"@ =~= seq![']']);
            assert("|"@ =~= seq!['|']);
        }
        self.read_char();
        token
    }
}

} // verus!
