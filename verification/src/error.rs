//! What can go wrong in a conversion.

use vstd::prelude::*;
use crate::token::{Token, TokenView};

verus! {

/// A failed conversion.
#[derive(Debug, Clone)]
pub enum LatexError {
    /// The formula ended, or went on with `got`, where `expected` had to stand.
    UnexpectedToken { expected: Token, got: Token },
    /// Behind `location` a delimiter had to stand, and `got` is none.
    MissingParensethis { location: Token, got: Token },
    /// An environment of a name that is not known.
    UnknownEnvironment(String),
    /// A text holds a formula that is opened and not closed.
    InvalidNumberOfDollarSigns,
}

/// What an error is, with each text as a sequence of characters.
pub enum ErrorView {
    UnexpectedToken { expected: TokenView, got: TokenView },
    MissingParensethis { location: TokenView, got: TokenView },
    UnknownEnvironment(Seq<char>),
    InvalidNumberOfDollarSigns,
}

impl View for LatexError {
    type V = ErrorView;

    open spec fn view(&self) -> ErrorView {
        match self {
            LatexError::UnexpectedToken { expected, got } => ErrorView::UnexpectedToken {
                expected: expected@,
                got: got@,
            },
            LatexError::MissingParensethis { location, got } => ErrorView::MissingParensethis {
                location: location@,
                got: got@,
            },
            LatexError::UnknownEnvironment(name) => ErrorView::UnknownEnvironment(name@),
            LatexError::InvalidNumberOfDollarSigns => ErrorView::InvalidNumberOfDollarSigns,
        }
    }
}

impl ErrorView {
    /// The error in a sentence.
    pub open spec fn message(self) -> Seq<char> {
        match self {
            ErrorView::UnexpectedToken { expected, got } => "The token \""@
                + expected.description() + "\" is expected, but the token \""@
                + got.description() + "\" is found.\""@,
            ErrorView::MissingParensethis { location, got } =>
                "There must be a parenthesis after \""@ + location.description()
                + "\", but not found. Insted, \""@ + got.description() + "\" is found."@,
            ErrorView::UnknownEnvironment(name) => "An unknown environment \""@ + name
                + "\" is found"@,
            ErrorView::InvalidNumberOfDollarSigns =>
                "The number of dollar sings found is invalid."@,
        }
    }
}

impl LatexError {
    /// The error in a sentence.
    pub fn to_string(&self) -> (s: String)
        ensures
            s@ == self@.message(),
    {
        match self {
            LatexError::UnexpectedToken { expected, got } => {
                let mut s = "The token \"".to_owned();
                let e = expected.description();
                s.append(e.as_str());
                s.append("\" is expected, but the token \"");
                let g = got.description();
                s.append(g.as_str());
                s.append("\" is found.\"");
                s
            },
            LatexError::MissingParensethis { location, got } => {
                let mut s = "There must be a parenthesis after \"".to_owned();
                let l = location.description();
                s.append(l.as_str());
                s.append("\", but not found. Insted, \"");
                let g = got.description();
                s.append(g.as_str());
                s.append("\" is found.");
                s
            },
            LatexError::UnknownEnvironment(name) => {
                let mut s = "An unknown environment \"".to_owned();
                s.append(name.as_str());
                s.append("\" is found");
                s
            },
            LatexError::InvalidNumberOfDollarSigns => {
                "The number of dollar sings found is invalid.".to_owned()
            },
        }
    }
}

} // verus!
