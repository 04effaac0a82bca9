//! Conversion of LaTeX formulas to MathML.
//!
//! [`latex_to_mathml`] converts one formula, [`replace`] every formula in a
//! text. What they return is stated over what the lexer reads
//! ([`lexer::token_at`]), what the parser makes of it ([`parse::parsed`]) and
//! how a node is written ([`ast::NodeView::render`]).

pub mod ast;
pub mod attribute;
pub mod convert;
pub mod document;
pub mod error;
pub mod laws;
pub mod lexer;
pub mod parse;
pub mod text;
pub mod token;
pub mod vocabulary;

pub use attribute::DisplayStyle;
pub use convert::{convert_content, latex_to_mathml};
pub use document::replace;
pub use error::LatexError;
