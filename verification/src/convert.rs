//! The conversion of one formula.

use vstd::prelude::*;
use crate::ast::{render_all, render_nodes};
use crate::attribute::DisplayStyle;
use crate::error::{ErrorView, LatexError};
use crate::lexer::Lexer;
use crate::parse::{parsed, Parser, ParserView};

verus! {

/// The MathML of the formula `latex`, without the element around it: the
/// MathML of its nodes, one behind the other; or the error of the parser.
#[verifier::opaque]
pub open spec fn content_of(latex: Seq<char>) -> Result<Seq<char>, ErrorView> {
    match parsed(ParserView::at(latex, 0)) {
        Ok(nodes) => Ok(render_all(nodes)),
        Err(e) => Err(e),
    }
}

/// The `math` element around `content`, for a formula that is displayed as
/// `display` says.
pub open spec fn math_element(content: Seq<char>, display: DisplayStyle) -> Seq<char> {
    "<math xmlns=\"http://www.w3.org/1998/Math/MathML\" display=\""@ + display.text() + "\">"@
        + content + "</math>"@
}

/// The MathML of the formula `latex`, as a `math` element.
pub open spec fn mathml_of(latex: Seq<char>, display: DisplayStyle) -> Result<
    Seq<char>,
    ErrorView,
> {
    match content_of(latex) {
        Ok(content) => Ok(math_element(content, display)),
        Err(e) => Err(e),
    }
}

/// Converts a formula to MathML, without the `math` element around it.
pub fn convert_content(latex: &str) -> (r: Result<String, LatexError>)
    ensures
        match content_of(latex@) {
            Ok(content) => r is Ok && r->Ok_0@ == content,
            Err(e) => r is Err && r->Err_0@ == e,
        },
{
    reveal(content_of);
    let l = Lexer::new(latex);
    let mut p = Parser::new(l);
    let nodes = p.parse()?;
    Ok(render_nodes(&nodes))
}

/// Converts a formula to MathML.
///
/// `display` says whether the formula stands in a line of text or in a block
/// of its own; it is written into the `math` element and changes nothing else.
pub fn latex_to_mathml(latex: &str, display: DisplayStyle) -> (r: Result<String, LatexError>)
    ensures
        match mathml_of(latex@, display) {
            Ok(mathml) => r is Ok && r->Ok_0@ == mathml,
            Err(e) => r is Err && r->Err_0@ == e,
        },
{
    let content = convert_content(latex)?;
    let mut mathml = "<math xmlns=\"http://www.w3.org/1998/Math/MathML\" display=\"".to_owned();
    mathml.append(display.as_str());
    mathml.append("\">");
    mathml.append(content.as_str());
    mathml.append("</math>");
    Ok(mathml)
}

} // verus!
