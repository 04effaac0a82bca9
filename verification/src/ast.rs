//! The syntax tree of a formula, and its MathML.

use vstd::prelude::*;
use crate::attribute::{Accent, ColumnAlign, DisplayStyle, LineThickness, Variant};
use crate::text::{push_fraction, push_quoted_text, fraction_text, quoted_text};

verus! {

/// A node of the syntax tree.
#[derive(Debug, PartialEq)]
pub enum Node {
    /// A numeral, with the text it was written with.
    Number(String),
    /// A letter and its font.
    Letter(char, Variant),
    /// An operator, a relation or another sign.
    Operator(char),
    /// A function with its name, applied to its argument where it has one.
    Function(String, Option<Box<Node>>),
    /// A space, with its width in ten-thousandths of an em.
    Space(i32),
    /// A node and its subscript.
    Subscript(Box<Node>, Box<Node>),
    /// A node and its superscript.
    Superscript(Box<Node>, Box<Node>),
    /// A node with a subscript and a superscript.
    SubSup { target: Box<Node>, sub: Box<Node>, sup: Box<Node> },
    /// An accent or a line above a node.
    OverOp(char, Accent, Box<Node>),
    /// An accent or a line below a node.
    UnderOp(char, Accent, Box<Node>),
    /// A node above another.
    Overset { over: Box<Node>, target: Box<Node> },
    /// A node below another.
    Underset { under: Box<Node>, target: Box<Node> },
    /// A node and what stands below it.
    Under(Box<Node>, Box<Node>),
    /// A node with what stands below and what stands above it.
    UnderOver { target: Box<Node>, under: Box<Node>, over: Box<Node> },
    /// A root: its degree, where it is no square root, and what stands under it.
    Sqrt(Option<Box<Node>>, Box<Node>),
    /// A fraction: numerator, denominator and the thickness of the bar.
    Frac(Box<Node>, Box<Node>, LineThickness),
    /// Nodes in a row.
    Row(Vec<Node>),
    /// An expression between two delimiters; the empty text is a delimiter
    /// that is not shown.
    Fenced { open: &'static str, close: &'static str, content: Box<Node> },
    /// A delimiter that stretches, or does not, to the height of what is
    /// around it.
    StrechedOp(bool, String),
    /// A delimiter outside a fence, set as an operator.
    OtherOperator(&'static str),
    /// A delimiter of a size that is set by hand.
    SizedParen { size: &'static str, paren: &'static str },
    /// A text.
    Text(String),
    /// The cells of a table in reading order, with an [`Node::Ampersand`]
    /// between two cells of a row and a [`Node::NewLine`] between two rows.
    Matrix(Vec<Node>, ColumnAlign),
    /// The end of a cell of a table.
    Ampersand,
    /// The end of a row of a table.
    NewLine,
    /// A node that is struck through.
    Slashed(Box<Node>),
    /// A node in a size of its own.
    Style(Option<DisplayStyle>, Box<Node>),
    /// What the parser could not make sense of, with a description of it.
    Undefined(String),
}

/// What a node is, with each text as a sequence of characters and each list
/// of nodes as a sequence. The variants are those of [`Node`].
pub enum NodeView {
    Number(Seq<char>),
    Letter(char, Variant),
    Operator(char),
    Function(Seq<char>, Option<Box<NodeView>>),
    Space(i32),
    Subscript(Box<NodeView>, Box<NodeView>),
    Superscript(Box<NodeView>, Box<NodeView>),
    SubSup { target: Box<NodeView>, sub: Box<NodeView>, sup: Box<NodeView> },
    OverOp(char, Accent, Box<NodeView>),
    UnderOp(char, Accent, Box<NodeView>),
    Overset { over: Box<NodeView>, target: Box<NodeView> },
    Underset { under: Box<NodeView>, target: Box<NodeView> },
    Under(Box<NodeView>, Box<NodeView>),
    UnderOver { target: Box<NodeView>, under: Box<NodeView>, over: Box<NodeView> },
    Sqrt(Option<Box<NodeView>>, Box<NodeView>),
    Frac(Box<NodeView>, Box<NodeView>, LineThickness),
    Row(Seq<NodeView>),
    Fenced { open: Seq<char>, close: Seq<char>, content: Box<NodeView> },
    StrechedOp(bool, Seq<char>),
    OtherOperator(Seq<char>),
    SizedParen { size: Seq<char>, paren: Seq<char> },
    Text(Seq<char>),
    Matrix(Seq<NodeView>, ColumnAlign),
    Ampersand,
    NewLine,
    Slashed(Box<NodeView>),
    Style(Option<DisplayStyle>, Box<NodeView>),
    Undefined(Seq<char>),
}

/// The view of a node.
pub open spec fn node_view(n: Node) -> NodeView
    decreases n,
{
    match n {
        Node::Number(s) => NodeView::Number(s@),
        Node::Letter(c, v) => NodeView::Letter(c, v),
        Node::Operator(c) => NodeView::Operator(c),
        Node::Function(s, arg) => NodeView::Function(
            s@,
            match arg {
                Some(a) => Some(Box::new(node_view(*a))),
                None => None,
            },
        ),
        Node::Space(w) => NodeView::Space(w),
        Node::Subscript(a, b) => NodeView::Subscript(
            Box::new(node_view(*a)),
            Box::new(node_view(*b)),
        ),
        Node::Superscript(a, b) => NodeView::Superscript(
            Box::new(node_view(*a)),
            Box::new(node_view(*b)),
        ),
        Node::SubSup { target, sub, sup } => NodeView::SubSup {
            target: Box::new(node_view(*target)),
            sub: Box::new(node_view(*sub)),
            sup: Box::new(node_view(*sup)),
        },
        Node::OverOp(c, a, t) => NodeView::OverOp(c, a, Box::new(node_view(*t))),
        Node::UnderOp(c, a, t) => NodeView::UnderOp(c, a, Box::new(node_view(*t))),
        Node::Overset { over, target } => NodeView::Overset {
            over: Box::new(node_view(*over)),
            target: Box::new(node_view(*target)),
        },
        Node::Underset { under, target } => NodeView::Underset {
            under: Box::new(node_view(*under)),
            target: Box::new(node_view(*target)),
        },
        Node::Under(t, u) => NodeView::Under(Box::new(node_view(*t)), Box::new(node_view(*u))),
        Node::UnderOver { target, under, over } => NodeView::UnderOver {
            target: Box::new(node_view(*target)),
            under: Box::new(node_view(*under)),
            over: Box::new(node_view(*over)),
        },
        Node::Sqrt(degree, content) => NodeView::Sqrt(
            match degree {
                Some(d) => Some(Box::new(node_view(*d))),
                None => None,
            },
            Box::new(node_view(*content)),
        ),
        Node::Frac(a, b, lt) => NodeView::Frac(
            Box::new(node_view(*a)),
            Box::new(node_view(*b)),
            lt,
        ),
        Node::Row(v) => NodeView::Row(nodes_view(v@)),
        Node::Fenced { open, close, content } => NodeView::Fenced {
            open: open@,
            close: close@,
            content: Box::new(node_view(*content)),
        },
        Node::StrechedOp(b, s) => NodeView::StrechedOp(b, s@),
        Node::OtherOperator(s) => NodeView::OtherOperator(s@),
        Node::SizedParen { size, paren } => NodeView::SizedParen { size: size@, paren: paren@ },
        Node::Text(s) => NodeView::Text(s@),
        Node::Matrix(v, align) => NodeView::Matrix(nodes_view(v@), align),
        Node::Ampersand => NodeView::Ampersand,
        Node::NewLine => NodeView::NewLine,
        Node::Slashed(a) => NodeView::Slashed(Box::new(node_view(*a))),
        Node::Style(d, a) => NodeView::Style(d, Box::new(node_view(*a))),
        Node::Undefined(s) => NodeView::Undefined(s@),
    }
}

/// The views of a list of nodes.
pub open spec fn nodes_view(v: Seq<Node>) -> Seq<NodeView>
    decreases v,
{
    Seq::new(
        v.len(),
        |i: int|
            if 0 <= i < v.len() {
                node_view(v[i])
            } else {
                arbitrary()
            },
    )
}

impl View for Node {
    type V = NodeView;

    open spec fn view(&self) -> NodeView {
        node_view(*self)
    }
}

impl NodeView {
    /// The MathML of the node.
    pub open spec fn render(self) -> Seq<char>
        decreases self,
    {
        match self {
            NodeView::Number(number) => "<mn>"@ + number + "</mn>"@,
            NodeView::Letter(letter, var) => match var {
                Variant::Italic => "<mi>"@.push(letter) + "</mi>"@,
                _ => "<mi mathvariant=\""@ + var.text() + "\">"@.push(letter) + "</mi>"@,
            },
            NodeView::Operator(op) => if op == '∂' {
                "<mo mathvariant=\"italic\">∂</mo>"@
            } else {
                "<mo>"@.push(op) + "</mo>"@
            },
            NodeView::Function(fun, arg) => match arg {
                Some(a) => "<mi>"@ + fun + "</mi><mo>&#x2061;</mo>"@ + a.render(),
                None => "<mi>"@ + fun + "</mi>"@,
            },
            NodeView::Space(width) => "<mspace width=\""@ + fraction_text(width as int)
                + "em\"/>"@,
            NodeView::Subscript(a, b) => "<msub>"@ + a.render() + b.render() + "</msub>"@,
            NodeView::Superscript(a, b) => "<msup>"@ + a.render() + b.render() + "</msup>"@,
            NodeView::SubSup { target, sub, sup } => "<msubsup>"@ + target.render() + sub.render()
                + sup.render() + "</msubsup>"@,
            NodeView::OverOp(op, acc, target) => "<mover>"@ + target.render() + "<mo accent=\""@
                + acc.text() + "\">"@.push(op) + "</mo></mover>"@,
            NodeView::UnderOp(op, acc, target) => "<munder>"@ + target.render() + "<mo accent=\""@
                + acc.text() + "\">"@.push(op) + "</mo></munder>"@,
            NodeView::Overset { over, target } => "<mover>"@ + target.render() + over.render()
                + "</mover>"@,
            NodeView::Underset { under, target } => "<munder>"@ + target.render() + under.render()
                + "</munder>"@,
            NodeView::Under(target, under) => "<munder>"@ + target.render() + under.render()
                + "</munder>"@,
            NodeView::UnderOver { target, under, over } => "<munderover>"@ + target.render()
                + under.render() + over.render() + "</munderover>"@,
            NodeView::Sqrt(degree, content) => match degree {
                Some(d) => "<mroot>"@ + content.render() + d.render() + "</mroot>"@,
                None => "<msqrt>"@ + content.render() + "</msqrt>"@,
            },
            NodeView::Frac(num, denom, lt) => "<mfrac"@ + lt.text() + ">"@ + num.render()
                + denom.render() + "</mfrac>"@,
            NodeView::Row(nodes) => "<mrow>"@ + render_all(nodes) + "</mrow>"@,
            NodeView::Fenced { open, close, content } =>
                "<mrow><mo stretchy=\"true\" form=\"prefix\">"@ + open + "</mo>"@
                + content.render() + "<mo stretchy=\"true\" form=\"postfix\">"@ + close
                + "</mo></mrow>"@,
            NodeView::StrechedOp(stretchy, op) => "<mo stretchy=\""@ + (if stretchy {
                "true"@
            } else {
                "false"@
            }) + "\">"@ + op + "</mo>"@,
            NodeView::OtherOperator(op) => "<mo>"@ + op + "</mo>"@,
            NodeView::SizedParen { size, paren } => "<mrow><mo maxsize=\""@ + size
                + "\" minsize=\""@ + size + "\">"@ + paren + "</mo></mrow>"@,
            NodeView::Text(text) => "<mtext>"@ + text + "</mtext>"@,
            NodeView::Matrix(cells, align) => "<mtable"@ + align.text() + "><mtr><mtd>"@
                + render_cells(cells) + "</mtd></mtr></mtable>"@,
            NodeView::Slashed(node) => match *node {
                NodeView::Letter(x, var) => "<mi mathvariant=\""@ + var.text() + "\">"@.push(x)
                    + "&#x0338;</mi>"@,
                NodeView::Operator(x) => "<mo>"@.push(x) + "&#x0338;</mo>"@,
                _ => node.render(),
            },
            NodeView::Style(display, content) => match display {
                Some(DisplayStyle::Block) => "<mstyle displaystyle=\"true\">"@ + content.render()
                    + "</mstyle>"@,
                Some(DisplayStyle::Inline) => "<mstyle displaystyle=\"false\">"@
                    + content.render() + "</mstyle>"@,
                None => "<mstyle>"@ + content.render() + "</mstyle>"@,
            },
            NodeView::Ampersand => "<mtext>[PARSE ERROR: Ampersand]</mtext>"@,
            NodeView::NewLine => "<mtext>[PARSE ERROR: NewLine]</mtext>"@,
            NodeView::Undefined(what) => "<mtext>[PARSE ERROR: Undefined("@ + quoted_text(what)
                + ")]</mtext>"@,
        }
    }
}

/// The MathML of the nodes, one behind the other.
pub open spec fn render_all(nodes: Seq<NodeView>) -> Seq<char>
    decreases nodes,
{
    if nodes.len() == 0 {
        Seq::empty()
    } else {
        render_all(nodes.drop_last()) + nodes.last().render()
    }
}

/// The inside of a table, between the opening of its first cell and the
/// closing of its last one: each separator closes what is open and opens the
/// next cell or row, every other node stands in the cell that is open.
pub open spec fn render_cells(cells: Seq<NodeView>) -> Seq<char>
    decreases cells,
{
    if cells.len() == 0 {
        Seq::empty()
    } else {
        render_cells(cells.drop_last()) + match cells.last() {
            NodeView::NewLine => "</mtd></mtr><mtr><mtd>"@,
            NodeView::Ampersand => "</mtd><mtd>"@,
            node => node.render(),
        }
    }
}

/// The MathML of `nodes`, one behind the other.
pub fn render_nodes(nodes: &Vec<Node>) -> (s: String)
    ensures
        s@ == render_all(nodes_view(nodes@)),
    decreases nodes,
{
    let mut s = String::new();
    let ghost views = nodes_view(nodes@);
    let mut i: usize = 0;
    while i < nodes.len()
        invariant
            i <= nodes.len(),
            views == nodes_view(nodes@),
            s@ == render_all(views.take(i as int)),
        decreases nodes.len() - i,
    {
        assert(decreases_to!(nodes => nodes[i as int]));
        let x = nodes[i].to_string();
        assert(views.take(i + 1).drop_last() == views.take(i as int));
        s.append(x.as_str());
        i += 1;
    }
    assert(views.take(i as int) == views);
    s
}

/// The inside of the table that holds `cells`.
fn render_table(cells: &Vec<Node>) -> (s: String)
    ensures
        s@ == render_cells(nodes_view(cells@)),
    decreases cells,
{
    let mut s = String::new();
    let ghost views = nodes_view(cells@);
    let mut i: usize = 0;
    while i < cells.len()
        invariant
            i <= cells.len(),
            views == nodes_view(cells@),
            s@ == render_cells(views.take(i as int)),
        decreases cells.len() - i,
    {
        assert(decreases_to!(cells => cells[i as int]));
        assert(views.take(i + 1).drop_last() == views.take(i as int));
        match &cells[i] {
            Node::NewLine => {
                s.append("</mtd></mtr><mtr><mtd>");
            },
            Node::Ampersand => {
                s.append("</mtd><mtd>");
            },
            node => {
                let x = node.to_string();
                s.append(x.as_str());
            },
        }
        i += 1;
    }
    assert(views.take(i as int) == views);
    s
}

impl Node {
    /// The MathML of the node.
    pub fn to_string(&self) -> (s: String)
        ensures
            s@ == self@.render(),
        decreases self,
    {
        match self {
            Node::Number(number) => {
                let mut s = "<mn>".to_owned();
                s.append(number.as_str());
                s.append("</mn>");
                s
            },
            Node::Letter(letter, var) => match var {
                Variant::Italic => {
                    let mut s = "<mi>".to_owned();
                    s.push(*letter);
                    s.append("</mi>");
                    s
                },
                _ => {
                    let mut s = "<mi mathvariant=\"".to_owned();
                    s.append(var.as_str());
                    let mut t = "\">".to_owned();
                    t.push(*letter);
                    s.append(t.as_str());
                    s.append("</mi>");
                    s
                },
            },
            Node::Operator(op) => {
                if *op == '∂' {
                    "<mo mathvariant=\"italic\">∂</mo>".to_owned()
                } else {
                    let mut s = "<mo>".to_owned();
                    s.push(*op);
                    s.append("</mo>");
                    s
                }
            },
            Node::Function(fun, arg) => match arg {
                Some(a) => {
                    let mut s = "<mi>".to_owned();
                    s.append(fun.as_str());
                    s.append("</mi><mo>&#x2061;</mo>");
                    let x = a.to_string();
                    s.append(x.as_str());
                    s
                },
                None => {
                    let mut s = "<mi>".to_owned();
                    s.append(fun.as_str());
                    s.append("</mi>");
                    s
                },
            },
            Node::Space(width) => {
                let mut s = "<mspace width=\"".to_owned();
                push_fraction(&mut s, *width);
                s.append("em\"/>");
                s
            },
            Node::Subscript(a, b) => {
                let mut s = "<msub>".to_owned();
                let x = a.to_string();
                s.append(x.as_str());
                let y = b.to_string();
                s.append(y.as_str());
                s.append("</msub>");
                s
            },
            Node::Superscript(a, b) => {
                let mut s = "<msup>".to_owned();
                let x = a.to_string();
                s.append(x.as_str());
                let y = b.to_string();
                s.append(y.as_str());
                s.append("</msup>");
                s
            },
            Node::SubSup { target, sub, sup } => {
                let mut s = "<msubsup>".to_owned();
                let x = target.to_string();
                s.append(x.as_str());
                let y = sub.to_string();
                s.append(y.as_str());
                let z = sup.to_string();
                s.append(z.as_str());
                s.append("</msubsup>");
                s
            },
            Node::OverOp(op, acc, target) => {
                let mut s = "<mover>".to_owned();
                let x = target.to_string();
                s.append(x.as_str());
                s.append("<mo accent=\"");
                s.append(acc.as_str());
                let mut t = "\">".to_owned();
                t.push(*op);
                s.append(t.as_str());
                s.append("</mo></mover>");
                s
            },
            Node::UnderOp(op, acc, target) => {
                let mut s = "<munder>".to_owned();
                let x = target.to_string();
                s.append(x.as_str());
                s.append("<mo accent=\"");
                s.append(acc.as_str());
                let mut t = "\">".to_owned();
                t.push(*op);
                s.append(t.as_str());
                s.append("</mo></munder>");
                s
            },
            Node::Overset { over, target } => {
                let mut s = "<mover>".to_owned();
                let x = target.to_string();
                s.append(x.as_str());
                let y = over.to_string();
                s.append(y.as_str());
                s.append("</mover>");
                s
            },
            Node::Underset { under, target } => {
                let mut s = "<munder>".to_owned();
                let x = target.to_string();
                s.append(x.as_str());
                let y = under.to_string();
                s.append(y.as_str());
                s.append("</munder>");
                s
            },
            Node::Under(target, under) => {
                let mut s = "<munder>".to_owned();
                let x = target.to_string();
                s.append(x.as_str());
                let y = under.to_string();
                s.append(y.as_str());
                s.append("</munder>");
                s
            },
            Node::UnderOver { target, under, over } => {
                let mut s = "<munderover>".to_owned();
                let x = target.to_string();
                s.append(x.as_str());
                let y = under.to_string();
                s.append(y.as_str());
                let z = over.to_string();
                s.append(z.as_str());
                s.append("</munderover>");
                s
            },
            Node::Sqrt(degree, content) => match degree {
                Some(d) => {
                    let mut s = "<mroot>".to_owned();
                    let x = content.to_string();
                    s.append(x.as_str());
                    let y = d.to_string();
                    s.append(y.as_str());
                    s.append("</mroot>");
                    s
                },
                None => {
                    let mut s = "<msqrt>".to_owned();
                    let x = content.to_string();
                    s.append(x.as_str());
                    s.append("</msqrt>");
                    s
                },
            },
            Node::Frac(num, denom, lt) => {
                let mut s = "<mfrac".to_owned();
                let t = lt.to_string();
                s.append(t.as_str());
                s.append(">");
                let x = num.to_string();
                s.append(x.as_str());
                let y = denom.to_string();
                s.append(y.as_str());
                s.append("</mfrac>");
                s
            },
            Node::Row(nodes) => {
                let mut s = "<mrow>".to_owned();
                let x = render_nodes(nodes);
                s.append(x.as_str());
                s.append("</mrow>");
                s
            },
            Node::Fenced { open, close, content } => {
                let mut s = "<mrow><mo stretchy=\"true\" form=\"prefix\">".to_owned();
                s.append(open);
                s.append("</mo>");
                let x = content.to_string();
                s.append(x.as_str());
                s.append("<mo stretchy=\"true\" form=\"postfix\">");
                s.append(close);
                s.append("</mo></mrow>");
                s
            },
            Node::StrechedOp(stretchy, op) => {
                let mut s = "<mo stretchy=\"".to_owned();
                if *stretchy {
                    s.append("true");
                } else {
                    s.append("false");
                }
                s.append("\">");
                s.append(op.as_str());
                s.append("</mo>");
                s
            },
            Node::OtherOperator(op) => {
                let mut s = "<mo>".to_owned();
                s.append(op);
                s.append("</mo>");
                s
            },
            Node::SizedParen { size, paren } => {
                let mut s = "<mrow><mo maxsize=\"".to_owned();
                s.append(size);
                s.append("\" minsize=\"");
                s.append(size);
                s.append("\">");
                s.append(paren);
                s.append("</mo></mrow>");
                s
            },
            Node::Text(text) => {
                let mut s = "<mtext>".to_owned();
                s.append(text.as_str());
                s.append("</mtext>");
                s
            },
            Node::Matrix(cells, align) => {
                let mut s = "<mtable".to_owned();
                s.append(align.as_str());
                s.append("><mtr><mtd>");
                let x = render_table(cells);
                s.append(x.as_str());
                s.append("</mtd></mtr></mtable>");
                s
            },
            Node::Slashed(node) => {
                proof {
                    reveal_with_fuel(node_view, 2);
                }
                match &**node {
                    Node::Letter(x, var) => {
                        let mut s = "<mi mathvariant=\"".to_owned();
                        s.append(var.as_str());
                        let mut t = "\">".to_owned();
                        t.push(*x);
                        s.append(t.as_str());
                        s.append("&#x0338;</mi>");
                        s
                    },
                    Node::Operator(x) => {
                        let mut s = "<mo>".to_owned();
                        s.push(*x);
                        s.append("&#x0338;</mo>");
                        s
                    },
                    n => n.to_string(),
                }
            },
            Node::Style(display, content) => {
                let mut s = match display {
                    Some(DisplayStyle::Block) => "<mstyle displaystyle=\"true\">".to_owned(),
                    Some(DisplayStyle::Inline) => "<mstyle displaystyle=\"false\">".to_owned(),
                    None => "<mstyle>".to_owned(),
                };
                let x = content.to_string();
                s.append(x.as_str());
                s.append("</mstyle>");
                s
            },
            Node::Ampersand => "<mtext>[PARSE ERROR: Ampersand]</mtext>".to_owned(),
            Node::NewLine => "<mtext>[PARSE ERROR: NewLine]</mtext>".to_owned(),
            Node::Undefined(what) => {
                let mut s = "<mtext>[PARSE ERROR: Undefined(".to_owned();
                push_quoted_text(&mut s, what.as_str());
                s.append(")]</mtext>");
                s
            },
        }
    }
}

impl NodeView {
    /// The node with every letter in it set in the font `var`. Nothing else
    /// changes: the result has the shape of the node, node for node.
    pub open spec fn flooded(self, var: Variant) -> NodeView
        decreases self,
    {
        match self {
            NodeView::Letter(x, _) => NodeView::Letter(x, var),
            NodeView::Function(fun, arg) => NodeView::Function(
                fun,
                match arg {
                    Some(a) => Some(Box::new(a.flooded(var))),
                    None => None,
                },
            ),
            NodeView::Subscript(a, b) => NodeView::Subscript(
                Box::new(a.flooded(var)),
                Box::new(b.flooded(var)),
            ),
            NodeView::Superscript(a, b) => NodeView::Superscript(
                Box::new(a.flooded(var)),
                Box::new(b.flooded(var)),
            ),
            NodeView::SubSup { target, sub, sup } => NodeView::SubSup {
                target: Box::new(target.flooded(var)),
                sub: Box::new(sub.flooded(var)),
                sup: Box::new(sup.flooded(var)),
            },
            NodeView::OverOp(op, acc, target) => NodeView::OverOp(
                op,
                acc,
                Box::new(target.flooded(var)),
            ),
            NodeView::UnderOp(op, acc, target) => NodeView::UnderOp(
                op,
                acc,
                Box::new(target.flooded(var)),
            ),
            NodeView::Overset { over, target } => NodeView::Overset {
                over: Box::new(over.flooded(var)),
                target: Box::new(target.flooded(var)),
            },
            NodeView::Underset { under, target } => NodeView::Underset {
                under: Box::new(under.flooded(var)),
                target: Box::new(target.flooded(var)),
            },
            NodeView::Under(target, under) => NodeView::Under(
                Box::new(target.flooded(var)),
                Box::new(under.flooded(var)),
            ),
            NodeView::UnderOver { target, under, over } => NodeView::UnderOver {
                target: Box::new(target.flooded(var)),
                under: Box::new(under.flooded(var)),
                over: Box::new(over.flooded(var)),
            },
            NodeView::Sqrt(degree, content) => NodeView::Sqrt(
                match degree {
                    Some(d) => Some(Box::new(d.flooded(var))),
                    None => None,
                },
                Box::new(content.flooded(var)),
            ),
            NodeView::Frac(num, denom, lt) => NodeView::Frac(
                Box::new(num.flooded(var)),
                Box::new(denom.flooded(var)),
                lt,
            ),
            NodeView::Row(nodes) => NodeView::Row(flooded_all(nodes, var)),
            NodeView::Fenced { open, close, content } => NodeView::Fenced {
                open,
                close,
                content: Box::new(content.flooded(var)),
            },
            NodeView::Matrix(cells, align) => NodeView::Matrix(flooded_all(cells, var), align),
            NodeView::Slashed(node) => NodeView::Slashed(Box::new(node.flooded(var))),
            NodeView::Style(display, content) => NodeView::Style(
                display,
                Box::new(content.flooded(var)),
            ),
            NodeView::Number(_)
            | NodeView::Operator(_)
            | NodeView::Space(_)
            | NodeView::StrechedOp(_, _)
            | NodeView::OtherOperator(_)
            | NodeView::SizedParen { .. }
            | NodeView::Text(_)
            | NodeView::Ampersand
            | NodeView::NewLine
            | NodeView::Undefined(_) => self,
        }
    }
}

/// The nodes, each with every letter in it set in the font `var`.
pub open spec fn flooded_all(nodes: Seq<NodeView>, var: Variant) -> Seq<NodeView>
    decreases nodes,
{
    Seq::new(
        nodes.len(),
        |i: int|
            if 0 <= i < nodes.len() {
                nodes[i].flooded(var)
            } else {
                arbitrary()
            },
    )
}

/// Setting a font overrides a font set before, and touches nothing but the
/// fonts of letters: a node set in `first` and then in `second` is the node set
/// in `second`. So setting the same font twice is setting it once, and a node
/// and the node set in a font differ in the fonts of their letters at most.
pub proof fn lemma_flooded_twice(node: NodeView, first: Variant, second: Variant)
    ensures
        node.flooded(first).flooded(second) == node.flooded(second),
        node.flooded(first).flooded(first) == node.flooded(first),
    decreases node,
{
    lemma_flooded_overrides(node, first, second);
    lemma_flooded_overrides(node, first, first);
}

proof fn lemma_flooded_overrides(node: NodeView, first: Variant, second: Variant)
    ensures
        node.flooded(first).flooded(second) == node.flooded(second),
    decreases node,
{
    match node {
        NodeView::Function(fun, arg) => {
            match arg {
                Some(a) => lemma_flooded_overrides(*a, first, second),
                None => {},
            }
        },
        NodeView::Subscript(a, b) | NodeView::Superscript(a, b) | NodeView::Under(a, b) => {
            lemma_flooded_overrides(*a, first, second);
            lemma_flooded_overrides(*b, first, second);
        },
        NodeView::SubSup { target, sub, sup } => {
            lemma_flooded_overrides(*target, first, second);
            lemma_flooded_overrides(*sub, first, second);
            lemma_flooded_overrides(*sup, first, second);
        },
        NodeView::OverOp(_, _, target) | NodeView::UnderOp(_, _, target) => {
            lemma_flooded_overrides(*target, first, second);
        },
        NodeView::Overset { over, target } => {
            lemma_flooded_overrides(*over, first, second);
            lemma_flooded_overrides(*target, first, second);
        },
        NodeView::Underset { under, target } => {
            lemma_flooded_overrides(*under, first, second);
            lemma_flooded_overrides(*target, first, second);
        },
        NodeView::UnderOver { target, under, over } => {
            lemma_flooded_overrides(*target, first, second);
            lemma_flooded_overrides(*under, first, second);
            lemma_flooded_overrides(*over, first, second);
        },
        NodeView::Sqrt(degree, content) => {
            match degree {
                Some(d) => lemma_flooded_overrides(*d, first, second),
                None => {},
            }
            lemma_flooded_overrides(*content, first, second);
        },
        NodeView::Frac(num, denom, _) => {
            lemma_flooded_overrides(*num, first, second);
            lemma_flooded_overrides(*denom, first, second);
        },
        NodeView::Row(nodes) => {
            lemma_flooded_all_overrides(nodes, first, second);
        },
        NodeView::Matrix(cells, _) => {
            lemma_flooded_all_overrides(cells, first, second);
        },
        NodeView::Fenced { content, .. } => {
            lemma_flooded_overrides(*content, first, second);
        },
        NodeView::Slashed(inner) => {
            lemma_flooded_overrides(*inner, first, second);
        },
        NodeView::Style(_, content) => {
            lemma_flooded_overrides(*content, first, second);
        },
        _ => {},
    }
}

proof fn lemma_flooded_all_overrides(nodes: Seq<NodeView>, first: Variant, second: Variant)
    ensures
        flooded_all(flooded_all(nodes, first), second) == flooded_all(nodes, second),
    decreases nodes,
{
    assert forall|i: int| 0 <= i < nodes.len() implies (#[trigger] nodes[i]).flooded(
        first,
    ).flooded(second) == nodes[i].flooded(second) by {
        lemma_flooded_overrides(nodes[i], first, second);
    }
    assert(flooded_all(flooded_all(nodes, first), second) =~= flooded_all(nodes, second));
}

/// A copy of `node` in which every letter is set in the font `var`.
pub fn set_variant(node: &Node, var: Variant) -> (r: Node)
    ensures
        r@ == node@.flooded(var),
    decreases node,
{
    match node {
        Node::Number(number) => Node::Number(number.clone()),
        Node::Letter(x, _) => Node::Letter(*x, var),
        Node::Operator(op) => Node::Operator(*op),
        Node::Function(fun, arg) => {
            let arg = match arg {
                Some(a) => Some(Box::new(set_variant(a, var))),
                None => None,
            };
            Node::Function(fun.clone(), arg)
        },
        Node::Space(width) => Node::Space(*width),
        Node::Subscript(a, b) => Node::Subscript(
            Box::new(set_variant(a, var)),
            Box::new(set_variant(b, var)),
        ),
        Node::Superscript(a, b) => Node::Superscript(
            Box::new(set_variant(a, var)),
            Box::new(set_variant(b, var)),
        ),
        Node::SubSup { target, sub, sup } => Node::SubSup {
            target: Box::new(set_variant(target, var)),
            sub: Box::new(set_variant(sub, var)),
            sup: Box::new(set_variant(sup, var)),
        },
        Node::OverOp(op, acc, target) => Node::OverOp(
            *op,
            *acc,
            Box::new(set_variant(target, var)),
        ),
        Node::UnderOp(op, acc, target) => Node::UnderOp(
            *op,
            *acc,
            Box::new(set_variant(target, var)),
        ),
        Node::Overset { over, target } => Node::Overset {
            over: Box::new(set_variant(over, var)),
            target: Box::new(set_variant(target, var)),
        },
        Node::Underset { under, target } => Node::Underset {
            under: Box::new(set_variant(under, var)),
            target: Box::new(set_variant(target, var)),
        },
        Node::Under(target, under) => Node::Under(
            Box::new(set_variant(target, var)),
            Box::new(set_variant(under, var)),
        ),
        Node::UnderOver { target, under, over } => Node::UnderOver {
            target: Box::new(set_variant(target, var)),
            under: Box::new(set_variant(under, var)),
            over: Box::new(set_variant(over, var)),
        },
        Node::Sqrt(degree, content) => {
            let degree = match degree {
                Some(d) => Some(Box::new(set_variant(d, var))),
                None => None,
            };
            Node::Sqrt(degree, Box::new(set_variant(content, var)))
        },
        Node::Frac(num, denom, lt) => Node::Frac(
            Box::new(set_variant(num, var)),
            Box::new(set_variant(denom, var)),
            *lt,
        ),
        Node::Row(nodes) => Node::Row(set_variant_all(nodes, var)),
        Node::Fenced { open, close, content } => Node::Fenced {
            open,
            close,
            content: Box::new(set_variant(content, var)),
        },
        Node::StrechedOp(stretchy, op) => Node::StrechedOp(*stretchy, op.clone()),
        Node::OtherOperator(op) => Node::OtherOperator(op),
        Node::SizedParen { size, paren } => Node::SizedParen { size, paren },
        Node::Text(text) => Node::Text(text.clone()),
        Node::Matrix(cells, align) => Node::Matrix(set_variant_all(cells, var), *align),
        Node::Ampersand => Node::Ampersand,
        Node::NewLine => Node::NewLine,
        Node::Slashed(inner) => Node::Slashed(Box::new(set_variant(inner, var))),
        Node::Style(display, content) => Node::Style(
            *display,
            Box::new(set_variant(content, var)),
        ),
        Node::Undefined(what) => Node::Undefined(what.clone()),
    }
}

/// Copies of `nodes`, each with every letter set in the font `var`.
fn set_variant_all(nodes: &Vec<Node>, var: Variant) -> (r: Vec<Node>)
    ensures
        nodes_view(r@) == flooded_all(nodes_view(nodes@), var),
    decreases nodes,
{
    let mut out: Vec<Node> = Vec::new();
    let mut i: usize = 0;
    while i < nodes.len()
        invariant
            i <= nodes.len(),
            out.len() == i,
            forall|j: int| 0 <= j < i ==> node_view(#[trigger] out@[j]) == node_view(
                nodes@[j],
            ).flooded(var),
        decreases nodes.len() - i,
    {
        assert(decreases_to!(nodes => nodes[i as int]));
        let n = set_variant(&nodes[i], var);
        out.push(n);
        i += 1;
    }
    assert(nodes_view(out@) =~= flooded_all(nodes_view(nodes@), var));
    out
}

} // verus!
