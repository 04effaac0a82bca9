//! Attributes of MathML elements.

use vstd::prelude::*;
use crate::text::{decimal, push_decimal};

verus! {

/// The `mathvariant` attribute of an identifier.
#[derive(Debug, Clone, Copy, PartialEq, Eq, Structural)]
pub enum Variant {
    Normal,
    Italic,
    Bold,
    BoldItalic,
    DoubleStruck,
    BoldFraktur,
    Script,
    BoldScript,
    Fraktur,
    SansSerif,
    BoldSansSerif,
    SansSerifItalic,
    SansSerifBoldItalic,
    Monospace,
}

impl Variant {
    /// The value of the attribute.
    pub open spec fn text(self) -> Seq<char> {
        match self {
            Variant::Normal => "normal"@,
            Variant::Italic => "italic"@,
            Variant::Bold => "bold"@,
            Variant::BoldItalic => "bold-italic"@,
            Variant::DoubleStruck => "double-struck"@,
            Variant::BoldFraktur => "bold-fraktur"@,
            Variant::Script => "script"@,
            Variant::BoldScript => "bold-script"@,
            Variant::Fraktur => "fraktur"@,
            Variant::SansSerif => "sans-serif"@,
            Variant::BoldSansSerif => "bold-sans-serif"@,
            Variant::SansSerifItalic => "sans-serif-italic"@,
            Variant::SansSerifBoldItalic => "sans-serif-bold-italic"@,
            Variant::Monospace => "monospace"@,
        }
    }

    /// The name of the variant, as it is written in a diagnostic.
    pub open spec fn name(self) -> Seq<char> {
        match self {
            Variant::Normal => "Normal"@,
            Variant::Italic => "Italic"@,
            Variant::Bold => "Bold"@,
            Variant::BoldItalic => "BoldItalic"@,
            Variant::DoubleStruck => "DoubleStruck"@,
            Variant::BoldFraktur => "BoldFraktur"@,
            Variant::Script => "Script"@,
            Variant::BoldScript => "BoldScript"@,
            Variant::Fraktur => "Fraktur"@,
            Variant::SansSerif => "SansSerif"@,
            Variant::BoldSansSerif => "BoldSansSerif"@,
            Variant::SansSerifItalic => "SansSerifItalic"@,
            Variant::SansSerifBoldItalic => "SansSerifBoldItalic"@,
            Variant::Monospace => "Monospace"@,
        }
    }

    /// The text of [`Self::text`].
    pub fn as_str(&self) -> (s: &'static str)
        ensures
            s@ == self.text(),
    {
        match self {
            Variant::Normal => "normal",
            Variant::Italic => "italic",
            Variant::Bold => "bold",
            Variant::BoldItalic => "bold-italic",
            Variant::DoubleStruck => "double-struck",
            Variant::BoldFraktur => "bold-fraktur",
            Variant::Script => "script",
            Variant::BoldScript => "bold-script",
            Variant::Fraktur => "fraktur",
            Variant::SansSerif => "sans-serif",
            Variant::BoldSansSerif => "bold-sans-serif",
            Variant::SansSerifItalic => "sans-serif-italic",
            Variant::SansSerifBoldItalic => "sans-serif-bold-italic",
            Variant::Monospace => "monospace",
        }
    }

    /// The text of [`Self::text`], as a string of its own.
    pub fn to_string(&self) -> (s: String)
        ensures
            s@ == self.text(),
    {
        self.as_str().to_owned()
    }

    /// The text of [`Self::name`].
    pub fn debug_name(&self) -> (s: &'static str)
        ensures
            s@ == self.name(),
    {
        match self {
            Variant::Normal => "Normal",
            Variant::Italic => "Italic",
            Variant::Bold => "Bold",
            Variant::BoldItalic => "BoldItalic",
            Variant::DoubleStruck => "DoubleStruck",
            Variant::BoldFraktur => "BoldFraktur",
            Variant::Script => "Script",
            Variant::BoldScript => "BoldScript",
            Variant::Fraktur => "Fraktur",
            Variant::SansSerif => "SansSerif",
            Variant::BoldSansSerif => "BoldSansSerif",
            Variant::SansSerifItalic => "SansSerifItalic",
            Variant::SansSerifBoldItalic => "SansSerifBoldItalic",
            Variant::Monospace => "Monospace",
        }
    }
}

/// The `accent` attribute of an operator above or below its base.
#[derive(Debug, Clone, Copy, PartialEq, Eq, Structural)]
pub enum Accent {
    True,
    False,
}

impl Accent {
    /// The value of the attribute.
    pub open spec fn text(self) -> Seq<char> {
        match self {
            Accent::True => "true"@,
            Accent::False => "false"@,
        }
    }

    /// The name of the variant, as it is written in a diagnostic.
    pub open spec fn name(self) -> Seq<char> {
        match self {
            Accent::True => "True"@,
            Accent::False => "False"@,
        }
    }

    /// The text of [`Self::text`].
    pub fn as_str(&self) -> (s: &'static str)
        ensures
            s@ == self.text(),
    {
        match self {
            Accent::True => "true",
            Accent::False => "false",
        }
    }

    /// The text of [`Self::text`], as a string of its own.
    pub fn to_string(&self) -> (s: String)
        ensures
            s@ == self.text(),
    {
        self.as_str().to_owned()
    }

    /// The text of [`Self::name`].
    pub fn debug_name(&self) -> (s: &'static str)
        ensures
            s@ == self.name(),
    {
        match self {
            Accent::True => "True",
            Accent::False => "False",
        }
    }
}

/// The thickness of a fraction bar.
#[derive(Debug, Clone, Copy, PartialEq, Eq, Structural)]
pub enum LineThickness {
    Thin,
    Medium,
    Thick,
    Length(u8),
}

impl LineThickness {
    /// The attribute as it stands in the opening tag, with its leading space,
    /// or nothing for the default thickness.
    pub open spec fn text(self) -> Seq<char> {
        match self {
            LineThickness::Thin => " linethickness=\"thin\""@,
            LineThickness::Medium => ""@,
            LineThickness::Thick => " linethickness=\"medium\""@,
            LineThickness::Length(l) => " linethickness=\""@ + decimal(l as nat) + "\""@,
        }
    }

    /// The text of [`Self::text`], as a string of its own.
    pub fn to_string(&self) -> (s: String)
        ensures
            s@ == self.text(),
    {
        match self {
            LineThickness::Thin => " linethickness=\"thin\"".to_owned(),
            LineThickness::Medium => "".to_owned(),
            LineThickness::Thick => " linethickness=\"medium\"".to_owned(),
            LineThickness::Length(l) => {
                let mut s = " linethickness=\"".to_owned();
                push_decimal(&mut s, *l as u32);
                s.append("\"");
                s
            },
        }
    }
}

/// The alignment of the columns of a table.
#[derive(Debug, Clone, Copy, PartialEq, Eq, Structural)]
pub enum ColumnAlign {
    Center,
    Left,
    Right,
}

impl ColumnAlign {
    /// The attribute as it stands in the opening tag, with its leading space,
    /// or nothing for centred columns.
    pub open spec fn text(self) -> Seq<char> {
        match self {
            ColumnAlign::Center => ""@,
            ColumnAlign::Left => " columnalign=left"@,
            ColumnAlign::Right => " columnalign=right"@,
        }
    }

    /// The text of [`Self::text`].
    pub fn as_str(&self) -> (s: &'static str)
        ensures
            s@ == self.text(),
    {
        match self {
            ColumnAlign::Center => "",
            ColumnAlign::Left => " columnalign=left",
            ColumnAlign::Right => " columnalign=right",
        }
    }

    /// The text of [`Self::text`], as a string of its own.
    pub fn to_string(&self) -> (s: String)
        ensures
            s@ == self.text(),
    {
        self.as_str().to_owned()
    }
}

/// Whether a formula stands in a line of text or in a block of its own.
#[derive(Debug, Clone, Copy, PartialEq, Eq, Structural)]
pub enum DisplayStyle {
    Block,
    Inline,
}

impl DisplayStyle {
    /// The value of the `display` attribute.
    pub open spec fn text(self) -> Seq<char> {
        match self {
            DisplayStyle::Block => "block"@,
            DisplayStyle::Inline => "inline"@,
        }
    }

    /// The name of the variant, as it is written in a diagnostic.
    pub open spec fn name(self) -> Seq<char> {
        match self {
            DisplayStyle::Block => "Block"@,
            DisplayStyle::Inline => "Inline"@,
        }
    }

    /// The text of [`Self::text`].
    pub fn as_str(&self) -> (s: &'static str)
        ensures
            s@ == self.text(),
    {
        match self {
            DisplayStyle::Block => "block",
            DisplayStyle::Inline => "inline",
        }
    }

    /// The text of [`Self::text`], as a string of its own.
    pub fn to_string(&self) -> (s: String)
        ensures
            s@ == self.text(),
    {
        self.as_str().to_owned()
    }

    /// The text of [`Self::name`].
    pub fn debug_name(&self) -> (s: &'static str)
        ensures
            s@ == self.name(),
    {
        match self {
            DisplayStyle::Block => "Block",
            DisplayStyle::Inline => "Inline",
        }
    }
}

} // verus!
