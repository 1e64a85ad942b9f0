//! Stroke and fill colors.

use vstd::prelude::*;

verus! {

/// Stroke colors.
#[derive(Clone, Copy, Debug, PartialEq, Eq, Structural)]
pub enum Color {
    Black,
    Red,
    Green,
    DarkBlue,
    Orange,
}

impl Color {
    pub open spec fn css(self) -> Seq<char> {
        match self {
            Color::Black => "Black"@,
            Color::Red => "Red"@,
            Color::Green => "Green"@,
            Color::DarkBlue => "DarkBlue"@,
            Color::Orange => "Orange"@,
        }
    }

    /// The CSS color name.
    pub fn css_name(&self) -> (r: &'static str)
        ensures
            r@ == self.css(),
    {
        match self {
            Color::Black => "Black",
            Color::Red => "Red",
            Color::Green => "Green",
            Color::DarkBlue => "DarkBlue",
            Color::Orange => "Orange",
        }
    }
}

impl Color {
    /// The color with CSS name `s`; other names give the default, black.
    pub open spec fn parse(s: Seq<char>) -> Color {
        if s == "Red"@ {
            Color::Red
        } else if s == "Green"@ {
            Color::Green
        } else if s == "DarkBlue"@ {
            Color::DarkBlue
        } else if s == "Orange"@ {
            Color::Orange
        } else {
            Color::Black
        }
    }

    pub fn from_name(name: &str) -> (r: Color)
        ensures
            r == Color::parse(name@),
    {
        let n = name.to_owned();
        if n == "Red".to_owned() {
            Color::Red
        } else if n == "Green".to_owned() {
            Color::Green
        } else if n == "DarkBlue".to_owned() {
            Color::DarkBlue
        } else if n == "Orange".to_owned() {
            Color::Orange
        } else {
            Color::Black
        }
    }
}

impl Default for Color {
    fn default() -> (r: Color)
        ensures
            r == Color::Black,
    {
        Color::Black
    }
}

/// Fill colors; a shape without fill holds `None` instead.
#[derive(Clone, Copy, Debug, PartialEq, Eq, Structural)]
pub enum BackgroundColor {
    Magenta,
    Blue,
    Cyan,
    Yellow,
}

impl BackgroundColor {
    pub open spec fn css(self) -> Seq<char> {
        match self {
            BackgroundColor::Magenta => "Magenta"@,
            BackgroundColor::Blue => "Blue"@,
            BackgroundColor::Cyan => "Cyan"@,
            BackgroundColor::Yellow => "Yellow"@,
        }
    }

    /// The CSS color name.
    pub fn css_name(&self) -> (r: &'static str)
        ensures
            r@ == self.css(),
    {
        match self {
            BackgroundColor::Magenta => "Magenta",
            BackgroundColor::Blue => "Blue",
            BackgroundColor::Cyan => "Cyan",
            BackgroundColor::Yellow => "Yellow",
        }
    }

    /// The fill with CSS name `s`; other names give no fill.
    pub open spec fn parse(s: Seq<char>) -> Option<BackgroundColor> {
        if s == "Magenta"@ {
            Some(BackgroundColor::Magenta)
        } else if s == "Blue"@ {
            Some(BackgroundColor::Blue)
        } else if s == "Cyan"@ {
            Some(BackgroundColor::Cyan)
        } else if s == "Yellow"@ {
            Some(BackgroundColor::Yellow)
        } else {
            None
        }
    }

    pub fn from_name(name: &str) -> (r: Option<BackgroundColor>)
        ensures
            r == BackgroundColor::parse(name@),
    {
        let n = name.to_owned();
        if n == "Magenta".to_owned() {
            Some(BackgroundColor::Magenta)
        } else if n == "Blue".to_owned() {
            Some(BackgroundColor::Blue)
        } else if n == "Cyan".to_owned() {
            Some(BackgroundColor::Cyan)
        } else if n == "Yellow".to_owned() {
            Some(BackgroundColor::Yellow)
        } else {
            None
        }
    }
}

} // verus!
