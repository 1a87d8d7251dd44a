//! Styles for rendered output, and the level-to-style tables.

use vstd::prelude::*;

verus! {

/// A terminal foreground color used by the renderer.
#[derive(Clone, Copy, Debug, PartialEq, Eq)]
pub enum TextColor {
    Blue,
    Red,
    Green,
    Yellow,
    BrightYellow,
    BrightWhite,
}

/// How one piece of output text is styled. `color: None` means the terminal's
/// default color.
#[derive(Clone, Copy, Debug, PartialEq, Eq)]
pub struct TextStyle {
    pub color: Option<TextColor>,
    pub bold: bool,
    pub italic: bool,
    pub dimmed: bool,
}

/// No styling at all: default color, no emphasis.
pub open spec fn plain_style() -> TextStyle {
    TextStyle { color: None, bold: false, italic: false, dimmed: false }
}

/// The style of the level token for a given level value: always bold, colored
/// for the recognized levels, uncolored for any other level.
pub open spec fn level_style_spec(level: Seq<char>) -> TextStyle {
    TextStyle {
        color: if level == "INFO"@ {
            Some(TextColor::Blue)
        } else if level == "ERROR"@ || level == "SEVERE"@ {
            Some(TextColor::Red)
        } else if level == "DEBUG"@ {
            Some(TextColor::Green)
        } else if level == "WARN"@ || level == "WARNING"@ {
            Some(TextColor::BrightYellow)
        } else {
            None
        },
        bold: true,
        italic: false,
        dimmed: false,
    }
}

/// The style of the message token for a given level value: never bold, and
/// always colored — an unrecognized level falls back to blue, not to the
/// default color.
pub open spec fn message_style_spec(level: Seq<char>) -> TextStyle {
    TextStyle {
        color: Some(
            if level == "ERROR"@ || level == "SEVERE"@ {
                TextColor::Red
            } else if level == "DEBUG"@ {
                TextColor::Green
            } else if level == "WARN"@ || level == "WARNING"@ {
                TextColor::BrightYellow
            } else {
                TextColor::Blue
            },
        ),
        bold: false,
        italic: false,
        dimmed: false,
    }
}

/// True exactly when the two strings hold the same characters.
pub fn str_eq(a: &str, b: &str) -> (r: bool)
    ensures
        r == (a@ == b@),
{
    let x: String = a.to_owned();
    let y: String = b.to_owned();
    x == y
}

/// Picks the style of the level token, per the level-to-style table.
pub fn level_style(level: &str) -> (r: TextStyle)
    ensures
        r == level_style_spec(level@),
{
    let color: Option<TextColor> = if str_eq(level, "INFO") {
        Some(TextColor::Blue)
    } else if str_eq(level, "ERROR") || str_eq(level, "SEVERE") {
        Some(TextColor::Red)
    } else if str_eq(level, "DEBUG") {
        Some(TextColor::Green)
    } else if str_eq(level, "WARN") || str_eq(level, "WARNING") {
        Some(TextColor::BrightYellow)
    } else {
        None
    };
    TextStyle { color, bold: true, italic: false, dimmed: false }
}

/// Picks the style of the message token, per the level-to-style table.
pub fn message_style(level: &str) -> (r: TextStyle)
    ensures
        r == message_style_spec(level@),
{
    let color: TextColor = if str_eq(level, "ERROR") || str_eq(level, "SEVERE") {
        TextColor::Red
    } else if str_eq(level, "DEBUG") {
        TextColor::Green
    } else if str_eq(level, "WARN") || str_eq(level, "WARNING") {
        TextColor::BrightYellow
    } else {
        TextColor::Blue
    };
    TextStyle { color: Some(color), bold: false, italic: false, dimmed: false }
}

/// The level-to-style table in full, including the asymmetry on an
/// unrecognized level: its level token keeps the default color while its
/// message still falls back to blue.
pub proof fn lemma_level_style_table(level: Seq<char>)
    ensures
        level_style_spec(level).bold && !level_style_spec(level).italic
            && !level_style_spec(level).dimmed,
        !message_style_spec(level).bold && !message_style_spec(level).italic
            && !message_style_spec(level).dimmed,
        level == "INFO"@ ==> level_style_spec(level).color == Some(TextColor::Blue)
            && message_style_spec(level).color == Some(TextColor::Blue),
        level == "ERROR"@ || level == "SEVERE"@ ==> level_style_spec(level).color == Some(
            TextColor::Red,
        ) && message_style_spec(level).color == Some(TextColor::Red),
        level == "DEBUG"@ ==> level_style_spec(level).color == Some(TextColor::Green)
            && message_style_spec(level).color == Some(TextColor::Green),
        level == "WARN"@ || level == "WARNING"@ ==> level_style_spec(level).color == Some(
            TextColor::BrightYellow,
        ) && message_style_spec(level).color == Some(TextColor::BrightYellow),
        level != "INFO"@ && level != "ERROR"@ && level != "SEVERE"@ && level != "DEBUG"@ && level
            != "WARN"@ && level != "WARNING"@ ==> level_style_spec(level).color is None
            && message_style_spec(level).color == Some(TextColor::Blue),
{
    reveal_strlit("INFO");
    reveal_strlit("ERROR");
    reveal_strlit("SEVERE");
    reveal_strlit("DEBUG");
    reveal_strlit("WARN");
    reveal_strlit("WARNING");
    assert("INFO"@[0] != "WARN"@[0]);
    assert("ERROR"@[0] != "DEBUG"@[0]);
    assert("INFO"@.len() != "ERROR"@.len());
    assert("INFO"@.len() != "SEVERE"@.len());
    assert("INFO"@.len() != "DEBUG"@.len());
    assert("INFO"@.len() != "WARNING"@.len());
    assert("ERROR"@.len() != "SEVERE"@.len());
    assert("ERROR"@.len() != "WARN"@.len());
    assert("ERROR"@.len() != "WARNING"@.len());
    assert("SEVERE"@.len() != "DEBUG"@.len());
    assert("SEVERE"@.len() != "WARN"@.len());
    assert("SEVERE"@.len() != "WARNING"@.len());
    assert("DEBUG"@.len() != "WARN"@.len());
    assert("DEBUG"@.len() != "WARNING"@.len());
    assert("WARN"@.len() != "WARNING"@.len());
}

} // verus!
