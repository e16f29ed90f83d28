//! Icons of the icon font and the code points that draw them.

use vstd::prelude::*;

verus! {

/// An icon of the application's icon font.
#[derive(Clone, Copy, Debug, PartialEq, Eq, Structural)]
pub enum Icon {
    Browser,
    Search,
    Like,
    Info,
    Warning,
    Error,
    Invalid,
    Connection,
    Pause,
    Stop,
    GitHub,
    Share,
    Cast,
    Bin,
    Mute,
    Speak,
    Banned,
    Group,
    Video,
    Image,
    Folder,
    Burger,
    Speed,
    Plus,
    Download,
    Settings,
    Save,
    Screen,
    Area,
}

/// The glyph of the icon font that draws `icon`.
pub open spec fn glyph(icon: Icon) -> char {
    match icon {
        Icon::Browser => '1',
        Icon::Search => '2',
        Icon::Like => '3',
        Icon::Info => '5',
        Icon::Warning => '8',
        Icon::Error => '9',
        Icon::Invalid => 'a',
        Icon::Connection => 'Z',
        Icon::Pause => 'd',
        Icon::Stop => 'f',
        Icon::GitHub => 'g',
        Icon::Share => 'h',
        Icon::Cast => 'i',
        Icon::Bin => 'l',
        Icon::Mute => 'm',
        Icon::Speak => 'n',
        Icon::Banned => 'r',
        Icon::Group => 's',
        Icon::Video => 't',
        Icon::Image => 'u',
        Icon::Folder => 'v',
        Icon::Burger => 'J',
        Icon::Speed => 'P',
        Icon::Plus => 'T',
        Icon::Download => 'U',
        Icon::Settings => 'V',
        Icon::Save => 'Y',
        Icon::Screen => 'u',
        Icon::Area => 'E',
    }
}

impl Icon {
    /// The code point of the icon font that draws this icon.
    pub fn codepoint(&self) -> (c: char)
        ensures
            c == glyph(*self),
    {
        match self {
            Icon::Browser => '1',
            Icon::Search => '2',
            Icon::Like => '3',
            Icon::Info => '5',
            Icon::Warning => '8',
            Icon::Error => '9',
            Icon::Invalid => 'a',
            Icon::Connection => 'Z',
            Icon::Pause => 'd',
            Icon::Stop => 'f',
            Icon::GitHub => 'g',
            Icon::Share => 'h',
            Icon::Cast => 'i',
            Icon::Bin => 'l',
            Icon::Mute => 'm',
            Icon::Speak => 'n',
            Icon::Banned => 'r',
            Icon::Group => 's',
            Icon::Video => 't',
            Icon::Image => 'u',
            Icon::Folder => 'v',
            Icon::Burger => 'J',
            Icon::Speed => 'P',
            Icon::Plus => 'T',
            Icon::Download => 'U',
            Icon::Settings => 'V',
            Icon::Save => 'Y',
            Icon::Screen => 'u',
            Icon::Area => 'E',
        }
    }
}

/// Every icon is drawn by an ASCII letter or digit of the icon font.
pub proof fn law_glyphs_are_ascii_alphanumeric(icon: Icon)
    ensures
        ('0' <= glyph(icon) <= '9') || ('a' <= glyph(icon) <= 'z') || ('A' <= glyph(icon) <= 'Z'),
{
}

} // verus!
