//! Colours: the fixed palette of named colours and concrete RGBA values.

use crate::text::same_text;
use vstd::prelude::*;

verus! {

/// A colour of the fixed palette. In markup a name is written in lower case,
/// without separators.
#[derive(Clone, Copy, Debug, PartialEq, Eq, Structural)]
pub enum Name {
    White,
    LightGray,
    Gray,
    DarkGray,
    Black,
    Clear,
    Blue,
    Navy,
    Royal,
    Slate,
    Sky,
    Cyan,
    Teal,
    Green,
    Acid,
    Lime,
    Forest,
    Olive,
    Yellow,
    Gold,
    Goldenrod,
    Orange,
    Brown,
    Tan,
    Brick,
    Red,
    Scarlet,
    Crimson,
    Coral,
    Salmon,
    Pink,
    Magenta,
    Purple,
    Violet,
    Maroon,
}

/// A concrete colour: red, green, blue and opacity, each from 0 to 255.
#[derive(Clone, Copy, Debug, PartialEq, Eq, Structural)]
pub struct Color {
    pub r: u8,
    pub g: u8,
    pub b: u8,
    pub a: u8,
}

/// The hexadecimal digit, in lower case, of a number below 16.
pub open spec fn hex_char(n: u8) -> char {
    if n == 0 {
        '0'
    } else if n == 1 {
        '1'
    } else if n == 2 {
        '2'
    } else if n == 3 {
        '3'
    } else if n == 4 {
        '4'
    } else if n == 5 {
        '5'
    } else if n == 6 {
        '6'
    } else if n == 7 {
        '7'
    } else if n == 8 {
        '8'
    } else if n == 9 {
        '9'
    } else if n == 10 {
        'a'
    } else if n == 11 {
        'b'
    } else if n == 12 {
        'c'
    } else if n == 13 {
        'd'
    } else if n == 14 {
        'e'
    } else {
        'f'
    }
}

/// The two hexadecimal digits of a byte.
pub open spec fn hex_of(byte: u8) -> Seq<char> {
    seq![hex_char(byte / 16), hex_char(byte % 16)]
}

fn hex_digit_char(n: u8) -> (c: char)
    requires
        n < 16,
    ensures
        c == hex_char(n),
{
    match n {
        0 => '0',
        1 => '1',
        2 => '2',
        3 => '3',
        4 => '4',
        5 => '5',
        6 => '6',
        7 => '7',
        8 => '8',
        9 => '9',
        10 => 'a',
        11 => 'b',
        12 => 'c',
        13 => 'd',
        14 => 'e',
        _ => 'f',
    }
}

fn push_hex(text: &mut String, byte: u8)
    ensures
        final(text)@ == old(text)@ + hex_of(byte),
{
    text.push(hex_digit_char(byte / 16));
    text.push(hex_digit_char(byte % 16));
    assert(final(text)@ =~= old(text)@ + hex_of(byte));
}

impl Name {
    /// The way the name is written in markup.
    pub open spec fn label(self) -> Seq<char> {
        match self {
            Name::White => "white"@,
            Name::LightGray => "lightgray"@,
            Name::Gray => "gray"@,
            Name::DarkGray => "darkgray"@,
            Name::Black => "black"@,
            Name::Clear => "clear"@,
            Name::Blue => "blue"@,
            Name::Navy => "navy"@,
            Name::Royal => "royal"@,
            Name::Slate => "slate"@,
            Name::Sky => "sky"@,
            Name::Cyan => "cyan"@,
            Name::Teal => "teal"@,
            Name::Green => "green"@,
            Name::Acid => "acid"@,
            Name::Lime => "lime"@,
            Name::Forest => "forest"@,
            Name::Olive => "olive"@,
            Name::Yellow => "yellow"@,
            Name::Gold => "gold"@,
            Name::Goldenrod => "goldenrod"@,
            Name::Orange => "orange"@,
            Name::Brown => "brown"@,
            Name::Tan => "tan"@,
            Name::Brick => "brick"@,
            Name::Red => "red"@,
            Name::Scarlet => "scarlet"@,
            Name::Crimson => "crimson"@,
            Name::Coral => "coral"@,
            Name::Salmon => "salmon"@,
            Name::Pink => "pink"@,
            Name::Magenta => "magenta"@,
            Name::Purple => "purple"@,
            Name::Violet => "violet"@,
            Name::Maroon => "maroon"@,
        }
    }

    /// The palette, in the order in which a lookup tries its names.
    pub open spec fn palette() -> Seq<Name> {
        seq![
            Name::White,
            Name::LightGray,
            Name::Gray,
            Name::DarkGray,
            Name::Black,
            Name::Clear,
            Name::Blue,
            Name::Navy,
            Name::Royal,
            Name::Slate,
            Name::Sky,
            Name::Cyan,
            Name::Teal,
            Name::Green,
            Name::Acid,
            Name::Lime,
            Name::Forest,
            Name::Olive,
            Name::Yellow,
            Name::Gold,
            Name::Goldenrod,
            Name::Orange,
            Name::Brown,
            Name::Tan,
            Name::Brick,
            Name::Red,
            Name::Scarlet,
            Name::Crimson,
            Name::Coral,
            Name::Salmon,
            Name::Pink,
            Name::Magenta,
            Name::Purple,
            Name::Violet,
            Name::Maroon,
        ]
    }

    /// The first name of `names[from..]` that is written `text`, if there is one.
    pub open spec fn first_labelled(names: Seq<Name>, text: Seq<char>, from: int) -> Option<Name>
        decreases names.len() - from,
    {
        if from < 0 || from >= names.len() {
            None
        } else if names[from].label() == text {
            Some(names[from])
        } else {
            Self::first_labelled(names, text, from + 1)
        }
    }

    /// The palette colour that is written `text`, if there is one.
    pub open spec fn named(text: Seq<char>) -> Option<Name> {
        Self::first_labelled(Self::palette(), text, 0)
    }

    /// The way the name is written in markup.
    pub fn as_str(self) -> (text: &'static str)
        ensures
            text@ == self.label(),
    {
        match self {
            Name::White => "white",
            Name::LightGray => "lightgray",
            Name::Gray => "gray",
            Name::DarkGray => "darkgray",
            Name::Black => "black",
            Name::Clear => "clear",
            Name::Blue => "blue",
            Name::Navy => "navy",
            Name::Royal => "royal",
            Name::Slate => "slate",
            Name::Sky => "sky",
            Name::Cyan => "cyan",
            Name::Teal => "teal",
            Name::Green => "green",
            Name::Acid => "acid",
            Name::Lime => "lime",
            Name::Forest => "forest",
            Name::Olive => "olive",
            Name::Yellow => "yellow",
            Name::Gold => "gold",
            Name::Goldenrod => "goldenrod",
            Name::Orange => "orange",
            Name::Brown => "brown",
            Name::Tan => "tan",
            Name::Brick => "brick",
            Name::Red => "red",
            Name::Scarlet => "scarlet",
            Name::Crimson => "crimson",
            Name::Coral => "coral",
            Name::Salmon => "salmon",
            Name::Pink => "pink",
            Name::Magenta => "magenta",
            Name::Purple => "purple",
            Name::Violet => "violet",
            Name::Maroon => "maroon",
        }
    }

    /// Every name of the palette, in lookup order.
    pub fn all() -> (names: Vec<Name>)
        ensures
            names@ == Name::palette(),
    {
        let names: Vec<Name> = vec![
            Name::White,
            Name::LightGray,
            Name::Gray,
            Name::DarkGray,
            Name::Black,
            Name::Clear,
            Name::Blue,
            Name::Navy,
            Name::Royal,
            Name::Slate,
            Name::Sky,
            Name::Cyan,
            Name::Teal,
            Name::Green,
            Name::Acid,
            Name::Lime,
            Name::Forest,
            Name::Olive,
            Name::Yellow,
            Name::Gold,
            Name::Goldenrod,
            Name::Orange,
            Name::Brown,
            Name::Tan,
            Name::Brick,
            Name::Red,
            Name::Scarlet,
            Name::Crimson,
            Name::Coral,
            Name::Salmon,
            Name::Pink,
            Name::Magenta,
            Name::Purple,
            Name::Violet,
            Name::Maroon,
        ];
        assert(names@ =~= Name::palette());
        names
    }

    /// Looks a colour up by the way it is written in markup. The match is
    /// exact: `"Red"` and `" red"` name no colour.
    pub fn lookup(text: &Vec<char>) -> (found: Option<Name>)
        ensures
            found == Name::named(text@),
    {
        let names = Name::all();
        let mut i: usize = 0;
        while i < names.len()
            invariant
                i <= names.len(),
                names@ == Name::palette(),
                Name::named(text@) == Name::first_labelled(names@, text@, i as int),
            decreases names.len() - i,
        {
            let name = names[i];
            if same_text(text, name.as_str()) {
                return Some(name);
            }
            i += 1;
        }
        None
    }
}

impl Color {
    /// The colour of text that no directive has coloured.
    pub open spec fn spec_white() -> Color {
        Color { r: 255, g: 255, b: 255, a: 255 }
    }

    /// The value of each palette colour.
    pub open spec fn of_name(name: Name) -> Color {
        match name {
            Name::White => Color { r: 0xff, g: 0xff, b: 0xff, a: 0xff },
            Name::LightGray => Color { r: 0xbf, g: 0xbf, b: 0xbf, a: 0xff },
            Name::Gray => Color { r: 0x7f, g: 0x7f, b: 0x7f, a: 0xff },
            Name::DarkGray => Color { r: 0x3f, g: 0x3f, b: 0x3f, a: 0xff },
            Name::Black => Color { r: 0x00, g: 0x00, b: 0x00, a: 0xff },
            Name::Clear => Color { r: 0x00, g: 0x00, b: 0x00, a: 0x00 },
            Name::Blue => Color { r: 0x00, g: 0x00, b: 0xff, a: 0xff },
            Name::Navy => Color { r: 0x00, g: 0x00, b: 0x80, a: 0xff },
            Name::Royal => Color { r: 0x41, g: 0x69, b: 0xe1, a: 0xff },
            Name::Slate => Color { r: 0x70, g: 0x80, b: 0x90, a: 0xff },
            Name::Sky => Color { r: 0x87, g: 0xce, b: 0xeb, a: 0xff },
            Name::Cyan => Color { r: 0x00, g: 0xff, b: 0xff, a: 0xff },
            Name::Teal => Color { r: 0x00, g: 0x80, b: 0x80, a: 0xff },
            Name::Green => Color { r: 0x00, g: 0xff, b: 0x00, a: 0xff },
            Name::Acid => Color { r: 0x7f, g: 0xff, b: 0x00, a: 0xff },
            Name::Lime => Color { r: 0x32, g: 0xcd, b: 0x32, a: 0xff },
            Name::Forest => Color { r: 0x22, g: 0x8b, b: 0x22, a: 0xff },
            Name::Olive => Color { r: 0x6b, g: 0x8e, b: 0x23, a: 0xff },
            Name::Yellow => Color { r: 0xff, g: 0xff, b: 0x00, a: 0xff },
            Name::Gold => Color { r: 0xff, g: 0xd7, b: 0x00, a: 0xff },
            Name::Goldenrod => Color { r: 0xda, g: 0xa5, b: 0x20, a: 0xff },
            Name::Orange => Color { r: 0xff, g: 0xa5, b: 0x00, a: 0xff },
            Name::Brown => Color { r: 0x8b, g: 0x45, b: 0x13, a: 0xff },
            Name::Tan => Color { r: 0xd2, g: 0xb4, b: 0x8c, a: 0xff },
            Name::Brick => Color { r: 0xb2, g: 0x22, b: 0x22, a: 0xff },
            Name::Red => Color { r: 0xff, g: 0x00, b: 0x00, a: 0xff },
            Name::Scarlet => Color { r: 0xff, g: 0x34, b: 0x1c, a: 0xff },
            Name::Crimson => Color { r: 0xdc, g: 0x14, b: 0x3c, a: 0xff },
            Name::Coral => Color { r: 0xff, g: 0x7f, b: 0x50, a: 0xff },
            Name::Salmon => Color { r: 0xfa, g: 0x80, b: 0x72, a: 0xff },
            Name::Pink => Color { r: 0xff, g: 0x69, b: 0xb4, a: 0xff },
            Name::Magenta => Color { r: 0xff, g: 0x00, b: 0xff, a: 0xff },
            Name::Purple => Color { r: 0xa0, g: 0x20, b: 0xf0, a: 0xff },
            Name::Violet => Color { r: 0xee, g: 0x82, b: 0xee, a: 0xff },
            Name::Maroon => Color { r: 0xb0, g: 0x30, b: 0x60, a: 0xff },
        }
    }

    /// White, fully opaque: the colour under every colour stack.
    pub fn white() -> (c: Color)
        ensures
            c == Color::spec_white(),
    {
        Color { r: 255, g: 255, b: 255, a: 255 }
    }

    /// An opaque colour from its three channels.
    pub fn from_rgb(r: u8, g: u8, b: u8) -> (c: Color)
        ensures
            c == (Color { r, g, b, a: 255 }),
    {
        Color { r, g, b, a: 255 }
    }

    /// A colour from its three channels and its opacity.
    pub fn from_rgba(r: u8, g: u8, b: u8, a: u8) -> (c: Color)
        ensures
            c == (Color { r, g, b, a }),
    {
        Color { r, g, b, a }
    }

    /// The value of a palette colour.
    pub fn from_name(name: Name) -> (c: Color)
        ensures
            c == Color::of_name(name),
    {
        match name {
            Name::White => Color { r: 0xff, g: 0xff, b: 0xff, a: 0xff },
            Name::LightGray => Color { r: 0xbf, g: 0xbf, b: 0xbf, a: 0xff },
            Name::Gray => Color { r: 0x7f, g: 0x7f, b: 0x7f, a: 0xff },
            Name::DarkGray => Color { r: 0x3f, g: 0x3f, b: 0x3f, a: 0xff },
            Name::Black => Color { r: 0x00, g: 0x00, b: 0x00, a: 0xff },
            Name::Clear => Color { r: 0x00, g: 0x00, b: 0x00, a: 0x00 },
            Name::Blue => Color { r: 0x00, g: 0x00, b: 0xff, a: 0xff },
            Name::Navy => Color { r: 0x00, g: 0x00, b: 0x80, a: 0xff },
            Name::Royal => Color { r: 0x41, g: 0x69, b: 0xe1, a: 0xff },
            Name::Slate => Color { r: 0x70, g: 0x80, b: 0x90, a: 0xff },
            Name::Sky => Color { r: 0x87, g: 0xce, b: 0xeb, a: 0xff },
            Name::Cyan => Color { r: 0x00, g: 0xff, b: 0xff, a: 0xff },
            Name::Teal => Color { r: 0x00, g: 0x80, b: 0x80, a: 0xff },
            Name::Green => Color { r: 0x00, g: 0xff, b: 0x00, a: 0xff },
            Name::Acid => Color { r: 0x7f, g: 0xff, b: 0x00, a: 0xff },
            Name::Lime => Color { r: 0x32, g: 0xcd, b: 0x32, a: 0xff },
            Name::Forest => Color { r: 0x22, g: 0x8b, b: 0x22, a: 0xff },
            Name::Olive => Color { r: 0x6b, g: 0x8e, b: 0x23, a: 0xff },
            Name::Yellow => Color { r: 0xff, g: 0xff, b: 0x00, a: 0xff },
            Name::Gold => Color { r: 0xff, g: 0xd7, b: 0x00, a: 0xff },
            Name::Goldenrod => Color { r: 0xda, g: 0xa5, b: 0x20, a: 0xff },
            Name::Orange => Color { r: 0xff, g: 0xa5, b: 0x00, a: 0xff },
            Name::Brown => Color { r: 0x8b, g: 0x45, b: 0x13, a: 0xff },
            Name::Tan => Color { r: 0xd2, g: 0xb4, b: 0x8c, a: 0xff },
            Name::Brick => Color { r: 0xb2, g: 0x22, b: 0x22, a: 0xff },
            Name::Red => Color { r: 0xff, g: 0x00, b: 0x00, a: 0xff },
            Name::Scarlet => Color { r: 0xff, g: 0x34, b: 0x1c, a: 0xff },
            Name::Crimson => Color { r: 0xdc, g: 0x14, b: 0x3c, a: 0xff },
            Name::Coral => Color { r: 0xff, g: 0x7f, b: 0x50, a: 0xff },
            Name::Salmon => Color { r: 0xfa, g: 0x80, b: 0x72, a: 0xff },
            Name::Pink => Color { r: 0xff, g: 0x69, b: 0xb4, a: 0xff },
            Name::Magenta => Color { r: 0xff, g: 0x00, b: 0xff, a: 0xff },
            Name::Purple => Color { r: 0xa0, g: 0x20, b: 0xf0, a: 0xff },
            Name::Violet => Color { r: 0xee, g: 0x82, b: 0xee, a: 0xff },
            Name::Maroon => Color { r: 0xb0, g: 0x30, b: 0x60, a: 0xff },
        }
    }

    /// The colour as a style sheet writes it: `#`, then red, green, blue
    /// and opacity in two hexadecimal digits each.
    pub open spec fn css(self) -> Seq<char> {
        seq!['#'] + hex_of(self.r) + hex_of(self.g) + hex_of(self.b) + hex_of(self.a)
    }

    /// The colour as a style sheet writes it, such as `#ff0000ff` for red.
    pub fn to_css(&self) -> (text: String)
        ensures
            text@ == self.css(),
    {
        let mut text = String::new();
        text.push('#');
        assert(text@ =~= seq!['#']);
        push_hex(&mut text, self.r);
        push_hex(&mut text, self.g);
        push_hex(&mut text, self.b);
        push_hex(&mut text, self.a);
        text
    }
}

} // verus!
