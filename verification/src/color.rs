//! The eight colours a Tilt hydrometer is sold in, and the byte and the tag
//! that stand for each.

use vstd::prelude::*;

verus! {

/// The colour of a Tilt hydrometer. A device announces its colour in one byte
/// of its beacon identifier, and readings are stored under the colour's tag.
#[derive(Clone, Copy, Debug, PartialEq, Eq, Hash, Structural)]
pub enum TiltColor {
    Red,
    Green,
    Black,
    Purple,
    Orange,
    Blue,
    Yellow,
    Pink,
}

/// The colour that a code byte stands for, if any.
pub open spec fn color_of_code(code: u8) -> Option<TiltColor> {
    if code == 0x10 {
        Some(TiltColor::Red)
    } else if code == 0x20 {
        Some(TiltColor::Green)
    } else if code == 0x30 {
        Some(TiltColor::Black)
    } else if code == 0x40 {
        Some(TiltColor::Purple)
    } else if code == 0x50 {
        Some(TiltColor::Orange)
    } else if code == 0x60 {
        Some(TiltColor::Blue)
    } else if code == 0x70 {
        Some(TiltColor::Yellow)
    } else if code == 0x80 {
        Some(TiltColor::Pink)
    } else {
        None
    }
}

impl TiltColor {
    /// The code byte of this colour.
    pub open spec fn code_spec(self) -> u8 {
        match self {
            TiltColor::Red => 0x10,
            TiltColor::Green => 0x20,
            TiltColor::Black => 0x30,
            TiltColor::Purple => 0x40,
            TiltColor::Orange => 0x50,
            TiltColor::Blue => 0x60,
            TiltColor::Yellow => 0x70,
            TiltColor::Pink => 0x80,
        }
    }

    /// The lowercase tag of this colour.
    pub open spec fn label(self) -> Seq<char> {
        match self {
            TiltColor::Red => "red"@,
            TiltColor::Green => "green"@,
            TiltColor::Black => "black"@,
            TiltColor::Purple => "purple"@,
            TiltColor::Orange => "orange"@,
            TiltColor::Blue => "blue"@,
            TiltColor::Yellow => "yellow"@,
            TiltColor::Pink => "pink"@,
        }
    }

    /// The byte by which a device of this colour identifies itself.
    #[verifier::when_used_as_spec(code_spec)]
    pub fn code(self) -> (code: u8)
        ensures
            code == self.code_spec(),
    {
        match self {
            TiltColor::Red => 0x10,
            TiltColor::Green => 0x20,
            TiltColor::Black => 0x30,
            TiltColor::Purple => 0x40,
            TiltColor::Orange => 0x50,
            TiltColor::Blue => 0x60,
            TiltColor::Yellow => 0x70,
            TiltColor::Pink => 0x80,
        }
    }
}

/// Looks a code byte up. Bytes that no colour uses give `None`.
pub fn code_to_color(code: u8) -> (color: Option<TiltColor>)
    ensures
        color == color_of_code(code),
{
    match code {
        0x10 => Some(TiltColor::Red),
        0x20 => Some(TiltColor::Green),
        0x30 => Some(TiltColor::Black),
        0x40 => Some(TiltColor::Purple),
        0x50 => Some(TiltColor::Orange),
        0x60 => Some(TiltColor::Blue),
        0x70 => Some(TiltColor::Yellow),
        0x80 => Some(TiltColor::Pink),
        _ => None,
    }
}

/// The tag under which readings of a colour are stored.
pub fn color_name(color: TiltColor) -> (name: &'static str)
    ensures
        name@ == color.label(),
{
    match color {
        TiltColor::Red => "red",
        TiltColor::Green => "green",
        TiltColor::Black => "black",
        TiltColor::Purple => "purple",
        TiltColor::Orange => "orange",
        TiltColor::Blue => "blue",
        TiltColor::Yellow => "yellow",
        TiltColor::Pink => "pink",
    }
}

/// Codes and colours correspond one to one: a colour's code is looked up as
/// that colour, and a byte that is looked up as a colour is that colour's code.
pub proof fn lemma_code_bijection(color: TiltColor, code: u8)
    ensures
        color_of_code(color.code_spec()) == Some(color),
        color_of_code(code) == Some(color) <==> code == color.code_spec(),
{
}

/// Exactly eight bytes are colour codes: the multiples of sixteen from 0x10
/// to 0x80.
pub proof fn lemma_known_codes(code: u8)
    ensures
        color_of_code(code) is Some <==> (0x10 <= code <= 0x80 && code % 16 == 0),
{
}

/// The tags letter by letter.
proof fn lemma_labels_spelled()
    ensures
        TiltColor::Red.label() =~= seq!['r', 'e', 'd'],
        TiltColor::Green.label() =~= seq!['g', 'r', 'e', 'e', 'n'],
        TiltColor::Black.label() =~= seq!['b', 'l', 'a', 'c', 'k'],
        TiltColor::Purple.label() =~= seq!['p', 'u', 'r', 'p', 'l', 'e'],
        TiltColor::Orange.label() =~= seq!['o', 'r', 'a', 'n', 'g', 'e'],
        TiltColor::Blue.label() =~= seq!['b', 'l', 'u', 'e'],
        TiltColor::Yellow.label() =~= seq!['y', 'e', 'l', 'l', 'o', 'w'],
        TiltColor::Pink.label() =~= seq!['p', 'i', 'n', 'k'],
{
    reveal_strlit("red");
    reveal_strlit("green");
    reveal_strlit("black");
    reveal_strlit("purple");
    reveal_strlit("orange");
    reveal_strlit("blue");
    reveal_strlit("yellow");
    reveal_strlit("pink");
}

/// No two colours share a tag.
pub proof fn lemma_label_injective(a: TiltColor, b: TiltColor)
    requires
        a.label() == b.label(),
    ensures
        a == b,
{
    lemma_labels_spelled();
    if a != b {
        assert(a.label().len() != b.label().len() || a.label()[0] != b.label()[0]);
    }
}

/// Every tag is made of lowercase ASCII letters.
pub proof fn lemma_label_lowercase(color: TiltColor, i: int)
    requires
        0 <= i < color.label().len(),
    ensures
        'a' <= color.label()[i] <= 'z',
{
    lemma_labels_spelled();
}

} // verus!
