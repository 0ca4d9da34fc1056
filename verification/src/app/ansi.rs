//! Terminal escape codes: what they say about colour and style, and the text that is
//! left when they are taken out.
use vstd::prelude::*;

use crate::decimal::{parse, parse_number};
use crate::text::{chars_of, split, split_text, text_of, views};

verus! {

// ---------------------------------------------------------------------------
// Colours
// ---------------------------------------------------------------------------

/// An opaque colour.
#[derive(Clone, Copy, Debug, PartialEq, Eq, Structural)]
pub struct Rgb {
    pub r: u8,
    pub g: u8,
    pub b: u8,
}

/// The colour of parts `r`, `g` and `b`.
pub open spec fn rgb(r: u8, g: u8, b: u8) -> Rgb {
    Rgb { r, g, b }
}

/// The colour for a code that stands for none.
pub open spec fn light_gray() -> Rgb {
    rgb(220, 220, 220)
}

/// The sixteen named colours: the eight dark ones and their bright forms.
pub open spec fn color_4bit(code: u16, bright: bool) -> Rgb {
    if bright {
        match code {
            0 => rgb(102, 102, 102),
            1 => rgb(241, 76, 76),
            2 => rgb(35, 209, 139),
            3 => rgb(245, 245, 67),
            4 => rgb(59, 142, 234),
            5 => rgb(214, 112, 214),
            6 => rgb(41, 184, 219),
            7 => rgb(255, 255, 255),
            _ => light_gray(),
        }
    } else {
        match code {
            0 => rgb(28, 28, 28),
            1 => rgb(205, 49, 49),
            2 => rgb(13, 188, 121),
            3 => rgb(229, 229, 16),
            4 => rgb(36, 114, 200),
            5 => rgb(188, 63, 188),
            6 => rgb(17, 168, 205),
            7 => rgb(229, 229, 229),
            _ => light_gray(),
        }
    }
}

/// The six levels of one part of the colour cube.
pub open spec fn cube_component(value: u16) -> u8 {
    match value {
        0 => 0,
        1 => 95,
        2 => 135,
        3 => 175,
        4 => 215,
        _ => 255,
    }
}

/// The 256-colour palette: sixteen named colours, a cube of six levels a side, and a
/// ramp of grays.
pub open spec fn color_8bit(code: u16) -> Rgb {
    if code < 8 {
        color_4bit(code, false)
    } else if code < 16 {
        color_4bit((code - 8) as u16, true)
    } else if code < 232 {
        let cube = (code - 16) as u16;
        rgb(
            cube_component(cube / 36),
            cube_component((cube % 36) / 6),
            cube_component(cube % 6),
        )
    } else if code < 256 {
        let level = (8 + (code - 232) * 10) as u8;
        rgb(level, level, level)
    } else {
        light_gray()
    }
}

/// One of the sixteen named colours.
pub fn ansi_color_from_4bit(code: u16, bright: bool) -> (color: Rgb)
    ensures
        color == color_4bit(code, bright),
{
    match (code, bright) {
        (0, false) => Rgb { r: 28, g: 28, b: 28 },
        (1, false) => Rgb { r: 205, g: 49, b: 49 },
        (2, false) => Rgb { r: 13, g: 188, b: 121 },
        (3, false) => Rgb { r: 229, g: 229, b: 16 },
        (4, false) => Rgb { r: 36, g: 114, b: 200 },
        (5, false) => Rgb { r: 188, g: 63, b: 188 },
        (6, false) => Rgb { r: 17, g: 168, b: 205 },
        (7, false) => Rgb { r: 229, g: 229, b: 229 },
        (0, true) => Rgb { r: 102, g: 102, b: 102 },
        (1, true) => Rgb { r: 241, g: 76, b: 76 },
        (2, true) => Rgb { r: 35, g: 209, b: 139 },
        (3, true) => Rgb { r: 245, g: 245, b: 67 },
        (4, true) => Rgb { r: 59, g: 142, b: 234 },
        (5, true) => Rgb { r: 214, g: 112, b: 214 },
        (6, true) => Rgb { r: 41, g: 184, b: 219 },
        (7, true) => Rgb { r: 255, g: 255, b: 255 },
        _ => Rgb { r: 220, g: 220, b: 220 },
    }
}

/// One of the six levels of the colour cube.
pub fn ansi_cube_component(value: u16) -> (level: u8)
    ensures
        level == cube_component(value),
{
    match value {
        0 => 0,
        1 => 95,
        2 => 135,
        3 => 175,
        4 => 215,
        _ => 255,
    }
}

/// A colour of the 256-colour palette.
pub fn ansi_color_from_8bit(code: u16) -> (color: Rgb)
    ensures
        color == color_8bit(code),
{
    if code < 8 {
        return ansi_color_from_4bit(code, false);
    }
    if code < 16 {
        return ansi_color_from_4bit(code - 8, true);
    }
    if code <= 231 {
        let cube: u16 = code - 16;
        let red: u16 = cube / 36;
        let green: u16 = (cube % 36) / 6;
        let blue: u16 = cube % 6;
        return Rgb {
            r: ansi_cube_component(red),
            g: ansi_cube_component(green),
            b: ansi_cube_component(blue),
        };
    }
    if code <= 255 {
        let level: u8 = 8 + (code - 232) as u8 * 10;
        return Rgb { r: level, g: level, b: level };
    }
    Rgb { r: 220, g: 220, b: 220 }
}

// ---------------------------------------------------------------------------
// Styles
// ---------------------------------------------------------------------------

/// How a piece of text is drawn.
#[derive(Clone, Copy, Debug, PartialEq, Eq, Structural)]
pub struct ReviewTextStyle {
    pub foreground: Option<Rgb>,
    pub bold: bool,
    pub faint: bool,
    pub italic: bool,
    pub underline: bool,
}

/// The style of text that no code has touched.
pub open spec fn plain_style() -> ReviewTextStyle {
    ReviewTextStyle { foreground: None, bold: false, faint: false, italic: false, underline: false }
}

impl Default for ReviewTextStyle {
    fn default() -> (style: Self)
        ensures
            style == plain_style(),
    {
        ReviewTextStyle {
            foreground: None,
            bold: false,
            faint: false,
            italic: false,
            underline: false,
        }
    }
}

/// What a single style code makes of `style`.
pub open spec fn styled_by(style: ReviewTextStyle, code: u16) -> ReviewTextStyle {
    if code == 0 {
        plain_style()
    } else if code == 1 {
        ReviewTextStyle { bold: true, ..style }
    } else if code == 2 {
        ReviewTextStyle { faint: true, ..style }
    } else if code == 3 {
        ReviewTextStyle { italic: true, ..style }
    } else if code == 4 {
        ReviewTextStyle { underline: true, ..style }
    } else if code == 22 {
        ReviewTextStyle { bold: false, faint: false, ..style }
    } else if code == 23 {
        ReviewTextStyle { italic: false, ..style }
    } else if code == 24 {
        ReviewTextStyle { underline: false, ..style }
    } else if 30 <= code <= 37 {
        ReviewTextStyle { foreground: Some(color_4bit((code - 30) as u16, false)), ..style }
    } else if code == 39 {
        ReviewTextStyle { foreground: None, ..style }
    } else if 90 <= code <= 97 {
        ReviewTextStyle { foreground: Some(color_4bit((code - 90) as u16, true)), ..style }
    } else {
        style
    }
}

/// Applies a single style code.
pub fn apply_sgr_code(style: &mut ReviewTextStyle, code: u16)
    ensures
        *final(style) == styled_by(*old(style), code),
{
    if code == 0 {
        *style = ReviewTextStyle::default();
    } else if code == 1 {
        style.bold = true;
    } else if code == 2 {
        style.faint = true;
    } else if code == 3 {
        style.italic = true;
    } else if code == 4 {
        style.underline = true;
    } else if code == 22 {
        style.bold = false;
        style.faint = false;
    } else if code == 23 {
        style.italic = false;
    } else if code == 24 {
        style.underline = false;
    } else if 30 <= code && code <= 37 {
        style.foreground = Some(ansi_color_from_4bit(code - 30, false));
    } else if code == 39 {
        style.foreground = None;
    } else if 90 <= code && code <= 97 {
        style.foreground = Some(ansi_color_from_4bit(code - 90, true));
    }
}

/// A number cut down to its lowest eight bits.
pub open spec fn low_byte(n: u16) -> u8 {
    (n % 256) as u8
}

/// The colour that the codes after a colour introducer spell, and how many of them it
/// takes: `5;n` for the palette, `2;r;g;b` for the three parts.
pub open spec fn extended_color(codes: Seq<Option<u16>>) -> Option<(Rgb, int)> {
    if codes.len() >= 2 && codes[0] == Some(5u16) && codes[1] is Some {
        Some((color_8bit(codes[1]->0), 2int))
    } else if codes.len() >= 4 && codes[0] == Some(2u16) && codes[1] is Some && codes[2] is Some
        && codes[3] is Some {
        Some((rgb(low_byte(codes[1]->0), low_byte(codes[2]->0), low_byte(codes[3]->0)), 4int))
    } else {
        None
    }
}

/// The colour that the codes from index `at` on spell, and how many of them it takes.
pub fn ansi_extended_color(codes: &Vec<Option<u16>>, at: usize) -> (found: Option<(Rgb, usize)>)
    requires
        at <= codes@.len(),
    ensures
        match found {
            Some((color, taken)) => extended_color(codes@.skip(at as int)) == Some(
                (color, taken as int),
            ),
            None => extended_color(codes@.skip(at as int)) is None,
        },
{
    let left: usize = codes.len() - at;
    if left >= 2 {
        if let Some(5) = codes[at] {
            if let Some(code) = codes[at + 1] {
                return Some((ansi_color_from_8bit(code), 2));
            }
        }
    }
    if left >= 4 {
        if let Some(2) = codes[at] {
            if let (Some(r), Some(g), Some(b)) = (codes[at + 1], codes[at + 2], codes[at + 3]) {
                let color: Rgb = Rgb {
                    r: (r % 256) as u8,
                    g: (g % 256) as u8,
                    b: (b % 256) as u8,
                };
                return Some((color, 4));
            }
        }
    }
    None
}

/// What a run of style codes makes of `style`. An unreadable code is passed over. A
/// foreground colour of several codes is set, a background colour of several codes is
/// passed over whole.
pub open spec fn styled_by_all(style: ReviewTextStyle, codes: Seq<Option<u16>>) -> ReviewTextStyle
    decreases codes.len(),
{
    if codes.len() == 0 {
        style
    } else {
        let rest = codes.skip(1);
        match codes[0] {
            None => styled_by_all(style, rest),
            Some(code) => if code == 38 || code == 48 {
                match extended_color(rest) {
                    Some((color, taken)) => {
                        let next = if code == 38 {
                            ReviewTextStyle { foreground: Some(color), ..style }
                        } else {
                            style
                        };
                        styled_by_all(next, rest.skip(taken))
                    },
                    None => styled_by_all(style, rest),
                }
            } else {
                styled_by_all(styled_by(style, code), rest)
            },
        }
    }
}

/// The text of a style sequence without its final `m`.
pub open spec fn sgr_body(sequence: Seq<char>) -> Seq<char> {
    if sequence.len() > 0 && sequence.last() == 'm' {
        sequence.drop_last()
    } else {
        sequence
    }
}

/// The code that one part of a style sequence spells; an empty part spells zero.
pub open spec fn sgr_code(part: Seq<char>) -> Option<u16> {
    if part.len() == 0 {
        Some(0)
    } else {
        match parse(part, 0xffff) {
            Some(n) => Some(n as u16),
            None => None,
        }
    }
}

/// The codes of a style sequence, which semicolons part.
pub open spec fn sgr_codes(sequence: Seq<char>) -> Seq<Option<u16>> {
    split(sgr_body(sequence), ';').map_values(|part: Seq<char>| sgr_code(part))
}

/// The codes of a style sequence.
fn read_sgr_codes(body: &str) -> (codes: Vec<Option<u16>>)
    ensures
        codes@ == split(body@, ';').map_values(|part: Seq<char>| sgr_code(part)),
{
    let parts: Vec<String> = split_text(body, ';');
    let ghost want = split(body@, ';').map_values(|part: Seq<char>| sgr_code(part));
    let mut codes: Vec<Option<u16>> = Vec::new();
    let mut i: usize = 0;
    while i < parts.len()
        invariant
            i <= parts@.len(),
            views(parts@) == split(body@, ';'),
            want == split(body@, ';').map_values(|part: Seq<char>| sgr_code(part)),
            codes@ =~= want.take(i as int),
        decreases parts@.len() - i,
    {
        proof {
            assert(views(parts@)[i as int] == parts@[i as int]@);
            assert(want[i as int] == sgr_code(parts@[i as int]@));
        }
        let part: &str = parts[i].as_str();
        let code: Option<u16> = if part.is_empty() {
            Some(0)
        } else {
            match parse_number(part, 0xffff) {
                Some(n) => Some(n as u16),
                None => None,
            }
        };
        codes.push(code);
        i = i + 1;
    }
    proof {
        assert(codes@ =~= want);
    }
    codes
}

/// Applies a style sequence, with or without its final `m`.
pub fn apply_sgr_sequence(style: &mut ReviewTextStyle, sequence: &str)
    ensures
        *final(style) == styled_by_all(*old(style), sgr_codes(sequence@)),
{
    let chars: Vec<char> = chars_of(sequence);
    let mut end: usize = chars.len();
    if end > 0 && chars[end - 1] == 'm' {
        end = end - 1;
    }
    let body: String = text_of(&chars, 0, end);
    proof {
        assert(body@ =~= sgr_body(sequence@));
    }
    if body.as_str().is_empty() {
        *style = ReviewTextStyle::default();
        proof {
            lemma_empty_sequence_resets(*old(style), sequence@);
        }
        return;
    }
    let codes: Vec<Option<u16>> = read_sgr_codes(body.as_str());
    let ghost all = sgr_codes(sequence@);
    let ghost start = *style;
    let len: usize = codes.len();
    let mut idx: usize = 0;
    proof {
        assert(all.skip(0) =~= all);
    }
    while idx < codes.len()
        invariant
            idx <= codes@.len(),
            len == codes@.len(),
            codes@ == all,
            styled_by_all(*style, all.skip(idx as int)) == styled_by_all(start, all),
        decreases codes@.len() - idx,
    {
        let ghost here = all.skip(idx as int);
        proof {
            assert(here.skip(1) =~= all.skip(idx + 1));
        }
        match codes[idx] {
            None => {
                idx = idx + 1;
            },
            Some(code) => {
                if code == 38 || code == 48 {
                    match ansi_extended_color(&codes, idx + 1) {
                        Some((color, taken)) => {
                            if code == 38 {
                                style.foreground = Some(color);
                            }
                            proof {
                                assert(here.skip(1).skip(taken as int) =~= all.skip(
                                    idx + 1 + taken,
                                ));
                            }
                            idx = idx + 1 + taken;
                        },
                        None => {
                            idx = idx + 1;
                        },
                    }
                } else {
                    apply_sgr_code(style, code);
                    idx = idx + 1;
                }
            },
        }
    }
    proof {
        assert(all.skip(idx as int) =~= Seq::<Option<u16>>::empty());
    }
}

/// A style sequence without codes takes every style back.
pub proof fn lemma_empty_sequence_resets(style: ReviewTextStyle, sequence: Seq<char>)
    requires
        sgr_body(sequence).len() == 0,
    ensures
        styled_by_all(style, sgr_codes(sequence)) == plain_style(),
{
    let codes = sgr_codes(sequence);
    assert(codes.len() == 1);
    assert(codes[0] == Some(0u16));
    reveal_with_fuel(styled_by_all, 2);
    assert(codes.skip(1).len() == 0);
}

} // verus!
