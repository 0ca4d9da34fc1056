//! What style codes mean.
use vstd::prelude::*;

use crate::app::ansi::{
    color_4bit, color_8bit, extended_color, lemma_empty_sequence_resets, sgr_body, sgr_code,
    sgr_codes, styled_by, styled_by_all, ReviewTextStyle, Rgb,
};
use crate::app::review_settings_laws::{free_of, law_split_undoes_join};
use crate::decimal::{decimal, is_digit, law_parse_reads_decimal, lemma_decimal_digits, parse};
use crate::text::{equals, join, split};
use crate::text_laws::law_splitting;

verus! {

/// Code 0 takes every style back. Each of the codes 1 to 4 turns on one style and nothing
/// else; 22 turns off bold and faint, 23 and 24 italic and underlined, and 39 the colour.
/// From 30 on and from 90 on stand eight dark and eight bright colours. All other codes that
/// stand alone change nothing.
pub proof fn law_style_codes(style: ReviewTextStyle, code: u16)
    ensures
        styled_by(style, 0) == (ReviewTextStyle {
            foreground: None,
            bold: false,
            faint: false,
            italic: false,
            underline: false,
        }),
        styled_by(style, 1) == (ReviewTextStyle { bold: true, ..style }),
        styled_by(style, 2) == (ReviewTextStyle { faint: true, ..style }),
        styled_by(style, 3) == (ReviewTextStyle { italic: true, ..style }),
        styled_by(style, 4) == (ReviewTextStyle { underline: true, ..style }),
        styled_by(style, 22) == (ReviewTextStyle { bold: false, faint: false, ..style }),
        styled_by(style, 23) == (ReviewTextStyle { italic: false, ..style }),
        styled_by(style, 24) == (ReviewTextStyle { underline: false, ..style }),
        styled_by(style, 39) == (ReviewTextStyle { foreground: None, ..style }),
        code < 8 ==> styled_by(style, (30 + code) as u16) == (ReviewTextStyle {
            foreground: Some(color_4bit(code, false)),
            ..style
        }),
        code < 8 ==> styled_by(style, (90 + code) as u16) == (ReviewTextStyle {
            foreground: Some(color_4bit(code, true)),
            ..style
        }),
        4 < code < 22 || 24 < code < 30 || code == 38 || 39 < code < 90 || code > 97 ==> styled_by(
            style,
            code,
        ) == style,
{
}

/// The sixteen named colours.
pub proof fn law_named_colors(code: u16, bright: bool)
    ensures
        color_4bit(0, false) == (Rgb { r: 28, g: 28, b: 28 }),
        color_4bit(1, false) == (Rgb { r: 205, g: 49, b: 49 }),
        color_4bit(2, false) == (Rgb { r: 13, g: 188, b: 121 }),
        color_4bit(3, false) == (Rgb { r: 229, g: 229, b: 16 }),
        color_4bit(4, false) == (Rgb { r: 36, g: 114, b: 200 }),
        color_4bit(5, false) == (Rgb { r: 188, g: 63, b: 188 }),
        color_4bit(6, false) == (Rgb { r: 17, g: 168, b: 205 }),
        color_4bit(7, false) == (Rgb { r: 229, g: 229, b: 229 }),
        color_4bit(0, true) == (Rgb { r: 102, g: 102, b: 102 }),
        color_4bit(1, true) == (Rgb { r: 241, g: 76, b: 76 }),
        color_4bit(2, true) == (Rgb { r: 35, g: 209, b: 139 }),
        color_4bit(3, true) == (Rgb { r: 245, g: 245, b: 67 }),
        color_4bit(4, true) == (Rgb { r: 59, g: 142, b: 234 }),
        color_4bit(5, true) == (Rgb { r: 214, g: 112, b: 214 }),
        color_4bit(6, true) == (Rgb { r: 41, g: 184, b: 219 }),
        color_4bit(7, true) == (Rgb { r: 255, g: 255, b: 255 }),
        code > 7 ==> color_4bit(code, bright) == (Rgb { r: 220, g: 220, b: 220 }),
{
}

/// The strength of one part of a colour at one of the six levels of the cube.
pub open spec fn level(k: nat) -> nat {
    if k == 0 {
        0
    } else {
        55 + 40 * k
    }
}

/// The palette holds the named colours first, the dark ones and the bright ones, behind
/// them a cube of six levels for each part, red changing slowest, and 24 grays in steps of
/// ten behind that. Beyond it there is one gray.
pub proof fn law_palette(r: nat, g: nat, b: nat, code: u16)
    requires
        r < 6,
        g < 6,
        b < 6,
    ensures
        code < 8 ==> color_8bit(code) == color_4bit(code, false),
        code < 8 ==> color_8bit((8 + code) as u16) == color_4bit(code, true),
        color_8bit((16 + 36 * r + 6 * g + b) as u16).r == level(r),
        color_8bit((16 + 36 * r + 6 * g + b) as u16).g == level(g),
        color_8bit((16 + 36 * r + 6 * g + b) as u16).b == level(b),
        code < 24 ==> color_8bit((232 + code) as u16).r == 8 + 10 * code,
        code < 24 ==> color_8bit((232 + code) as u16).g == 8 + 10 * code,
        code < 24 ==> color_8bit((232 + code) as u16).b == 8 + 10 * code,
        code > 255 ==> color_8bit(code) == (Rgb { r: 220, g: 220, b: 220 }),
{
    let n = (16 + 36 * r + 6 * g + b) as u16;
    let cube = (n - 16) as u16;
    assert(cube == 36 * r + 6 * g + b);
    assert(cube / 36 == r);
    assert(cube % 36 == 6 * g + b);
    assert((cube % 36) / 6 == g);
    assert(cube % 6 == b);
}

/// Codes take effect one after the other. What cannot be read is passed over.
pub proof fn law_codes_follow_each_other(
    style: ReviewTextStyle,
    code: u16,
    rest: Seq<Option<u16>>,
)
    ensures
        styled_by_all(style, Seq::empty()) == style,
        code != 38 && code != 48 ==> styled_by_all(style, seq![Some(code)] + rest)
            == styled_by_all(styled_by(style, code), rest),
        styled_by_all(style, seq![None::<u16>] + rest) == styled_by_all(style, rest),
{
    assert((seq![Some(code)] + rest).skip(1) =~= rest);
    assert((seq![None::<u16>] + rest).skip(1) =~= rest);
}

/// Behind 38, the codes 5 and `n` set the colour to one of the palette, and the codes 2,
/// `r`, `g` and `b` set it to one of these parts; behind 48 they set nothing. Either way
/// reading goes on behind them.
pub proof fn law_color_codes(
    style: ReviewTextStyle,
    n: u16,
    r: u8,
    g: u8,
    b: u8,
    rest: Seq<Option<u16>>,
)
    ensures
        styled_by_all(style, seq![Some(38u16), Some(5u16), Some(n)] + rest) == styled_by_all(
            ReviewTextStyle { foreground: Some(color_8bit(n)), ..style },
            rest,
        ),
        styled_by_all(
            style,
            seq![Some(38u16), Some(2u16), Some(r as u16), Some(g as u16), Some(b as u16)] + rest,
        ) == styled_by_all(ReviewTextStyle { foreground: Some(Rgb { r, g, b }), ..style }, rest),
        styled_by_all(style, seq![Some(48u16), Some(5u16), Some(n)] + rest) == styled_by_all(
            style,
            rest,
        ),
        styled_by_all(
            style,
            seq![Some(48u16), Some(2u16), Some(r as u16), Some(g as u16), Some(b as u16)] + rest,
        ) == styled_by_all(style, rest),
{
    let parts = seq![Some(2u16), Some(r as u16), Some(g as u16), Some(b as u16)];
    let palette = seq![Some(5u16), Some(n)];
    assert((palette + rest).skip(2) =~= rest);
    assert((parts + rest).skip(4) =~= rest);
    assert((seq![Some(38u16), Some(5u16), Some(n)] + rest).skip(1) =~= palette + rest);
    assert((seq![Some(48u16), Some(5u16), Some(n)] + rest).skip(1) =~= palette + rest);
    assert((seq![Some(38u16), Some(2u16), Some(r as u16), Some(g as u16), Some(b as u16)]
        + rest).skip(1) =~= parts + rest);
    assert((seq![Some(48u16), Some(2u16), Some(r as u16), Some(g as u16), Some(b as u16)]
        + rest).skip(1) =~= parts + rest);
    assert(extended_color(palette + rest) == Some((color_8bit(n), 2int)));
    assert(extended_color(parts + rest) == Some((Rgb { r, g, b }, 4int)));
}

/// The codes of a style sequence are the numbers between its semicolons.
pub proof fn law_codes_are_read(codes: Seq<u16>)
    requires
        codes.len() > 0,
    ensures
        sgr_codes(
            join(codes.map_values(|code: u16| decimal(code as nat)), seq![';']).push('m'),
        ) == codes.map_values(|code: u16| Some(code)),
{
    let parts = codes.map_values(|code: u16| decimal(code as nat));
    let body = join(parts, seq![';']);
    let sequence = body.push('m');
    let sep = equals(';');
    assert forall|i: int| 0 <= i < parts.len() implies free_of(#[trigger] parts[i], sep)
        && sgr_code(parts[i]) == Some(codes[i]) by {
        lemma_decimal_digits(codes[i] as nat);
        law_parse_reads_decimal(codes[i] as nat, 0xffff);
        assert forall|k: int| 0 <= k < parts[i].len() implies !sep(#[trigger] parts[i][k]) by {
            assert(is_digit(parts[i][k]));
        }
    }
    law_split_undoes_join(parts, ';', sep);
    assert(sequence.drop_last() =~= body);
    assert(sgr_body(sequence) == body);
    assert(split(body, ';') == parts);
    assert(sgr_codes(sequence) =~= codes.map_values(|code: u16| Some(code)));
}

/// A style sequence without codes takes every style back, as code 0 does.
pub proof fn law_empty_sequence_takes_back(style: ReviewTextStyle)
    ensures
        styled_by_all(style, sgr_codes(seq!['m'])) == (ReviewTextStyle {
            foreground: None,
            bold: false,
            faint: false,
            italic: false,
            underline: false,
        }),
{
    assert(seq!['m'].drop_last() =~= Seq::<char>::empty());
    lemma_empty_sequence_resets(style, seq!['m']);
}

/// The parts of a colour that are spelled out count by their lowest eight bits.
pub proof fn law_color_parts(style: ReviewTextStyle, r: u16, g: u16, b: u16)
    ensures
        ({
            let codes = seq![Some(38u16), Some(2u16), Some(r), Some(g), Some(b)];
            styled_by_all(style, codes) == (ReviewTextStyle {
                foreground: Some(
                    Rgb { r: (r % 256) as u8, g: (g % 256) as u8, b: (b % 256) as u8 },
                ),
                ..style
            })
        }),
{
    let codes = seq![Some(38u16), Some(2u16), Some(r), Some(g), Some(b)];
    let parts = seq![Some(2u16), Some(r), Some(g), Some(b)];
    assert(codes.skip(1) =~= parts);
    assert(parts.skip(4) =~= Seq::<Option<u16>>::empty());
    reveal_with_fuel(styled_by_all, 2);
}

/// Where no colour is spelled out behind 38 or 48, these two codes change nothing and the
/// codes behind them are read by themselves.
pub proof fn law_unspelled_colors(style: ReviewTextStyle, rest: Seq<Option<u16>>)
    requires
        rest.len() < 2 || rest[0] != Some(5u16) || rest[1] is None,
        rest.len() < 4 || rest[0] != Some(2u16) || rest[1] is None || rest[2] is None || rest[3]
            is None,
    ensures
        styled_by_all(style, seq![Some(38u16)] + rest) == styled_by_all(style, rest),
        styled_by_all(style, seq![Some(48u16)] + rest) == styled_by_all(style, rest),
{
    assert((seq![Some(38u16)] + rest).skip(1) =~= rest);
    assert((seq![Some(48u16)] + rest).skip(1) =~= rest);
}

/// Semicolons part the codes of a style sequence. A part without text is code 0, and a part
/// that is no number up to 65535 is none. The final `m` belongs to no code.
pub proof fn law_parts_of_sequences(a: Seq<char>, b: Seq<char>)
    ensures
        sgr_codes(a + seq![';'] + b.push('m')) == sgr_codes(a.push('m')) + sgr_codes(b.push('m')),
        !a.contains(';') && a.len() == 0 ==> sgr_codes(a.push('m')) == seq![Some(0u16)],
        !a.contains(';') && a.len() > 0 ==> sgr_codes(a.push('m')) == seq![
            match parse(a, 65535) {
                Some(n) => Some(n as u16),
                None => None,
            },
        ],
        a.len() == 0 || a.last() != 'm' ==> sgr_codes(a) == sgr_codes(a.push('m')),
{
    let whole = a + seq![';'] + b.push('m');
    assert(whole.drop_last() =~= a + seq![';'] + b);
    assert(whole.last() == 'm');
    assert(a.push('m').drop_last() =~= a);
    assert(b.push('m').drop_last() =~= b);
    law_splitting(a, ';', b);
    assert(sgr_codes(whole) =~= sgr_codes(a.push('m')) + sgr_codes(b.push('m')));
    if !a.contains(';') {
        assert(sgr_codes(a.push('m')) =~= seq![sgr_code(a)]);
    }
}

} // verus!
