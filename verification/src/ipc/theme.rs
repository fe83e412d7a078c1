//! Colors on the wire.
use crate::ipc::errors::HandlerError;
use crate::osc::{Colors, OscColorSnapshot};
use crate::text;
use vstd::prelude::*;

verus! {

/// A color as `#rrggbb`.
pub open spec fn hex_color(c: (u8, u8, u8)) -> Seq<char> {
    "#"@ + text::hex_padded(c.0 as nat, 2) + text::hex_padded(c.1 as nat, 2) + text::hex_padded(
        c.2 as nat,
        2,
    )
}

/// A color as `#rrggbb`.
pub fn rgb_hex(c: (u8, u8, u8)) -> (out: String)
    ensures
        out@ == hex_color(c),
{
    text::join4(
        "#",
        text::hex_padded_u64(c.0 as u64, 2).as_str(),
        text::hex_padded_u64(c.1 as u64, 2).as_str(),
        text::hex_padded_u64(c.2 as u64, 2).as_str(),
    )
}

/// The value of a hexadecimal digit, in either case.
pub open spec fn nibble(c: char) -> Option<nat> {
    if '0' <= c && c <= '9' {
        Some((c as u32 - '0' as u32) as nat)
    } else if 'a' <= c && c <= 'f' {
        Some((c as u32 - 'a' as u32 + 10) as nat)
    } else if 'A' <= c && c <= 'F' {
        Some((c as u32 - 'A' as u32 + 10) as nat)
    } else {
        None
    }
}

fn nibble_of(c: char) -> (out: Option<u8>)
    ensures
        out is Some <==> nibble(c) is Some,
        out matches Some(v) ==> v == nibble(c)->0 && v < 16,
{
    if '0' <= c && c <= '9' {
        Some((c as u32 - '0' as u32) as u8)
    } else if 'a' <= c && c <= 'f' {
        Some((c as u32 - 'a' as u32 + 10) as u8)
    } else if 'A' <= c && c <= 'F' {
        Some((c as u32 - 'A' as u32 + 10) as u8)
    } else {
        None
    }
}

/// The byte that two digits spell.
pub open spec fn byte_at(text: Seq<char>, at: int) -> u8 {
    (nibble(text[at])->0 * 16 + nibble(text[at + 1])->0) as u8
}

/// Whether a text is a color in the long form.
pub open spec fn is_color(raw: Seq<char>) -> bool {
    raw.len() == 7 && raw[0] == '#' && forall|i: int|
        1 <= i < 7 ==> #[trigger] nibble(raw[i]) is Some
}

/// The color that a text spells, in the long form alone.
pub open spec fn color_in(raw: Seq<char>) -> Option<(u8, u8, u8)> {
    if is_color(raw) {
        Some((byte_at(raw, 1), byte_at(raw, 3), byte_at(raw, 5)))
    } else {
        None
    }
}

fn pair_at(chars: &Vec<char>, at: usize) -> (out: Option<u8>)
    requires
        chars@.len() == 7,
        at < 6,
    ensures
        out is Some <==> nibble(chars@[at as int]) is Some && nibble(chars@[at + 1]) is Some,
        out matches Some(b) ==> b == byte_at(chars@, at as int),
{
    match (nibble_of(chars[at]), nibble_of(chars[at + 1])) {
        (Some(high), Some(low)) => Some(high * 16 + low),
        _ => None,
    }
}

/// The color that a text spells.
pub fn parse_rgb_hex(raw: &str) -> (out: Option<(u8, u8, u8)>)
    ensures
        out == color_in(raw@),
{
    let chars = text::chars_of(raw);
    if chars.len() != 7 || chars[0] != '#' {
        return None;
    }
    match (pair_at(&chars, 1), pair_at(&chars, 3), pair_at(&chars, 5)) {
        (Some(r), Some(g), Some(b)) => {
            assert forall|i: int| 1 <= i < 7 implies #[trigger] nibble(raw@[i]) is Some by {
                assert(i == 1 || i == 2 || i == 3 || i == 4 || i == 5 || i == 6);
            }
            Some((r, g, b))
        },
        _ => {
            proof {
                if is_color(raw@) {
                    assert(nibble(raw@[1]) is Some && nibble(raw@[2]) is Some);
                    assert(nibble(raw@[3]) is Some && nibble(raw@[4]) is Some);
                    assert(nibble(raw@[5]) is Some && nibble(raw@[6]) is Some);
                }
            }
            None
        },
    }
}

proof fn lemma_hex_pair(n: u8)
    ensures
        text::hex_padded(n as nat, 2) == seq![
            text::hex_digit((n / 16) as nat),
            text::hex_digit((n % 16) as nat),
        ],
        nibble(text::hex_digit((n / 16) as nat)) == Some((n / 16) as nat),
        nibble(text::hex_digit((n % 16) as nat)) == Some((n % 16) as nat),
{
    reveal_with_fuel(text::hex_padded, 3);
    assert(text::hex_padded(n as nat, 2) =~= seq![
        text::hex_digit((n / 16) as nat),
        text::hex_digit((n % 16) as nat),
    ]);
}

/// A color that was written is read back as itself.
pub proof fn law_a_color_reads_back(c: (u8, u8, u8))
    ensures
        color_in(hex_color(c)) == Some(c),
{
    reveal_strlit("#");
    lemma_hex_pair(c.0);
    lemma_hex_pair(c.1);
    lemma_hex_pair(c.2);
    let raw = hex_color(c);
    assert(raw.len() == 7);
    assert(raw[1] == text::hex_digit((c.0 / 16) as nat));
    assert(raw[2] == text::hex_digit((c.0 % 16) as nat));
    assert(raw[3] == text::hex_digit((c.1 / 16) as nat));
    assert(raw[4] == text::hex_digit((c.1 % 16) as nat));
    assert(raw[5] == text::hex_digit((c.2 / 16) as nat));
    assert(raw[6] == text::hex_digit((c.2 % 16) as nat));
    assert forall|i: int| 1 <= i < 7 implies #[trigger] nibble(raw[i]) is Some by {
        assert(i == 1 || i == 2 || i == 3 || i == 4 || i == 5 || i == 6);
    }
}

/// A theme on the wire.
#[derive(Debug, PartialEq, Eq)]
pub struct OscColorsParams {
    pub foreground: String,
    pub background: String,
    pub cursor: String,
    pub palette: Vec<String>,
}

/// The words for a text that is no color.
pub open spec fn no_color(field: Seq<char>, raw: Seq<char>) -> Seq<char> {
    field + " is not a #rrggbb color (got "@ + text::debug_text(raw) + ")"@
}

fn invalid_color(field: &str, raw: &str) -> (out: HandlerError)
    ensures
        out.says("invalid-param"@, no_color(field@, raw@)),
{
    HandlerError::invalid_param(
        text::join4(field, " is not a #rrggbb color (got ", text::quoted(raw).as_str(), ")"),
    )
}

/// The name of a place in the palette.
pub open spec fn palette_field(index: int) -> Seq<char> {
    "osc_colors.palette["@ + text::decimal(index as nat) + "]"@
}

/// The first entry of a palette that is no color, or its length.
pub open spec fn first_bad(palette: Seq<String>) -> int
    decreases palette.len(),
{
    if palette.len() == 0 {
        0
    } else {
        let before = first_bad(palette.drop_last());
        if before < palette.len() - 1 || color_in(palette.last()@) is None {
            before
        } else {
            before + 1
        }
    }
}

/// What is wrong with a theme, the first thing first; or nothing.
pub open spec fn theme_fault(p: OscColorsParams) -> Option<Seq<char>> {
    let bad = first_bad(p.palette@);
    if p.palette@.len() != 256 {
        Some(
            "osc_colors.palette must have exactly 256 entries (got "@ + text::decimal(
                p.palette@.len(),
            ) + ")"@,
        )
    } else if bad < 256 {
        Some(no_color(palette_field(bad), p.palette@[bad]@))
    } else if color_in(p.foreground@) is None {
        Some(no_color("osc_colors.foreground"@, p.foreground@))
    } else if color_in(p.background@) is None {
        Some(no_color("osc_colors.background"@, p.background@))
    } else if color_in(p.cursor@) is None {
        Some(no_color("osc_colors.cursor"@, p.cursor@))
    } else {
        None
    }
}

proof fn lemma_first_bad(palette: Seq<String>, n: int)
    requires
        0 <= n <= palette.len(),
    ensures
        0 <= first_bad(palette) <= palette.len(),
        first_bad(palette.take(n)) < n ==> first_bad(palette) == first_bad(palette.take(n)),
    decreases palette.len(),
{
    if n == palette.len() {
        assert(palette.take(n) =~= palette);
        if palette.len() > 0 {
            lemma_first_bad(palette.drop_last(), n - 1);
        }
    } else {
        let init = palette.drop_last();
        assert(init.take(n) =~= palette.take(n));
        lemma_first_bad(init, n);
    }
}

fn decode_palette(raw: &Vec<String>) -> (out: Result<[(u8, u8, u8); 256], usize>)
    requires
        raw@.len() == 256,
    ensures
        out is Ok <==> first_bad(raw@) == 256,
        out matches Err(at) ==> at == first_bad(raw@) && at < 256,
        out matches Ok(palette) ==> forall|i: int|
            0 <= i < 256 ==> Some(#[trigger] palette@[i]) == color_in(raw@[i]@),
{
    let mut palette: [(u8, u8, u8); 256] = [(0u8, 0u8, 0u8); 256];
    let mut i: usize = 0;
    assert(raw@.take(0) =~= seq![]);
    while i < 256
        invariant
            i <= 256,
            raw@.len() == 256,
            palette@.len() == 256,
            first_bad(raw@.take(i as int)) == i,
            forall|k: int| 0 <= k < i ==> Some(#[trigger] palette@[k]) == color_in(raw@[k]@),
        decreases 256 - i,
    {
        proof {
            assert(raw@.take(i + 1).drop_last() =~= raw@.take(i as int));
            assert(raw@.take(i + 1).last() == raw@[i as int]);
            lemma_first_bad(raw@, i + 1);
        }
        match parse_rgb_hex(raw[i].as_str()) {
            Some(color) => {
                palette[i] = color;
            },
            None => {
                return Err(i);
            },
        }
        i = i + 1;
    }
    assert(raw@.take(256) =~= raw@);
    Ok(palette)
}

/// Whether colors are those that a theme spells, each its own.
pub open spec fn spells(p: OscColorsParams, colors: Colors) -> bool {
    &&& Some(colors.foreground) == color_in(p.foreground@)
    &&& Some(colors.background) == color_in(p.background@)
    &&& Some(colors.cursor) == color_in(p.cursor@)
    &&& forall|i: int|
        0 <= i < 256 ==> Some(#[trigger] colors.palette[i]) == color_in(p.palette@[i]@)
}

/// A theme as the terminals take it. One wrong color refuses the whole of it, by name.
pub fn decode_osc_colors(p: &OscColorsParams) -> (out: Result<OscColorSnapshot, HandlerError>)
    ensures
        out matches Ok(colors) ==> spells(*p, colors@),
        match theme_fault(*p) {
            Some(words) => out matches Err(e) && e.says("invalid-param"@, words),
            None => {
                &&& out is Ok
                &&& Some(out->Ok_0@.foreground) == color_in(p.foreground@)
                &&& Some(out->Ok_0@.background) == color_in(p.background@)
                &&& Some(out->Ok_0@.cursor) == color_in(p.cursor@)
                &&& forall|i: int|
                    0 <= i < 256 ==> Some(#[trigger] out->Ok_0@.palette[i]) == color_in(
                        p.palette@[i]@,
                    )
            },
        },
{
    if p.palette.len() != 256 {
        return Err(
            HandlerError::invalid_param(
                text::join3(
                    "osc_colors.palette must have exactly 256 entries (got ",
                    text::decimal_u64(p.palette.len() as u64).as_str(),
                    ")",
                ),
            ),
        );
    }
    let palette = match decode_palette(&p.palette) {
        Ok(palette) => palette,
        Err(at) => {
            let field = text::join3(
                "osc_colors.palette[",
                text::decimal_u64(at as u64).as_str(),
                "]",
            );
            return Err(invalid_color(field.as_str(), p.palette[at].as_str()));
        },
    };
    let foreground = match parse_rgb_hex(p.foreground.as_str()) {
        Some(color) => color,
        None => {
            return Err(invalid_color("osc_colors.foreground", p.foreground.as_str()));
        },
    };
    let background = match parse_rgb_hex(p.background.as_str()) {
        Some(color) => color,
        None => {
            return Err(invalid_color("osc_colors.background", p.background.as_str()));
        },
    };
    let cursor = match parse_rgb_hex(p.cursor.as_str()) {
        Some(color) => color,
        None => {
            return Err(invalid_color("osc_colors.cursor", p.cursor.as_str()));
        },
    };
    Ok(OscColorSnapshot::new(foreground, background, cursor, palette))
}

/// What a hexadecimal digit is worth, in either case; nothing else is one.
pub proof fn law_a_digit_is_worth_its_place(c: char)
    ensures
        '0' <= c <= '9' ==> nibble(c) == Some((c as nat - 48) as nat),
        'a' <= c <= 'f' ==> nibble(c) == Some((c as nat - 87) as nat),
        'A' <= c <= 'F' ==> nibble(c) == Some((c as nat - 55) as nat),
        !('0' <= c <= '9') && !('a' <= c <= 'f') && !('A' <= c <= 'F') ==> nibble(c) is None,
{
}

/// A color is a number sign and six hexadecimal digits, two for each part: red, green, blue.
pub proof fn law_a_color_is_three_pairs(raw: Seq<char>, r: u8, g: u8, b: u8)
    ensures
        color_in(raw) is Some <==> raw.len() == 7 && raw[0] == '#' && nibble(raw[1]) is Some
            && nibble(raw[2]) is Some && nibble(raw[3]) is Some && nibble(raw[4]) is Some && nibble(
            raw[5],
        ) is Some && nibble(raw[6]) is Some,
        color_in(raw) == Some((r, g, b)) ==> r == 16 * nibble(raw[1])->0 + nibble(raw[2])->0 && g
            == 16 * nibble(raw[3])->0 + nibble(raw[4])->0 && b == 16 * nibble(raw[5])->0 + nibble(
            raw[6],
        )->0,
{
    if is_color(raw) {
        assert(nibble(raw[1]) is Some);
        assert(nibble(raw[2]) is Some);
        assert(nibble(raw[3]) is Some);
        assert(nibble(raw[4]) is Some);
        assert(nibble(raw[5]) is Some);
        assert(nibble(raw[6]) is Some);
    } else if raw.len() == 7 && raw[0] == '#' {
        let i = choose|i: int| 1 <= i < 7 && !(#[trigger] nibble(raw[i]) is Some);
        assert(nibble(raw[i]) is None);
    }
}

/// The first bad entry is the first that is no color; where there is none, it is past the end.
pub proof fn law_the_first_bad_entry_is_told(palette: Seq<String>, k: int)
    ensures
        0 <= first_bad(palette) <= palette.len(),
        0 <= k < first_bad(palette) ==> color_in(palette[k]@) is Some,
        first_bad(palette) < palette.len() ==> color_in(palette[first_bad(palette)]@) is None,
    decreases palette.len(),
{
    lemma_first_bad(palette, palette.len() as int);
    if palette.len() > 0 {
        let init = palette.drop_last();
        law_the_first_bad_entry_is_told(init, k);
        let bad = first_bad(init);
        if bad < init.len() {
            assert(init[bad] == palette[bad]);
        }
        if 0 <= k < init.len() {
            assert(init[k] == palette[k]);
        }
    }
}

/// What is wrong with a theme: the number of its entries first, then its first bad entry, then
/// its foreground, its background and its cursor; a theme without a fault has every color.
pub proof fn law_a_theme_is_refused_for_its_first_fault(p: OscColorsParams)
    ensures
        ({
            let whole = p.palette@.len() == 256;
            let bad = first_bad(p.palette@);
            let good = whole && bad == 256;
            &&& theme_fault(p) is None <==> good && color_in(p.foreground@) is Some && color_in(
                p.background@,
            ) is Some && color_in(p.cursor@) is Some
            &&& !whole ==> theme_fault(p) == Some(
                "osc_colors.palette must have exactly 256 entries (got "@ + text::decimal(
                    p.palette@.len(),
                ) + ")"@,
            )
            &&& whole && bad < 256 ==> theme_fault(p) == Some(
                "osc_colors.palette["@ + text::decimal(bad as nat) + "]"@
                    + " is not a #rrggbb color (got "@ + text::debug_text(p.palette@[bad]@) + ")"@,
            )
            &&& good && color_in(p.foreground@) is None ==> theme_fault(p) == Some(
                "osc_colors.foreground"@ + " is not a #rrggbb color (got "@ + text::debug_text(
                    p.foreground@,
                ) + ")"@,
            )
            &&& good && color_in(p.foreground@) is Some && color_in(p.background@) is None
                ==> theme_fault(p) == Some(
                "osc_colors.background"@ + " is not a #rrggbb color (got "@ + text::debug_text(
                    p.background@,
                ) + ")"@,
            )
            &&& good && color_in(p.foreground@) is Some && color_in(p.background@) is Some
                && color_in(p.cursor@) is None ==> theme_fault(p) == Some(
                "osc_colors.cursor"@ + " is not a #rrggbb color (got "@ + text::debug_text(
                    p.cursor@,
                ) + ")"@,
            )
        }),
{
    law_the_first_bad_entry_is_told(p.palette@, 0);
}

/// A theme shows the colors it spells: its foreground, its background and its cursor each as
/// written, and each entry of its palette at its own place.
pub proof fn law_a_theme_shows_what_it_spells(p: OscColorsParams, colors: Colors, i: int)
    requires
        spells(p, colors),
        0 <= i < 256,
    ensures
        color_in(p.foreground@) == Some(colors.foreground),
        color_in(p.background@) == Some(colors.background),
        color_in(p.cursor@) == Some(colors.cursor),
        color_in(p.palette@[i]@) == Some(colors.palette[i]),
{
}

} // verus!
