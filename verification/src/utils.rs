use vstd::prelude::*;
use vstd::string::StrSliceExecFns;
use vstd::string::StringExecFns;

use crate::color::Rgba8;
use crate::color::ALPHA_OPAQUE;

verus! {

// ---------------------------------------------------------------------------
// Hex digits
// ---------------------------------------------------------------------------

/// The value of a hex digit, or -1 for any other character.
pub open spec fn hex_digit_value(c: char) -> int {
    if 48 <= c as u32 <= 57 {
        c as u32 - 48
    } else if 65 <= c as u32 <= 70 {
        c as u32 - 55
    } else if 97 <= c as u32 <= 102 {
        c as u32 - 87
    } else {
        -1
    }
}

/// Whether a character is an ASCII hex digit, upper or lower case.
pub open spec fn is_hex_digit(c: char) -> bool {
    hex_digit_value(c) >= 0
}

/// Whether every character of a string is a hex digit.
pub open spec fn all_hex_digits(s: Seq<char>) -> bool {
    forall|i: int| 0 <= i < s.len() ==> is_hex_digit(#[trigger] s[i])
}

fn hex_digit(c: char) -> (v: Option<u8>)
    ensures
        v is Some <==> is_hex_digit(c),
        v is Some ==> v->0 == hex_digit_value(c),
{
    let u = c as u32;
    if 48 <= u && u <= 57 {
        Some((u - 48) as u8)
    } else if 65 <= u && u <= 70 {
        Some((u - 55) as u8)
    } else if 97 <= u && u <= 102 {
        Some((u - 87) as u8)
    } else {
        None
    }
}

// ---------------------------------------------------------------------------
// Hex ARGB parsing
// ---------------------------------------------------------------------------

/// The hex digit string with an optional leading `#` removed.
pub open spec fn strip_hash(s: Seq<char>) -> Seq<char> {
    if s.len() > 0 && s[0] == '#' {
        s.drop_first()
    } else {
        s
    }
}

/// The channel byte a single hex digit expands to: the nibble duplicated,
/// so digit `d` becomes `d * 16 + d`.
pub open spec fn nibble_expanded(c: char) -> int {
    17 * hex_digit_value(c)
}

/// The byte written by the two hex digits at positions `i` and `i + 1`.
pub open spec fn byte_at(s: Seq<char>, i: int) -> int {
    16 * hex_digit_value(s[i]) + hex_digit_value(s[i + 1])
}

/// What parsing a hex ARGB string yields: after an optional `#`, exactly
/// 3 (`RGB`), 4 (`ARGB`), 6 (`RRGGBB`) or 8 (`AARRGGBB`) hex digits, with
/// single digits expanded by duplicating the nibble and alpha opaque where
/// it is not written. Any other length, or any character that is not a hex
/// digit, yields nothing.
pub open spec fn parse_argb_spec(s: Seq<char>) -> Option<Rgba8> {
    let h = strip_hash(s);
    if !all_hex_digits(h) {
        None
    } else if h.len() == 3 {
        Some(
            Rgba8 {
                r: nibble_expanded(h[0]) as u8,
                g: nibble_expanded(h[1]) as u8,
                b: nibble_expanded(h[2]) as u8,
                a: ALPHA_OPAQUE,
            },
        )
    } else if h.len() == 4 {
        Some(
            Rgba8 {
                r: nibble_expanded(h[1]) as u8,
                g: nibble_expanded(h[2]) as u8,
                b: nibble_expanded(h[3]) as u8,
                a: nibble_expanded(h[0]) as u8,
            },
        )
    } else if h.len() == 6 {
        Some(
            Rgba8 {
                r: byte_at(h, 0) as u8,
                g: byte_at(h, 2) as u8,
                b: byte_at(h, 4) as u8,
                a: ALPHA_OPAQUE,
            },
        )
    } else if h.len() == 8 {
        Some(
            Rgba8 {
                r: byte_at(h, 2) as u8,
                g: byte_at(h, 4) as u8,
                b: byte_at(h, 6) as u8,
                a: byte_at(h, 0) as u8,
            },
        )
    } else {
        None
    }
}

/// A single hex digit of `s` at `i`, expanded to a full channel byte.
fn read_nibble(s: &str, i: usize) -> (v: Option<u8>)
    requires
        i < s@.len(),
    ensures
        v is Some <==> is_hex_digit(s@[i as int]),
        v is Some ==> v->0 == nibble_expanded(s@[i as int]),
{
    match hex_digit(s.get_char(i)) {
        Some(d) => Some(17 * d),
        None => None,
    }
}

/// The channel byte written by the two hex digits of `s` at `i` and `i + 1`.
fn read_byte(s: &str, i: usize) -> (v: Option<u8>)
    requires
        i + 1 < s@.len() <= usize::MAX,
    ensures
        v is Some <==> is_hex_digit(s@[i as int]) && is_hex_digit(s@[i + 1]),
        v is Some ==> v->0 == byte_at(s@, i as int),
{
    match (hex_digit(s.get_char(i)), hex_digit(s.get_char(i + 1))) {
        (Some(hi), Some(lo)) => Some(16 * hi + lo),
        _ => None,
    }
}

/// Parses a hex ARGB string such as `#1b5129`, `#fff` or `#4d000000`.
///
/// A leading `#` is optional. Three or four digits write one nibble per
/// channel, six or eight digits two; the four- and eight-digit forms put
/// the alpha channel first, the others leave it opaque. Anything else is
/// rejected by returning no value.
pub fn parse_argb(s: &str) -> (c: Option<Rgba8>)
    ensures
        c == parse_argb_spec(s@),
{
    let n = s.unicode_len();
    let off: usize = if n > 0 && s.get_char(0) == '#' {
        1
    } else {
        0
    };
    let ghost h = strip_hash(s@);
    proof {
        assert(h =~= s@.subrange(off as int, n as int));
    }
    let len = n - off;
    if len == 3 {
        match (read_nibble(s, off), read_nibble(s, off + 1), read_nibble(s, off + 2)) {
            (Some(r), Some(g), Some(b)) => {
                proof {
                    assert(all_hex_digits(h)) by {
                        assert(forall|i: int| 0 <= i < h.len() ==> h[i] == s@[i + off]);
                    }
                }
                Some(Rgba8 { r, g, b, a: ALPHA_OPAQUE })
            },
            _ => None,
        }
    } else if len == 4 {
        match (
            read_nibble(s, off),
            read_nibble(s, off + 1),
            read_nibble(s, off + 2),
            read_nibble(s, off + 3),
        ) {
            (Some(a), Some(r), Some(g), Some(b)) => {
                proof {
                    assert(all_hex_digits(h)) by {
                        assert(forall|i: int| 0 <= i < h.len() ==> h[i] == s@[i + off]);
                    }
                }
                Some(Rgba8 { r, g, b, a })
            },
            _ => None,
        }
    } else if len == 6 {
        match (read_byte(s, off), read_byte(s, off + 2), read_byte(s, off + 4)) {
            (Some(r), Some(g), Some(b)) => {
                proof {
                    assert(all_hex_digits(h)) by {
                        assert(forall|i: int| 0 <= i < h.len() ==> h[i] == s@[i + off]);
                    }
                }
                Some(Rgba8 { r, g, b, a: ALPHA_OPAQUE })
            },
            _ => None,
        }
    } else if len == 8 {
        match (read_byte(s, off), read_byte(s, off + 2), read_byte(s, off + 4), read_byte(s, off + 6)) {
            (Some(a), Some(r), Some(g), Some(b)) => {
                proof {
                    assert(all_hex_digits(h)) by {
                        assert(forall|i: int| 0 <= i < h.len() ==> h[i] == s@[i + off]);
                    }
                }
                Some(Rgba8 { r, g, b, a })
            },
            _ => None,
        }
    } else {
        None
    }
}

// ---------------------------------------------------------------------------
// Hex ARGB serialization
// ---------------------------------------------------------------------------

/// The uppercase hex digit for a value below sixteen.
pub open spec fn hex_char(v: int) -> char {
    if v == 0 {
        '0'
    } else if v == 1 {
        '1'
    } else if v == 2 {
        '2'
    } else if v == 3 {
        '3'
    } else if v == 4 {
        '4'
    } else if v == 5 {
        '5'
    } else if v == 6 {
        '6'
    } else if v == 7 {
        '7'
    } else if v == 8 {
        '8'
    } else if v == 9 {
        '9'
    } else if v == 10 {
        'A'
    } else if v == 11 {
        'B'
    } else if v == 12 {
        'C'
    } else if v == 13 {
        'D'
    } else if v == 14 {
        'E'
    } else {
        'F'
    }
}

/// A byte as two uppercase hex digits, zero-padded.
pub open spec fn byte_chars(b: int) -> Seq<char> {
    seq![hex_char(b / 16), hex_char(b % 16)]
}

/// What serializing a color yields: `#RRGGBB` when the color is fully
/// opaque, `#AARRGGBB` with the alpha byte first otherwise, always in
/// uppercase hex. The short nibble forms are never produced.
pub open spec fn argb_string(c: Rgba8) -> Seq<char> {
    if c.is_opaque() {
        seq!['#'] + byte_chars(c.r as int) + byte_chars(c.g as int) + byte_chars(c.b as int)
    } else {
        seq!['#'] + byte_chars(c.a as int) + byte_chars(c.r as int) + byte_chars(c.g as int)
            + byte_chars(c.b as int)
    }
}

fn hex_char_str(v: u8) -> (r: &'static str)
    requires
        v < 16,
    ensures
        r@ =~= seq![hex_char(v as int)],
{
    proof {
        reveal_strlit("0");
        reveal_strlit("1");
        reveal_strlit("2");
        reveal_strlit("3");
        reveal_strlit("4");
        reveal_strlit("5");
        reveal_strlit("6");
        reveal_strlit("7");
        reveal_strlit("8");
        reveal_strlit("9");
        reveal_strlit("A");
        reveal_strlit("B");
        reveal_strlit("C");
        reveal_strlit("D");
        reveal_strlit("E");
        reveal_strlit("F");
    }
    if v == 0 {
        "0"
    } else if v == 1 {
        "1"
    } else if v == 2 {
        "2"
    } else if v == 3 {
        "3"
    } else if v == 4 {
        "4"
    } else if v == 5 {
        "5"
    } else if v == 6 {
        "6"
    } else if v == 7 {
        "7"
    } else if v == 8 {
        "8"
    } else if v == 9 {
        "9"
    } else if v == 10 {
        "A"
    } else if v == 11 {
        "B"
    } else if v == 12 {
        "C"
    } else if v == 13 {
        "D"
    } else if v == 14 {
        "E"
    } else {
        "F"
    }
}

fn push_byte_hex(out: &mut String, b: u8)
    ensures
        final(out)@ =~= old(out)@ + byte_chars(b as int),
{
    out.append(hex_char_str(b / 16));
    out.append(hex_char_str(b % 16));
}

/// Serializes a color as a hex ARGB string: `#RRGGBB` for an opaque
/// color, `#AARRGGBB` otherwise, always uppercase and zero-padded.
pub fn color_to_argb(color: Rgba8) -> (s: String)
    ensures
        s@ == argb_string(color),
{
    let mut hex = String::new();
    proof {
        reveal_strlit("#");
    }
    hex.append("#");
    if color.a < ALPHA_OPAQUE {
        push_byte_hex(&mut hex, color.a);
    }
    push_byte_hex(&mut hex, color.r);
    push_byte_hex(&mut hex, color.g);
    push_byte_hex(&mut hex, color.b);
    proof {
        assert(seq!['#'] =~= "#"@);
        assert(hex@ =~= argb_string(color));
    }
    hex
}

// ---------------------------------------------------------------------------
// Round trip
// ---------------------------------------------------------------------------

proof fn lemma_hex_char_value(v: int)
    requires
        0 <= v < 16,
    ensures
        is_hex_digit(hex_char(v)),
        hex_digit_value(hex_char(v)) == v,
{
}

proof fn lemma_byte_chars_value(b: int)
    requires
        0 <= b < 256,
    ensures
        is_hex_digit(byte_chars(b)[0]),
        is_hex_digit(byte_chars(b)[1]),
        16 * hex_digit_value(byte_chars(b)[0]) + hex_digit_value(byte_chars(b)[1]) == b,
{
    lemma_hex_char_value(b / 16);
    lemma_hex_char_value(b % 16);
}

/// Serialization always yields a `#`-led string of 7 characters for an
/// opaque color and 9 otherwise.
pub proof fn lemma_argb_string_shape(c: Rgba8)
    ensures
        argb_string(c)[0] == '#',
        c.is_opaque() ==> argb_string(c).len() == 7,
        !c.is_opaque() ==> argb_string(c).len() == 9,
{
}

/// Serializing a color and parsing the produced string gives the color
/// back exactly: the serializer's output is always accepted, and no
/// channel drifts, since both sides work on the same eight-bit encoding.
pub proof fn lemma_argb_round_trip(c: Rgba8)
    ensures
        parse_argb_spec(argb_string(c)) == Some(c),
{
    let s = argb_string(c);
    let h = strip_hash(s);
    lemma_byte_chars_value(c.r as int);
    lemma_byte_chars_value(c.g as int);
    lemma_byte_chars_value(c.b as int);
    if c.is_opaque() {
        assert(h =~= seq![
            hex_char(c.r as int / 16),
            hex_char(c.r as int % 16),
            hex_char(c.g as int / 16),
            hex_char(c.g as int % 16),
            hex_char(c.b as int / 16),
            hex_char(c.b as int % 16),
        ]);
        assert(all_hex_digits(h));
        assert(byte_at(h, 0) == c.r);
        assert(byte_at(h, 2) == c.g);
        assert(byte_at(h, 4) == c.b);
    } else {
        lemma_byte_chars_value(c.a as int);
        assert(h =~= seq![
            hex_char(c.a as int / 16),
            hex_char(c.a as int % 16),
            hex_char(c.r as int / 16),
            hex_char(c.r as int % 16),
            hex_char(c.g as int / 16),
            hex_char(c.g as int % 16),
            hex_char(c.b as int / 16),
            hex_char(c.b as int % 16),
        ]);
        assert(all_hex_digits(h));
        assert(byte_at(h, 0) == c.a);
        assert(byte_at(h, 2) == c.r);
        assert(byte_at(h, 4) == c.g);
        assert(byte_at(h, 6) == c.b);
    }
}

// ---------------------------------------------------------------------------
// Derived scalar helpers
// ---------------------------------------------------------------------------

/// The alpha channel of reduced-emphasis text in a disabled state:
/// an opacity of 0.38, in eight-bit form.
pub const DISABLED_TEXT_ALPHA: u8 = 97;

/// The alpha channel of a disabled surface or container fill:
/// an opacity of 0.12, in eight-bit form.
pub const DISABLED_CONTAINER_ALPHA: u8 = 31;

/// The weighted luma of a color, scaled by a factor of 255 000: the
/// classic approximation `0.299 r + 0.587 g + 0.114 b` with per-mille
/// weights over eight-bit channels, so the result ranges from 0 for
/// black to 255 000 for white.
///
/// The luma is read off the encoded channels as they stand, without
/// linearization, while blending happens in linear space; the lightness
/// of a blend is therefore not the blend of the lightnesses, and nothing
/// here may assume it is.
pub open spec fn lightness_spec(c: Rgba8) -> int {
    299 * c.r + 587 * c.g + 114 * c.b
}

/// A palette counts as dark when its lightness does not exceed one half,
/// which on the scale of [`lightness_spec`] is 127 500.
pub open spec fn is_dark_spec(c: Rgba8) -> bool {
    lightness_spec(c) <= 127500
}

/// The weighted luma of a color on a 0 to 255 000 scale; see
/// [`lightness_spec`].
pub fn lightness(color: Rgba8) -> (l: u32)
    ensures
        l == lightness_spec(color),
{
    299 * (color.r as u32) + 587 * (color.g as u32) + 114 * (color.b as u32)
}

/// Whether a palette with this surface color counts as dark: its
/// lightness is at most one half.
pub fn is_dark(color: Rgba8) -> (dark: bool)
    ensures
        dark == is_dark_spec(color),
{
    lightness(color) <= 127500
}

/// The same color with its alpha forced to the disabled-text opacity.
pub fn disabled_text(color: Rgba8) -> (c: Rgba8)
    ensures
        c == (Rgba8 { a: DISABLED_TEXT_ALPHA, ..color }),
{
    Rgba8 { a: DISABLED_TEXT_ALPHA, ..color }
}

/// The same color with its alpha forced to the disabled-container
/// opacity.
pub fn disabled_container(color: Rgba8) -> (c: Rgba8)
    ensures
        c == (Rgba8 { a: DISABLED_CONTAINER_ALPHA, ..color }),
{
    Rgba8 { a: DISABLED_CONTAINER_ALPHA, ..color }
}

/// The standardized distance, in whole dp, that each elevation level
/// lifts a surface: the fixed table 0, 1, 3, 6, 8, 12, with every level
/// past the table's end clamped to its last entry.
pub open spec fn elevation_spec(level: u8) -> u8 {
    if level == 0 {
        0u8
    } else if level == 1 {
        1u8
    } else if level == 2 {
        3u8
    } else if level == 3 {
        6u8
    } else if level == 4 {
        8u8
    } else {
        12u8
    }
}

/// The dp offset of an elevation level; see [`elevation_spec`].
pub fn elevation(elevation_level: u8) -> (dp: u8)
    ensures
        dp == elevation_spec(elevation_level),
{
    match elevation_level {
        0 => 0,
        1 => 1,
        2 => 3,
        3 => 6,
        4 => 8,
        _ => 12,
    }
}

/// Levels past the end of the elevation table are clamped, not
/// extrapolated: every level of five or more lifts exactly as far as
/// level five does.
pub proof fn lemma_elevation_clamped(level: u8)
    requires
        level >= 5,
    ensures
        elevation_spec(level) == elevation_spec(5),
{
}

} // verus!
