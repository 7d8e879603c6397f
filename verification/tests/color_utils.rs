use material_theme::utils::color_to_argb;
use material_theme::utils::disabled_container;
use material_theme::utils::disabled_text;
use material_theme::utils::elevation;
use material_theme::utils::is_dark;
use material_theme::utils::lightness;
use material_theme::utils::parse_argb;
use material_theme::utils::DISABLED_CONTAINER_ALPHA;
use material_theme::utils::DISABLED_TEXT_ALPHA;
use material_theme::Rgba8;

#[test]
fn parse_short_rgb_is_opaque_white() {
    assert_eq!(
        parse_argb("#fff"),
        Some(Rgba8 { r: 255, g: 255, b: 255, a: 255 })
    );
}

#[test]
fn parse_short_argb_expands_nibbles() {
    assert_eq!(
        parse_argb("#8421"),
        Some(Rgba8 { r: 0x44, g: 0x22, b: 0x11, a: 0x88 })
    );
}

#[test]
fn parse_wrong_length_fails() {
    assert_eq!(parse_argb("#12"), None);
    assert_eq!(parse_argb("#12345"), None);
    assert_eq!(parse_argb("#1234567"), None);
    assert_eq!(parse_argb(""), None);
    assert_eq!(parse_argb("#"), None);
}

#[test]
fn parse_non_hex_fails() {
    assert_eq!(parse_argb("zzz"), None);
    assert_eq!(parse_argb("#ggg"), None);
    assert_eq!(parse_argb("#12x45f"), None);
    assert_eq!(parse_argb("#+1af2c"), None);
}

#[test]
fn parse_hash_is_optional() {
    assert_eq!(
        parse_argb("1b5129"),
        Some(Rgba8 { r: 0x1b, g: 0x51, b: 0x29, a: 255 })
    );
    assert_eq!(parse_argb("fff"), parse_argb("#fff"));
}

#[test]
fn parse_eight_digits_reads_alpha_first() {
    assert_eq!(
        parse_argb("#4d000000"),
        Some(Rgba8 { r: 0, g: 0, b: 0, a: 0x4d })
    );
    assert_eq!(
        parse_argb("#80FF0000"),
        Some(Rgba8 { r: 255, g: 0, b: 0, a: 0x80 })
    );
}

#[test]
fn serialize_opaque_red_omits_alpha() {
    assert_eq!(color_to_argb(Rgba8 { r: 255, g: 0, b: 0, a: 255 }), "#FF0000");
}

#[test]
fn serialize_half_transparent_red_leads_with_alpha() {
    assert_eq!(color_to_argb(Rgba8 { r: 255, g: 0, b: 0, a: 128 }), "#80FF0000");
}

#[test]
fn serialize_pads_and_uppercases() {
    assert_eq!(color_to_argb(Rgba8 { r: 1, g: 2, b: 3, a: 4 }), "#04010203");
    assert_eq!(color_to_argb(Rgba8 { r: 0xab, g: 0xcd, b: 0xef, a: 255 }), "#ABCDEF");
}

#[test]
fn serialize_then_parse_round_trips() {
    let samples = [
        Rgba8 { r: 0, g: 0, b: 0, a: 0 },
        Rgba8 { r: 255, g: 255, b: 255, a: 255 },
        Rgba8 { r: 0x10, g: 0x15, b: 0x10, a: 255 },
        Rgba8 { r: 0x9b, g: 0xd4, b: 0xa1, a: 0x4d },
        Rgba8 { r: 1, g: 2, b: 3, a: 254 },
    ];
    for c in samples {
        assert_eq!(parse_argb(&color_to_argb(c)), Some(c));
    }
}

#[test]
fn lightness_is_the_weighted_luma() {
    assert_eq!(lightness(Rgba8 { r: 0, g: 0, b: 0, a: 255 }), 0);
    assert_eq!(lightness(Rgba8 { r: 255, g: 255, b: 255, a: 255 }), 255_000);
    assert_eq!(lightness(Rgba8 { r: 10, g: 20, b: 30, a: 255 }), 18_150);
}

#[test]
fn is_dark_threshold_sits_at_half() {
    assert!(is_dark(Rgba8 { r: 127, g: 127, b: 127, a: 255 }));
    assert!(!is_dark(Rgba8 { r: 128, g: 128, b: 128, a: 255 }));
}

#[test]
fn disabled_helpers_force_alpha_only() {
    let c = Rgba8 { r: 10, g: 20, b: 30, a: 200 };
    assert_eq!(
        disabled_text(c),
        Rgba8 { a: DISABLED_TEXT_ALPHA, ..c }
    );
    assert_eq!(disabled_text(c).a, 97);
    assert_eq!(
        disabled_container(c),
        Rgba8 { a: DISABLED_CONTAINER_ALPHA, ..c }
    );
    assert_eq!(disabled_container(c).a, 31);
}

#[test]
fn elevation_follows_the_table() {
    assert_eq!(elevation(0), 0);
    assert_eq!(elevation(1), 1);
    assert_eq!(elevation(2), 3);
    assert_eq!(elevation(3), 6);
    assert_eq!(elevation(4), 8);
    assert_eq!(elevation(5), 12);
}

#[test]
fn elevation_clamps_past_the_table() {
    for level in 5..=255u8 {
        assert_eq!(elevation(level), elevation(5));
    }
}
