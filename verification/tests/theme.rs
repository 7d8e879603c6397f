use material_theme::utils::parse_argb;
use material_theme::ColorScheme;
use material_theme::Rgba8;
use material_theme::SystemAppearance;
use material_theme::Theme;
use material_theme::is_dark_for;
use material_theme::scheme_for_appearance;

#[test]
fn builtin_theme_names() {
    assert_eq!(Theme::Dark.name(), "Dark");
    assert_eq!(Theme::Light.name(), "Light");
    assert_eq!(Theme::System.name(), "System");
    let custom = Theme::new("Forest".to_string(), ColorScheme::dark());
    assert_eq!(custom.name(), "Forest");
}

#[test]
fn default_theme_follows_the_system() {
    assert_eq!(Theme::default(), Theme::System);
}

#[test]
fn builtin_themes_know_their_darkness() {
    assert!(Theme::Dark.is_dark());
    assert!(!Theme::Light.is_dark());
}

#[test]
fn new_custom_theme_reads_darkness_off_the_surface() {
    let dark = Theme::new("d".to_string(), ColorScheme::dark());
    assert!(dark.is_dark());
    let light = Theme::new("l".to_string(), ColorScheme::light());
    assert!(!light.is_dark());
}

#[test]
fn new_const_matches_new() {
    let a = Theme::new_const("Forest", ColorScheme::light());
    let b = Theme::new("Forest".to_string(), ColorScheme::light());
    assert_eq!(a, b);
}

#[test]
fn builtin_themes_yield_their_palettes() {
    assert_eq!(Theme::Dark.colors(), ColorScheme::dark());
    assert_eq!(Theme::Light.colors(), ColorScheme::light());
    let cs = ColorScheme::light();
    let custom = Theme::new("l".to_string(), cs);
    assert_eq!(custom.colors(), cs);
}

#[test]
fn system_theme_yields_a_builtin_palette() {
    let cs = Theme::System.colors();
    assert!(cs == ColorScheme::dark() || cs == ColorScheme::light());
}

#[test]
fn appearance_reports_select_palettes() {
    assert!(is_dark_for(SystemAppearance::Dark));
    assert!(is_dark_for(SystemAppearance::Unspecified));
    assert!(!is_dark_for(SystemAppearance::Light));
    assert_eq!(scheme_for_appearance(SystemAppearance::Light), ColorScheme::light());
    assert_eq!(scheme_for_appearance(SystemAppearance::Dark), ColorScheme::dark());
    assert_eq!(scheme_for_appearance(SystemAppearance::Unspecified), ColorScheme::dark());
}

#[test]
fn palette_entries_match_their_hex_literals() {
    let dark = ColorScheme::dark();
    assert_eq!(dark.primary.color, parse_argb("#9bd4a1").unwrap());
    assert_eq!(dark.surface.color, Rgba8 { r: 0x10, g: 0x15, b: 0x10, a: 255 });
    assert_eq!(dark.scrim, parse_argb("#4d000000").unwrap());
    let light = ColorScheme::light();
    assert_eq!(light.primary.color, parse_argb("#34693f").unwrap());
    assert_eq!(light.surface.surface_container.lowest, parse_argb("#ffffff").unwrap());
}
