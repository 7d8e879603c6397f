use vstd::prelude::*;
use vstd::string::StringExecFns;

use crate::color::Rgba8;
use crate::utils::is_dark;
use crate::utils::is_dark_spec;

verus! {

// ---------------------------------------------------------------------------
// Palette groups
// ---------------------------------------------------------------------------

/// The primary accent role and the colors placed on it.
#[derive(Clone, Copy, PartialEq, Eq, Structural, Debug)]
pub struct Primary {
    pub color: Rgba8,
    pub on_primary: Rgba8,
    pub primary_container: Rgba8,
    pub on_primary_container: Rgba8,
}

/// The secondary accent role and the colors placed on it.
#[derive(Clone, Copy, PartialEq, Eq, Structural, Debug)]
pub struct Secondary {
    pub color: Rgba8,
    pub on_secondary: Rgba8,
    pub secondary_container: Rgba8,
    pub on_secondary_container: Rgba8,
}

/// The tertiary accent role and the colors placed on it.
#[derive(Clone, Copy, PartialEq, Eq, Structural, Debug)]
pub struct Tertiary {
    pub color: Rgba8,
    pub on_tertiary: Rgba8,
    pub tertiary_container: Rgba8,
    pub on_tertiary_container: Rgba8,
}

/// The error role and the colors placed on it.
#[derive(Clone, Copy, PartialEq, Eq, Structural, Debug)]
pub struct Error {
    pub color: Rgba8,
    pub on_error: Rgba8,
    pub error_container: Rgba8,
    pub on_error_container: Rgba8,
}

/// The five surface container tones, lowest to highest.
#[derive(Clone, Copy, PartialEq, Eq, Structural, Debug)]
pub struct SurfaceContainer {
    pub lowest: Rgba8,
    pub low: Rgba8,
    pub base: Rgba8,
    pub high: Rgba8,
    pub highest: Rgba8,
}

/// The surface role, its text colors and its container tones.
#[derive(Clone, Copy, PartialEq, Eq, Structural, Debug)]
pub struct Surface {
    pub color: Rgba8,
    pub on_surface: Rgba8,
    pub on_surface_variant: Rgba8,
    pub surface_container: SurfaceContainer,
}

/// The inverse roles used on top of the opposite palette.
#[derive(Clone, Copy, PartialEq, Eq, Structural, Debug)]
pub struct Inverse {
    pub inverse_surface: Rgba8,
    pub inverse_on_surface: Rgba8,
    pub inverse_primary: Rgba8,
}

/// The outline role and its muted variant.
#[derive(Clone, Copy, PartialEq, Eq, Structural, Debug)]
pub struct Outline {
    pub color: Rgba8,
    pub variant: Rgba8,
}

/// A full color scheme: every color role a widget style may ask for.
#[derive(Clone, Copy, PartialEq, Eq, Structural, Debug)]
pub struct ColorScheme {
    pub primary: Primary,
    pub secondary: Secondary,
    pub tertiary: Tertiary,
    pub error: Error,
    pub surface: Surface,
    pub inverse: Inverse,
    pub outline: Outline,
    pub shadow: Rgba8,
    pub scrim: Rgba8,
}

// ---------------------------------------------------------------------------
// Hex literals
// ---------------------------------------------------------------------------

/// The opaque color a six-digit `RRGGBB` literal denotes.
pub open spec fn rgb_hex_spec(x: u32) -> Rgba8 {
    Rgba8 {
        r: ((x / 0x10000) % 0x100) as u8,
        g: ((x / 0x100) % 0x100) as u8,
        b: (x % 0x100) as u8,
        a: 255u8,
    }
}

/// The color an eight-digit `AARRGGBB` literal denotes.
pub open spec fn argb_hex_spec(x: u32) -> Rgba8 {
    Rgba8 {
        r: ((x / 0x10000) % 0x100) as u8,
        g: ((x / 0x100) % 0x100) as u8,
        b: (x % 0x100) as u8,
        a: (x / 0x1000000) as u8,
    }
}

fn rgb_hex(x: u32) -> (c: Rgba8)
    ensures
        c == rgb_hex_spec(x),
{
    Rgba8 {
        r: ((x / 0x10000) % 0x100) as u8,
        g: ((x / 0x100) % 0x100) as u8,
        b: (x % 0x100) as u8,
        a: 255,
    }
}

fn argb_hex(x: u32) -> (c: Rgba8)
    ensures
        c == argb_hex_spec(x),
{
    Rgba8 {
        r: ((x / 0x10000) % 0x100) as u8,
        g: ((x / 0x100) % 0x100) as u8,
        b: (x % 0x100) as u8,
        a: (x / 0x1000000) as u8,
    }
}

// ---------------------------------------------------------------------------
// The built-in palettes
// ---------------------------------------------------------------------------

/// The built-in dark palette.
pub open spec fn dark_colorscheme() -> ColorScheme {
    ColorScheme {
        primary: Primary {
            color: rgb_hex_spec(0x9bd4a1),
            on_primary: rgb_hex_spec(0x003916),
            primary_container: rgb_hex_spec(0x1b5129),
            on_primary_container: rgb_hex_spec(0xb6f1bb),
        },
        secondary: Secondary {
            color: rgb_hex_spec(0xb8ccb6),
            on_secondary: rgb_hex_spec(0x233425),
            secondary_container: rgb_hex_spec(0x394b3a),
            on_secondary_container: rgb_hex_spec(0xd3e8d1),
        },
        tertiary: Tertiary {
            color: rgb_hex_spec(0xa1ced7),
            on_tertiary: rgb_hex_spec(0x00363e),
            tertiary_container: rgb_hex_spec(0x1f4d55),
            on_tertiary_container: rgb_hex_spec(0xbdeaf4),
        },
        error: Error {
            color: rgb_hex_spec(0xffb4ab),
            on_error: rgb_hex_spec(0x690005),
            error_container: rgb_hex_spec(0x93000a),
            on_error_container: rgb_hex_spec(0xffdad6),
        },
        surface: Surface {
            color: rgb_hex_spec(0x101510),
            on_surface: rgb_hex_spec(0xe0e4dc),
            on_surface_variant: rgb_hex_spec(0xc1c9be),
            surface_container: SurfaceContainer {
                lowest: rgb_hex_spec(0x0b0f0b),
                low: rgb_hex_spec(0x181d18),
                base: rgb_hex_spec(0x1c211c),
                high: rgb_hex_spec(0x262b26),
                highest: rgb_hex_spec(0x313631),
            },
        },
        inverse: Inverse {
            inverse_surface: rgb_hex_spec(0xe0e4dc),
            inverse_on_surface: rgb_hex_spec(0x2d322c),
            inverse_primary: rgb_hex_spec(0x34693f),
        },
        outline: Outline {
            color: rgb_hex_spec(0x8b9389),
            variant: rgb_hex_spec(0x414941),
        },
        shadow: rgb_hex_spec(0x000000),
        scrim: argb_hex_spec(0x4d000000),
    }
}

/// The built-in light palette.
pub open spec fn light_colorscheme() -> ColorScheme {
    ColorScheme {
        primary: Primary {
            color: rgb_hex_spec(0x34693f),
            on_primary: rgb_hex_spec(0xffffff),
            primary_container: rgb_hex_spec(0xb6f1bb),
            on_primary_container: rgb_hex_spec(0x1b5129),
        },
        secondary: Secondary {
            color: rgb_hex_spec(0x516351),
            on_secondary: rgb_hex_spec(0xffffff),
            secondary_container: rgb_hex_spec(0xd3e8d1),
            on_secondary_container: rgb_hex_spec(0x394b3a),
        },
        tertiary: Tertiary {
            color: rgb_hex_spec(0x39656d),
            on_tertiary: rgb_hex_spec(0xffffff),
            tertiary_container: rgb_hex_spec(0xbdeaf4),
            on_tertiary_container: rgb_hex_spec(0x1f4d55),
        },
        error: Error {
            color: rgb_hex_spec(0xba1a1a),
            on_error: rgb_hex_spec(0xffffff),
            error_container: rgb_hex_spec(0xffdad6),
            on_error_container: rgb_hex_spec(0x93000a),
        },
        surface: Surface {
            color: rgb_hex_spec(0xf7fbf2),
            on_surface: rgb_hex_spec(0x181d18),
            on_surface_variant: rgb_hex_spec(0x414941),
            surface_container: SurfaceContainer {
                lowest: rgb_hex_spec(0xffffff),
                low: rgb_hex_spec(0xf1f5ed),
                base: rgb_hex_spec(0xebefe7),
                high: rgb_hex_spec(0xe5e9e1),
                highest: rgb_hex_spec(0xe0e4dc),
            },
        },
        inverse: Inverse {
            inverse_surface: rgb_hex_spec(0x2d322c),
            inverse_on_surface: rgb_hex_spec(0xeef2ea),
            inverse_primary: rgb_hex_spec(0x9bd4a1),
        },
        outline: Outline {
            color: rgb_hex_spec(0x727970),
            variant: rgb_hex_spec(0xc1c9be),
        },
        shadow: rgb_hex_spec(0x000000),
        scrim: argb_hex_spec(0x4d000000),
    }
}

impl ColorScheme {
    /// The built-in dark palette; its surface classifies as dark.
    pub fn dark() -> (cs: ColorScheme)
        ensures
            cs == dark_colorscheme(),
            is_dark_spec(cs.surface.color),
    {
        ColorScheme {
            primary: Primary {
                color: rgb_hex(0x9bd4a1),
                on_primary: rgb_hex(0x003916),
                primary_container: rgb_hex(0x1b5129),
                on_primary_container: rgb_hex(0xb6f1bb),
            },
            secondary: Secondary {
                color: rgb_hex(0xb8ccb6),
                on_secondary: rgb_hex(0x233425),
                secondary_container: rgb_hex(0x394b3a),
                on_secondary_container: rgb_hex(0xd3e8d1),
            },
            tertiary: Tertiary {
                color: rgb_hex(0xa1ced7),
                on_tertiary: rgb_hex(0x00363e),
                tertiary_container: rgb_hex(0x1f4d55),
                on_tertiary_container: rgb_hex(0xbdeaf4),
            },
            error: Error {
                color: rgb_hex(0xffb4ab),
                on_error: rgb_hex(0x690005),
                error_container: rgb_hex(0x93000a),
                on_error_container: rgb_hex(0xffdad6),
            },
            surface: Surface {
                color: rgb_hex(0x101510),
                on_surface: rgb_hex(0xe0e4dc),
                on_surface_variant: rgb_hex(0xc1c9be),
                surface_container: SurfaceContainer {
                    lowest: rgb_hex(0x0b0f0b),
                    low: rgb_hex(0x181d18),
                    base: rgb_hex(0x1c211c),
                    high: rgb_hex(0x262b26),
                    highest: rgb_hex(0x313631),
                },
            },
            inverse: Inverse {
                inverse_surface: rgb_hex(0xe0e4dc),
                inverse_on_surface: rgb_hex(0x2d322c),
                inverse_primary: rgb_hex(0x34693f),
            },
            outline: Outline {
                color: rgb_hex(0x8b9389),
                variant: rgb_hex(0x414941),
            },
            shadow: rgb_hex(0x000000),
            scrim: argb_hex(0x4d000000),
        }
    }

    /// The built-in light palette; its surface classifies as light.
    pub fn light() -> (cs: ColorScheme)
        ensures
            cs == light_colorscheme(),
            !is_dark_spec(cs.surface.color),
    {
        ColorScheme {
            primary: Primary {
                color: rgb_hex(0x34693f),
                on_primary: rgb_hex(0xffffff),
                primary_container: rgb_hex(0xb6f1bb),
                on_primary_container: rgb_hex(0x1b5129),
            },
            secondary: Secondary {
                color: rgb_hex(0x516351),
                on_secondary: rgb_hex(0xffffff),
                secondary_container: rgb_hex(0xd3e8d1),
                on_secondary_container: rgb_hex(0x394b3a),
            },
            tertiary: Tertiary {
                color: rgb_hex(0x39656d),
                on_tertiary: rgb_hex(0xffffff),
                tertiary_container: rgb_hex(0xbdeaf4),
                on_tertiary_container: rgb_hex(0x1f4d55),
            },
            error: Error {
                color: rgb_hex(0xba1a1a),
                on_error: rgb_hex(0xffffff),
                error_container: rgb_hex(0xffdad6),
                on_error_container: rgb_hex(0x93000a),
            },
            surface: Surface {
                color: rgb_hex(0xf7fbf2),
                on_surface: rgb_hex(0x181d18),
                on_surface_variant: rgb_hex(0x414941),
                surface_container: SurfaceContainer {
                    lowest: rgb_hex(0xffffff),
                    low: rgb_hex(0xf1f5ed),
                    base: rgb_hex(0xebefe7),
                    high: rgb_hex(0xe5e9e1),
                    highest: rgb_hex(0xe0e4dc),
                },
            },
            inverse: Inverse {
                inverse_surface: rgb_hex(0x2d322c),
                inverse_on_surface: rgb_hex(0xeef2ea),
                inverse_primary: rgb_hex(0x9bd4a1),
            },
            outline: Outline {
                color: rgb_hex(0x727970),
                variant: rgb_hex(0xc1c9be),
            },
            shadow: rgb_hex(0x000000),
            scrim: argb_hex(0x4d000000),
        }
    }
}

// ---------------------------------------------------------------------------
// System appearance
// ---------------------------------------------------------------------------

/// What the platform reports about the system-wide appearance.
#[derive(Clone, Copy, PartialEq, Eq, Structural, Debug)]
pub enum SystemAppearance {
    Dark,
    Light,
    Unspecified,
}

/// Whether an appearance report selects the dark palette: everything but
/// an explicit light report does, so a platform that stays silent gets
/// the dark theme.
pub open spec fn dark_for_appearance(appearance: SystemAppearance) -> bool {
    appearance != SystemAppearance::Light
}

/// Relies on dark_light::detect: it queries the current system appearance
/// (over the desktop settings portal on Linux). The result depends on the
/// machine and the moment, so nothing is promised of it; a detection error
/// counts as an unspecified appearance, which the callers treat exactly as
/// the original detection would.
#[verifier::external_body]
fn detect_system_appearance() -> (appearance: SystemAppearance) {
    match dark_light::detect() {
        Ok(dark_light::Mode::Dark) => SystemAppearance::Dark,
        Ok(dark_light::Mode::Light) => SystemAppearance::Light,
        Ok(dark_light::Mode::Unspecified) => SystemAppearance::Unspecified,
        Err(_) => SystemAppearance::Unspecified,
    }
}

/// Whether this appearance report selects the dark palette; see
/// [`dark_for_appearance`].
pub fn is_dark_for(appearance: SystemAppearance) -> (dark: bool)
    ensures
        dark == dark_for_appearance(appearance),
{
    match appearance {
        SystemAppearance::Light => false,
        _ => true,
    }
}

/// The palette an appearance report selects: light only on an explicit
/// light report, dark otherwise.
pub fn scheme_for_appearance(appearance: SystemAppearance) -> (cs: ColorScheme)
    ensures
        cs == (if dark_for_appearance(appearance) {
            dark_colorscheme()
        } else {
            light_colorscheme()
        }),
{
    if is_dark_for(appearance) {
        ColorScheme::dark()
    } else {
        ColorScheme::light()
    }
}

// ---------------------------------------------------------------------------
// Themes
// ---------------------------------------------------------------------------

/// A named custom theme: a palette together with the cached answer to
/// whether it counts as dark.
#[derive(Clone, PartialEq, Debug)]
pub struct Custom {
    pub name: String,
    pub is_dark: bool,
    pub colorscheme: ColorScheme,
}

impl Custom {
    /// A custom theme is well formed when its cached dark flag agrees
    /// with the lightness of its surface color. [`Theme::new`]
    /// establishes this; a hand-built value may break it.
    pub open spec fn dark_flag_consistent(self) -> bool {
        self.is_dark == is_dark_spec(self.colorscheme.surface.color)
    }
}

/// A theme: one of the two built-in palettes, the system-following
/// choice between them, or a custom palette.
#[derive(Clone, PartialEq, Debug)]
pub enum Theme {
    Dark,
    Light,
    System,
    Custom(Custom),
}

impl Theme {
    /// The name a theme goes by.
    pub open spec fn name_spec(self) -> Seq<char> {
        match self {
            Theme::Dark => "Dark"@,
            Theme::Light => "Light"@,
            Theme::System => "System"@,
            Theme::Custom(custom) => custom.name@,
        }
    }

    /// A custom theme from a name and a palette; whether it counts as
    /// dark is read off the palette's surface color.
    pub fn new(name: String, colorscheme: ColorScheme) -> (t: Theme)
        ensures
            t matches Theme::Custom(c) && c.name@ == name@ && c.colorscheme == colorscheme
                && c.dark_flag_consistent(),
    {
        let dark = is_dark(colorscheme.surface.color);
        Theme::Custom(Custom { name, is_dark: dark, colorscheme })
    }

    /// As [`Theme::new`], for a name that lives in the program text.
    pub fn new_const(name: &'static str, colorscheme: ColorScheme) -> (t: Theme)
        ensures
            t matches Theme::Custom(c) && c.name@ == name@ && c.colorscheme == colorscheme
                && c.dark_flag_consistent(),
    {
        Theme::new(String::from_str(name), colorscheme)
    }

    /// The theme's name: the variant's for the built-in ones, the given
    /// one for a custom theme.
    pub fn name(&self) -> (n: String)
        ensures
            n@ == self.name_spec(),
    {
        match self {
            Theme::Dark => "Dark".to_owned(),
            Theme::Light => "Light".to_owned(),
            Theme::System => "System".to_owned(),
            Theme::Custom(custom) => custom.name.clone(),
        }
    }

    /// Whether the theme counts as dark. The built-in themes answer for
    /// themselves, a custom theme by its cached flag; the system theme
    /// asks the platform and is dark unless that reports light.
    pub fn is_dark(&self) -> (dark: bool)
        ensures
            self is Dark ==> dark,
            self is Light ==> !dark,
            self matches Theme::Custom(c) ==> dark == c.is_dark,
    {
        match self {
            Theme::Dark => true,
            Theme::Light => false,
            Theme::System => is_dark_for(detect_system_appearance()),
            Theme::Custom(custom) => custom.is_dark,
        }
    }

    /// The theme's palette. The built-in themes pin it exactly; the
    /// system theme yields one of the two built-in palettes, by the
    /// platform's appearance report.
    pub fn colors(&self) -> (cs: ColorScheme)
        ensures
            self is Dark ==> cs == dark_colorscheme(),
            self is Light ==> cs == light_colorscheme(),
            self matches Theme::Custom(c) ==> cs == c.colorscheme,
            self is System ==> cs == dark_colorscheme() || cs == light_colorscheme(),
    {
        match self {
            Theme::Dark => ColorScheme::dark(),
            Theme::Light => ColorScheme::light(),
            Theme::System => scheme_for_appearance(detect_system_appearance()),
            Theme::Custom(custom) => custom.colorscheme,
        }
    }
}

impl Default for Theme {
    /// The default theme follows the system appearance.
    fn default() -> (t: Theme)
        ensures
            t == Theme::System,
    {
        Theme::System
    }
}

} // verus!
