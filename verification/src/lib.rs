//! A Material-flavored theme library for a retained-mode GUI toolkit.
//!
//! The verified core is the color utility module: hex ARGB parsing and
//! serialization, perceptual lightness, elevation lookup, and the fixed
//! disabled-state opacities, all stated over an eight-bit-per-channel
//! color model. The theme layer on top selects between a dark and a
//! light palette, optionally following the system appearance.

mod color;
mod theme;
pub mod utils;

pub use color::Rgba8;
pub use color::ALPHA_OPAQUE;
pub use theme::dark_colorscheme;
pub use theme::dark_for_appearance;
pub use theme::is_dark_for;
pub use theme::light_colorscheme;
pub use theme::scheme_for_appearance;
pub use theme::ColorScheme;
pub use theme::Custom;
pub use theme::SystemAppearance;
pub use theme::Theme;
pub use theme::Error;
pub use theme::Inverse;
pub use theme::Outline;
pub use theme::Primary;
pub use theme::Secondary;
pub use theme::Surface;
pub use theme::SurfaceContainer;
