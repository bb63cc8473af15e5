use vstd::prelude::*;

pub mod button;
pub mod container;
pub mod icon;
pub mod svg;
pub mod text;
pub mod text_input;

verus! {

/// The application's colour theme.
#[derive(PartialEq, Eq, Structural, Debug, Clone, Copy)]
pub enum Theme {
    Light,
    Dark,
}

impl Default for Theme {
    fn default() -> (t: Self)
        ensures
            t == Theme::Light,
    {
        Theme::Light
    }
}

/// Material Design 3 colour roles, each a `0xRRGGBB` colour.
#[derive(PartialEq, Eq, Structural, Debug, Clone, Copy)]
pub struct Palette {
    pub primary: u32,
    pub primary_container: u32,
    pub on_primary: u32,
    pub on_primary_container: u32,
    pub inverse_primary: u32,
    pub secondary: u32,
    pub secondary_container: u32,
    pub on_secondary: u32,
    pub on_secondary_container: u32,
    pub tertiary: u32,
    pub tertiary_container: u32,
    pub on_tertiary: u32,
    pub on_tertiary_container: u32,
    pub surface: u32,
    pub surface_dim: u32,
    pub surface_bright: u32,
    pub surface_container_lowest: u32,
    pub surface_container_low: u32,
    pub surface_container: u32,
    pub surface_container_high: u32,
    pub surface_container_highest: u32,
    pub surface_variant: u32,
    pub on_surface: u32,
    pub on_surface_variant: u32,
    pub inverse_surface: u32,
    pub inverse_on_surface: u32,
    pub background: u32,
    pub on_background: u32,
    pub error: u32,
    pub error_container: u32,
    pub on_error: u32,
    pub on_error_container: u32,
    pub outline: u32,
    pub outline_variant: u32,
    pub shadow: u32,
    pub surface_tint: u32,
    pub scrim: u32,
}

/// The Material Design 3 baseline light scheme.
pub open spec fn is_light_palette(p: Palette) -> bool {
    &&& p.primary == 0x6750A4
    &&& p.primary_container == 0xEADDFF
    &&& p.on_primary == 0xFFFFFF
    &&& p.on_primary_container == 0x21005E
    &&& p.inverse_primary == 0xD0BCFF
    &&& p.secondary == 0x625B71
    &&& p.secondary_container == 0xE8DEF8
    &&& p.on_secondary == 0xFFFFFF
    &&& p.on_secondary_container == 0x1E192B
    &&& p.tertiary == 0x7D5260
    &&& p.tertiary_container == 0xFFD8E4
    &&& p.on_tertiary == 0xFFFFFF
    &&& p.on_tertiary_container == 0x370B1E
    &&& p.surface == 0xFEF7FF
    &&& p.surface_dim == 0xDED8E1
    &&& p.surface_bright == 0xFEF7FF
    &&& p.surface_container_lowest == 0xFFFFFF
    &&& p.surface_container_low == 0xF7F2FA
    &&& p.surface_container == 0xF3EDF7
    &&& p.surface_container_high == 0xECE6F0
    &&& p.surface_container_highest == 0xE6E0E9
    &&& p.surface_variant == 0xE7E0EC
    &&& p.on_surface == 0x1C1B1F
    &&& p.on_surface_variant == 0x49454E
    &&& p.inverse_surface == 0x313033
    &&& p.inverse_on_surface == 0xF4EFF4
    &&& p.background == 0xFEF7FF
    &&& p.on_background == 0x1C1B1F
    &&& p.error == 0xB3261E
    &&& p.error_container == 0xF9DEDC
    &&& p.on_error == 0xFFFFFF
    &&& p.on_error_container == 0x410E0B
    &&& p.outline == 0x79747E
    &&& p.outline_variant == 0xC4C7C5
    &&& p.shadow == 0x000000
    &&& p.surface_tint == 0x6750A4
    &&& p.scrim == 0x000000
}

/// The Material Design 3 baseline dark scheme.
pub open spec fn is_dark_palette(p: Palette) -> bool {
    &&& p.primary == 0xD0BCFF
    &&& p.primary_container == 0x4F378B
    &&& p.on_primary == 0x371E73
    &&& p.on_primary_container == 0xEADDFF
    &&& p.inverse_primary == 0x6750A4
    &&& p.secondary == 0xCCC2DC
    &&& p.secondary_container == 0x4A4458
    &&& p.on_secondary == 0x332D41
    &&& p.on_secondary_container == 0xE8DEF8
    &&& p.tertiary == 0xEFB8C8
    &&& p.tertiary_container == 0x633B48
    &&& p.on_tertiary == 0x492532
    &&& p.on_tertiary_container == 0xFFD8E4
    &&& p.surface == 0x141218
    &&& p.surface_dim == 0x141218
    &&& p.surface_bright == 0x3B383E
    &&& p.surface_container_lowest == 0x0F0D13
    &&& p.surface_container_low == 0x1D1B20
    &&& p.surface_container == 0x211F26
    &&& p.surface_container_high == 0x2B2930
    &&& p.surface_container_highest == 0x36343B
    &&& p.surface_variant == 0x49454F
    &&& p.on_surface == 0xE6E1E5
    &&& p.on_surface_variant == 0xCAC4D0
    &&& p.inverse_surface == 0xE6E1E5
    &&& p.inverse_on_surface == 0x313033
    &&& p.background == 0x141218
    &&& p.on_background == 0xE6E1E5
    &&& p.error == 0xF2B8B5
    &&& p.error_container == 0x8C1D18
    &&& p.on_error == 0x601410
    &&& p.on_error_container == 0xF9DEDC
    &&& p.outline == 0x938F99
    &&& p.outline_variant == 0x444746
    &&& p.shadow == 0x000000
    &&& p.surface_tint == 0xD0BCFF
    &&& p.scrim == 0x000000
}

impl Palette {
    /// The light scheme.
    pub fn light() -> (p: Self)
        ensures
            is_light_palette(p),
    {
        Palette {
            primary: 0x6750A4,
            primary_container: 0xEADDFF,
            on_primary: 0xFFFFFF,
            on_primary_container: 0x21005E,
            inverse_primary: 0xD0BCFF,
            secondary: 0x625B71,
            secondary_container: 0xE8DEF8,
            on_secondary: 0xFFFFFF,
            on_secondary_container: 0x1E192B,
            tertiary: 0x7D5260,
            tertiary_container: 0xFFD8E4,
            on_tertiary: 0xFFFFFF,
            on_tertiary_container: 0x370B1E,
            surface: 0xFEF7FF,
            surface_dim: 0xDED8E1,
            surface_bright: 0xFEF7FF,
            surface_container_lowest: 0xFFFFFF,
            surface_container_low: 0xF7F2FA,
            surface_container: 0xF3EDF7,
            surface_container_high: 0xECE6F0,
            surface_container_highest: 0xE6E0E9,
            surface_variant: 0xE7E0EC,
            on_surface: 0x1C1B1F,
            on_surface_variant: 0x49454E,
            inverse_surface: 0x313033,
            inverse_on_surface: 0xF4EFF4,
            background: 0xFEF7FF,
            on_background: 0x1C1B1F,
            error: 0xB3261E,
            error_container: 0xF9DEDC,
            on_error: 0xFFFFFF,
            on_error_container: 0x410E0B,
            outline: 0x79747E,
            outline_variant: 0xC4C7C5,
            shadow: 0x000000,
            surface_tint: 0x6750A4,
            scrim: 0x000000,
        }
    }

    /// The dark scheme.
    pub fn dark() -> (p: Self)
        ensures
            is_dark_palette(p),
    {
        Palette {
            primary: 0xD0BCFF,
            primary_container: 0x4F378B,
            on_primary: 0x371E73,
            on_primary_container: 0xEADDFF,
            inverse_primary: 0x6750A4,
            secondary: 0xCCC2DC,
            secondary_container: 0x4A4458,
            on_secondary: 0x332D41,
            on_secondary_container: 0xE8DEF8,
            tertiary: 0xEFB8C8,
            tertiary_container: 0x633B48,
            on_tertiary: 0x492532,
            on_tertiary_container: 0xFFD8E4,
            surface: 0x141218,
            surface_dim: 0x141218,
            surface_bright: 0x3B383E,
            surface_container_lowest: 0x0F0D13,
            surface_container_low: 0x1D1B20,
            surface_container: 0x211F26,
            surface_container_high: 0x2B2930,
            surface_container_highest: 0x36343B,
            surface_variant: 0x49454F,
            on_surface: 0xE6E1E5,
            on_surface_variant: 0xCAC4D0,
            inverse_surface: 0xE6E1E5,
            inverse_on_surface: 0x313033,
            background: 0x141218,
            on_background: 0xE6E1E5,
            error: 0xF2B8B5,
            error_container: 0x8C1D18,
            on_error: 0x601410,
            on_error_container: 0xF9DEDC,
            outline: 0x938F99,
            outline_variant: 0x444746,
            shadow: 0x000000,
            surface_tint: 0xD0BCFF,
            scrim: 0x000000,
        }
    }
}

impl Theme {
    /// The colour scheme of this theme.
    pub fn palette(&self) -> (p: Palette)
        ensures
            *self == Theme::Light ==> is_light_palette(p),
            *self == Theme::Dark ==> is_dark_palette(p),
    {
        match self {
            Theme::Light => Palette::light(),
            Theme::Dark => Palette::dark(),
        }
    }
}

} // verus!
