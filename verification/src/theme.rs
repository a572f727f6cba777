//! Theme palettes: chart colors, series color resolution and particle colors.

use vstd::prelude::*;

use crate::text::str_eq;

verus! {

/// Dashboard color theme.
#[derive(Clone, Copy, PartialEq, Eq, Debug)]
pub enum Theme {
    Light,
    Dark,
    Midnight,
    Ocean,
    Sand,
    /// Follow the system preference.
    System,
}

/// An RGB color.
#[derive(Clone, Copy, PartialEq, Eq, Debug)]
pub struct Rgb(pub u8, pub u8, pub u8);

/// Theme-aware colors used by chart rendering.
#[derive(Clone, Copy, PartialEq, Eq, Debug)]
pub struct ChartPalette {
    pub bg: Rgb,
    pub text: Rgb,
    pub grid: Rgb,
    pub accent: Rgb,
    pub info: Rgb,
    pub success: Rgb,
    pub warning: Rgb,
    pub error: Rgb,
    pub purple: Rgb,
    pub muted: Rgb,
    pub tier_l0: Rgb,
    pub tier_l1: Rgb,
    pub tier_l2: Rgb,
    pub tier_l3: Rgb,
    pub tier_miss: Rgb,
}

/// The palette of the light theme.
pub open spec fn light_palette() -> ChartPalette {
    ChartPalette {
        bg: Rgb(0xff, 0xff, 0xff),
        text: Rgb(0x1a, 0x18, 0x14),
        grid: Rgb(0xe5, 0xe0, 0xd8),
        accent: Rgb(0xc4, 0x4d, 0x2f),
        info: Rgb(0x09, 0x69, 0xda),
        success: Rgb(0x1a, 0x7f, 0x37),
        warning: Rgb(0x9a, 0x67, 0x00),
        error: Rgb(0xcf, 0x22, 0x2e),
        purple: Rgb(0x82, 0x50, 0xdf),
        muted: Rgb(0x5c, 0x57, 0x4f),
        tier_l0: Rgb(0xc4, 0x4d, 0x2f),
        tier_l1: Rgb(0x09, 0x69, 0xda),
        tier_l2: Rgb(0x9a, 0x67, 0x00),
        tier_l3: Rgb(0x82, 0x50, 0xdf),
        tier_miss: Rgb(0xa8, 0xa2, 0x9e),
    }
}

/// The chart palette of a theme. `System` never reaches it (it is resolved to a concrete
/// theme first); it is given the light palette.
pub open spec fn palette_spec(theme: Theme) -> ChartPalette {
    match theme {
        Theme::Light => light_palette(),
        Theme::Dark => ChartPalette {
            bg: Rgb(0x16, 0x1b, 0x22),
            text: Rgb(0xe6, 0xed, 0xf3),
            grid: Rgb(0x21, 0x26, 0x2d),
            accent: Rgb(0xf7, 0x81, 0x66),
            info: Rgb(0x58, 0xa6, 0xff),
            success: Rgb(0x3f, 0xb9, 0x50),
            warning: Rgb(0xd2, 0x99, 0x1d),
            error: Rgb(0xf8, 0x51, 0x49),
            purple: Rgb(0xbc, 0x8c, 0xff),
            muted: Rgb(0x8b, 0x94, 0x9e),
            tier_l0: Rgb(0xf7, 0x81, 0x66),
            tier_l1: Rgb(0x58, 0xa6, 0xff),
            tier_l2: Rgb(0xd2, 0x99, 0x1d),
            tier_l3: Rgb(0xbc, 0x8c, 0xff),
            tier_miss: Rgb(0x48, 0x4f, 0x58),
        },
        Theme::Midnight => ChartPalette {
            bg: Rgb(0x14, 0x10, 0x1f),
            text: Rgb(0xec, 0xe8, 0xf5),
            grid: Rgb(0x23, 0x1e, 0x36),
            accent: Rgb(0xc4, 0xa1, 0xff),
            info: Rgb(0x79, 0xb8, 0xff),
            success: Rgb(0x3f, 0xb9, 0x50),
            warning: Rgb(0xd2, 0x99, 0x1d),
            error: Rgb(0xf8, 0x51, 0x49),
            purple: Rgb(0xbc, 0x8c, 0xff),
            muted: Rgb(0x9b, 0x92, 0xb0),
            tier_l0: Rgb(0xc4, 0xa1, 0xff),
            tier_l1: Rgb(0x79, 0xb8, 0xff),
            tier_l2: Rgb(0xd2, 0x99, 0x1d),
            tier_l3: Rgb(0xbc, 0x8c, 0xff),
            tier_miss: Rgb(0x5a, 0x51, 0x6e),
        },
        Theme::Ocean => ChartPalette {
            bg: Rgb(0x11, 0x1c, 0x26),
            text: Rgb(0xe2, 0xed, 0xf4),
            grid: Rgb(0x1a, 0x28, 0x34),
            accent: Rgb(0x3d, 0xb8, 0xc9),
            info: Rgb(0x58, 0xa6, 0xff),
            success: Rgb(0x46, 0xc8, 0x80),
            warning: Rgb(0xc9, 0xa2, 0x27),
            error: Rgb(0xe8, 0x5d, 0x5d),
            purple: Rgb(0x8b, 0x9c, 0xf6),
            muted: Rgb(0x7d, 0x96, 0xa8),
            tier_l0: Rgb(0x3d, 0xb8, 0xc9),
            tier_l1: Rgb(0x58, 0xa6, 0xff),
            tier_l2: Rgb(0xc9, 0xa2, 0x27),
            tier_l3: Rgb(0x8b, 0x9c, 0xf6),
            tier_miss: Rgb(0x5a, 0x6f, 0x80),
        },
        Theme::Sand => ChartPalette {
            bg: Rgb(0xfa, 0xf7, 0xf2),
            text: Rgb(0x2a, 0x26, 0x1f),
            grid: Rgb(0xdd, 0xd6, 0xca),
            accent: Rgb(0xb8, 0x5c, 0x28),
            info: Rgb(0x1d, 0x6b, 0x9a),
            success: Rgb(0x2d, 0x7a, 0x48),
            warning: Rgb(0x8a, 0x6d, 0x1a),
            error: Rgb(0xb8, 0x38, 0x32),
            purple: Rgb(0x7a, 0x5c, 0xad),
            muted: Rgb(0x6f, 0x67, 0x5c),
            tier_l0: Rgb(0xb8, 0x5c, 0x28),
            tier_l1: Rgb(0x1d, 0x6b, 0x9a),
            tier_l2: Rgb(0x8a, 0x6d, 0x1a),
            tier_l3: Rgb(0x7a, 0x5c, 0xad),
            tier_miss: Rgb(0xa8, 0x9e, 0x90),
        },
        Theme::System => light_palette(),
    }
}

impl ChartPalette {
    /// The palette of `theme`; the system theme takes the palette of `system_theme`, the
    /// concrete theme that the system preference resolves to.
    pub fn for_theme(theme: Theme, system_theme: Theme) -> (p: Self)
        requires
            system_theme != Theme::System,
        ensures
            p == palette_spec(if theme == Theme::System { system_theme } else { theme }),
    {
        let t = match theme {
            Theme::System => system_theme,
            other => other,
        };
        match t {
            Theme::Light => ChartPalette {
            bg: Rgb(0xff, 0xff, 0xff),
            text: Rgb(0x1a, 0x18, 0x14),
            grid: Rgb(0xe5, 0xe0, 0xd8),
            accent: Rgb(0xc4, 0x4d, 0x2f),
            info: Rgb(0x09, 0x69, 0xda),
            success: Rgb(0x1a, 0x7f, 0x37),
            warning: Rgb(0x9a, 0x67, 0x00),
            error: Rgb(0xcf, 0x22, 0x2e),
            purple: Rgb(0x82, 0x50, 0xdf),
            muted: Rgb(0x5c, 0x57, 0x4f),
            tier_l0: Rgb(0xc4, 0x4d, 0x2f),
            tier_l1: Rgb(0x09, 0x69, 0xda),
            tier_l2: Rgb(0x9a, 0x67, 0x00),
            tier_l3: Rgb(0x82, 0x50, 0xdf),
            tier_miss: Rgb(0xa8, 0xa2, 0x9e),
        },
            Theme::Dark => ChartPalette {
            bg: Rgb(0x16, 0x1b, 0x22),
            text: Rgb(0xe6, 0xed, 0xf3),
            grid: Rgb(0x21, 0x26, 0x2d),
            accent: Rgb(0xf7, 0x81, 0x66),
            info: Rgb(0x58, 0xa6, 0xff),
            success: Rgb(0x3f, 0xb9, 0x50),
            warning: Rgb(0xd2, 0x99, 0x1d),
            error: Rgb(0xf8, 0x51, 0x49),
            purple: Rgb(0xbc, 0x8c, 0xff),
            muted: Rgb(0x8b, 0x94, 0x9e),
            tier_l0: Rgb(0xf7, 0x81, 0x66),
            tier_l1: Rgb(0x58, 0xa6, 0xff),
            tier_l2: Rgb(0xd2, 0x99, 0x1d),
            tier_l3: Rgb(0xbc, 0x8c, 0xff),
            tier_miss: Rgb(0x48, 0x4f, 0x58),
        },
            Theme::Midnight => ChartPalette {
            bg: Rgb(0x14, 0x10, 0x1f),
            text: Rgb(0xec, 0xe8, 0xf5),
            grid: Rgb(0x23, 0x1e, 0x36),
            accent: Rgb(0xc4, 0xa1, 0xff),
            info: Rgb(0x79, 0xb8, 0xff),
            success: Rgb(0x3f, 0xb9, 0x50),
            warning: Rgb(0xd2, 0x99, 0x1d),
            error: Rgb(0xf8, 0x51, 0x49),
            purple: Rgb(0xbc, 0x8c, 0xff),
            muted: Rgb(0x9b, 0x92, 0xb0),
            tier_l0: Rgb(0xc4, 0xa1, 0xff),
            tier_l1: Rgb(0x79, 0xb8, 0xff),
            tier_l2: Rgb(0xd2, 0x99, 0x1d),
            tier_l3: Rgb(0xbc, 0x8c, 0xff),
            tier_miss: Rgb(0x5a, 0x51, 0x6e),
        },
            Theme::Ocean => ChartPalette {
            bg: Rgb(0x11, 0x1c, 0x26),
            text: Rgb(0xe2, 0xed, 0xf4),
            grid: Rgb(0x1a, 0x28, 0x34),
            accent: Rgb(0x3d, 0xb8, 0xc9),
            info: Rgb(0x58, 0xa6, 0xff),
            success: Rgb(0x46, 0xc8, 0x80),
            warning: Rgb(0xc9, 0xa2, 0x27),
            error: Rgb(0xe8, 0x5d, 0x5d),
            purple: Rgb(0x8b, 0x9c, 0xf6),
            muted: Rgb(0x7d, 0x96, 0xa8),
            tier_l0: Rgb(0x3d, 0xb8, 0xc9),
            tier_l1: Rgb(0x58, 0xa6, 0xff),
            tier_l2: Rgb(0xc9, 0xa2, 0x27),
            tier_l3: Rgb(0x8b, 0x9c, 0xf6),
            tier_miss: Rgb(0x5a, 0x6f, 0x80),
        },
            Theme::Sand => ChartPalette {
            bg: Rgb(0xfa, 0xf7, 0xf2),
            text: Rgb(0x2a, 0x26, 0x1f),
            grid: Rgb(0xdd, 0xd6, 0xca),
            accent: Rgb(0xb8, 0x5c, 0x28),
            info: Rgb(0x1d, 0x6b, 0x9a),
            success: Rgb(0x2d, 0x7a, 0x48),
            warning: Rgb(0x8a, 0x6d, 0x1a),
            error: Rgb(0xb8, 0x38, 0x32),
            purple: Rgb(0x7a, 0x5c, 0xad),
            muted: Rgb(0x6f, 0x67, 0x5c),
            tier_l0: Rgb(0xb8, 0x5c, 0x28),
            tier_l1: Rgb(0x1d, 0x6b, 0x9a),
            tier_l2: Rgb(0x8a, 0x6d, 0x1a),
            tier_l3: Rgb(0x7a, 0x5c, 0xad),
            tier_miss: Rgb(0xa8, 0x9e, 0x90),
        },
            Theme::System => palette_light_exec(),
        }
    }
}

fn palette_light_exec() -> (p: ChartPalette)
    ensures
        p == light_palette(),
{
    ChartPalette {
        bg: Rgb(0xff, 0xff, 0xff),
        text: Rgb(0x1a, 0x18, 0x14),
        grid: Rgb(0xe5, 0xe0, 0xd8),
        accent: Rgb(0xc4, 0x4d, 0x2f),
        info: Rgb(0x09, 0x69, 0xda),
        success: Rgb(0x1a, 0x7f, 0x37),
        warning: Rgb(0x9a, 0x67, 0x00),
        error: Rgb(0xcf, 0x22, 0x2e),
        purple: Rgb(0x82, 0x50, 0xdf),
        muted: Rgb(0x5c, 0x57, 0x4f),
        tier_l0: Rgb(0xc4, 0x4d, 0x2f),
        tier_l1: Rgb(0x09, 0x69, 0xda),
        tier_l2: Rgb(0x9a, 0x67, 0x00),
        tier_l3: Rgb(0x82, 0x50, 0xdf),
        tier_miss: Rgb(0xa8, 0xa2, 0x9e),
    }
}

/// The palette color that a CSS color variable of a chart series maps to (accent by default).
pub open spec fn series_color(css: Seq<char>, p: ChartPalette) -> Rgb {
    if css == "var(--accent-primary)"@ || css == "var(--cc-accent)"@ || css == "var(--accent)"@ {
        p.accent
    } else if css == "var(--info)"@ || css == "var(--cc-info)"@ || css == "var(--blue)"@ {
        p.info
    } else if css == "var(--success)"@ || css == "var(--cc-success)"@ || css == "var(--green)"@ {
        p.success
    } else if css == "var(--warning)"@ || css == "var(--cc-warning)"@ || css == "var(--yellow)"@ {
        p.warning
    } else if css == "var(--error)"@ || css == "var(--cc-error)"@ || css == "var(--red)"@ {
        p.error
    } else if css == "var(--cc-purple)"@ || css == "var(--purple)"@ {
        p.purple
    } else if css == "var(--cc-text-muted)"@ || css == "var(--text-secondary)"@ {
        p.muted
    } else if css == "var(--cc-border-light)"@ {
        p.grid
    } else if css == "var(--cc-tier-l0)"@ || css == "var(--tier-l0)"@ {
        p.tier_l0
    } else if css == "var(--cc-tier-l1)"@ || css == "var(--tier-l1)"@ {
        p.tier_l1
    } else if css == "var(--cc-tier-l2)"@ || css == "var(--tier-l2)"@ {
        p.tier_l2
    } else if css == "var(--cc-tier-l3)"@ || css == "var(--tier-l3)"@ {
        p.tier_l3
    } else if css == "var(--cc-tier-miss)"@ || css == "var(--tier-miss)"@ {
        p.tier_miss
    } else {
        p.accent
    }
}

/// Maps a dashboard CSS color variable used by a chart series to the themed color.
pub fn resolve_series_color(css: &str, palette: &ChartPalette) -> (c: Rgb)
    ensures
        c == series_color(css@, *palette),
{
    if str_eq(css, "var(--accent-primary)") || str_eq(css, "var(--cc-accent)") || str_eq(css, "var(--accent)") {
        palette.accent
    } else if str_eq(css, "var(--info)") || str_eq(css, "var(--cc-info)") || str_eq(css, "var(--blue)") {
        palette.info
    } else if str_eq(css, "var(--success)") || str_eq(css, "var(--cc-success)") || str_eq(css, "var(--green)") {
        palette.success
    } else if str_eq(css, "var(--warning)") || str_eq(css, "var(--cc-warning)") || str_eq(css, "var(--yellow)") {
        palette.warning
    } else if str_eq(css, "var(--error)") || str_eq(css, "var(--cc-error)") || str_eq(css, "var(--red)") {
        palette.error
    } else if str_eq(css, "var(--cc-purple)") || str_eq(css, "var(--purple)") {
        palette.purple
    } else if str_eq(css, "var(--cc-text-muted)") || str_eq(css, "var(--text-secondary)") {
        palette.muted
    } else if str_eq(css, "var(--cc-border-light)") {
        palette.grid
    } else if str_eq(css, "var(--cc-tier-l0)") || str_eq(css, "var(--tier-l0)") {
        palette.tier_l0
    } else if str_eq(css, "var(--cc-tier-l1)") || str_eq(css, "var(--tier-l1)") {
        palette.tier_l1
    } else if str_eq(css, "var(--cc-tier-l2)") || str_eq(css, "var(--tier-l2)") {
        palette.tier_l2
    } else if str_eq(css, "var(--cc-tier-l3)") || str_eq(css, "var(--tier-l3)") {
        palette.tier_l3
    } else if str_eq(css, "var(--cc-tier-miss)") || str_eq(css, "var(--tier-miss)") {
        palette.tier_miss
    } else {
        palette.accent
    }
}

/// Colors of the particle-crab background.
pub struct ParticlePalette {
    pub clear: &'static str,
    pub primary: &'static str,
    pub primary_halo: &'static str,
    pub secondary: &'static str,
    pub secondary_halo: &'static str,
    pub eye_fill: &'static str,
    pub eye_halo: &'static str,
}

/// The particle colors of a theme, field by field.
pub open spec fn particle_palette_matches(theme: Theme, p: ParticlePalette) -> bool {
    match theme {
        Theme::Light | Theme::Sand => {
            &&& p.clear@ == "rgba(247, 244, 242, 1.0)"@
            &&& p.primary@ == "rgba(196, 77, 47, 1.0)"@
            &&& p.primary_halo@ == "rgba(196, 77, 47, 0.22)"@
            &&& p.secondary@ == "rgba(72, 130, 200, 0.85)"@
            &&& p.secondary_halo@ == "rgba(72, 130, 200, 0.15)"@
            &&& p.eye_fill@ == "rgba(255, 248, 240, 1.0)"@
            &&& p.eye_halo@ == "rgba(196, 77, 47, 0.35)"@
        },
        Theme::Midnight => {
            &&& p.clear@ == "rgba(18, 14, 24, 1.0)"@
            &&& p.primary@ == "rgba(196, 161, 255, 1.0)"@
            &&& p.primary_halo@ == "rgba(196, 161, 255, 0.25)"@
            &&& p.secondary@ == "rgba(140, 170, 255, 0.85)"@
            &&& p.secondary_halo@ == "rgba(140, 170, 255, 0.18)"@
            &&& p.eye_fill@ == "rgba(240, 230, 255, 1.0)"@
            &&& p.eye_halo@ == "rgba(196, 161, 255, 0.4)"@
        },
        Theme::Ocean => {
            &&& p.clear@ == "rgba(16, 21, 28, 1.0)"@
            &&& p.primary@ == "rgba(61, 184, 201, 1.0)"@
            &&& p.primary_halo@ == "rgba(61, 184, 201, 0.28)"@
            &&& p.secondary@ == "rgba(100, 200, 255, 0.85)"@
            &&& p.secondary_halo@ == "rgba(100, 200, 255, 0.18)"@
            &&& p.eye_fill@ == "rgba(220, 255, 255, 1.0)"@
            &&& p.eye_halo@ == "rgba(61, 184, 201, 0.45)"@
        },
        Theme::Dark | Theme::System => {
            &&& p.clear@ == "rgba(22, 19, 17, 1.0)"@
            &&& p.primary@ == "rgba(247, 129, 102, 1.0)"@
            &&& p.primary_halo@ == "rgba(247, 129, 102, 0.25)"@
            &&& p.secondary@ == "rgba(120, 190, 255, 0.85)"@
            &&& p.secondary_halo@ == "rgba(120, 190, 255, 0.16)"@
            &&& p.eye_fill@ == "rgba(255, 240, 230, 1.0)"@
            &&& p.eye_halo@ == "rgba(247, 129, 102, 0.42)"@
        },
    }
}

/// The particle colors for a theme (light and sand share one set, dark and system another).
pub fn palette_for(theme: Theme) -> (p: ParticlePalette)
    ensures
        particle_palette_matches(theme, p),
{
    match theme {
        Theme::Light | Theme::Sand => ParticlePalette {
            clear: "rgba(247, 244, 242, 1.0)",
            primary: "rgba(196, 77, 47, 1.0)",
            primary_halo: "rgba(196, 77, 47, 0.22)",
            secondary: "rgba(72, 130, 200, 0.85)",
            secondary_halo: "rgba(72, 130, 200, 0.15)",
            eye_fill: "rgba(255, 248, 240, 1.0)",
            eye_halo: "rgba(196, 77, 47, 0.35)",
        },
        Theme::Midnight => ParticlePalette {
            clear: "rgba(18, 14, 24, 1.0)",
            primary: "rgba(196, 161, 255, 1.0)",
            primary_halo: "rgba(196, 161, 255, 0.25)",
            secondary: "rgba(140, 170, 255, 0.85)",
            secondary_halo: "rgba(140, 170, 255, 0.18)",
            eye_fill: "rgba(240, 230, 255, 1.0)",
            eye_halo: "rgba(196, 161, 255, 0.4)",
        },
        Theme::Ocean => ParticlePalette {
            clear: "rgba(16, 21, 28, 1.0)",
            primary: "rgba(61, 184, 201, 1.0)",
            primary_halo: "rgba(61, 184, 201, 0.28)",
            secondary: "rgba(100, 200, 255, 0.85)",
            secondary_halo: "rgba(100, 200, 255, 0.18)",
            eye_fill: "rgba(220, 255, 255, 1.0)",
            eye_halo: "rgba(61, 184, 201, 0.45)",
        },
        Theme::Dark | Theme::System => ParticlePalette {
            clear: "rgba(22, 19, 17, 1.0)",
            primary: "rgba(247, 129, 102, 1.0)",
            primary_halo: "rgba(247, 129, 102, 0.25)",
            secondary: "rgba(120, 190, 255, 0.85)",
            secondary_halo: "rgba(120, 190, 255, 0.16)",
            eye_fill: "rgba(255, 240, 230, 1.0)",
            eye_halo: "rgba(247, 129, 102, 0.42)",
        },
    }
}

/// The particle color string with index `color_idx`: primary, primary halo, secondary,
/// secondary halo, eye fill, eye halo.
pub fn get_color_str(color_idx: usize, palette: &ParticlePalette) -> (s: &'static str)
    requires
        color_idx < 6,
    ensures
        s == match color_idx {
            0 => palette.primary,
            1 => palette.primary_halo,
            2 => palette.secondary,
            3 => palette.secondary_halo,
            4 => palette.eye_fill,
            _ => palette.eye_halo,
        },
{
    match color_idx {
        0 => palette.primary,
        1 => palette.primary_halo,
        2 => palette.secondary,
        3 => palette.secondary_halo,
        4 => palette.eye_fill,
        _ => palette.eye_halo,
    }
}

} // verus!
