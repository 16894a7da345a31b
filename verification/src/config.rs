//! Themes, layout constants, and system font path candidates.

use vstd::prelude::*;
use crate::color::Color;
use vstd::string::StringExecFns;

verus! {

// Spacing scale, in pixels.
pub const SPACING_XS: i64 = 4;
pub const SPACING_SM: i64 = 8;
pub const SPACING_MD: i64 = 16;
pub const SPACING_LG: i64 = 24;
pub const SPACING_XL: i64 = 32;
pub const SPACING_XXL: i64 = 48;

// Font size scale, in pixels.
pub const FONT_SIZE_XS: i64 = 12;
pub const FONT_SIZE_SM: i64 = 14;
pub const FONT_SIZE_MD: i64 = 16;
pub const FONT_SIZE_LG: i64 = 18;
pub const FONT_SIZE_XL: i64 = 24;
pub const FONT_SIZE_XXL: i64 = 32;
pub const FONT_SIZE_XXXL: i64 = 48;

// Component metrics, in pixels.
pub const BUTTON_HEIGHT: i64 = 40;
pub const BUTTON_HEIGHT_LARGE: i64 = 48;
pub const BUTTON_HEIGHT_SMALL: i64 = 32;
pub const BUTTON_PADDING_X: i64 = 16;
pub const BUTTON_BORDER_RADIUS: i64 = 8;
pub const CARD_PADDING: i64 = 16;
pub const CARD_BORDER_RADIUS: i64 = 12;
pub const CARD_SHADOW_BLUR: i64 = 4;
pub const CARD_SHADOW_OFFSET_Y: i64 = 2;
pub const SIDEBAR_WIDTH: i64 = 260;
pub const SIDEBAR_PADDING: i64 = 25;
pub const SIDEBAR_ITEM_HEIGHT: i64 = 45;
pub const SIDEBAR_ITEM_BORDER_RADIUS: i64 = 8;
pub const STAT_CARD_WIDTH: i64 = 260;
pub const STAT_CARD_HEIGHT: i64 = 120;
pub const DIVIDER_HEIGHT: i64 = 1;
pub const DIVIDER_MARGIN_Y: i64 = 15;
pub const SCROLLBAR_WIDTH: i64 = 8;
pub const SCROLLBAR_MIN_HEIGHT: i64 = 32;

// Text alpha tiers.
pub const TEXT_ALPHA_PRIMARY: u8 = 255;
pub const TEXT_ALPHA_SECONDARY: u8 = 180;
pub const TEXT_ALPHA_TERTIARY: u8 = 140;
pub const TEXT_ALPHA_DISABLED: u8 = 100;

/// Default length of a hover fade, in milliseconds.
pub const ANIMATION_DURATION_MS: i64 = 150;

/// Name of the font looked for when the host names none.
pub const DEFAULT_FONT_NAME: &'static str = "Arial";

/// The color palette of a theme.
#[derive(Clone, Copy, Debug, PartialEq, Eq, Structural)]
pub struct ThemeColors {
    pub background: Color,
    pub surface: Color,
    pub surface_hover: Color,
    pub primary: Color,
    pub primary_hover: Color,
    pub success: Color,
    pub error: Color,
    pub text_primary: Color,
    pub text_secondary: Color,
    pub text_muted: Color,
    pub border: Color,
    pub shadow: Color,
}

/// The spacing scale of a theme, in pixels.
#[derive(Clone, Copy, Debug, PartialEq, Eq, Structural)]
pub struct ThemeSpacing {
    pub xs: i64,
    pub sm: i64,
    pub md: i64,
    pub lg: i64,
    pub xl: i64,
    pub xxl: i64,
}

impl Default for ThemeSpacing {
    /// The standard spacing scale.
    fn default() -> (s: Self)
        ensures
            s == (ThemeSpacing { xs: 4, sm: 8, md: 16, lg: 24, xl: 32, xxl: 48 }),
    {
        ThemeSpacing { xs: 4, sm: 8, md: 16, lg: 24, xl: 32, xxl: 48 }
    }
}

/// The corner radius scale of a theme, in pixels.
#[derive(Clone, Copy, Debug, PartialEq, Eq, Structural)]
pub struct ThemeRadius {
    pub none: i64,
    pub sm: i64,
    pub md: i64,
    pub lg: i64,
    pub full: i64,
}

impl Default for ThemeRadius {
    /// The standard radius scale.
    fn default() -> (r: Self)
        ensures
            r == (ThemeRadius { none: 0, sm: 4, md: 8, lg: 12, full: 9999 }),
    {
        ThemeRadius { none: 0, sm: 4, md: 8, lg: 12, full: 9999 }
    }
}

/// A complete theme: palette plus spacing and radius scales.
#[derive(Clone, Copy, Debug)]
pub struct Theme {
    pub name: &'static str,
    pub colors: ThemeColors,
    pub spacing: ThemeSpacing,
    pub radius: ThemeRadius,
}

/// The palette of the dark theme.
pub open spec fn dark_colors() -> ThemeColors {
    ThemeColors {
        background: Color { r: 15, g: 23, b: 42, a: 255 },
        surface: Color { r: 30, g: 41, b: 59, a: 255 },
        surface_hover: Color { r: 51, g: 65, b: 85, a: 255 },
        primary: Color { r: 79, g: 70, b: 229, a: 255 },
        primary_hover: Color { r: 99, g: 102, b: 241, a: 255 },
        success: Color { r: 16, g: 185, b: 129, a: 255 },
        error: Color { r: 244, g: 63, b: 94, a: 255 },
        text_primary: Color { r: 255, g: 255, b: 255, a: 255 },
        text_secondary: Color { r: 148, g: 163, b: 184, a: 255 },
        text_muted: Color { r: 71, g: 85, b: 105, a: 255 },
        border: Color { r: 51, g: 65, b: 85, a: 255 },
        shadow: Color { r: 0, g: 0, b: 0, a: 80 },
    }
}

/// The palette of the light theme.
pub open spec fn light_colors() -> ThemeColors {
    ThemeColors {
        background: Color { r: 248, g: 250, b: 252, a: 255 },
        surface: Color { r: 255, g: 255, b: 255, a: 255 },
        surface_hover: Color { r: 241, g: 245, b: 249, a: 255 },
        primary: Color { r: 59, g: 130, b: 246, a: 255 },
        primary_hover: Color { r: 37, g: 99, b: 235, a: 255 },
        success: Color { r: 22, g: 163, b: 74, a: 255 },
        error: Color { r: 220, g: 38, b: 38, a: 255 },
        text_primary: Color { r: 15, g: 23, b: 42, a: 255 },
        text_secondary: Color { r: 71, g: 85, b: 105, a: 255 },
        text_muted: Color { r: 148, g: 163, b: 184, a: 255 },
        border: Color { r: 226, g: 232, b: 240, a: 255 },
        shadow: Color { r: 0, g: 0, b: 0, a: 25 },
    }
}

impl Theme {
    /// The built-in dark theme.
    pub fn dark() -> (t: Theme)
        ensures
            t.name@ == "Dark"@,
            t.colors == dark_colors(),
            t.spacing == (ThemeSpacing { xs: 4, sm: 8, md: 16, lg: 24, xl: 32, xxl: 48 }),
            t.radius == (ThemeRadius { none: 0, sm: 4, md: 8, lg: 12, full: 9999 }),
    {
        Theme {
            name: "Dark",
            colors: ThemeColors {
                background: Color { r: 15, g: 23, b: 42, a: 255 },
                surface: Color { r: 30, g: 41, b: 59, a: 255 },
                surface_hover: Color { r: 51, g: 65, b: 85, a: 255 },
                primary: Color { r: 79, g: 70, b: 229, a: 255 },
                primary_hover: Color { r: 99, g: 102, b: 241, a: 255 },
                success: Color { r: 16, g: 185, b: 129, a: 255 },
                error: Color { r: 244, g: 63, b: 94, a: 255 },
                text_primary: Color { r: 255, g: 255, b: 255, a: 255 },
                text_secondary: Color { r: 148, g: 163, b: 184, a: 255 },
                text_muted: Color { r: 71, g: 85, b: 105, a: 255 },
                border: Color { r: 51, g: 65, b: 85, a: 255 },
                shadow: Color { r: 0, g: 0, b: 0, a: 80 },
            },
            spacing: ThemeSpacing { xs: 4, sm: 8, md: 16, lg: 24, xl: 32, xxl: 48 },
            radius: ThemeRadius { none: 0, sm: 4, md: 8, lg: 12, full: 9999 },
        }
    }

    /// The built-in light theme.
    pub fn light() -> (t: Theme)
        ensures
            t.name@ == "Light"@,
            t.colors == light_colors(),
            t.spacing == (ThemeSpacing { xs: 4, sm: 8, md: 16, lg: 24, xl: 32, xxl: 48 }),
            t.radius == (ThemeRadius { none: 0, sm: 4, md: 8, lg: 12, full: 9999 }),
    {
        Theme {
            name: "Light",
            colors: ThemeColors {
                background: Color { r: 248, g: 250, b: 252, a: 255 },
                surface: Color { r: 255, g: 255, b: 255, a: 255 },
                surface_hover: Color { r: 241, g: 245, b: 249, a: 255 },
                primary: Color { r: 59, g: 130, b: 246, a: 255 },
                primary_hover: Color { r: 37, g: 99, b: 235, a: 255 },
                success: Color { r: 22, g: 163, b: 74, a: 255 },
                error: Color { r: 220, g: 38, b: 38, a: 255 },
                text_primary: Color { r: 15, g: 23, b: 42, a: 255 },
                text_secondary: Color { r: 71, g: 85, b: 105, a: 255 },
                text_muted: Color { r: 148, g: 163, b: 184, a: 255 },
                border: Color { r: 226, g: 232, b: 240, a: 255 },
                shadow: Color { r: 0, g: 0, b: 0, a: 25 },
            },
            spacing: ThemeSpacing { xs: 4, sm: 8, md: 16, lg: 24, xl: 32, xxl: 48 },
            radius: ThemeRadius { none: 0, sm: 4, md: 8, lg: 12, full: 9999 },
        }
    }

    /// Replaces the whole palette, leaving the scales untouched.
    pub fn set_colors(&mut self, colors: ThemeColors)
        ensures
            *final(self) == (Theme { colors, ..*old(self) }),
    {
        self.colors = colors;
    }
}

impl Default for Theme {
    /// The dark theme.
    fn default() -> (t: Self)
        ensures
            t.name@ == "Dark"@,
            t.colors == dark_colors(),
    {
        Theme::dark()
    }
}

/// The platform whose conventional font directories should be probed.
#[derive(Clone, Copy, Debug, PartialEq, Eq, Structural)]
pub enum Platform {
    Windows,
    MacOs,
    Linux,
}

/// The candidate paths for a system font on a platform, most specific
/// first: the named font in each conventional directory, then (on
/// Windows and macOS) a stock fallback face.  The host probes them in
/// order and loads the first that exists on disk.
pub open spec fn spec_font_candidates(platform: Platform, font_name: Seq<char>) -> Seq<Seq<char>> {
    match platform {
        Platform::Windows => seq![
            "C:\\Windows\\Fonts\\"@ + font_name + ".ttf"@,
            "C:\\Windows\\Fonts\\arial.ttf"@,
        ],
        Platform::MacOs => seq!["/Library/Fonts/"@ + font_name + ".ttf"@, "/Library/Fonts/Helvetica.ttc"@],
        Platform::Linux => seq![
            "/usr/share/fonts/truetype/"@ + font_name + ".ttf"@,
            "/usr/share/fonts/TTF/"@ + font_name + ".ttf"@,
            "/usr/local/share/fonts/"@ + font_name + ".ttf"@,
        ],
    }
}

/// Builds the ordered list of file paths where the named system font may
/// be found on the given platform.
pub fn get_system_font(platform: Platform, font_name: &str) -> (r: Vec<String>)
    ensures
        r@.map_values(|s: String| s@) == spec_font_candidates(platform, font_name@),
{
    let mut out: Vec<String> = Vec::new();
    match platform {
        Platform::Windows => {
            out.push(String::from_str("C:\\Windows\\Fonts\\").concat(font_name).concat(".ttf"));
            out.push(String::from_str("C:\\Windows\\Fonts\\arial.ttf"));
        },
        Platform::MacOs => {
            out.push(String::from_str("/Library/Fonts/").concat(font_name).concat(".ttf"));
            out.push(String::from_str("/Library/Fonts/Helvetica.ttc"));
        },
        Platform::Linux => {
            out.push(String::from_str("/usr/share/fonts/truetype/").concat(font_name).concat(".ttf"));
            out.push(String::from_str("/usr/share/fonts/TTF/").concat(font_name).concat(".ttf"));
            out.push(String::from_str("/usr/local/share/fonts/").concat(font_name).concat(".ttf"));
        },
    }
    proof {
        assert(out@.map_values(|s: String| s@) =~= spec_font_candidates(platform, font_name@));
    }
    out
}

} // verus!
