//! Color themes for the display: a set of named palettes the operator can
//! cycle through.  Colors are plain red-green-blue triples; turning them
//! into a terminal backend's color type is the caller's business.

use vstd::prelude::*;

verus! {

/// A red-green-blue color.
#[derive(Clone, Copy, Debug, PartialEq, Eq, Structural)]
pub struct Rgb {
    pub r: u8,
    pub g: u8,
    pub b: u8,
}

/// The available palettes.
#[derive(Clone, Copy, Debug, PartialEq, Eq, Structural)]
pub enum ThemeVariant {
    Zinc,
    Nord,
    Cyberpunk,
    SolarizedDark,
}

impl ThemeVariant {
    /// The variant after this one in the cycle.
    pub open spec fn spec_cycle(self) -> ThemeVariant {
        match self {
            ThemeVariant::Zinc => ThemeVariant::Nord,
            ThemeVariant::Nord => ThemeVariant::Cyberpunk,
            ThemeVariant::Cyberpunk => ThemeVariant::SolarizedDark,
            ThemeVariant::SolarizedDark => ThemeVariant::Zinc,
        }
    }

    /// Step to the next palette; four steps return to the start.
    pub fn cycle(&self) -> (r: Self)
        ensures
            r == self.spec_cycle(),
    {
        match self {
            Self::Zinc => Self::Nord,
            Self::Nord => Self::Cyberpunk,
            Self::Cyberpunk => Self::SolarizedDark,
            Self::SolarizedDark => Self::Zinc,
        }
    }

    /// The palette's display name.
    pub open spec fn spec_name(self) -> Seq<char> {
        match self {
            ThemeVariant::Zinc => "Zinc"@,
            ThemeVariant::Nord => "Nord"@,
            ThemeVariant::Cyberpunk => "Cyberpunk"@,
            ThemeVariant::SolarizedDark => "Solarized Dark"@,
        }
    }

    pub fn name(&self) -> (r: &'static str)
        ensures
            r@ == self.spec_name(),
    {
        match self {
            Self::Zinc => "Zinc",
            Self::Nord => "Nord",
            Self::Cyberpunk => "Cyberpunk",
            Self::SolarizedDark => "Solarized Dark",
        }
    }
}

/// One palette: the colors each part of the display is drawn with.
#[derive(Clone, Copy, Debug, PartialEq, Eq, Structural)]
pub struct Theme {
    pub variant: ThemeVariant,
    pub bg_primary: Rgb,
    pub bg_secondary: Rgb,
    pub text_main: Rgb,
    pub text_muted: Rgb,
    pub border_focus: Rgb,
    pub border_dim: Rgb,
    pub status_success: Rgb,
    pub status_warning: Rgb,
    pub status_error: Rgb,
    pub status_info: Rgb,
}

impl Theme {
    /// The color table of each palette.
    pub open spec fn spec_new(variant: ThemeVariant) -> Theme {
        match variant {
            ThemeVariant::Zinc => Theme {
                variant,
                bg_primary: Rgb { r: 9, g: 9, b: 11 },
                bg_secondary: Rgb { r: 24, g: 24, b: 27 },
                text_main: Rgb { r: 244, g: 244, b: 245 },
                text_muted: Rgb { r: 161, g: 161, b: 170 },
                border_focus: Rgb { r: 63, g: 63, b: 70 },
                border_dim: Rgb { r: 39, g: 39, b: 42 },
                status_success: Rgb { r: 34, g: 197, b: 94 },
                status_warning: Rgb { r: 234, g: 179, b: 8 },
                status_error: Rgb { r: 239, g: 68, b: 68 },
                status_info: Rgb { r: 59, g: 130, b: 246 },
            },
            ThemeVariant::Nord => Theme {
                variant,
                bg_primary: Rgb { r: 46, g: 52, b: 64 },
                bg_secondary: Rgb { r: 59, g: 66, b: 82 },
                text_main: Rgb { r: 236, g: 239, b: 244 },
                text_muted: Rgb { r: 216, g: 222, b: 233 },
                border_focus: Rgb { r: 136, g: 192, b: 208 },
                border_dim: Rgb { r: 76, g: 86, b: 106 },
                status_success: Rgb { r: 163, g: 190, b: 140 },
                status_warning: Rgb { r: 235, g: 203, b: 139 },
                status_error: Rgb { r: 191, g: 97, b: 106 },
                status_info: Rgb { r: 94, g: 129, b: 172 },
            },
            ThemeVariant::Cyberpunk => Theme {
                variant,
                bg_primary: Rgb { r: 10, g: 10, b: 15 },
                bg_secondary: Rgb { r: 30, g: 30, b: 40 },
                text_main: Rgb { r: 255, g: 0, b: 255 },
                text_muted: Rgb { r: 0, g: 255, b: 255 },
                border_focus: Rgb { r: 255, g: 255, b: 0 },
                border_dim: Rgb { r: 100, g: 0, b: 100 },
                status_success: Rgb { r: 0, g: 255, b: 100 },
                status_warning: Rgb { r: 255, g: 150, b: 0 },
                status_error: Rgb { r: 255, g: 0, b: 50 },
                status_info: Rgb { r: 0, g: 200, b: 255 },
            },
            ThemeVariant::SolarizedDark => Theme {
                variant,
                bg_primary: Rgb { r: 0, g: 43, b: 54 },
                bg_secondary: Rgb { r: 7, g: 54, b: 66 },
                text_main: Rgb { r: 131, g: 148, b: 150 },
                text_muted: Rgb { r: 88, g: 110, b: 117 },
                border_focus: Rgb { r: 42, g: 161, b: 152 },
                border_dim: Rgb { r: 7, g: 54, b: 66 },
                status_success: Rgb { r: 133, g: 153, b: 0 },
                status_warning: Rgb { r: 181, g: 137, b: 0 },
                status_error: Rgb { r: 220, g: 50, b: 47 },
                status_info: Rgb { r: 38, g: 139, b: 210 },
            },
        }
    }

    /// The palette for a variant.
    pub fn new(variant: ThemeVariant) -> (r: Self)
        ensures
            r == Theme::spec_new(variant),
    {
        match variant {
            ThemeVariant::Zinc => Self {
                variant,
                bg_primary: Rgb { r: 9, g: 9, b: 11 },
                bg_secondary: Rgb { r: 24, g: 24, b: 27 },
                text_main: Rgb { r: 244, g: 244, b: 245 },
                text_muted: Rgb { r: 161, g: 161, b: 170 },
                border_focus: Rgb { r: 63, g: 63, b: 70 },
                border_dim: Rgb { r: 39, g: 39, b: 42 },
                status_success: Rgb { r: 34, g: 197, b: 94 },
                status_warning: Rgb { r: 234, g: 179, b: 8 },
                status_error: Rgb { r: 239, g: 68, b: 68 },
                status_info: Rgb { r: 59, g: 130, b: 246 },
            },
            ThemeVariant::Nord => Self {
                variant,
                bg_primary: Rgb { r: 46, g: 52, b: 64 },
                bg_secondary: Rgb { r: 59, g: 66, b: 82 },
                text_main: Rgb { r: 236, g: 239, b: 244 },
                text_muted: Rgb { r: 216, g: 222, b: 233 },
                border_focus: Rgb { r: 136, g: 192, b: 208 },
                border_dim: Rgb { r: 76, g: 86, b: 106 },
                status_success: Rgb { r: 163, g: 190, b: 140 },
                status_warning: Rgb { r: 235, g: 203, b: 139 },
                status_error: Rgb { r: 191, g: 97, b: 106 },
                status_info: Rgb { r: 94, g: 129, b: 172 },
            },
            ThemeVariant::Cyberpunk => Self {
                variant,
                bg_primary: Rgb { r: 10, g: 10, b: 15 },
                bg_secondary: Rgb { r: 30, g: 30, b: 40 },
                text_main: Rgb { r: 255, g: 0, b: 255 },
                text_muted: Rgb { r: 0, g: 255, b: 255 },
                border_focus: Rgb { r: 255, g: 255, b: 0 },
                border_dim: Rgb { r: 100, g: 0, b: 100 },
                status_success: Rgb { r: 0, g: 255, b: 100 },
                status_warning: Rgb { r: 255, g: 150, b: 0 },
                status_error: Rgb { r: 255, g: 0, b: 50 },
                status_info: Rgb { r: 0, g: 200, b: 255 },
            },
            ThemeVariant::SolarizedDark => Self {
                variant,
                bg_primary: Rgb { r: 0, g: 43, b: 54 },
                bg_secondary: Rgb { r: 7, g: 54, b: 66 },
                text_main: Rgb { r: 131, g: 148, b: 150 },
                text_muted: Rgb { r: 88, g: 110, b: 117 },
                border_focus: Rgb { r: 42, g: 161, b: 152 },
                border_dim: Rgb { r: 7, g: 54, b: 66 },
                status_success: Rgb { r: 133, g: 153, b: 0 },
                status_warning: Rgb { r: 181, g: 137, b: 0 },
                status_error: Rgb { r: 220, g: 50, b: 47 },
                status_info: Rgb { r: 38, g: 139, b: 210 },
            },
        }
    }

    /// The palette shown before the operator cycles anywhere.
    pub fn default() -> (r: Self)
        ensures
            r == Theme::spec_new(ThemeVariant::Zinc),
    {
        Self::new(ThemeVariant::Zinc)
    }
}

} // verus!
