//! The colours of the window, for light and for dark themes.

use vstd::prelude::*;

verus! {

/// A colour.
#[derive(Debug, Clone, Copy, PartialEq, Eq, Structural)]
pub struct Rgb {
    pub r: u8,
    pub g: u8,
    pub b: u8,
}

/// The colours of a theme.
#[derive(Debug, Clone, Copy, PartialEq, Eq, Structural)]
pub struct Palette {
    pub bg: Rgb,
    pub panel: Rgb,
    pub text: Rgb,
    pub accent: Rgb,
    pub accent_hover: Rgb,
    pub accent_active: Rgb,
    pub on_accent: Rgb,
    pub soft_btn: Rgb,
    /// The buttons at the foot of the window.
    pub util_btn: Rgb,
    pub on_util: Rgb,
    pub error: Rgb,
    pub ok: Rgb,
    pub tip_bg: Rgb,
    pub tip_text: Rgb,
}

/// What a colour is used for in a message.
#[derive(Debug, Clone, Copy, PartialEq, Eq, Structural)]
pub enum Role {
    Text,
    Accent,
    Error,
    Good,
}

/// The colour of these parts.
pub open spec fn rgb_of(r: u8, g: u8, b: u8) -> Rgb {
    Rgb { r, g, b }
}

/// The colours of the dark or of the light theme.
pub open spec fn palette(dark: bool) -> Palette {
    if dark {
        Palette {
            bg: rgb_of(28, 40, 56),
            panel: rgb_of(36, 52, 72),
            text: rgb_of(220, 234, 248),
            accent: rgb_of(110, 168, 220),
            accent_hover: rgb_of(130, 185, 230),
            accent_active: rgb_of(80, 140, 195),
            on_accent: rgb_of(16, 28, 42),
            soft_btn: rgb_of(52, 78, 108),
            util_btn: rgb_of(46, 125, 90),
            on_util: rgb_of(230, 255, 240),
            error: rgb_of(255, 150, 150),
            ok: rgb_of(140, 220, 170),
            tip_bg: rgb_of(20, 32, 48),
            tip_text: rgb_of(235, 244, 255),
        }
    } else {
        Palette {
            bg: rgb_of(245, 250, 255),
            panel: rgb_of(236, 245, 255),
            text: rgb_of(18, 52, 86),
            accent: rgb_of(37, 99, 160),
            accent_hover: rgb_of(56, 130, 200),
            accent_active: rgb_of(25, 80, 140),
            on_accent: rgb_of(245, 250, 255),
            soft_btn: rgb_of(210, 230, 248),
            util_btn: rgb_of(56, 142, 100),
            on_util: rgb_of(245, 255, 248),
            error: rgb_of(170, 35, 45),
            ok: rgb_of(20, 110, 60),
            tip_bg: rgb_of(252, 254, 255),
            tip_text: rgb_of(18, 52, 86),
        }
    }
}

fn rgb(r: u8, g: u8, b: u8) -> (c: Rgb)
    ensures
        c == rgb_of(r, g, b),
{
    Rgb { r, g, b }
}

impl Palette {
    /// The colours of the dark or of the light theme.
    pub fn for_dark(dark: bool) -> (r: Self)
        ensures
            r == palette(dark),
    {
        if dark {
            Palette {
                bg: rgb(28, 40, 56),
                panel: rgb(36, 52, 72),
                text: rgb(220, 234, 248),
                accent: rgb(110, 168, 220),
                accent_hover: rgb(130, 185, 230),
                accent_active: rgb(80, 140, 195),
                on_accent: rgb(16, 28, 42),
                soft_btn: rgb(52, 78, 108),
                util_btn: rgb(46, 125, 90),
                on_util: rgb(230, 255, 240),
                error: rgb(255, 150, 150),
                ok: rgb(140, 220, 170),
                tip_bg: rgb(20, 32, 48),
                tip_text: rgb(235, 244, 255),
            }
        } else {
            Palette {
                bg: rgb(245, 250, 255),
                panel: rgb(236, 245, 255),
                text: rgb(18, 52, 86),
                accent: rgb(37, 99, 160),
                accent_hover: rgb(56, 130, 200),
                accent_active: rgb(25, 80, 140),
                on_accent: rgb(245, 250, 255),
                soft_btn: rgb(210, 230, 248),
                util_btn: rgb(56, 142, 100),
                on_util: rgb(245, 255, 248),
                error: rgb(170, 35, 45),
                ok: rgb(20, 110, 60),
                tip_bg: rgb(252, 254, 255),
                tip_text: rgb(18, 52, 86),
            }
        }
    }

    /// The colour for a message.
    pub fn of(&self, role: Role) -> (r: Rgb)
        ensures
            r == match role {
                Role::Text => self.text,
                Role::Accent => self.accent,
                Role::Error => self.error,
                Role::Good => self.ok,
            },
    {
        match role {
            Role::Text => self.text,
            Role::Accent => self.accent,
            Role::Error => self.error,
            Role::Good => self.ok,
        }
    }
}

/// How bright a colour is, in thousandths.
pub open spec fn brightness(c: Rgb) -> int {
    299 * c.r + 587 * c.g + 114 * c.b
}

/// The brightness of two colours is far enough apart to read the one on the other.
pub open spec fn readable(a: Rgb, b: Rgb) -> bool {
    brightness(a) - brightness(b) >= 125_000 || brightness(b) - brightness(a) >= 125_000
}

/// Texts and tips can be read in both themes.
pub proof fn law_texts_can_be_read(dark: bool)
    ensures
        readable(palette(dark).text, palette(dark).panel),
        readable(palette(dark).text, palette(dark).bg),
        readable(palette(dark).tip_text, palette(dark).tip_bg),
{
}

} // verus!
