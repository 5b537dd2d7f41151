//! Style sheet: colors, fonts and layout switches shared by all views.

use vstd::prelude::*;

verus! {

/// An opaque RGB color.
#[derive(Debug, Clone, Copy, PartialEq, Eq, Structural)]
pub struct Color {
    pub r: u8,
    pub g: u8,
    pub b: u8,
}

impl Color {
    pub fn new(r: u8, g: u8, b: u8) -> (c: Color)
        ensures
            c == (Color { r, g, b }),
    {
        Color { r, g, b }
    }

    /// Approximate luminance on a 0..=255 scale, integer-weighted.
    pub open spec fn spec_luminance(self) -> int {
        (77 * self.r + 150 * self.g + 29 * self.b) / 256
    }

    /// A color is dark when its luminance is below half scale.
    pub open spec fn spec_is_dark(self) -> bool {
        self.spec_luminance() < 128
    }

    pub fn is_dark(&self) -> (b: bool)
        ensures
            b == self.spec_is_dark(),
    {
        let lum: u32 = (77 * (self.r as u32) + 150 * (self.g as u32) + 29 * (self.b as u32)) / 256;
        lum < 128
    }
}

/// A font choice: path of the font file and its pixel size.
#[derive(Debug, PartialEq, Eq)]
pub struct StylesheetFont {
    pub path: String,
    pub size: u32,
}

/// Color roles a view may pick from the style sheet.
#[derive(Debug, Clone, Copy, PartialEq, Eq, Structural)]
pub enum StylesheetColor {
    Highlight,
    Foreground,
    Background,
    Disabled,
    Tab,
    TabSelected,
    ButtonA,
    ButtonB,
    ButtonX,
    ButtonY,
}

/// The active style sheet. Font-size factors are stored as percentages so
/// that layout arithmetic stays integral.
#[derive(Debug, PartialEq, Eq)]
pub struct Stylesheet {
    pub ui_font: StylesheetFont,
    pub guide_font: StylesheetFont,
    pub tab_font_size_pct: u32,
    pub status_bar_font_size_pct: u32,
    pub button_hint_font_size_pct: u32,
    pub highlight_color: Color,
    pub foreground_color: Color,
    pub background_color: Color,
    pub disabled_color: Color,
    pub tab_color: Color,
    pub tab_selected_color: Color,
    pub button_a_color: Color,
    pub button_b_color: Color,
    pub button_x_color: Color,
    pub button_y_color: Color,
    pub show_battery_level: bool,
    pub show_clock: bool,
    pub use_recents_carousel: bool,
}

impl Stylesheet {
    /// Picks the color for a role.
    pub fn color(&self, which: StylesheetColor) -> (c: Color)
        ensures
            c == self.spec_color(which),
    {
        match which {
            StylesheetColor::Highlight => self.highlight_color,
            StylesheetColor::Foreground => self.foreground_color,
            StylesheetColor::Background => self.background_color,
            StylesheetColor::Disabled => self.disabled_color,
            StylesheetColor::Tab => self.tab_color,
            StylesheetColor::TabSelected => self.tab_selected_color,
            StylesheetColor::ButtonA => self.button_a_color,
            StylesheetColor::ButtonB => self.button_b_color,
            StylesheetColor::ButtonX => self.button_x_color,
            StylesheetColor::ButtonY => self.button_y_color,
        }
    }

    pub open spec fn spec_color(self, which: StylesheetColor) -> Color {
        match which {
            StylesheetColor::Highlight => self.highlight_color,
            StylesheetColor::Foreground => self.foreground_color,
            StylesheetColor::Background => self.background_color,
            StylesheetColor::Disabled => self.disabled_color,
            StylesheetColor::Tab => self.tab_color,
            StylesheetColor::TabSelected => self.tab_selected_color,
            StylesheetColor::ButtonA => self.button_a_color,
            StylesheetColor::ButtonB => self.button_b_color,
            StylesheetColor::ButtonX => self.button_x_color,
            StylesheetColor::ButtonY => self.button_y_color,
        }
    }

    /// Swaps foreground and background, turning a light theme dark and a
    /// dark theme light. Every other field is kept.
    pub fn toggle_dark_mode(&mut self)
        ensures
            *final(self) == (Stylesheet {
                foreground_color: old(self).background_color,
                background_color: old(self).foreground_color,
                ..*old(self)
            }),
    {
        let fg = self.foreground_color;
        self.foreground_color = self.background_color;
        self.background_color = fg;
    }

    pub fn toggle_battery_percentage(&mut self)
        ensures
            *final(self) == (Stylesheet {
                show_battery_level: !old(self).show_battery_level,
                ..*old(self)
            }),
    {
        self.show_battery_level = !self.show_battery_level;
    }

    pub fn toggle_clock(&mut self)
        ensures
            *final(self) == (Stylesheet { show_clock: !old(self).show_clock, ..*old(self) }),
    {
        self.show_clock = !self.show_clock;
    }
}

impl Clone for StylesheetFont {
    fn clone(&self) -> (res: Self)
        ensures
            res == *self,
    {
        StylesheetFont { path: self.path.clone(), size: self.size }
    }
}

impl Clone for Stylesheet {
    fn clone(&self) -> (res: Self)
        ensures
            res == *self,
    {
        Stylesheet {
            ui_font: self.ui_font.clone(),
            guide_font: self.guide_font.clone(),
            tab_font_size_pct: self.tab_font_size_pct,
            status_bar_font_size_pct: self.status_bar_font_size_pct,
            button_hint_font_size_pct: self.button_hint_font_size_pct,
            highlight_color: self.highlight_color,
            foreground_color: self.foreground_color,
            background_color: self.background_color,
            disabled_color: self.disabled_color,
            tab_color: self.tab_color,
            tab_selected_color: self.tab_selected_color,
            button_a_color: self.button_a_color,
            button_b_color: self.button_b_color,
            button_x_color: self.button_x_color,
            button_y_color: self.button_y_color,
            show_battery_level: self.show_battery_level,
            show_clock: self.show_clock,
            use_recents_carousel: self.use_recents_carousel,
        }
    }
}

} // verus!
