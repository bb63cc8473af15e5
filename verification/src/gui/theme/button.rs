use vstd::prelude::*;
use crate::gui::theme::icon::Icon;
use crate::gui::theme::Palette;

verus! {

/// Colour style of a button.
#[derive(PartialEq, Eq, Structural, Debug, Clone, Copy)]
pub enum Style {
    Primary,
    Secondary,
    Danger,
}

impl Default for Style {
    fn default() -> (s: Self)
        ensures
            s == Style::Primary,
    {
        Style::Primary
    }
}

/// Buttons that draw themselves from the application theme.
pub trait Themed {}

/// The container colour and the colour drawn on it for a filled button of
/// style `style`, as `(background, foreground)`.
pub open spec fn filled_colors(p: Palette, style: Style) -> (u32, u32) {
    match style {
        Style::Primary => (p.primary, p.on_primary),
        Style::Secondary => (p.secondary, p.on_secondary),
        Style::Danger => (p.error, p.on_error),
    }
}

/// The accent colour of style `style`, used by unfilled icon buttons.
pub open spec fn accent_color(p: Palette, style: Style) -> u32 {
    match style {
        Style::Primary => p.primary,
        Style::Secondary => p.secondary,
        Style::Danger => p.error,
    }
}

impl Palette {
    /// `(background, foreground)` of a filled button of style `style`.
    pub fn filled_colors(&self, style: Style) -> (c: (u32, u32))
        ensures
            c == filled_colors(*self, style),
    {
        match style {
            Style::Primary => (self.primary, self.on_primary),
            Style::Secondary => (self.secondary, self.on_secondary),
            Style::Danger => (self.error, self.on_error),
        }
    }

    /// The accent colour of style `style`.
    pub fn accent_color(&self, style: Style) -> (c: u32)
        ensures
            c == accent_color(*self, style),
    {
        match style {
            Style::Primary => self.primary,
            Style::Secondary => self.secondary,
            Style::Danger => self.error,
        }
    }
}

/// Material Design 3 extended floating action button: an icon and a label.
pub struct FAB {
    pub text: String,
    pub icon: Icon,
    pub style: Style,
}

impl FAB {
    /// A primary-styled button with label `text` and icon `icon`.
    pub fn new(text: &str, icon: Icon) -> (b: Self)
        ensures
            b.text@ == text@,
            b.icon == icon,
            b.style == Style::Primary,
    {
        FAB { text: text.to_owned(), icon, style: Style::Primary }
    }

    /// The same button with style `style`.
    pub fn style(self, style: Style) -> (b: Self)
        ensures
            b.text == self.text,
            b.icon == self.icon,
            b.style == style,
    {
        FAB { style, ..self }
    }
}

impl Themed for FAB {}

/// Material Design 3 filled button: a label and an optional leading icon.
pub struct FilledButton {
    pub text: String,
    pub icon: Option<Icon>,
    pub style: Style,
}

impl FilledButton {
    /// A primary-styled button with label `text` and no icon.
    pub fn new(text: &str) -> (b: Self)
        ensures
            b.text@ == text@,
            b.icon is None,
            b.style == Style::Primary,
    {
        FilledButton { text: text.to_owned(), icon: None, style: Style::Primary }
    }

    /// The same button with style `style`.
    pub fn style(self, style: Style) -> (b: Self)
        ensures
            b.text == self.text,
            b.icon == self.icon,
            b.style == style,
    {
        FilledButton { style, ..self }
    }

    /// The same button with leading icon `icon`.
    pub fn icon(self, icon: Icon) -> (b: Self)
        ensures
            b.text == self.text,
            b.icon == Some(icon),
            b.style == self.style,
    {
        FilledButton { icon: Some(icon), ..self }
    }
}

impl Themed for FilledButton {}

/// Material Design 3 icon button, standard or filled.
pub struct IconButton {
    pub icon: Icon,
    pub filled: bool,
    pub style: Style,
}

impl IconButton {
    /// An unfilled, primary-styled button showing `icon`.
    pub fn new(icon: Icon) -> (b: Self)
        ensures
            b.icon == icon,
            !b.filled,
            b.style == Style::Primary,
    {
        IconButton { icon, filled: false, style: Style::Primary }
    }

    /// The same button, filled or not.
    pub fn filled(self, filled: bool) -> (b: Self)
        ensures
            b.icon == self.icon,
            b.filled == filled,
            b.style == self.style,
    {
        IconButton { filled, ..self }
    }

    /// The same button with style `style`.
    pub fn style(self, style: Style) -> (b: Self)
        ensures
            b.icon == self.icon,
            b.filled == self.filled,
            b.style == style,
    {
        IconButton { style, ..self }
    }
}

impl Themed for IconButton {}

} // verus!
