use vstd::prelude::*;
use crate::gui::theme::Palette;

verus! {

/// Colour of an SVG image.
#[derive(PartialEq, Eq, Structural, Debug, Clone, Copy)]
pub enum Color {
    OnSurface,
    OnPrimary,
    OnSecondary,
    OnError,
}

impl Default for Color {
    fn default() -> (s: Self)
        ensures
            s == Color::OnSurface,
    {
        Color::OnSurface
    }
}

impl Palette {
    /// The colour an SVG image of colour role `color` is drawn in.
    pub fn svg_color(&self, color: Color) -> (c: u32)
        ensures
            color == Color::OnSurface ==> c == self.on_surface,
            color == Color::OnPrimary ==> c == self.on_primary,
            color == Color::OnSecondary ==> c == self.on_secondary,
            color == Color::OnError ==> c == self.on_error,
    {
        match color {
            Color::OnSurface => self.on_surface,
            Color::OnPrimary => self.on_primary,
            Color::OnSecondary => self.on_secondary,
            Color::OnError => self.on_error,
        }
    }
}

/// An SVG image from the resource directory, drawn in one theme colour.
pub struct Svg {
    pub svg: String,
    pub color: Color,
}

impl Svg {
    /// The image in file `svg`, in the default colour.
    pub fn new(svg: String) -> (s: Self)
        ensures
            s.svg == svg,
            s.color == Color::OnSurface,
    {
        Svg { svg, color: Color::OnSurface }
    }

    /// The same image in colour `color`.
    pub fn color(self, color: Color) -> (s: Self)
        ensures
            s.svg == self.svg,
            s.color == color,
    {
        Svg { color, ..self }
    }
}

} // verus!
