use vstd::prelude::*;
use crate::gui::theme::Palette;

verus! {

/// Style of a container.
#[derive(PartialEq, Eq, Structural, Debug, Clone, Copy)]
pub enum Style {
    /// No decoration.
    Default,
    /// Material Design 3 outlined card.
    OutlinedCard,
}

impl Default for Style {
    fn default() -> (s: Self)
        ensures
            s == Style::Default,
    {
        Style::Default
    }
}

/// An outlined card's fill, border colour, corner radius and border width.
#[derive(PartialEq, Eq, Structural, Debug, Clone, Copy)]
pub struct CardLook {
    pub background: u32,
    pub border_color: u32,
    pub border_radius: u32,
    pub border_width: u32,
}

impl Palette {
    /// The decoration of a container of style `style`: `None` for none.
    pub fn container_look(&self, style: Style) -> (l: Option<CardLook>)
        ensures
            style == Style::Default ==> l is None,
            style == Style::OutlinedCard ==> l == Some(
                CardLook {
                    background: self.surface,
                    border_color: self.outline,
                    border_radius: 12,
                    border_width: 1,
                },
            ),
    {
        match style {
            Style::Default => None,
            Style::OutlinedCard => Some(
                CardLook {
                    background: self.surface,
                    border_color: self.outline,
                    border_radius: 12,
                    border_width: 1,
                },
            ),
        }
    }

}

} // verus!
