use vstd::prelude::*;
use crate::gui::theme::Palette;

verus! {

/// Style of a piece of text.
#[derive(PartialEq, Eq, Structural, Debug, Clone, Copy)]
pub enum Style {
    /// Drawn in the default text colour.
    Text,
    /// Drawn in the muted label colour.
    Label,
}

/// Text that themes itself.
pub trait Themed {}

impl Default for Style {
    fn default() -> (s: Self)
        ensures
            s == Style::Text,
    {
        Style::Text
    }
}

impl Palette {
    /// The colour of text of style `style`: `None` for the default colour.
    pub fn text_color(&self, style: Style) -> (c: Option<u32>)
        ensures
            style == Style::Text ==> c is None,
            style == Style::Label ==> c == Some(self.on_surface_variant),
    {
        match style {
            Style::Text => None,
            Style::Label => Some(self.on_surface_variant),
        }
    }

}

} // verus!
