use vstd::prelude::*;

verus! {

/// Style of a text input.
#[derive(PartialEq, Eq, Structural, Debug, Clone, Copy)]
pub enum Style {
    /// Read-only text that can be selected and copied.
    Selectable,
}

impl Default for Style {
    fn default() -> (s: Self)
        ensures
            s == Style::Selectable,
    {
        Style::Selectable
    }
}

} // verus!
