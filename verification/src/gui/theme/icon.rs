use vstd::prelude::*;
use crate::text::push_char;

verus! {

/// Material Design icons used by the interface.
#[derive(PartialEq, Eq, Structural, Debug, Clone, Copy)]
pub enum Icon {
    ContentCopy,
    PlayCircle,
    StopCircle,
    Link,
    Group,
    Close,
    Done,
    PersonRemove,
}

/// The code point of an icon's glyph in the Material Icons font.
pub open spec fn icon_code(icon: Icon) -> u32 {
    match icon {
        Icon::ContentCopy => 0xe14d,
        Icon::PlayCircle => 0xe1c4,
        Icon::StopCircle => 0xef71,
        Icon::Link => 0xe157,
        Icon::Group => 0xe7ef,
        Icon::Close => 0xe5cd,
        Icon::Done => 0xe876,
        Icon::PersonRemove => 0xef66,
    }
}

impl Icon {
    /// The glyph of this icon in the Material Icons font.
    pub fn glyph(&self) -> (c: char)
        ensures
            c as u32 == icon_code(*self),
    {
        match self {
            Icon::ContentCopy => '\u{e14d}',
            Icon::PlayCircle => '\u{e1c4}',
            Icon::StopCircle => '\u{ef71}',
            Icon::Link => '\u{e157}',
            Icon::Group => '\u{e7ef}',
            Icon::Close => '\u{e5cd}',
            Icon::Done => '\u{e876}',
            Icon::PersonRemove => '\u{ef66}',
        }
    }

    /// The glyph as a one-character string.
    pub fn to_string(&self) -> (s: String)
        ensures
            s@.len() == 1,
            s@[0] as u32 == icon_code(*self),
    {
        let mut s = String::new();
        push_char(&mut s, self.glyph());
        s
    }
}

} // verus!
