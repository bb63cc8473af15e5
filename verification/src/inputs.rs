use vstd::prelude::*;
use crate::text::{chars_of, chars_equal, starts_with_chars, has_prefix, push_str};

verus! {

/// A key of the controlled machine's keyboard, as the input injector names it.
#[derive(PartialEq, Eq, Structural, Debug, Clone, Copy)]
pub enum Key {
    /// A key that types the given character in the current layout.
    Layout(char),
    Backspace,
    Tab,
    Shift,
    Control,
    Alt,
    CapsLock,
    Escape,
    Space,
    LeftArrow,
    UpArrow,
    RightArrow,
    DownArrow,
    Meta,
    End,
    F1,
    F2,
    F3,
    F4,
    F5,
    F6,
    F7,
    F8,
    F9,
    F10,
    F11,
    F12,
    Delete,
    Home,
    Return,
    PageUp,
    PageDown,
}

/// A mouse button named in a remote input message.
#[derive(PartialEq, Eq, Structural, Debug, Clone, Copy)]
pub enum MouseButton {
    Left,
    Right,
    Middle,
}

/// Why a browser key code could not be mapped to a key.
#[derive(Debug)]
pub enum KeyError {
    /// The code names no supported key; the code is kept.
    UnknownKey(String),
}

impl KeyError {
    /// The text that reports the error: `Unknown key: ` and the code.
    pub fn message(&self) -> (m: String)
        ensures
            match self {
                KeyError::UnknownKey(code) => m@ == "Unknown key: "@ + code@,
            },
    {
        match self {
            KeyError::UnknownKey(code) => {
                let mut m = String::new();
                push_str(&mut m, "Unknown key: ");
                push_str(&mut m, code.as_str());
                m
            },
        }
    }
}

/// Conversion from a browser `KeyboardEvent.code` value.
pub trait FromJsKey {
    /// The key that the browser key code `s` stands for.
    fn from_js_key(s: &str) -> Result<Self, KeyError> where Self: Sized;
}

/// ASCII upper-case letters mapped to lower case; every other character kept.
pub open spec fn ascii_lower(c: char) -> char {
    if 'A' <= c && c <= 'Z' {
        ((c as u32) + 32) as char
    } else {
        c
    }
}

/// The key named by a code that is neither a digit, a numpad digit nor a letter.
/// Codes of keys that are not supported (Pause, NumLock, ContextMenu, most of the
/// numpad) name none; left and right modifiers are not told apart.
pub open spec fn named_key(name: Seq<char>) -> Option<Key> {
    if name == "Backspace"@ {
        Some(Key::Backspace)
    } else if name == "Tab"@ {
        Some(Key::Tab)
    } else if name == "ShiftLeft"@ {
        Some(Key::Shift)
    } else if name == "ShiftRight"@ {
        Some(Key::Shift)
    } else if name == "ControlLeft"@ {
        Some(Key::Control)
    } else if name == "ControlRight"@ {
        Some(Key::Control)
    } else if name == "AltLeft"@ {
        Some(Key::Alt)
    } else if name == "AltRight"@ {
        Some(Key::Alt)
    } else if name == "CapsLock"@ {
        Some(Key::CapsLock)
    } else if name == "Escape"@ {
        Some(Key::Escape)
    } else if name == "Space"@ {
        Some(Key::Space)
    } else if name == "ArrowLeft"@ {
        Some(Key::LeftArrow)
    } else if name == "ArrowUp"@ {
        Some(Key::UpArrow)
    } else if name == "ArrowRight"@ {
        Some(Key::RightArrow)
    } else if name == "ArrowDown"@ {
        Some(Key::DownArrow)
    } else if name == "MetaLeft"@ {
        Some(Key::Meta)
    } else if name == "MetaRight"@ {
        Some(Key::Meta)
    } else if name == "End"@ {
        Some(Key::End)
    } else if name == "F1"@ {
        Some(Key::F1)
    } else if name == "F2"@ {
        Some(Key::F2)
    } else if name == "F3"@ {
        Some(Key::F3)
    } else if name == "F4"@ {
        Some(Key::F4)
    } else if name == "F5"@ {
        Some(Key::F5)
    } else if name == "F6"@ {
        Some(Key::F6)
    } else if name == "F7"@ {
        Some(Key::F7)
    } else if name == "F8"@ {
        Some(Key::F8)
    } else if name == "F9"@ {
        Some(Key::F9)
    } else if name == "F10"@ {
        Some(Key::F10)
    } else if name == "F11"@ {
        Some(Key::F11)
    } else if name == "F12"@ {
        Some(Key::F12)
    } else if name == "BracketLeft"@ {
        Some(Key::Layout('['))
    } else if name == "BracketRight"@ {
        Some(Key::Layout(']'))
    } else if name == "Backslash"@ {
        Some(Key::Layout('\\'))
    } else if name == "Semicolon"@ {
        Some(Key::Layout(';'))
    } else if name == "Backquote"@ {
        Some(Key::Layout('`'))
    } else if name == "Quote"@ {
        Some(Key::Layout('\''))
    } else if name == "Equal"@ {
        Some(Key::Layout('='))
    } else if name == "Minus"@ {
        Some(Key::Layout('-'))
    } else if name == "Comma"@ {
        Some(Key::Layout(','))
    } else if name == "Period"@ {
        Some(Key::Layout('.'))
    } else if name == "Slash"@ {
        Some(Key::Layout('/'))
    } else if name == "Delete"@ {
        Some(Key::Delete)
    } else if name == "Home"@ {
        Some(Key::Home)
    } else if name == "Enter"@ {
        Some(Key::Return)
    } else if name == "PageUp"@ {
        Some(Key::PageUp)
    } else if name == "PageDown"@ {
        Some(Key::PageDown)
    } else {
        None
    }
}

/// The key a browser key code stands for, or `None` when it is not supported.
/// `Digit*` codes, numpad codes of exactly seven bytes and `Key*` codes type
/// their last character (letters lower-cased); all others go by name.
pub open spec fn js_key(s: Seq<char>) -> Option<Key> {
    if has_prefix(s, "Digit"@) || ((vstd::utf8::encode_utf8(s).len() as usize) == 7 && has_prefix(s, "Numpad"@)) {
        Some(Key::Layout(s.last()))
    } else if has_prefix(s, "Key"@) {
        Some(Key::Layout(ascii_lower(s.last())))
    } else {
        named_key(s)
    }
}

/// The ASCII lower-case form of `c`.
fn to_ascii_lower(c: char) -> (res: char)
    ensures
        res == ascii_lower(c),
{
    if 'A' <= c && c <= 'Z' {
        let b: u8 = (c as u32 + 32) as u8;
        b as char
    } else {
        c
    }
}

/// A digit code `Digit<d>` types the digit `d` itself.
pub proof fn law_digit_codes(d: char)
    requires
        '0' <= d <= '9',
    ensures
        js_key("Digit"@.push(d)) == Some(Key::Layout(d)),
{
    reveal_strlit("Digit");
    let s = "Digit"@.push(d);
    assert(s.subrange(0, 5) =~= "Digit"@);
}

/// A letter code `Key<L>` types the lower-case letter.
pub proof fn law_letter_codes(l: char)
    requires
        'A' <= l <= 'Z',
    ensures
        js_key("Key"@.push(l)) == Some(Key::Layout(((l as u32) + 32) as char)),
{
    reveal_strlit("Key");
    reveal_strlit("Digit");
    reveal_strlit("Numpad");
    let s = "Key"@.push(l);
    assert(s.subrange(0, 3) =~= "Key"@);
    assert(s[0] == 'K');
    assert(!has_prefix(s, "Digit"@)) by {
        if has_prefix(s, "Digit"@) {
            assert(s.subrange(0, 5)[0] == 'D');
        }
    }
    assert(!has_prefix(s, "Numpad"@)) by {
        if has_prefix(s, "Numpad"@) {
            assert(s.subrange(0, 6)[0] == 'N');
        }
    }
}

/// The left and right keys of each modifier map to the same key: the
/// codes of the two sides are not told apart.
pub proof fn law_sides_not_distinguished()
    ensures
        named_key("ShiftLeft"@) == Some(Key::Shift),
        named_key("ShiftRight"@) == Some(Key::Shift),
        named_key("ControlLeft"@) == Some(Key::Control),
        named_key("ControlRight"@) == Some(Key::Control),
        named_key("AltLeft"@) == Some(Key::Alt),
        named_key("AltRight"@) == Some(Key::Alt),
        named_key("MetaLeft"@) == Some(Key::Meta),
        named_key("MetaRight"@) == Some(Key::Meta),
{
    assert(named_key("ShiftLeft"@) == Some(Key::Shift) && named_key("ShiftRight"@) == Some(Key::Shift)) by {
        reveal_strlit("Backspace");
        reveal_strlit("Tab");
        reveal_strlit("ShiftLeft");
        reveal_strlit("ShiftRight");
        assert("ShiftLeft"@ != "Backspace"@) by {
            assert("ShiftLeft"@[0] != "Backspace"@[0]);
        }
        assert("ShiftLeft"@ != "Tab"@) by {
            assert("ShiftLeft"@.len() != "Tab"@.len());
        }
        assert("ShiftRight"@ != "Backspace"@) by {
            assert("ShiftRight"@.len() != "Backspace"@.len());
        }
        assert("ShiftRight"@ != "Tab"@) by {
            assert("ShiftRight"@.len() != "Tab"@.len());
        }
        assert("ShiftRight"@ != "ShiftLeft"@) by {
            assert("ShiftRight"@.len() != "ShiftLeft"@.len());
        }
    }
    assert(named_key("ControlLeft"@) == Some(Key::Control) && named_key("ControlRight"@) == Some(Key::Control)) by {
        reveal_strlit("Backspace");
        reveal_strlit("Tab");
        reveal_strlit("ShiftLeft");
        reveal_strlit("ShiftRight");
        reveal_strlit("ControlLeft");
        reveal_strlit("ControlRight");
        assert("ControlLeft"@ != "Backspace"@) by {
            assert("ControlLeft"@.len() != "Backspace"@.len());
        }
        assert("ControlLeft"@ != "Tab"@) by {
            assert("ControlLeft"@.len() != "Tab"@.len());
        }
        assert("ControlLeft"@ != "ShiftLeft"@) by {
            assert("ControlLeft"@.len() != "ShiftLeft"@.len());
        }
        assert("ControlLeft"@ != "ShiftRight"@) by {
            assert("ControlLeft"@.len() != "ShiftRight"@.len());
        }
        assert("ControlRight"@ != "Backspace"@) by {
            assert("ControlRight"@.len() != "Backspace"@.len());
        }
        assert("ControlRight"@ != "Tab"@) by {
            assert("ControlRight"@.len() != "Tab"@.len());
        }
        assert("ControlRight"@ != "ShiftLeft"@) by {
            assert("ControlRight"@.len() != "ShiftLeft"@.len());
        }
        assert("ControlRight"@ != "ShiftRight"@) by {
            assert("ControlRight"@.len() != "ShiftRight"@.len());
        }
        assert("ControlRight"@ != "ControlLeft"@) by {
            assert("ControlRight"@.len() != "ControlLeft"@.len());
        }
    }
    assert(named_key("AltLeft"@) == Some(Key::Alt) && named_key("AltRight"@) == Some(Key::Alt)) by {
        reveal_strlit("Backspace");
        reveal_strlit("Tab");
        reveal_strlit("ShiftLeft");
        reveal_strlit("ShiftRight");
        reveal_strlit("ControlLeft");
        reveal_strlit("ControlRight");
        reveal_strlit("AltLeft");
        reveal_strlit("AltRight");
        assert("AltLeft"@ != "Backspace"@) by {
            assert("AltLeft"@.len() != "Backspace"@.len());
        }
        assert("AltLeft"@ != "Tab"@) by {
            assert("AltLeft"@.len() != "Tab"@.len());
        }
        assert("AltLeft"@ != "ShiftLeft"@) by {
            assert("AltLeft"@.len() != "ShiftLeft"@.len());
        }
        assert("AltLeft"@ != "ShiftRight"@) by {
            assert("AltLeft"@.len() != "ShiftRight"@.len());
        }
        assert("AltLeft"@ != "ControlLeft"@) by {
            assert("AltLeft"@.len() != "ControlLeft"@.len());
        }
        assert("AltLeft"@ != "ControlRight"@) by {
            assert("AltLeft"@.len() != "ControlRight"@.len());
        }
        assert("AltRight"@ != "Backspace"@) by {
            assert("AltRight"@.len() != "Backspace"@.len());
        }
        assert("AltRight"@ != "Tab"@) by {
            assert("AltRight"@.len() != "Tab"@.len());
        }
        assert("AltRight"@ != "ShiftLeft"@) by {
            assert("AltRight"@.len() != "ShiftLeft"@.len());
        }
        assert("AltRight"@ != "ShiftRight"@) by {
            assert("AltRight"@.len() != "ShiftRight"@.len());
        }
        assert("AltRight"@ != "ControlLeft"@) by {
            assert("AltRight"@.len() != "ControlLeft"@.len());
        }
        assert("AltRight"@ != "ControlRight"@) by {
            assert("AltRight"@.len() != "ControlRight"@.len());
        }
        assert("AltRight"@ != "AltLeft"@) by {
            assert("AltRight"@.len() != "AltLeft"@.len());
        }
    }
    assert(named_key("MetaLeft"@) == Some(Key::Meta) && named_key("MetaRight"@) == Some(Key::Meta)) by {
        reveal_strlit("Backspace");
        reveal_strlit("Tab");
        reveal_strlit("ShiftLeft");
        reveal_strlit("ShiftRight");
        reveal_strlit("ControlLeft");
        reveal_strlit("ControlRight");
        reveal_strlit("AltLeft");
        reveal_strlit("AltRight");
        reveal_strlit("CapsLock");
        reveal_strlit("Escape");
        reveal_strlit("Space");
        reveal_strlit("ArrowLeft");
        reveal_strlit("ArrowUp");
        reveal_strlit("ArrowRight");
        reveal_strlit("ArrowDown");
        reveal_strlit("MetaLeft");
        reveal_strlit("MetaRight");
        assert("MetaLeft"@ != "Backspace"@) by {
            assert("MetaLeft"@.len() != "Backspace"@.len());
        }
        assert("MetaLeft"@ != "Tab"@) by {
            assert("MetaLeft"@.len() != "Tab"@.len());
        }
        assert("MetaLeft"@ != "ShiftLeft"@) by {
            assert("MetaLeft"@.len() != "ShiftLeft"@.len());
        }
        assert("MetaLeft"@ != "ShiftRight"@) by {
            assert("MetaLeft"@.len() != "ShiftRight"@.len());
        }
        assert("MetaLeft"@ != "ControlLeft"@) by {
            assert("MetaLeft"@.len() != "ControlLeft"@.len());
        }
        assert("MetaLeft"@ != "ControlRight"@) by {
            assert("MetaLeft"@.len() != "ControlRight"@.len());
        }
        assert("MetaLeft"@ != "AltLeft"@) by {
            assert("MetaLeft"@.len() != "AltLeft"@.len());
        }
        assert("MetaLeft"@ != "AltRight"@) by {
            assert("MetaLeft"@[0] != "AltRight"@[0]);
        }
        assert("MetaLeft"@ != "CapsLock"@) by {
            assert("MetaLeft"@[0] != "CapsLock"@[0]);
        }
        assert("MetaLeft"@ != "Escape"@) by {
            assert("MetaLeft"@.len() != "Escape"@.len());
        }
        assert("MetaLeft"@ != "Space"@) by {
            assert("MetaLeft"@.len() != "Space"@.len());
        }
        assert("MetaLeft"@ != "ArrowLeft"@) by {
            assert("MetaLeft"@.len() != "ArrowLeft"@.len());
        }
        assert("MetaLeft"@ != "ArrowUp"@) by {
            assert("MetaLeft"@.len() != "ArrowUp"@.len());
        }
        assert("MetaLeft"@ != "ArrowRight"@) by {
            assert("MetaLeft"@.len() != "ArrowRight"@.len());
        }
        assert("MetaLeft"@ != "ArrowDown"@) by {
            assert("MetaLeft"@.len() != "ArrowDown"@.len());
        }
        assert("MetaRight"@ != "Backspace"@) by {
            assert("MetaRight"@[0] != "Backspace"@[0]);
        }
        assert("MetaRight"@ != "Tab"@) by {
            assert("MetaRight"@.len() != "Tab"@.len());
        }
        assert("MetaRight"@ != "ShiftLeft"@) by {
            assert("MetaRight"@[0] != "ShiftLeft"@[0]);
        }
        assert("MetaRight"@ != "ShiftRight"@) by {
            assert("MetaRight"@.len() != "ShiftRight"@.len());
        }
        assert("MetaRight"@ != "ControlLeft"@) by {
            assert("MetaRight"@.len() != "ControlLeft"@.len());
        }
        assert("MetaRight"@ != "ControlRight"@) by {
            assert("MetaRight"@.len() != "ControlRight"@.len());
        }
        assert("MetaRight"@ != "AltLeft"@) by {
            assert("MetaRight"@.len() != "AltLeft"@.len());
        }
        assert("MetaRight"@ != "AltRight"@) by {
            assert("MetaRight"@.len() != "AltRight"@.len());
        }
        assert("MetaRight"@ != "CapsLock"@) by {
            assert("MetaRight"@.len() != "CapsLock"@.len());
        }
        assert("MetaRight"@ != "Escape"@) by {
            assert("MetaRight"@.len() != "Escape"@.len());
        }
        assert("MetaRight"@ != "Space"@) by {
            assert("MetaRight"@.len() != "Space"@.len());
        }
        assert("MetaRight"@ != "ArrowLeft"@) by {
            assert("MetaRight"@[0] != "ArrowLeft"@[0]);
        }
        assert("MetaRight"@ != "ArrowUp"@) by {
            assert("MetaRight"@.len() != "ArrowUp"@.len());
        }
        assert("MetaRight"@ != "ArrowRight"@) by {
            assert("MetaRight"@.len() != "ArrowRight"@.len());
        }
        assert("MetaRight"@ != "ArrowDown"@) by {
            assert("MetaRight"@[0] != "ArrowDown"@[0]);
        }
        assert("MetaRight"@ != "MetaLeft"@) by {
            assert("MetaRight"@.len() != "MetaLeft"@.len());
        }
    }
}

fn lookup_named(name: &Vec<char>) -> (res: Option<Key>)
    ensures
        res == named_key(name@),
{
    if chars_equal(name, "Backspace") {
        Some(Key::Backspace)
    } else if chars_equal(name, "Tab") {
        Some(Key::Tab)
    } else if chars_equal(name, "ShiftLeft") {
        Some(Key::Shift)
    } else if chars_equal(name, "ShiftRight") {
        Some(Key::Shift)
    } else if chars_equal(name, "ControlLeft") {
        Some(Key::Control)
    } else if chars_equal(name, "ControlRight") {
        Some(Key::Control)
    } else if chars_equal(name, "AltLeft") {
        Some(Key::Alt)
    } else if chars_equal(name, "AltRight") {
        Some(Key::Alt)
    } else if chars_equal(name, "CapsLock") {
        Some(Key::CapsLock)
    } else if chars_equal(name, "Escape") {
        Some(Key::Escape)
    } else if chars_equal(name, "Space") {
        Some(Key::Space)
    } else if chars_equal(name, "ArrowLeft") {
        Some(Key::LeftArrow)
    } else if chars_equal(name, "ArrowUp") {
        Some(Key::UpArrow)
    } else if chars_equal(name, "ArrowRight") {
        Some(Key::RightArrow)
    } else if chars_equal(name, "ArrowDown") {
        Some(Key::DownArrow)
    } else if chars_equal(name, "MetaLeft") {
        Some(Key::Meta)
    } else if chars_equal(name, "MetaRight") {
        Some(Key::Meta)
    } else if chars_equal(name, "End") {
        Some(Key::End)
    } else if chars_equal(name, "F1") {
        Some(Key::F1)
    } else if chars_equal(name, "F2") {
        Some(Key::F2)
    } else if chars_equal(name, "F3") {
        Some(Key::F3)
    } else if chars_equal(name, "F4") {
        Some(Key::F4)
    } else if chars_equal(name, "F5") {
        Some(Key::F5)
    } else if chars_equal(name, "F6") {
        Some(Key::F6)
    } else if chars_equal(name, "F7") {
        Some(Key::F7)
    } else if chars_equal(name, "F8") {
        Some(Key::F8)
    } else if chars_equal(name, "F9") {
        Some(Key::F9)
    } else if chars_equal(name, "F10") {
        Some(Key::F10)
    } else if chars_equal(name, "F11") {
        Some(Key::F11)
    } else if chars_equal(name, "F12") {
        Some(Key::F12)
    } else if chars_equal(name, "BracketLeft") {
        Some(Key::Layout('['))
    } else if chars_equal(name, "BracketRight") {
        Some(Key::Layout(']'))
    } else if chars_equal(name, "Backslash") {
        Some(Key::Layout('\\'))
    } else if chars_equal(name, "Semicolon") {
        Some(Key::Layout(';'))
    } else if chars_equal(name, "Backquote") {
        Some(Key::Layout('`'))
    } else if chars_equal(name, "Quote") {
        Some(Key::Layout('\''))
    } else if chars_equal(name, "Equal") {
        Some(Key::Layout('='))
    } else if chars_equal(name, "Minus") {
        Some(Key::Layout('-'))
    } else if chars_equal(name, "Comma") {
        Some(Key::Layout(','))
    } else if chars_equal(name, "Period") {
        Some(Key::Layout('.'))
    } else if chars_equal(name, "Slash") {
        Some(Key::Layout('/'))
    } else if chars_equal(name, "Delete") {
        Some(Key::Delete)
    } else if chars_equal(name, "Home") {
        Some(Key::Home)
    } else if chars_equal(name, "Enter") {
        Some(Key::Return)
    } else if chars_equal(name, "PageUp") {
        Some(Key::PageUp)
    } else if chars_equal(name, "PageDown") {
        Some(Key::PageDown)
    } else {
        None
    }
}

impl FromJsKey for Key {
    fn from_js_key(s: &str) -> (res: Result<Self, KeyError>)
        ensures
            res matches Ok(k) ==> js_key(s@) == Some(k),
            res matches Err(KeyError::UnknownKey(code)) ==> js_key(s@) is None && code@ == s@,
            js_key(s@) is Some <==> res is Ok,
    {
        let v = chars_of(s);
        if starts_with_chars(&v, "Digit") || (s.len() == 7 && starts_with_chars(&v, "Numpad")) {
            proof { reveal_strlit("Digit"); reveal_strlit("Numpad"); }
            let digit = v[v.len() - 1];
            return Ok(Key::Layout(digit));
        }
        if starts_with_chars(&v, "Key") {
            proof { reveal_strlit("Key"); }
            let letter = to_ascii_lower(v[v.len() - 1]);
            return Ok(Key::Layout(letter));
        }
        match lookup_named(&v) {
            Some(k) => Ok(k),
            None => Err(KeyError::UnknownKey(s.to_owned())),
        }
    }
}

/// A short fingerprint of a key code: its length and three of its
/// characters. It tells apart all the codes the browser sends for named keys.
spec fn code_fingerprint(s: Seq<char>) -> (int, int, int, int) {
    (s.len() as int, s[0] as int, s[s.len() - 1] as int, s[s.len() - 2] as int)
}

/// A code that differs from `p` at index `i` does not start with `p`.
proof fn lemma_not_prefix(s: Seq<char>, p: Seq<char>, i: int)
    requires
        0 <= i < p.len(),
        i < s.len(),
        s[i] != p[i],
    ensures
        !has_prefix(s, p),
{
    if has_prefix(s, p) {
        assert(s.subrange(0, p.len() as int)[i] == s[i]);
    }
}

/// Every code of a named key in the browser's `KeyboardEvent.code` table
/// that the host supports maps to that key: the arrows to the arrow of
/// their direction, page up and down, home and end, the function keys to
/// the function key of their number, the punctuation keys to the character
/// they type, `Enter` to return, and both sides of each modifier to the
/// modifier.
pub proof fn law_named_key_codes()
    ensures
        js_key("Backspace"@) == Some(Key::Backspace),
        js_key("Tab"@) == Some(Key::Tab),
        js_key("ShiftLeft"@) == Some(Key::Shift),
        js_key("ShiftRight"@) == Some(Key::Shift),
        js_key("ControlLeft"@) == Some(Key::Control),
        js_key("ControlRight"@) == Some(Key::Control),
        js_key("AltLeft"@) == Some(Key::Alt),
        js_key("AltRight"@) == Some(Key::Alt),
        js_key("CapsLock"@) == Some(Key::CapsLock),
        js_key("Escape"@) == Some(Key::Escape),
        js_key("Space"@) == Some(Key::Space),
        js_key("ArrowLeft"@) == Some(Key::LeftArrow),
        js_key("ArrowUp"@) == Some(Key::UpArrow),
        js_key("ArrowRight"@) == Some(Key::RightArrow),
        js_key("ArrowDown"@) == Some(Key::DownArrow),
        js_key("MetaLeft"@) == Some(Key::Meta),
        js_key("MetaRight"@) == Some(Key::Meta),
        js_key("End"@) == Some(Key::End),
        js_key("F1"@) == Some(Key::F1),
        js_key("F2"@) == Some(Key::F2),
        js_key("F3"@) == Some(Key::F3),
        js_key("F4"@) == Some(Key::F4),
        js_key("F5"@) == Some(Key::F5),
        js_key("F6"@) == Some(Key::F6),
        js_key("F7"@) == Some(Key::F7),
        js_key("F8"@) == Some(Key::F8),
        js_key("F9"@) == Some(Key::F9),
        js_key("F10"@) == Some(Key::F10),
        js_key("F11"@) == Some(Key::F11),
        js_key("F12"@) == Some(Key::F12),
        js_key("BracketLeft"@) == Some(Key::Layout('[')),
        js_key("BracketRight"@) == Some(Key::Layout(']')),
        js_key("Backslash"@) == Some(Key::Layout('\\')),
        js_key("Semicolon"@) == Some(Key::Layout(';')),
        js_key("Backquote"@) == Some(Key::Layout('`')),
        js_key("Quote"@) == Some(Key::Layout('\'')),
        js_key("Equal"@) == Some(Key::Layout('=')),
        js_key("Minus"@) == Some(Key::Layout('-')),
        js_key("Comma"@) == Some(Key::Layout(',')),
        js_key("Period"@) == Some(Key::Layout('.')),
        js_key("Slash"@) == Some(Key::Layout('/')),
        js_key("Delete"@) == Some(Key::Delete),
        js_key("Home"@) == Some(Key::Home),
        js_key("Enter"@) == Some(Key::Return),
        js_key("PageUp"@) == Some(Key::PageUp),
        js_key("PageDown"@) == Some(Key::PageDown),
{
    reveal_strlit("Backspace");
    reveal_strlit("Tab");
    reveal_strlit("ShiftLeft");
    reveal_strlit("ShiftRight");
    reveal_strlit("ControlLeft");
    reveal_strlit("ControlRight");
    reveal_strlit("AltLeft");
    reveal_strlit("AltRight");
    reveal_strlit("CapsLock");
    reveal_strlit("Escape");
    reveal_strlit("Space");
    reveal_strlit("ArrowLeft");
    reveal_strlit("ArrowUp");
    reveal_strlit("ArrowRight");
    reveal_strlit("ArrowDown");
    reveal_strlit("MetaLeft");
    reveal_strlit("MetaRight");
    reveal_strlit("End");
    reveal_strlit("F1");
    reveal_strlit("F2");
    reveal_strlit("F3");
    reveal_strlit("F4");
    reveal_strlit("F5");
    reveal_strlit("F6");
    reveal_strlit("F7");
    reveal_strlit("F8");
    reveal_strlit("F9");
    reveal_strlit("F10");
    reveal_strlit("F11");
    reveal_strlit("F12");
    reveal_strlit("BracketLeft");
    reveal_strlit("BracketRight");
    reveal_strlit("Backslash");
    reveal_strlit("Semicolon");
    reveal_strlit("Backquote");
    reveal_strlit("Quote");
    reveal_strlit("Equal");
    reveal_strlit("Minus");
    reveal_strlit("Comma");
    reveal_strlit("Period");
    reveal_strlit("Slash");
    reveal_strlit("Delete");
    reveal_strlit("Home");
    reveal_strlit("Enter");
    reveal_strlit("PageUp");
    reveal_strlit("PageDown");
    reveal_strlit("Digit");
    reveal_strlit("Key");
    reveal_strlit("Numpad");
    assert(code_fingerprint("Backspace"@) == (9int, 66int, 101int, 99int));
    assert(code_fingerprint("Tab"@) == (3int, 84int, 98int, 97int));
    assert(code_fingerprint("ShiftLeft"@) == (9int, 83int, 116int, 102int));
    assert(code_fingerprint("ShiftRight"@) == (10int, 83int, 116int, 104int));
    assert(code_fingerprint("ControlLeft"@) == (11int, 67int, 116int, 102int));
    assert(code_fingerprint("ControlRight"@) == (12int, 67int, 116int, 104int));
    assert(code_fingerprint("AltLeft"@) == (7int, 65int, 116int, 102int));
    assert(code_fingerprint("AltRight"@) == (8int, 65int, 116int, 104int));
    assert(code_fingerprint("CapsLock"@) == (8int, 67int, 107int, 99int));
    assert(code_fingerprint("Escape"@) == (6int, 69int, 101int, 112int));
    assert(code_fingerprint("Space"@) == (5int, 83int, 101int, 99int));
    assert(code_fingerprint("ArrowLeft"@) == (9int, 65int, 116int, 102int));
    assert(code_fingerprint("ArrowUp"@) == (7int, 65int, 112int, 85int));
    assert(code_fingerprint("ArrowRight"@) == (10int, 65int, 116int, 104int));
    assert(code_fingerprint("ArrowDown"@) == (9int, 65int, 110int, 119int));
    assert(code_fingerprint("MetaLeft"@) == (8int, 77int, 116int, 102int));
    assert(code_fingerprint("MetaRight"@) == (9int, 77int, 116int, 104int));
    assert(code_fingerprint("End"@) == (3int, 69int, 100int, 110int));
    assert(code_fingerprint("F1"@) == (2int, 70int, 49int, 70int));
    assert(code_fingerprint("F2"@) == (2int, 70int, 50int, 70int));
    assert(code_fingerprint("F3"@) == (2int, 70int, 51int, 70int));
    assert(code_fingerprint("F4"@) == (2int, 70int, 52int, 70int));
    assert(code_fingerprint("F5"@) == (2int, 70int, 53int, 70int));
    assert(code_fingerprint("F6"@) == (2int, 70int, 54int, 70int));
    assert(code_fingerprint("F7"@) == (2int, 70int, 55int, 70int));
    assert(code_fingerprint("F8"@) == (2int, 70int, 56int, 70int));
    assert(code_fingerprint("F9"@) == (2int, 70int, 57int, 70int));
    assert(code_fingerprint("F10"@) == (3int, 70int, 48int, 49int));
    assert(code_fingerprint("F11"@) == (3int, 70int, 49int, 49int));
    assert(code_fingerprint("F12"@) == (3int, 70int, 50int, 49int));
    assert(code_fingerprint("BracketLeft"@) == (11int, 66int, 116int, 102int));
    assert(code_fingerprint("BracketRight"@) == (12int, 66int, 116int, 104int));
    assert(code_fingerprint("Backslash"@) == (9int, 66int, 104int, 115int));
    assert(code_fingerprint("Semicolon"@) == (9int, 83int, 110int, 111int));
    assert(code_fingerprint("Backquote"@) == (9int, 66int, 101int, 116int));
    assert(code_fingerprint("Quote"@) == (5int, 81int, 101int, 116int));
    assert(code_fingerprint("Equal"@) == (5int, 69int, 108int, 97int));
    assert(code_fingerprint("Minus"@) == (5int, 77int, 115int, 117int));
    assert(code_fingerprint("Comma"@) == (5int, 67int, 97int, 109int));
    assert(code_fingerprint("Period"@) == (6int, 80int, 100int, 111int));
    assert(code_fingerprint("Slash"@) == (5int, 83int, 104int, 115int));
    assert(code_fingerprint("Delete"@) == (6int, 68int, 101int, 116int));
    assert(code_fingerprint("Home"@) == (4int, 72int, 101int, 109int));
    assert(code_fingerprint("Enter"@) == (5int, 69int, 114int, 101int));
    assert(code_fingerprint("PageUp"@) == (6int, 80int, 112int, 85int));
    assert(code_fingerprint("PageDown"@) == (8int, 80int, 110int, 119int));
    lemma_not_prefix("Backspace"@, "Digit"@, 0);
    lemma_not_prefix("Backspace"@, "Numpad"@, 0);
    lemma_not_prefix("Backspace"@, "Key"@, 0);
    lemma_not_prefix("Tab"@, "Key"@, 0);
    lemma_not_prefix("ShiftLeft"@, "Digit"@, 0);
    lemma_not_prefix("ShiftLeft"@, "Numpad"@, 0);
    lemma_not_prefix("ShiftLeft"@, "Key"@, 0);
    lemma_not_prefix("ShiftRight"@, "Digit"@, 0);
    lemma_not_prefix("ShiftRight"@, "Numpad"@, 0);
    lemma_not_prefix("ShiftRight"@, "Key"@, 0);
    lemma_not_prefix("ControlLeft"@, "Digit"@, 0);
    lemma_not_prefix("ControlLeft"@, "Numpad"@, 0);
    lemma_not_prefix("ControlLeft"@, "Key"@, 0);
    lemma_not_prefix("ControlRight"@, "Digit"@, 0);
    lemma_not_prefix("ControlRight"@, "Numpad"@, 0);
    lemma_not_prefix("ControlRight"@, "Key"@, 0);
    lemma_not_prefix("AltLeft"@, "Digit"@, 0);
    lemma_not_prefix("AltLeft"@, "Numpad"@, 0);
    lemma_not_prefix("AltLeft"@, "Key"@, 0);
    lemma_not_prefix("AltRight"@, "Digit"@, 0);
    lemma_not_prefix("AltRight"@, "Numpad"@, 0);
    lemma_not_prefix("AltRight"@, "Key"@, 0);
    lemma_not_prefix("CapsLock"@, "Digit"@, 0);
    lemma_not_prefix("CapsLock"@, "Numpad"@, 0);
    lemma_not_prefix("CapsLock"@, "Key"@, 0);
    lemma_not_prefix("Escape"@, "Digit"@, 0);
    lemma_not_prefix("Escape"@, "Numpad"@, 0);
    lemma_not_prefix("Escape"@, "Key"@, 0);
    lemma_not_prefix("Space"@, "Digit"@, 0);
    lemma_not_prefix("Space"@, "Key"@, 0);
    lemma_not_prefix("ArrowLeft"@, "Digit"@, 0);
    lemma_not_prefix("ArrowLeft"@, "Numpad"@, 0);
    lemma_not_prefix("ArrowLeft"@, "Key"@, 0);
    lemma_not_prefix("ArrowUp"@, "Digit"@, 0);
    lemma_not_prefix("ArrowUp"@, "Numpad"@, 0);
    lemma_not_prefix("ArrowUp"@, "Key"@, 0);
    lemma_not_prefix("ArrowRight"@, "Digit"@, 0);
    lemma_not_prefix("ArrowRight"@, "Numpad"@, 0);
    lemma_not_prefix("ArrowRight"@, "Key"@, 0);
    lemma_not_prefix("ArrowDown"@, "Digit"@, 0);
    lemma_not_prefix("ArrowDown"@, "Numpad"@, 0);
    lemma_not_prefix("ArrowDown"@, "Key"@, 0);
    lemma_not_prefix("MetaLeft"@, "Digit"@, 0);
    lemma_not_prefix("MetaLeft"@, "Numpad"@, 0);
    lemma_not_prefix("MetaLeft"@, "Key"@, 0);
    lemma_not_prefix("MetaRight"@, "Digit"@, 0);
    lemma_not_prefix("MetaRight"@, "Numpad"@, 0);
    lemma_not_prefix("MetaRight"@, "Key"@, 0);
    lemma_not_prefix("End"@, "Key"@, 0);
    lemma_not_prefix("F10"@, "Key"@, 0);
    lemma_not_prefix("F11"@, "Key"@, 0);
    lemma_not_prefix("F12"@, "Key"@, 0);
    lemma_not_prefix("BracketLeft"@, "Digit"@, 0);
    lemma_not_prefix("BracketLeft"@, "Numpad"@, 0);
    lemma_not_prefix("BracketLeft"@, "Key"@, 0);
    lemma_not_prefix("BracketRight"@, "Digit"@, 0);
    lemma_not_prefix("BracketRight"@, "Numpad"@, 0);
    lemma_not_prefix("BracketRight"@, "Key"@, 0);
    lemma_not_prefix("Backslash"@, "Digit"@, 0);
    lemma_not_prefix("Backslash"@, "Numpad"@, 0);
    lemma_not_prefix("Backslash"@, "Key"@, 0);
    lemma_not_prefix("Semicolon"@, "Digit"@, 0);
    lemma_not_prefix("Semicolon"@, "Numpad"@, 0);
    lemma_not_prefix("Semicolon"@, "Key"@, 0);
    lemma_not_prefix("Backquote"@, "Digit"@, 0);
    lemma_not_prefix("Backquote"@, "Numpad"@, 0);
    lemma_not_prefix("Backquote"@, "Key"@, 0);
    lemma_not_prefix("Quote"@, "Digit"@, 0);
    lemma_not_prefix("Quote"@, "Key"@, 0);
    lemma_not_prefix("Equal"@, "Digit"@, 0);
    lemma_not_prefix("Equal"@, "Key"@, 0);
    lemma_not_prefix("Minus"@, "Digit"@, 0);
    lemma_not_prefix("Minus"@, "Key"@, 0);
    lemma_not_prefix("Comma"@, "Digit"@, 0);
    lemma_not_prefix("Comma"@, "Key"@, 0);
    lemma_not_prefix("Period"@, "Digit"@, 0);
    lemma_not_prefix("Period"@, "Numpad"@, 0);
    lemma_not_prefix("Period"@, "Key"@, 0);
    lemma_not_prefix("Slash"@, "Digit"@, 0);
    lemma_not_prefix("Slash"@, "Key"@, 0);
    lemma_not_prefix("Delete"@, "Digit"@, 1);
    lemma_not_prefix("Delete"@, "Numpad"@, 0);
    lemma_not_prefix("Delete"@, "Key"@, 0);
    lemma_not_prefix("Home"@, "Key"@, 0);
    lemma_not_prefix("Enter"@, "Digit"@, 0);
    lemma_not_prefix("Enter"@, "Key"@, 0);
    lemma_not_prefix("PageUp"@, "Digit"@, 0);
    lemma_not_prefix("PageUp"@, "Numpad"@, 0);
    lemma_not_prefix("PageUp"@, "Key"@, 0);
    lemma_not_prefix("PageDown"@, "Digit"@, 0);
    lemma_not_prefix("PageDown"@, "Numpad"@, 0);
    lemma_not_prefix("PageDown"@, "Key"@, 0);
}

/// Only the two sides of a modifier share a key: two codes that name the
/// same key, other than Shift, Control, Alt or Meta, are the same code.
pub proof fn law_named_codes_distinct(a: Seq<char>, b: Seq<char>)
    requires
        named_key(a) is Some,
        named_key(a) == named_key(b),
        named_key(a) != Some(Key::Shift),
        named_key(a) != Some(Key::Control),
        named_key(a) != Some(Key::Alt),
        named_key(a) != Some(Key::Meta),
    ensures
        a == b,
{
}

} // verus!
