//! The key encoder: which bytes, if any, a key press sends to the remote
//! shell.
//!
//! Characters go out as their UTF-8 encoding, control keys as the control
//! characters and escape sequences that terminals use. Ctrl+Q is kept
//! back: it ends the local session and sends nothing.

use crate::text::{ascii_bytes, push_ascii};
use vstd::prelude::*;
use vstd::utf8::{encode_scalar, is_ascii_chars};

verus! {

/// The key that was pressed.
#[derive(Clone, Copy, Debug, PartialEq, Eq, Structural)]
pub enum KeyCode {
    Char(char),
    Enter,
    Backspace,
    Tab,
    Up,
    Down,
    Right,
    Left,
    Home,
    End,
    PageUp,
    PageDown,
    Delete,
    Insert,
    /// A function key by its number.
    F(u8),
    /// Any key that is none of the above.
    Other,
}

/// The modifier keys held while a key was pressed.
#[derive(Clone, Copy, Debug, PartialEq, Eq, Structural)]
pub struct KeyModifiers {
    pub shift: bool,
    pub control: bool,
    pub alt: bool,
    pub logo: bool,
    pub hyper: bool,
    pub meta: bool,
}

/// One key press.
#[derive(Clone, Copy, Debug, PartialEq, Eq, Structural)]
pub struct KeyEvent {
    pub code: KeyCode,
    pub modifiers: KeyModifiers,
}

/// What a key press leads to.
#[derive(Debug, PartialEq, Eq)]
pub enum KeyAction {
    /// Send these bytes to the remote shell.
    Send(Vec<u8>),
    /// End the local session; the peer is not told.
    Quit,
    /// The key is dropped; nothing is sent.
    Ignore,
}

impl KeyModifiers {
    /// No modifier is held.
    pub open spec fn is_none(self) -> bool {
        !self.shift && !self.control && !self.alt && !self.logo && !self.hyper && !self.meta
    }

    /// Shift is held and nothing else.
    pub open spec fn is_shift_only(self) -> bool {
        self.shift && !self.control && !self.alt && !self.logo && !self.hyper && !self.meta
    }

    /// Control is held and nothing else.
    pub open spec fn is_control_only(self) -> bool {
        !self.shift && self.control && !self.alt && !self.logo && !self.hyper && !self.meta
    }

    /// No modifier.
    pub fn none() -> (m: KeyModifiers)
        ensures
            m.is_none(),
    {
        KeyModifiers {
            shift: false,
            control: false,
            alt: false,
            logo: false,
            hyper: false,
            meta: false,
        }
    }

    /// Shift alone.
    pub fn shift() -> (m: KeyModifiers)
        ensures
            m.is_shift_only(),
    {
        KeyModifiers {
            shift: true,
            control: false,
            alt: false,
            logo: false,
            hyper: false,
            meta: false,
        }
    }

    /// Control alone.
    pub fn control() -> (m: KeyModifiers)
        ensures
            m.is_control_only(),
    {
        KeyModifiers {
            shift: false,
            control: true,
            alt: false,
            logo: false,
            hyper: false,
            meta: false,
        }
    }
}

/// The escape sequence of a function key, for the keys F1 to F12.
pub open spec fn function_key_text(n: u8) -> Option<Seq<char>> {
    if n == 1 {
        Some("\x1bOP"@)
    } else if n == 2 {
        Some("\x1bOQ"@)
    } else if n == 3 {
        Some("\x1bOR"@)
    } else if n == 4 {
        Some("\x1bOS"@)
    } else if n == 5 {
        Some("\x1b[15~"@)
    } else if n == 6 {
        Some("\x1b[17~"@)
    } else if n == 7 {
        Some("\x1b[18~"@)
    } else if n == 8 {
        Some("\x1b[19~"@)
    } else if n == 9 {
        Some("\x1b[20~"@)
    } else if n == 10 {
        Some("\x1b[21~"@)
    } else if n == 11 {
        Some("\x1b[23~"@)
    } else if n == 12 {
        Some("\x1b[24~"@)
    } else {
        None
    }
}

/// The control character or escape sequence of a key that is not a
/// character, whatever modifiers are held.
pub open spec fn special_key_text(code: KeyCode) -> Option<Seq<char>> {
    match code {
        KeyCode::Enter => Some("\r"@),
        KeyCode::Backspace => Some("\x7f"@),
        KeyCode::Tab => Some("\t"@),
        KeyCode::Up => Some("\x1b[A"@),
        KeyCode::Down => Some("\x1b[B"@),
        KeyCode::Right => Some("\x1b[C"@),
        KeyCode::Left => Some("\x1b[D"@),
        KeyCode::Home => Some("\x1b[H"@),
        KeyCode::End => Some("\x1b[F"@),
        KeyCode::PageUp => Some("\x1b[5~"@),
        KeyCode::PageDown => Some("\x1b[6~"@),
        KeyCode::Delete => Some("\x1b[3~"@),
        KeyCode::Insert => Some("\x1b[2~"@),
        KeyCode::F(n) => function_key_text(n),
        _ => None,
    }
}

/// Whether a key press ends the local session: Ctrl+Q and nothing else.
pub open spec fn is_quit(event: KeyEvent) -> bool {
    event.code == KeyCode::Char('q') && event.modifiers.is_control_only()
}

/// The bytes that a key press sends, if it sends any.
pub open spec fn key_bytes(event: KeyEvent) -> Option<Seq<u8>> {
    match event.code {
        KeyCode::Char(c) => {
            if event.modifiers.is_control_only() {
                if c == 'c' {
                    Some(seq![3u8])
                } else if c == 'z' {
                    Some(seq![26u8])
                } else {
                    None
                }
            } else if event.modifiers.is_none() || event.modifiers.is_shift_only() {
                Some(encode_scalar(c as u32))
            } else {
                None
            }
        },
        code => match special_key_text(code) {
            Some(text) => Some(ascii_bytes(text)),
            None => None,
        },
    }
}

/// Encodes one character as UTF-8.
pub fn encode_char(c: char) -> (out: Vec<u8>)
    ensures
        out@ == encode_scalar(c as u32),
{
    let v: u32 = c as u32;
    let out = if v <= 0x7F {
        assert(v & 0x7F <= 0xFF) by (bit_vector);
        vec![(v & 0x7F) as u8]
    } else if v <= 0x7FF {
        assert((v >> 6) & 0x1F <= 0xFF && v & 0x3F <= 0xFF) by (bit_vector);
        vec![0xC0 | ((v >> 6) & 0x1F) as u8, 0x80 | (v & 0x3F) as u8]
    } else if v <= 0xFFFF {
        assert((v >> 12) & 0x0F <= 0xFF && (v >> 6) & 0x3F <= 0xFF && v & 0x3F <= 0xFF)
            by (bit_vector);
        vec![
            0xE0 | ((v >> 12) & 0x0F) as u8,
            0x80 | ((v >> 6) & 0x3F) as u8,
            0x80 | (v & 0x3F) as u8,
        ]
    } else {
        assert((v >> 18) & 0x7 <= 0xFF && (v >> 12) & 0x3F <= 0xFF && (v >> 6) & 0x3F <= 0xFF && v
            & 0x3F <= 0xFF) by (bit_vector);
        vec![
            0xF0 | ((v >> 18) & 0x7) as u8,
            0x80 | ((v >> 12) & 0x3F) as u8,
            0x80 | ((v >> 6) & 0x3F) as u8,
            0x80 | (v & 0x3F) as u8,
        ]
    };
    assert(out@ =~= encode_scalar(v));
    out
}

/// The bytes of an ASCII text.
fn text_bytes(text: &str) -> (out: Vec<u8>)
    requires
        is_ascii_chars(text@),
    ensures
        out@ == ascii_bytes(text@),
{
    let mut out: Vec<u8> = Vec::new();
    push_ascii(&mut out, text);
    out
}

/// The escape sequence of a function key, if it has one.
fn function_key(n: u8) -> (out: Option<Vec<u8>>)
    ensures
        match function_key_text(n) {
            Some(text) => out matches Some(bytes) && bytes@ == ascii_bytes(text),
            None => out is None,
        },
{
    proof {
        lemma_sequences_are_ascii();
    }
    if n == 1 {
        Some(text_bytes("\x1bOP"))
    } else if n == 2 {
        Some(text_bytes("\x1bOQ"))
    } else if n == 3 {
        Some(text_bytes("\x1bOR"))
    } else if n == 4 {
        Some(text_bytes("\x1bOS"))
    } else if n == 5 {
        Some(text_bytes("\x1b[15~"))
    } else if n == 6 {
        Some(text_bytes("\x1b[17~"))
    } else if n == 7 {
        Some(text_bytes("\x1b[18~"))
    } else if n == 8 {
        Some(text_bytes("\x1b[19~"))
    } else if n == 9 {
        Some(text_bytes("\x1b[20~"))
    } else if n == 10 {
        Some(text_bytes("\x1b[21~"))
    } else if n == 11 {
        Some(text_bytes("\x1b[23~"))
    } else if n == 12 {
        Some(text_bytes("\x1b[24~"))
    } else {
        None
    }
}

/// Decides what a key press leads to.
pub fn encode_key(event: KeyEvent) -> (action: KeyAction)
    ensures
        is_quit(event) ==> action is Quit,
        !is_quit(event) ==> match key_bytes(event) {
            Some(bytes) => action matches KeyAction::Send(out) && out@ == bytes,
            None => action is Ignore,
        },
{
    proof {
        lemma_sequences_are_ascii();
    }
    let m = event.modifiers;
    let plain = !m.control && !m.alt && !m.logo && !m.hyper && !m.meta;
    let control_only = m.control && !m.shift && !m.alt && !m.logo && !m.hyper && !m.meta;
    match event.code {
        KeyCode::Char(c) => {
            if control_only {
                if c == 'q' {
                    KeyAction::Quit
                } else if c == 'c' {
                    KeyAction::Send(vec![3u8])
                } else if c == 'z' {
                    KeyAction::Send(vec![26u8])
                } else {
                    KeyAction::Ignore
                }
            } else if plain {
                KeyAction::Send(encode_char(c))
            } else {
                KeyAction::Ignore
            }
        },
        KeyCode::Enter => KeyAction::Send(text_bytes("\r")),
        KeyCode::Backspace => KeyAction::Send(text_bytes("\x7f")),
        KeyCode::Tab => KeyAction::Send(text_bytes("\t")),
        KeyCode::Up => KeyAction::Send(text_bytes("\x1b[A")),
        KeyCode::Down => KeyAction::Send(text_bytes("\x1b[B")),
        KeyCode::Right => KeyAction::Send(text_bytes("\x1b[C")),
        KeyCode::Left => KeyAction::Send(text_bytes("\x1b[D")),
        KeyCode::Home => KeyAction::Send(text_bytes("\x1b[H")),
        KeyCode::End => KeyAction::Send(text_bytes("\x1b[F")),
        KeyCode::PageUp => KeyAction::Send(text_bytes("\x1b[5~")),
        KeyCode::PageDown => KeyAction::Send(text_bytes("\x1b[6~")),
        KeyCode::Delete => KeyAction::Send(text_bytes("\x1b[3~")),
        KeyCode::Insert => KeyAction::Send(text_bytes("\x1b[2~")),
        KeyCode::F(n) => match function_key(n) {
            Some(bytes) => KeyAction::Send(bytes),
            None => KeyAction::Ignore,
        },
        KeyCode::Other => KeyAction::Ignore,
    }
}

/// Every control character and escape sequence of the encoder is ASCII.
proof fn lemma_sequences_are_ascii()
    ensures
        forall|code: KeyCode| #[trigger]
            special_key_text(code) matches Some(text) ==> is_ascii_chars(text),
        forall|n: u8| #[trigger]
            function_key_text(n) matches Some(text) ==> is_ascii_chars(text),
{
    reveal_strlit("\r");
    reveal_strlit("\x7f");
    reveal_strlit("\t");
    reveal_strlit("\x1b[A");
    reveal_strlit("\x1b[B");
    reveal_strlit("\x1b[C");
    reveal_strlit("\x1b[D");
    reveal_strlit("\x1b[H");
    reveal_strlit("\x1b[F");
    reveal_strlit("\x1b[5~");
    reveal_strlit("\x1b[6~");
    reveal_strlit("\x1b[3~");
    reveal_strlit("\x1b[2~");
    reveal_strlit("\x1bOP");
    reveal_strlit("\x1bOQ");
    reveal_strlit("\x1bOR");
    reveal_strlit("\x1bOS");
    reveal_strlit("\x1b[15~");
    reveal_strlit("\x1b[17~");
    reveal_strlit("\x1b[18~");
    reveal_strlit("\x1b[19~");
    reveal_strlit("\x1b[20~");
    reveal_strlit("\x1b[21~");
    reveal_strlit("\x1b[23~");
    reveal_strlit("\x1b[24~");
}

} // verus!
