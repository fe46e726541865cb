//! Desktop-session decisions: video settings, key names, pressed-key and button
//! bookkeeping, clipboard replies and display selection. The capture, encoding and
//! native input calls run outside and follow these decisions.
use crate::text::{chars_of, string_from_chars, text_eq};
use vstd::prelude::*;

verus! {

/// Video quality requested by the browser.
#[derive(Clone, Copy, PartialEq, Eq, Structural, Debug)]
pub struct VideoSettings {
    pub fps: u32,
    pub bitrate: u32,
    pub width: u32,
}

/// Why requested video settings are refused.
#[derive(Clone, Copy, PartialEq, Eq, Structural, Debug)]
pub enum SettingsError {
    OutOfRange,
}

/// Settings within 3–30 fps, 150 kbit/s–8 Mbit/s and 640–1920 pixels wide.
pub open spec fn settings_in_range(fps: u32, bitrate: u32, width: u32) -> bool {
    3 <= fps <= 30 && 150_000 <= bitrate <= 8_000_000 && 640 <= width <= 1920
}

impl Default for VideoSettings {
    /// 15 fps, 1.2 Mbit/s, 1280 pixels wide.
    fn default() -> (s: Self)
        ensures
            s.fps == 15,
            s.bitrate == 1_200_000,
            s.width == 1280,
    {
        VideoSettings { fps: 15, bitrate: 1_200_000, width: 1280 }
    }
}

impl VideoSettings {
    /// Accepts settings within range; the width is rounded down to an even number.
    pub fn validated(fps: u32, bitrate: u32, width: u32) -> (r: Result<Self, SettingsError>)
        ensures
            r is Ok <==> settings_in_range(fps, bitrate, width),
            r is Err ==> r == Err::<Self, SettingsError>(SettingsError::OutOfRange),
            r matches Ok(s) ==> s.fps == fps && s.bitrate == bitrate && s.width == width / 2 * 2,
    {
        if 3 <= fps && fps <= 30 && 150_000 <= bitrate && bitrate <= 8_000_000 && 640 <= width && width
            <= 1920 {
            Ok(VideoSettings { fps, bitrate, width: width / 2 * 2 })
        } else {
            Err(SettingsError::OutOfRange)
        }
    }
}

/// A key the agent may press on the device.
#[derive(Clone, Copy, PartialEq, Eq, Structural, Debug)]
pub enum KeyCode {
    Return,
    Escape,
    Backspace,
    Tab,
    Shift,
    CapsLock,
    Control,
    Alt,
    Meta,
    UpArrow,
    DownArrow,
    LeftArrow,
    RightArrow,
    Delete,
    Home,
    End,
    PageUp,
    PageDown,
    F1,
    F2,
    F3,
    F4,
    F5,
    F6,
    F7,
    F8,
    F9,
    F10,
    F11,
    F12,
    Unicode(char),
}

/// The key a browser key name stands for: a known named key, or a single character.
pub open spec fn key_of(v: Seq<char>) -> Option<KeyCode> {
    if v == "Enter"@ {
        Some(KeyCode::Return)
    } else if v == "Escape"@ {
        Some(KeyCode::Escape)
    } else if v == "Backspace"@ {
        Some(KeyCode::Backspace)
    } else if v == "Tab"@ {
        Some(KeyCode::Tab)
    } else if v == "Shift"@ {
        Some(KeyCode::Shift)
    } else if v == "CapsLock"@ {
        Some(KeyCode::CapsLock)
    } else if v == "Control"@ {
        Some(KeyCode::Control)
    } else if v == "Alt"@ {
        Some(KeyCode::Alt)
    } else if v == "Meta"@ {
        Some(KeyCode::Meta)
    } else if v == "ArrowUp"@ {
        Some(KeyCode::UpArrow)
    } else if v == "ArrowDown"@ {
        Some(KeyCode::DownArrow)
    } else if v == "ArrowLeft"@ {
        Some(KeyCode::LeftArrow)
    } else if v == "ArrowRight"@ {
        Some(KeyCode::RightArrow)
    } else if v == "Delete"@ {
        Some(KeyCode::Delete)
    } else if v == "Home"@ {
        Some(KeyCode::Home)
    } else if v == "End"@ {
        Some(KeyCode::End)
    } else if v == "PageUp"@ {
        Some(KeyCode::PageUp)
    } else if v == "PageDown"@ {
        Some(KeyCode::PageDown)
    } else if v == "F1"@ {
        Some(KeyCode::F1)
    } else if v == "F2"@ {
        Some(KeyCode::F2)
    } else if v == "F3"@ {
        Some(KeyCode::F3)
    } else if v == "F4"@ {
        Some(KeyCode::F4)
    } else if v == "F5"@ {
        Some(KeyCode::F5)
    } else if v == "F6"@ {
        Some(KeyCode::F6)
    } else if v == "F7"@ {
        Some(KeyCode::F7)
    } else if v == "F8"@ {
        Some(KeyCode::F8)
    } else if v == "F9"@ {
        Some(KeyCode::F9)
    } else if v == "F10"@ {
        Some(KeyCode::F10)
    } else if v == "F11"@ {
        Some(KeyCode::F11)
    } else if v == "F12"@ {
        Some(KeyCode::F12)
    } else if v.len() == 1 {
        Some(KeyCode::Unicode(v[0]))
    } else {
        None
    }
}

/// Maps a browser key name to a key; unknown multi-character names map to nothing.
pub fn key(value: &str) -> (r: Option<KeyCode>)
    ensures
        r == key_of(value@),
        value@ == "Enter"@ ==> r == Some(KeyCode::Return),
        value@ == "Escape"@ ==> r == Some(KeyCode::Escape),
        value@ == "Backspace"@ ==> r == Some(KeyCode::Backspace),
        value@ == "Tab"@ ==> r == Some(KeyCode::Tab),
        value@ == "Shift"@ ==> r == Some(KeyCode::Shift),
        value@ == "CapsLock"@ ==> r == Some(KeyCode::CapsLock),
        value@ == "Control"@ ==> r == Some(KeyCode::Control),
        value@ == "Alt"@ ==> r == Some(KeyCode::Alt),
        value@ == "Meta"@ ==> r == Some(KeyCode::Meta),
        value@ == "ArrowUp"@ ==> r == Some(KeyCode::UpArrow),
        value@ == "ArrowDown"@ ==> r == Some(KeyCode::DownArrow),
        value@ == "ArrowLeft"@ ==> r == Some(KeyCode::LeftArrow),
        value@ == "ArrowRight"@ ==> r == Some(KeyCode::RightArrow),
        value@ == "Delete"@ ==> r == Some(KeyCode::Delete),
        value@ == "Home"@ ==> r == Some(KeyCode::Home),
        value@ == "End"@ ==> r == Some(KeyCode::End),
        value@ == "PageUp"@ ==> r == Some(KeyCode::PageUp),
        value@ == "PageDown"@ ==> r == Some(KeyCode::PageDown),
        value@ == "F1"@ ==> r == Some(KeyCode::F1),
        value@ == "F2"@ ==> r == Some(KeyCode::F2),
        value@ == "F3"@ ==> r == Some(KeyCode::F3),
        value@ == "F4"@ ==> r == Some(KeyCode::F4),
        value@ == "F5"@ ==> r == Some(KeyCode::F5),
        value@ == "F6"@ ==> r == Some(KeyCode::F6),
        value@ == "F7"@ ==> r == Some(KeyCode::F7),
        value@ == "F8"@ ==> r == Some(KeyCode::F8),
        value@ == "F9"@ ==> r == Some(KeyCode::F9),
        value@ == "F10"@ ==> r == Some(KeyCode::F10),
        value@ == "F11"@ ==> r == Some(KeyCode::F11),
        value@ == "F12"@ ==> r == Some(KeyCode::F12),
        value@.len() == 1 ==> r == Some(KeyCode::Unicode(value@[0])),
{
    proof {
        law_key_names_keep_their_meaning(if value@.len() == 1 { value@[0] } else { 'a' });
        if value@.len() == 1 {
            assert(value@ =~= seq![value@[0]]);
        }
    }
    if text_eq(value, "Enter") {
        Some(KeyCode::Return)
    } else if text_eq(value, "Escape") {
        Some(KeyCode::Escape)
    } else if text_eq(value, "Backspace") {
        Some(KeyCode::Backspace)
    } else if text_eq(value, "Tab") {
        Some(KeyCode::Tab)
    } else if text_eq(value, "Shift") {
        Some(KeyCode::Shift)
    } else if text_eq(value, "CapsLock") {
        Some(KeyCode::CapsLock)
    } else if text_eq(value, "Control") {
        Some(KeyCode::Control)
    } else if text_eq(value, "Alt") {
        Some(KeyCode::Alt)
    } else if text_eq(value, "Meta") {
        Some(KeyCode::Meta)
    } else if text_eq(value, "ArrowUp") {
        Some(KeyCode::UpArrow)
    } else if text_eq(value, "ArrowDown") {
        Some(KeyCode::DownArrow)
    } else if text_eq(value, "ArrowLeft") {
        Some(KeyCode::LeftArrow)
    } else if text_eq(value, "ArrowRight") {
        Some(KeyCode::RightArrow)
    } else if text_eq(value, "Delete") {
        Some(KeyCode::Delete)
    } else if text_eq(value, "Home") {
        Some(KeyCode::Home)
    } else if text_eq(value, "End") {
        Some(KeyCode::End)
    } else if text_eq(value, "PageUp") {
        Some(KeyCode::PageUp)
    } else if text_eq(value, "PageDown") {
        Some(KeyCode::PageDown)
    } else if text_eq(value, "F1") {
        Some(KeyCode::F1)
    } else if text_eq(value, "F2") {
        Some(KeyCode::F2)
    } else if text_eq(value, "F3") {
        Some(KeyCode::F3)
    } else if text_eq(value, "F4") {
        Some(KeyCode::F4)
    } else if text_eq(value, "F5") {
        Some(KeyCode::F5)
    } else if text_eq(value, "F6") {
        Some(KeyCode::F6)
    } else if text_eq(value, "F7") {
        Some(KeyCode::F7)
    } else if text_eq(value, "F8") {
        Some(KeyCode::F8)
    } else if text_eq(value, "F9") {
        Some(KeyCode::F9)
    } else if text_eq(value, "F10") {
        Some(KeyCode::F10)
    } else if text_eq(value, "F11") {
        Some(KeyCode::F11)
    } else if text_eq(value, "F12") {
        Some(KeyCode::F12)
    } else {
        let chars = crate::text::chars_of(value);
        if chars.len() == 1 {
            Some(KeyCode::Unicode(chars[0]))
        } else {
            None
        }
    }
}

/// Every browser key name maps to the key of the same meaning (`Enter` is Return, the
/// arrows keep their direction, `F1`–`F12` their number), and any single character maps
/// to that character.
pub proof fn law_key_names_keep_their_meaning(c: char)
    ensures
        key_of("Enter"@) == Some(KeyCode::Return),
        key_of("Escape"@) == Some(KeyCode::Escape),
        key_of("Backspace"@) == Some(KeyCode::Backspace),
        key_of("Tab"@) == Some(KeyCode::Tab),
        key_of("Shift"@) == Some(KeyCode::Shift),
        key_of("CapsLock"@) == Some(KeyCode::CapsLock),
        key_of("Control"@) == Some(KeyCode::Control),
        key_of("Alt"@) == Some(KeyCode::Alt),
        key_of("Meta"@) == Some(KeyCode::Meta),
        key_of("ArrowUp"@) == Some(KeyCode::UpArrow),
        key_of("ArrowDown"@) == Some(KeyCode::DownArrow),
        key_of("ArrowLeft"@) == Some(KeyCode::LeftArrow),
        key_of("ArrowRight"@) == Some(KeyCode::RightArrow),
        key_of("Delete"@) == Some(KeyCode::Delete),
        key_of("Home"@) == Some(KeyCode::Home),
        key_of("End"@) == Some(KeyCode::End),
        key_of("PageUp"@) == Some(KeyCode::PageUp),
        key_of("PageDown"@) == Some(KeyCode::PageDown),
        key_of("F1"@) == Some(KeyCode::F1),
        key_of("F2"@) == Some(KeyCode::F2),
        key_of("F3"@) == Some(KeyCode::F3),
        key_of("F4"@) == Some(KeyCode::F4),
        key_of("F5"@) == Some(KeyCode::F5),
        key_of("F6"@) == Some(KeyCode::F6),
        key_of("F7"@) == Some(KeyCode::F7),
        key_of("F8"@) == Some(KeyCode::F8),
        key_of("F9"@) == Some(KeyCode::F9),
        key_of("F10"@) == Some(KeyCode::F10),
        key_of("F11"@) == Some(KeyCode::F11),
        key_of("F12"@) == Some(KeyCode::F12),
        key_of(seq![c]) == Some(KeyCode::Unicode(c)),
{
    reveal_strlit("Enter");
    reveal_strlit("Escape");
    reveal_strlit("Backspace");
    reveal_strlit("Tab");
    reveal_strlit("Shift");
    reveal_strlit("CapsLock");
    reveal_strlit("Control");
    reveal_strlit("Alt");
    reveal_strlit("Meta");
    reveal_strlit("ArrowUp");
    reveal_strlit("ArrowDown");
    reveal_strlit("ArrowLeft");
    reveal_strlit("ArrowRight");
    reveal_strlit("Delete");
    reveal_strlit("Home");
    reveal_strlit("End");
    reveal_strlit("PageUp");
    reveal_strlit("PageDown");
    reveal_strlit("F1");
    reveal_strlit("F2");
    reveal_strlit("F3");
    reveal_strlit("F4");
    reveal_strlit("F5");
    reveal_strlit("F6");
    reveal_strlit("F7");
    reveal_strlit("F8");
    reveal_strlit("F9");
    reveal_strlit("F10");
    reveal_strlit("F11");
    reveal_strlit("F12");
    assert("Enter"@.len() == 5);
    assert("Enter"@[0] == 'E');
    assert("Enter"@[1] == 'n');
    assert("Enter"@[2] == 't');
    assert("Enter"@[3] == 'e');
    assert("Enter"@[4] == 'r');
    assert("Escape"@.len() == 6);
    assert("Escape"@[0] == 'E');
    assert("Escape"@[1] == 's');
    assert("Escape"@[2] == 'c');
    assert("Escape"@[3] == 'a');
    assert("Escape"@[4] == 'p');
    assert("Escape"@[5] == 'e');
    assert("Backspace"@.len() == 9);
    assert("Backspace"@[0] == 'B');
    assert("Backspace"@[1] == 'a');
    assert("Backspace"@[2] == 'c');
    assert("Backspace"@[3] == 'k');
    assert("Backspace"@[4] == 's');
    assert("Backspace"@[5] == 'p');
    assert("Backspace"@[6] == 'a');
    assert("Backspace"@[7] == 'c');
    assert("Backspace"@[8] == 'e');
    assert("Tab"@.len() == 3);
    assert("Tab"@[0] == 'T');
    assert("Tab"@[1] == 'a');
    assert("Tab"@[2] == 'b');
    assert("Shift"@.len() == 5);
    assert("Shift"@[0] == 'S');
    assert("Shift"@[1] == 'h');
    assert("Shift"@[2] == 'i');
    assert("Shift"@[3] == 'f');
    assert("Shift"@[4] == 't');
    assert("CapsLock"@.len() == 8);
    assert("CapsLock"@[0] == 'C');
    assert("CapsLock"@[1] == 'a');
    assert("CapsLock"@[2] == 'p');
    assert("CapsLock"@[3] == 's');
    assert("CapsLock"@[4] == 'L');
    assert("CapsLock"@[5] == 'o');
    assert("CapsLock"@[6] == 'c');
    assert("CapsLock"@[7] == 'k');
    assert("Control"@.len() == 7);
    assert("Control"@[0] == 'C');
    assert("Control"@[1] == 'o');
    assert("Control"@[2] == 'n');
    assert("Control"@[3] == 't');
    assert("Control"@[4] == 'r');
    assert("Control"@[5] == 'o');
    assert("Control"@[6] == 'l');
    assert("Alt"@.len() == 3);
    assert("Alt"@[0] == 'A');
    assert("Alt"@[1] == 'l');
    assert("Alt"@[2] == 't');
    assert("Meta"@.len() == 4);
    assert("Meta"@[0] == 'M');
    assert("Meta"@[1] == 'e');
    assert("Meta"@[2] == 't');
    assert("Meta"@[3] == 'a');
    assert("ArrowUp"@.len() == 7);
    assert("ArrowUp"@[0] == 'A');
    assert("ArrowUp"@[1] == 'r');
    assert("ArrowUp"@[2] == 'r');
    assert("ArrowUp"@[3] == 'o');
    assert("ArrowUp"@[4] == 'w');
    assert("ArrowUp"@[5] == 'U');
    assert("ArrowUp"@[6] == 'p');
    assert("ArrowDown"@.len() == 9);
    assert("ArrowDown"@[0] == 'A');
    assert("ArrowDown"@[1] == 'r');
    assert("ArrowDown"@[2] == 'r');
    assert("ArrowDown"@[3] == 'o');
    assert("ArrowDown"@[4] == 'w');
    assert("ArrowDown"@[5] == 'D');
    assert("ArrowDown"@[6] == 'o');
    assert("ArrowDown"@[7] == 'w');
    assert("ArrowDown"@[8] == 'n');
    assert("ArrowLeft"@.len() == 9);
    assert("ArrowLeft"@[0] == 'A');
    assert("ArrowLeft"@[1] == 'r');
    assert("ArrowLeft"@[2] == 'r');
    assert("ArrowLeft"@[3] == 'o');
    assert("ArrowLeft"@[4] == 'w');
    assert("ArrowLeft"@[5] == 'L');
    assert("ArrowLeft"@[6] == 'e');
    assert("ArrowLeft"@[7] == 'f');
    assert("ArrowLeft"@[8] == 't');
    assert("ArrowRight"@.len() == 10);
    assert("ArrowRight"@[0] == 'A');
    assert("ArrowRight"@[1] == 'r');
    assert("ArrowRight"@[2] == 'r');
    assert("ArrowRight"@[3] == 'o');
    assert("ArrowRight"@[4] == 'w');
    assert("ArrowRight"@[5] == 'R');
    assert("ArrowRight"@[6] == 'i');
    assert("ArrowRight"@[7] == 'g');
    assert("ArrowRight"@[8] == 'h');
    assert("ArrowRight"@[9] == 't');
    assert("Delete"@.len() == 6);
    assert("Delete"@[0] == 'D');
    assert("Delete"@[1] == 'e');
    assert("Delete"@[2] == 'l');
    assert("Delete"@[3] == 'e');
    assert("Delete"@[4] == 't');
    assert("Delete"@[5] == 'e');
    assert("Home"@.len() == 4);
    assert("Home"@[0] == 'H');
    assert("Home"@[1] == 'o');
    assert("Home"@[2] == 'm');
    assert("Home"@[3] == 'e');
    assert("End"@.len() == 3);
    assert("End"@[0] == 'E');
    assert("End"@[1] == 'n');
    assert("End"@[2] == 'd');
    assert("PageUp"@.len() == 6);
    assert("PageUp"@[0] == 'P');
    assert("PageUp"@[1] == 'a');
    assert("PageUp"@[2] == 'g');
    assert("PageUp"@[3] == 'e');
    assert("PageUp"@[4] == 'U');
    assert("PageUp"@[5] == 'p');
    assert("PageDown"@.len() == 8);
    assert("PageDown"@[0] == 'P');
    assert("PageDown"@[1] == 'a');
    assert("PageDown"@[2] == 'g');
    assert("PageDown"@[3] == 'e');
    assert("PageDown"@[4] == 'D');
    assert("PageDown"@[5] == 'o');
    assert("PageDown"@[6] == 'w');
    assert("PageDown"@[7] == 'n');
    assert("F1"@.len() == 2);
    assert("F1"@[0] == 'F');
    assert("F1"@[1] == '1');
    assert("F2"@.len() == 2);
    assert("F2"@[0] == 'F');
    assert("F2"@[1] == '2');
    assert("F3"@.len() == 2);
    assert("F3"@[0] == 'F');
    assert("F3"@[1] == '3');
    assert("F4"@.len() == 2);
    assert("F4"@[0] == 'F');
    assert("F4"@[1] == '4');
    assert("F5"@.len() == 2);
    assert("F5"@[0] == 'F');
    assert("F5"@[1] == '5');
    assert("F6"@.len() == 2);
    assert("F6"@[0] == 'F');
    assert("F6"@[1] == '6');
    assert("F7"@.len() == 2);
    assert("F7"@[0] == 'F');
    assert("F7"@[1] == '7');
    assert("F8"@.len() == 2);
    assert("F8"@[0] == 'F');
    assert("F8"@[1] == '8');
    assert("F9"@.len() == 2);
    assert("F9"@[0] == 'F');
    assert("F9"@[1] == '9');
    assert("F10"@.len() == 3);
    assert("F10"@[0] == 'F');
    assert("F10"@[1] == '1');
    assert("F10"@[2] == '0');
    assert("F11"@.len() == 3);
    assert("F11"@[0] == 'F');
    assert("F11"@[1] == '1');
    assert("F11"@[2] == '1');
    assert("F12"@.len() == 3);
    assert("F12"@[0] == 'F');
    assert("F12"@[1] == '1');
    assert("F12"@[2] == '2');
}

/// Most keys held at once.
pub const MAX_PRESSED_KEYS: usize = 256;

/// Largest clipboard text accepted or returned, in UTF-8 bytes (16 KiB).
pub const MAX_CLIPBOARD_BYTES: usize = 16384;

/// Largest encoded reply sent on the input channel, in bytes.
pub const MAX_REPLY_BYTES: usize = 20000;

/// Largest message accepted on the input channel, in bytes.
pub const MAX_MESSAGE_BYTES: usize = 20000;

/// Input-channel messages are handled only when they are text of at most 20,000 bytes;
/// anything else is dropped unread.
pub fn input_message_accepted(is_string: bool, len: usize) -> (r: bool)
    ensures
        r == (is_string && len <= MAX_MESSAGE_BYTES),
{
    is_string && len <= MAX_MESSAGE_BYTES
}

/// A mouse button.
#[derive(Clone, Copy, PartialEq, Eq, Structural, Debug)]
pub enum MouseButton {
    Left,
    Middle,
    Right,
}

/// A native input step, performed in order.
#[derive(Clone, Copy, PartialEq, Eq, Structural, Debug)]
pub enum Action {
    PressKey(KeyCode),
    ReleaseKey(KeyCode),
    ClickKey(KeyCode),
    PressButton(MouseButton),
    ReleaseButton(MouseButton),
    Scroll(i32),
    /// Put the request's text on the clipboard.
    SetClipboard,
    /// Wait this many milliseconds.
    Pause(u64),
}

/// An input request, decoded from the browser's message (pointer moves are handled natively).
#[derive(Clone, Copy, PartialEq, Eq, Structural, Debug)]
pub enum InputEvent {
    Button { down: bool, button: Option<u8> },
    Scroll { delta: Option<i32> },
    ReleaseAll,
    Clipboard { paste: bool, text_bytes: usize },
    Key { down: bool, key: Option<KeyCode> },
    Ignored,
}

/// Why an input request ends the input session.
#[derive(Clone, Copy, PartialEq, Eq, Structural, Debug)]
pub enum InputError {
    ClipboardTooLarge,
    TooManyKeys,
}

/// What is currently held on the device.
pub struct InputView {
    pub buttons: Seq<bool>,
    pub keys: Seq<KeyCode>,
}

/// Pressed keys and buttons of one desktop session.
pub struct InputState {
    buttons: [bool; 3],
    keys: Vec<KeyCode>,
    clipboard: bool,
    macos: bool,
}

impl View for InputState {
    type V = InputView;

    closed spec fn view(&self) -> InputView {
        InputView { buttons: self.buttons@, keys: self.keys@ }
    }
}

/// The button numbered `n` by the browser: 0 left, 1 middle, 2 right.
pub open spec fn button_of(n: u8) -> Option<MouseButton> {
    if n == 0 {
        Some(MouseButton::Left)
    } else if n == 1 {
        Some(MouseButton::Middle)
    } else if n == 2 {
        Some(MouseButton::Right)
    } else {
        None
    }
}

/// Releases of every held key, in the order they were pressed.
pub open spec fn key_releases(keys: Seq<KeyCode>) -> Seq<Action> {
    keys.map_values(|k: KeyCode| Action::ReleaseKey(k))
}

/// Releases of every held button: left, middle, right.
pub open spec fn button_releases(buttons: Seq<bool>) -> Seq<Action> {
    (if buttons[0] { seq![Action::ReleaseButton(MouseButton::Left)] } else { Seq::empty() })
        + (if buttons[1] { seq![Action::ReleaseButton(MouseButton::Middle)] } else { Seq::empty() })
        + (if buttons[2] { seq![Action::ReleaseButton(MouseButton::Right)] } else { Seq::empty() })
}

/// The modifier of clipboard shortcuts: Command on macOS, Control elsewhere.
pub open spec fn shortcut_modifier(macos: bool) -> KeyCode {
    if macos {
        KeyCode::Meta
    } else {
        KeyCode::Control
    }
}

/// A clipboard shortcut: every held key is released, then modifier+letter is typed.
pub open spec fn shortcut_actions(keys: Seq<KeyCode>, macos: bool, letter: char) -> Seq<Action> {
    key_releases(keys) + seq![
        Action::PressKey(shortcut_modifier(macos)),
        Action::Pause(20),
        Action::ClickKey(KeyCode::Unicode(letter)),
        Action::ReleaseKey(shortcut_modifier(macos)),
    ]
}

/// `keys` without `k`, order kept.
pub open spec fn without_key(keys: Seq<KeyCode>, k: KeyCode) -> Seq<KeyCode> {
    keys.filter(|x: KeyCode| x != k)
}

/// The browser numbers buttons 0 left, 1 middle, 2 right, and any other number is no
/// button; a pressed or released button acts on that same button, and a clipboard
/// shortcut holds Command on macOS and Control elsewhere.
pub proof fn law_buttons_and_modifiers_keep_their_meaning(n: u8)
    ensures
        button_of(0) == Some(MouseButton::Left),
        button_of(1) == Some(MouseButton::Middle),
        button_of(2) == Some(MouseButton::Right),
        n > 2 ==> button_of(n) is None,
        shortcut_modifier(true) == KeyCode::Meta,
        shortcut_modifier(false) == KeyCode::Control,
{
}

impl InputState {
    /// No key is held twice, and at most 256 keys are held.
    pub closed spec fn wf(self) -> bool {
        self.keys@.no_duplicates() && self.keys@.len() <= 256
    }

    /// Whether clipboard writes are allowed.
    pub closed spec fn clipboard_enabled(self) -> bool {
        self.clipboard
    }

    /// Whether shortcuts use the macOS modifier.
    pub closed spec fn on_macos(self) -> bool {
        self.macos
    }

    /// Nothing held yet.
    pub fn new(clipboard: bool, macos: bool) -> (s: Self)
        ensures
            s.wf(),
            s@.keys == Seq::<KeyCode>::empty(),
            s@.buttons == seq![false, false, false],
            s.clipboard_enabled() == clipboard,
            s.on_macos() == macos,
    {
        let s = InputState { buttons: [false, false, false], keys: Vec::new(), clipboard, macos };
        proof {
            assert(s@.buttons =~= seq![false, false, false]);
        }
        s
    }

    /// Releases every held key, in the order pressed, and forgets them.
    fn release_keys(&mut self, out: &mut Vec<Action>)
        requires
            old(self).wf(),
        ensures
            final(self).wf(),
            final(self)@.keys == Seq::<KeyCode>::empty(),
            final(self)@.buttons == old(self)@.buttons,
            final(self).clipboard_enabled() == old(self).clipboard_enabled(),
            final(self).on_macos() == old(self).on_macos(),
            final(out)@ == old(out)@ + key_releases(old(self)@.keys),
    {
        let mut i: usize = 0;
        while i < self.keys.len()
            invariant
                i <= self.keys.len(),
                self.keys@ == old(self).keys@,
                out@ == old(out)@ + key_releases(self.keys@.take(i as int)),
            decreases self.keys.len() - i,
        {
            out.push(Action::ReleaseKey(self.keys[i]));
            proof {
                assert(key_releases(self.keys@.take(i + 1)) =~= key_releases(self.keys@.take(i as int)).push(
                    Action::ReleaseKey(self.keys@[i as int]),
                ));
            }
            i = i + 1;
        }
        proof {
            assert(self.keys@.take(self.keys@.len() as int) =~= self.keys@);
        }
        self.keys = Vec::new();
    }

    /// Releases every held key and button and forgets them; used when the session ends,
    /// the display changes or the browser asks to release everything.
    pub fn release_all(&mut self) -> (actions: Vec<Action>)
        requires
            old(self).wf(),
        ensures
            final(self).wf(),
            final(self)@.keys == Seq::<KeyCode>::empty(),
            final(self)@.buttons == seq![false, false, false],
            final(self).clipboard_enabled() == old(self).clipboard_enabled(),
            final(self).on_macos() == old(self).on_macos(),
            actions@ == key_releases(old(self)@.keys) + button_releases(old(self)@.buttons),
    {
        let mut out: Vec<Action> = Vec::new();
        self.release_keys(&mut out);
        let ghost after_keys = out@;
        if self.buttons[0] {
            out.push(Action::ReleaseButton(MouseButton::Left));
        }
        let ghost after_left = out@;
        if self.buttons[1] {
            out.push(Action::ReleaseButton(MouseButton::Middle));
        }
        let ghost after_middle = out@;
        if self.buttons[2] {
            out.push(Action::ReleaseButton(MouseButton::Right));
        }
        proof {
            assert(out@ =~= key_releases(old(self)@.keys) + button_releases(old(self)@.buttons));
        }
        self.buttons = [false, false, false];
        proof {
            assert(self@.buttons =~= seq![false, false, false]);
        }
        out
    }

    /// The steps of a clipboard shortcut (`letter` is `c`, `x` or `v`).
    pub fn shortcut(&mut self, letter: char) -> (actions: Vec<Action>)
        requires
            old(self).wf(),
        ensures
            final(self).wf(),
            final(self)@.keys == Seq::<KeyCode>::empty(),
            final(self)@.buttons == old(self)@.buttons,
            final(self).clipboard_enabled() == old(self).clipboard_enabled(),
            final(self).on_macos() == old(self).on_macos(),
            actions@ == shortcut_actions(old(self)@.keys, old(self).on_macos(), letter),
    {
        let mut out: Vec<Action> = Vec::new();
        self.release_keys(&mut out);
        let modifier = if self.macos { KeyCode::Meta } else { KeyCode::Control };
        out.push(Action::PressKey(modifier));
        out.push(Action::Pause(20));
        out.push(Action::ClickKey(KeyCode::Unicode(letter)));
        out.push(Action::ReleaseKey(modifier));
        proof {
            assert(out@ =~= shortcut_actions(old(self)@.keys, old(self).on_macos(), letter));
        }
        out
    }

    /// Applies one input request and returns the native steps it takes.
    pub fn apply(&mut self, event: InputEvent) -> (r: Result<Vec<Action>, InputError>)
        requires
            old(self).wf(),
        ensures
            final(self).wf(),
            final(self).clipboard_enabled() == old(self).clipboard_enabled(),
            final(self).on_macos() == old(self).on_macos(),
            event matches InputEvent::Button { down, button } ==> match button {
                Some(n) if button_of(n) is Some => r matches Ok(a) && a@ == seq![
                    if down { Action::PressButton(button_of(n)->0) } else { Action::ReleaseButton(button_of(n)->0) },
                ] && final(self)@ == (InputView { buttons: old(self)@.buttons.update(n as int, down), ..old(self)@ }),
                _ => r matches Ok(a) && a@.len() == 0 && final(self)@ == old(self)@,
            },
            event matches InputEvent::Scroll { delta } ==> (r matches Ok(a) && a@ == seq![
                Action::Scroll(
                    match delta {
                        Some(d) => if d < -20 { -20i32 } else if d > 20 { 20i32 } else { d },
                        None => 0i32,
                    },
                ),
            ] && final(self)@ == old(self)@),
            event is ReleaseAll ==> (r matches Ok(a) && a@ == key_releases(old(self)@.keys) + button_releases(
                old(self)@.buttons,
            ) && final(self)@ == (InputView { buttons: seq![false, false, false], keys: Seq::empty() })),
            event matches InputEvent::Clipboard { paste, text_bytes } ==> if text_bytes > MAX_CLIPBOARD_BYTES {
                r == Err::<Vec<Action>, InputError>(InputError::ClipboardTooLarge) && final(self)@ == old(self)@
            } else if !old(self).clipboard_enabled() {
                r matches Ok(a) && a@.len() == 0 && final(self)@ == old(self)@
            } else if !paste {
                r matches Ok(a) && a@ == seq![Action::SetClipboard] && final(self)@ == old(self)@
            } else {
                r matches Ok(a) && a@ == seq![Action::SetClipboard, Action::Pause(30)] + shortcut_actions(
                    old(self)@.keys,
                    old(self).on_macos(),
                    'v',
                ) && final(self)@ == (InputView { keys: Seq::empty(), ..old(self)@ })
            },
            event matches InputEvent::Key { down, key } ==> match key {
                None => r matches Ok(a) && a@.len() == 0 && final(self)@ == old(self)@,
                Some(k) => if down {
                    if old(self)@.keys.contains(k) {
                        r matches Ok(a) && a@ == seq![Action::PressKey(k)] && final(self)@ == old(self)@
                    } else if old(self)@.keys.len() >= MAX_PRESSED_KEYS {
                        r == Err::<Vec<Action>, InputError>(InputError::TooManyKeys) && final(self)@ == old(self)@
                    } else {
                        r matches Ok(a) && a@ == seq![Action::PressKey(k)] && final(self)@ == (InputView {
                            keys: old(self)@.keys.push(k),
                            ..old(self)@
                        })
                    }
                } else {
                    r matches Ok(a) && a@ == seq![Action::ReleaseKey(k)] && final(self)@ == (InputView {
                        keys: without_key(old(self)@.keys, k),
                        ..old(self)@
                    })
                },
            },
            event is Ignored ==> (r matches Ok(a) && a@.len() == 0 && final(self)@ == old(self)@),
    {
        match event {
            InputEvent::Button { down, button } => {
                let (index, b) = match button {
                    Some(0) => (0usize, MouseButton::Left),
                    Some(1) => (1usize, MouseButton::Middle),
                    Some(2) => (2usize, MouseButton::Right),
                    _ => {
                        return Ok(Vec::new());
                    },
                };
                self.buttons[index] = down;
                let mut out = Vec::new();
                out.push(if down { Action::PressButton(b) } else { Action::ReleaseButton(b) });
                proof {
                    assert(self@.buttons =~= old(self)@.buttons.update(index as int, down));
                    assert(out@ =~= seq![if down { Action::PressButton(b) } else { Action::ReleaseButton(b) }]);
                }
                Ok(out)
            },
            InputEvent::Scroll { delta } => {
                let d = match delta {
                    Some(d) => if d < -20 { -20 } else if d > 20 { 20 } else { d },
                    None => 0,
                };
                let mut out = Vec::new();
                out.push(Action::Scroll(d));
                proof {
                    assert(out@ =~= seq![Action::Scroll(d)]);
                }
                Ok(out)
            },
            InputEvent::ReleaseAll => Ok(self.release_all()),
            InputEvent::Clipboard { paste, text_bytes } => {
                if text_bytes > MAX_CLIPBOARD_BYTES {
                    return Err(InputError::ClipboardTooLarge);
                }
                let mut out = Vec::new();
                if !self.clipboard {
                    return Ok(out);
                }
                out.push(Action::SetClipboard);
                if paste {
                    out.push(Action::Pause(30));
                    let mut rest = self.shortcut('v');
                    out.append(&mut rest);
                    proof {
                        assert(out@ =~= seq![Action::SetClipboard, Action::Pause(30)] + shortcut_actions(
                            old(self)@.keys,
                            old(self).on_macos(),
                            'v',
                        ));
                    }
                } else {
                    proof {
                        assert(out@ =~= seq![Action::SetClipboard]);
                    }
                }
                Ok(out)
            },
            InputEvent::Key { down, key } => {
                let k = match key {
                    None => {
                        return Ok(Vec::new());
                    },
                    Some(k) => k,
                };
                let mut out = Vec::new();
                if down {
                    if !self.holds(k) {
                        if self.keys.len() >= MAX_PRESSED_KEYS {
                            return Err(InputError::TooManyKeys);
                        }
                        self.keys.push(k);
                        proof {
                            assert(self.keys@.no_duplicates()) by {
                                assert forall|i: int, j: int|
                                    0 <= i < self.keys@.len() && 0 <= j < self.keys@.len() && i != j
                                    implies self.keys@[i] != self.keys@[j] by {
                                    if i == self.keys@.len() - 1 {
                                        assert(old(self).keys@[j] == self.keys@[j]);
                                    } else if j == self.keys@.len() - 1 {
                                        assert(old(self).keys@[i] == self.keys@[i]);
                                    }
                                }
                            }
                        }
                    }
                    out.push(Action::PressKey(k));
                    proof {
                        assert(out@ =~= seq![Action::PressKey(k)]);
                    }
                } else {
                    self.forget(k);
                    out.push(Action::ReleaseKey(k));
                    proof {
                        assert(out@ =~= seq![Action::ReleaseKey(k)]);
                    }
                }
                Ok(out)
            },
            InputEvent::Ignored => Ok(Vec::new()),
        }
    }

    fn holds(&self, k: KeyCode) -> (r: bool)
        ensures
            r == self@.keys.contains(k),
    {
        let mut i: usize = 0;
        while i < self.keys.len()
            invariant
                i <= self.keys.len(),
                forall|j: int| 0 <= j < i ==> self.keys@[j] != k,
            decreases self.keys.len() - i,
        {
            if self.keys[i] == k {
                return true;
            }
            i = i + 1;
        }
        false
    }

    fn forget(&mut self, k: KeyCode)
        requires
            old(self).wf(),
        ensures
            final(self).wf(),
            final(self)@ == (InputView { keys: without_key(old(self)@.keys, k), ..old(self)@ }),
            final(self).clipboard_enabled() == old(self).clipboard_enabled(),
            final(self).on_macos() == old(self).on_macos(),
    {
        let mut kept: Vec<KeyCode> = Vec::new();
        let mut i: usize = 0;
        while i < self.keys.len()
            invariant
                i <= self.keys.len(),
                self.keys@ == old(self).keys@,
                old(self).keys@.no_duplicates(),
                kept@ == without_key(self.keys@.take(i as int), k),
                kept@.no_duplicates(),
                kept@.len() <= i,
                forall|j: int| 0 <= j < kept@.len() ==> #[trigger] self.keys@.take(i as int).contains(kept@[j]),
            decreases self.keys.len() - i,
        {
            let x = self.keys[i];
            proof {
                reveal_with_fuel(Seq::filter, 1);
                assert(self.keys@.take(i + 1).drop_last() =~= self.keys@.take(i as int));
            }
            if x != k {
                proof {
                    assert forall|j: int| 0 <= j < kept@.len() implies kept@[j] != x by {
                        assert(self.keys@.take(i as int).contains(kept@[j]));
                        let m = choose|m: int| 0 <= m < i && self.keys@.take(i as int)[m] == kept@[j];
                        assert(self.keys@[m] == kept@[j]);
                    }
                }
                kept.push(x);
            }
            proof {
                assert forall|j: int| 0 <= j < kept@.len() implies #[trigger] self.keys@.take(i + 1).contains(kept@[j]) by {
                    if j < kept@.len() - 1 || x == k {
                        assert(self.keys@.take(i as int).contains(kept@[j]));
                        let m = choose|m: int| 0 <= m < i && self.keys@.take(i as int)[m] == kept@[j];
                        assert(self.keys@.take(i + 1)[m] == kept@[j]);
                    } else {
                        assert(self.keys@.take(i + 1)[i as int] == kept@[j]);
                    }
                }
            }
            i = i + 1;
        }
        proof {
            assert(self.keys@.take(self.keys@.len() as int) =~= self.keys@);
        }
        self.keys = kept;
    }
}

/// A key released by the browser is no longer held.
pub proof fn law_keys_released_after_key_up(v: InputView, k: KeyCode)
    ensures
        !without_key(v.keys, k).contains(k),
{
    let f = |x: KeyCode| x != k;
    if without_key(v.keys, k).contains(k) {
        let i = choose|i: int| 0 <= i < without_key(v.keys, k).len() && without_key(v.keys, k)[i] == k;
        v.keys.lemma_filter_pred(f, i);
    }
}

/// Milliseconds after which a fresh key frame is sent even without a request.
pub const KEYFRAME_REFRESH_MS: u64 = 2000;

/// What the capture loop does before encoding a frame.
#[derive(Clone, Copy, PartialEq, Eq, Structural, Debug)]
pub struct FramePlan {
    /// Rebuild the encoder with the requested settings.
    pub reconfigure: bool,
    /// Encode this frame as a key frame.
    pub keyframe: bool,
}

/// New settings rebuild the encoder and force a key frame; a key frame is also sent when
/// the browser asked for one (picture loss) or two seconds passed since the last one.
pub fn frame_plan(requested: VideoSettings, current: VideoSettings, keyframe_requested: bool, since_keyframe_ms: u64) -> (p: FramePlan)
    ensures
        p.reconfigure == (requested != current),
        p.keyframe == (requested != current || keyframe_requested || since_keyframe_ms >= KEYFRAME_REFRESH_MS),
{
    let reconfigure = requested != current;
    FramePlan { reconfigure, keyframe: reconfigure || keyframe_requested || since_keyframe_ms >= KEYFRAME_REFRESH_MS }
}

/// The requests of the desktop input channel.
#[derive(Clone, Copy, PartialEq, Eq, Structural, Debug)]
pub enum Command {
    VideoConfigure,
    VideoPing,
    DisplayList,
    DisplaySelect,
    ClipboardRead,
    ClipboardCopy,
    ClipboardCut,
    ClipboardWrite,
    ClipboardPaste,
    Move,
    Down,
    Up,
    Scroll,
    ReleaseAll,
    KeyDown,
    KeyUp,
    Unknown,
}

/// The request a message `type` names.
pub open spec fn command_of(kind: Seq<char>) -> Command {
    if kind == "video.configure"@ {
        Command::VideoConfigure
    } else if kind == "video.ping"@ {
        Command::VideoPing
    } else if kind == "display.list"@ {
        Command::DisplayList
    } else if kind == "display.select"@ {
        Command::DisplaySelect
    } else if kind == "clipboard.read"@ {
        Command::ClipboardRead
    } else if kind == "clipboard.copy"@ {
        Command::ClipboardCopy
    } else if kind == "clipboard.cut"@ {
        Command::ClipboardCut
    } else if kind == "clipboard"@ {
        Command::ClipboardWrite
    } else if kind == "clipboard.paste"@ {
        Command::ClipboardPaste
    } else if kind == "move"@ {
        Command::Move
    } else if kind == "down"@ {
        Command::Down
    } else if kind == "up"@ {
        Command::Up
    } else if kind == "scroll"@ {
        Command::Scroll
    } else if kind == "releaseAll"@ {
        Command::ReleaseAll
    } else if kind == "keyDown"@ {
        Command::KeyDown
    } else if kind == "keyUp"@ {
        Command::KeyUp
    } else {
        Command::Unknown
    }
}

/// Classifies an input-channel message by its `type`; unknown requests are ignored.
pub fn command(kind: &str) -> (c: Command)
    ensures
        c == command_of(kind@),
{
    if text_eq(kind, "video.configure") {
        Command::VideoConfigure
    } else if text_eq(kind, "video.ping") {
        Command::VideoPing
    } else if text_eq(kind, "display.list") {
        Command::DisplayList
    } else if text_eq(kind, "display.select") {
        Command::DisplaySelect
    } else if text_eq(kind, "clipboard.read") {
        Command::ClipboardRead
    } else if text_eq(kind, "clipboard.copy") {
        Command::ClipboardCopy
    } else if text_eq(kind, "clipboard.cut") {
        Command::ClipboardCut
    } else if text_eq(kind, "clipboard") {
        Command::ClipboardWrite
    } else if text_eq(kind, "clipboard.paste") {
        Command::ClipboardPaste
    } else if text_eq(kind, "move") {
        Command::Move
    } else if text_eq(kind, "down") {
        Command::Down
    } else if text_eq(kind, "up") {
        Command::Up
    } else if text_eq(kind, "scroll") {
        Command::Scroll
    } else if text_eq(kind, "releaseAll") {
        Command::ReleaseAll
    } else if text_eq(kind, "keyDown") {
        Command::KeyDown
    } else if text_eq(kind, "keyUp") {
        Command::KeyUp
    } else {
        Command::Unknown
    }
}

/// The input request a message stands for, from its `type`, `button`, `delta`, the UTF-8
/// length of its `text` and its `key` name. Pointer moves and the requests answered by the
/// input loop itself are not input requests and are ignored here.
pub open spec fn event_of(
    kind: Seq<char>,
    button: Option<u8>,
    delta: Option<i32>,
    text_bytes: usize,
    key_name: Option<Seq<char>>,
) -> InputEvent {
    let c = command_of(kind);
    if c is Down || c is Up {
        InputEvent::Button { down: c is Down, button }
    } else if c is Scroll {
        InputEvent::Scroll { delta }
    } else if c is ReleaseAll {
        InputEvent::ReleaseAll
    } else if c is ClipboardWrite || c is ClipboardPaste {
        InputEvent::Clipboard { paste: c is ClipboardPaste, text_bytes }
    } else if c is KeyDown || c is KeyUp {
        InputEvent::Key {
            down: c is KeyDown,
            key: match key_name {
                Some(n) => key_of(n),
                None => None,
            },
        }
    } else {
        InputEvent::Ignored
    }
}

/// Each message `type` names its own request: `clipboard` is a write, `clipboard.paste`
/// a paste, `down` a press, `up` a release, and so on.
pub proof fn law_message_types_keep_their_meaning()
    ensures
        command_of("video.configure"@) == Command::VideoConfigure,
        command_of("video.ping"@) == Command::VideoPing,
        command_of("display.list"@) == Command::DisplayList,
        command_of("display.select"@) == Command::DisplaySelect,
        command_of("clipboard.read"@) == Command::ClipboardRead,
        command_of("clipboard.copy"@) == Command::ClipboardCopy,
        command_of("clipboard.cut"@) == Command::ClipboardCut,
        command_of("clipboard"@) == Command::ClipboardWrite,
        command_of("clipboard.paste"@) == Command::ClipboardPaste,
        command_of("move"@) == Command::Move,
        command_of("down"@) == Command::Down,
        command_of("up"@) == Command::Up,
        command_of("scroll"@) == Command::Scroll,
        command_of("releaseAll"@) == Command::ReleaseAll,
        command_of("keyDown"@) == Command::KeyDown,
        command_of("keyUp"@) == Command::KeyUp,
{
    reveal_strlit("video.configure");
    reveal_strlit("video.ping");
    reveal_strlit("display.list");
    reveal_strlit("display.select");
    reveal_strlit("clipboard.read");
    reveal_strlit("clipboard.copy");
    reveal_strlit("clipboard.cut");
    reveal_strlit("clipboard");
    reveal_strlit("clipboard.paste");
    reveal_strlit("move");
    reveal_strlit("down");
    reveal_strlit("up");
    reveal_strlit("scroll");
    reveal_strlit("releaseAll");
    reveal_strlit("keyDown");
    reveal_strlit("keyUp");
    assert("video.configure"@.len() == 15);
    assert("video.configure"@[0] == 'v');
    assert("video.configure"@[1] == 'i');
    assert("video.configure"@[2] == 'd');
    assert("video.configure"@[3] == 'e');
    assert("video.configure"@[4] == 'o');
    assert("video.configure"@[5] == '.');
    assert("video.configure"@[6] == 'c');
    assert("video.configure"@[7] == 'o');
    assert("video.configure"@[8] == 'n');
    assert("video.configure"@[9] == 'f');
    assert("video.configure"@[10] == 'i');
    assert("video.configure"@[11] == 'g');
    assert("video.configure"@[12] == 'u');
    assert("video.configure"@[13] == 'r');
    assert("video.configure"@[14] == 'e');
    assert("video.ping"@.len() == 10);
    assert("video.ping"@[0] == 'v');
    assert("video.ping"@[1] == 'i');
    assert("video.ping"@[2] == 'd');
    assert("video.ping"@[3] == 'e');
    assert("video.ping"@[4] == 'o');
    assert("video.ping"@[5] == '.');
    assert("video.ping"@[6] == 'p');
    assert("video.ping"@[7] == 'i');
    assert("video.ping"@[8] == 'n');
    assert("video.ping"@[9] == 'g');
    assert("display.list"@.len() == 12);
    assert("display.list"@[0] == 'd');
    assert("display.list"@[1] == 'i');
    assert("display.list"@[2] == 's');
    assert("display.list"@[3] == 'p');
    assert("display.list"@[4] == 'l');
    assert("display.list"@[5] == 'a');
    assert("display.list"@[6] == 'y');
    assert("display.list"@[7] == '.');
    assert("display.list"@[8] == 'l');
    assert("display.list"@[9] == 'i');
    assert("display.list"@[10] == 's');
    assert("display.list"@[11] == 't');
    assert("display.select"@.len() == 14);
    assert("display.select"@[0] == 'd');
    assert("display.select"@[1] == 'i');
    assert("display.select"@[2] == 's');
    assert("display.select"@[3] == 'p');
    assert("display.select"@[4] == 'l');
    assert("display.select"@[5] == 'a');
    assert("display.select"@[6] == 'y');
    assert("display.select"@[7] == '.');
    assert("display.select"@[8] == 's');
    assert("display.select"@[9] == 'e');
    assert("display.select"@[10] == 'l');
    assert("display.select"@[11] == 'e');
    assert("display.select"@[12] == 'c');
    assert("display.select"@[13] == 't');
    assert("clipboard.read"@.len() == 14);
    assert("clipboard.read"@[0] == 'c');
    assert("clipboard.read"@[1] == 'l');
    assert("clipboard.read"@[2] == 'i');
    assert("clipboard.read"@[3] == 'p');
    assert("clipboard.read"@[4] == 'b');
    assert("clipboard.read"@[5] == 'o');
    assert("clipboard.read"@[6] == 'a');
    assert("clipboard.read"@[7] == 'r');
    assert("clipboard.read"@[8] == 'd');
    assert("clipboard.read"@[9] == '.');
    assert("clipboard.read"@[10] == 'r');
    assert("clipboard.read"@[11] == 'e');
    assert("clipboard.read"@[12] == 'a');
    assert("clipboard.read"@[13] == 'd');
    assert("clipboard.copy"@.len() == 14);
    assert("clipboard.copy"@[0] == 'c');
    assert("clipboard.copy"@[1] == 'l');
    assert("clipboard.copy"@[2] == 'i');
    assert("clipboard.copy"@[3] == 'p');
    assert("clipboard.copy"@[4] == 'b');
    assert("clipboard.copy"@[5] == 'o');
    assert("clipboard.copy"@[6] == 'a');
    assert("clipboard.copy"@[7] == 'r');
    assert("clipboard.copy"@[8] == 'd');
    assert("clipboard.copy"@[9] == '.');
    assert("clipboard.copy"@[10] == 'c');
    assert("clipboard.copy"@[11] == 'o');
    assert("clipboard.copy"@[12] == 'p');
    assert("clipboard.copy"@[13] == 'y');
    assert("clipboard.cut"@.len() == 13);
    assert("clipboard.cut"@[0] == 'c');
    assert("clipboard.cut"@[1] == 'l');
    assert("clipboard.cut"@[2] == 'i');
    assert("clipboard.cut"@[3] == 'p');
    assert("clipboard.cut"@[4] == 'b');
    assert("clipboard.cut"@[5] == 'o');
    assert("clipboard.cut"@[6] == 'a');
    assert("clipboard.cut"@[7] == 'r');
    assert("clipboard.cut"@[8] == 'd');
    assert("clipboard.cut"@[9] == '.');
    assert("clipboard.cut"@[10] == 'c');
    assert("clipboard.cut"@[11] == 'u');
    assert("clipboard.cut"@[12] == 't');
    assert("clipboard"@.len() == 9);
    assert("clipboard"@[0] == 'c');
    assert("clipboard"@[1] == 'l');
    assert("clipboard"@[2] == 'i');
    assert("clipboard"@[3] == 'p');
    assert("clipboard"@[4] == 'b');
    assert("clipboard"@[5] == 'o');
    assert("clipboard"@[6] == 'a');
    assert("clipboard"@[7] == 'r');
    assert("clipboard"@[8] == 'd');
    assert("clipboard.paste"@.len() == 15);
    assert("clipboard.paste"@[0] == 'c');
    assert("clipboard.paste"@[1] == 'l');
    assert("clipboard.paste"@[2] == 'i');
    assert("clipboard.paste"@[3] == 'p');
    assert("clipboard.paste"@[4] == 'b');
    assert("clipboard.paste"@[5] == 'o');
    assert("clipboard.paste"@[6] == 'a');
    assert("clipboard.paste"@[7] == 'r');
    assert("clipboard.paste"@[8] == 'd');
    assert("clipboard.paste"@[9] == '.');
    assert("clipboard.paste"@[10] == 'p');
    assert("clipboard.paste"@[11] == 'a');
    assert("clipboard.paste"@[12] == 's');
    assert("clipboard.paste"@[13] == 't');
    assert("clipboard.paste"@[14] == 'e');
    assert("move"@.len() == 4);
    assert("move"@[0] == 'm');
    assert("move"@[1] == 'o');
    assert("move"@[2] == 'v');
    assert("move"@[3] == 'e');
    assert("down"@.len() == 4);
    assert("down"@[0] == 'd');
    assert("down"@[1] == 'o');
    assert("down"@[2] == 'w');
    assert("down"@[3] == 'n');
    assert("up"@.len() == 2);
    assert("up"@[0] == 'u');
    assert("up"@[1] == 'p');
    assert("scroll"@.len() == 6);
    assert("scroll"@[0] == 's');
    assert("scroll"@[1] == 'c');
    assert("scroll"@[2] == 'r');
    assert("scroll"@[3] == 'o');
    assert("scroll"@[4] == 'l');
    assert("scroll"@[5] == 'l');
    assert("releaseAll"@.len() == 10);
    assert("releaseAll"@[0] == 'r');
    assert("releaseAll"@[1] == 'e');
    assert("releaseAll"@[2] == 'l');
    assert("releaseAll"@[3] == 'e');
    assert("releaseAll"@[4] == 'a');
    assert("releaseAll"@[5] == 's');
    assert("releaseAll"@[6] == 'e');
    assert("releaseAll"@[7] == 'A');
    assert("releaseAll"@[8] == 'l');
    assert("releaseAll"@[9] == 'l');
    assert("keyDown"@.len() == 7);
    assert("keyDown"@[0] == 'k');
    assert("keyDown"@[1] == 'e');
    assert("keyDown"@[2] == 'y');
    assert("keyDown"@[3] == 'D');
    assert("keyDown"@[4] == 'o');
    assert("keyDown"@[5] == 'w');
    assert("keyDown"@[6] == 'n');
    assert("keyUp"@.len() == 5);
    assert("keyUp"@[0] == 'k');
    assert("keyUp"@[1] == 'e');
    assert("keyUp"@[2] == 'y');
    assert("keyUp"@[3] == 'U');
    assert("keyUp"@[4] == 'p');
}

/// A clipboard write only sets the clipboard, and only `clipboard.paste` also pastes;
/// `down` presses and `up` releases the given button; `keyDown` presses and `keyUp`
/// releases the named key; pointer moves and the loop's own requests are no input.
pub proof fn law_input_requests_keep_their_meaning(
    button: Option<u8>,
    delta: Option<i32>,
    text_bytes: usize,
    key_name: Option<Seq<char>>,
)
    ensures
        event_of("clipboard"@, button, delta, text_bytes, key_name) == (InputEvent::Clipboard {
            paste: false,
            text_bytes,
        }),
        event_of("clipboard.paste"@, button, delta, text_bytes, key_name) == (InputEvent::Clipboard {
            paste: true,
            text_bytes,
        }),
        event_of("down"@, button, delta, text_bytes, key_name) == (InputEvent::Button { down: true, button }),
        event_of("up"@, button, delta, text_bytes, key_name) == (InputEvent::Button { down: false, button }),
        event_of("scroll"@, button, delta, text_bytes, key_name) == (InputEvent::Scroll { delta }),
        event_of("releaseAll"@, button, delta, text_bytes, key_name) == InputEvent::ReleaseAll,
        event_of("keyDown"@, button, delta, text_bytes, key_name) == (InputEvent::Key {
            down: true,
            key: match key_name {
                Some(n) => key_of(n),
                None => None,
            },
        }),
        event_of("keyUp"@, button, delta, text_bytes, key_name) == (InputEvent::Key {
            down: false,
            key: match key_name {
                Some(n) => key_of(n),
                None => None,
            },
        }),
        event_of("move"@, button, delta, text_bytes, key_name) == InputEvent::Ignored,
        event_of("clipboard.read"@, button, delta, text_bytes, key_name) == InputEvent::Ignored,
{
    law_message_types_keep_their_meaning();
}

/// The key name's text, where the message has one.
pub open spec fn name_view(key_name: Option<&str>) -> Option<Seq<char>> {
    match key_name {
        Some(n) => Some(n@),
        None => None,
    }
}

/// Decodes the fields of a browser input message into an input request.
pub fn input_event(
    kind: &str,
    button: Option<u8>,
    delta: Option<i32>,
    text_bytes: usize,
    key_name: Option<&str>,
) -> (e: InputEvent)
    ensures
        e == event_of(kind@, button, delta, text_bytes, name_view(key_name)),
        kind@ == "clipboard"@ ==> e == (InputEvent::Clipboard { paste: false, text_bytes }),
        kind@ == "clipboard.paste"@ ==> e == (InputEvent::Clipboard { paste: true, text_bytes }),
        kind@ == "down"@ ==> e == (InputEvent::Button { down: true, button }),
        kind@ == "up"@ ==> e == (InputEvent::Button { down: false, button }),
        kind@ == "keyDown"@ ==> e is Key && e->Key_down,
        kind@ == "keyUp"@ ==> e is Key && !e->Key_down,
{
    proof {
        law_input_requests_keep_their_meaning(button, delta, text_bytes, name_view(key_name));
    }
    match command(kind) {
        Command::Down => InputEvent::Button { down: true, button },
        Command::Up => InputEvent::Button { down: false, button },
        Command::Scroll => InputEvent::Scroll { delta },
        Command::ReleaseAll => InputEvent::ReleaseAll,
        Command::ClipboardWrite => InputEvent::Clipboard { paste: false, text_bytes },
        Command::ClipboardPaste => InputEvent::Clipboard { paste: true, text_bytes },
        Command::KeyDown | Command::KeyUp => {
            let k = match key_name {
                Some(n) => key(n),
                None => None,
            };
            InputEvent::Key { down: command(kind) == Command::KeyDown, key: k }
        },
        _ => InputEvent::Ignored,
    }
}

/// Unknown controls are ignored, and a key request naming no known key and more than one
/// character carries no key: neither reaches a native step (see `InputState::apply`).
pub proof fn law_unknown_input_is_ignored(
    kind: Seq<char>,
    button: Option<u8>,
    delta: Option<i32>,
    text_bytes: usize,
    key_name: Seq<char>,
)
    ensures
        command_of(kind) is Unknown ==> event_of(kind, button, delta, text_bytes, Some(key_name)) is Ignored,
        (command_of(kind) is KeyDown || command_of(kind) is KeyUp) && key_name.len() > 1 && key_of(key_name) is None
            ==> event_of(kind, button, delta, text_bytes, Some(key_name)) == (InputEvent::Key {
            down: command_of(kind) is KeyDown,
            key: None,
        }),
{
}

/// The reply to an explicit clipboard read, copy or cut.
#[derive(PartialEq, Eq, Debug)]
pub enum ClipboardReply {
    /// The clipboard text.
    Text(String),
    /// A `clipboard.result` code.
    Code(&'static str),
}

/// The UTF-8 length of a text as `str::len` reports it.
pub open spec fn utf8_len(s: Seq<char>) -> usize {
    vstd::utf8::encode_utf8(s).len() as usize
}

/// Answers a clipboard read: denied without the local opt-in, the text when it could be
/// read and is at most 16 KiB, unavailable otherwise.
pub fn clipboard_reply(enabled: bool, text: Option<String>) -> (r: ClipboardReply)
    ensures
        !enabled ==> r == ClipboardReply::Code("clipboardDenied"),
        enabled && text is Some && utf8_len(text->0@) <= MAX_CLIPBOARD_BYTES ==> r == ClipboardReply::Text(text->0),
        enabled && !(text is Some && utf8_len(text->0@) <= MAX_CLIPBOARD_BYTES) ==> r == ClipboardReply::Code("clipboardUnavailable"),
{
    if !enabled {
        return ClipboardReply::Code("clipboardDenied");
    }
    match text {
        Some(t) => {
            if t.as_str().len() <= MAX_CLIPBOARD_BYTES {
                ClipboardReply::Text(t)
            } else {
                ClipboardReply::Code("clipboardUnavailable")
            }
        },
        None => ClipboardReply::Code("clipboardUnavailable"),
    }
}

/// The JSON string literal of `text`, with `serde_json`'s escaping (`None` where
/// `serde_json` reports an error).
pub uninterp spec fn json_string_literal(text: Seq<char>) -> Option<Seq<char>>;

/// Calls `serde_json::to_string` on the text; the contract names the outcome, a function
/// of the text alone.
#[verifier::external_body]
fn encode_json_string(text: &str) -> (r: Option<String>)
    ensures
        r matches Some(e) ==> json_string_literal(text@) == Some(e@),
        r is None ==> json_string_literal(text@) is None,
{
    serde_json::to_string(text).ok()
}

/// The `clipboard.text` message carrying the JSON string literal `encoded`, its keys in
/// the order `serde_json` writes an object's keys.
pub open spec fn text_message(encoded: Seq<char>) -> Seq<char> {
    "{\"text\":"@ + encoded + ",\"type\":\"clipboard.text\"}"@
}

/// The `clipboard.result` message refusing a read without the local opt-in.
pub open spec fn denied_message() -> Seq<char> {
    "{\"code\":\"clipboardDenied\",\"type\":\"clipboard.result\"}"@
}

/// The `clipboard.result` message for a clipboard that cannot be read or returned.
pub open spec fn unavailable_message() -> Seq<char> {
    "{\"code\":\"clipboardUnavailable\",\"type\":\"clipboard.result\"}"@
}

/// The text of an optional string.
pub open spec fn opt_text(text: Option<String>) -> Option<Seq<char>> {
    match text {
        Some(t) => Some(t@),
        None => None,
    }
}

/// The message answering a clipboard read: denied without the local opt-in; the text
/// when it was read, is at most 16 KiB and its encoded message is at most 20,000 bytes;
/// unavailable otherwise.
pub open spec fn read_message(enabled: bool, text: Option<Seq<char>>) -> Seq<char> {
    if !enabled {
        denied_message()
    } else if text is Some && utf8_len(text->0) <= MAX_CLIPBOARD_BYTES && json_string_literal(text->0) is Some
        && utf8_len(text_message(json_string_literal(text->0)->0)) <= MAX_REPLY_BYTES {
        text_message(json_string_literal(text->0)->0)
    } else {
        unavailable_message()
    }
}

/// Encodes the answer to a clipboard read, copy or cut, keeping every reply within
/// 20,000 bytes.
pub fn clipboard_read_message(enabled: bool, text: Option<String>) -> (m: String)
    ensures
        m@ == read_message(enabled, opt_text(text)),
{
    if !enabled {
        return "{\"code\":\"clipboardDenied\",\"type\":\"clipboard.result\"}".to_owned();
    }
    let unavailable = "{\"code\":\"clipboardUnavailable\",\"type\":\"clipboard.result\"}".to_owned();
    let t = match text {
        None => {
            return unavailable;
        },
        Some(t) => t,
    };
    if t.as_str().len() > MAX_CLIPBOARD_BYTES {
        return unavailable;
    }
    let encoded = match encode_json_string(t.as_str()) {
        None => {
            return unavailable;
        },
        Some(e) => e,
    };
    let mut chars = chars_of("{\"text\":");
    let mut middle = chars_of(encoded.as_str());
    let mut tail = chars_of(",\"type\":\"clipboard.text\"}");
    chars.append(&mut middle);
    chars.append(&mut tail);
    let message = string_from_chars(&chars);
    proof {
        assert(message@ =~= text_message(encoded@));
    }
    if message.as_str().len() <= MAX_REPLY_BYTES {
        message
    } else {
        unavailable
    }
}

/// The acknowledgement of a clipboard write or paste.
pub fn clipboard_ack(enabled: bool) -> (code: &'static str)
    ensures
        enabled ==> code == "clipboardApplied",
        !enabled ==> code == "clipboardDenied",
{
    if enabled {
        "clipboardApplied"
    } else {
        "clipboardDenied"
    }
}

/// The shortcut letter of a copy or cut request; reads type nothing.
pub fn copy_letter(c: Command) -> (r: Option<char>)
    ensures
        c is ClipboardCut ==> r == Some('x'),
        c is ClipboardCopy ==> r == Some('c'),
        !(c is ClipboardCut || c is ClipboardCopy) ==> r is None,
{
    match c {
        Command::ClipboardCut => Some('x'),
        Command::ClipboardCopy => Some('c'),
        _ => None,
    }
}

/// What the agent knows of a display when choosing one.
#[derive(Clone, Copy, PartialEq, Eq, Structural, Debug)]
pub struct DisplayInfo {
    /// The display's identifier, where the platform reports one.
    pub id: Option<u32>,
    pub primary: bool,
}

/// Whether display `d` is the one asked for: the given identifier, or the primary display.
pub open spec fn display_matches(d: DisplayInfo, wanted: Option<u32>) -> bool {
    match wanted {
        Some(id) => d.id == Some(id),
        None => d.primary,
    }
}

/// Chooses the first display with the requested identifier, or the first primary display
/// when none is requested. A missing display is not replaced by another.
pub fn select_display(displays: &Vec<DisplayInfo>, wanted: Option<u32>) -> (r: Option<usize>)
    ensures
        r matches Some(i) ==> (i < displays@.len() && display_matches(displays@[i as int], wanted)
            && forall|j: int| 0 <= j < i ==> !display_matches(#[trigger] displays@[j], wanted)),
        r is None ==> forall|j: int| 0 <= j < displays@.len() ==> !display_matches(#[trigger] displays@[j], wanted),
{
    let mut i: usize = 0;
    while i < displays.len()
        invariant
            i <= displays@.len(),
            forall|j: int| 0 <= j < i ==> !display_matches(#[trigger] displays@[j], wanted),
        decreases displays.len() - i,
    {
        let d = displays[i];
        let hit = match wanted {
            Some(id) => d.id == Some(id),
            None => d.primary,
        };
        if hit {
            return Some(i);
        }
        i = i + 1;
    }
    None
}

/// The display selected by the shared selection value: `u32::MAX` means the primary display.
pub fn selected(id: u32) -> (r: Option<u32>)
    ensures
        id == u32::MAX ==> r is None,
        id != u32::MAX ==> r == Some(id),
{
    if id == u32::MAX {
        None
    } else {
        Some(id)
    }
}

/// The selection value that stands for a requested display, `u32::MAX` for the primary one.
pub fn selection_value(id: Option<u32>) -> (v: u32)
    ensures
        id matches Some(x) ==> v == x,
        id is None ==> v == u32::MAX,
{
    match id {
        Some(x) => x,
        None => u32::MAX,
    }
}

} // verus!
