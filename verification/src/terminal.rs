//! Terminal-session decisions: which shell, how it is started, how resize requests are
//! bounded and which channel messages reach the PTY.
use vstd::prelude::*;

verus! {

/// Largest terminal input message, in bytes (16 KiB).
pub const MAX_INPUT_BYTES: usize = 16384;

/// Output is sent only while less than this much is buffered on the channel (1 MiB).
pub const MAX_BUFFERED_OUTPUT: usize = 1_048_576;

/// The interactive shell used when none is configured: PowerShell on Windows, `/bin/sh`
/// on every other system.
pub fn default_shell(windows: bool) -> (s: String)
    ensures
        windows ==> s@ == "C:\\Windows\\System32\\WindowsPowerShell\\v1.0\\powershell.exe"@,
        !windows ==> s@ == "/bin/sh"@,
{
    if windows {
        "C:\\Windows\\System32\\WindowsPowerShell\\v1.0\\powershell.exe".to_owned()
    } else {
        "/bin/sh".to_owned()
    }
}

/// How a shell is launched: interactively, and with which prompt.
#[derive(Clone, Copy, PartialEq, Eq, Debug)]
pub struct ShellLaunch {
    /// Pass `-i`.
    pub interactive: bool,
    /// The `PS1` prompt to set.
    pub prompt: Option<&'static str>,
}

/// Launch settings for a shell binary name: bash gets `-i` and a user@host:dir prompt,
/// sh, dash and ash get `-i` and a directory prompt; others, and every shell on Windows,
/// start as they are.
pub fn shell_launch(file_name: Option<&str>, windows: bool) -> (l: ShellLaunch)
    ensures
        windows || file_name is None ==> l == (ShellLaunch { interactive: false, prompt: None }),
        !windows && file_name is Some && file_name->0@ == "bash"@ ==> l == (ShellLaunch {
            interactive: true,
            prompt: Some("\\u@\\h:\\w\\$ "),
        }),
        !windows && file_name is Some && file_name->0@ != "bash"@ && (file_name->0@ == "sh"@
            || file_name->0@ == "dash"@ || file_name->0@ == "ash"@) ==> l == (ShellLaunch {
            interactive: true,
            prompt: Some("${PWD} $ "),
        }),
        !windows && file_name is Some && file_name->0@ != "bash"@ && file_name->0@ != "sh"@
            && file_name->0@ != "dash"@ && file_name->0@ != "ash"@ ==> l == (ShellLaunch {
            interactive: false,
            prompt: None,
        }),
{
    if windows {
        return ShellLaunch { interactive: false, prompt: None };
    }
    match file_name {
        None => ShellLaunch { interactive: false, prompt: None },
        Some(name) => {
            if crate::text::text_eq(name, "bash") {
                ShellLaunch { interactive: true, prompt: Some("\\u@\\h:\\w\\$ ") }
            } else if crate::text::text_eq(name, "sh") || crate::text::text_eq(name, "dash")
                || crate::text::text_eq(name, "ash") {
                ShellLaunch { interactive: true, prompt: Some("${PWD} $ ") }
            } else {
                ShellLaunch { interactive: false, prompt: None }
            }
        },
    }
}

/// `v` limited to `[lo, hi]`.
pub open spec fn clamp(v: u64, lo: u64, hi: u64) -> u64 {
    if v < lo {
        lo
    } else if v > hi {
        hi
    } else {
        v
    }
}

/// Terminal size for a resize request: 1–500 columns (80 when absent) and 1–300 rows
/// (24 when absent).
pub fn resize_dimensions(cols: Option<u64>, rows: Option<u64>) -> (r: (u16, u16))
    ensures
        r.0 == clamp(match cols { Some(c) => c, None => 80 }, 1, 500),
        r.1 == clamp(match rows { Some(x) => x, None => 24 }, 1, 300),
{
    let c: u64 = match cols {
        Some(c) => c,
        None => 80,
    };
    let r: u64 = match rows {
        Some(x) => x,
        None => 24,
    };
    let c: u64 = if c < 1 { 1 } else if c > 500 { 500 } else { c };
    let r: u64 = if r < 1 { 1 } else if r > 300 { 300 } else { r };
    (c as u16, r as u16)
}

/// What becomes of a terminal channel message.
#[derive(Clone, Copy, PartialEq, Eq, Structural, Debug)]
pub enum TerminalInput {
    /// Too large: ignored.
    Discard,
    /// Binary: keystrokes for the PTY.
    Keystrokes,
    /// Text: a control request such as a resize.
    Control,
}

/// Classifies a terminal channel message by its size and kind.
pub fn classify_input(len: usize, is_string: bool) -> (r: TerminalInput)
    ensures
        len > MAX_INPUT_BYTES ==> r is Discard,
        len <= MAX_INPUT_BYTES && !is_string ==> r is Keystrokes,
        len <= MAX_INPUT_BYTES && is_string ==> r is Control,
{
    if len > MAX_INPUT_BYTES {
        TerminalInput::Discard
    } else if !is_string {
        TerminalInput::Keystrokes
    } else {
        TerminalInput::Control
    }
}

/// Output keeps flowing only while at most 1 MiB waits on the channel.
pub fn output_may_continue(buffered: usize) -> (r: bool)
    ensures
        r == (buffered <= MAX_BUFFERED_OUTPUT),
{
    buffered <= MAX_BUFFERED_OUTPUT
}

} // verus!
