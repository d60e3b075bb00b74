//! Platform-layer value types: window handles, screen rectangles, foreground
//! information, hook key events and the platform error kinds.
//!
//! The trait that talks to the desktop (window rectangles with a float DPI
//! scale, screen capture into an RGBA image, keyboard hooks) is not part of
//! this verified library; only the plain values it exchanges are.

use vstd::prelude::*;
use vstd::string::*;

verus! {

/// Window handle (thin wrapper around the raw `HWND` value).
#[derive(Debug, Clone, Copy, PartialEq, Eq, Hash, PartialOrd, Ord, Structural)]
pub struct Hwnd(pub isize);

impl Hwnd {
    /// A null handle names no window.
    pub fn is_null(self) -> (b: bool)
        ensures
            b <==> self.0 == 0,
    {
        self.0 == 0
    }

    pub fn raw(self) -> (v: isize)
        ensures
            v == self.0,
    {
        self.0
    }

    /// `hwnd(0x…)` with the handle in upper-case hexadecimal (a negative
    /// handle shows its two's-complement bits), as its `Display` shows it.
    pub fn text(self) -> (s: String)
        ensures
            s@ == "hwnd(0x"@ + upper_hex((self.0 as usize) as nat) + ")"@,
    {
        let mut s = String::from_str("hwnd(0x");
        let digits = upper_hex_text(self.0 as usize);
        s.append(digits.as_str());
        s.append(")");
        s
    }
}

/// Upper-case hexadecimal digit character.
pub open spec fn hex_digit(d: nat) -> char {
    if d < 10 {
        ((('0' as u32) + d) as u32) as char
    } else {
        ((('A' as u32) + d - 10) as u32) as char
    }
}

/// Upper-case hexadecimal representation without leading zeros.
pub open spec fn upper_hex(n: nat) -> Seq<char>
    decreases n,
{
    if n < 16 {
        seq![hex_digit(n)]
    } else {
        upper_hex(n / 16).push(hex_digit(n % 16))
    }
}

/// The one-character text of a hexadecimal digit.
fn hex_digit_text(d: usize) -> (s: &'static str)
    requires
        d < 16,
    ensures
        s@ == seq![hex_digit(d as nat)],
{
    let all: &'static str = "0123456789ABCDEF";
    proof {
        reveal_strlit("0123456789ABCDEF");
        assert(all@[d as int] == hex_digit(d as nat));
    }
    all.substring_char(d, d + 1)
}

/// Upper-case hexadecimal, no prefix, no leading zeros (as `{:X}` prints it).
fn upper_hex_text(n: usize) -> (s: String)
    ensures
        s@ == upper_hex(n as nat),
    decreases n,
{
    if n < 16 {
        String::from_str(hex_digit_text(n))
    } else {
        let mut s = upper_hex_text(n / 16);
        s.append(hex_digit_text(n % 16));
        s
    }
}

/// Screen-space rectangle in physical pixels; `w` and `h` are never negative.
#[derive(Debug, Clone, Copy, PartialEq, Eq, Structural)]
pub struct Rect {
    pub x: i32,
    pub y: i32,
    pub w: u32,
    pub h: u32,
}

/// `a + b` clamped to the `i32` range.
pub open spec fn saturate_i32(v: int) -> i32 {
    if v > i32::MAX {
        i32::MAX
    } else if v < i32::MIN {
        i32::MIN
    } else {
        v as i32
    }
}

/// The sum clamped to the `i32` bounds.
fn i32_saturating_add(a: i32, b: i32) -> (r: i32)
    ensures
        r == saturate_i32(a + b),
{
    let s: i64 = a as i64 + b as i64;
    if s > 0x7fff_ffffi64 {
        i32::MAX
    } else if s < -0x8000_0000i64 {
        i32::MIN
    } else {
        s as i32
    }
}

impl Rect {
    pub fn new(x: i32, y: i32, w: u32, h: u32) -> (r: Rect)
        ensures
            r == (Rect { x, y, w, h }),
    {
        Rect { x, y, w, h }
    }

    /// Right edge, `x + w` saturating (the width is reinterpreted as `i32` first).
    pub fn right(&self) -> (r: i32)
        ensures
            r == saturate_i32(self.x + (self.w as i32)),
    {
        i32_saturating_add(self.x, self.w as i32)
    }

    /// Bottom edge, `y + h` saturating (the height is reinterpreted as `i32` first).
    pub fn bottom(&self) -> (r: i32)
        ensures
            r == saturate_i32(self.y + (self.h as i32)),
    {
        i32_saturating_add(self.y, self.h as i32)
    }

    /// A rectangle with no width or no height covers no pixel.
    pub fn is_empty(&self) -> (b: bool)
        ensures
            b <==> (self.w == 0 || self.h == 0),
    {
        self.w == 0 || self.h == 0
    }

    /// Same geometry: all four fields equal (layout reuse check).
    pub fn same_geometry(&self, other: &Rect) -> (b: bool)
        ensures
            b <==> *self == *other,
    {
        self.x == other.x && self.y == other.y && self.w == other.w && self.h == other.h
    }
}

impl Default for Rect {
    fn default() -> (r: Rect)
        ensures
            r == (Rect { x: 0, y: 0, w: 0, h: 0 }),
    {
        Rect { x: 0, y: 0, w: 0, h: 0 }
    }
}

/// Foreground window information; `process_name` is the executable file name.
#[derive(Debug, Clone)]
pub struct ForegroundInfo {
    pub hwnd: Hwnd,
    pub pid: u32,
    pub process_name: String,
}

/// Virtual key code that the low-level hook sees for keys consumed by the IME.
pub const VK_PROCESSKEY: u16 = 0xE5;

/// How long after the last IME-consumed key the IME still counts as composing.
pub const IME_PROCESSKEY_TTL_MS: u64 = 1_000;

/// The IME is composing: its candidate window is shown, or a key went to it
/// less than [`IME_PROCESSKEY_TTL_MS`] ago (`last_processkey_ms` 0 = never).
pub fn ime_composing_at(window_shown: bool, last_processkey_ms: u64, now_ms: u64) -> (b: bool)
    ensures
        b <==> (window_shown || (last_processkey_ms != 0 && (if now_ms >= last_processkey_ms {
            now_ms - last_processkey_ms
        } else {
            0
        }) < IME_PROCESSKEY_TTL_MS)),
{
    if window_shown {
        return true;
    }
    last_processkey_ms != 0 && now_ms.saturating_sub(last_processkey_ms) < IME_PROCESSKEY_TTL_MS
}

/// One key event seen by the low-level keyboard hook.
#[derive(Debug, Clone, Copy, PartialEq, Eq, Structural)]
pub struct KeyEvent {
    /// Virtual key code.
    pub vk: u16,
    pub scan_code: u32,
    /// true = key down, false = key up.
    pub is_key_down: bool,
    /// Injected by another program (logged only, never acted upon).
    pub is_injected: bool,
    pub ctrl: bool,
    pub alt: bool,
    pub shift: bool,
}

impl KeyEvent {
    /// The key was consumed by the input method (it is composing).
    pub fn is_ime_consumed(&self) -> (b: bool)
        ensures
            b <==> self.vk == VK_PROCESSKEY,
    {
        self.vk == VK_PROCESSKEY
    }
}

/// Verdict of a hook callback: only pass or swallow, never inject.
#[derive(Debug, Clone, Copy, PartialEq, Eq, Structural)]
pub enum HookAction {
    /// Pass the key on unchanged.
    Pass,
    /// Swallow the key.
    Swallow,
}

/// Platform errors.
#[derive(Debug, Clone, PartialEq, Eq)]
pub enum SysError {
    WindowUnavailable,
    CaptureFailed(String),
    HookInstallFailed(String),
    ThreadDown,
    Win32(String),
    Unsupported,
}

/// The human-readable text of each platform error.
pub open spec fn sys_error_text(e: SysError) -> Seq<char> {
    match e {
        SysError::WindowUnavailable => "target window unavailable"@,
        SysError::CaptureFailed(s) => "capture failed: "@ + s@,
        SysError::HookInstallFailed(s) => "hook install failed: "@ + s@,
        SysError::ThreadDown => "sys thread not running"@,
        SysError::Win32(s) => "win32 error: "@ + s@,
        SysError::Unsupported => "operation not supported on this platform"@,
    }
}

impl SysError {
    /// The error's message (what its `Display` shows).
    pub fn message(&self) -> (m: String)
        ensures
            m@ == sys_error_text(*self),
    {
        match self {
            SysError::WindowUnavailable => String::from_str("target window unavailable"),
            SysError::CaptureFailed(s) => {
                let mut m = String::from_str("capture failed: ");
                m.append(s.as_str());
                m
            },
            SysError::HookInstallFailed(s) => {
                let mut m = String::from_str("hook install failed: ");
                m.append(s.as_str());
                m
            },
            SysError::ThreadDown => String::from_str("sys thread not running"),
            SysError::Win32(s) => {
                let mut m = String::from_str("win32 error: ");
                m.append(s.as_str());
                m
            },
            SysError::Unsupported => String::from_str("operation not supported on this platform"),
        }
    }
}

} // verus!
