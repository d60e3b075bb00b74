//! Capture stage decisions: when a window may be captured, and which
//! rectangle is taken.
//!
//! The desktop calls themselves (minimised state, foreground window, window
//! rectangle, pixel capture) are made by the platform layer; these functions
//! decide on what it reported.

use vstd::prelude::*;
use vstd::string::*;

use crate::contract::StageError;
use crate::sys_api::{sys_error_text, ForegroundInfo, Hwnd, Rect, SysError};

verus! {

/// What to capture: the target window, optionally only a region of it
/// (screen coordinates).
#[derive(Debug, Clone, Copy, PartialEq, Eq, Structural)]
pub struct CaptureRequest {
    pub hwnd: Hwnd,
    pub roi: Option<Rect>,
}

pub open spec fn not_foreground_message(got: Seq<char>) -> Seq<char> {
    "目标窗口不在前台（当前前台："@ + got + "）"@
}

/// A window is captured only while it is not minimised and is the
/// foreground window; otherwise the round is skipped (recoverable), naming
/// the process that has the foreground (empty when none).
pub fn capture_precheck(minimized: bool, foreground: Option<ForegroundInfo>, hwnd: Hwnd) -> (r:
    Result<(), StageError>)
    ensures
        minimized ==> (r matches Err(StageError::Recoverable(m)) && m@ == "窗口已最小化"@),
        !minimized ==> match foreground {
            Some(fg) => if fg.hwnd == hwnd {
                r is Ok
            } else {
                r matches Err(StageError::Recoverable(m)) && m@ == not_foreground_message(
                    fg.process_name@,
                )
            },
            None => r matches Err(StageError::Recoverable(m)) && m@ == not_foreground_message(
                Seq::empty(),
            ),
        },
{
    if minimized {
        return Err(StageError::Recoverable(String::from_str("窗口已最小化")));
    }
    let got = match foreground {
        Some(fg) => {
            if fg.hwnd.0 == hwnd.0 {
                return Ok(());
            }
            fg.process_name
        },
        None => String::new(),
    };
    let mut m = String::from_str("目标窗口不在前台（当前前台：");
    m.append(got.as_str());
    m.append("）");
    Err(StageError::Recoverable(m))
}

/// The rectangle to capture: the requested region, else the whole window;
/// an empty window rectangle skips the round.
pub fn capture_rect(window_rect: Rect, roi: Option<Rect>) -> (r: Result<Rect, StageError>)
    ensures
        (window_rect.w == 0 || window_rect.h == 0) ==> (r matches Err(StageError::Recoverable(m))
            && m@ == "窗口矩形为空"@),
        !(window_rect.w == 0 || window_rect.h == 0) ==> r == Ok::<Rect, StageError>(
            match roi {
                Some(x) => x,
                None => window_rect,
            },
        ),
{
    if window_rect.is_empty() {
        return Err(StageError::Recoverable(String::from_str("窗口矩形为空")));
    }
    match roi {
        Some(x) => Ok(x),
        None => Ok(window_rect),
    }
}

/// The window-rectangle read: a failed read skips the round (recoverable,
/// naming the platform error); a rectangle read goes on to [`capture_rect`].
pub fn window_rect_outcome(read: Result<Rect, SysError>, roi: Option<Rect>) -> (r: Result<
    Rect,
    StageError,
>)
    ensures
        match read {
            Err(e) => r matches Err(StageError::Recoverable(m)) && m@ == "取窗口矩形失败："@
                + sys_error_text(e),
            Ok(w) => {
                &&& (w.w == 0 || w.h == 0) ==> (r matches Err(StageError::Recoverable(m)) && m@
                    == "窗口矩形为空"@)
                &&& !(w.w == 0 || w.h == 0) ==> r == Ok::<Rect, StageError>(
                    match roi {
                        Some(x) => x,
                        None => w,
                    },
                )
            },
        },
{
    match read {
        Err(e) => {
            let mut m = String::from_str("取窗口矩形失败：");
            let t = e.message();
            m.append(t.as_str());
            Err(StageError::Recoverable(m))
        },
        Ok(w) => capture_rect(w, roi),
    }
}

/// The pixel capture: a failed capture skips the round (recoverable, naming
/// the platform error); a captured image is handed on unchanged.
pub fn capture_outcome<T>(read: Result<T, SysError>) -> (r: Result<T, StageError>)
    ensures
        match read {
            Ok(v) => r == Ok::<T, StageError>(v),
            Err(e) => r matches Err(StageError::Recoverable(m)) && m@ == "截图失败："@
                + sys_error_text(e),
        },
{
    match read {
        Ok(v) => Ok(v),
        Err(e) => {
            let mut m = String::from_str("截图失败：");
            let t = e.message();
            m.append(t.as_str());
            Err(StageError::Recoverable(m))
        },
    }
}

} // verus!
