use dc_pipeline::capture::{
    capture_outcome, capture_precheck, capture_rect, window_rect_outcome, CaptureRequest,
};
use dc_pipeline::contract::{cancel_result, StageError};
use dc_pipeline::sys_api::{ForegroundInfo, Hwnd, Rect, SysError};

const HWND: Hwnd = Hwnd(0x2000);

fn fg(hwnd: Hwnd, name: &str) -> Option<ForegroundInfo> {
    Some(ForegroundInfo {
        hwnd,
        pid: 1,
        process_name: name.to_string(),
    })
}

#[test]
fn capture_precheck_unavailable_window_is_recoverable() {
    // minimised
    let err = capture_precheck(true, fg(HWND, "WeChat.exe"), HWND).unwrap_err();
    assert!(err.is_recoverable());
    assert!(matches!(err, StageError::Recoverable(ref m) if m == "窗口已最小化"));
    // another window has the foreground
    let err = capture_precheck(false, fg(Hwnd(0x9999), "Code.exe"), HWND).unwrap_err();
    assert!(err.is_recoverable());
    assert!(matches!(err, StageError::Recoverable(ref m) if m == "目标窗口不在前台（当前前台：Code.exe）"));
    // no foreground window at all (locked screen)
    let err = capture_precheck(false, None, HWND).unwrap_err();
    assert!(matches!(err, StageError::Recoverable(ref m) if m == "目标窗口不在前台（当前前台：）"));
    // the target in the foreground
    assert!(capture_precheck(false, fg(HWND, "WeChat.exe"), HWND).is_ok());
}

#[test]
fn capture_rect_prefers_region_and_refuses_empty_window() {
    let window = Rect::new(10, 20, 300, 200);
    let roi = Rect::new(15, 25, 50, 40);
    assert_eq!(capture_rect(window, None).unwrap(), window);
    assert_eq!(capture_rect(window, Some(roi)).unwrap(), roi);
    let err = capture_rect(Rect::new(0, 0, 0, 200), Some(roi)).unwrap_err();
    assert!(matches!(err, StageError::Recoverable(ref m) if m == "窗口矩形为空"));
    let req = CaptureRequest { hwnd: HWND, roi: None };
    assert_eq!(req.roi, None);
}

#[test]
fn failed_desktop_reads_are_recoverable() {
    let roi = Rect::new(1, 2, 30, 40);
    let err = window_rect_outcome(Err(SysError::WindowUnavailable), None).unwrap_err();
    assert!(matches!(err, StageError::Recoverable(ref m) if m == "取窗口矩形失败：target window unavailable"));
    assert_eq!(window_rect_outcome(Ok(Rect::new(0, 0, 300, 200)), Some(roi)).unwrap(), roi);
    let err = window_rect_outcome(Ok(Rect::new(0, 0, 300, 0)), None).unwrap_err();
    assert!(matches!(err, StageError::Recoverable(ref m) if m == "窗口矩形为空"));
    let err = capture_outcome::<u8>(Err(SysError::CaptureFailed("BitBlt".into()))).unwrap_err();
    assert!(matches!(err, StageError::Recoverable(ref m) if m == "截图失败：capture failed: BitBlt"));
    assert_eq!(capture_outcome::<u8>(Ok(7)).unwrap(), 7);
}

#[test]
fn cancelled_flag_stops_the_round() {
    assert!(matches!(cancel_result(true), Err(StageError::Cancelled)));
    assert!(cancel_result(false).is_ok());
}
