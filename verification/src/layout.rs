//! Layout decisions that need no model: device resolution (a global "no
//! GPU" setting forces CPU, otherwise the module's own preference stands)
//! and the input region assumed while no layout model is loaded.

use vstd::prelude::*;
use vstd::string::*;

use crate::contract::{DevicePref, Region, TAG_MSG_INPUT};
use crate::sys_api::Rect;

verus! {

/// Default device preference of the layout module (GPU first).
pub const LAYOUT_DEFAULT_PREF: DevicePref = DevicePref::Gpu;

/// The device of this run: global CPU forcing wins over the module default.
pub fn resolve_device(pref: DevicePref, prefer_gpu: bool) -> (d: DevicePref)
    ensures
        d == (if prefer_gpu {
            pref
        } else {
            DevicePref::Cpu
        }),
{
    if !prefer_gpu {
        DevicePref::Cpu
    } else {
        pref
    }
}

/// Height of the band at the bottom of the window that stands in for the
/// input box: 30 % of the window height, at least 80 pixels.
pub open spec fn fallback_band(img_h: u32) -> int {
    let b = img_h * 3 / 10;
    if b >= 80 {
        b
    } else {
        80
    }
}

/// Without a layout model the input box is taken to be the bottom band of
/// the window (the chat input always sits at the bottom), with confidence
/// 0; a missing model does not stop the rules from working.
pub fn fallback_input_region(img_w: u32, img_h: u32) -> (r: Region)
    requires
        80 <= img_h,
        img_h * 3 <= u32::MAX,
    ensures
        r.tag@ == TAG_MSG_INPUT@,
        r.rect.x == 0,
        r.rect.y == img_h - fallback_band(img_h),
        r.rect.w == img_w,
        r.rect.h == fallback_band(img_h),
        r.confidence_bits == 0,
{
    let b = img_h * 3 / 10;
    let band = if b >= 80 {
        b
    } else {
        80
    };
    Region {
        tag: String::from_str(TAG_MSG_INPUT),
        rect: Rect { x: 0, y: (img_h - band) as i32, w: img_w, h: band },
        confidence_bits: 0,
    }
}

} // verus!
