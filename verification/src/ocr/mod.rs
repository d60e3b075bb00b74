//! OCR: the model file set of the engine (detection, classification,
//! recognition models and the recognition dictionary), which regions are
//! read and how they are cut out, and the assembly of recognised lines into
//! the draft, the chat target and the chat context.

pub mod assemble;

use std::path::PathBuf;

use vstd::prelude::*;

use crate::contract::{LoopKind, TAG_CHAT_TARGET, TAG_MSG_INPUT};
use crate::sys_api::Rect;

verus! {

#[verifier::external_type_specification]
#[verifier::external_body]
pub struct ExPathBuf(PathBuf);

/// Paths of the three OCR models and the dictionary.
#[derive(Debug)]
pub struct OcrModelPaths {
    pub det: PathBuf,
    pub cls: PathBuf,
    pub rec: PathBuf,
    pub dict: PathBuf,
}

/// Regions shorter than this (in pixels) are upscaled 2x before recognition:
/// the recogniser's input is 48 pixels high.
pub const UPSCALE_BELOW: u32 = 32;

/// Regions narrower or shorter than this are not read at all.
pub const MIN_ROI_SIDE: u32 = 4;

pub open spec fn clamp_int(v: int, lo: int, hi: int) -> int {
    if v < lo {
        lo
    } else if v > hi {
        hi
    } else {
        v
    }
}

pub open spec fn min_int(a: int, b: int) -> int {
    if a <= b {
        a
    } else {
        b
    }
}

/// The part of an `img_w` x `img_h` image a region covers: its corner clamped
/// into the image and its size cut at the image edge; `None` when fewer than
/// [`MIN_ROI_SIDE`] pixels remain either way.
pub fn crop_box(img_w: u32, img_h: u32, rect: Rect) -> (r: Option<(u32, u32, u32, u32)>)
    requires
        img_w <= i32::MAX,
        img_h <= i32::MAX,
    ensures
        ({
            let x = clamp_int(rect.x as int, 0, img_w as int);
            let y = clamp_int(rect.y as int, 0, img_h as int);
            let w = min_int(rect.w as int, img_w - x);
            let h = min_int(rect.h as int, img_h - y);
            if w < MIN_ROI_SIDE || h < MIN_ROI_SIDE {
                r is None
            } else {
                r == Some((x as u32, y as u32, w as u32, h as u32))
            }
        }),
{
    let wi = img_w as i32;
    let hi = img_h as i32;
    let x: u32 = if rect.x < 0 {
        0
    } else if rect.x > wi {
        img_w
    } else {
        rect.x as u32
    };
    let y: u32 = if rect.y < 0 {
        0
    } else if rect.y > hi {
        img_h
    } else {
        rect.y as u32
    };
    let w: u32 = if rect.w <= img_w - x {
        rect.w
    } else {
        img_w - x
    };
    let h: u32 = if rect.h <= img_h - y {
        rect.h
    } else {
        img_h - y
    };
    if w < MIN_ROI_SIDE || h < MIN_ROI_SIDE {
        None
    } else {
        Some((x, y, w, h))
    }
}

/// Size the cut-out is recognised at: doubled when upscaling is on and it
/// is shorter than [`UPSCALE_BELOW`].
pub fn recognition_size(upscale: bool, w: u32, h: u32) -> (r: (u32, u32))
    requires
        w <= i32::MAX,
        h <= i32::MAX,
    ensures
        r == (if upscale && h < UPSCALE_BELOW {
            ((2 * w) as u32, (2 * h) as u32)
        } else {
            (w, h)
        }),
{
    if upscale && h < UPSCALE_BELOW {
        (2 * w, 2 * h)
    } else {
        (w, h)
    }
}

/// Regions read per loop, in order: the fast loop reads only the input box,
/// the others first the chat target.
pub fn ocr_tags(kind: LoopKind) -> (v: Vec<&'static str>)
    ensures
        kind == LoopKind::Fast ==> v@.len() == 1 && v@[0]@ == TAG_MSG_INPUT@,
        kind != LoopKind::Fast ==> v@.len() == 2 && v@[0]@ == TAG_CHAT_TARGET@ && v@[1]@
            == TAG_MSG_INPUT@,
{
    let mut v: Vec<&'static str> = Vec::new();
    match kind {
        LoopKind::Fast => {
            v.push(TAG_MSG_INPUT);
        },
        _ => {
            v.push(TAG_CHAT_TARGET);
            v.push(TAG_MSG_INPUT);
        },
    }
    v
}

} // verus!
