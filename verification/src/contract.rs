//! Stage error kinds, loop kinds, device preference, the cooperative
//! cancellation token shared by pipeline stages, and the values the layout
//! and OCR stages hand on (regions, text blocks, OCR results).

use std::sync::atomic::{AtomicBool, Ordering};
use std::sync::Arc;
use std::time::Instant;

use vstd::prelude::*;
use vstd::string::*;

use crate::sys_api::Rect;
use crate::text::{opt_str_view, opt_string_view, str_eq};

verus! {

/// Stage failure. `Recoverable` skips this round (fail-open); `Fatal` disables
/// the module; `Cancelled` aborts a cancelled round.
#[derive(Debug)]
pub enum StageError {
    Recoverable(String),
    Fatal(String),
    Cancelled,
}

pub open spec fn stage_error_text(e: StageError) -> Seq<char> {
    match e {
        StageError::Recoverable(m) => "recoverable: "@ + m@,
        StageError::Fatal(m) => "fatal: "@ + m@,
        StageError::Cancelled => "cancelled"@,
    }
}

impl StageError {
    /// A soft failure: this round is skipped, the next one may succeed.
    pub fn is_recoverable(&self) -> (b: bool)
        ensures
            b <==> self is Recoverable,
    {
        match self {
            StageError::Recoverable(_) => true,
            _ => false,
        }
    }

    /// The error's message (what its `Display` shows).
    pub fn message(&self) -> (m: String)
        ensures
            m@ == stage_error_text(*self),
    {
        match self {
            StageError::Recoverable(s) => {
                let mut m = String::from_str("recoverable: ");
                m.append(s.as_str());
                m
            },
            StageError::Fatal(s) => {
                let mut m = String::from_str("fatal: ");
                m.append(s.as_str());
                m
            },
            StageError::Cancelled => String::from_str("cancelled"),
        }
    }
}

/// Which loop a run belongs to (the heartbeat runs no stage).
#[derive(Debug, Clone, Copy, PartialEq, Eq, Structural)]
pub enum LoopKind {
    Fast,
    Slow,
    Heartbeat,
}

/// Inference device preference.
#[derive(Debug, Clone, Copy, PartialEq, Eq, Structural)]
pub enum DevicePref {
    Auto,
    Cpu,
    Gpu,
}

impl Default for DevicePref {
    fn default() -> (d: DevicePref)
        ensures
            d == DevicePref::Auto,
    {
        DevicePref::Auto
    }
}

/// Cooperative cancellation: once set, every `check` on any clone reports `Cancelled`.
///
/// The flag is shared between clones and set from other threads, so what a
/// read returns is not determined by the token's value; the contracts below
/// state only what holds for every outcome.
#[derive(Debug, Clone)]
pub struct CancellationToken {
    flag: Arc<AtomicBool>,
}

/// The outcome of a cancellation check on the flag as read: a set flag
/// stops the round with `Cancelled`, a clear one lets it go on.
pub fn cancel_result(cancelled: bool) -> (r: Result<(), StageError>)
    ensures
        cancelled ==> r matches Err(StageError::Cancelled),
        !cancelled ==> r is Ok,
{
    if cancelled {
        Err(StageError::Cancelled)
    } else {
        Ok(())
    }
}

impl Default for CancellationToken {
    fn default() -> (t: CancellationToken) {
        CancellationToken::new()
    }
}

impl CancellationToken {
    pub fn new() -> (t: CancellationToken) {
        CancellationToken { flag: Arc::new(AtomicBool::new(false)) }
    }

    pub fn cancel(&self) {
        self.flag.store(true, Ordering::SeqCst);
    }

    pub fn is_cancelled(&self) -> bool {
        self.flag.load(Ordering::SeqCst)
    }

    /// Called between steps of a stage: a cancelled round stops here.
    pub fn check(&self) -> (r: Result<(), StageError>)
        ensures
            r is Err ==> r matches Err(StageError::Cancelled),
    {
        cancel_result(self.is_cancelled())
    }
}

/// Built-in region tags (the names in `tags.json`).
pub const TAG_CHAT_LIST: &'static str = "chat_list";

pub const TAG_CHAT_WINDOW: &'static str = "chat_window";

pub const TAG_CHAT_TARGET: &'static str = "chat_target";

pub const TAG_MSG_INPUT: &'static str = "msg_input";

/// One detected region.
#[derive(Debug, Clone, PartialEq)]
pub struct Region {
    /// Tag name, one of the `tags.json` names.
    pub tag: String,
    /// Relative to the window image's top-left corner.
    pub rect: Rect,
    /// Detection confidence (single-precision bit pattern).
    pub confidence_bits: u32,
}

/// Layout output; also the slow loop's cache.
#[derive(Debug)]
pub struct RegionLayout {
    /// At most one region per tag, the most confident one.
    pub regions: Vec<Region>,
    /// Layout epoch; a window change invalidates it.
    pub layout_epoch: u64,
    pub inferred_at: Instant,
}

/// First region with the tag, front to back.
pub open spec fn first_rect_of(regions: Seq<Region>, tag: Seq<char>) -> Option<Rect>
    decreases regions.len(),
{
    if regions.len() == 0 {
        None
    } else if regions[0].tag@ == tag {
        Some(regions[0].rect)
    } else {
        first_rect_of(regions.drop_first(), tag)
    }
}

/// The regions carrying the tag, in order.
pub open spec fn regions_tagged(regions: Seq<Region>, tag: Seq<char>) -> Seq<Region>
    decreases regions.len(),
{
    if regions.len() == 0 {
        regions
    } else if regions.last().tag@ == tag {
        regions_tagged(regions.drop_last(), tag).push(regions.last())
    } else {
        regions_tagged(regions.drop_last(), tag)
    }
}

impl Clone for RegionLayout {
    fn clone(&self) -> (r: RegionLayout)
        ensures
            r.regions@.len() == self.regions@.len(),
            r.layout_epoch == self.layout_epoch,
            r.inferred_at == self.inferred_at,
    {
        RegionLayout {
            regions: self.regions.clone(),
            layout_epoch: self.layout_epoch,
            inferred_at: self.inferred_at,
        }
    }
}

impl RegionLayout {
    /// Rectangle of the first region with the tag.
    pub fn rect_of(&self, tag: &str) -> (r: Option<Rect>)
        ensures
            r == first_rect_of(self.regions@, tag@),
    {
        let mut i: usize = 0;
        assert(self.regions@.subrange(0, self.regions@.len() as int) =~= self.regions@);
        while i < self.regions.len()
            invariant
                i <= self.regions@.len(),
                first_rect_of(self.regions@, tag@) == first_rect_of(
                    self.regions@.subrange(i as int, self.regions@.len() as int),
                    tag@,
                ),
            decreases self.regions@.len() - i,
        {
            let ghost rest = self.regions@.subrange(i as int, self.regions@.len() as int);
            assert(rest.drop_first() =~= self.regions@.subrange(
                i + 1,
                self.regions@.len() as int,
            ));
            if str_eq(self.regions[i].tag.as_str(), tag) {
                return Some(self.regions[i].rect);
            }
            i = i + 1;
        }
        None
    }

    /// The layout with only the input-box regions (the fast loop re-reads only
    /// the input box).
    pub fn input_only(&self) -> (r: RegionLayout)
        ensures
            r.layout_epoch == self.layout_epoch,
            r.inferred_at == self.inferred_at,
            r.regions@.len() == regions_tagged(self.regions@, TAG_MSG_INPUT@).len(),
            forall|i: int|
                0 <= i < r.regions@.len() ==> {
                    let e = regions_tagged(self.regions@, TAG_MSG_INPUT@)[i];
                    &&& (#[trigger] r.regions@[i]).tag@ == e.tag@
                    &&& r.regions@[i].rect == e.rect
                    &&& r.regions@[i].confidence_bits == e.confidence_bits
                },
    {
        let mut out: Vec<Region> = Vec::new();
        let mut i: usize = 0;
        while i < self.regions.len()
            invariant
                i <= self.regions@.len(),
                out@.len() == regions_tagged(self.regions@.subrange(0, i as int), TAG_MSG_INPUT@).len(),
                forall|k: int|
                    0 <= k < out@.len() ==> {
                        let e = regions_tagged(self.regions@.subrange(0, i as int), TAG_MSG_INPUT@)[k];
                        &&& (#[trigger] out@[k]).tag@ == e.tag@
                        &&& out@[k].rect == e.rect
                        &&& out@[k].confidence_bits == e.confidence_bits
                    },
            decreases self.regions@.len() - i,
        {
            let ghost pre = self.regions@.subrange(0, i as int);
            assert(self.regions@.subrange(0, i + 1).drop_last() =~= pre);
            let r = &self.regions[i];
            if str_eq(r.tag.as_str(), TAG_MSG_INPUT) {
                out.push(
                    Region { tag: r.tag.clone(), rect: r.rect, confidence_bits: r.confidence_bits },
                );
            }
            i = i + 1;
        }
        assert(self.regions@.subrange(0, self.regions@.len() as int) =~= self.regions@);
        RegionLayout { regions: out, layout_epoch: self.layout_epoch, inferred_at: self.inferred_at }
    }
}

/// One text block of OCR output.
#[derive(Debug, Clone, PartialEq)]
pub struct TextBlock {
    pub text: String,
    pub rect: Rect,
    /// Recognition confidence (single-precision bit pattern).
    pub confidence_bits: u32,
}

/// OCR output.
#[derive(Debug, Clone, PartialEq)]
pub struct OcrResult {
    /// Chat partner name (the slow loop updates it, the fast loop reuses the cache).
    pub chat_target: Option<String>,
    /// Text in the input box.
    pub draft_text: String,
    /// Every text block, with position and confidence.
    pub blocks: Vec<TextBlock>,
    /// Recent conversation excerpt (slow loop only; the fast loop reuses the cache).
    pub chat_context: Option<String>,
}

impl Default for OcrResult {
    fn default() -> (r: OcrResult)
        ensures
            r.chat_target is None,
            r.draft_text@.len() == 0,
            r.blocks@.len() == 0,
            r.chat_context is None,
    {
        OcrResult {
            chat_target: None,
            draft_text: String::new(),
            blocks: Vec::new(),
            chat_context: None,
        }
    }
}

fn opt_to_string(o: Option<&str>) -> (r: Option<String>)
    ensures
        opt_string_view(r) == opt_str_view(o),
{
    match o {
        Some(s) => Some(String::from_str(s)),
        None => None,
    }
}

impl OcrResult {
    /// Fill a missing chat target from the slow loop's cache.
    pub fn with_cached_target(self, cached: Option<&str>) -> (r: OcrResult)
        ensures
            opt_string_view(r.chat_target) == (if self.chat_target is None {
                opt_str_view(cached)
            } else {
                opt_string_view(self.chat_target)
            }),
            r.draft_text == self.draft_text,
            r.blocks == self.blocks,
            r.chat_context == self.chat_context,
    {
        let mut r = self;
        if r.chat_target.is_none() {
            r.chat_target = opt_to_string(cached);
        }
        r
    }

    /// Fill a missing chat context from the slow loop's cache.
    pub fn with_cached_context(self, cached: Option<&str>) -> (r: OcrResult)
        ensures
            opt_string_view(r.chat_context) == (if self.chat_context is None {
                opt_str_view(cached)
            } else {
                opt_string_view(self.chat_context)
            }),
            r.draft_text == self.draft_text,
            r.blocks == self.blocks,
            r.chat_target == self.chat_target,
    {
        let mut r = self;
        if r.chat_context.is_none() {
            r.chat_context = opt_to_string(cached);
        }
        r
    }
}

} // verus!
