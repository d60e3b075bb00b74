//! The guard core's decisions: single-flight merging of pipeline triggers,
//! reuse of the slow loop's layout, the run a trigger leads to, and what a
//! stage failure does.
//!
//! While a pipeline run is in progress, incoming triggers are merged into a
//! [`Pending`] set instead of queued; the next run takes the most urgent one
//! (Fast > Slow > Heartbeat: Fast means the user is typing). The stages
//! themselves (capture, layout, OCR, semantics) run outside this module; the
//! functions here decide between them.

use vstd::prelude::*;
use vstd::string::*;

use crate::contract::{RegionLayout, StageError};
use crate::intercept::bus::Trigger;
use crate::phash::{popcount, unchanged};
use crate::sys_api::{Hwnd, Rect};

verus! {

/// Triggers waiting for the current run to finish, one flag per kind.
#[derive(Debug, Clone, Copy, PartialEq, Eq, Structural)]
pub struct Pending {
    pub fast: bool,
    pub slow: bool,
    pub heartbeat: bool,
}

/// The most urgent pending trigger, if any.
pub open spec fn spec_top(p: Pending) -> Option<Trigger> {
    if p.fast {
        Some(Trigger::Fast)
    } else if p.slow {
        Some(Trigger::Slow)
    } else if p.heartbeat {
        Some(Trigger::Heartbeat)
    } else {
        None
    }
}

/// The set with one kind marked.
pub open spec fn spec_with(p: Pending, t: Trigger) -> Pending {
    match t {
        Trigger::Fast => Pending { fast: true, ..p },
        Trigger::Slow => Pending { slow: true, ..p },
        Trigger::Heartbeat => Pending { heartbeat: true, ..p },
    }
}

/// The set with one kind cleared.
pub open spec fn spec_without(p: Pending, t: Trigger) -> Pending {
    match t {
        Trigger::Fast => Pending { fast: false, ..p },
        Trigger::Slow => Pending { slow: false, ..p },
        Trigger::Heartbeat => Pending { heartbeat: false, ..p },
    }
}

impl Default for Pending {
    /// Nothing pending.
    fn default() -> (p: Pending)
        ensures
            p == (Pending { fast: false, slow: false, heartbeat: false }),
    {
        Pending { fast: false, slow: false, heartbeat: false }
    }
}

impl Pending {
    /// Merge a trigger (repeated offers of one kind keep a single flag).
    pub fn offer(&mut self, t: Trigger)
        ensures
            *final(self) == spec_with(*old(self), t),
    {
        match t {
            Trigger::Fast => self.fast = true,
            Trigger::Slow => self.slow = true,
            Trigger::Heartbeat => self.heartbeat = true,
        }
    }

    /// Take the most urgent pending trigger, clearing its flag.
    pub fn take(&mut self) -> (t: Option<Trigger>)
        ensures
            t == spec_top(*old(self)),
            *final(self) == match t {
                Some(k) => spec_without(*old(self), k),
                None => *old(self),
            },
    {
        if self.fast {
            self.fast = false;
            Some(Trigger::Fast)
        } else if self.slow {
            self.slow = false;
            Some(Trigger::Slow)
        } else if self.heartbeat {
            self.heartbeat = false;
            Some(Trigger::Heartbeat)
        } else {
            None
        }
    }
}

/// Number of pending kinds.
pub open spec fn spec_count(p: Pending) -> nat {
    (if p.fast { 1nat } else { 0nat }) + (if p.slow { 1nat } else { 0nat }) + (if p.heartbeat {
        1nat
    } else {
        0nat
    })
}

/// A pending Fast trigger is always taken first.
pub proof fn lemma_fast_first(p: Pending)
    requires
        p.fast,
    ensures
        spec_top(p) == Some(Trigger::Fast),
{
}

/// Offering a kind that is already pending changes nothing (merging, not queueing).
pub proof fn lemma_offer_idempotent(p: Pending, t: Trigger)
    ensures
        spec_with(spec_with(p, t), t) == spec_with(p, t),
{
}

/// Taking removes exactly one kind, so at most three takes drain any set,
/// and an empty set yields nothing.
pub proof fn lemma_take_drains(p: Pending)
    ensures
        spec_top(p) is None <==> spec_count(p) == 0,
        spec_top(p) matches Some(k) ==> spec_count(spec_without(p, k)) + 1 == spec_count(p),
{
}

/// Whether kind `t` is pending in `p`.
pub open spec fn spec_has(p: Pending, t: Trigger) -> bool {
    match t {
        Trigger::Fast => p.fast,
        Trigger::Slow => p.slow,
        Trigger::Heartbeat => p.heartbeat,
    }
}

/// An offered trigger is not lost: taking a more urgent kind leaves it pending.
pub proof fn lemma_offered_stays_pending(p: Pending, t: Trigger)
    ensures
        spec_has(spec_with(p, t), t),
        spec_top(spec_with(p, t)) matches Some(k) ==> (k == t || spec_has(
            spec_without(spec_with(p, t), k),
            t,
        )),
{
}

/// Outcome of handling one trigger.
#[derive(Debug, Clone, PartialEq)]
pub enum TickOutcome {
    /// A new verdict was stored in the slot.
    Stored,
    /// A stage failed recoverably: the slot was cleared (fail-open).
    Cleared(String),
    /// A stage failed fatally: the guard is disabled from now on.
    Fatal(String),
    /// The trigger was skipped (disabled, cancelled, ...).
    Skipped(&'static str),
    /// Heartbeat pixels unchanged: the stamp was renewed without inference.
    Refreshed,
}

/// Maximum age of a cached layout for the fast loop to reuse it.
pub const LAYOUT_MAX_AGE_MS: u64 = 30_000;

/// The slow loop's layout, kept for the fast loop.
#[derive(Debug, Clone)]
pub struct LayoutCache {
    pub hwnd: Hwnd,
    pub rect: Rect,
    pub layout: RegionLayout,
    pub stored_at_ms: u64,
}

/// Age in milliseconds, 0 for a time before the stamp.
pub open spec fn age_ms(now_ms: u64, stamp: u64) -> int {
    if now_ms >= stamp {
        now_ms - stamp
    } else {
        0
    }
}

impl LayoutCache {
    /// Reusable: same window, same geometry, and younger than the maximum age.
    pub fn reusable(&self, hwnd: Hwnd, rect: Rect, now_ms: u64) -> (b: bool)
        ensures
            b <==> (self.hwnd == hwnd && self.rect == rect && age_ms(now_ms, self.stored_at_ms)
                < LAYOUT_MAX_AGE_MS),
    {
        self.hwnd.0 == hwnd.0 && self.rect.x == rect.x && self.rect.y == rect.y && self.rect.w
            == rect.w && self.rect.h == rect.h && now_ms.saturating_sub(self.stored_at_ms)
            < LAYOUT_MAX_AGE_MS
    }
}

/// The run a trigger leads to.
#[derive(Debug, Clone, Copy, PartialEq, Eq, Structural)]
pub enum TickPlan {
    /// The guard is disabled after a fatal failure.
    Skip,
    /// Re-read only the input box, with the cached layout.
    Fast,
    /// Full run: capture, layout, OCR, semantics.
    Slow,
    /// Capture and hash the chat-target region; renew or run slow.
    Heartbeat,
}

/// Choose the run: nothing once disabled; a fast trigger without a reusable
/// layout and a heartbeat without a probe fall back to the full run.
pub fn plan_tick(disabled: bool, trigger: Trigger, layout_reusable: bool, has_probe: bool) -> (p:
    TickPlan)
    ensures
        disabled ==> p == TickPlan::Skip,
        !disabled ==> p == match trigger {
            Trigger::Fast => if layout_reusable {
                TickPlan::Fast
            } else {
                TickPlan::Slow
            },
            Trigger::Slow => TickPlan::Slow,
            Trigger::Heartbeat => if has_probe {
                TickPlan::Heartbeat
            } else {
                TickPlan::Slow
            },
        },
{
    if disabled {
        return TickPlan::Skip;
    }
    match trigger {
        Trigger::Fast => if layout_reusable {
            TickPlan::Fast
        } else {
            TickPlan::Slow
        },
        Trigger::Slow => TickPlan::Slow,
        Trigger::Heartbeat => if has_probe {
            TickPlan::Heartbeat
        } else {
            TickPlan::Slow
        },
    }
}

/// After the heartbeat's capture: with a cached layout and a hash that is
/// unchanged from last time (at most 4 bits apart), renew the verdict;
/// otherwise run the slow loop on the capture. Returns the decision
/// (`true` = renew) and the hash to remember.
pub fn heartbeat_step(layout_cached: bool, last_hash: Option<u64>, hash: Option<u64>) -> (r: (
    bool,
    Option<u64>,
))
    ensures
        !layout_cached ==> r == (false, last_hash),
        layout_cached ==> (hash matches Some(h) ==> r == ((last_hash matches Some(l) && popcount(
            l ^ h,
        ) <= 4), Some(h))),
        layout_cached && hash is None ==> r == (false, last_hash),
{
    if !layout_cached {
        return (false, last_hash);
    }
    match hash {
        Some(h) => {
            let same = match last_hash {
                Some(l) => unchanged(l, h),
                None => false,
            };
            (same, Some(h))
        },
        None => (false, last_hash),
    }
}

/// What a stage failure does besides ending the tick.
#[derive(Debug, Clone, Copy, PartialEq, Eq, Structural)]
pub enum FailureEffect {
    /// Clear the slot (fail-open: the next key passes).
    ClearSlot,
    /// Disable the guard and clear the slot.
    DisableAndClear,
    /// Leave everything as it is.
    Nothing,
}

/// A stage failure: recoverable clears the slot, fatal also disables the
/// guard, a cancelled run is skipped.
pub fn on_stage_failure(e: StageError) -> (r: (TickOutcome, FailureEffect))
    ensures
        match e {
            StageError::Recoverable(m) => r.1 == FailureEffect::ClearSlot && (r.0 matches TickOutcome::Cleared(c) && c@ == m@),
            StageError::Fatal(m) => r.1 == FailureEffect::DisableAndClear && (r.0 matches TickOutcome::Fatal(c) && c@ == m@),
            StageError::Cancelled => r.1 == FailureEffect::Nothing && (r.0 matches TickOutcome::Skipped(s) && s@ == "cancelled"@),
        },
{
    match e {
        StageError::Recoverable(m) => (TickOutcome::Cleared(m), FailureEffect::ClearSlot),
        StageError::Fatal(m) => (TickOutcome::Fatal(m), FailureEffect::DisableAndClear),
        StageError::Cancelled => (TickOutcome::Skipped("cancelled"), FailureEffect::Nothing),
    }
}

} // verus!
