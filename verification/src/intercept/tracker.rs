//! Draft-epoch tracking (with "don't ask again" snooze) and foreground
//! tracking with debounce.
//!
//! Every method is O(1): plain reads and writes, no allocation. The trackers
//! take `&mut self` for updates; a caller that shares one across threads wraps
//! it in its own lock.

use vstd::prelude::*;

verus! {

/// Abstract state of a [`DraftTracker`].
pub struct DraftModel {
    pub epoch: u64,
    /// Epoch silenced by "don't ask again"; `u64::MAX` when none.
    pub snooze_epoch: u64,
}

impl DraftModel {
    /// The snooze epoch is unset or not ahead of the current epoch.
    pub open spec fn inv(self) -> bool {
        self.snooze_epoch == u64::MAX || self.snooze_epoch <= self.epoch
    }

    pub open spec fn snoozed(self) -> bool {
        self.snooze_epoch == self.epoch
    }

    pub open spec fn bumped(self) -> DraftModel {
        DraftModel { epoch: (self.epoch + 1) as u64, snooze_epoch: self.snooze_epoch }
    }

    pub open spec fn snooze(self) -> DraftModel {
        DraftModel { epoch: self.epoch, snooze_epoch: self.epoch }
    }

    pub open spec fn unsnooze(self) -> DraftModel {
        DraftModel { epoch: self.epoch, snooze_epoch: u64::MAX }
    }
}

/// Owner of the draft epoch and of the snooze epoch.
#[derive(Debug)]
pub struct DraftTracker {
    epoch: u64,
    snooze_epoch: u64,
}

impl View for DraftTracker {
    type V = DraftModel;

    closed spec fn view(&self) -> DraftModel {
        DraftModel { epoch: self.epoch, snooze_epoch: self.snooze_epoch }
    }
}

impl Default for DraftTracker {
    /// Epoch 0, nothing snoozed.
    fn default() -> (t: DraftTracker)
        ensures
            t@ == (DraftModel { epoch: 0, snooze_epoch: u64::MAX }),
    {
        DraftTracker { epoch: 0, snooze_epoch: u64::MAX }
    }
}

impl DraftTracker {
    pub fn new() -> (t: DraftTracker)
        ensures
            t@ == (DraftModel { epoch: 0, snooze_epoch: u64::MAX }),
            t@.inv(),
            !t@.snoozed(),
    {
        DraftTracker { epoch: 0, snooze_epoch: u64::MAX }
    }

    pub fn epoch(&self) -> (e: u64)
        ensures
            e == self@.epoch,
    {
        self.epoch
    }

    /// A content key or IME commit: the epoch advances by one; returns the new epoch.
    pub fn bump(&mut self) -> (e: u64)
        requires
            old(self)@.epoch < u64::MAX,
        ensures
            final(self)@ == old(self)@.bumped(),
            e == final(self)@.epoch,
            e == old(self)@.epoch + 1,
            old(self)@.inv() ==> final(self)@.inv(),
            old(self)@.inv() && e < u64::MAX ==> !final(self)@.snoozed(),
    {
        self.epoch = self.epoch + 1;
        self.epoch
    }

    /// "Don't ask again": silence the current epoch only.
    pub fn snooze_current(&mut self)
        ensures
            final(self)@ == old(self)@.snooze(),
            final(self)@.snoozed(),
            final(self)@.inv(),
    {
        self.snooze_epoch = self.epoch;
    }

    pub fn is_snoozed(&self) -> (b: bool)
        ensures
            b == self@.snoozed(),
    {
        self.snooze_epoch == self.epoch
    }

    pub fn clear_snooze(&mut self)
        ensures
            final(self)@ == old(self)@.unsnooze(),
            final(self)@.inv(),
            final(self)@.epoch < u64::MAX ==> !final(self)@.snoozed(),
    {
        self.snooze_epoch = u64::MAX;
    }
}

/// A snooze silences only the epoch it was taken in: once the draft changes,
/// the guard decides again.
pub proof fn lemma_snooze_only_current_epoch(m: DraftModel)
    requires
        m.epoch < u64::MAX,
    ensures
        m.snooze().snoozed(),
        !m.snooze().bumped().snoozed(),
{
}

/// Every update keeps the snooze epoch unset or behind the current epoch.
pub proof fn lemma_draft_updates_keep_inv(m: DraftModel)
    requires
        m.inv(),
        m.epoch < u64::MAX,
    ensures
        m.bumped().inv(),
        m.snooze().inv(),
        m.unsnooze().inv(),
{
}

/// Abstract state of a [`ForegroundTracker`].
pub struct ForegroundModel {
    pub is_target: bool,
    /// Planned suspension time; 0 = no plan.
    pub suspend_at_ms: u64,
    pub debounce_ms: u64,
}

pub open spec fn sat_add_u64(a: u64, b: u64) -> u64 {
    if a + b > u64::MAX {
        u64::MAX
    } else {
        (a + b) as u64
    }
}

impl ForegroundModel {
    /// A foreground event: the target coming back takes effect at once and
    /// cancels any plan; the target leaving plans a suspension `debounce` later.
    pub open spec fn noted(self, is_target: bool, now_ms: u64) -> ForegroundModel {
        if is_target {
            ForegroundModel { is_target: true, suspend_at_ms: 0, debounce_ms: self.debounce_ms }
        } else if self.is_target {
            ForegroundModel {
                is_target: true,
                suspend_at_ms: sat_add_u64(now_ms, self.debounce_ms),
                debounce_ms: self.debounce_ms,
            }
        } else {
            self
        }
    }

    /// Whether a due plan lands at `now_ms`.
    pub open spec fn plan_due(self, now_ms: u64) -> bool {
        self.suspend_at_ms != 0 && now_ms >= self.suspend_at_ms
    }

    /// Result of an evaluation at `now_ms`.
    pub open spec fn evaluation(self, now_ms: u64) -> bool {
        self.is_target && !self.plan_due(now_ms)
    }

    /// State after an evaluation at `now_ms` (a due plan lands).
    pub open spec fn evaluated(self, now_ms: u64) -> ForegroundModel {
        if self.is_target && self.plan_due(now_ms) {
            ForegroundModel { is_target: false, suspend_at_ms: 0, debounce_ms: self.debounce_ms }
        } else {
            self
        }
    }

    pub open spec fn suspended(self) -> ForegroundModel {
        ForegroundModel { is_target: false, suspend_at_ms: 0, debounce_ms: self.debounce_ms }
    }
}

/// Foreground tracking with debounce and no timer: waking is immediate;
/// a suspension lands only when `evaluate` runs after the debounce window.
#[derive(Debug)]
pub struct ForegroundTracker {
    is_target: bool,
    suspend_at_ms: u64,
    debounce_ms: u64,
}

impl View for ForegroundTracker {
    type V = ForegroundModel;

    closed spec fn view(&self) -> ForegroundModel {
        ForegroundModel {
            is_target: self.is_target,
            suspend_at_ms: self.suspend_at_ms,
            debounce_ms: self.debounce_ms,
        }
    }
}

impl ForegroundTracker {
    pub fn new(debounce_ms: u64) -> (t: ForegroundTracker)
        ensures
            t@ == (ForegroundModel { is_target: false, suspend_at_ms: 0, debounce_ms }),
    {
        ForegroundTracker { is_target: false, suspend_at_ms: 0, debounce_ms }
    }

    pub fn debounce_ms(&self) -> (d: u64)
        ensures
            d == self@.debounce_ms,
    {
        self.debounce_ms
    }

    /// A foreground event at `now_ms`.
    pub fn note(&mut self, is_target: bool, now_ms: u64)
        ensures
            final(self)@ == old(self)@.noted(is_target, now_ms),
    {
        if is_target {
            self.is_target = true;
            self.suspend_at_ms = 0;
        } else if self.is_target {
            self.suspend_at_ms = now_ms.saturating_add(self.debounce_ms);
        }
    }

    /// Whether the target counts as foreground now (a due suspension lands first).
    pub fn evaluate(&mut self, now_ms: u64) -> (b: bool)
        ensures
            b == old(self)@.evaluation(now_ms),
            final(self)@ == old(self)@.evaluated(now_ms),
    {
        if !self.is_target {
            return false;
        }
        let at = self.suspend_at_ms;
        if at != 0 && now_ms >= at {
            self.is_target = false;
            self.suspend_at_ms = 0;
            return false;
        }
        true
    }

    /// Suspend at once, ignoring the debounce (pause and tests).
    pub fn suspend_now(&mut self)
        ensures
            final(self)@ == old(self)@.suspended(),
    {
        self.is_target = false;
        self.suspend_at_ms = 0;
    }

    pub fn pending_suspend_at(&self) -> (t: u64)
        ensures
            t == self@.suspend_at_ms,
    {
        self.suspend_at_ms
    }
}

/// Waking is immediate: after the target comes back, every evaluation says
/// "foreground", whatever the time.
pub proof fn lemma_instant_wake(m: ForegroundModel, t: u64, later: u64)
    ensures
        m.noted(true, t).evaluation(later),
        m.noted(true, t).evaluated(later) == m.noted(true, t),
{
}

/// Debounce: after the target leaves at `t`, it still counts as foreground
/// before `t + debounce` and is suspended from then on.
pub proof fn lemma_debounce_window(m: ForegroundModel, t: u64, later: u64)
    requires
        m.is_target,
        t + m.debounce_ms <= u64::MAX,
        t + m.debounce_ms > 0,
    ensures
        later < t + m.debounce_ms ==> m.noted(false, t).evaluation(later),
        later >= t + m.debounce_ms ==> !m.noted(false, t).evaluation(later),
        later >= t + m.debounce_ms ==> !m.noted(false, t).evaluated(later).is_target,
{
}

/// Coming back inside the debounce window cancels the planned suspension.
pub proof fn lemma_return_cancels_plan(m: ForegroundModel, left: u64, back: u64, later: u64)
    ensures
        m.noted(false, left).noted(true, back).evaluation(later),
{
}

/// Once suspended, the tracker stays suspended until the target comes back.
pub proof fn lemma_suspension_sticks(m: ForegroundModel, now: u64, t: u64, later: u64)
    requires
        !m.evaluation(now),
    ensures
        !m.evaluated(now).evaluation(later),
        !m.evaluated(now).noted(false, t).evaluation(later),
{
}

} // verus!
