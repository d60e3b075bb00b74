//! Verdicts, the draft fingerprint and the verdict slot.
//!
//! Logs carry the draft's fingerprint, never its text. The slot is read by
//! the keyboard hook without locking; a verdict counts only while its stamp
//! is fresh, and whoever cannot read a fresh verdict lets the key through.

use std::sync::atomic::{AtomicU64, Ordering};
use std::sync::Arc;
use std::time::{Duration, Instant};

use arc_swap::ArcSwapOption;
use vstd::prelude::*;
use vstd::string::*;

use crate::clock::{duration_lt, instant_elapsed, instant_now};
use crate::ieee::{bits_gt, gt};
use crate::sem::rule_hit_reason;
use crate::text::{opt_string_view, string_views};

verus! {

/// Verdict level.
#[derive(Debug, Clone, Copy, PartialEq, Eq, PartialOrd, Ord, Structural)]
pub enum VerdictLevel {
    Safe,
    Warn,
    Block,
}

impl VerdictLevel {
    pub open spec fn spec_name(self) -> Seq<char> {
        match self {
            VerdictLevel::Safe => "safe"@,
            VerdictLevel::Warn => "warn"@,
            VerdictLevel::Block => "block"@,
        }
    }

    /// Whether the send key must be swallowed and an alert shown (`Warn` and `Block`).
    pub fn is_dangerous(self) -> (b: bool)
        ensures
            b <==> (self == VerdictLevel::Warn || self == VerdictLevel::Block),
    {
        match self {
            VerdictLevel::Warn | VerdictLevel::Block => true,
            VerdictLevel::Safe => false,
        }
    }

    pub fn as_str(self) -> (s: &'static str)
        ensures
            s@ == self.spec_name(),
    {
        match self {
            VerdictLevel::Safe => "safe",
            VerdictLevel::Warn => "warn",
            VerdictLevel::Block => "block",
        }
    }
}

pub const FNV_OFFSET: u64 = 0xcbf2_9ce4_8422_2325;

pub const FNV_PRIME: u64 = 0x0000_0100_0000_01b3;

/// 64-bit FNV-1a over a byte sequence: start from the offset basis; for each
/// byte, xor it in, then multiply by the 64-bit FNV prime (2^40 + 2^8 + 0xb3)
/// modulo 2^64.
pub open spec fn fnv1a(bytes: Seq<u8>) -> u64
    decreases bytes.len(),
{
    if bytes.len() == 0 {
        FNV_OFFSET
    } else {
        vstd::wrapping::u64_specs::wrapping_mul(
            fnv1a(bytes.drop_last()) ^ (bytes.last() as u64),
            FNV_PRIME,
        )
    }
}

/// Fingerprint of a draft: FNV-1a 64 over its UTF-8 bytes.
pub fn draft_fingerprint(text: &str) -> (h: u64)
    ensures
        h == fnv1a(text.spec_bytes()),
{
    let bytes = text.as_bytes();
    let mut hash: u64 = FNV_OFFSET;
    let mut i: usize = 0;
    while i < bytes.len()
        invariant
            i <= bytes@.len(),
            bytes@ == text.spec_bytes(),
            hash == fnv1a(bytes@.subrange(0, i as int)),
        decreases bytes@.len() - i,
    {
        assert(bytes@.subrange(0, i + 1).drop_last() =~= bytes@.subrange(0, i as int));
        hash = hash ^ (bytes[i] as u64);
        hash = hash.wrapping_mul(FNV_PRIME);
        i = i + 1;
    }
    assert(bytes@.subrange(0, i as int) =~= bytes@);
    hash
}

/// Bit pattern of the score 0.0.
pub const SCORE_ZERO_BITS: u32 = 0x0000_0000;

/// Bit pattern of the score 0.5.
pub const SCORE_HALF_BITS: u32 = 0x3F00_0000;

/// Bit pattern of the score 1.0.
pub const SCORE_ONE_BITS: u32 = 0x3F80_0000;

/// A verdict (output of the semantic stage, content of the slot).
#[derive(Debug)]
pub struct Verdict {
    pub level: VerdictLevel,
    /// Danger probability in 0..1 (single-precision bit pattern).
    pub score_bits: u32,
    /// Human-readable reasons.
    pub reasons: Vec<String>,
    pub chat_target: Option<String>,
    /// Display name of the scenario that applied (alert label; memory only).
    pub scene_name: Option<String>,
    /// Recent conversation excerpt (alert display; memory only).
    pub chat_context: Option<String>,
    /// The draft itself, for the alert only; logs carry the fingerprint.
    pub draft_text: Option<String>,
    /// Fingerprint of `draft_text`.
    pub draft_fingerprint: u64,
    /// Draft epoch this verdict was made for.
    pub draft_epoch: u64,
    pub decided_at: Instant,
}

impl Clone for Verdict {
    fn clone(&self) -> (r: Verdict)
        ensures
            r.level == self.level,
            r.score_bits == self.score_bits,
            r.draft_fingerprint == self.draft_fingerprint,
            r.draft_epoch == self.draft_epoch,
            r.decided_at == self.decided_at,
    {
        Verdict {
            level: self.level,
            score_bits: self.score_bits,
            reasons: self.reasons.clone(),
            chat_target: self.chat_target.clone(),
            scene_name: self.scene_name.clone(),
            chat_context: self.chat_context.clone(),
            draft_text: self.draft_text.clone(),
            draft_fingerprint: self.draft_fingerprint,
            draft_epoch: self.draft_epoch,
            decided_at: self.decided_at,
        }
    }
}

impl Verdict {
    /// The verdict's level, score and reasons; nothing attached, epoch 0,
    /// fingerprint 0, decided now.
    pub open spec fn is_bare(self, level: VerdictLevel, score_bits: u32, reasons: Seq<Seq<char>>) -> bool {
        &&& self.level == level
        &&& self.score_bits == score_bits
        &&& string_views(self.reasons@) == reasons
        &&& self.chat_target is None
        &&& self.scene_name is None
        &&& self.chat_context is None
        &&& self.draft_text is None
        &&& self.draft_fingerprint == 0
        &&& self.draft_epoch == 0
    }

    pub fn new(level: VerdictLevel, score_bits: u32, reasons: Vec<String>) -> (v: Verdict)
        ensures
            v.is_bare(level, score_bits, string_views(reasons@)),
    {
        Verdict {
            level,
            score_bits,
            reasons,
            chat_target: None,
            scene_name: None,
            chat_context: None,
            draft_text: None,
            draft_fingerprint: 0,
            draft_epoch: 0,
            decided_at: instant_now(),
        }
    }

    /// Safe, score 0.
    pub fn safe() -> (v: Verdict)
        ensures
            v.is_bare(VerdictLevel::Safe, SCORE_ZERO_BITS, Seq::empty()),
    {
        let v = Verdict::new(VerdictLevel::Safe, SCORE_ZERO_BITS, Vec::new());
        assert(string_views(Seq::<String>::empty()) =~= Seq::<Seq<char>>::empty());
        v
    }

    fn one_reason(reason: &str) -> (v: Vec<String>)
        ensures
            string_views(v@) == seq![reason@],
    {
        let mut v: Vec<String> = Vec::new();
        v.push(String::from_str(reason));
        assert(string_views(v@) =~= seq![reason@]);
        v
    }

    /// Block, score 1, with the reason.
    pub fn block(reason: &str) -> (v: Verdict)
        ensures
            v.is_bare(VerdictLevel::Block, SCORE_ONE_BITS, seq![reason@]),
    {
        Verdict::new(VerdictLevel::Block, SCORE_ONE_BITS, Verdict::one_reason(reason))
    }

    /// Warn, score 0.5, with the reason.
    pub fn warn(reason: &str) -> (v: Verdict)
        ensures
            v.is_bare(VerdictLevel::Warn, SCORE_HALF_BITS, seq![reason@]),
    {
        Verdict::new(VerdictLevel::Warn, SCORE_HALF_BITS, Verdict::one_reason(reason))
    }

    /// An L1 rule hit: Block with the nominal score 1 and the hit as reason.
    pub fn from_rule(pattern: &str) -> (v: Verdict)
        ensures
            v.is_bare(VerdictLevel::Block, SCORE_ONE_BITS, seq![rule_hit_reason(pattern@)]),
    {
        let mut r = String::from_str("命中违禁词「");
        r.append(pattern);
        r.append("」");
        let mut reasons: Vec<String> = Vec::new();
        reasons.push(r);
        assert(string_views(reasons@) =~= seq![rule_hit_reason(pattern@)]);
        Verdict::new(VerdictLevel::Block, SCORE_ONE_BITS, reasons)
    }

    /// The L2 score against the scenario threshold: strictly above blocks,
    /// at or below is safe.
    pub fn from_score(score_bits: u32, threshold_bits: u32) -> (v: Verdict)
        ensures
            v.is_bare(
                if bits_gt(score_bits, threshold_bits) {
                    VerdictLevel::Block
                } else {
                    VerdictLevel::Safe
                },
                score_bits,
                Seq::empty(),
            ),
    {
        let level = if gt(score_bits, threshold_bits) {
            VerdictLevel::Block
        } else {
            VerdictLevel::Safe
        };
        let v = Verdict::new(level, score_bits, Vec::new());
        assert(string_views(Seq::<String>::empty()) =~= Seq::<Seq<char>>::empty());
        v
    }

    pub fn with_epoch(self, epoch: u64) -> (v: Verdict)
        ensures
            v == (Verdict { draft_epoch: epoch, ..self }),
    {
        let mut v = self;
        v.draft_epoch = epoch;
        v
    }

    pub fn with_draft(self, text: &str, fingerprint: u64) -> (v: Verdict)
        ensures
            opt_string_view(v.draft_text) == Some(text@),
            v == (Verdict { draft_text: v.draft_text, draft_fingerprint: fingerprint, ..self }),
    {
        let mut v = self;
        v.draft_text = Some(String::from_str(text));
        v.draft_fingerprint = fingerprint;
        v
    }

    pub fn with_target(self, target: &str) -> (v: Verdict)
        ensures
            opt_string_view(v.chat_target) == Some(target@),
            v == (Verdict { chat_target: v.chat_target, ..self }),
    {
        let mut v = self;
        v.chat_target = Some(String::from_str(target));
        v
    }

    /// Attach the display name of the scenario that applied.
    pub fn with_scene(self, scene: &str) -> (v: Verdict)
        ensures
            opt_string_view(v.scene_name) == Some(scene@),
            v == (Verdict { scene_name: v.scene_name, ..self }),
    {
        let mut v = self;
        v.scene_name = Some(String::from_str(scene));
        v
    }

    /// Attach the conversation excerpt.
    pub fn with_context(self, context: Option<String>) -> (v: Verdict)
        ensures
            v == (Verdict { chat_context: context, ..self }),
    {
        let mut v = self;
        v.chat_context = context;
        v
    }

    /// Whether the verdict itself is younger than `ttl` (by its own
    /// decision time; the slot keeps a separate, renewable stamp). Depends
    /// on the clock: nothing is stated of the result.
    pub fn fresh(&self, ttl: Duration) -> bool {
        let age = instant_elapsed(&self.decided_at);
        duration_lt(&age, &ttl)
    }
}

/// The slot's cell, an `ArcSwapOption` of the `arc-swap` crate. Its strategy
/// types are private to that crate, so the cell is held opaquely and only the
/// three calls below reach it.
#[verifier::external_body]
#[derive(Debug)]
struct SwapCell {
    cell: ArcSwapOption<Verdict>,
}

/// `ArcSwapAny::default`: an empty cell.
#[verifier::external_body]
fn swap_empty() -> SwapCell {
    SwapCell { cell: ArcSwapOption::default() }
}

/// `ArcSwapAny::store`: replace what the cell holds. Other threads may store
/// at any time, so nothing is stated of later reads.
#[verifier::external_body]
fn swap_store(s: &SwapCell, v: Option<Arc<Verdict>>) {
    s.cell.store(v)
}

/// `ArcSwapAny::load_full`: what the cell holds at the moment of the read
/// (it depends on other threads; nothing is stated of it).
#[verifier::external_body]
fn swap_load_full(s: &SwapCell) -> Option<Arc<Verdict>> {
    s.cell.load_full()
}

/// The stamp a store or renewal at `now_ms` writes: never 0, which marks an
/// empty slot.
pub open spec fn stamp_at(now_ms: u64) -> u64 {
    if now_ms == 0 {
        1
    } else {
        now_ms
    }
}

/// A stamp is fresh at `now_ms` when it is set and at most `ttl_ms` old
/// (a stamp from the future counts as age 0).
pub open spec fn stamp_fresh(stamp: u64, now_ms: u64, ttl_ms: u64) -> bool {
    stamp != 0 && (if now_ms >= stamp {
        now_ms - stamp
    } else {
        0
    }) <= ttl_ms
}

/// A verdict stored at `now_ms` is fresh at that moment whatever the TTL,
/// and its stamp is never the empty mark.
pub proof fn lemma_stored_verdict_fresh(now_ms: u64, ttl_ms: u64)
    ensures
        stamp_at(now_ms) != 0,
        stamp_fresh(stamp_at(now_ms), now_ms, ttl_ms),
{
}

/// An empty slot is never fresh: whoever reads it lets the key pass (fail-open).
pub proof fn lemma_empty_never_fresh(now_ms: u64, ttl_ms: u64)
    ensures
        !stamp_fresh(0, now_ms, ttl_ms),
{
}

/// Freshness only expires: fresh at a later time means fresh at any earlier
/// time.
pub proof fn lemma_freshness_only_expires(stamp: u64, t1: u64, t2: u64, ttl_ms: u64)
    requires
        t1 <= t2,
        stamp_fresh(stamp, t2, ttl_ms),
    ensures
        stamp_fresh(stamp, t1, ttl_ms),
{
}

/// The stamp written at `now_ms`.
pub fn stamp_for(now_ms: u64) -> (s: u64)
    ensures
        s == stamp_at(now_ms),
{
    if now_ms == 0 {
        1
    } else {
        now_ms
    }
}

/// Freshness test on a stamp read from the slot.
pub fn stamp_is_fresh(stamp: u64, now_ms: u64, ttl_ms: u64) -> (b: bool)
    ensures
        b == stamp_fresh(stamp, now_ms, ttl_ms),
{
    stamp != 0 && now_ms.saturating_sub(stamp) <= ttl_ms
}

/// What a read of the slot hands out: the verdict read, when the stamp read
/// with it is fresh; nothing otherwise.
pub fn fresh_of<T>(v: Option<T>, stamp: u64, now_ms: u64, ttl_ms: u64) -> (r: Option<T>)
    ensures
        r == (if v is Some && stamp_fresh(stamp, now_ms, ttl_ms) {
            v
        } else {
            None::<T>
        }),
{
    match v {
        Some(x) => if stamp_is_fresh(stamp, now_ms, ttl_ms) {
            Some(x)
        } else {
            None
        },
        None => None,
    }
}

/// `Duration::as_millis` truncated to 64 bits, as the slot compares ages.
#[verifier::external_body]
fn ttl_millis(ttl: &Duration) -> u64 {
    ttl.as_millis() as u64
}

/// Lock-free verdict slot: the hook thread only ever reads it.
#[derive(Debug)]
pub struct VerdictSlot {
    inner: SwapCell,
    /// Monotonic millisecond stamp of the verdict or of its last renewal;
    /// 0 means empty.
    stamp_ms: AtomicU64,
}

impl Default for VerdictSlot {
    fn default() -> VerdictSlot {
        VerdictSlot::new()
    }
}

impl VerdictSlot {
    pub fn new() -> VerdictSlot {
        VerdictSlot { inner: swap_empty(), stamp_ms: AtomicU64::new(0) }
    }

    /// Store a new verdict, stamped `stamp_at(now_ms)`.
    pub fn store(&self, verdict: Verdict, now_ms: u64) {
        swap_store(&self.inner, Some(Arc::new(verdict)));
        self.stamp_ms.store(stamp_for(now_ms), Ordering::SeqCst);
    }

    /// Renewal without inference (the heartbeat found the pixels unchanged):
    /// restamp a present verdict. Returns whether a verdict was present.
    pub fn refresh(&self, now_ms: u64) -> bool {
        if swap_load_full(&self.inner).is_some() {
            self.stamp_ms.store(stamp_for(now_ms), Ordering::SeqCst);
            true
        } else {
            false
        }
    }

    /// The verdict, freshness not checked.
    pub fn load(&self) -> Option<Arc<Verdict>> {
        swap_load_full(&self.inner)
    }

    /// The verdict if its stamp is fresh (`fresh_of` on the verdict and the stamp read
    /// after the verdict); `None` otherwise, and the caller lets the key through.
    pub fn load_fresh(&self, ttl: Duration, now_ms: u64) -> Option<Arc<Verdict>> {
        let verdict = swap_load_full(&self.inner);
        match verdict {
            None => None,
            Some(v) => {
                let stamp = self.stamp_ms.load(Ordering::SeqCst);
                fresh_of(Some(v), stamp, now_ms, ttl_millis(&ttl))
            },
        }
    }

    /// Empty the slot (fail-open when a stage fails).
    pub fn clear(&self) {
        swap_store(&self.inner, None);
        self.stamp_ms.store(0, Ordering::SeqCst);
    }

    pub fn is_empty(&self) -> bool {
        swap_load_full(&self.inner).is_none()
    }

    /// Current stamp (tests and diagnostics).
    pub fn stamp_ms(&self) -> u64 {
        self.stamp_ms.load(Ordering::SeqCst)
    }
}

} // verus!
