//! Semantic judgement inputs: L1 rules, contact profiles, document types and
//! the exact text fed to the L2 embedding towers.
//!
//! The embedding model, the linear heads and the score thresholds work in
//! floating point and are not part of this library; the texts they embed are
//! fixed here, because the training corpus uses the very same strings.

pub mod contacts;
pub mod doc;
pub mod rules;
pub mod scenarios;

use vstd::prelude::*;
use vstd::string::*;

use crate::contract::OcrResult;
use crate::ieee::{bits_ge, ge};
use crate::text::{
    is_blank, is_white_space, lemma_trim_empty_iff_blank, lemma_trim_padded, opt_str_view,
    string_views, trim, trim_spec,
};
use crate::verdict::{Verdict, VerdictLevel, SCORE_ONE_BITS, SCORE_ZERO_BITS};
use contacts::ContactBook;
use rules::{spec_first_hit, Profile, RuleSet};
use scenarios::{find_view, ScenarioManager, ScenarioView, THRESHOLD_FORMAL_BITS};

verus! {

/// Draft-tower text: with a non-blank context, `之前的对话：{ctx}\n现在要发送：{draft}`
/// (context trimmed); otherwise the draft alone.
pub open spec fn spec_draft_embed_text(ctx: Option<Seq<char>>, draft: Seq<char>) -> Seq<char> {
    match ctx {
        Some(c) => if trim_spec(c).len() > 0 {
            "之前的对话："@ + trim_spec(c) + "\n现在要发送："@ + draft
        } else {
            draft
        },
        None => draft,
    }
}

/// Object-tower text: `对象：{target}` with the target trimmed, and the fixed
/// placeholder `未标记` for an absent or blank target (the position stays filled).
pub open spec fn spec_object_embed_text(target: Option<Seq<char>>) -> Seq<char> {
    match target {
        Some(t) => if trim_spec(t).len() > 0 {
            "对象："@ + trim_spec(t)
        } else {
            "对象："@ + "未标记"@
        },
        None => "对象："@ + "未标记"@,
    }
}

/// The object tower names the partner: a name of any length (one character
/// included), with white space around it, gives `对象：` followed by exactly
/// that name.
pub proof fn lemma_object_text_names_partner(pre: Seq<char>, name: Seq<char>, post: Seq<char>)
    requires
        is_blank(pre),
        is_blank(post),
        name.len() > 0,
        !is_white_space(name[0]),
        !is_white_space(name.last()),
    ensures
        spec_object_embed_text(Some(pre + name + post)) == "对象："@ + name,
{
    lemma_trim_padded(pre, name, post);
}

/// The placeholder `未标记` stands only for an absent target or one made of
/// white space alone; any other target is named, trimmed.
pub proof fn lemma_object_placeholder_only_when_unnamed(target: Option<Seq<char>>)
    ensures
        (target is None || is_blank(target->0)) ==> spec_object_embed_text(target) == "对象："@
            + "未标记"@,
        (target is Some && !is_blank(target->0)) ==> spec_object_embed_text(target) == "对象："@
            + trim_spec(target->0),
{
    if target is Some {
        lemma_trim_empty_iff_blank(target->0);
    }
}

/// The draft tower's embedding input.
pub fn draft_embed_text(ctx: Option<&str>, draft: &str) -> (s: String)
    ensures
        s@ == spec_draft_embed_text(opt_str_view(ctx), draft@),
{
    match ctx {
        Some(c) => {
            let t = trim(c);
            if !t.is_empty() {
                let mut s = String::from_str("之前的对话：");
                s.append(t);
                s.append("\n现在要发送：");
                s.append(draft);
                s
            } else {
                String::from_str(draft)
            }
        },
        None => String::from_str(draft),
    }
}

/// The object tower's embedding input.
pub fn object_embed_text(target: Option<&str>) -> (s: String)
    ensures
        s@ == spec_object_embed_text(opt_str_view(target)),
{
    let mut s = String::from_str("对象：");
    match target {
        Some(t) => {
            let t = trim(t);
            if !t.is_empty() {
                s.append(t);
            } else {
                s.append("未标记");
            }
        },
        None => {
            s.append("未标记");
        },
    }
    s
}

/// How a scenario's L2 threshold steers judgement: 1.0 forbids the scenario
/// outright, 0.0 leaves it unrestricted, anything else is scored.
#[derive(Debug, Clone, Copy, PartialEq, Eq, Structural)]
pub enum ThresholdClass {
    Forbidden,
    Unlimited,
    Scored,
}

/// The single-precision test `|t - 1.0| < 1e-6` on the bit pattern of `t`:
/// the values from 16 steps below 1.0 to 8 steps above it (near 1.0 the
/// subtraction is exact, so the test compares `|t - 1|` with the `f32` nearest
/// to 1e-6).
pub open spec fn threshold_forbids(bits: u32) -> bool {
    0x3F7F_FFF0u32 <= bits <= 0x3F80_0008u32
}

/// The single-precision test `|t| < 1e-6`: the magnitude bits lie below those
/// of the `f32` nearest to 1e-6 (NaN never does).
pub open spec fn threshold_unrestricts(bits: u32) -> bool {
    (bits & 0x7FFF_FFFFu32) < 0x3586_37BDu32
}

pub open spec fn threshold_class(bits: u32) -> ThresholdClass {
    if threshold_forbids(bits) {
        ThresholdClass::Forbidden
    } else if threshold_unrestricts(bits) {
        ThresholdClass::Unlimited
    } else {
        ThresholdClass::Scored
    }
}

impl ThresholdClass {
    /// Classify a threshold given by its bit pattern (the extreme values are
    /// compared with a tolerance of 1e-6).
    pub fn of(threshold_bits: u32) -> (c: ThresholdClass)
        ensures
            c == threshold_class(threshold_bits),
    {
        if 0x3F7F_FFF0u32 <= threshold_bits && threshold_bits <= 0x3F80_0008u32 {
            ThresholdClass::Forbidden
        } else if (threshold_bits & 0x7FFF_FFFFu32) < 0x3586_37BDu32 {
            ThresholdClass::Unlimited
        } else {
            ThresholdClass::Scored
        }
    }
}

/// What the rule stage decides before any model runs.
#[derive(Debug, Clone, PartialEq, Eq)]
pub enum RuleDecision {
    /// Block, with the reason shown to the user.
    Block(String),
    /// Safe without scoring.
    Safe,
    /// Non-empty draft that no rule hit: the L2 score decides.
    Score,
}

/// Abstract value of a [`RuleDecision`].
pub enum DecisionView {
    Block(Seq<char>),
    Safe,
    Score,
}

impl View for RuleDecision {
    type V = DecisionView;

    open spec fn view(&self) -> DecisionView {
        match self {
            RuleDecision::Block(r) => DecisionView::Block(r@),
            RuleDecision::Safe => DecisionView::Safe,
            RuleDecision::Score => DecisionView::Score,
        }
    }
}

/// The reason text of a rule hit.
pub open spec fn rule_hit_reason(pattern: Seq<char>) -> Seq<char> {
    "命中违禁词「"@ + pattern + "」"@
}

/// The decision before L2, in order: a forbidden scenario blocks and an
/// unrestricted one passes, whatever the draft says; then the first L1 rule
/// hit on the trimmed draft blocks; then an empty draft is safe; otherwise
/// the L2 score decides.
pub open spec fn decision_spec(
    rules: RuleSet,
    scenario: Seq<char>,
    class: ThresholdClass,
    draft: Seq<char>,
) -> DecisionView {
    match class {
        ThresholdClass::Forbidden => DecisionView::Block("禁止场景"@),
        ThresholdClass::Unlimited => DecisionView::Safe,
        ThresholdClass::Scored => match spec_first_hit(
            rules.literal_defs(),
            rules.regex_defs(),
            trim_spec(draft),
            scenario,
        ) {
            Some(p) => DecisionView::Block(rule_hit_reason(p)),
            None => if trim_spec(draft).len() == 0 {
                DecisionView::Safe
            } else {
                DecisionView::Score
            },
        },
    }
}

/// The rule stage's decision for a draft sent in a scenario.
pub fn rule_decision(rules: &RuleSet, scenario: &str, class: ThresholdClass, draft: &str) -> (d:
    RuleDecision)
    ensures
        d@ == decision_spec(*rules, scenario@, class, draft@),
{
    match class {
        ThresholdClass::Forbidden => RuleDecision::Block(String::from_str("禁止场景")),
        ThresholdClass::Unlimited => RuleDecision::Safe,
        ThresholdClass::Scored => {
            let d = trim(draft);
            match rules.first_hit(d, scenario) {
                Some(hit) => {
                    let mut r = String::from_str("命中违禁词「");
                    r.append(hit.pattern.as_str());
                    r.append("」");
                    RuleDecision::Block(r)
                },
                None => {
                    if d.is_empty() {
                        RuleDecision::Safe
                    } else {
                        RuleDecision::Score
                    }
                },
            }
        },
    }
}

/// Whether scoring by the model runs after start-up: only when it is
/// configured on and the chosen model is a semantic model whose directory
/// was found; otherwise the rules judge alone (fail-open).
pub fn l2_after_init(configured: bool, model_is_sem: bool, model_dir_found: bool) -> (b: bool)
    ensures
        b == (configured && model_is_sem && model_dir_found),
{
    configured && model_is_sem && model_dir_found
}

/// Where a draft-only score falls against the fast-path bands.
#[derive(Debug, Clone, Copy, PartialEq, Eq, Structural)]
pub enum FastPathBand {
    /// Inside the safe band: safe without the full score.
    Safe,
    /// Inside the block band (and not the safe one): block without the full score.
    Block,
    /// In neither band: the full two-tower score decides.
    Neither,
}

/// `lo <= score <= hi` on single-precision bit patterns.
pub open spec fn in_band(score_bits: u32, lo_bits: u32, hi_bits: u32) -> bool {
    bits_ge(score_bits, lo_bits) && bits_ge(hi_bits, score_bits)
}

/// The fast path: the safe band is tested first, then the block band.
pub fn fast_path_band(
    score_bits: u32,
    safe_band_bits: (u32, u32),
    block_band_bits: (u32, u32),
) -> (b: FastPathBand)
    ensures
        b == (if in_band(score_bits, safe_band_bits.0, safe_band_bits.1) {
            FastPathBand::Safe
        } else if in_band(score_bits, block_band_bits.0, block_band_bits.1) {
            FastPathBand::Block
        } else {
            FastPathBand::Neither
        }),
{
    if ge(score_bits, safe_band_bits.0) && ge(safe_band_bits.1, score_bits) {
        FastPathBand::Safe
    } else if ge(score_bits, block_band_bits.0) && ge(block_band_bits.1, score_bits) {
        FastPathBand::Block
    } else {
        FastPathBand::Neither
    }
}

/// What the rules decide for one OCR result, with the scenario facts the
/// model stage needs when they leave the decision to the score.
#[derive(Debug)]
pub struct L1Judgement {
    /// Scenario id of the chat partner (unmarked partners are `formal`).
    pub scenario_id: String,
    /// Display name of the scenario (the id itself for an unknown one).
    pub scenario_name: String,
    /// Base profile: which linear head scores the draft.
    pub base: Profile,
    /// Threshold (bit pattern) the score is compared with.
    pub threshold_bits: u32,
    pub decision: RuleDecision,
}

/// The chat partner's name, `""` when none was read.
pub open spec fn target_name(input: OcrResult) -> Seq<char> {
    match input.chat_target {
        Some(t) => t@,
        None => Seq::empty(),
    }
}

/// Scenario id of the partner named `target`: its marked profile, else `formal`.
pub open spec fn scenario_of(contacts: Map<Seq<char>, Seq<char>>, target: Seq<char>) -> Seq<char> {
    if contacts.contains_key(target) {
        contacts[target]
    } else {
        "formal"@
    }
}

/// Threshold of scenario `sid` in the table `all`; unknown ids get the formal default.
pub open spec fn scenario_threshold(all: Seq<ScenarioView>, sid: Seq<char>) -> u32 {
    match find_view(all, sid) {
        Some(v) => v.threshold_bits,
        None => THRESHOLD_FORMAL_BITS,
    }
}

/// The rule stage's decision on an OCR result: the partner's profile picks
/// the scenario, whose threshold class and the rules decide on the draft.
pub open spec fn judged_decision(
    rules: RuleSet,
    contacts: Map<Seq<char>, Seq<char>>,
    all: Seq<ScenarioView>,
    input: OcrResult,
) -> DecisionView {
    let sid = scenario_of(contacts, target_name(input));
    decision_spec(rules, sid, threshold_class(scenario_threshold(all, sid)), input.draft_text@)
}

/// The rules judge the draft alone: the conversation excerpt and the text
/// blocks change nothing.
pub proof fn lemma_rules_ignore_context(
    rules: RuleSet,
    contacts: Map<Seq<char>, Seq<char>>,
    all: Seq<ScenarioView>,
    a: OcrResult,
    b: OcrResult,
)
    requires
        target_name(a) == target_name(b),
        a.draft_text@ == b.draft_text@,
    ensures
        judged_decision(rules, contacts, all, a) == judged_decision(rules, contacts, all, b),
{
}

/// A forbidden or unrestricted scenario is decided by the chat partner
/// alone: the draft and the rules change nothing.
pub proof fn lemma_extreme_thresholds_ignore_draft(
    rules: RuleSet,
    scenario: Seq<char>,
    draft: Seq<char>,
)
    ensures
        decision_spec(rules, scenario, ThresholdClass::Forbidden, draft) == DecisionView::Block(
            "禁止场景"@,
        ),
        decision_spec(rules, scenario, ThresholdClass::Unlimited, draft) == DecisionView::Safe,
{
}

/// A partner without a profile is judged in the formal scenario.
pub proof fn lemma_unmarked_is_formal(contacts: Map<Seq<char>, Seq<char>>, target: Seq<char>)
    requires
        !contacts.contains_key(target),
    ensures
        scenario_of(contacts, target) == "formal"@,
{
}

/// The rule-stage judgement: the partner's profile picks the scenario, the
/// scenario's threshold class and the rules decide on the draft. Unknown
/// scenario ids (a removed scenario) fall back to the formal defaults.
pub fn judge_rules(
    rules: &RuleSet,
    contacts: &ContactBook,
    scenarios: &ScenarioManager,
    input: &OcrResult,
) -> (j: L1Judgement)
    ensures
        ({
            let sid = scenario_of(contacts@, target_name(*input));
            let found = find_view(scenarios.all_views(), sid);
            &&& j.scenario_id@ == sid
            &&& j.scenario_name@ == match found {
                Some(v) => v.name,
                None => sid,
            }
            &&& j.base == match found {
                Some(v) => v.base,
                None => Profile::Formal,
            }
            &&& j.threshold_bits == scenario_threshold(scenarios.all_views(), sid)
            &&& j.decision@ == judged_decision(*rules, contacts@, scenarios.all_views(), *input)
        }),
{
    let target: &str = match &input.chat_target {
        Some(t) => t.as_str(),
        None => "",
    };
    proof {
        reveal_strlit("");
    }
    assert(target@ == target_name(*input));
    let sid = String::from_str(contacts.profile_of(target));
    let scenario_name = scenarios.name_of(sid.as_str());
    let base = scenarios.base_of(sid.as_str());
    let threshold_bits = scenarios.threshold_bits_of(sid.as_str());
    let class = ThresholdClass::of(threshold_bits);
    let decision = rule_decision(rules, sid.as_str(), class, input.draft_text.as_str());
    L1Judgement { scenario_id: sid, scenario_name, base, threshold_bits, decision }
}

/// The verdict when no model scores the draft (L2 off or not loaded): the
/// rules' block stands, everything else is safe; the scenario's name is
/// attached either way.
pub fn l1_only_verdict(j: &L1Judgement) -> (v: Verdict)
    ensures
        v.level == (if j.decision is Block {
            VerdictLevel::Block
        } else {
            VerdictLevel::Safe
        }),
        v.score_bits == (if j.decision is Block {
            SCORE_ONE_BITS
        } else {
            SCORE_ZERO_BITS
        }),
        j.decision matches RuleDecision::Block(r) ==> string_views(v.reasons@) == seq![r@],
        !(j.decision is Block) ==> string_views(v.reasons@) == Seq::<Seq<char>>::empty(),
        v.scene_name matches Some(n) && n@ == j.scenario_name@,
        v.chat_target is None,
        v.draft_epoch == 0,
{
    let v = match &j.decision {
        RuleDecision::Block(r) => Verdict::block(r.as_str()),
        _ => Verdict::safe(),
    };
    v.with_scene(j.scenario_name.as_str())
}

} // verus!
