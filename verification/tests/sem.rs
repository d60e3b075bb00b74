use dc_pipeline::contract::{OcrResult, TextBlock};
use dc_pipeline::sem::contacts::{ContactBook, ContactDef};
use dc_pipeline::sem::scenarios::{SceneDef, ScenarioManager, THRESHOLD_FORMAL_BITS};
use dc_pipeline::sys_api::Rect;
use dc_pipeline::verdict::{Verdict, VerdictLevel};
use dc_pipeline::sem::doc::{ContactDoc, RuleDoc};
use dc_pipeline::sem::rules::{MatchKind, Profile, RuleDef, RuleSet};
use dc_pipeline::sem::{
    draft_embed_text, fast_path_band, judge_rules, l1_only_verdict, object_embed_text,
    rule_decision, FastPathBand, RuleDecision, ThresholdClass,
};

fn rule(pattern: &str, kind: MatchKind, applies: &[&str]) -> RuleDef {
    RuleDef {
        pattern: pattern.into(),
        match_kind: kind,
        applies_to: applies.iter().map(|s| s.to_string()).collect(),
    }
}

fn rules() -> RuleSet {
    match RuleSet::from_defs(vec![
        rule("sb", MatchKind::Word, &["formal"]),
        rule("(傻|沙)(比|逼|雕)", MatchKind::Regex, &["formal"]),
        rule("卧槽", MatchKind::Substring, &["all"]),
    ]) {
        Ok(rs) => rs,
        Err(e) => panic!("rules should compile: {e}"),
    }
}

fn contact(name: &str, profile: &str) -> ContactDef {
    ContactDef {
        name: name.into(),
        profile: profile.into(),
    }
}

#[test]
fn word_boundary() {
    let rs = rules();
    assert!(rs.first_hit("这个人真是 sb", "formal").is_some());
    assert!(rs.first_hit("absb 内嵌", "formal").is_none());
    assert!(rs.first_hit("你个 sb东西", "formal").is_some());
}

#[test]
fn profile_filter() {
    let rs = rules();
    assert!(rs.first_hit("你是 sb", "casual").is_none());
    assert!(rs.first_hit("卧槽", "casual").is_some());
}

#[test]
fn regex_match() {
    let rs = rules();
    assert!(rs.first_hit("你别傻逼了", "formal").is_some());
    assert!(rs.first_hit("你别傻雕了", "formal").is_some());
    assert!(rs.first_hit("你真傻", "formal").is_none());
}

#[test]
fn empty_text_no_hit() {
    let rs = rules();
    assert!(rs.first_hit("", "formal").is_none());
}

#[test]
fn first_hit_reports_pattern_and_order() {
    let rs = rules();
    let hit = rs.first_hit("卧槽 sb", "formal").expect("hit");
    assert_eq!(hit.pattern, "卧槽", "the earliest literal match wins");
    let hit = rs.first_hit("sb_x 傻逼", "formal").expect("regex hit");
    assert_eq!(hit.pattern, "(傻|沙)(比|逼|雕)", "word rule blocked by underscore, regex hits");
    assert!(rs.first_hit("x sb", "s9").is_none(), "unknown scenario only gets `all` rules");
    assert!(!rs.is_empty());
    assert!(RuleSet::from_defs(vec![]).map(|r| r.is_empty()).unwrap_or(false));
}

#[test]
fn from_defs_rejects_in_order() {
    match RuleSet::from_defs(vec![rule("", MatchKind::Word, &["all"])]) {
        Err(e) => assert_eq!(e, "规则 pattern 不能为空"),
        Ok(_) => panic!("empty pattern must be refused"),
    }
    match RuleSet::from_defs(vec![
        rule("ok", MatchKind::Substring, &["all"]),
        rule("(unclosed", MatchKind::Regex, &["all"]),
        rule("", MatchKind::Word, &["all"]),
    ]) {
        Err(e) => assert!(e.starts_with("正则非法「(unclosed」："), "got {e}"),
        Ok(_) => panic!("bad regex must be refused"),
    }
}

#[test]
fn profile_names() {
    assert_eq!(Profile::Formal.as_str(), "formal");
    assert_eq!(Profile::Casual.as_str(), "casual");
}

#[test]
fn unmarked_defaults_to_formal() {
    let book = ContactBook::default();
    assert_eq!(book.profile_of("完全未标记的人"), "formal");
}

#[test]
fn contact_profiles_from_defs() {
    let book = ContactBook::from_defs(vec![
        contact("文件传输助手", "casual"),
        contact("张总", "formal"),
        contact("项目群", "s1"),
        contact("张总", "casual"),
    ])
    .expect("valid entries");
    assert_eq!(book.profile_of("文件传输助手"), "casual");
    assert_eq!(book.profile_of("张总"), "casual", "a later entry overrides");
    assert_eq!(book.profile_of("项目群"), "s1");
    assert_eq!(book.profile_of("别的谁"), "formal");
}

#[test]
fn contact_blank_fields_refused() {
    match ContactBook::from_defs(vec![contact("x", "gone-scene")]) {
        Ok(b) => assert_eq!(b.profile_of("x"), "gone-scene"),
        Err(e) => panic!("unknown scenario ids are tolerated: {e}"),
    }
    match ContactBook::from_defs(vec![contact("x", "  ")]) {
        Err(e) => assert_eq!(e, "联系人「x」profile 不能为空"),
        Ok(_) => panic!("blank profile must be refused"),
    }
    match ContactBook::from_defs(vec![contact(" ", "casual"), contact("y", "")]) {
        Err(e) => assert_eq!(e, "联系人 name 不能为空"),
        Ok(_) => panic!("blank name must be refused"),
    }
}

#[test]
fn embed_text_contract() {
    assert_eq!(
        draft_embed_text(Some("作业做完了么"), "bro明天去哪玩呢"),
        "之前的对话：作业做完了么\n现在要发送：bro明天去哪玩呢"
    );
    assert_eq!(draft_embed_text(None, "卧槽，什么鬼"), "卧槽，什么鬼");
    assert_eq!(draft_embed_text(Some(""), "卧槽，什么鬼"), "卧槽，什么鬼");
    assert_eq!(
        draft_embed_text(Some("   "), "卧槽，什么鬼"),
        "卧槽，什么鬼"
    );
    assert_eq!(object_embed_text(Some("好兄弟")), "对象：好兄弟");
    assert_eq!(
        object_embed_text(Some("  三年二班家长群  ")),
        "对象：三年二班家长群"
    );
    assert_eq!(object_embed_text(None), "对象：未标记");
    assert_eq!(object_embed_text(Some("  ")), "对象：未标记");
}

#[test]
fn draft_embed_text_trims_context_only() {
    assert_eq!(
        draft_embed_text(Some("  hi \n"), " draft "),
        "之前的对话：hi\n现在要发送： draft "
    );
}

#[test]
fn doc_defaults_are_empty() {
    assert!(RuleDoc::default().rule.is_empty());
    assert!(ContactDoc::default().contact.is_empty());
}

#[test]
fn rule_decision_extreme_thresholds_short_circuit() {
    let rs = rules();
    assert_eq!(
        rule_decision(&rs, "formal", ThresholdClass::Forbidden, "你好"),
        RuleDecision::Block("禁止场景".into())
    );
    assert_eq!(
        rule_decision(&rs, "formal", ThresholdClass::Unlimited, "卧槽"),
        RuleDecision::Safe
    );
}

#[test]
fn rule_decision_rule_hit_blocks_with_reason() {
    let rs = rules();
    assert_eq!(
        rule_decision(&rs, "casual", ThresholdClass::Scored, "  卧槽 "),
        RuleDecision::Block("命中违禁词「卧槽」".into())
    );
    assert_eq!(
        rule_decision(&rs, "formal", ThresholdClass::Scored, "you sb"),
        RuleDecision::Block("命中违禁词「sb」".into())
    );
}

#[test]
fn rule_decision_empty_is_safe_otherwise_scored() {
    let rs = rules();
    assert_eq!(rule_decision(&rs, "formal", ThresholdClass::Scored, "   "), RuleDecision::Safe);
    assert_eq!(
        rule_decision(&rs, "casual", ThresholdClass::Scored, "you sb"),
        RuleDecision::Score
    );
    assert_eq!(
        rule_decision(&rs, "formal", ThresholdClass::Scored, "明天开会"),
        RuleDecision::Score
    );
}

fn ocr(draft: &str, target: Option<&str>) -> OcrResult {
    ocr_with_context(draft, target, None)
}

fn ocr_with_context(draft: &str, target: Option<&str>, context: Option<&str>) -> OcrResult {
    OcrResult {
        chat_target: target.map(str::to_string),
        draft_text: draft.into(),
        blocks: vec![TextBlock {
            text: draft.into(),
            rect: Rect::new(0, 0, 10, 10),
            confidence_bits: 0.9f32.to_bits(),
        }],
        chat_context: context.map(str::to_string),
    }
}

/// The judgement without a model: rules, contacts and scenarios only.
struct L1Stage {
    rules: RuleSet,
    contacts: ContactBook,
    scenarios: ScenarioManager,
}

impl L1Stage {
    fn new(rules: RuleSet, contacts: ContactBook) -> L1Stage {
        L1Stage {
            rules,
            contacts,
            scenarios: ScenarioManager::builtin_only(),
        }
    }

    fn judge(&self, input: &OcrResult) -> Verdict {
        l1_only_verdict(&judge_rules(&self.rules, &self.contacts, &self.scenarios, input))
    }
}

fn book(entries: &[(&str, &str)]) -> ContactBook {
    ContactBook::from_defs(entries.iter().map(|(n, p)| contact(n, p)).collect()).unwrap()
}

fn one_rule(pattern: &str, kind: MatchKind, applies: &[&str]) -> RuleSet {
    RuleSet::from_defs(vec![rule(pattern, kind, applies)]).unwrap()
}

fn stage() -> L1Stage {
    L1Stage::new(
        one_rule("sb", MatchKind::Word, &["formal"]),
        book(&[("文件传输助手", "casual")]),
    )
}

#[test]
fn l1_hit_short_circuits() {
    let s = stage();
    let v = s.judge(&ocr("你是 sb", Some("张总")));
    assert_eq!(v.level, VerdictLevel::Block);
    assert!(v.reasons[0].contains("sb"));
}

#[test]
fn unmarked_target_is_formal() {
    let s = stage();
    assert_eq!(s.judge(&ocr("你是 sb", Some("陌生人"))).level, VerdictLevel::Block);
    assert_eq!(
        s.judge(&ocr("你是 sb", Some("文件传输助手"))).level,
        VerdictLevel::Safe
    );
}

#[test]
fn empty_draft_safe() {
    let s = stage();
    assert_eq!(s.judge(&ocr("", None)).level, VerdictLevel::Safe);
    assert_eq!(s.judge(&ocr("   ", None)).level, VerdictLevel::Safe);
}

#[test]
fn rule_stage_verdict_scores() {
    let s = stage();
    let v = s.judge(&ocr("   ", None));
    assert_eq!(v.level, VerdictLevel::Safe);
    assert_eq!(f32::from_bits(v.score_bits), 0.0);
    let v = s.judge(&ocr("普通工作消息", None));
    assert_eq!(f32::from_bits(v.score_bits), 0.0);
    let v = s.judge(&ocr("你是 sb", Some("张总")));
    assert_eq!(v.level, VerdictLevel::Block);
    assert_eq!(f32::from_bits(v.score_bits), 1.0);
}

#[test]
fn no_embedder_l1_only() {
    let s = stage();
    assert_eq!(s.judge(&ocr("普通工作消息", None)).level, VerdictLevel::Safe);
}

fn level_of(score: f32, threshold: f32) -> VerdictLevel {
    Verdict::from_score(score.to_bits(), threshold.to_bits()).level
}

#[test]
fn from_score_boundaries() {
    assert_eq!(level_of(0.80, 0.55), VerdictLevel::Block);
    assert_eq!(level_of(0.55, 0.55), VerdictLevel::Safe);
    assert_eq!(level_of(0.55 + 1e-3, 0.55), VerdictLevel::Block);
    assert_eq!(level_of(0.549, 0.55), VerdictLevel::Safe);
}

#[test]
fn from_score_only_block_or_safe() {
    assert_eq!(level_of(0.80, 0.55), VerdictLevel::Block);
    assert_eq!(level_of(0.55, 0.55), VerdictLevel::Safe);
    assert_eq!(level_of(0.54, 0.55), VerdictLevel::Safe);
    assert_eq!(level_of(0.01, 0.0), VerdictLevel::Block);
    assert_eq!(level_of(0.0, 0.0), VerdictLevel::Safe);
    assert_eq!(level_of(1.0, 1.0), VerdictLevel::Safe);
}

#[test]
fn marked_profiles() {
    let b = book(&[
        ("文件传输助手", "casual"),
        ("张总", "formal"),
        ("项目群", "s1"),
    ]);
    assert_eq!(b.profile_of("文件传输助手"), "casual");
    assert_eq!(b.profile_of("张总"), "formal");
    assert_eq!(b.profile_of("项目群"), "s1");
    assert_eq!(b.profile_of("别的谁"), "formal");
}

#[test]
fn empty_profile_rejected_but_unknown_id_tolerated() {
    assert!(ContactBook::from_defs(vec![contact("x", "gone-scene")]).is_ok());
    assert!(ContactBook::from_defs(vec![contact("x", "")]).is_err());
}

#[test]
fn ut_sem_01_rule_matrix() {
    let rules = RuleSet::from_defs(vec![
        rule("sb", MatchKind::Word, &["formal"]),
        rule("滚", MatchKind::Word, &["all"]),
        rule("(傻|沙)(比|逼|雕)", MatchKind::Regex, &["formal"]),
        rule("麻了", MatchKind::Substring, &["casual"]),
        rule("weakup", MatchKind::Word, &["all"]),
        rule("kpi", MatchKind::Substring, &["formal"]),
    ])
    .unwrap();
    let stage = L1Stage::new(rules, book(&[("家人", "casual")]));
    let cases: Vec<(&str, &str, VerdictLevel)> = vec![
        ("你是 sb", "领导", VerdictLevel::Block),
        ("absb 嵌入词", "领导", VerdictLevel::Safe),
        ("sb", "家人", VerdictLevel::Safe),
        ("weakup 信号", "家人", VerdictLevel::Block),
        ("wakeup 不同词", "家人", VerdictLevel::Safe),
        ("你给我滚出去", "家人", VerdictLevel::Block),
        ("滚动列表", "领导", VerdictLevel::Block),
        ("干活干到麻了", "家人", VerdictLevel::Block),
        ("干活干到麻了", "领导", VerdictLevel::Safe),
        ("你别傻逼了", "领导", VerdictLevel::Block),
        ("你别傻雕了", "领导", VerdictLevel::Block),
        ("你真傻", "家人", VerdictLevel::Safe),
        ("你别傻逼了", "家人", VerdictLevel::Safe),
        ("sb 你滚", "领导", VerdictLevel::Block),
        ("这个 kpi 很重要", "领导", VerdictLevel::Block),
        ("这个 kpi 很重要", "家人", VerdictLevel::Safe),
        ("你是 sb", "陌生人", VerdictLevel::Block),
        ("正常工作消息", "领导", VerdictLevel::Safe),
    ];
    for (draft, target, want) in cases {
        let v = stage.judge(&ocr(draft, Some(target)));
        assert_eq!(v.level, want, "draft={draft:?} target={target:?}");
    }
}

#[test]
fn ut_sem_07_reasons_text() {
    let stage = L1Stage::new(
        one_rule("sb", MatchKind::Word, &["formal"]),
        ContactBook::default(),
    );
    let v = stage.judge(&ocr("你是 sb", Some("领导")));
    assert!(v.reasons[0].contains("sb"), "{}", v.reasons[0]);

    let threshold = f32::from_bits(THRESHOLD_FORMAL_BITS);
    let mut scored = Verdict::from_score(0.71f32.to_bits(), THRESHOLD_FORMAL_BITS);
    scored.reasons.push(format!(
        "与formal场景语义不匹配，危险分 {:.2} > {threshold:.2}",
        0.71
    ));
    assert!(scored.reasons[0].contains("0.71"), "{}", scored.reasons[0]);
}

#[test]
fn ut_sem_13_threshold_extreme_short_circuit() {
    let scenes = || {
        ScenarioManager::from_scenes(vec![
            SceneDef {
                id: "s1".into(),
                name: "禁止".into(),
                base: Profile::Formal,
                threshold_bits: Some(1.0f32.to_bits()),
            },
            SceneDef {
                id: "s2".into(),
                name: "无限制".into(),
                base: Profile::Formal,
                threshold_bits: Some(0.0f32.to_bits()),
            },
        ])
    };
    let stage = L1Stage {
        rules: one_rule("sb", MatchKind::Word, &["all"]),
        contacts: book(&[("禁聊", "s1")]),
        scenarios: scenes(),
    };
    let v = stage.judge(&ocr("sb 违禁词", Some("禁聊")));
    assert_eq!(v.level, VerdictLevel::Block);
    assert!(v.reasons.iter().any(|r| r.contains("禁止场景")));
    assert_eq!(v.scene_name.as_deref(), Some("禁止"));

    let stage2 = L1Stage {
        rules: one_rule("sb", MatchKind::Word, &["all"]),
        contacts: book(&[("随便聊", "s2")]),
        scenarios: scenes(),
    };
    let v2 = stage2.judge(&ocr("sb 违禁词", Some("随便聊")));
    assert_eq!(v2.level, VerdictLevel::Safe);
}

#[test]
fn ut_sem_10_l1_unaffected_by_context() {
    let stage = L1Stage::new(one_rule("sb", MatchKind::Word, &["all"]), ContactBook::default());
    let input = ocr_with_context("你是 sb", Some("同事"), Some("最近项目进展顺利"));
    let v = stage.judge(&input);
    assert_eq!(v.level, VerdictLevel::Block);
    assert!(v.reasons[0].contains("sb"));
}

#[test]
fn ut_sem_11_context_in_l1_only() {
    let stage = L1Stage::new(RuleSet::from_defs(Vec::new()).unwrap(), ContactBook::default());
    let v = stage.judge(&ocr_with_context("普通消息", None, Some("上下文内容")));
    assert_eq!(v.level, VerdictLevel::Safe);
    assert_eq!(f32::from_bits(v.score_bits), 0.0);
}

#[test]
fn ut_sem_12_context_absent_no_behavior_change() {
    let stage = L1Stage::new(one_rule("sb", MatchKind::Word, &["all"]), ContactBook::default());
    let v1 = stage.judge(&ocr("你是 sb", Some("张总")));
    assert_eq!(v1.level, VerdictLevel::Block);
    let v2 = stage.judge(&ocr_with_context("你是 sb", Some("张总"), Some("")));
    assert_eq!(v2.level, VerdictLevel::Block);
    let v3 = stage.judge(&ocr_with_context("你是 sb", Some("张总"), Some("之前聊天内容")));
    assert_eq!(v3.level, VerdictLevel::Block);
}

#[test]
fn judge_rules_reports_scenario_facts() {
    let rules = one_rule("sb", MatchKind::Word, &["formal"]);
    let contacts = book(&[("家人", "casual"), ("旧群", "s9")]);
    let scenarios = ScenarioManager::builtin_only();
    let j = judge_rules(&rules, &contacts, &scenarios, &ocr("明天开会", Some("家人")));
    assert_eq!(j.scenario_id, "casual");
    assert_eq!(j.scenario_name, "个人");
    assert_eq!(j.base, Profile::Casual);
    assert_eq!(f32::from_bits(j.threshold_bits), 0.45);
    assert_eq!(j.decision, RuleDecision::Score);
    // a removed scenario falls back to the formal defaults
    let j = judge_rules(&rules, &contacts, &scenarios, &ocr("你是 sb", Some("旧群")));
    assert_eq!(j.scenario_id, "s9");
    assert_eq!(j.scenario_name, "s9");
    assert_eq!(j.base, Profile::Formal);
    assert_eq!(j.threshold_bits, THRESHOLD_FORMAL_BITS);
    // rules filter by the scenario id itself: a formal-only rule does not
    // apply to the dangling id
    assert_eq!(j.decision, RuleDecision::Score);
    let v = l1_only_verdict(&j);
    assert_eq!(v.level, VerdictLevel::Safe);
    assert_eq!(v.scene_name.as_deref(), Some("s9"));
    let j = judge_rules(&rules, &contacts, &scenarios, &ocr("你是 sb", Some("张总")));
    assert_eq!(j.decision, RuleDecision::Block("命中违禁词「sb」".into()));
}

fn f32_class(t: f32) -> ThresholdClass {
    if (t - 1.0).abs() < 1e-6 {
        ThresholdClass::Forbidden
    } else if t.abs() < 1e-6 {
        ThresholdClass::Unlimited
    } else {
        ThresholdClass::Scored
    }
}

#[test]
fn threshold_class_matches_the_float_tests() {
    let windows: [(u32, u32); 5] = [
        (0x3F7F_FF00, 0x3F80_0100),
        (0xBF7F_FF00, 0xBF80_0100),
        (0x3586_3700, 0x3586_3800),
        (0xB586_3700, 0xB586_3800),
        (0x0000_0000, 0x0000_1000),
    ];
    for (lo, hi) in windows {
        for b in lo..hi {
            assert_eq!(ThresholdClass::of(b), f32_class(f32::from_bits(b)), "bits {b:#x}");
        }
    }
    let mut b: u32 = 0;
    loop {
        assert_eq!(ThresholdClass::of(b), f32_class(f32::from_bits(b)), "bits {b:#x}");
        match b.checked_add(65_521) {
            Some(n) => b = n,
            None => break,
        }
    }
    assert_eq!(ThresholdClass::of(0.55f32.to_bits()), ThresholdClass::Scored);
    assert_eq!(ThresholdClass::of(f32::NAN.to_bits()), ThresholdClass::Scored);
}

#[test]
fn fast_path_bands() {
    let band = |lo: f32, hi: f32| (lo.to_bits(), hi.to_bits());
    let safe = band(0.0, 0.2);
    let block = band(0.9, 1.0);
    assert_eq!(fast_path_band(0.1f32.to_bits(), safe, block), FastPathBand::Safe);
    assert_eq!(fast_path_band(0.2f32.to_bits(), safe, block), FastPathBand::Safe);
    assert_eq!(fast_path_band(0.95f32.to_bits(), safe, block), FastPathBand::Block);
    assert_eq!(fast_path_band(0.5f32.to_bits(), safe, block), FastPathBand::Neither);
    assert_eq!(fast_path_band(f32::NAN.to_bits(), safe, block), FastPathBand::Neither);
    // overlapping bands: the safe band wins
    assert_eq!(fast_path_band(0.5f32.to_bits(), band(0.4, 0.6), band(0.5, 1.0)), FastPathBand::Safe);
}
