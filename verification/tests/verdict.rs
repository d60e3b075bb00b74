use std::time::Duration;

use dc_pipeline::verdict::{
    fresh_of, stamp_for, stamp_is_fresh, Verdict, VerdictLevel, VerdictSlot, SCORE_HALF_BITS,
    SCORE_ONE_BITS, SCORE_ZERO_BITS,
};

#[test]
fn score_constants_are_the_nominal_values() {
    assert_eq!(f32::from_bits(SCORE_ZERO_BITS), 0.0f32);
    assert_eq!(f32::from_bits(SCORE_HALF_BITS), 0.5f32);
    assert_eq!(f32::from_bits(SCORE_ONE_BITS), 1.0f32);
}

#[test]
fn constructors_set_level_score_and_reason() {
    let v = Verdict::safe();
    assert_eq!(v.level, VerdictLevel::Safe);
    assert!(v.reasons.is_empty());
    let v = Verdict::block("命中");
    assert_eq!(v.level, VerdictLevel::Block);
    assert_eq!(v.score_bits, 1.0f32.to_bits());
    assert_eq!(v.reasons, vec!["命中".to_string()]);
    let v = Verdict::warn("疑似");
    assert_eq!(v.level, VerdictLevel::Warn);
    assert_eq!(v.score_bits, 0.5f32.to_bits());
    let v = Verdict::from_rule("sb");
    assert_eq!(v.reasons, vec!["命中违禁词「sb」".to_string()]);
    assert_eq!(v.draft_epoch, 0);
    assert_eq!(v.draft_fingerprint, 0);
    assert!(v.fresh(Duration::from_secs(60)));
}

#[test]
fn builders_attach_fields() {
    let v = Verdict::warn("测试判定")
        .with_draft("你好世界", 42)
        .with_target("测试对象")
        .with_scene("正式")
        .with_context(Some("上文".into()))
        .with_epoch(7);
    assert_eq!(v.draft_text.as_deref(), Some("你好世界"));
    assert_eq!(v.draft_fingerprint, 42);
    assert_eq!(v.chat_target.as_deref(), Some("测试对象"));
    assert_eq!(v.scene_name.as_deref(), Some("正式"));
    assert_eq!(v.chat_context.as_deref(), Some("上文"));
    assert_eq!(v.draft_epoch, 7);
    assert_eq!(v.level, VerdictLevel::Warn);
}

#[test]
fn stamp_rules() {
    assert_eq!(stamp_for(0), 1);
    assert_eq!(stamp_for(500), 500);
    assert!(!stamp_is_fresh(0, 10, 1000), "an empty slot is never fresh");
    assert!(stamp_is_fresh(100, 1100, 1000), "exactly the TTL old is still fresh");
    assert!(!stamp_is_fresh(100, 1101, 1000));
    assert!(stamp_is_fresh(500, 100, 0), "a stamp from the future has age 0");
}

#[test]
fn slot_store_refresh_clear() {
    let slot = VerdictSlot::new();
    assert!(slot.is_empty());
    assert!(!slot.refresh(10), "nothing to renew in an empty slot");
    assert_eq!(slot.stamp_ms(), 0);
    assert!(slot.load_fresh(Duration::from_millis(100), 0).is_none());

    slot.store(Verdict::block("命中"), 0);
    assert_eq!(slot.stamp_ms(), 1);
    assert!(!slot.is_empty());
    assert!(slot.load_fresh(Duration::from_millis(100), 101).is_some());
    assert!(slot.load_fresh(Duration::from_millis(100), 102).is_none());

    assert!(slot.refresh(1000));
    assert_eq!(slot.stamp_ms(), 1000);
    let v = slot.load_fresh(Duration::from_millis(100), 1050).unwrap();
    assert_eq!(v.level, VerdictLevel::Block);
    assert!(slot.load().is_some());

    slot.clear();
    assert!(slot.is_empty());
    assert_eq!(slot.stamp_ms(), 0);
    assert!(slot.load().is_none());
}

#[test]
fn dangerous_verdict_blocks() {
    let v = dc_pipeline::testing::dangerous_verdict("命中");
    assert!(v.level.is_dangerous());
    assert_eq!(v.level, VerdictLevel::Block);
    assert_eq!(v.reasons, vec!["命中".to_string()]);
}

#[test]
fn fresh_of_hands_out_only_fresh_verdicts() {
    assert_eq!(fresh_of(Some(3u8), 100, 150, 50), Some(3));
    assert_eq!(fresh_of(Some(3u8), 100, 151, 50), None);
    assert_eq!(fresh_of(Some(3u8), 0, 0, 50), None, "stamp 0 marks an empty slot");
    assert_eq!(fresh_of::<u8>(None, 100, 100, 50), None);
}
