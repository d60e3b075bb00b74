use dc_pipeline::sem::rules::Profile;
use dc_pipeline::sem::scenarios::{
    SceneDef, Scenario, ScenarioManager, THRESHOLD_CASUAL_BITS, THRESHOLD_FORMAL_BITS,
};

fn scene(id: &str, name: &str, base: Profile, threshold_bits: Option<u32>) -> SceneDef {
    SceneDef {
        id: id.into(),
        name: name.into(),
        base,
        threshold_bits,
    }
}

#[test]
fn builtin_scenarios_present() {
    let m = ScenarioManager::builtin_only();
    let all = m.all();
    assert_eq!(all.len(), 2);
    assert_eq!(
        all[0],
        Scenario {
            id: "formal".into(),
            name: "正式".into(),
            base: Profile::Formal,
            threshold_bits: THRESHOLD_FORMAL_BITS,
            fixed: true
        }
    );
    assert_eq!(
        all[1],
        Scenario {
            id: "casual".into(),
            name: "个人".into(),
            base: Profile::Casual,
            threshold_bits: THRESHOLD_CASUAL_BITS,
            fixed: true
        }
    );
    assert!(m.is_known("formal") && m.is_known("casual"));
}

#[test]
fn default_thresholds_are_the_documented_values() {
    assert_eq!(f32::from_bits(THRESHOLD_FORMAL_BITS), 0.55f32);
    assert_eq!(f32::from_bits(THRESHOLD_CASUAL_BITS), 0.45f32);
}

#[test]
fn add_update_remove_roundtrip() {
    let mut m = ScenarioManager::builtin_only();
    let s = m.add("工作群", THRESHOLD_FORMAL_BITS).unwrap();
    assert_eq!(s.id, "s1");
    assert_eq!(m.base_of("s1"), Profile::Formal);
    assert_eq!(m.threshold_bits_of("s1"), THRESHOLD_FORMAL_BITS);
    assert_eq!(m.get("s1").unwrap().name, "工作群");

    // renaming keeps the id
    let s = m.update("s1", "工作", THRESHOLD_CASUAL_BITS).unwrap();
    assert_eq!(s.id, "s1");
    assert_eq!(m.name_of("s1"), "工作");
    assert_eq!(m.base_of("s1"), Profile::Formal);
    assert_eq!(m.threshold_bits_of("s1"), THRESHOLD_CASUAL_BITS);

    // a dangling reference falls back to the formal defaults
    m.remove("s1").unwrap();
    assert!(!m.is_known("s1"));
    assert_eq!(m.base_of("s1"), Profile::Formal);
    assert_eq!(m.threshold_bits_of("s1"), THRESHOLD_FORMAL_BITS);
    assert_eq!(m.name_of("s1"), "s1");
}

#[test]
fn scene_defs_survive_a_reload() {
    let mut m = ScenarioManager::builtin_only();
    m.add("工作群", THRESHOLD_CASUAL_BITS).unwrap();
    m.add("家人", THRESHOLD_FORMAL_BITS).unwrap();
    let defs = m.scene_defs();
    assert_eq!(defs.len(), 2);
    assert_eq!(defs[0].threshold_bits, Some(THRESHOLD_CASUAL_BITS));
    let m2 = ScenarioManager::from_scenes(defs);
    assert_eq!(m2.all(), m.all());
}

#[test]
fn fixed_scenarios_protected() {
    let mut m = ScenarioManager::builtin_only();
    assert!(m.update("formal", "正式2", THRESHOLD_CASUAL_BITS).is_err());
    assert!(m.update("casual", "个人2", THRESHOLD_FORMAL_BITS).is_err());
    assert!(m.remove("formal").is_err());
    assert!(m.remove("casual").is_err());
}

#[test]
fn error_messages() {
    let mut m = ScenarioManager::builtin_only();
    assert_eq!(m.add("  ", THRESHOLD_FORMAL_BITS).unwrap_err(), "场景名不能为空");
    assert_eq!(
        m.add(" 正式 ", THRESHOLD_FORMAL_BITS).unwrap_err(),
        "场景名「正式」已存在"
    );
    assert_eq!(
        m.update("formal", "x", THRESHOLD_FORMAL_BITS).unwrap_err(),
        "场景不存在或为内置场景：formal"
    );
    assert_eq!(m.remove("casual").unwrap_err(), "内置场景不可删除");
    assert_eq!(m.remove("s9").unwrap_err(), "场景不存在：s9");
    m.add("甲", THRESHOLD_FORMAL_BITS).unwrap();
    m.add("乙", THRESHOLD_FORMAL_BITS).unwrap();
    assert_eq!(m.update("s1", "\t", THRESHOLD_FORMAL_BITS).unwrap_err(), "场景名不能为空");
    assert_eq!(
        m.update("s1", "乙", THRESHOLD_FORMAL_BITS).unwrap_err(),
        "场景名「乙」已存在"
    );
    // keeping one's own name is no clash
    assert_eq!(m.update("s1", " 甲 ", THRESHOLD_CASUAL_BITS).unwrap().name, "甲");
    assert_eq!(m.all().len(), 4);
}

#[test]
fn add_validates_name_and_id_reuse() {
    let mut m = ScenarioManager::builtin_only();
    assert!(m.add("  ", THRESHOLD_FORMAL_BITS).is_err());
    assert!(m.add("正式", THRESHOLD_FORMAL_BITS).is_err(), "clashes with a built-in name");
    for i in 0..12 {
        m.add(&format!("场景{i}"), THRESHOLD_CASUAL_BITS).unwrap();
    }
    assert_eq!(m.all().len(), 14, "custom scenarios are unlimited");
    assert_eq!(m.get("s12").unwrap().name, "场景11");
    m.remove("s3").unwrap();
    let s = m.add("补位", THRESHOLD_FORMAL_BITS).unwrap();
    assert_eq!(s.id, "s3");
    let s = m.add("新增", THRESHOLD_FORMAL_BITS).unwrap();
    assert_eq!(s.id, "s13");
}

#[test]
fn sanitize_drops_invalid_entries() {
    let m = ScenarioManager::from_scenes(vec![
        scene("formal", "冒充内置", Profile::Casual, None),
        scene("s1", "正常", Profile::Formal, None),
        scene("s1", "重复id", Profile::Formal, None),
        scene(" ", "空id", Profile::Formal, None),
        scene("s2", "  ", Profile::Formal, None),
        scene("s4", " 闲聊 ", Profile::Casual, None),
    ]);
    let all = m.all();
    assert_eq!(all.len(), 4, "two built-ins and two valid custom entries");
    assert_eq!(all[2].name, "正常");
    // a missing threshold is taken from the base
    assert_eq!(all[2].base, Profile::Formal);
    assert_eq!(all[2].threshold_bits, THRESHOLD_FORMAL_BITS);
    assert_eq!(all[3].name, "闲聊");
    assert_eq!(all[3].threshold_bits, THRESHOLD_CASUAL_BITS);
    assert!(!all[3].fixed);
}

#[test]
fn sanitize_keeps_given_threshold() {
    let m = ScenarioManager::from_scenes(vec![scene("s7", "x", Profile::Casual, Some(7))]);
    assert_eq!(m.threshold_bits_of("s7"), 7);
    assert_eq!(m.base_of("s7"), Profile::Casual);
    assert_eq!(m.base_of("nope"), Profile::Formal);
    assert_eq!(m.threshold_bits_of("casual"), THRESHOLD_CASUAL_BITS);
}
