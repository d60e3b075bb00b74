use dc_pipeline::contract::{LoopKind, OcrResult, TextBlock};
use dc_pipeline::ieee::{ge, gt};
use dc_pipeline::ocr::assemble::{
    assemble, extract_chat_context, filter_lines, join_draft, pick_chat_target, RawLine,
};
use dc_pipeline::ocr::{crop_box, ocr_tags, recognition_size};
use dc_pipeline::sys_api::Rect;

fn line(text: &str, score: f32, x: i32, y: i32) -> RawLine {
    RawLine {
        text: text.into(),
        score_bits: score.to_bits(),
        rect: Rect::new(x, y, 50, 20),
    }
}

fn b(v: f32) -> u32 {
    v.to_bits()
}

#[test]
fn ut_ocr_02_empty_input() {
    let r = assemble(vec![], &[], b(0.5));
    assert_eq!(r.draft_text, "");
    assert!(r.blocks.is_empty());

    // only noise or low-confidence lines also count as empty
    let r = assemble(
        vec![line("发送", 0.9, 0, 0), line("x", 0.1, 0, 30)],
        &["发送".to_string()],
        b(0.5),
    );
    assert_eq!(r.draft_text, "");
}

#[test]
fn ut_ocr_03_multiline_order() {
    let lines = vec![
        line("第二行", 0.9, 10, 50),
        line("第一行", 0.9, 10, 10),
        line("第三行", 0.9, 10, 90),
    ];
    let r = assemble(lines, &[], b(0.5));
    assert_eq!(r.draft_text, "第一行\n第二行\n第三行");
}

#[test]
fn ut_ocr_04_noise_filter() {
    let noise = vec!["发送".to_string(), "按住鼠标 语音输入文字".to_string()];
    let lines = vec![
        line("你好世界", 0.9, 10, 10),
        line("发送", 0.99, 500, 600),
        line("按住鼠标 语音输入文字", 0.99, 500, 630),
        line("sb", 0.9, 10, 40),
        line("三个字", 0.9, 10, 70),
    ];
    let r = assemble(lines, &noise, b(0.5));
    assert_eq!(r.draft_text, "你好世界\nsb\n三个字");
    assert_eq!(r.blocks.len(), 3);
}

#[test]
fn min_conf_boundary() {
    let lines = vec![line("上边界", 0.5, 0, 0), line("下边界", 0.4999, 0, 30)];
    let r = assemble(lines, &[], b(0.5));
    assert_eq!(r.draft_text, "上边界");
}

#[test]
fn chat_target_picks_best_confidence() {
    let lines = vec![
        line("文件传输助手", 0.82, 0, 0),
        line("张总", 0.95, 0, 30),
        line("低分", 0.3, 0, 60),
    ];
    assert_eq!(pick_chat_target(&lines, b(0.5)), Some("张总".to_string()));
    assert_eq!(pick_chat_target(&[], b(0.5)), None);
}

#[test]
fn chat_target_last_of_equals_and_trimmed() {
    let lines = vec![
        line(" 甲 ", 0.9, 0, 0),
        line("乙", 0.9, 0, 30),
        line("   ", 0.99, 0, 60),
    ];
    assert_eq!(pick_chat_target(&lines, b(0.5)), Some("乙".to_string()));
    let lines = vec![line(" 甲 ", 0.9, 0, 0), line("乙", 0.4, 0, 30)];
    assert_eq!(pick_chat_target(&lines, b(0.5)), Some("甲".to_string()));
}

#[test]
fn ut_ocr_05_short_sensitive_word_preserved() {
    let lines = vec![line("sb", 0.9, 10, 10), line("傻逼", 0.85, 10, 30)];
    let r = assemble(lines, &[], b(0.5));
    assert_eq!(r.draft_text, "sb\n傻逼");
    assert_eq!(r.blocks.len(), 2);
}

#[test]
fn ut_ocr_06_context_extraction() {
    let lines = vec![
        line("早上好", 0.9, 10, 10),
        line("昨天的报告怎么样", 0.88, 10, 50),
        line("已经完成了", 0.92, 10, 90),
        line("不错", 0.85, 10, 130),
        line("今天开会讨论吧", 0.91, 10, 170),
        line("低分行", 0.3, 10, 210),
    ];
    let ctx = extract_chat_context(&lines, b(0.5), 3);
    assert_eq!(ctx, Some("已经完成了\n不错\n今天开会讨论吧".to_string()));
}

#[test]
fn ut_ocr_07_context_empty() {
    assert_eq!(extract_chat_context(&[], b(0.5), 5), None);
    let lines = vec![line("低分", 0.2, 0, 0), line("噪声", 0.1, 0, 30)];
    assert_eq!(extract_chat_context(&lines, b(0.5), 5), None);
}

#[test]
fn ut_ocr_08_context_max_lines() {
    let lines: Vec<_> = (0..10)
        .map(|i| line(&format!("消息{i}"), 0.9, 0, i * 20))
        .collect();
    let ctx = extract_chat_context(&lines, b(0.5), 3);
    assert_eq!(ctx, Some("消息7\n消息8\n消息9".to_string()));
}

#[test]
fn ut_ocr_09_context_with_noise_filter() {
    let noise = vec!["发送".to_string()];
    let lines = vec![
        line("你好", 0.9, 10, 10),
        line("发送", 0.9, 10, 50),
        line("收到了", 0.88, 10, 90),
        line("不错", 0.91, 10, 130),
    ];
    let filtered = filter_lines(lines, &noise, b(0.5));
    let ctx = extract_chat_context(&filtered, b(0.5), 3);
    assert_eq!(ctx, Some("你好\n收到了\n不错".to_string()));
}

#[test]
fn context_zero_max_lines_is_none() {
    let lines = vec![line("你好", 0.9, 10, 10)];
    assert_eq!(extract_chat_context(&lines, b(0.5), 0), None);
}

#[test]
fn join_draft_orders_by_centre_then_left_edge_stably() {
    let lines = vec![
        line("右", 0.9, 100, 10),
        line("左", 0.9, 0, 10),
        line("同位一", 0.9, 50, 40),
        line("同位二", 0.9, 50, 40),
        line("  ", 0.9, 0, 0),
        // a taller box whose centre line lies above the first row
        RawLine {
            text: "高".into(),
            score_bits: b(0.9),
            rect: Rect::new(0, 0, 10, 10),
        },
    ];
    assert_eq!(join_draft(&lines), "高\n左\n右\n同位一\n同位二");
}

#[test]
fn assemble_keeps_blocks_in_input_order() {
    let lines = vec![line("二", 0.9, 0, 50), line("一", 0.8, 0, 10)];
    let r = assemble(lines, &[], b(0.5));
    assert_eq!(r.draft_text, "一\n二");
    assert_eq!(
        r.blocks,
        vec![
            TextBlock {
                text: "二".into(),
                rect: Rect::new(0, 50, 50, 20),
                confidence_bits: b(0.9)
            },
            TextBlock {
                text: "一".into(),
                rect: Rect::new(0, 10, 50, 20),
                confidence_bits: b(0.8)
            },
        ]
    );
    assert_eq!(r.chat_target, None);
    assert_eq!(r.chat_context, None);
}

#[test]
fn cached_target_and_context_fill_only_gaps() {
    let r = OcrResult::default().with_cached_target(Some("张总"));
    assert_eq!(r.chat_target.as_deref(), Some("张总"));
    let r = r.with_cached_target(Some("别人"));
    assert_eq!(r.chat_target.as_deref(), Some("张总"));
    let r = r.with_cached_context(None);
    assert_eq!(r.chat_context, None);
    let r = r.with_cached_context(Some("上文"));
    assert_eq!(r.chat_context.as_deref(), Some("上文"));
}

#[test]
fn bit_pattern_order_matches_float_order() {
    let values = [
        f32::NEG_INFINITY,
        -1.5,
        -0.0,
        0.0,
        1e-40,
        0.4999,
        0.5,
        0.95,
        1.0,
        f32::INFINITY,
        f32::NAN,
        -f32::NAN,
    ];
    for &x in &values {
        for &y in &values {
            assert_eq!(ge(x.to_bits(), y.to_bits()), x >= y, "{x} >= {y}");
            assert_eq!(gt(x.to_bits(), y.to_bits()), x > y, "{x} > {y}");
        }
    }
}

#[test]
fn crop_box_clamps_into_the_image() {
    assert_eq!(crop_box(800, 600, Rect::new(10, 20, 100, 50)), Some((10, 20, 100, 50)));
    assert_eq!(crop_box(800, 600, Rect::new(-10, -5, 100, 50)), Some((0, 0, 100, 50)));
    assert_eq!(crop_box(800, 600, Rect::new(750, 580, 100, 50)), Some((750, 580, 50, 20)));
    assert_eq!(crop_box(800, 600, Rect::new(900, 0, 100, 50)), None);
    assert_eq!(crop_box(800, 600, Rect::new(797, 0, 100, 50)), None, "3 px wide");
    assert_eq!(crop_box(800, 600, Rect::new(796, 596, 100, 50)), Some((796, 596, 4, 4)));
    assert_eq!(crop_box(0, 0, Rect::new(0, 0, 10, 10)), None);
}

#[test]
fn small_regions_are_upscaled() {
    assert_eq!(recognition_size(true, 100, 20), (200, 40));
    assert_eq!(recognition_size(true, 100, 32), (100, 32));
    assert_eq!(recognition_size(false, 100, 20), (100, 20));
}

#[test]
fn regions_read_per_loop() {
    assert_eq!(ocr_tags(LoopKind::Fast), vec!["msg_input"]);
    assert_eq!(ocr_tags(LoopKind::Slow), vec!["chat_target", "msg_input"]);
    assert_eq!(ocr_tags(LoopKind::Heartbeat), vec!["chat_target", "msg_input"]);
}
