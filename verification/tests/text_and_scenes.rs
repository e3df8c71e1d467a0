use aurex::scenes::{runtime_scene_choice, DemoScene};
use aurex::text::{append_decimal, is_whitespace, parse_usize, str_eq, to_ascii_lower, trim_str};

#[test]
fn trimming_removes_unicode_whitespace_at_both_ends() {
    assert_eq!(trim_str("  hello world \t\n"), "hello world");
    assert_eq!(trim_str("\u{A0}x\u{85}"), "x");
    assert_eq!(trim_str("   "), "");
    assert_eq!(trim_str(""), "");
    assert!(is_whitespace('\u{3000}'));
    assert!(!is_whitespace('a'));
}

#[test]
fn ascii_lowering_leaves_other_characters() {
    assert_eq!(to_ascii_lower('Q'), 'q');
    assert_eq!(to_ascii_lower('q'), 'q');
    assert_eq!(to_ascii_lower('É'), 'É');
    assert_eq!(to_ascii_lower('3'), '3');
}

#[test]
fn decimal_parsing_accepts_plain_digits_only() {
    assert_eq!(parse_usize("120"), Some(120));
    assert_eq!(parse_usize("0"), Some(0));
    assert_eq!(parse_usize("+5"), Some(5));
    assert_eq!(parse_usize(""), None);
    assert_eq!(parse_usize("12a"), None);
    assert_eq!(parse_usize("-3"), None);
    assert_eq!(parse_usize(" 7"), None);
    assert_eq!(parse_usize("99999999999999999999999999"), None);
}

#[test]
fn decimals_are_appended_without_padding() {
    let mut s = String::from("frame=");
    append_decimal(&mut s, 0);
    s.push(',');
    append_decimal(&mut s, 1234567890);
    assert_eq!(s, "frame=0,1234567890");
}

#[test]
fn string_equality_is_exact() {
    assert!(str_eq("rings", "rings"));
    assert!(!str_eq("rings", "Rings"));
    assert!(!str_eq("ring", "rings"));
}

#[test]
fn scene_names_pick_demo_scenes() {
    assert_eq!(runtime_scene_choice("boot_pulse", ""), Some(DemoScene::Visualizer));
    assert_eq!(runtime_scene_choice("rings", "jazz"), Some(DemoScene::PulseReactorChamber));
    assert_eq!(runtime_scene_choice("aurielle_reveal_scene", ""), Some(DemoScene::PulseReactorChamber));
    assert_eq!(runtime_scene_choice("unknown", "jazz"), Some(DemoScene::ReturnToTitle));
    assert_eq!(runtime_scene_choice("unknown", "aurielle_intro"), Some(DemoScene::ParticleStorm));
    assert_eq!(runtime_scene_choice("unknown", "unknown"), None);
}
