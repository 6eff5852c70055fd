use trpg_json_core::format::{format_monster_filter_conditions, format_spell_filter_conditions};

#[test]
fn test_monster_filter_conditions_empty() {
    assert_eq!(format_monster_filter_conditions(None, None, None), "");
}

#[test]
fn test_monster_filter_conditions_all() {
    let text = format_monster_filter_conditions(Some("ゴブリン"), Some(6), Some("蛮族"));
    assert_eq!(
        text,
        "以下の条件でマッチするモンスターが見つかりません\n  - name: \"ゴブリン\"\n  - level: 6\n  - category: \"蛮族\""
    );
}

#[test]
fn test_monster_filter_conditions_single() {
    let text = format_monster_filter_conditions(None, Some(12), None);
    assert_eq!(
        text,
        "以下の条件でマッチするモンスターが見つかりません\n  - level: 12"
    );
}

#[test]
fn test_spell_filter_conditions_empty() {
    assert_eq!(
        format_spell_filter_conditions(None, None, None, None, None, None),
        ""
    );
}

#[test]
fn test_spell_filter_conditions_some() {
    let text =
        format_spell_filter_conditions(Some("ライト"), Some("神聖"), Some(1), None, None, None);
    assert_eq!(
        text,
        "以下の条件でマッチするスペルが見つかりません\n  - name: \"ライト\"\n  - school: \"神聖\"\n  - level: 1"
    );
}

#[test]
fn test_spell_filter_conditions_rank_and_god() {
    let text = format_spell_filter_conditions(None, None, None, Some(3), None, Some("ティダン"));
    assert_eq!(
        text,
        "以下の条件でマッチするスペルが見つかりません\n  - rank: 3\n  - god: \"ティダン\""
    );
}

#[test]
fn test_negative_and_extreme_numbers_render() {
    let text = format_monster_filter_conditions(None, Some(-12), None);
    assert_eq!(
        text,
        "以下の条件でマッチするモンスターが見つかりません\n  - level: -12"
    );
    let text = format_monster_filter_conditions(None, Some(i32::MIN), None);
    assert!(text.ends_with("  - level: -2147483648"));
}
