use trpg_json_core::export::palette::{
    format_duration, format_magic_category, format_mp, format_range, format_target,
    generate_spell_palette,
};
use trpg_json_core::jsonval::JsonValue;
use trpg_json_core::Spell;

fn s(v: &str) -> JsonValue {
    JsonValue::Str(v.to_string())
}

fn n(v: i64) -> JsonValue {
    JsonValue::Int(v)
}

fn obj(pairs: Vec<(&str, JsonValue)>) -> JsonValue {
    JsonValue::Obj(pairs.into_iter().map(|(k, v)| (k.to_string(), v)).collect())
}

fn spell(name: &str, school: &str, extra: Vec<(&str, JsonValue)>) -> Spell {
    Spell {
        name: name.to_string(),
        school: school.to_string(),
        extra: extra.into_iter().map(|(k, v)| (k.to_string(), v)).collect(),
    }
}

// ---- magic category ----

#[test]
fn test_magic_category_2char() {
    let school = "神聖";
    assert_eq!(format_magic_category(school), "神聖魔法");
}

#[test]
fn test_magic_category_2char_fairy() {
    let school = "妖精";
    assert_eq!(format_magic_category(school), "妖精魔法");
}

#[test]
fn test_magic_category_long() {
    let school = "ハイテクノロジー";
    assert_eq!(format_magic_category(school), "ハイテクノロジー");
}

#[test]
fn test_magic_category_1char() {
    let school = "禅";
    assert_eq!(format_magic_category(school), "禅");
}

// ---- MP ----

#[test]
fn test_mp_format_value() {
    let sp = spell("テスト", "魔法", vec![("MP", obj(vec![("value", n(5))]))]);
    assert_eq!(format_mp(&sp), Ok("5".to_string()));
}

#[test]
fn test_mp_format_value_plus() {
    let sp = spell("テスト", "魔法", vec![("MP", obj(vec![("value+", n(3))]))]);
    assert_eq!(format_mp(&sp), Ok("3～".to_string()));
}

#[test]
fn test_mp_format_special() {
    let sp = spell(
        "テスト",
        "魔法",
        vec![("MP", obj(vec![("special", s("複雑な計算式"))]))],
    );
    assert_eq!(format_mp(&sp), Ok("複雑な計算式".to_string()));
}

#[test]
fn test_mp_format_error_missing_all() {
    let sp = spell("テスト", "魔法", vec![]);
    assert!(format_mp(&sp).is_err());
}

// ---- target ----

#[test]
fn test_target_format_individual_simple() {
    let sp = spell(
        "テスト",
        "魔法",
        vec![("対象", obj(vec![("kind", s("個別")), ("個別", s("1体"))]))],
    );
    assert_eq!(format_target(&sp), Ok("1体".to_string()));
}

#[test]
fn test_target_format_individual_complex() {
    let sp = spell(
        "テスト",
        "魔法",
        vec![("対象", obj(vec![("kind", s("個別")), ("個別", s("1体全"))]))],
    );
    assert_eq!(format_target(&sp), Ok("1体全".to_string()));
}

#[test]
fn test_target_format_area_simple() {
    let sp = spell(
        "テスト",
        "魔法",
        vec![(
            "対象",
            obj(vec![
                ("kind", s("エリア")),
                (
                    "エリア",
                    obj(vec![("value", s("1エリア")), ("半径(m)", n(5)), ("末尾", s("すべて"))]),
                ),
            ]),
        )],
    );
    assert_eq!(format_target(&sp), Ok("1エリア(半径5mすべて)".to_string()));
}

#[test]
fn test_target_format_area_complex() {
    let sp = spell(
        "テスト",
        "魔法",
        vec![(
            "対象",
            obj(vec![
                ("kind", s("エリア")),
                (
                    "エリア",
                    obj(vec![("value", s("2エリア")), ("半径(m)", n(10)), ("末尾", s("空間"))]),
                ),
            ]),
        )],
    );
    assert_eq!(format_target(&sp), Ok("2エリア(半径10m空間)".to_string()));
}

#[test]
fn test_target_format_error_invalid_kind() {
    let sp = spell("テスト", "魔法", vec![("対象", obj(vec![("kind", s("不正"))]))]);
    assert!(format_target(&sp).is_err());
}

// ---- duration ----

#[test]
fn test_duration_format_string() {
    let sp = spell("テスト", "魔法", vec![("時間", obj(vec![("value", s("一瞬"))]))]);
    assert_eq!(format_duration(&sp), Ok("一瞬".to_string()));
}

#[test]
fn test_duration_format_integer() {
    let sp = spell(
        "テスト",
        "魔法",
        vec![("時間", obj(vec![("value", n(3)), ("unit", s("年"))]))],
    );
    assert_eq!(format_duration(&sp), Ok("3年".to_string()));
}

#[test]
fn test_duration_format_integer_round() {
    let sp = spell(
        "テスト",
        "魔法",
        vec![("時間", obj(vec![("value", n(10)), ("unit", s("ラウンド"))]))],
    );
    assert_eq!(format_duration(&sp), Ok("10ラウンド".to_string()));
}

// ---- range ----

#[test]
fn test_range_format_with_range_field() {
    let sp = spell("テスト", "魔法", vec![("射程", s("接触"))]);
    assert_eq!(format_range(&sp), Ok("接触".to_string()));
}

#[test]
fn test_range_format_with_range_field_complex() {
    let sp = spell("テスト", "魔法", vec![("射程", s("10m(起点指定)"))]);
    assert_eq!(format_range(&sp), Ok("10m(起点指定)".to_string()));
}

#[test]
fn test_range_format_with_meters_field() {
    let sp = spell("テスト", "魔法", vec![("射程(m)", s("20"))]);
    assert_eq!(format_range(&sp), Ok("20".to_string()));
}

#[test]
fn test_range_format_prefers_range_field() {
    let sp = spell(
        "テスト",
        "魔法",
        vec![("射程", s("接触")), ("射程(m)", s("20"))],
    );
    assert_eq!(format_range(&sp), Ok("接触".to_string()));
}

#[test]
fn test_range_format_error_missing_both() {
    let sp = spell("テスト", "魔法", vec![]);
    assert!(format_range(&sp).is_err());
}

#[test]
fn test_range_format_with_meters_integer() {
    let sp = spell("テスト", "魔法", vec![("射程(m)", n(30))]);
    assert_eq!(format_range(&sp), Ok("30".to_string()));
}

#[test]
fn test_range_format_with_range_integer() {
    let sp = spell("テスト", "魔法", vec![("射程", n(50))]);
    assert_eq!(format_range(&sp), Ok("50".to_string()));
}

// ---- support palette ----

fn support_extra() -> Vec<(&'static str, JsonValue)> {
    vec![
        ("補助", JsonValue::Bool(true)),
        ("MP", obj(vec![("value", n(3))])),
        ("対象", obj(vec![("kind", s("個別")), ("個別", s("任意の地点"))])),
        ("射程", s("術者")),
        ("時間", obj(vec![("value", s("一瞬"))])),
        ("効果", s("光源を生成する。")),
    ]
}

#[test]
fn test_support_palette_basic() {
    let sp = spell("ライト", "", support_extra());
    let result = generate_spell_palette(&sp).unwrap();
    assert!(result.contains("ライト"));
    assert!(result.contains("MP:3"));
    assert!(result.contains("対象:任意の地点"));
    assert!(!result.contains("2d+"));
}

#[test]
fn test_support_palette_with_value_plus_mp() {
    let sp = spell(
        "魔法解除",
        "",
        vec![
            ("補助", JsonValue::Bool(true)),
            ("MP", obj(vec![("value+", n(8))])),
            ("対象", obj(vec![("kind", s("個別")), ("個別", s("魔法1つ"))])),
            ("射程", s("接触")),
            ("時間", obj(vec![("value", s("一瞬"))])),
            ("効果", s("魔法を打ち消す。")),
        ],
    );
    let result = generate_spell_palette(&sp).unwrap();
    assert!(result.contains("MP:8～"));
}

#[test]
fn test_support_palette_error_missing_effect() {
    let mut extra = support_extra();
    extra.retain(|(k, _)| *k != "効果");
    let sp = spell("テスト", "", extra);
    assert!(generate_spell_palette(&sp).is_err());
}

// ---- regular palette ----

fn regular_extra() -> Vec<(&'static str, JsonValue)> {
    vec![
        ("補助", JsonValue::Bool(false)),
        ("MP", obj(vec![("value", n(15))])),
        (
            "対象",
            obj(vec![
                ("kind", s("エリア")),
                (
                    "エリア",
                    obj(vec![("value", s("1エリア")), ("半径(m)", n(4)), ("末尾", s("すべて"))]),
                ),
            ]),
        ),
        ("射程", s("術者")),
        ("時間", obj(vec![("value", s("一瞬"))])),
        ("効果", s("物理的に神の捌きを下す。")),
    ]
}

#[test]
fn test_regular_palette_basic() {
    let sp = spell("ゴッド・ジャッジメント", "神聖", regular_extra());
    let result = generate_spell_palette(&sp).unwrap();
    assert!(result.starts_with("2d+"));
    assert!(result.contains("神聖魔法"));
    assert!(result.contains("{行使修正}"));
    assert!(result.contains("MP:15"));
}

#[test]
fn test_regular_palette_execution_bonus_preserved() {
    let sp = spell(
        "テスト",
        "プリエスト",
        vec![
            ("補助", JsonValue::Bool(false)),
            ("MP", obj(vec![("value", n(10))])),
            ("対象", obj(vec![("kind", s("個別")), ("個別", s("1体"))])),
            ("射程", s("接触")),
            ("時間", obj(vec![("value", s("一瞬"))])),
            ("効果", s("テスト効果")),
        ],
    );
    let result = generate_spell_palette(&sp).unwrap();
    assert!(result.contains("{行使修正}"));
}

#[test]
fn test_regular_palette_error_missing_school() {
    let sp = spell(
        "テスト",
        "",
        vec![
            ("補助", JsonValue::Bool(false)),
            ("MP", obj(vec![("value", n(5))])),
            ("対象", obj(vec![("kind", s("個別")), ("個別", s("1体"))])),
            ("射程", s("接触")),
            ("時間", obj(vec![("value", s("一瞬"))])),
            ("効果", s("テスト")),
        ],
    );
    assert!(generate_spell_palette(&sp).is_err());
}

// ---- entry point ----

#[test]
fn test_generate_palette_missing_name() {
    let sp = spell("", "神聖", regular_extra());
    assert!(generate_spell_palette(&sp).is_err());
}

#[test]
fn test_generate_palette_delegates_to_support() {
    let sp = spell("テスト", "", support_extra());
    let result = generate_spell_palette(&sp).unwrap();
    assert!(!result.contains("2d+"));
}

#[test]
fn test_generate_palette_delegates_to_regular() {
    let sp = spell("テスト", "神聖", regular_extra());
    let result = generate_spell_palette(&sp).unwrap();
    assert!(result.starts_with("2d+"));
}

#[test]
fn test_generate_palette_error_propagation() {
    let mut extra = support_extra();
    extra.retain(|(k, _)| *k != "効果");
    let sp = spell("テスト", "", extra);
    assert!(generate_spell_palette(&sp).is_err());
}

// ---- integration ----

#[test]
fn test_palette_with_real_sample_spell_1() {
    let sp = spell(
        "フェアリーズブレッシング",
        "妖精",
        vec![
            ("補助", JsonValue::Bool(false)),
            ("MP", obj(vec![("value", n(8))])),
            (
                "対象",
                obj(vec![
                    ("kind", s("エリア")),
                    (
                        "エリア",
                        obj(vec![("value", s("3エリア")), ("半径(m)", n(6)), ("末尾", s("空間"))]),
                    ),
                ]),
            ),
            ("射程", s("術者")),
            ("時間", obj(vec![("value", s("一瞬"))])),
            ("効果", s("妖精の祝福を与える。")),
        ],
    );
    let result = generate_spell_palette(&sp).unwrap();
    assert!(result.contains("妖精魔法"));
    assert!(result.contains("フェアリーズブレッシング"));
    assert!(result.contains("3エリア(半径6m空間)"));
}

#[test]
fn test_palette_with_real_sample_spell_2() {
    let sp = spell(
        "ホーリーシールド",
        "神聖",
        vec![
            ("補助", JsonValue::Bool(false)),
            ("MP", obj(vec![("value", n(20))])),
            ("対象", obj(vec![("kind", s("個別")), ("個別", s("1体"))])),
            ("射程", s("術者")),
            ("時間", obj(vec![("value", n(5)), ("unit", s("ラウンド"))])),
            ("効果", s("神聖な力で対象を強化する。")),
        ],
    );
    let result = generate_spell_palette(&sp).unwrap();
    assert!(result.contains("神聖魔法"));
    assert!(result.contains("ホーリーシールド"));
    assert!(result.contains("5ラウンド"));
}

#[test]
fn test_palette_japanese_character_preservation() {
    let sp = spell(
        "日本語呪い",
        "",
        vec![
            ("補助", JsonValue::Bool(true)),
            ("MP", obj(vec![("value", n(5))])),
            ("対象", obj(vec![("kind", s("個別")), ("個別", s("任意の標的"))])),
            ("射程", s("接触")),
            ("時間", obj(vec![("value", s("永続"))])),
            ("効果", s("対象に日本語の呪いを与える。特に危険な技能。")),
        ],
    );
    let result = generate_spell_palette(&sp).unwrap();
    assert!(result.contains("日本語呪い"));
    assert!(result.contains("任意の標的"));
    assert!(result.contains("対象に日本語の呪いを与える。特に危険な技能。"));
}

#[test]
fn test_palette_with_meters_field_support() {
    let sp = spell(
        "ライト",
        "",
        vec![
            ("補助", JsonValue::Bool(true)),
            ("MP", obj(vec![("value", n(3))])),
            ("対象", obj(vec![("kind", s("個別")), ("個別", s("任意の地点"))])),
            ("射程(m)", s("30")),
            ("時間", obj(vec![("value", s("一瞬"))])),
            ("効果", s("光源を生成する。")),
        ],
    );
    let result = generate_spell_palette(&sp).unwrap();
    assert!(result.contains("ライト"));
    assert!(result.contains("射程:30"));
}

#[test]
fn test_palette_with_meters_field_regular() {
    let sp = spell(
        "テスト",
        "神聖",
        vec![
            ("補助", JsonValue::Bool(false)),
            ("MP", obj(vec![("value", n(10))])),
            ("対象", obj(vec![("kind", s("個別")), ("個別", s("1体"))])),
            ("射程(m)", s("50")),
            ("時間", obj(vec![("value", s("一瞬"))])),
            ("効果", s("テスト効果")),
        ],
    );
    let result = generate_spell_palette(&sp).unwrap();
    assert!(result.contains("射程:50"));
    assert!(result.contains("神聖魔法"));
}

#[test]
fn test_support_palette_full_layout() {
    let sp = spell("ライト", "", support_extra());
    let result = generate_spell_palette(&sp).unwrap();
    assert_eq!(
        result,
        "ライト / MP:3 / 対象:任意の地点 / 射程:術者 / 時間:一瞬 / 光源を生成する。"
    );
}
