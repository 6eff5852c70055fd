use trpg_json_core::export::json::JsonExporter;
use trpg_json_core::export::google_sheets::{validate_spreadsheet_id, GoogleSheetsExporter};
use trpg_json_core::export::{
    plan_export, ExportAction, ExportConfig, ExportError, ExportFormat, Exporter,
    ExporterFactory,
};
use trpg_json_core::jsonval::JsonValue;
use trpg_json_core::{Monster, Part};

fn create_test_monster(name: &str, level: i32) -> Monster {
    Monster {
        category: "蛮族".to_string(),
        level,
        revision: "2.5".to_string(),
        data: "TEST001".to_string(),
        illust: "".to_string(),
        movein: 22,
        movein_description: "飛行".to_string(),
        moveon: 22,
        moveon_description: "".to_string(),
        name: name.to_string(),
        part: vec![Part {
            hp: Some(48),
            mp: 75,
            name: "".to_string(),
            core: Some(true),
            hit_rate: Some(15),
            dodge: Some(15),
            damage: Some(6),
            part_count: 1,
            special_abilities: "".to_string(),
            armor: 5,
        }],
        notes: "".to_string(),
        initiative: 14,
        common_abilities: "飛行".to_string(),
        weakness: "純エネルギー属性ダメージ+3".to_string(),
        weakness_value: 17,
        life_resistance: 16,
        fame: 14,
        mental_resistance: 16,
        extra: Vec::new(),
    }
}

// ---- format parsing ----

#[test]
fn test_export_format_from_str() {
    assert_eq!("json".parse::<ExportFormat>().unwrap(), ExportFormat::Json);
    assert_eq!(
        "sheets".parse::<ExportFormat>().unwrap(),
        ExportFormat::GoogleSheets
    );
    assert_eq!(
        "google-sheets".parse::<ExportFormat>().unwrap(),
        ExportFormat::GoogleSheets
    );
    assert_eq!(
        "googlesheets".parse::<ExportFormat>().unwrap(),
        ExportFormat::GoogleSheets
    );
    assert_eq!(
        "udonarium".parse::<ExportFormat>().unwrap(),
        ExportFormat::Udonarium
    );
}

#[test]
fn test_export_format_case_insensitive() {
    assert_eq!("JSON".parse::<ExportFormat>().unwrap(), ExportFormat::Json);
    assert_eq!(
        "SHEETS".parse::<ExportFormat>().unwrap(),
        ExportFormat::GoogleSheets
    );
    assert_eq!(
        "UDONARIUM".parse::<ExportFormat>().unwrap(),
        ExportFormat::Udonarium
    );
}

#[test]
fn test_export_format_invalid() {
    let result = "csv".parse::<ExportFormat>();
    assert!(result.is_err());
}

#[test]
fn test_export_config_creation() {
    let config = ExportConfig {
        destination: "/path/to/output.json".to_string(),
        format: ExportFormat::Json,
    };

    assert_eq!(config.destination, "/path/to/output.json");
    assert_eq!(config.format, ExportFormat::Json);
}

// ---- factory and names ----

#[test]
fn test_exporter_factory_json() {
    let exporter = ExporterFactory::create_exporter(ExportFormat::Json);
    assert!(exporter.is_ok());
    assert_eq!(exporter.unwrap().name(), "JSON Exporter");
}

#[test]
fn test_exporter_factory_google_sheets() {
    let exporter = ExporterFactory::create_exporter(ExportFormat::GoogleSheets);
    assert!(exporter.is_ok());
    assert_eq!(exporter.unwrap().name(), "Google Sheets Exporter");
}

#[test]
fn test_exporter_factory_udonarium() {
    let exporter = ExporterFactory::create_exporter(ExportFormat::Udonarium);
    assert!(exporter.is_ok());
    assert_eq!(exporter.unwrap().name(), "Udonarium Exporter");
}

#[test]
fn test_json_exporter_name() {
    let exporter = JsonExporter;
    assert_eq!(exporter.name(), "JSON Exporter");
}

#[test]
fn test_google_sheets_exporter_name() {
    let exporter = GoogleSheetsExporter;
    assert_eq!(exporter.name(), "Google Sheets Exporter");
}

// ---- destination validation (spreadsheet strategy) ----

#[test]
fn google_sheets_test_validate_spreadsheet_id_empty() {
    let result = validate_spreadsheet_id("");
    assert!(result.is_err());
    let error = result.err().unwrap();
    assert!(error.message().contains("cannot be empty"));
}

#[test]
fn google_sheets_test_validate_spreadsheet_id_too_short() {
    let result = validate_spreadsheet_id("abc123");
    assert!(result.is_err());
    let error = result.err().unwrap();
    assert!(error.message().contains("Invalid spreadsheet ID"));
}

#[test]
fn google_sheets_test_validate_spreadsheet_id_valid() {
    let result = validate_spreadsheet_id("1BxiMVs0XRA5nFMKUVfIz487hJblLvZQvq_fHM9GjMhs");
    assert!(result.is_ok());
}

#[test]
fn test_validate_spreadsheet_id_with_special_chars() {
    let result = validate_spreadsheet_id("1-BxiMVs0XRA5nFMKUVfIz487hJblLvZQvq_fHM9GjMhs");
    assert!(result.is_ok());
}

// ---- JSON strategy ----

#[test]
fn test_export_single_monster() {
    let monsters = vec![create_test_monster("テストモンスター", 6)];
    let content = JsonExporter::render_monsters(&monsters);

    assert!(content.contains("テストモンスター"));
    assert!(content.contains("\"Lv\": 6"));
    assert!(content.contains("  "));
    assert!(content.contains("\n"));
}

#[test]
fn test_export_empty_data() {
    let monsters: Vec<Monster> = vec![];
    let content = JsonExporter::render_monsters(&monsters);
    assert_eq!(content.trim(), "[]");
}

#[test]
fn test_export_multiple_monsters() {
    let monsters = vec![
        create_test_monster("モンスター1", 6),
        create_test_monster("モンスター2", 7),
        create_test_monster("モンスター3", 8),
    ];
    let content = JsonExporter::render_monsters(&monsters);

    let parsed: serde_json::Value = serde_json::from_str(&content).unwrap();
    let arr = parsed.as_array().unwrap();
    assert_eq!(arr.len(), 3);
    assert_eq!(arr[0]["name"], "モンスター1");
    assert_eq!(arr[1]["name"], "モンスター2");
    assert_eq!(arr[2]["name"], "モンスター3");
}

#[test]
fn test_export_roundtrip() {
    let mut first = create_test_monster("モンスター1", 6);
    first.extra.push((
        "出典".to_string(),
        JsonValue::Str("追加資料".to_string()),
    ));
    first.extra.push(("頁".to_string(), JsonValue::Int(143)));
    let original_monsters = vec![first, create_test_monster("モンスター2", 7)];

    let content = JsonExporter::render_monsters(&original_monsters);
    let parsed: serde_json::Value = serde_json::from_str(&content).unwrap();
    let arr = parsed.as_array().unwrap();

    assert_eq!(arr.len(), original_monsters.len());
    for (original, loaded) in original_monsters.iter().zip(arr.iter()) {
        assert_eq!(loaded["name"], serde_json::Value::String(original.name.clone()));
        assert_eq!(loaded["Lv"], serde_json::Value::from(original.level));
        assert_eq!(
            loaded["Category"],
            serde_json::Value::String(original.category.clone())
        );
    }
    // the open bag is preserved verbatim
    assert_eq!(arr[0]["出典"], "追加資料");
    assert_eq!(arr[0]["頁"], 143);
    // sentinel, optional and nested part fields survive the trip
    assert_eq!(arr[0]["part"][0]["HP"], 48);
    assert_eq!(arr[0]["part"][0]["コア"], true);
    assert_eq!(arr[0]["Revision"], 2.5);
}

#[test]
fn test_export_escapes_strings() {
    let mut monster = create_test_monster("名\"前\\改行\nあり", 6);
    monster.notes = "\ttab".to_string();
    let content = JsonExporter::render_monsters(&vec![monster]);
    let parsed: serde_json::Value = serde_json::from_str(&content).unwrap();
    assert_eq!(parsed[0]["name"], "名\"前\\改行\nあり");
    assert_eq!(parsed[0]["備考"], "\ttab");
}

// ---- the coordinator ----

#[test]
fn test_plan_export_unknown_format() {
    let monsters = vec![create_test_monster("テスト", 6)];
    match plan_export(&monsters, "out.csv", "csv") {
        Err(ExportError::UnsupportedFormat(m)) => {
            assert_eq!(m, "Unknown export format: 'csv'. Supported: json, sheets, udonarium")
        }
        other => panic!("unexpected: {:?}", other),
    }
}

#[test]
fn test_plan_export_json_accepts_empty_list() {
    let monsters: Vec<Monster> = vec![];
    match plan_export(&monsters, "out.json", "json") {
        Ok(ExportAction::WriteFile { path, content }) => {
            assert_eq!(path, "out.json");
            assert_eq!(content, "[]");
        }
        other => panic!("unexpected: {:?}", other),
    }
}

#[test]
fn test_plan_export_sheets_rejects_empty_list() {
    let monsters: Vec<Monster> = vec![];
    let result = plan_export(
        &monsters,
        "1BxiMVs0XRA5nFMKUVfIz487hJblLvZQvq_fHM9GjMhs",
        "sheets",
    );
    match result {
        Err(e) => assert!(e.message().contains("empty monster list")),
        Ok(_) => panic!("empty list must be rejected"),
    }
}

#[test]
fn test_plan_export_udonarium_rejects_empty_list() {
    let monsters: Vec<Monster> = vec![];
    let result = plan_export(&monsters, "out.zip", "udonarium");
    match result {
        Err(e) => assert!(e.message().contains("empty monster list")),
        Ok(_) => panic!("empty list must be rejected"),
    }
}

#[test]
fn test_plan_export_sheets_names_append_target() {
    let monsters = vec![create_test_monster("テスト", 6)];
    match plan_export(
        &monsters,
        "1BxiMVs0XRA5nFMKUVfIz487hJblLvZQvq_fHM9GjMhs",
        "sheets",
    ) {
        Ok(ExportAction::AppendToSpreadsheet { spreadsheet_id, sheet_name }) => {
            assert_eq!(spreadsheet_id, "1BxiMVs0XRA5nFMKUVfIz487hJblLvZQvq_fHM9GjMhs");
            assert_eq!(sheet_name, "search");
        }
        other => panic!("unexpected: {:?}", other),
    }
}

#[test]
fn test_plan_export_sheets_rejects_short_destination() {
    let monsters = vec![create_test_monster("テスト", 6)];
    match plan_export(&monsters, "abc123", "sheets") {
        Err(ExportError::InvalidDestination(m)) => {
            assert!(m.contains("Invalid spreadsheet ID 'abc123'"))
        }
        other => panic!("unexpected: {:?}", other),
    }
}

#[test]
fn test_plan_export_udonarium_builds_archive() {
    let monsters = vec![create_test_monster("テスト", 6)];
    match plan_export(&monsters, "out/monsters.zip", "udonarium") {
        Ok(ExportAction::WriteArchive { path, bytes }) => {
            assert_eq!(path, "out/monsters.zip");
            let mut archive =
                zip::ZipArchive::new(std::io::Cursor::new(bytes)).expect("readable zip");
            assert_eq!(archive.len(), 1);
            assert_eq!(archive.by_index(0).unwrap().name(), "テスト.xml");
        }
        other => panic!("unexpected: {:?}", other),
    }
}

#[test]
fn test_google_sheets_export_empty_data() {
    let exporter = ExporterFactory::create_exporter(ExportFormat::GoogleSheets).unwrap();
    let config = ExportConfig {
        destination: "1BxiMVs0XRA5nFMKUVfIz487hJblLvZQvq_fHM9GjMhs".to_string(),
        format: ExportFormat::GoogleSheets,
    };

    let result = exporter.export(&vec![], &config);
    assert!(result.is_err());
    assert!(result.err().unwrap().message().contains("empty monster list"));
}

#[test]
fn test_exporter_enum_json_export() {
    let exporter = Exporter::Json(JsonExporter);
    let config = ExportConfig {
        destination: "x.json".to_string(),
        format: ExportFormat::Json,
    };
    let monsters = vec![create_test_monster("テスト", 3)];
    match exporter.export(&monsters, &config) {
        Ok(ExportAction::WriteFile { path, content }) => {
            assert_eq!(path, "x.json");
            assert!(content.contains("テスト"));
        }
        other => panic!("unexpected: {:?}", other),
    }
}

#[test]
fn test_export_error_messages() {
    assert_eq!(
        ExportError::UnsupportedFormat("csv".to_string()).message(),
        "Export format not supported: csv"
    );
    assert_eq!(
        ExportError::InvalidDestination("x".to_string()).message(),
        "Invalid export destination: x"
    );
    assert_eq!(ExportError::IoError("y".to_string()).message(), "IO error: y");
}
