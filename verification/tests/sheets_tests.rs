use trpg_json_core::export::sheets::{DataTransformer, SheetOutput, SheetRow};
use trpg_json_core::export::sheets_api::{GoogleSheetsClient, SheetsApiError};
use trpg_json_core::export::auth::{GoogleSheetsAuth, OAuthCredentials};
use trpg_json_core::{Monster, Part};

fn test_part(hp: Option<i32>, mp: i32, name: &str, core: bool, special: &str) -> Part {
    Part {
        hp,
        mp,
        name: name.to_string(),
        core: Some(core),
        hit_rate: Some(15),
        dodge: Some(15),
        damage: Some(6),
        part_count: 1,
        special_abilities: special.to_string(),
        armor: 5,
    }
}

fn test_monster(name: &str, parts: Vec<Part>) -> Monster {
    Monster {
        category: "蛮族".to_string(),
        level: 6,
        revision: "2.5".to_string(),
        data: "TEST001".to_string(),
        illust: "".to_string(),
        movein: 22,
        movein_description: "飛行".to_string(),
        moveon: 22,
        moveon_description: "".to_string(),
        name: name.to_string(),
        part: parts,
        notes: "".to_string(),
        initiative: 14,
        common_abilities: "飛行".to_string(),
        weakness: "属性ダメージ+3".to_string(),
        weakness_value: 17,
        life_resistance: 16,
        fame: 14,
        mental_resistance: 16,
        extra: Vec::new(),
    }
}

#[test]
fn sheets_test_transform_weakness() {
    assert_eq!(
        DataTransformer::transform_weakness("炎属性ダメージ+3"),
        "炎ダメ+3"
    );
    assert_eq!(
        DataTransformer::transform_weakness("純エネルギー属性ダメージ+2"),
        "純Eダメ+2"
    );
    assert_eq!(DataTransformer::transform_weakness("ダメージ+1"), "ダメ+1");
}

#[test]
fn test_transform_weakness_multiple_replacements() {
    assert_eq!(
        DataTransformer::transform_weakness("純エネルギー属性ダメージ+3"),
        "純Eダメ+3"
    );
    assert_eq!(
        DataTransformer::transform_weakness("エネルギーとダメージ属性"),
        "Eとダメ"
    );
}

#[test]
fn test_transform_single_part_monster() {
    let mut monster = test_monster("テストモンスター", vec![test_part(
        Some(48),
        75,
        "",
        true,
        "飛行適性",
    )]);
    monster.weakness = "属性ダメージ+3".to_string();

    let rows = DataTransformer::transform_monster(&monster, 3);

    assert_eq!(rows.len(), 2);

    let odd_row = &rows[0];
    assert_eq!(odd_row.row_number, 3);
    assert_eq!(odd_row.values[0], Some("★テストモンスター".to_string()));
    assert_eq!(odd_row.values[11], Some("48".to_string()));
    assert_eq!(odd_row.values[15], Some("75".to_string()));

    let even_row = &rows[1];
    assert_eq!(even_row.row_number, 4);
    assert_eq!(even_row.values[38], Some("飛行適性".to_string()));
    assert_eq!(even_row.values[48], Some("ダメ+3".to_string()));
}

#[test]
fn sheets_test_transform_multi_part_monster() {
    let mut monster = test_monster(
        "複合型モンスター",
        vec![
            test_part(Some(48), 75, "頭部", true, "魔法適性"),
            test_part(Some(43), 20, "胴体", false, "飛翔"),
        ],
    );
    monster.movein = -1;
    monster.movein_description = "".to_string();
    monster.moveon = -1;
    monster.initiative = 15;
    monster.weakness = "属性ダメージ+2".to_string();

    let rows = DataTransformer::transform_monster(&monster, 3);

    assert_eq!(rows.len(), 4);

    let part1_odd = &rows[0];
    assert_eq!(part1_odd.row_number, 3);
    assert_eq!(
        part1_odd.values[0],
        Some("★複合型モンスター\n(頭部)".to_string())
    );
    assert_eq!(part1_odd.values[19], Some("15".to_string()));

    let part1_even = &rows[1];
    assert_eq!(part1_even.row_number, 4);
    assert_eq!(part1_even.values[38], Some("魔法適性".to_string()));
    assert_eq!(part1_even.values[48], Some("ダメ+2".to_string()));

    let part2_odd = &rows[2];
    assert_eq!(part2_odd.row_number, 5);
    assert_eq!(
        part2_odd.values[0],
        Some("複合型モンスター\n(胴体)".to_string())
    );
    assert_eq!(part2_odd.values[19], Some("-".to_string()));

    let part2_even = &rows[3];
    assert_eq!(part2_even.row_number, 6);
    assert_eq!(part2_even.values[38], Some("飛翔".to_string()));
    assert_eq!(part2_even.values[48], Some("-".to_string()));
}

#[test]
fn test_transform_monster_negative_mp() {
    let mut monster = test_monster("MP無しモンスター", vec![test_part(
        Some(50),
        -1,
        "",
        true,
        "",
    )]);
    monster.movein = -1;
    monster.moveon = -1;

    let rows = DataTransformer::transform_monster(&monster, 3);
    let odd_row = &rows[0];
    assert_eq!(odd_row.values[15], Some("-".to_string()));
}

#[test]
fn test_transform_monster_with_movement_description() {
    let mut monster = test_monster("移動型モンスター", vec![test_part(
        Some(45),
        60,
        "",
        true,
        "",
    )]);
    monster.movein = 20;
    monster.movein_description = "飛行".to_string();
    monster.moveon = 18;
    monster.moveon_description = "".to_string();

    let rows = DataTransformer::transform_monster(&monster, 3);
    let odd_row = &rows[0];
    assert_eq!(odd_row.values[27], Some("18".to_string()));
    assert_eq!(odd_row.values[29], Some("20\n(飛行)".to_string()));
}

#[test]
fn test_sheet_row_holds_cells() {
    let row = SheetRow { values: vec![Some("x".to_string()), None] };
    assert_eq!(row.values.len(), 2);
    assert_eq!(row.values[1], None);
}

#[test]
fn test_sheet_output_creation() {
    let output = SheetOutput {
        row_number: 3,
        values: vec![Some("A1".to_string()), Some("B1".to_string()), None],
        is_merged_row: false,
    };

    assert_eq!(output.row_number, 3);
    assert_eq!(output.values.len(), 3);
    assert_eq!(output.values[0], Some("A1".to_string()));
    assert_eq!(output.values[2], None);
}

#[test]
fn sheets_api_test_validate_spreadsheet_id_valid() {
    assert!(GoogleSheetsClient::validate_spreadsheet_id(
        "1BxiMVs0XRA5nFMKUVfIz487hJblLvZQvq_fHM9GjMhs"
    )
    .is_ok());
}

#[test]
fn sheets_api_test_validate_spreadsheet_id_empty() {
    let result = GoogleSheetsClient::validate_spreadsheet_id("");
    assert!(result.is_err());
}

#[test]
fn sheets_api_test_validate_spreadsheet_id_too_short() {
    let result = GoogleSheetsClient::validate_spreadsheet_id("abc");
    assert!(result.is_err());
}

#[test]
fn test_index_to_column_single_letter() {
    assert_eq!(GoogleSheetsClient::index_to_column(0), "A");
    assert_eq!(GoogleSheetsClient::index_to_column(1), "B");
    assert_eq!(GoogleSheetsClient::index_to_column(25), "Z");
}

#[test]
fn test_index_to_column_double_letter() {
    assert_eq!(GoogleSheetsClient::index_to_column(26), "AA");
    assert_eq!(GoogleSheetsClient::index_to_column(27), "AB");
    assert_eq!(GoogleSheetsClient::index_to_column(51), "AZ");
    assert_eq!(GoogleSheetsClient::index_to_column(52), "BA");
}

#[test]
fn test_index_to_column_triple_letter() {
    assert_eq!(GoogleSheetsClient::index_to_column(701), "ZZ");
    assert_eq!(GoogleSheetsClient::index_to_column(702), "AAA");
}

#[test]
fn test_index_to_column_specific_columns() {
    assert_eq!(GoogleSheetsClient::index_to_column(10), "K");
    assert_eq!(GoogleSheetsClient::index_to_column(11), "L");
    assert_eq!(GoogleSheetsClient::index_to_column(14), "O");
    assert_eq!(GoogleSheetsClient::index_to_column(15), "P");
    assert_eq!(GoogleSheetsClient::index_to_column(17), "R");
    assert_eq!(GoogleSheetsClient::index_to_column(19), "T");
}

#[test]
fn test_sheets_api_error_display() {
    let error = SheetsApiError::InvalidSpreadsheetId("test".to_string());
    let message = error.message();
    assert!(message.contains("Invalid spreadsheet ID"));
    assert!(message.contains("test"));
}

#[test]
fn test_sheets_api_error_no_empty_rows() {
    let error = SheetsApiError::NoEmptyRows;
    let message = error.message();
    assert!(message.contains("no empty rows"));
}

#[test]
fn test_find_empty_row_from_count() {
    assert_eq!(GoogleSheetsClient::find_empty_row_from_count(0), Ok(3));
    assert_eq!(GoogleSheetsClient::find_empty_row_from_count(1), Ok(5));
    assert_eq!(GoogleSheetsClient::find_empty_row_from_count(2), Ok(5));
    assert_eq!(GoogleSheetsClient::find_empty_row_from_count(3), Ok(7));
    assert_eq!(GoogleSheetsClient::find_empty_row_from_count(998), Ok(1001));
    assert_eq!(
        GoogleSheetsClient::find_empty_row_from_count(999),
        Err(SheetsApiError::NoEmptyRows)
    );
}

#[test]
fn test_values_get_url_encodes_range() {
    let url = GoogleSheetsClient::values_get_url("sheet-id-1234567890", "search");
    assert_eq!(
        url,
        "https://sheets.googleapis.com/v4/spreadsheets/sheet-id-1234567890/values/search%21A3%3AA1000"
    );
}

#[test]
fn test_batch_update_url() {
    let url = GoogleSheetsClient::batch_update_url("sheet-id-1234567890");
    assert_eq!(
        url,
        "https://sheets.googleapis.com/v4/spreadsheets/sheet-id-1234567890/values:batchUpdate"
    );
}

#[test]
fn test_auth_header_value() {
    let client = GoogleSheetsClient::new_at(
        GoogleSheetsAuth::new("/cfg"),
        OAuthCredentials {
            access_token: "tok123".to_string(),
            token_type: "Bearer".to_string(),
            expires_at: 2_000_000_000,
            refresh_token: None,
        },
        1_000_000_000,
    )
    .unwrap();
    assert_eq!(client.auth_header_value(), "Bearer tok123");
}

#[test]
fn test_client_rejects_expired_credentials() {
    let r = GoogleSheetsClient::new_at(
        GoogleSheetsAuth::new("/cfg"),
        OAuthCredentials {
            access_token: "tok".to_string(),
            token_type: "Bearer".to_string(),
            expires_at: 1_000_000,
            refresh_token: None,
        },
        2_000_000,
    );
    assert!(r.is_err());
}

#[test]
fn test_row_range_uses_column_letters() {
    let row = SheetOutput {
        row_number: 7,
        values: vec![None; 54],
        is_merged_row: false,
    };
    assert_eq!(GoogleSheetsClient::row_range("search", &row), "search!A7:BB7");
}

#[test]
fn test_batch_update_body_layout() {
    let row = SheetOutput {
        row_number: 3,
        values: vec![Some("x".to_string()), None],
        is_merged_row: false,
    };
    let body = GoogleSheetsClient::batch_update_body("search", &vec![row]);
    assert_eq!(
        body,
        "{\"data\":[{\"majorDimension\":\"ROWS\",\"range\":\"search!A3:B3\",\"values\":[[\"x\",null]]}],\"valueInputOption\":\"RAW\"}"
    );
}

#[test]
fn test_interpret_api_response() {
    assert!(GoogleSheetsClient::interpret_api_response(200, "ok").is_ok());
    assert!(GoogleSheetsClient::interpret_api_response(204, "").is_ok());
    match GoogleSheetsClient::interpret_api_response(403, "denied") {
        Err(SheetsApiError::RequestFailed(m)) => {
            assert_eq!(m, "API request failed with status 403: denied")
        }
        other => panic!("unexpected: {:?}", other),
    }
}

#[test]
fn test_index_to_column_large_index() {
    assert_eq!(GoogleSheetsClient::index_to_column(16383), "XFD");
}
