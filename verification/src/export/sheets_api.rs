//! The spreadsheet API client: spreadsheet-id validation, A1-notation
//! column letters, the free-row placement rule, and the exact URLs and
//! request bodies of the two remote calls. The HTTP traffic itself stays
//! with the caller, which hands status and body back for interpretation.

use vstd::prelude::*;
use vstd::string::StringExecFns;
use crate::clock::unix_time_now;
use crate::export::auth::{AuthError, GoogleSheetsAuth, OAuthCredentials, spec_auth_error_message};
use crate::export::sheets::SheetOutput;
use crate::jsonrender::{append_json_string, render_string};
use crate::text::{dec_of, int_dec_of, push_char, u64_to_string};
use crate::urlenc::{percent_encode, percent_encoded};

verus! {

/// What can go wrong when talking to the spreadsheet API.
#[derive(Debug, Clone, PartialEq, Eq)]
pub enum SheetsApiError {
    /// The credential lifecycle failed.
    AuthError(AuthError),
    /// The remote API answered with a non-success status, or the request
    /// could not be made.
    RequestFailed(String),
    /// The spreadsheet id is empty or too short.
    InvalidSpreadsheetId(String),
    /// The named sheet does not exist.
    SheetNotFound(String),
    /// No free destination row within the searched range.
    NoEmptyRows,
    /// A record could not be turned into rows.
    TransformationError(String),
}

/// The message text of a `SheetsApiError` value.
pub open spec fn spec_sheets_error_message(e: SheetsApiError) -> Seq<char> {
    match e {
        SheetsApiError::AuthError(a) => "Authentication error: "@ + spec_auth_error_message(a),
        SheetsApiError::RequestFailed(s) => "API request failed: "@ + s@,
        SheetsApiError::InvalidSpreadsheetId(s) => "Invalid spreadsheet ID: "@ + s@,
        SheetsApiError::SheetNotFound(s) => "Sheet not found: "@ + s@,
        SheetsApiError::NoEmptyRows => "Failed to find empty row: no empty rows available"@,
        SheetsApiError::TransformationError(s) => "Data transformation error: "@ + s@,
    }
}

impl SheetsApiError {
    /// Renders the error as a one-line message.
    pub fn message(&self) -> (r: String)
        ensures
            r@ == spec_sheets_error_message(*self),
    {
        let mut m = String::new();
        match self {
            SheetsApiError::AuthError(a) => {
                m.append("Authentication error: ");
                let inner = a.message();
                m.append(inner.as_str());
            },
            SheetsApiError::RequestFailed(s) => {
                m.append("API request failed: ");
                m.append(s.as_str());
            },
            SheetsApiError::InvalidSpreadsheetId(s) => {
                m.append("Invalid spreadsheet ID: ");
                m.append(s.as_str());
            },
            SheetsApiError::SheetNotFound(s) => {
                m.append("Sheet not found: ");
                m.append(s.as_str());
            },
            SheetsApiError::NoEmptyRows => {
                m.append("Failed to find empty row: no empty rows available");
            },
            SheetsApiError::TransformationError(s) => {
                m.append("Data transformation error: ");
                m.append(s.as_str());
            },
        }
        proof {
            assert(m@ =~= spec_sheets_error_message(*self));
        }
        m
    }
}

/// The letter for one base-26 digit: 0 is A, 25 is Z.
pub open spec fn column_letter(d: int) -> char {
    ((65 + d) as u8) as char
}

/// The A1-notation column letters of a 0-based column index: bijective
/// base 26 over A to Z, so 0 is A, 25 is Z, 26 is AA, 701 is ZZ and 702
/// is AAA.
pub open spec fn column_name(i: nat) -> Seq<char>
    decreases i,
{
    if i < 26 {
        seq![column_letter(i as int)]
    } else {
        column_name((i / 26 - 1) as nat) + seq![column_letter((i % 26) as int)]
    }
}

/// The 0-based index of the last cell of a row of `len` cells; 0 for an
/// empty row.
pub open spec fn last_cell_index(len: nat) -> nat {
    if len == 0 {
        0
    } else {
        (len - 1) as nat
    }
}

/// One cell of a raw-values request: `null` for an absent cell, a JSON
/// string for a present one.
pub open spec fn spec_cell_json(c: Option<String>) -> Seq<char> {
    match c {
        None => "null"@,
        Some(s) => render_string(s@),
    }
}

/// The comma-separated cells of one row, from cell `i` on.
pub open spec fn spec_cells_json(vals: Seq<Option<String>>, i: int) -> Seq<char>
    decreases vals.len() - i,
{
    if i < 0 || i >= vals.len() {
        Seq::empty()
    } else if i == vals.len() - 1 {
        spec_cell_json(vals[i])
    } else {
        spec_cell_json(vals[i]) + ","@ + spec_cells_json(vals, i + 1)
    }
}

/// The A1-notation range of one output row: sheet name, first and last
/// column letters, and the row number on both sides.
pub open spec fn spec_range_text(sheet: Seq<char>, row: SheetOutput) -> Seq<char> {
    sheet + "!"@ + column_name(0) + int_dec_of(row.row_number as int) + ":"@ + column_name(
        last_cell_index(row.values@.len()),
    ) + int_dec_of(row.row_number as int)
}

/// One entry of the batched update: range, row-major order, and the cells.
pub open spec fn spec_row_request(sheet: Seq<char>, row: SheetOutput) -> Seq<char> {
    "{\"majorDimension\":\"ROWS\",\"range\":"@ + render_string(spec_range_text(sheet, row))
        + ",\"values\":[["@ + spec_cells_json(row.values@, 0) + "]]}"@
}

/// The comma-separated request entries, from row `i` on.
pub open spec fn spec_row_requests(sheet: Seq<char>, rows: Seq<SheetOutput>, i: int) -> Seq<char>
    decreases rows.len() - i,
{
    if i < 0 || i >= rows.len() {
        Seq::empty()
    } else if i == rows.len() - 1 {
        spec_row_request(sheet, rows[i])
    } else {
        spec_row_request(sheet, rows[i]) + ","@ + spec_row_requests(sheet, rows, i + 1)
    }
}

/// The whole batched-update body, with raw (non-formula) value semantics.
pub open spec fn spec_batch_body(sheet: Seq<char>, rows: Seq<SheetOutput>) -> Seq<char> {
    "{\"data\":["@ + spec_row_requests(sheet, rows, 0) + "],\"valueInputOption\":\"RAW\"}"@
}

/// A client for the spreadsheet API, built from non-expired credentials.
#[derive(Debug, Clone)]
pub struct GoogleSheetsClient {
    /// The authentication manager the credentials came from.
    pub auth: GoogleSheetsAuth,
    /// The credentials used for the bearer header.
    pub credentials: OAuthCredentials,
}

impl GoogleSheetsClient {
    /// A client for the given credentials as of time `now`; construction
    /// fails when they are expired.
    pub fn new_at(auth: GoogleSheetsAuth, credentials: OAuthCredentials, now: i64) -> (r: Result<
        GoogleSheetsClient,
        SheetsApiError,
    >)
        ensures
            match r {
                Ok(c) => !credentials.spec_is_expired_at(now as int) && c.auth == auth
                    && c.credentials == credentials,
                Err(e) => credentials.spec_is_expired_at(now as int) && (e matches
                    SheetsApiError::AuthError(a) && (a matches AuthError::TokenRefreshFailed(m)
                    && m@ == "Token expired. Please re-authenticate."@)),
            },
    {
        if credentials.is_expired_at(now) {
            let mut m = String::new();
            m.append("Token expired. Please re-authenticate.");
            Err(SheetsApiError::AuthError(AuthError::TokenRefreshFailed(m)))
        } else {
            Ok(GoogleSheetsClient { auth, credentials })
        }
    }

    /// A client for the given credentials as of the wall clock now. The
    /// expiry rule itself is stated on `new_at`.
    pub fn new(auth: GoogleSheetsAuth, credentials: OAuthCredentials) -> (r: Result<
        GoogleSheetsClient,
        SheetsApiError,
    >)
        ensures
            match r {
                Ok(c) => c.auth == auth && c.credentials == credentials,
                Err(e) => e matches SheetsApiError::AuthError(a) && (a matches
                    AuthError::TokenRefreshFailed(m) && m@
                    == "Token expired. Please re-authenticate."@),
            },
    {
        let now = unix_time_now();
        Self::new_at(auth, credentials, now)
    }

    /// The value of the authorization header: token type, a space, the
    /// access token.
    pub fn auth_header_value(&self) -> (r: String)
        ensures
            r@ == self.credentials.token_type@ + " "@ + self.credentials.access_token@,
    {
        let mut r = String::new();
        r.append(self.credentials.token_type.as_str());
        r.append(" ");
        r.append(self.credentials.access_token.as_str());
        proof {
            assert(r@ =~= self.credentials.token_type@ + " "@
                + self.credentials.access_token@);
        }
        r
    }

    /// The A1-notation column letters of a 0-based column index.
    pub fn index_to_column(index: usize) -> (r: String)
        ensures
            r@ == column_name(index as nat),
        decreases index,
    {
        if index < 26 {
            let mut r = String::new();
            push_char(&mut r, (65 + index as u8) as char);
            proof {
                assert(r@ =~= column_name(index as nat));
            }
            r
        } else {
            let mut r = Self::index_to_column(index / 26 - 1);
            push_char(&mut r, (65 + (index % 26) as u8) as char);
            proof {
                assert(r@ =~= column_name((index / 26 - 1) as nat) + seq![
                    column_letter((index % 26) as int),
                ]);
            }
            r
        }
    }

    /// Accepts a spreadsheet id only when it is non-empty and at least 10
    /// characters long.
    pub fn validate_spreadsheet_id(spreadsheet_id: &str) -> (r: Result<(), SheetsApiError>)
        ensures
            match r {
                Ok(_) => spreadsheet_id@.len() >= 10,
                Err(e) => spreadsheet_id@.len() < 10 && (e matches
                    SheetsApiError::InvalidSpreadsheetId(m) && m@ == if spreadsheet_id@.len()
                    == 0 {
                    "Spreadsheet ID cannot be empty"@
                } else {
                    "Spreadsheet ID is too short"@
                }),
            },
    {
        if spreadsheet_id.is_empty() {
            let mut m = String::new();
            m.append("Spreadsheet ID cannot be empty");
            return Err(SheetsApiError::InvalidSpreadsheetId(m));
        }
        if spreadsheet_id.unicode_len() < 10 {
            let mut m = String::new();
            m.append("Spreadsheet ID is too short");
            return Err(SheetsApiError::InvalidSpreadsheetId(m));
        }
        Ok(())
    }

    /// The destination row for a column-A read that found `populated`
    /// cells: the first odd row among 3, 5, 7, ... whose offset within the
    /// searched range is at least `populated`; there is none within the
    /// bounded range when more than 998 cells are populated.
    pub fn find_empty_row_from_count(populated: usize) -> (r: Result<usize, SheetsApiError>)
        ensures
            match r {
                Ok(row) => populated <= 998 && row == 3 + populated + (populated % 2) && row % 2
                    == 1,
                Err(e) => populated > 998 && e is NoEmptyRows,
            },
    {
        if populated > 998 {
            Err(SheetsApiError::NoEmptyRows)
        } else {
            Ok(3 + populated + (populated % 2))
        }
    }

    /// The URL of the column-A read over rows 3 to 1000 of the named
    /// sheet.
    pub fn values_get_url(spreadsheet_id: &str, sheet_name: &str) -> (r: String)
        ensures
            r@ == "https://sheets.googleapis.com/v4/spreadsheets/"@ + spreadsheet_id@
                + "/values/"@ + percent_encoded(sheet_name@ + "!A3:A1000"@),
    {
        let mut range = String::new();
        range.append(sheet_name);
        range.append("!A3:A1000");
        let encoded = percent_encode(range.as_str());
        let mut r = String::new();
        r.append("https://sheets.googleapis.com/v4/spreadsheets/");
        r.append(spreadsheet_id);
        r.append("/values/");
        r.append(encoded.as_str());
        proof {
            assert(range@ =~= sheet_name@ + "!A3:A1000"@);
            assert(r@ =~= "https://sheets.googleapis.com/v4/spreadsheets/"@ + spreadsheet_id@
                + "/values/"@ + percent_encoded(sheet_name@ + "!A3:A1000"@));
        }
        r
    }

    /// The URL of the batched values update.
    pub fn batch_update_url(spreadsheet_id: &str) -> (r: String)
        ensures
            r@ == "https://sheets.googleapis.com/v4/spreadsheets/"@ + spreadsheet_id@
                + "/values:batchUpdate"@,
    {
        let mut r = String::new();
        r.append("https://sheets.googleapis.com/v4/spreadsheets/");
        r.append(spreadsheet_id);
        r.append("/values:batchUpdate");
        proof {
            assert(r@ =~= "https://sheets.googleapis.com/v4/spreadsheets/"@ + spreadsheet_id@
                + "/values:batchUpdate"@);
        }
        r
    }

    /// The A1-notation range of one output row on the named sheet.
    pub fn row_range(sheet_name: &str, row: &SheetOutput) -> (r: String)
        ensures
            r@ == spec_range_text(sheet_name@, *row),
    {
        let start_col = Self::index_to_column(0);
        let end_index = if row.values.len() == 0 {
            0
        } else {
            row.values.len() - 1
        };
        let end_col = Self::index_to_column(end_index);
        let row_text = crate::text::u64_to_string(row.row_number as u64);
        let mut r = String::new();
        r.append(sheet_name);
        r.append("!");
        r.append(start_col.as_str());
        r.append(row_text.as_str());
        r.append(":");
        r.append(end_col.as_str());
        r.append(row_text.as_str());
        proof {
            assert(r@ =~= spec_range_text(sheet_name@, *row));
        }
        r
    }

    /// The body of the batched update for the given rows, with raw value
    /// semantics.
    pub fn batch_update_body(sheet_name: &str, rows: &Vec<SheetOutput>) -> (r: String)
        ensures
            r@ == spec_batch_body(sheet_name@, rows@),
    {
        let mut r = String::new();
        r.append("{\"data\":[");
        let mut i: usize = 0;
        let ghost prefix = "{\"data\":["@;
        proof {
            assert(r@ =~= prefix);
        }
        while i < rows.len()
            invariant
                i <= rows@.len(),
                i == 0 ==> r@ == prefix,
                0 < i < rows@.len() ==> r@ + ","@ + spec_row_requests(sheet_name@, rows@, i as int)
                    =~= prefix + spec_row_requests(sheet_name@, rows@, 0),
                i > 0 && i == rows@.len() ==> r@ =~= prefix + spec_row_requests(
                    sheet_name@,
                    rows@,
                    0,
                ),
            decreases rows@.len() - i,
        {
            if i > 0 {
                r.append(",");
            }
            let ghost r0 = r@;
            Self::append_row_request(&mut r, sheet_name, &rows[i]);
            proof {
                assert(r@ == r0 + spec_row_request(sheet_name@, rows@[i as int]));
                if i == 0 {
                    if rows@.len() == 1 {
                        assert(r@ =~= prefix + spec_row_requests(sheet_name@, rows@, 0));
                    } else {
                        assert((r@ + ","@) + spec_row_requests(sheet_name@, rows@, 1) =~= prefix
                            + spec_row_requests(sheet_name@, rows@, 0));
                    }
                } else {
                    if i as int == rows@.len() - 1 {
                        assert(r@ =~= prefix + spec_row_requests(sheet_name@, rows@, 0));
                    } else {
                        assert((r@ + ","@) + spec_row_requests(sheet_name@, rows@, i as int + 1)
                            =~= prefix + spec_row_requests(sheet_name@, rows@, 0));
                    }
                }
            }
            i = i + 1;
        }
        r.append("],\"valueInputOption\":\"RAW\"}");
        proof {
            if rows@.len() == 0 {
                assert(spec_row_requests(sheet_name@, rows@, 0) =~= Seq::<char>::empty());
            }
            assert(r@ =~= spec_batch_body(sheet_name@, rows@));
        }
        r
    }

    /// Appends one request entry of the batched update.
    fn append_row_request(out: &mut String, sheet_name: &str, row: &SheetOutput)
        ensures
            final(out)@ == old(out)@ + spec_row_request(sheet_name@, *row),
    {
        out.append("{\"majorDimension\":\"ROWS\",\"range\":");
        let range = Self::row_range(sheet_name, row);
        append_json_string(out, range.as_str());
        out.append(",\"values\":[[");
        let ghost mid = out@;
        let mut j: usize = 0;
        while j < row.values.len()
            invariant
                j <= row.values@.len(),
                j == 0 ==> out@ == mid,
                0 < j < row.values@.len() ==> out@ + ","@ + spec_cells_json(
                    row.values@,
                    j as int,
                ) =~= mid + spec_cells_json(row.values@, 0),
                j > 0 && j == row.values@.len() ==> out@ =~= mid + spec_cells_json(
                    row.values@,
                    0,
                ),
            decreases row.values@.len() - j,
        {
            if j > 0 {
                out.append(",");
            }
            let ghost o0 = out@;
            match &row.values[j] {
                None => {
                    out.append("null");
                },
                Some(s) => {
                    append_json_string(out, s.as_str());
                },
            }
            proof {
                assert(out@ == o0 + spec_cell_json(row.values@[j as int]));
                if j == 0 {
                    if row.values@.len() == 1 {
                        assert(out@ =~= mid + spec_cells_json(row.values@, 0));
                    } else {
                        assert((out@ + ","@) + spec_cells_json(row.values@, 1) =~= mid
                            + spec_cells_json(row.values@, 0));
                    }
                } else {
                    if j as int == row.values@.len() - 1 {
                        assert(out@ =~= mid + spec_cells_json(row.values@, 0));
                    } else {
                        assert((out@ + ","@) + spec_cells_json(row.values@, j as int + 1) =~= mid
                            + spec_cells_json(row.values@, 0));
                    }
                }
            }
            j = j + 1;
        }
        out.append("]]}");
        proof {
            if row.values@.len() == 0 {
                assert(spec_cells_json(row.values@, 0) =~= Seq::<char>::empty());
            }
            assert(out@ =~= old(out)@ + spec_row_request(sheet_name@, *row));
        }
    }

    /// Turns the status and body of a remote answer into the operation's
    /// outcome: success for a 2xx status, `RequestFailed` with status and
    /// body otherwise.
    pub fn interpret_api_response(status: u16, body: &str) -> (r: Result<(), SheetsApiError>)
        ensures
            match r {
                Ok(_) => 200 <= status < 300,
                Err(e) => !(200 <= status < 300) && (e matches SheetsApiError::RequestFailed(m)
                    && m@ == "API request failed with status "@ + dec_of(status as nat) + ": "@
                    + body@),
            },
    {
        if 200 <= status && status < 300 {
            Ok(())
        } else {
            let mut m = String::new();
            m.append("API request failed with status ");
            let st = u64_to_string(status as u64);
            m.append(st.as_str());
            m.append(": ");
            m.append(body);
            proof {
                assert(m@ =~= "API request failed with status "@ + dec_of(status as nat) + ": "@
                    + body@);
            }
            Err(SheetsApiError::RequestFailed(m))
        }
    }
}

} // verus!
