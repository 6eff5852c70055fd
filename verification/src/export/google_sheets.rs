//! The spreadsheet export strategy's destination checks. The remote
//! traffic itself is driven by the caller through the spreadsheet API
//! client, one record at a time.

use vstd::prelude::*;
use vstd::string::StringExecFns;
use super::ExportError;
use vstd::string::StrSliceExecFns;

verus! {

/// The message rejecting an empty spreadsheet id.
pub open spec fn spec_empty_id_message() -> Seq<char> {
    "Spreadsheet ID cannot be empty.\nUsage: gm select ... --export sheets --output <spreadsheet-id>\nExample: gm select -l 6 --export sheets --output 1BxiMVs0XRA5nFMKUVfIz487hJblLvZQvq_fHM9GjMhs"@
}

/// The message rejecting a too-short spreadsheet id.
pub open spec fn spec_short_id_message(id: Seq<char>) -> Seq<char> {
    "Invalid spreadsheet ID '"@ + id
        + "'. \nSpreadsheet IDs are typically 40+ characters long.\nYou can find your spreadsheet ID in the URL:\nhttps://docs.google.com/spreadsheets/d/<SPREADSHEET_ID>/edit"@
}

/// Accepts an export destination as a spreadsheet id only when it is
/// non-empty and at least 20 characters long.
pub fn validate_spreadsheet_id(id: &str) -> (r: Result<(), ExportError>)
    ensures
        match r {
            Ok(_) => id@.len() >= 20,
            Err(e) => id@.len() < 20 && (e matches ExportError::InvalidDestination(m) && m@
                == if id@.len() == 0 {
                spec_empty_id_message()
            } else {
                spec_short_id_message(id@)
            }),
        },
{
    if id.is_empty() {
        let mut m = String::new();
        m.append(
            "Spreadsheet ID cannot be empty.\nUsage: gm select ... --export sheets --output <spreadsheet-id>\nExample: gm select -l 6 --export sheets --output 1BxiMVs0XRA5nFMKUVfIz487hJblLvZQvq_fHM9GjMhs",
        );
        return Err(ExportError::InvalidDestination(m));
    }
    if id.unicode_len() < 20 {
        let mut m = String::new();
        m.append("Invalid spreadsheet ID '");
        m.append(id);
        m.append(
            "'. \nSpreadsheet IDs are typically 40+ characters long.\nYou can find your spreadsheet ID in the URL:\nhttps://docs.google.com/spreadsheets/d/<SPREADSHEET_ID>/edit",
        );
        proof {
            assert(m@ =~= spec_short_id_message(id@));
        }
        return Err(ExportError::InvalidDestination(m));
    }
    Ok(())
}

/// The spreadsheet export strategy.
#[derive(Debug)]
pub struct GoogleSheetsExporter;

impl GoogleSheetsExporter {
    /// The strategy's display name.
    pub fn name(&self) -> (r: String)
        ensures
            r@ == "Google Sheets Exporter"@,
    {
        let mut r = String::new();
        r.append("Google Sheets Exporter");
        proof {
            assert(r@ =~= "Google Sheets Exporter"@);
        }
        r
    }
}

} // verus!
