//! The export pipeline: a closed set of format converters that turn an
//! in-memory list of monster records into a flat JSON file, rows of a
//! remote spreadsheet, or a zip archive of virtual-tabletop character
//! sheets.

use vstd::prelude::*;
use vstd::string::StringExecFns;
use crate::text::{ascii_lower, ascii_lower_char, str_eq};

pub mod auth;
pub mod google_sheets;
pub mod json;
pub mod palette;
pub mod sheets;
pub mod sheets_api;
pub mod udonarium;

verus! {

/// The export formats the pipeline understands.
#[derive(Debug, Clone, Copy, PartialEq, Eq, Structural)]
pub enum ExportFormat {
    /// A flat JSON file.
    Json,
    /// Rows appended to a remote spreadsheet.
    GoogleSheets,
    /// A zip archive of per-part character sheets.
    Udonarium,
}

/// Destination and format of one export operation.
#[derive(Debug, Clone)]
pub struct ExportConfig {
    /// Output file path, spreadsheet id, or archive path, depending on the
    /// format.
    pub destination: String,
    /// The chosen export format.
    pub format: ExportFormat,
}

/// The format tag denoted by a string, compared case-insensitively over
/// ASCII letters: "json"; "sheets", "google-sheets" or "googlesheets";
/// "udonarium". Anything else denotes no format.
pub open spec fn spec_parse_format(s: Seq<char>) -> Option<ExportFormat> {
    let l = s.map_values(|c: char| ascii_lower_char(c));
    if l == "json"@ {
        Some(ExportFormat::Json)
    } else if l == "sheets"@ || l == "google-sheets"@ || l == "googlesheets"@ {
        Some(ExportFormat::GoogleSheets)
    } else if l == "udonarium"@ {
        Some(ExportFormat::Udonarium)
    } else {
        None
    }
}

/// The message reported for an unknown format string.
pub open spec fn spec_unknown_format_message(s: Seq<char>) -> Seq<char> {
    "Unknown export format: '"@ + s + "'. Supported: json, sheets, udonarium"@
}

/// Parses a format tag, case-insensitively, into an `ExportFormat`.
pub fn parse_export_format(s: &str) -> (r: Result<ExportFormat, String>)
    ensures
        match r {
            Ok(f) => spec_parse_format(s@) == Some(f),
            Err(m) => spec_parse_format(s@) is None && m@ == spec_unknown_format_message(s@),
        },
{
    let lower = ascii_lower(s);
    if str_eq(lower.as_str(), "json") {
        Ok(ExportFormat::Json)
    } else if str_eq(lower.as_str(), "sheets") || str_eq(lower.as_str(), "google-sheets")
        || str_eq(lower.as_str(), "googlesheets") {
        Ok(ExportFormat::GoogleSheets)
    } else if str_eq(lower.as_str(), "udonarium") {
        Ok(ExportFormat::Udonarium)
    } else {
        let mut m = String::new();
        m.append("Unknown export format: '");
        m.append(s);
        m.append("'. Supported: json, sheets, udonarium");
        proof {
            assert(m@ =~= spec_unknown_format_message(s@));
        }
        Err(m)
    }
}

impl core::str::FromStr for ExportFormat {
    type Err = String;

    fn from_str(s: &str) -> Result<Self, Self::Err> {
        parse_export_format(s)
    }
}

/// What can go wrong during an export.
#[derive(Debug, Clone, PartialEq, Eq)]
pub enum ExportError {
    /// A file could not be read or written.
    IoError(String),
    /// JSON could not be produced or understood.
    SerializationError(String),
    /// The credential lifecycle failed.
    AuthError(auth::AuthError),
    /// The spreadsheet API failed.
    SheetsApiError(sheets_api::SheetsApiError),
    /// The spreadsheet strategy failed outside the API client.
    GoogleSheetsError(String),
    /// The destination is missing, empty or too short.
    InvalidDestination(String),
    /// The format tag names no known format.
    UnsupportedFormat(String),
}

/// The message text of an `ExportError` value.
pub open spec fn spec_export_error_message(e: ExportError) -> Seq<char> {
    match e {
        ExportError::IoError(s) => "IO error: "@ + s@,
        ExportError::SerializationError(s) => "Serialization error: "@ + s@,
        ExportError::AuthError(a) => "Authentication error: "@ + auth::spec_auth_error_message(
            a,
        ),
        ExportError::SheetsApiError(a) => "Google Sheets API error: "@
            + sheets_api::spec_sheets_error_message(a),
        ExportError::GoogleSheetsError(s) => "Google Sheets error: "@ + s@,
        ExportError::InvalidDestination(s) => "Invalid export destination: "@ + s@,
        ExportError::UnsupportedFormat(s) => "Export format not supported: "@ + s@,
    }
}

impl ExportError {
    /// Renders the error as a one-line message.
    pub fn message(&self) -> (r: String)
        ensures
            r@ == spec_export_error_message(*self),
    {
        let mut m = String::new();
        match self {
            ExportError::IoError(s) => {
                m.append("IO error: ");
                m.append(s.as_str());
            },
            ExportError::SerializationError(s) => {
                m.append("Serialization error: ");
                m.append(s.as_str());
            },
            ExportError::AuthError(a) => {
                m.append("Authentication error: ");
                let inner = a.message();
                m.append(inner.as_str());
            },
            ExportError::SheetsApiError(a) => {
                m.append("Google Sheets API error: ");
                let inner = a.message();
                m.append(inner.as_str());
            },
            ExportError::GoogleSheetsError(s) => {
                m.append("Google Sheets error: ");
                m.append(s.as_str());
            },
            ExportError::InvalidDestination(s) => {
                m.append("Invalid export destination: ");
                m.append(s.as_str());
            },
            ExportError::UnsupportedFormat(s) => {
                m.append("Export format not supported: ");
                m.append(s.as_str());
            },
        }
        proof {
            assert(m@ =~= spec_export_error_message(*self));
        }
        m
    }
}

/// What an export strategy decides to do; the caller performs the I/O.
#[derive(Debug)]
pub enum ExportAction {
    /// Write text to a file; its parent directory must exist.
    WriteFile {
        /// Destination file path.
        path: String,
        /// The whole file text.
        content: String,
    },
    /// Append every record to the named sheet of a spreadsheet, one
    /// record at a time, through the spreadsheet API client.
    AppendToSpreadsheet {
        /// The spreadsheet id.
        spreadsheet_id: String,
        /// The sheet to append to.
        sheet_name: String,
    },
    /// Write archive bytes to a file, creating its parent directory
    /// first.
    WriteArchive {
        /// Destination archive path.
        path: String,
        /// The whole archive.
        bytes: Vec<u8>,
    },
}

/// What an export with the given format, records and destination owes:
/// the JSON strategy accepts any list and yields the file text; the
/// spreadsheet strategy rejects a bad destination, then an empty list,
/// and otherwise names the append target; the virtual-tabletop strategy
/// rejects an empty list and otherwise yields the archive bytes.
pub open spec fn spec_plan_outcome(
    format: ExportFormat,
    data: Seq<crate::Monster>,
    dest: Seq<char>,
    r: Result<ExportAction, ExportError>,
) -> bool {
    match format {
        ExportFormat::Json => r matches Ok(a) && (a matches ExportAction::WriteFile {
            path,
            content,
        } && path@ == dest && (exists|v: crate::jsonval::JsonValue|
            #[trigger] json::monsters_value_matches(data, v) && content@
                == crate::jsonrender::spec_render_pretty(v, Seq::empty())) && (data.len() == 0
            ==> content@ == "[]"@)),
        ExportFormat::GoogleSheets => if dest.len() < 20 {
            r matches Err(e) && (e matches ExportError::InvalidDestination(m) && m@ == if dest.len()
                == 0 {
                google_sheets::spec_empty_id_message()
            } else {
                google_sheets::spec_short_id_message(dest)
            })
        } else if data.len() == 0 {
            r matches Err(e) && (e matches ExportError::GoogleSheetsError(m) && m@
                == "Cannot export empty monster list. Please filter data first."@)
        } else {
            r matches Ok(a) && (a matches ExportAction::AppendToSpreadsheet {
                spreadsheet_id,
                sheet_name,
            } && spreadsheet_id@ == dest && sheet_name@ == "search"@)
        },
        ExportFormat::Udonarium => if data.len() == 0 {
            r matches Err(e) && (e matches ExportError::GoogleSheetsError(m) && m@
                == "Cannot export empty monster list"@)
        } else {
            &&& udonarium::zip_writer::entries_fit(udonarium::spec_archive_entries(data))
                ==> r is Ok
            &&& match r {
                Ok(a) => a matches ExportAction::WriteArchive { path, bytes } && path@ == dest
                    && bytes@ == udonarium::zip_writer::zip_bytes_of(
                    udonarium::spec_archive_entries(data),
                ),
                Err(e) => e matches ExportError::GoogleSheetsError(m)
                    && crate::text::starts_with_seq(m@, "Failed to create ZIP file: "@),
            }
        },
    }
}

/// One export strategy, selected by format.
#[derive(Debug)]
pub enum Exporter {
    /// The flat-file JSON strategy.
    Json(json::JsonExporter),
    /// The remote-spreadsheet strategy.
    GoogleSheets(google_sheets::GoogleSheetsExporter),
    /// The virtual-tabletop archive strategy.
    Udonarium(udonarium::UdonariumExporter),
}

/// The format a strategy serves.
pub open spec fn format_of(e: Exporter) -> ExportFormat {
    match e {
        Exporter::Json(_) => ExportFormat::Json,
        Exporter::GoogleSheets(_) => ExportFormat::GoogleSheets,
        Exporter::Udonarium(_) => ExportFormat::Udonarium,
    }
}

impl Exporter {
    /// Runs the strategy's own work on the records: every check and every
    /// conversion, up to the action the caller must perform.
    pub fn export(&self, data: &Vec<crate::Monster>, config: &ExportConfig) -> (r: Result<
        ExportAction,
        ExportError,
    >)
        ensures
            spec_plan_outcome(format_of(*self), data@, config.destination@, r),
    {
        match self {
            Exporter::Json(_) => {
                let content = json::JsonExporter::render_monsters(data);
                Ok(
                    ExportAction::WriteFile {
                        path: config.destination.clone(),
                        content,
                    },
                )
            },
            Exporter::GoogleSheets(_) => {
                match google_sheets::validate_spreadsheet_id(config.destination.as_str()) {
                    Err(e) => Err(e),
                    Ok(_) => {
                        if data.len() == 0 {
                            let mut m = String::new();
                            m.append("Cannot export empty monster list. Please filter data first.");
                            proof {
                                assert(m@
                                    =~= "Cannot export empty monster list. Please filter data first."@);
                            }
                            Err(ExportError::GoogleSheetsError(m))
                        } else {
                            Ok(
                                ExportAction::AppendToSpreadsheet {
                                    spreadsheet_id: config.destination.clone(),
                                    sheet_name: String::from_str("search"),
                                },
                            )
                        }
                    },
                }
            },
            Exporter::Udonarium(_) => {
                if data.len() == 0 {
                    let mut m = String::new();
                    m.append("Cannot export empty monster list");
                    proof {
                        assert(m@ =~= "Cannot export empty monster list"@);
                    }
                    Err(ExportError::GoogleSheetsError(m))
                } else {
                    match udonarium::UdonariumExporter::build_archive(data) {
                        Ok(bytes) => Ok(
                            ExportAction::WriteArchive {
                                path: config.destination.clone(),
                                bytes,
                            },
                        ),
                        Err(e) => {
                            let mut m = String::new();
                            m.append("Failed to create ZIP file: ");
                            m.append(e.as_str());
                            proof {
                                assert(m@.subrange(0, "Failed to create ZIP file: "@.len() as int)
                                    =~= "Failed to create ZIP file: "@);
                            }
                            Err(ExportError::GoogleSheetsError(m))
                        },
                    }
                }
            },
        }
    }

    /// The strategy's display name.
    pub fn name(&self) -> (r: String)
        ensures
            r@ == match *self {
                Exporter::Json(_) => "JSON Exporter"@,
                Exporter::GoogleSheets(_) => "Google Sheets Exporter"@,
                Exporter::Udonarium(_) => "Udonarium Exporter"@,
            },
    {
        let mut r = String::new();
        match self {
            Exporter::Json(_) => {
                r.append("JSON Exporter");
            },
            Exporter::GoogleSheets(_) => {
                r.append("Google Sheets Exporter");
            },
            Exporter::Udonarium(_) => {
                r.append("Udonarium Exporter");
            },
        }
        proof {
            assert(r@ =~= match *self {
                Exporter::Json(_) => "JSON Exporter"@,
                Exporter::GoogleSheets(_) => "Google Sheets Exporter"@,
                Exporter::Udonarium(_) => "Udonarium Exporter"@,
            });
        }
        r
    }
}

/// Builds the strategy instance for a format.
pub struct ExporterFactory;

impl ExporterFactory {
    /// The strategy serving a format; the format set is closed, so this
    /// always succeeds.
    pub fn create_exporter(format: ExportFormat) -> (r: Result<Exporter, ExportError>)
        ensures
            r matches Ok(e) && format_of(e) == format,
    {
        match format {
            ExportFormat::Json => Ok(Exporter::Json(json::JsonExporter)),
            ExportFormat::GoogleSheets => Ok(
                Exporter::GoogleSheets(google_sheets::GoogleSheetsExporter),
            ),
            ExportFormat::Udonarium => Ok(Exporter::Udonarium(udonarium::UdonariumExporter)),
        }
    }
}

/// Drives one export end to end, up to the caller's I/O: parses the
/// format tag, rejects an unknown one, builds the matching strategy and
/// delegates to it.
pub fn plan_export(data: &Vec<crate::Monster>, destination: &str, format: &str) -> (r: Result<
    ExportAction,
    ExportError,
>)
    ensures
        match spec_parse_format(format@) {
            None => r matches Err(e) && (e matches ExportError::UnsupportedFormat(m) && m@
                == spec_unknown_format_message(format@)),
            Some(f) => spec_plan_outcome(f, data@, destination@, r),
        },
{
    let parsed = match parse_export_format(format) {
        Ok(f) => f,
        Err(m) => {
            return Err(ExportError::UnsupportedFormat(m));
        },
    };
    let exporter = match ExporterFactory::create_exporter(parsed) {
        Ok(e) => e,
        Err(e) => {
            return Err(e);
        },
    };
    let mut dest = String::new();
    dest.append(destination);
    let config = ExportConfig { destination: dest, format: parsed };
    let r = exporter.export(data, &config);
    proof {
        assert(config.destination@ =~= destination@);
    }
    r
}

} // verus!
