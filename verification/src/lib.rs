//! Core library for managing tabletop-RPG creature ("monster") and spell
//! records and exporting selected subsets to external representations:
//! a flat JSON file, rows of a remote spreadsheet, or a zip archive of
//! per-body-part virtual-tabletop character sheets, together with a
//! renderer that turns a spell record into a one-line chat-macro string.

use vstd::prelude::*;

pub mod clock;
pub mod config;
pub mod export;
pub mod format;
pub mod jsonrender;
pub mod jsonval;
pub mod text;
pub mod urlenc;

use crate::jsonval::JsonValue;

verus! {

/// One body part of a monster. A monster has at least one part; exactly one
/// part is normally flagged as the core part, but the data does not enforce
/// exclusivity, so zero or several core parts must be tolerated.
#[derive(Debug, Clone)]
pub struct Part {
    /// Hit points; absent in some source records.
    pub hp: Option<i32>,
    /// Magic points; -1 is a sentinel for "unknown / none".
    pub mp: i32,
    /// Part name; may be empty for single-part monsters.
    pub name: String,
    /// Core-part flag; absent counts as false.
    pub core: Option<bool>,
    /// Hit (accuracy) statistic, stored as an expected-roll value.
    pub hit_rate: Option<i32>,
    /// Dodge statistic, stored as an expected-roll value.
    pub dodge: Option<i32>,
    /// Damage statistic, already a base value.
    pub damage: Option<i32>,
    /// How many copies of this part the monster has.
    pub part_count: i32,
    /// Free-text special abilities of this part.
    pub special_abilities: String,
    /// Armor (protection) statistic.
    pub armor: i32,
}

/// Whether a part's core flag is set; an absent flag counts as false.
pub open spec fn core_flag(p: Part) -> bool {
    match p.core {
        Some(b) => b,
        None => false,
    }
}

/// One monster record. Immutable during an export; owned by the caller.
#[derive(Debug)]
pub struct Monster {
    /// Monster category.
    pub category: String,
    /// Monster level.
    pub level: i32,
    /// Data revision, kept as its JSON numeral text (for example "2.5").
    pub revision: String,
    /// Opaque source identifier.
    pub data: String,
    /// Illustration reference.
    pub illust: String,
    /// Indoor movement; -1 is a sentinel for "no movement".
    pub movein: i32,
    /// Free-text note on indoor movement.
    pub movein_description: String,
    /// Outdoor movement; -1 is a sentinel for "no movement".
    pub moveon: i32,
    /// Free-text note on outdoor movement.
    pub moveon_description: String,
    /// Monster name.
    pub name: String,
    /// Body parts, in order; normally at least one.
    pub part: Vec<Part>,
    /// Free-text notes.
    pub notes: String,
    /// Initiative statistic.
    pub initiative: i32,
    /// Free-text abilities shared by all parts.
    pub common_abilities: String,
    /// Free-text weakness.
    pub weakness: String,
    /// Numeric weakness value.
    pub weakness_value: i32,
    /// Life resistance, stored as an expected-roll value.
    pub life_resistance: i32,
    /// Fame statistic.
    pub fame: i32,
    /// Mental resistance, stored as an expected-roll value.
    pub mental_resistance: i32,
    /// Unrecognized fields, preserved verbatim as ordered key/value pairs.
    pub extra: Vec<(String, JsonValue)>,
}

/// One spell record. Beyond the name and the school every datum lives in
/// the open field bag and is extracted defensively.
#[derive(Debug)]
pub struct Spell {
    /// Spell name.
    pub name: String,
    /// School (magic category) string.
    pub school: String,
    /// Loosely-typed fields, preserved verbatim as ordered key/value pairs.
    pub extra: Vec<(String, JsonValue)>,
}

}
