//! Maps one monster record, part by part, to a fixed-width spreadsheet row
//! layout: two rows per body part, 54 cells per row, unused cells absent.

use vstd::prelude::*;
use crate::{core_flag, Monster, Part};
use crate::text::{
    chars_to_string, i32_to_string, int_dec_of, replace_all, replace_all_chars, str_to_chars,
};
use vstd::string::StringExecFns;

verus! {

/// One spreadsheet row: cell values addressed by 0-based column index;
/// an absent cell is `None`.
#[derive(Debug, Clone)]
pub struct SheetRow {
    /// The cell values, one per column.
    pub values: Vec<Option<String>>,
}

/// One output row together with its destination row number.
#[derive(Debug, Clone)]
pub struct SheetOutput {
    /// Destination row number (1-indexed).
    pub row_number: usize,
    /// The cell values, one per 0-based column.
    pub values: Vec<Option<String>>,
    /// Whether this row takes part in a merge.
    pub is_merged_row: bool,
}

/// The view of an optional cell value.
pub open spec fn opt_view(o: Option<String>) -> Option<Seq<char>> {
    match o {
        Some(s) => Some(s@),
        None => None,
    }
}

/// The weakness text rule: "エネルギー" becomes "E", then "ダメージ"
/// becomes "ダメ", then "属性" is deleted, in that order.
pub open spec fn spec_transform_weakness(s: Seq<char>) -> Seq<char> {
    replace_all(
        replace_all(replace_all(s, "エネルギー"@, "E"@), "ダメージ"@, "ダメ"@),
        "属性"@,
        ""@,
    )
}

/// A part's display text: the monster name, with the part name appended in
/// parentheses on a second line when the part has one, and a star prefix
/// when the part is the core part.
pub open spec fn spec_part_display(m: Monster, p: Part) -> Seq<char> {
    let base = if p.name@.len() == 0 {
        m.name@
    } else {
        m.name@ + "\n("@ + p.name@ + ")"@
    };
    if core_flag(p) {
        "★"@ + base
    } else {
        base
    }
}

/// A movement cell: "-" for the no-movement sentinel, the bare value when
/// the note is empty, else the value with the note in parentheses on a
/// second line.
pub open spec fn spec_movement(v: i32, note: Seq<char>) -> Seq<char> {
    if v == -1 {
        "-"@
    } else if note.len() == 0 {
        int_dec_of(v as int)
    } else {
        int_dec_of(v as int) + "\n("@ + note + ")"@
    }
}

/// The content of cell `j` of a part's odd row. `first` says whether this
/// is the monster's first part.
pub open spec fn spec_odd_cell(m: Monster, p: Part, first: bool, j: int) -> Option<Seq<char>> {
    if j == 0 {
        Some(spec_part_display(m, p))
    } else if j == 11 {
        match p.hp {
            Some(h) => Some(int_dec_of(h as int)),
            None => None,
        }
    } else if j == 15 {
        if p.mp >= 0 {
            Some(int_dec_of(p.mp as int))
        } else {
            Some("-"@)
        }
    } else if j == 17 {
        Some(int_dec_of(p.armor as int))
    } else if j == 19 {
        if first {
            Some(int_dec_of(m.initiative as int))
        } else {
            Some("-"@)
        }
    } else if j == 21 {
        if first {
            Some(int_dec_of(m.life_resistance as int))
        } else {
            Some("-"@)
        }
    } else if j == 23 {
        if first {
            Some(int_dec_of(m.mental_resistance as int))
        } else {
            Some("-"@)
        }
    } else if j == 25 {
        Some("3"@)
    } else if j == 27 {
        Some(spec_movement(m.moveon, m.moveon_description@))
    } else if j == 29 {
        Some(spec_movement(m.movein, m.movein_description@))
    } else if j == 31 {
        match p.hit_rate {
            Some(h) => Some(int_dec_of(h as int)),
            None => None,
        }
    } else if j == 33 {
        match p.dodge {
            Some(d) => Some(int_dec_of(d as int)),
            None => None,
        }
    } else if j == 35 {
        Some(m.data@)
    } else if j == 38 {
        if m.common_abilities@.len() > 0 {
            Some(m.common_abilities@)
        } else {
            None
        }
    } else if j == 48 {
        if first {
            Some(int_dec_of(m.fame as int) + "/"@ + int_dec_of(m.weakness_value as int))
        } else {
            Some("-/-"@)
        }
    } else {
        None
    }
}

/// The content of cell `j` of a part's even row.
pub open spec fn spec_even_cell(m: Monster, p: Part, first: bool, j: int) -> Option<Seq<char>> {
    if j == 38 {
        if p.special_abilities@.len() > 0 {
            Some(p.special_abilities@)
        } else {
            None
        }
    } else if j == 48 {
        if first {
            if m.weakness@.len() > 0 {
                Some(spec_transform_weakness(m.weakness@))
            } else {
                Some("-"@)
            }
        } else {
            Some("-"@)
        }
    } else {
        None
    }
}

/// What the output row at position `k` of a monster's transform must hold:
/// rows come in odd/even pairs, two per part, numbered from `start_row`.
pub open spec fn sheet_row_matches(m: Monster, start_row: int, k: int, out: SheetOutput) -> bool {
    let p = m.part@[k / 2];
    let first = k / 2 == 0;
    &&& out.row_number == start_row + k
    &&& out.is_merged_row == false
    &&& out.values@.len() == 54
    &&& if k % 2 == 0 {
        forall|j: int| 0 <= j < 54 ==> opt_view(#[trigger] out.values@[j]) == spec_odd_cell(
            m,
            p,
            first,
            j,
        )
    } else {
        forall|j: int| 0 <= j < 54 ==> opt_view(#[trigger] out.values@[j]) == spec_even_cell(
            m,
            p,
            first,
            j,
        )
    }
}

/// The transformation engine from monster records to sheet rows.
pub struct DataTransformer;

impl DataTransformer {
    /// The weakness text rule, applied before writing the weakness cell.
    pub fn transform_weakness(weakness: &str) -> (r: String)
        ensures
            r@ == spec_transform_weakness(weakness@),
    {
        let s = str_to_chars(weakness);
        let p1 = str_to_chars("エネルギー");
        let r1 = str_to_chars("E");
        let t1 = replace_all_chars(&s, &p1, &r1);
        let p2 = str_to_chars("ダメージ");
        let r2 = str_to_chars("ダメ");
        let t2 = replace_all_chars(&t1, &p2, &r2);
        let p3 = str_to_chars("属性");
        let r3 = str_to_chars("");
        let t3 = replace_all_chars(&t2, &p3, &r3);
        chars_to_string(&t3)
    }

    /// A row of 54 absent cells.
    fn empty_row() -> (r: Vec<Option<String>>)
        ensures
            r@.len() == 54,
            forall|j: int| 0 <= j < 54 ==> (#[trigger] r@[j]) is None,
    {
        let mut row: Vec<Option<String>> = Vec::new();
        let mut k: usize = 0;
        while k < 54
            invariant
                k <= 54,
                row@.len() == k,
                forall|j: int| 0 <= j < k ==> (#[trigger] row@[j]) is None,
            decreases 54 - k,
        {
            row.push(None);
            k = k + 1;
        }
        row
    }

    /// The display text of a part, star prefix and parenthesized part name
    /// included.
    fn part_display(monster: &Monster, part: &Part) -> (r: String)
        ensures
            r@ == spec_part_display(*monster, *part),
    {
        let mut base = String::new();
        base.append(monster.name.as_str());
        if !part.name.as_str().is_empty() {
            base.append("\n(");
            base.append(part.name.as_str());
            base.append(")");
        }
        let is_core = match part.core {
            Some(b) => b,
            None => false,
        };
        if is_core {
            let mut starred = String::new();
            starred.append("★");
            starred.append(base.as_str());
            proof {
                assert(Seq::<char>::empty() + "★"@ + base@ =~= "★"@ + base@);
            }
            starred
        } else {
            base
        }
    }

    /// A movement cell's text.
    pub fn movement_text(v: i32, note: &str) -> (r: String)
        ensures
            r@ == spec_movement(v, note@),
    {
        if v == -1 {
            let mut r = String::new();
            r.append("-");
            proof {
                assert(Seq::<char>::empty() + "-"@ =~= "-"@);
            }
            r
        } else if note.is_empty() {
            i32_to_string(v)
        } else {
            let mut r = i32_to_string(v);
            r.append("\n(");
            r.append(note);
            r.append(")");
            r
        }
    }

    /// The odd row of one part: identity, resources, statistics and the
    /// fame/weakness-value cell.
    fn create_odd_row(monster: &Monster, part: &Part, is_first_part: bool) -> (r: Vec<
        Option<String>,
    >)
        ensures
            r@.len() == 54,
            forall|j: int| 0 <= j < 54 ==> opt_view(#[trigger] r@[j]) == spec_odd_cell(
                *monster,
                *part,
                is_first_part,
                j,
            ),
    {
        let mut row = Self::empty_row();

        row[0] = Some(Self::part_display(monster, part));

        match part.hp {
            Some(h) => {
                row[11] = Some(i32_to_string(h));
            },
            None => {},
        }

        if part.mp >= 0 {
            row[15] = Some(i32_to_string(part.mp));
        } else {
            let mut dash = String::new();
            dash.append("-");
            row[15] = Some(dash);
        }

        row[17] = Some(i32_to_string(part.armor));

        if is_first_part {
            row[19] = Some(i32_to_string(monster.initiative));
        } else {
            let mut dash = String::new();
            dash.append("-");
            row[19] = Some(dash);
        }

        if is_first_part {
            row[21] = Some(i32_to_string(monster.life_resistance));
        } else {
            let mut dash = String::new();
            dash.append("-");
            row[21] = Some(dash);
        }

        if is_first_part {
            row[23] = Some(i32_to_string(monster.mental_resistance));
        } else {
            let mut dash = String::new();
            dash.append("-");
            row[23] = Some(dash);
        }

        let mut three = String::new();
        three.append("3");
        row[25] = Some(three);

        row[27] = Some(Self::movement_text(monster.moveon, monster.moveon_description.as_str()));
        row[29] = Some(Self::movement_text(monster.movein, monster.movein_description.as_str()));

        match part.hit_rate {
            Some(h) => {
                row[31] = Some(i32_to_string(h));
            },
            None => {},
        }

        match part.dodge {
            Some(d) => {
                row[33] = Some(i32_to_string(d));
            },
            None => {},
        }

        let mut data_cell = String::new();
        data_cell.append(monster.data.as_str());
        row[35] = Some(data_cell);

        if !monster.common_abilities.as_str().is_empty() {
            let mut ca = String::new();
            ca.append(monster.common_abilities.as_str());
            row[38] = Some(ca);
        }

        if is_first_part {
            let mut fw = i32_to_string(monster.fame);
            fw.append("/");
            let wv = i32_to_string(monster.weakness_value);
            fw.append(wv.as_str());
            row[48] = Some(fw);
        } else {
            let mut dash = String::new();
            dash.append("-/-");
            row[48] = Some(dash);
        }

        proof {
            assert forall|j: int| 0 <= j < 54 implies opt_view(#[trigger] row@[j])
                == spec_odd_cell(*monster, *part, is_first_part, j) by {
                assert(Seq::<char>::empty() + "-"@ =~= "-"@);
                assert(Seq::<char>::empty() + "3"@ =~= "3"@);
                assert(Seq::<char>::empty() + "-/-"@ =~= "-/-"@);
                assert(Seq::<char>::empty() + monster.data@ =~= monster.data@);
                assert(Seq::<char>::empty() + monster.common_abilities@
                    =~= monster.common_abilities@);
            }
        }
        row
    }

    /// The even row of one part: the part's special abilities and, for the
    /// first part, the transformed weakness text.
    fn create_even_row(monster: &Monster, part: &Part, is_first_part: bool) -> (r: Vec<
        Option<String>,
    >)
        ensures
            r@.len() == 54,
            forall|j: int| 0 <= j < 54 ==> opt_view(#[trigger] r@[j]) == spec_even_cell(
                *monster,
                *part,
                is_first_part,
                j,
            ),
    {
        let mut row = Self::empty_row();

        if !part.special_abilities.as_str().is_empty() {
            let mut sa = String::new();
            sa.append(part.special_abilities.as_str());
            row[38] = Some(sa);
        }

        if is_first_part {
            if !monster.weakness.as_str().is_empty() {
                row[48] = Some(Self::transform_weakness(monster.weakness.as_str()));
            } else {
                let mut dash = String::new();
                dash.append("-");
                row[48] = Some(dash);
            }
        } else {
            let mut dash = String::new();
            dash.append("-");
            row[48] = Some(dash);
        }

        proof {
            assert forall|j: int| 0 <= j < 54 implies opt_view(#[trigger] row@[j])
                == spec_even_cell(*monster, *part, is_first_part, j) by {
                assert(Seq::<char>::empty() + "-"@ =~= "-"@);
                assert(Seq::<char>::empty() + part.special_abilities@
                    =~= part.special_abilities@);
            }
        }
        row
    }

    /// Emits, for each body part of the monster, an odd and an even row at
    /// row numbers `start_row + 2 * partIndex` and the one after it.
    pub fn transform_monster(monster: &Monster, start_row: usize) -> (r: Vec<SheetOutput>)
        requires
            start_row + 2 * monster.part@.len() <= usize::MAX,
        ensures
            r@.len() == 2 * monster.part@.len(),
            forall|k: int| 0 <= k < r@.len() ==> sheet_row_matches(
                *monster,
                start_row as int,
                k,
                #[trigger] r@[k],
            ),
    {
        let mut rows: Vec<SheetOutput> = Vec::new();
        let mut part_index: usize = 0;
        while part_index < monster.part.len()
            invariant
                part_index <= monster.part@.len(),
                start_row + 2 * monster.part@.len() <= usize::MAX,
                rows@.len() == 2 * part_index,
                forall|k: int| 0 <= k < rows@.len() ==> sheet_row_matches(
                    *monster,
                    start_row as int,
                    k,
                    #[trigger] rows@[k],
                ),
            decreases monster.part@.len() - part_index,
        {
            let is_first_part = part_index == 0;
            let part = &monster.part[part_index];

            let odd_row = Self::create_odd_row(monster, part, is_first_part);
            rows.push(SheetOutput {
                row_number: start_row + part_index * 2,
                values: odd_row,
                is_merged_row: false,
            });

            let even_row = Self::create_even_row(monster, part, is_first_part);
            rows.push(SheetOutput {
                row_number: start_row + part_index * 2 + 1,
                values: even_row,
                is_merged_row: false,
            });

            part_index = part_index + 1;
        }
        rows
    }
}

} // verus!
