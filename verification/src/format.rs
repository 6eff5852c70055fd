//! Formats the summaries of query filter conditions that the command
//! line prints when a search matches nothing.

use vstd::prelude::*;
use vstd::string::StringExecFns;
use crate::text::{i32_to_string, int_dec_of};

verus! {

/// The view of an optional string slice.
pub open spec fn opt_sv(o: Option<&str>) -> Option<Seq<char>> {
    match o {
        Some(s) => Some(s@),
        None => None,
    }
}

/// Condition lines joined with newlines, from line `i` on.
pub open spec fn spec_joined_lines(lines: Seq<Seq<char>>, i: int) -> Seq<char>
    decreases lines.len() - i,
{
    if i < 0 || i >= lines.len() {
        Seq::empty()
    } else if i == lines.len() - 1 {
        lines[i]
    } else {
        lines[i] + "\n"@ + spec_joined_lines(lines, i + 1)
    }
}

/// A quoted text condition line.
pub open spec fn spec_text_line(label: Seq<char>, value: Seq<char>) -> Seq<char> {
    "  - "@ + label + ": \""@ + value + "\""@
}

/// A numeric condition line.
pub open spec fn spec_num_line(label: Seq<char>, value: i32) -> Seq<char> {
    "  - "@ + label + ": "@ + int_dec_of(value as int)
}

/// An optional quoted text condition, as zero or one line.
pub open spec fn spec_opt_text_line(label: Seq<char>, value: Option<Seq<char>>) -> Seq<
    Seq<char>,
> {
    match value {
        Some(v) => seq![spec_text_line(label, v)],
        None => seq![],
    }
}

/// An optional numeric condition, as zero or one line.
pub open spec fn spec_opt_num_line(label: Seq<char>, value: Option<i32>) -> Seq<Seq<char>> {
    match value {
        Some(v) => seq![spec_num_line(label, v)],
        None => seq![],
    }
}

/// The no-match summary: empty when no condition was given, else the
/// header line and one line per condition.
pub open spec fn spec_conditions_summary(header: Seq<char>, lines: Seq<Seq<char>>) -> Seq<
    char,
> {
    if lines.len() == 0 {
        Seq::empty()
    } else {
        header + "\n"@ + spec_joined_lines(lines, 0)
    }
}

/// The condition lines of a monster query: name, level and category, in
/// that order, each only when given.
pub open spec fn spec_monster_condition_lines(
    name: Option<Seq<char>>,
    level: Option<i32>,
    category: Option<Seq<char>>,
) -> Seq<Seq<char>> {
    spec_opt_text_line("name"@, name) + spec_opt_num_line("level"@, level) + spec_opt_text_line(
        "category"@,
        category,
    )
}

/// The condition lines of a spell query: name, school, level, rank,
/// school variant and god, in that order, each only when given.
pub open spec fn spec_spell_condition_lines(
    name: Option<Seq<char>>,
    school: Option<Seq<char>>,
    level: Option<i32>,
    rank: Option<i32>,
    school_variant: Option<Seq<char>>,
    god: Option<Seq<char>>,
) -> Seq<Seq<char>> {
    spec_opt_text_line("name"@, name) + spec_opt_text_line("school"@, school)
        + spec_opt_num_line("level"@, level) + spec_opt_num_line("rank"@, rank)
        + spec_opt_text_line("schoolVariant"@, school_variant) + spec_opt_text_line(
        "god"@,
        god,
    )
}

/// Appends one quoted text condition line.
fn push_text_line(lines: &mut Vec<String>, label: &str, value: &str)
    ensures
        final(lines)@.len() == old(lines)@.len() + 1,
        forall|k: int| 0 <= k < old(lines)@.len() ==> final(lines)@[k] == old(lines)@[k],
        final(lines)@[old(lines)@.len() as int]@ == spec_text_line(label@, value@),
{
    let mut line = String::new();
    line.append("  - ");
    line.append(label);
    line.append(": \"");
    line.append(value);
    line.append("\"");
    proof {
        assert(line@ =~= spec_text_line(label@, value@));
    }
    lines.push(line);
}

/// Appends one numeric condition line.
fn push_num_line(lines: &mut Vec<String>, label: &str, value: i32)
    ensures
        final(lines)@.len() == old(lines)@.len() + 1,
        forall|k: int| 0 <= k < old(lines)@.len() ==> final(lines)@[k] == old(lines)@[k],
        final(lines)@[old(lines)@.len() as int]@ == spec_num_line(label@, value),
{
    let mut line = String::new();
    line.append("  - ");
    line.append(label);
    line.append(": ");
    let num = i32_to_string(value);
    line.append(num.as_str());
    proof {
        assert(line@ =~= spec_num_line(label@, value));
    }
    lines.push(line);
}

/// The summary text for a header and built lines.
fn render_summary(header: &str, lines: &Vec<String>) -> (r: String)
    ensures
        r@ == spec_conditions_summary(header@, lines@.map_values(|s: String| s@)),
{
    let ghost lv = lines@.map_values(|s: String| s@);
    if lines.len() == 0 {
        let r = String::new();
        proof {
            assert(r@ =~= spec_conditions_summary(header@, lv));
        }
        return r;
    }
    let mut r = String::new();
    r.append(header);
    r.append("\n");
    let ghost prefix = r@;
    let mut i: usize = 0;
    while i < lines.len()
        invariant
            i <= lines@.len(),
            lv == lines@.map_values(|s: String| s@),
            lv.len() == lines@.len(),
            lines@.len() > 0,
            i == 0 ==> r@ == prefix,
            0 < i < lines@.len() ==> r@ + "\n"@ + spec_joined_lines(lv, i as int) =~= prefix
                + spec_joined_lines(lv, 0),
            i > 0 && i == lines@.len() ==> r@ =~= prefix + spec_joined_lines(lv, 0),
        decreases lines@.len() - i,
    {
        if i > 0 {
            r.append("\n");
        }
        let ghost r0 = r@;
        r.append(lines[i].as_str());
        proof {
            assert(r@ == r0 + lv[i as int]);
            if i == 0 {
                if lines@.len() == 1 {
                    assert(r@ =~= prefix + spec_joined_lines(lv, 0));
                } else {
                    assert((r@ + "\n"@) + spec_joined_lines(lv, 1) =~= prefix
                        + spec_joined_lines(lv, 0));
                }
            } else {
                if i as int == lines@.len() - 1 {
                    assert(r@ =~= prefix + spec_joined_lines(lv, 0));
                } else {
                    assert((r@ + "\n"@) + spec_joined_lines(lv, i as int + 1) =~= prefix
                        + spec_joined_lines(lv, 0));
                }
            }
        }
        i = i + 1;
    }
    proof {
        assert(prefix =~= header@ + "\n"@);
        assert(r@ =~= spec_conditions_summary(header@, lv));
    }
    r
}

/// The no-match summary of a monster query: empty when no condition was
/// given, else a header and one line per given condition.
pub fn format_monster_filter_conditions(
    name: Option<&str>,
    level: Option<i32>,
    category: Option<&str>,
) -> (r: String)
    ensures
        r@ == spec_conditions_summary(
            "以下の条件でマッチするモンスターが見つかりません"@,
            spec_monster_condition_lines(opt_sv(name), level, opt_sv(category)),
        ),
{
    let mut lines: Vec<String> = Vec::new();
    match name {
        Some(n) => push_text_line(&mut lines, "name", n),
        None => {},
    }
    match level {
        Some(l) => push_num_line(&mut lines, "level", l),
        None => {},
    }
    match category {
        Some(c) => push_text_line(&mut lines, "category", c),
        None => {},
    }
    proof {
        assert(lines@.map_values(|s: String| s@) =~= spec_monster_condition_lines(
            opt_sv(name),
            level,
            opt_sv(category),
        ));
    }
    render_summary("以下の条件でマッチするモンスターが見つかりません", &lines)
}

/// The no-match summary of a spell query: empty when no condition was
/// given, else a header and one line per given condition.
pub fn format_spell_filter_conditions(
    name: Option<&str>,
    school: Option<&str>,
    level: Option<i32>,
    rank: Option<i32>,
    school_variant: Option<&str>,
    god: Option<&str>,
) -> (r: String)
    ensures
        r@ == spec_conditions_summary(
            "以下の条件でマッチするスペルが見つかりません"@,
            spec_spell_condition_lines(
                opt_sv(name),
                opt_sv(school),
                level,
                rank,
                opt_sv(school_variant),
                opt_sv(god),
            ),
        ),
{
    let mut lines: Vec<String> = Vec::new();
    match name {
        Some(n) => push_text_line(&mut lines, "name", n),
        None => {},
    }
    match school {
        Some(s) => push_text_line(&mut lines, "school", s),
        None => {},
    }
    match level {
        Some(l) => push_num_line(&mut lines, "level", l),
        None => {},
    }
    match rank {
        Some(t) => push_num_line(&mut lines, "rank", t),
        None => {},
    }
    match school_variant {
        Some(v) => push_text_line(&mut lines, "schoolVariant", v),
        None => {},
    }
    match god {
        Some(g) => push_text_line(&mut lines, "god", g),
        None => {},
    }
    proof {
        assert(lines@.map_values(|s: String| s@) =~= spec_spell_condition_lines(
            opt_sv(name),
            opt_sv(school),
            level,
            rank,
            opt_sv(school_variant),
            opt_sv(god),
        ));
    }
    render_summary("以下の条件でマッチするスペルが見つかりません", &lines)
}

} // verus!
