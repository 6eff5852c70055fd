//! Renders one spell record into a one-line chat-macro string. Every
//! datum beyond the name and the school is extracted defensively from the
//! spell's open field bag, each extractor failing with its own message.

use vstd::prelude::*;
use vstd::string::StringExecFns;
use crate::Spell;
use crate::jsonval::{obj_get, obj_lookup, JsonValue};
use crate::text::{contains_seq, i64_to_string, int_dec_of, starts_with_seq, str_eq};

verus! {

/// The view of a string-or-string result.
pub open spec fn res_view(r: Result<String, String>) -> Result<Seq<char>, Seq<char>> {
    match r {
        Ok(s) => Ok(s@),
        Err(e) => Err(e@),
    }
}

/// The integer bound to `key`, when there is one and it is an integer.
pub open spec fn lookup_int(fields: Seq<(String, JsonValue)>, key: Seq<char>) -> Option<i64> {
    match obj_lookup(fields, key) {
        Some(JsonValue::Int(n)) => Some(n),
        _ => None,
    }
}

/// The string bound to `key`, when there is one and it is a string.
pub open spec fn lookup_str(fields: Seq<(String, JsonValue)>, key: Seq<char>) -> Option<
    Seq<char>,
> {
    match obj_lookup(fields, key) {
        Some(JsonValue::Str(s)) => Some(s@),
        _ => None,
    }
}

/// The boolean bound to `key`, when there is one and it is a boolean.
pub open spec fn lookup_bool(fields: Seq<(String, JsonValue)>, key: Seq<char>) -> Option<bool> {
    match obj_lookup(fields, key) {
        Some(JsonValue::Bool(b)) => Some(b),
        _ => None,
    }
}

/// The field list bound to `key`, when there is one and it is an object.
pub open spec fn lookup_obj(fields: Seq<(String, JsonValue)>, key: Seq<char>) -> Option<
    Seq<(String, JsonValue)>,
> {
    match obj_lookup(fields, key) {
        Some(JsonValue::Obj(f)) => Some(f@),
        _ => None,
    }
}

/// The magic category label: a two-character school gets the literal
/// magic suffix appended; any other school stands verbatim.
pub open spec fn spec_magic_category(school: Seq<char>) -> Seq<char> {
    if school.len() == 2 {
        school + "魔法"@
    } else {
        school
    }
}

/// The rendered MP cost: a fixed cost renders as its number, an
/// open-ended minimum with a trailing tilde, a special cost verbatim;
/// anything else is an error.
pub open spec fn spec_format_mp(extra: Seq<(String, JsonValue)>) -> Result<Seq<char>, Seq<char>> {
    match lookup_obj(extra, "MP"@) {
        Some(fields) => {
            if lookup_int(fields, "value"@) is Some {
                Ok(int_dec_of(lookup_int(fields, "value"@)->Some_0 as int))
            } else if lookup_int(fields, "value+"@) is Some {
                Ok(int_dec_of(lookup_int(fields, "value+"@)->Some_0 as int) + "～"@)
            } else if lookup_str(fields, "special"@) is Some {
                Ok(lookup_str(fields, "special"@)->Some_0)
            } else {
                Err("MPコストは次のどれかで定義してください（value, value+, special）。"@)
            }
        },
        None => Err("MPコストは次のどれかで定義してください（value, value+, special）。"@),
    }
}

/// A number-or-string field rendered as text, when it has either shape.
pub open spec fn spec_text_of(v: JsonValue) -> Option<Seq<char>> {
    match v {
        JsonValue::Int(n) => Some(int_dec_of(n as int)),
        JsonValue::Str(s) => Some(s@),
        _ => None,
    }
}

/// The rendered target: an individual target renders its text verbatim;
/// an area target renders its value with radius and suffix in
/// parentheses, radius and suffix each given as a number or a string; any
/// other kind, or missing substructure, is an error.
pub open spec fn spec_format_target(extra: Seq<(String, JsonValue)>) -> Result<
    Seq<char>,
    Seq<char>,
> {
    match lookup_obj(extra, "対象"@) {
        Some(fields) => match lookup_str(fields, "kind"@) {
            Some(kind) => if kind == "個別"@ {
                match lookup_str(fields, "個別"@) {
                    Some(t) => Ok(t),
                    None => Err("対象の情報が必要です。魔法の対象は何ですか？"@),
                }
            } else if kind == "エリア"@ {
                match lookup_obj(fields, "エリア"@) {
                    Some(area) => match lookup_str(area, "value"@) {
                        Some(value) => match obj_lookup(area, "半径(m)"@) {
                            Some(rv) => match spec_text_of(rv) {
                                Some(radius) => match obj_lookup(area, "末尾"@) {
                                    Some(sv) => match spec_text_of(sv) {
                                        Some(suffix) => Ok(
                                            value + "(半径"@ + radius + "m"@ + suffix + ")"@,
                                        ),
                                        None => Err(
                                            "対象の情報が必要です。魔法の対象は何ですか？"@,
                                        ),
                                    },
                                    None => Err(
                                        "対象の情報が必要です。魔法の対象は何ですか？"@,
                                    ),
                                },
                                None => Err(
                                    "対象の情報が必要です。魔法の対象は何ですか？"@,
                                ),
                            },
                            None => Err("対象の情報が必要です。魔法の対象は何ですか？"@),
                        },
                        None => Err("対象の情報が必要です。魔法の対象は何ですか？"@),
                    },
                    None => Err("対象の情報が必要です。魔法の対象は何ですか？"@),
                }
            } else {
                Err("対象は個別かエリアかを選択する必要があります。"@)
            },
            None => Err("対象は個別かエリアかを選択する必要があります。"@),
        },
        None => Err("対象の情報が必要です。魔法の対象は何ですか？"@),
    }
}

/// The rendered range: the range field when it is a string or an integer,
/// else the range-in-meters field under the same rule, else an error.
pub open spec fn spec_format_range(extra: Seq<(String, JsonValue)>) -> Result<
    Seq<char>,
    Seq<char>,
> {
    let primary = match obj_lookup(extra, "射程"@) {
        Some(v) => spec_text_of(v),
        None => None,
    };
    let fallback = match obj_lookup(extra, "射程(m)"@) {
        Some(v) => spec_text_of(v),
        None => None,
    };
    match primary {
        Some(t) => Ok(t),
        None => match fallback {
            Some(t) => Ok(t),
            None => Err("射程の情報が必要です。魔法はどこまで届きますか？"@),
        },
    }
}

/// The rendered duration: a string value verbatim; an integer value with
/// its unit appended, the unit defaulting to nothing; any other shape is
/// an error.
pub open spec fn spec_format_duration(extra: Seq<(String, JsonValue)>) -> Result<
    Seq<char>,
    Seq<char>,
> {
    match lookup_obj(extra, "時間"@) {
        Some(fields) => match obj_lookup(fields, "value"@) {
            Some(JsonValue::Str(s)) => Ok(s@),
            Some(JsonValue::Int(n)) => Ok(
                int_dec_of(n as int) + match lookup_str(fields, "unit"@) {
                    Some(u) => u,
                    None => Seq::empty(),
                },
            ),
            _ => Err("時間の値は文字列もしくは整数である必要があります。"@),
        },
        None => Err("時間の情報が必要です。魔法はどれだけ持続しますか？"@),
    }
}

/// The rendered effect: a plain string field; its absence is an error.
pub open spec fn spec_format_effect(extra: Seq<(String, JsonValue)>) -> Result<
    Seq<char>,
    Seq<char>,
> {
    match lookup_str(extra, "効果"@) {
        Some(t) => Ok(t),
        None => Err("効果の情報が必要です。魔法はどんな効果ですか？"@),
    }
}

/// The support-spell macro: name and the five shared fields, no dice
/// roll. Errors surface in extraction order: MP, target, duration, range,
/// effect.
pub open spec fn spec_support_palette(spell: Spell) -> Result<Seq<char>, Seq<char>> {
    match spec_format_mp(spell.extra@) {
        Err(e) => Err(e),
        Ok(mp) => match spec_format_target(spell.extra@) {
            Err(e) => Err(e),
            Ok(target) => match spec_format_duration(spell.extra@) {
                Err(e) => Err(e),
                Ok(duration) => match spec_format_range(spell.extra@) {
                    Err(e) => Err(e),
                    Ok(range) => match spec_format_effect(spell.extra@) {
                        Err(e) => Err(e),
                        Ok(effect) => Ok(
                            spell.name@ + " / MP:"@ + mp + " / 対象:"@ + target + " / 射程:"@
                                + range + " / 時間:"@ + duration + " / "@ + effect,
                        ),
                    },
                },
            },
        },
    }
}

/// The regular-spell macro: a dice-roll prefix over the magic category
/// and the execution-modifier placeholder, then name and the five shared
/// fields. A missing school is rejected first.
pub open spec fn spec_regular_palette(spell: Spell) -> Result<Seq<char>, Seq<char>> {
    if spell.school@.len() == 0 {
        Err("流派もしくはカテゴリの情報が通常魔法には必要です。"@)
    } else {
        match spec_format_mp(spell.extra@) {
            Err(e) => Err(e),
            Ok(mp) => match spec_format_target(spell.extra@) {
                Err(e) => Err(e),
                Ok(target) => match spec_format_duration(spell.extra@) {
                    Err(e) => Err(e),
                    Ok(duration) => match spec_format_range(spell.extra@) {
                        Err(e) => Err(e),
                        Ok(range) => match spec_format_effect(spell.extra@) {
                            Err(e) => Err(e),
                            Ok(effect) => Ok(
                                "2d+{"@ + spec_magic_category(spell.school@) + "}+{行使修正}  "@
                                    + spell.name@ + " / MP:"@ + mp + " / 対象:"@ + target
                                    + " / 射程:"@ + range + " / 時間:"@ + duration + " / "@
                                    + effect,
                            ),
                        },
                    },
                },
            },
        }
    }
}

/// The chat macro of a spell: a missing name is rejected; the support
/// flag, absent counting as false, picks the support or the regular
/// rendering.
pub open spec fn spec_spell_palette(spell: Spell) -> Result<Seq<char>, Seq<char>> {
    if spell.name@.len() == 0 {
        Err("チャットパレット出力のためにはスペル名が必要です。"@)
    } else if match lookup_bool(spell.extra@, "補助"@) {
        Some(b) => b,
        None => false,
    } {
        spec_support_palette(spell)
    } else {
        spec_regular_palette(spell)
    }
}

/// The magic category label of a school string.
pub fn format_magic_category(school: &str) -> (r: String)
    ensures
        r@ == spec_magic_category(school@),
{
    if school.unicode_len() == 2 {
        let mut r = String::new();
        r.append(school);
        r.append("魔法");
        proof {
            assert(r@ =~= school@ + "魔法"@);
        }
        r
    } else {
        let mut r = String::new();
        r.append(school);
        proof {
            assert(r@ =~= school@);
        }
        r
    }
}

/// A number-or-string value rendered as text.
fn text_of(v: &JsonValue) -> (r: Option<String>)
    ensures
        match r {
            Some(s) => spec_text_of(*v) == Some(s@),
            None => spec_text_of(*v) is None,
        },
{
    match v {
        JsonValue::Int(n) => Some(i64_to_string(*n)),
        JsonValue::Str(s) => Some(s.clone()),
        _ => None,
    }
}

pub fn format_mp(spell: &Spell) -> (r: Result<String, String>)
    ensures
        res_view(r) == spec_format_mp(spell.extra@),
{
    let mp_err = || -> (e: String)
        ensures
            e@ == "MPコストは次のどれかで定義してください（value, value+, special）。"@,
        {
            let mut m = String::new();
            m.append("MPコストは次のどれかで定義してください（value, value+, special）。");
            proof {
                assert(m@
                    =~= "MPコストは次のどれかで定義してください（value, value+, special）。"@);
            }
            m
        };
    let mp_obj = match obj_get(&spell.extra, "MP") {
        Some(v) => v,
        None => {
            return Err(mp_err());
        },
    };
    let fields = match mp_obj.as_object() {
        Some(f) => f,
        None => {
            return Err(mp_err());
        },
    };
    match obj_get(fields, "value") {
        Some(JsonValue::Int(n)) => {
            return Ok(i64_to_string(*n));
        },
        _ => {},
    }
    match obj_get(fields, "value+") {
        Some(JsonValue::Int(n)) => {
            let mut s = i64_to_string(*n);
            s.append("～");
            return Ok(s);
        },
        _ => {},
    }
    match obj_get(fields, "special") {
        Some(JsonValue::Str(s)) => {
            return Ok(s.clone());
        },
        _ => {},
    }
    Err(mp_err())
}

pub fn format_target(spell: &Spell) -> (r: Result<String, String>)
    ensures
        res_view(r) == spec_format_target(spell.extra@),
{
    let missing = || -> (e: String)
        ensures
            e@ == "対象の情報が必要です。魔法の対象は何ですか？"@,
        {
            let mut m = String::new();
            m.append("対象の情報が必要です。魔法の対象は何ですか？");
            proof {
                assert(m@ =~= "対象の情報が必要です。魔法の対象は何ですか？"@);
            }
            m
        };
    let bad_kind = || -> (e: String)
        ensures
            e@ == "対象は個別かエリアかを選択する必要があります。"@,
        {
            let mut m = String::new();
            m.append("対象は個別かエリアかを選択する必要があります。");
            proof {
                assert(m@ =~= "対象は個別かエリアかを選択する必要があります。"@);
            }
            m
        };
    let target_obj = match obj_get(&spell.extra, "対象") {
        Some(v) => v,
        None => {
            return Err(missing());
        },
    };
    let fields = match target_obj.as_object() {
        Some(f) => f,
        None => {
            return Err(missing());
        },
    };
    let kind = match obj_get(fields, "kind") {
        Some(JsonValue::Str(s)) => s,
        _ => {
            return Err(bad_kind());
        },
    };
    if str_eq(kind.as_str(), "個別") {
        match obj_get(fields, "個別") {
            Some(JsonValue::Str(s)) => Ok(s.clone()),
            _ => Err(missing()),
        }
    } else if str_eq(kind.as_str(), "エリア") {
        let area = match obj_get(fields, "エリア") {
            Some(JsonValue::Obj(f)) => f,
            _ => {
                return Err(missing());
            },
        };
        let value = match obj_get(area, "value") {
            Some(JsonValue::Str(s)) => s,
            _ => {
                return Err(missing());
            },
        };
        let radius = match obj_get(area, "半径(m)") {
            Some(v) => match text_of(v) {
                Some(t) => t,
                None => {
                    return Err(missing());
                },
            },
            None => {
                return Err(missing());
            },
        };
        let suffix = match obj_get(area, "末尾") {
            Some(v) => match text_of(v) {
                Some(t) => t,
                None => {
                    return Err(missing());
                },
            },
            None => {
                return Err(missing());
            },
        };
        let mut s = String::new();
        s.append(value.as_str());
        s.append("(半径");
        s.append(radius.as_str());
        s.append("m");
        s.append(suffix.as_str());
        s.append(")");
        proof {
            assert(s@ =~= value@ + "(半径"@ + radius@ + "m"@ + suffix@ + ")"@);
        }
        Ok(s)
    } else {
        Err(bad_kind())
    }
}

pub fn format_range(spell: &Spell) -> (r: Result<String, String>)
    ensures
        res_view(r) == spec_format_range(spell.extra@),
{
    match obj_get(&spell.extra, "射程") {
        Some(v) => match text_of(v) {
            Some(t) => {
                return Ok(t);
            },
            None => {},
        },
        None => {},
    }
    match obj_get(&spell.extra, "射程(m)") {
        Some(v) => match text_of(v) {
            Some(t) => {
                return Ok(t);
            },
            None => {},
        },
        None => {},
    }
    let mut m = String::new();
    m.append("射程の情報が必要です。魔法はどこまで届きますか？");
    proof {
        assert(m@ =~= "射程の情報が必要です。魔法はどこまで届きますか？"@);
    }
    Err(m)
}

pub fn format_duration(spell: &Spell) -> (r: Result<String, String>)
    ensures
        res_view(r) == spec_format_duration(spell.extra@),
{
    let fields = match obj_get(&spell.extra, "時間") {
        Some(v) => match v.as_object() {
            Some(f) => f,
            None => {
                let mut m = String::new();
                m.append("時間の情報が必要です。魔法はどれだけ持続しますか？");
                proof {
                    assert(m@ =~= "時間の情報が必要です。魔法はどれだけ持続しますか？"@);
                }
                return Err(m);
            },
        },
        None => {
            let mut m = String::new();
            m.append("時間の情報が必要です。魔法はどれだけ持続しますか？");
            proof {
                assert(m@ =~= "時間の情報が必要です。魔法はどれだけ持続しますか？"@);
            }
            return Err(m);
        },
    };
    match obj_get(fields, "value") {
        Some(JsonValue::Str(s)) => Ok(s.clone()),
        Some(JsonValue::Int(n)) => {
            let mut s = i64_to_string(*n);
            match obj_get(fields, "unit") {
                Some(JsonValue::Str(u)) => {
                    s.append(u.as_str());
                },
                _ => {},
            }
            Ok(s)
        },
        _ => {
            let mut m = String::new();
            m.append("時間の値は文字列もしくは整数である必要があります。");
            proof {
                assert(m@ =~= "時間の値は文字列もしくは整数である必要があります。"@);
            }
            Err(m)
        },
    }
}

pub fn format_effect(spell: &Spell) -> (r: Result<String, String>)
    ensures
        res_view(r) == spec_format_effect(spell.extra@),
{
    match obj_get(&spell.extra, "効果") {
        Some(JsonValue::Str(s)) => Ok(s.clone()),
        _ => {
            let mut m = String::new();
            m.append("効果の情報が必要です。魔法はどんな効果ですか？");
            proof {
                assert(m@ =~= "効果の情報が必要です。魔法はどんな効果ですか？"@);
            }
            Err(m)
        },
    }
}

pub fn generate_support_palette(spell: &Spell) -> (r: Result<String, String>)
    ensures
        res_view(r) == spec_support_palette(*spell),
{
    let mp = match format_mp(spell) {
        Ok(v) => v,
        Err(e) => {
            return Err(e);
        },
    };
    let target = match format_target(spell) {
        Ok(v) => v,
        Err(e) => {
            return Err(e);
        },
    };
    let duration = match format_duration(spell) {
        Ok(v) => v,
        Err(e) => {
            return Err(e);
        },
    };
    let range = match format_range(spell) {
        Ok(v) => v,
        Err(e) => {
            return Err(e);
        },
    };
    let effect = match format_effect(spell) {
        Ok(v) => v,
        Err(e) => {
            return Err(e);
        },
    };
    let mut s = String::new();
    s.append(spell.name.as_str());
    s.append(" / MP:");
    s.append(mp.as_str());
    s.append(" / 対象:");
    s.append(target.as_str());
    s.append(" / 射程:");
    s.append(range.as_str());
    s.append(" / 時間:");
    s.append(duration.as_str());
    s.append(" / ");
    s.append(effect.as_str());
    proof {
        assert(s@ =~= spell.name@ + " / MP:"@ + mp@ + " / 対象:"@ + target@ + " / 射程:"@
            + range@ + " / 時間:"@ + duration@ + " / "@ + effect@);
    }
    Ok(s)
}

pub fn generate_regular_palette(spell: &Spell) -> (r: Result<String, String>)
    ensures
        res_view(r) == spec_regular_palette(*spell),
{
    if spell.school.as_str().is_empty() {
        let mut m = String::new();
        m.append("流派もしくはカテゴリの情報が通常魔法には必要です。");
        proof {
            assert(m@ =~= "流派もしくはカテゴリの情報が通常魔法には必要です。"@);
        }
        return Err(m);
    }
    let mp = match format_mp(spell) {
        Ok(v) => v,
        Err(e) => {
            return Err(e);
        },
    };
    let target = match format_target(spell) {
        Ok(v) => v,
        Err(e) => {
            return Err(e);
        },
    };
    let duration = match format_duration(spell) {
        Ok(v) => v,
        Err(e) => {
            return Err(e);
        },
    };
    let range = match format_range(spell) {
        Ok(v) => v,
        Err(e) => {
            return Err(e);
        },
    };
    let effect = match format_effect(spell) {
        Ok(v) => v,
        Err(e) => {
            return Err(e);
        },
    };
    let magic_category = format_magic_category(spell.school.as_str());
    let mut s = String::new();
    s.append("2d+{");
    s.append(magic_category.as_str());
    s.append("}+{行使修正}  ");
    s.append(spell.name.as_str());
    s.append(" / MP:");
    s.append(mp.as_str());
    s.append(" / 対象:");
    s.append(target.as_str());
    s.append(" / 射程:");
    s.append(range.as_str());
    s.append(" / 時間:");
    s.append(duration.as_str());
    s.append(" / ");
    s.append(effect.as_str());
    proof {
        assert(s@ =~= "2d+{"@ + spec_magic_category(spell.school@) + "}+{行使修正}  "@
            + spell.name@ + " / MP:"@ + mp@ + " / 対象:"@ + target@ + " / 射程:"@ + range@
            + " / 時間:"@ + duration@ + " / "@ + effect@);
    }
    Ok(s)
}

/// The chat macro of a spell: the support rendering when the support flag
/// is set, the regular rendering otherwise; a spell without a name is
/// rejected.
pub fn generate_spell_palette(spell: &Spell) -> (r: Result<String, String>)
    ensures
        res_view(r) == spec_spell_palette(*spell),
{
    if spell.name.as_str().is_empty() {
        let mut m = String::new();
        m.append("チャットパレット出力のためにはスペル名が必要です。");
        proof {
            assert(m@ =~= "チャットパレット出力のためにはスペル名が必要です。"@);
        }
        return Err(m);
    }
    let is_support = match obj_get(&spell.extra, "補助") {
        Some(JsonValue::Bool(b)) => *b,
        _ => false,
    };
    if is_support {
        generate_support_palette(spell)
    } else {
        generate_regular_palette(spell)
    }
}

/// A string whose characters never start the pattern holds no
/// occurrence of it.
proof fn lemma_no_first_char_no_contains(s: Seq<char>, pat: Seq<char>)
    requires
        pat.len() >= 1,
        forall|i: int| 0 <= i < s.len() ==> s[i] != pat[0],
    ensures
        !contains_seq(s, pat),
{
    if contains_seq(s, pat) {
        let i = choose|i: int|
            0 <= i && i + pat.len() <= s.len() && #[trigger] s.subrange(i, i + pat.len() as int)
                == pat;
        assert(s.subrange(i, i + pat.len() as int)[0] == s[i]);
        assert(false);
    }
}

/// Appending a piece whose first character is not in the pattern cannot
/// create an occurrence of a three-character pattern across the seam.
proof fn lemma_append_no_pat3_head(a: Seq<char>, b: Seq<char>, pat: Seq<char>)
    requires
        pat.len() == 3,
        !contains_seq(a, pat),
        !contains_seq(b, pat),
        b.len() >= 1 ==> !pat.contains(b[0]),
    ensures
        !contains_seq(a + b, pat),
{
    let c = a + b;
    if contains_seq(c, pat) {
        let i = choose|i: int|
            0 <= i && i + pat.len() <= c.len() && #[trigger] c.subrange(i, i + pat.len() as int)
                == pat;
        let w = c.subrange(i, i + 3);
        if i + 3 <= a.len() {
            assert(a.subrange(i, i + 3) =~= w);
            assert(false);
        } else if i >= a.len() {
            assert(b.subrange(i - a.len(), i - a.len() + 3) =~= w);
            assert(false);
        } else {
            assert(b.len() >= 1);
            if i == a.len() - 1 {
                assert(w[1] == c[i + 1]);
                assert(c[a.len() as int] == b[0]);
                assert(pat[1] == b[0]);
                assert(pat.contains(b[0]));
                assert(false);
            } else {
                assert(i == a.len() - 2);
                assert(w[2] == c[i + 2]);
                assert(c[a.len() as int] == b[0]);
                assert(pat[2] == b[0]);
                assert(pat.contains(b[0]));
                assert(false);
            }
        }
    }
}

/// Appending anything to a string whose last two characters are not in
/// the pattern cannot create an occurrence of a three-character pattern
/// across the seam.
proof fn lemma_append_no_pat3_tail(a: Seq<char>, b: Seq<char>, pat: Seq<char>)
    requires
        pat.len() == 3,
        !contains_seq(a, pat),
        !contains_seq(b, pat),
        a.len() >= 1 ==> !pat.contains(a[a.len() - 1]),
        a.len() >= 2 ==> !pat.contains(a[a.len() - 2]),
    ensures
        !contains_seq(a + b, pat),
{
    let c = a + b;
    if contains_seq(c, pat) {
        let i = choose|i: int|
            0 <= i && i + pat.len() <= c.len() && #[trigger] c.subrange(i, i + pat.len() as int)
                == pat;
        let w = c.subrange(i, i + 3);
        if i + 3 <= a.len() {
            assert(a.subrange(i, i + 3) =~= w);
            assert(false);
        } else if i >= a.len() {
            assert(b.subrange(i - a.len(), i - a.len() + 3) =~= w);
            assert(false);
        } else {
            assert(w[0] == c[i]);
            assert(c[i] == a[i]);
            if i == a.len() - 1 {
                assert(pat[0] == a[a.len() - 1]);
                assert(pat.contains(a[a.len() - 1]));
                assert(false);
            } else {
                assert(i == a.len() - 2);
                assert(pat[0] == a[a.len() - 2]);
                assert(pat.contains(a[a.len() - 2]));
                assert(false);
            }
        }
    }
}

/// A regular-spell rendering always starts with the dice-roll prefix and
/// always carries the execution-modifier placeholder, for every spell
/// the regular renderer accepts.
pub proof fn lemma_regular_palette_dice(spell: Spell, out: Seq<char>)
    requires
        spec_regular_palette(spell) == Ok::<Seq<char>, Seq<char>>(out),
    ensures
        starts_with_seq(out, "2d+"@),
        contains_seq(out, "{行使修正}"@),
{
    reveal_strlit("2d+");
    reveal_strlit("2d+{");
    reveal_strlit("}+{行使修正}  ");
    reveal_strlit("{行使修正}");
    let cat = spec_magic_category(spell.school@);
    let mp = spec_format_mp(spell.extra@)->Ok_0;
    let target = spec_format_target(spell.extra@)->Ok_0;
    let duration = spec_format_duration(spell.extra@)->Ok_0;
    let range = spec_format_range(spell.extra@)->Ok_0;
    let effect = spec_format_effect(spell.extra@)->Ok_0;
    assert(out == "2d+{"@ + cat + "}+{行使修正}  "@ + spell.name@ + " / MP:"@ + mp + " / 対象:"@
        + target + " / 射程:"@ + range + " / 時間:"@ + duration + " / "@ + effect);
    let head = "2d+{"@ + cat + "}+{行使修正}  "@;
    let rest = spell.name@ + " / MP:"@ + mp + " / 対象:"@ + target + " / 射程:"@ + range
        + " / 時間:"@ + duration + " / "@ + effect;
    assert(out =~= head + rest);
    assert(out.subrange(0, 3) =~= "2d+"@);
    let pos = 4 + cat.len() as int;
    assert(head.subrange(pos, pos + 10) =~= "}+{行使修正}  "@);
    assert(out.subrange(pos + 2, pos + 8) =~= "}+{行使修正}  "@.subrange(2, 8));
    assert("}+{行使修正}  "@.subrange(2, 8) =~= "{行使修正}"@);
    assert(out.subrange(pos + 2, pos + 2 + "{行使修正}"@.len() as int) == "{行使修正}"@);
}

/// A support-spell rendering never contains the dice-roll substring, as
/// long as neither the spell name nor any of the extracted field texts
/// holds it itself: the glue between the fields cannot complete one
/// across a seam.
pub proof fn lemma_support_palette_no_dice(
    spell: Spell,
    mp: Seq<char>,
    target: Seq<char>,
    range: Seq<char>,
    duration: Seq<char>,
    effect: Seq<char>,
    out: Seq<char>,
)
    requires
        spec_format_mp(spell.extra@) == Ok::<Seq<char>, Seq<char>>(mp),
        spec_format_target(spell.extra@) == Ok::<Seq<char>, Seq<char>>(target),
        spec_format_range(spell.extra@) == Ok::<Seq<char>, Seq<char>>(range),
        spec_format_duration(spell.extra@) == Ok::<Seq<char>, Seq<char>>(duration),
        spec_format_effect(spell.extra@) == Ok::<Seq<char>, Seq<char>>(effect),
        spec_support_palette(spell) == Ok::<Seq<char>, Seq<char>>(out),
        !contains_seq(spell.name@, "2d+"@),
        !contains_seq(mp, "2d+"@),
        !contains_seq(target, "2d+"@),
        !contains_seq(range, "2d+"@),
        !contains_seq(duration, "2d+"@),
        !contains_seq(effect, "2d+"@),
    ensures
        !contains_seq(out, "2d+"@),
{
    reveal_strlit("2d+");
    reveal_strlit(" / MP:");
    reveal_strlit(" / 対象:");
    reveal_strlit(" / 射程:");
    reveal_strlit(" / 時間:");
    reveal_strlit(" / ");
    let pat = "2d+"@;
    assert(pat.len() == 3);
    assert(pat[0] == '2' && pat[1] == 'd' && pat[2] == '+');
    let s1 = " / MP:"@;
    let s2 = " / 対象:"@;
    let s3 = " / 射程:"@;
    let s4 = " / 時間:"@;
    let s5 = " / "@;
    assert(out == spell.name@ + s1 + mp + s2 + target + s3 + range + s4 + duration + s5
        + effect);

    assert(!pat.contains(' ')) by {
        if pat.contains(' ') {
            let i = choose|i: int| 0 <= i < pat.len() && pat[i] == ' ';
            assert(false);
        }
    }
    assert(!pat.contains(':')) by {
        if pat.contains(':') {
            let i = choose|i: int| 0 <= i < pat.len() && pat[i] == ':';
            assert(false);
        }
    }
    assert(!pat.contains('P')) by {
        if pat.contains('P') {
            let i = choose|i: int| 0 <= i < pat.len() && pat[i] == 'P';
            assert(false);
        }
    }
    assert(!pat.contains('/')) by {
        if pat.contains('/') {
            let i = choose|i: int| 0 <= i < pat.len() && pat[i] == '/';
            assert(false);
        }
    }
    assert(!pat.contains('象')) by {
        if pat.contains('象') {
            let i = choose|i: int| 0 <= i < pat.len() && pat[i] == '象';
            assert(false);
        }
    }
    assert(!pat.contains('程')) by {
        if pat.contains('程') {
            let i = choose|i: int| 0 <= i < pat.len() && pat[i] == '程';
            assert(false);
        }
    }
    assert(!pat.contains('間')) by {
        if pat.contains('間') {
            let i = choose|i: int| 0 <= i < pat.len() && pat[i] == '間';
            assert(false);
        }
    }

    assert(!contains_seq(s1, pat)) by {
        assert(forall|i: int| 0 <= i < s1.len() ==> s1[i] != '2');
        lemma_no_first_char_no_contains(s1, pat);
    }
    assert(!contains_seq(s2, pat)) by {
        assert(forall|i: int| 0 <= i < s2.len() ==> s2[i] != '2');
        lemma_no_first_char_no_contains(s2, pat);
    }
    assert(!contains_seq(s3, pat)) by {
        assert(forall|i: int| 0 <= i < s3.len() ==> s3[i] != '2');
        lemma_no_first_char_no_contains(s3, pat);
    }
    assert(!contains_seq(s4, pat)) by {
        assert(forall|i: int| 0 <= i < s4.len() ==> s4[i] != '2');
        lemma_no_first_char_no_contains(s4, pat);
    }
    assert(!contains_seq(s5, pat)) by {
        assert(forall|i: int| 0 <= i < s5.len() ==> s5[i] != '2');
        lemma_no_first_char_no_contains(s5, pat);
    }

    let t1 = spell.name@ + s1;
    lemma_append_no_pat3_head(spell.name@, s1, pat);
    let t2 = t1 + mp;
    assert(t1.len() >= 2);
    assert(t1[t1.len() - 1] == s1[5] && t1[t1.len() - 2] == s1[4]);
    lemma_append_no_pat3_tail(t1, mp, pat);
    let t3 = t2 + s2;
    lemma_append_no_pat3_head(t2, s2, pat);
    let t4 = t3 + target;
    assert(t3.len() >= 2);
    assert(t3[t3.len() - 1] == s2[5] && t3[t3.len() - 2] == s2[4]);
    lemma_append_no_pat3_tail(t3, target, pat);
    let t5 = t4 + s3;
    lemma_append_no_pat3_head(t4, s3, pat);
    let t6 = t5 + range;
    assert(t5.len() >= 2);
    assert(t5[t5.len() - 1] == s3[5] && t5[t5.len() - 2] == s3[4]);
    lemma_append_no_pat3_tail(t5, range, pat);
    let t7 = t6 + s4;
    lemma_append_no_pat3_head(t6, s4, pat);
    let t8 = t7 + duration;
    assert(t7.len() >= 2);
    assert(t7[t7.len() - 1] == s4[5] && t7[t7.len() - 2] == s4[4]);
    lemma_append_no_pat3_tail(t7, duration, pat);
    let t9 = t8 + s5;
    lemma_append_no_pat3_head(t8, s5, pat);
    let t10 = t9 + effect;
    assert(t9.len() >= 2);
    assert(t9[t9.len() - 1] == s5[2] && t9[t9.len() - 2] == s5[1]);
    lemma_append_no_pat3_tail(t9, effect, pat);
    assert(out =~= t10);
}

} // verus!
