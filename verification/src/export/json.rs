//! The JSON export strategy: builds the structured value of a monster
//! list — every record field under its serialized key, unrecognized
//! fields preserved verbatim — and renders it as pretty-printed JSON.
//! Writing the file is the caller's business.

use vstd::prelude::*;
use vstd::string::StringExecFns;
use crate::{Monster, Part};
use crate::jsonrender::{render_pretty, spec_render_pretty};
use crate::jsonval::{obj_lookup, JsonValue};

verus! {

broadcast use vstd::std_specs::vec::axiom_vec_index_decreases, vstd::string::group_string_axioms;

/// Whether two structured values hold the same JSON content: equal up to
/// the identity of the strings inside.
pub open spec fn json_equal_view(a: JsonValue, b: JsonValue) -> bool
    decreases a, 1int, 0int,
{
    match (a, b) {
        (JsonValue::Null, JsonValue::Null) => true,
        (JsonValue::Bool(x), JsonValue::Bool(y)) => x == y,
        (JsonValue::Int(x), JsonValue::Int(y)) => x == y,
        (JsonValue::Dec(x), JsonValue::Dec(y)) => x@ == y@,
        (JsonValue::Str(x), JsonValue::Str(y)) => x@ == y@,
        (JsonValue::Arr(x), JsonValue::Arr(y)) => json_arr_equal_view(x, y),
        (JsonValue::Obj(x), JsonValue::Obj(y)) => json_obj_equal_view(x, y),
        _ => false,
    }
}

/// Elementwise JSON content equality of two arrays.
pub open spec fn json_arr_equal_view(x: Vec<JsonValue>, y: Vec<JsonValue>) -> bool
    decreases x, 0int, 0int,
{
    x@.len() == y@.len() && forall|i: int|
        0 <= i < x@.len() ==> json_equal_view(#[trigger] x@[i], y@[i])
}

/// Fieldwise JSON content equality of two objects.
pub open spec fn json_obj_equal_view(
    x: Vec<(String, JsonValue)>,
    y: Vec<(String, JsonValue)>,
) -> bool
    decreases x, 0int, 0int,
{
    x@.len() == y@.len() && forall|i: int|
        0 <= i < x@.len() ==> (#[trigger] x@[i]).0@ == y@[i].0@ && json_equal_view(
            x@[i].1,
            y@[i].1,
        )
}

/// A deep copy of a structured value, with the same JSON content.
pub fn clone_value(v: &JsonValue) -> (r: JsonValue)
    ensures
        json_equal_view(r, *v),
    decreases *v, 1int, 0int,
{
    match v {
        JsonValue::Null => JsonValue::Null,
        JsonValue::Bool(b) => JsonValue::Bool(*b),
        JsonValue::Int(n) => JsonValue::Int(*n),
        JsonValue::Dec(s) => JsonValue::Dec(s.clone()),
        JsonValue::Str(s) => JsonValue::Str(s.clone()),
        JsonValue::Arr(items) => JsonValue::Arr(clone_items(items, 0)),
        JsonValue::Obj(fields) => JsonValue::Obj(clone_fields(fields, 0)),
    }
}

/// Deep copies of the array elements from position `i` on.
fn clone_items(items: &Vec<JsonValue>, i: usize) -> (r: Vec<JsonValue>)
    requires
        i <= items@.len(),
    ensures
        r@.len() == items@.len() - i,
        forall|k: int| 0 <= k < r@.len() ==> json_equal_view(#[trigger] r@[k], items@[i + k]),
    decreases *items, 0int, items@.len() - i,
{
    if i == items.len() {
        Vec::new()
    } else {
        let c = clone_value(&items[i]);
        let mut rest = clone_items(items, i + 1);
        rest.insert(0, c);
        rest
    }
}

/// Deep copies of the object fields from position `i` on.
fn clone_fields(fields: &Vec<(String, JsonValue)>, i: usize) -> (r: Vec<(String, JsonValue)>)
    requires
        i <= fields@.len(),
    ensures
        r@.len() == fields@.len() - i,
        forall|k: int| 0 <= k < r@.len() ==> (#[trigger] r@[k]).0@ == fields@[i + k].0@
            && json_equal_view(r@[k].1, fields@[i + k].1),
    decreases *fields, 0int, fields@.len() - i,
{
    if i == fields.len() {
        Vec::new()
    } else {
        let c = clone_value(&fields[i].1);
        let key = fields[i].0.clone();
        let mut rest = clone_fields(fields, i + 1);
        rest.insert(0, (key, c));
        rest
    }
}

/// Whether a value is the integer `n`.
pub open spec fn int_value_is(n: i32, v: JsonValue) -> bool {
    v matches JsonValue::Int(m) && m == n as i64
}

/// Whether a value is the string with these characters.
pub open spec fn str_value_is(s: Seq<char>, v: JsonValue) -> bool {
    v matches JsonValue::Str(t) && t@ == s
}

/// Whether a value is the integer of an optional statistic, or null when
/// the statistic is absent.
pub open spec fn opt_int_value_is(o: Option<i32>, v: JsonValue) -> bool {
    match o {
        Some(n) => int_value_is(n, v),
        None => v is Null,
    }
}

/// Whether a value is the boolean of an optional flag, or null when the
/// flag is absent.
pub open spec fn opt_bool_value_is(o: Option<bool>, v: JsonValue) -> bool {
    match o {
        Some(b) => v matches JsonValue::Bool(c) && c == b,
        None => v is Null,
    }
}

/// Whether a structured value is the serialized form of one body part:
/// an object with the ten part fields under their serialized keys, in
/// declaration order.
pub open spec fn part_value_matches(p: Part, v: JsonValue) -> bool {
    v matches JsonValue::Obj(fields) && {
        let f = fields@;
        &&& f.len() == 10
        &&& f[0].0@ == "HP"@ && opt_int_value_is(p.hp, f[0].1)
        &&& f[1].0@ == "MP"@ && int_value_is(p.mp, f[1].1)
        &&& f[2].0@ == "name"@ && str_value_is(p.name@, f[2].1)
        &&& f[3].0@ == "コア"@ && opt_bool_value_is(p.core, f[3].1)
        &&& f[4].0@ == "命中力"@ && opt_int_value_is(p.hit_rate, f[4].1)
        &&& f[5].0@ == "回避力"@ && opt_int_value_is(p.dodge, f[5].1)
        &&& f[6].0@ == "打撃点"@ && opt_int_value_is(p.damage, f[6].1)
        &&& f[7].0@ == "部位数"@ && int_value_is(p.part_count, f[7].1)
        &&& f[8].0@ == "部位特殊能力"@ && str_value_is(p.special_abilities@, f[8].1)
        &&& f[9].0@ == "防護点"@ && int_value_is(p.armor, f[9].1)
    }
}

/// Whether a structured value is the serialized form of one monster: an
/// object with the nineteen record fields under their serialized keys, in
/// declaration order, the parts as an array in part order, and the open
/// bag appended verbatim.
pub open spec fn monster_value_matches(m: Monster, v: JsonValue) -> bool {
    v matches JsonValue::Obj(fields) && {
        let f = fields@;
        &&& f.len() == 19 + m.extra@.len()
        &&& f[0].0@ == "Category"@ && str_value_is(m.category@, f[0].1)
        &&& f[1].0@ == "Lv"@ && int_value_is(m.level, f[1].1)
        &&& f[2].0@ == "Revision"@ && (f[2].1 matches JsonValue::Dec(s) && s@ == m.revision@)
        &&& f[3].0@ == "data"@ && str_value_is(m.data@, f[3].1)
        &&& f[4].0@ == "illust"@ && str_value_is(m.illust@, f[4].1)
        &&& f[5].0@ == "movein"@ && int_value_is(m.movein, f[5].1)
        &&& f[6].0@ == "movein_des"@ && str_value_is(m.movein_description@, f[6].1)
        &&& f[7].0@ == "moveon"@ && int_value_is(m.moveon, f[7].1)
        &&& f[8].0@ == "moveon_des"@ && str_value_is(m.moveon_description@, f[8].1)
        &&& f[9].0@ == "name"@ && str_value_is(m.name@, f[9].1)
        &&& f[10].0@ == "part"@ && (f[10].1 matches JsonValue::Arr(items) && items@.len()
            == m.part@.len() && forall|i: int|
            0 <= i < m.part@.len() ==> part_value_matches(m.part@[i], #[trigger] items@[i]))
        &&& f[11].0@ == "備考"@ && str_value_is(m.notes@, f[11].1)
        &&& f[12].0@ == "先制値"@ && int_value_is(m.initiative, f[12].1)
        &&& f[13].0@ == "共通特殊能力"@ && str_value_is(m.common_abilities@, f[13].1)
        &&& f[14].0@ == "弱点"@ && str_value_is(m.weakness@, f[14].1)
        &&& f[15].0@ == "弱点値"@ && int_value_is(m.weakness_value, f[15].1)
        &&& f[16].0@ == "生命抵抗力"@ && int_value_is(m.life_resistance, f[16].1)
        &&& f[17].0@ == "知名度"@ && int_value_is(m.fame, f[17].1)
        &&& f[18].0@ == "精神抵抗力"@ && int_value_is(m.mental_resistance, f[18].1)
        &&& forall|k: int| 0 <= k < m.extra@.len() ==> (#[trigger] f[19 + k]).0@
            == m.extra@[k].0@ && json_equal_view(f[19 + k].1, m.extra@[k].1)
    }
}

/// Whether a structured value is the serialized form of a monster list:
/// an array of matching objects, in order.
pub open spec fn monsters_value_matches(data: Seq<Monster>, v: JsonValue) -> bool {
    v matches JsonValue::Arr(items) && items@.len() == data.len() && forall|i: int|
        0 <= i < data.len() ==> monster_value_matches(data[i], #[trigger] items@[i])
}

/// The serialized form of one body part.
pub fn part_to_json_value(p: &Part) -> (v: JsonValue)
    ensures
        part_value_matches(*p, v),
{
    let mut fields: Vec<(String, JsonValue)> = Vec::new();
    fields.push(
        (
            String::from_str("HP"),
            match p.hp {
                Some(h) => JsonValue::Int(h as i64),
                None => JsonValue::Null,
            },
        ),
    );
    fields.push((String::from_str("MP"), JsonValue::Int(p.mp as i64)));
    fields.push((String::from_str("name"), JsonValue::Str(p.name.clone())));
    fields.push(
        (
            String::from_str("コア"),
            match p.core {
                Some(b) => JsonValue::Bool(b),
                None => JsonValue::Null,
            },
        ),
    );
    fields.push(
        (
            String::from_str("命中力"),
            match p.hit_rate {
                Some(h) => JsonValue::Int(h as i64),
                None => JsonValue::Null,
            },
        ),
    );
    fields.push(
        (
            String::from_str("回避力"),
            match p.dodge {
                Some(d) => JsonValue::Int(d as i64),
                None => JsonValue::Null,
            },
        ),
    );
    fields.push(
        (
            String::from_str("打撃点"),
            match p.damage {
                Some(d) => JsonValue::Int(d as i64),
                None => JsonValue::Null,
            },
        ),
    );
    fields.push((String::from_str("部位数"), JsonValue::Int(p.part_count as i64)));
    fields.push((String::from_str("部位特殊能力"), JsonValue::Str(p.special_abilities.clone())));
    fields.push((String::from_str("防護点"), JsonValue::Int(p.armor as i64)));
    JsonValue::Obj(fields)
}

/// The serialized form of one monster.
pub fn monster_to_json_value(m: &Monster) -> (v: JsonValue)
    ensures
        monster_value_matches(*m, v),
{
    let mut fields: Vec<(String, JsonValue)> = Vec::new();
    fields.push((String::from_str("Category"), JsonValue::Str(m.category.clone())));
    fields.push((String::from_str("Lv"), JsonValue::Int(m.level as i64)));
    fields.push((String::from_str("Revision"), JsonValue::Dec(m.revision.clone())));
    fields.push((String::from_str("data"), JsonValue::Str(m.data.clone())));
    fields.push((String::from_str("illust"), JsonValue::Str(m.illust.clone())));
    fields.push((String::from_str("movein"), JsonValue::Int(m.movein as i64)));
    fields.push((String::from_str("movein_des"), JsonValue::Str(m.movein_description.clone())));
    fields.push((String::from_str("moveon"), JsonValue::Int(m.moveon as i64)));
    fields.push((String::from_str("moveon_des"), JsonValue::Str(m.moveon_description.clone())));
    fields.push((String::from_str("name"), JsonValue::Str(m.name.clone())));

    let mut items: Vec<JsonValue> = Vec::new();
    let mut i: usize = 0;
    while i < m.part.len()
        invariant
            i <= m.part@.len(),
            items@.len() == i,
            forall|k: int| 0 <= k < i ==> part_value_matches(m.part@[k], #[trigger] items@[k]),
        decreases m.part@.len() - i,
    {
        let pv = part_to_json_value(&m.part[i]);
        items.push(pv);
        i = i + 1;
    }
    fields.push((String::from_str("part"), JsonValue::Arr(items)));

    fields.push((String::from_str("備考"), JsonValue::Str(m.notes.clone())));
    fields.push((String::from_str("先制値"), JsonValue::Int(m.initiative as i64)));
    fields.push((String::from_str("共通特殊能力"), JsonValue::Str(m.common_abilities.clone())));
    fields.push((String::from_str("弱点"), JsonValue::Str(m.weakness.clone())));
    fields.push((String::from_str("弱点値"), JsonValue::Int(m.weakness_value as i64)));
    fields.push((String::from_str("生命抵抗力"), JsonValue::Int(m.life_resistance as i64)));
    fields.push((String::from_str("知名度"), JsonValue::Int(m.fame as i64)));
    fields.push((String::from_str("精神抵抗力"), JsonValue::Int(m.mental_resistance as i64)));

    let mut k: usize = 0;
    while k < m.extra.len()
        invariant
            k <= m.extra@.len(),
            fields@.len() == 19 + k,
            f_prefix_matches(*m, fields@),
            forall|t: int| 0 <= t < k ==> (#[trigger] fields@[19 + t]).0@ == m.extra@[t].0@
                && json_equal_view(fields@[19 + t].1, m.extra@[t].1),
        decreases m.extra@.len() - k,
    {
        let cv = clone_value(&m.extra[k].1);
        fields.push((m.extra[k].0.clone(), cv));
        k = k + 1;
    }
    JsonValue::Obj(fields)
}

/// The first nineteen serialized fields of a monster object.
pub open spec fn f_prefix_matches(m: Monster, f: Seq<(String, JsonValue)>) -> bool {
    &&& f.len() >= 19
    &&& f[0].0@ == "Category"@ && str_value_is(m.category@, f[0].1)
    &&& f[1].0@ == "Lv"@ && int_value_is(m.level, f[1].1)
    &&& f[2].0@ == "Revision"@ && (f[2].1 matches JsonValue::Dec(s) && s@ == m.revision@)
    &&& f[3].0@ == "data"@ && str_value_is(m.data@, f[3].1)
    &&& f[4].0@ == "illust"@ && str_value_is(m.illust@, f[4].1)
    &&& f[5].0@ == "movein"@ && int_value_is(m.movein, f[5].1)
    &&& f[6].0@ == "movein_des"@ && str_value_is(m.movein_description@, f[6].1)
    &&& f[7].0@ == "moveon"@ && int_value_is(m.moveon, f[7].1)
    &&& f[8].0@ == "moveon_des"@ && str_value_is(m.moveon_description@, f[8].1)
    &&& f[9].0@ == "name"@ && str_value_is(m.name@, f[9].1)
    &&& f[10].0@ == "part"@ && (f[10].1 matches JsonValue::Arr(items) && items@.len()
        == m.part@.len() && forall|i: int|
        0 <= i < m.part@.len() ==> part_value_matches(m.part@[i], #[trigger] items@[i]))
    &&& f[11].0@ == "備考"@ && str_value_is(m.notes@, f[11].1)
    &&& f[12].0@ == "先制値"@ && int_value_is(m.initiative, f[12].1)
    &&& f[13].0@ == "共通特殊能力"@ && str_value_is(m.common_abilities@, f[13].1)
    &&& f[14].0@ == "弱点"@ && str_value_is(m.weakness@, f[14].1)
    &&& f[15].0@ == "弱点値"@ && int_value_is(m.weakness_value, f[15].1)
    &&& f[16].0@ == "生命抵抗力"@ && int_value_is(m.life_resistance, f[16].1)
    &&& f[17].0@ == "知名度"@ && int_value_is(m.fame, f[17].1)
    &&& f[18].0@ == "精神抵抗力"@ && int_value_is(m.mental_resistance, f[18].1)
}

/// The serialized form of a monster list.
pub fn monsters_to_json_value(data: &Vec<Monster>) -> (v: JsonValue)
    ensures
        monsters_value_matches(data@, v),
{
    let mut items: Vec<JsonValue> = Vec::new();
    let mut i: usize = 0;
    while i < data.len()
        invariant
            i <= data@.len(),
            items@.len() == i,
            forall|k: int| 0 <= k < i ==> monster_value_matches(data@[k], #[trigger] items@[k]),
        decreases data@.len() - i,
    {
        let mv = monster_to_json_value(&data[i]);
        items.push(mv);
        i = i + 1;
    }
    JsonValue::Arr(items)
}

/// The JSON export strategy.
#[derive(Debug)]
pub struct JsonExporter;

impl JsonExporter {
    /// The strategy's display name.
    pub fn name(&self) -> (r: String)
        ensures
            r@ == "JSON Exporter"@,
    {
        let mut r = String::new();
        r.append("JSON Exporter");
        proof {
            assert(r@ =~= "JSON Exporter"@);
        }
        r
    }

    /// The pretty-printed JSON text of a monster list: the rendering of a
    /// structured value matching the list. An empty list renders as `[]`.
    pub fn render_monsters(data: &Vec<Monster>) -> (r: String)
        ensures
            exists|v: JsonValue| #[trigger] monsters_value_matches(data@, v) && r@
                == spec_render_pretty(v, Seq::empty()),
            data@.len() == 0 ==> r@ == "[]"@,
    {
        let value = monsters_to_json_value(data);
        let r = render_pretty(&value);
        proof {
            assert(monsters_value_matches(data@, value) && r@ == spec_render_pretty(
                value,
                Seq::empty(),
            ));
        }
        r
    }
}

/// The name and level a re-parser reads back from one serialized
/// monster: the string under the name key and the integer under the
/// level key, when both are there with those shapes.
pub open spec fn monster_name_level(v: JsonValue) -> Option<(Seq<char>, i64)> {
    match v {
        JsonValue::Obj(fields) => match (
            obj_lookup(fields@, "name"@),
            obj_lookup(fields@, "Lv"@),
        ) {
            (Some(JsonValue::Str(n)), Some(JsonValue::Int(l))) => Some((n@, l)),
            _ => None,
        },
        _ => None,
    }
}

/// Field lookup skips any prefix whose keys all differ from the key
/// sought.
proof fn lemma_obj_lookup_past(fields: Seq<(String, JsonValue)>, key: Seq<char>, k: int)
    requires
        0 <= k <= fields.len(),
        forall|j: int| 0 <= j < k ==> (#[trigger] fields[j]).0@ != key,
    ensures
        obj_lookup(fields, key) == obj_lookup(fields.skip(k), key),
    decreases k,
{
    if k > 0 {
        assert(fields[0].0@ != key);
        assert(obj_lookup(fields, key) == obj_lookup(fields.skip(1), key));
        assert(forall|j: int| 0 <= j < k - 1 ==> (#[trigger] fields.skip(1)[j]).0@ != key) by {
            assert(forall|j: int| 0 <= j < k - 1 ==> fields.skip(1)[j] == fields[j + 1]);
        }
        lemma_obj_lookup_past(fields.skip(1), key, k - 1);
        assert(fields.skip(1).skip(k - 1) =~= fields.skip(k));
    } else {
        assert(fields.skip(0) =~= fields);
    }
}

/// The round trip the JSON exporter owes: any structured value matching
/// a monster list is an array of the same length, and looking the name
/// and level keys up in each element yields exactly the original
/// monster's name and level. So a re-parse of the exporter's output
/// reads the list back at equal length with equal names and levels.
pub proof fn lemma_json_export_round_trip(data: Seq<Monster>, v: JsonValue)
    requires
        monsters_value_matches(data, v),
    ensures
        v matches JsonValue::Arr(items) && items@.len() == data.len() && forall|i: int|
            0 <= i < data.len() ==> monster_name_level(#[trigger] items@[i]) == Some(
                (data[i].name@, data[i].level as i64),
            ),
{
    reveal_strlit("Category");
    reveal_strlit("Lv");
    reveal_strlit("Revision");
    reveal_strlit("data");
    reveal_strlit("illust");
    reveal_strlit("movein");
    reveal_strlit("movein_des");
    reveal_strlit("moveon");
    reveal_strlit("moveon_des");
    reveal_strlit("name");
    assert("Category"@.len() == 8);
    assert("Lv"@.len() == 2);
    assert("name"@.len() == 4);
    let items = v->Arr_0;
    assert forall|i: int| 0 <= i < data.len() implies monster_name_level(#[trigger] items@[i])
        == Some((data[i].name@, data[i].level as i64)) by {
        let m = data[i];
        let mv = items@[i];
        assert(monster_value_matches(m, mv));
        let fields = mv->Obj_0;
        let f = fields@;
        assert("Category"@ != "Lv"@);
        lemma_obj_lookup_past(f, "Lv"@, 1);
        assert(f.skip(1)[0] == f[1]);
        assert(obj_lookup(f, "Lv"@) == Some(f[1].1));

        assert("Category"@ != "name"@);
        assert("Lv"@ != "name"@);
        assert("Revision"@ != "name"@);
        assert("data"@[0] == 'd' && "name"@[0] == 'n');
        assert("data"@ != "name"@);
        assert("illust"@ != "name"@);
        assert("movein"@ != "name"@);
        assert("movein_des"@ != "name"@);
        assert("moveon"@ != "name"@);
        assert("moveon_des"@ != "name"@);
        lemma_obj_lookup_past(f, "name"@, 9);
        assert(f.skip(9)[0] == f[9]);
        assert(obj_lookup(f, "name"@) == Some(f[9].1));
    }
}

} // verus!
