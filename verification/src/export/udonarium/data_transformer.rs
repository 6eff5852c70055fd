//! Projects a monster record and its disambiguated part names into the
//! virtual-tabletop view: a read-only per-part projection with sentinel
//! values normalized, constructed fresh per export.

use vstd::prelude::*;
use vstd::string::StringExecFns;
use crate::{core_flag, Monster};
use crate::export::sheets::{spec_movement, spec_transform_weakness};
use crate::text::{i32_to_string, int_dec_of};

verus! {

/// The virtual-tabletop view of one monster.
#[derive(Debug, Clone)]
pub struct TransformedMonster {
    /// Monster name.
    pub name: String,
    /// Monster category.
    pub category: String,
    /// Monster level.
    pub level: i32,
    /// Fame statistic, shown on the core part only.
    pub fame: i32,
    /// Initiative statistic, shown on the core part only.
    pub initiative: i32,
    /// Abilities shared by all parts.
    pub common_abilities: String,
    /// The per-part projections, in part order.
    pub parts: Vec<TransformedPart>,
}

/// The virtual-tabletop view of one body part. The hit, dodge and
/// resistance statistics are still nominal here; the stat adjustment is
/// applied at rendering time, not at transform time.
#[derive(Debug, Clone)]
pub struct TransformedPart {
    /// Display name, as assigned by the part namer.
    pub display_name: String,
    /// Hit points; 0 when the record had none.
    pub hp: i32,
    /// Magic points; the unknown sentinel maps to 0.
    pub mp: i32,
    /// Armor statistic.
    pub armor: i32,
    /// Hit statistic, nominal.
    pub hit_rate: i32,
    /// Dodge statistic, nominal.
    pub dodge: i32,
    /// Damage statistic, already a base value.
    pub damage: i32,
    /// Life resistance, nominal, copied from the monster onto every part.
    pub life_resistance: i32,
    /// Mental resistance, nominal, copied from the monster onto every part.
    pub mental_resistance: i32,
    /// This part's special abilities.
    pub special_abilities: String,
    /// Whether this is the core part.
    pub is_core: bool,
    /// Weakness text; empty unless this is the core part.
    pub weakness: String,
    /// Weakness value; zero unless this is the core part.
    pub weakness_value: i32,
}

/// The nominal-to-base statistic rule: seven less, clamped at zero.
pub open spec fn spec_adjust(v: int) -> int {
    if v - 7 > 0 {
        v - 7
    } else {
        0
    }
}

/// The nominal-to-base rule and the fixed-value judgment formulas are
/// inverse to one another: adding the die-average offset back to an
/// adjusted statistic recovers the nominal value, whenever the nominal
/// value carries the offset at all.
pub proof fn lemma_adjust_inverts_offset(v: int)
    requires
        v >= 7,
    ensures
        spec_adjust(v) + 7 == v,
{
}

/// An optional statistic, defaulting to zero.
pub open spec fn opt_or_zero(v: Option<i32>) -> i32 {
    match v {
        Some(x) => x,
        None => 0,
    }
}

/// What the projection of part `i` of a monster must hold, given the
/// display names assigned by the part namer.
pub open spec fn part_projection_matches(
    m: Monster,
    display_names: Seq<String>,
    i: int,
    tp: TransformedPart,
) -> bool {
    let p = m.part@[i];
    &&& tp.display_name@ == if i < display_names.len() {
        display_names[i]@
    } else {
        Seq::<char>::empty()
    }
    &&& tp.hp == opt_or_zero(p.hp)
    &&& tp.mp == if p.mp < 0 {
        0
    } else {
        p.mp
    }
    &&& tp.armor == p.armor
    &&& tp.hit_rate == opt_or_zero(p.hit_rate)
    &&& tp.dodge == opt_or_zero(p.dodge)
    &&& tp.damage == opt_or_zero(p.damage)
    &&& tp.life_resistance == m.life_resistance
    &&& tp.mental_resistance == m.mental_resistance
    &&& tp.special_abilities@ == p.special_abilities@
    &&& tp.is_core == core_flag(p)
    &&& tp.weakness@ == if core_flag(p) {
        m.weakness@
    } else {
        Seq::<char>::empty()
    }
    &&& tp.weakness_value == if core_flag(p) {
        m.weakness_value
    } else {
        0
    }
}

/// The projection engine from monster records to the virtual-tabletop
/// view.
pub struct DataTransformer;

impl DataTransformer {
    /// Projects a monster and its assigned display names into the
    /// virtual-tabletop view; a missing display name becomes empty.
    pub fn transform(monster: &Monster, display_names: Vec<String>) -> (r: TransformedMonster)
        ensures
            r.name@ == monster.name@,
            r.category@ == monster.category@,
            r.level == monster.level,
            r.fame == monster.fame,
            r.initiative == monster.initiative,
            r.common_abilities@ == monster.common_abilities@,
            r.parts@.len() == monster.part@.len(),
            forall|i: int| 0 <= i < monster.part@.len() ==> part_projection_matches(
                *monster,
                display_names@,
                i,
                #[trigger] r.parts@[i],
            ),
    {
        let mut parts: Vec<TransformedPart> = Vec::new();
        let mut i: usize = 0;
        while i < monster.part.len()
            invariant
                i <= monster.part@.len(),
                parts@.len() == i,
                forall|k: int| 0 <= k < i ==> part_projection_matches(
                    *monster,
                    display_names@,
                    k,
                    #[trigger] parts@[k],
                ),
            decreases monster.part@.len() - i,
        {
            let part = &monster.part[i];
            let display_name = if i < display_names.len() {
                display_names[i].clone()
            } else {
                String::new()
            };
            let is_core = match part.core {
                Some(b) => b,
                None => false,
            };
            let transformed_part = TransformedPart {
                display_name,
                hp: match part.hp {
                    Some(h) => h,
                    None => 0,
                },
                mp: if part.mp < 0 {
                    0
                } else {
                    part.mp
                },
                armor: part.armor,
                hit_rate: match part.hit_rate {
                    Some(h) => h,
                    None => 0,
                },
                dodge: match part.dodge {
                    Some(d) => d,
                    None => 0,
                },
                damage: match part.damage {
                    Some(d) => d,
                    None => 0,
                },
                life_resistance: monster.life_resistance,
                mental_resistance: monster.mental_resistance,
                special_abilities: part.special_abilities.clone(),
                is_core,
                weakness: if is_core {
                    monster.weakness.clone()
                } else {
                    String::new()
                },
                weakness_value: if is_core {
                    monster.weakness_value
                } else {
                    0
                },
            };
            parts.push(transformed_part);
            i = i + 1;
        }
        TransformedMonster {
            name: monster.name.clone(),
            category: monster.category.clone(),
            level: monster.level,
            fame: monster.fame,
            initiative: monster.initiative,
            common_abilities: monster.common_abilities.clone(),
            parts,
        }
    }

    /// The weakness text rule, shared with the spreadsheet converter.
    pub fn transform_weakness(weakness: &str) -> (r: String)
        ensures
            r@ == spec_transform_weakness(weakness@),
    {
        crate::export::sheets::DataTransformer::transform_weakness(weakness)
    }

    /// The nominal-to-base statistic rule: seven less, clamped at zero.
    /// Damage and armor are never run through this.
    pub fn adjust_value(value: i32) -> (r: i32)
        ensures
            r == spec_adjust(value as int),
    {
        if value <= 7 {
            0
        } else {
            value - 7
        }
    }

    /// A movement text: "-" for the no-movement sentinel, the bare value
    /// when the note is empty, else the value with the note in parentheses
    /// on a second line.
    pub fn format_movement(value: i32, description: &str) -> (r: String)
        ensures
            r@ == spec_movement(value, description@),
    {
        crate::export::sheets::DataTransformer::movement_text(value, description)
    }

    /// A value with an optional name appended in parentheses on a second
    /// line.
    pub fn format_optional_name(value: &str, name: &str) -> (r: String)
        ensures
            r@ == if name@.len() == 0 {
                value@
            } else {
                value@ + "\n("@ + name@ + ")"@
            },
    {
        let mut r = String::new();
        r.append(value);
        if !name.is_empty() {
            r.append("\n(");
            r.append(name);
            r.append(")");
        }
        proof {
            if name@.len() == 0 {
                assert(r@ =~= value@);
            } else {
                assert(r@ =~= value@ + "\n("@ + name@ + ")"@);
            }
        }
        r
    }
}

} // verus!
