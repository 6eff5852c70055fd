//! Disambiguates display and file names for a creature's body parts: a
//! zero-based occurrence counter per part name, a star-free display name,
//! and a file name that stays unique across duplicate part names.

use vstd::prelude::*;
use vstd::string::StringExecFns;
use crate::{core_flag, Part};
use crate::text::{dec_of, str_eq, u64_to_string};

verus! {

/// A name pair assigned to one body part.
#[derive(Debug, Clone)]
pub struct PartName {
    /// File name, without extension.
    pub filename: String,
    /// Display name, as shown on the character sheet.
    pub display_name: String,
}

/// How many of the given parts carry this name.
pub open spec fn count_name(parts: Seq<Part>, name: Seq<char>) -> nat
    decreases parts.len(),
{
    if parts.len() == 0 {
        0
    } else {
        count_name(parts.drop_last(), name) + if parts.last().name@ == name {
            1nat
        } else {
            0nat
        }
    }
}

/// The zero-based occurrence index of part `i` among the parts sharing
/// its name, in encounter order.
pub open spec fn occurrence_index(parts: Seq<Part>, i: int) -> nat {
    count_name(parts.take(i), parts[i].name@)
}

/// The file name assigned to part `i`: the creature name; with the
/// occurrence index for an unnamed non-core part; with the part name for
/// a named part; and with both when the part name is shared.
pub open spec fn spec_file_name(creature: Seq<char>, parts: Seq<Part>, i: int) -> Seq<char> {
    let p = parts[i];
    if p.name@.len() == 0 {
        if core_flag(p) {
            creature
        } else {
            creature + "_"@ + dec_of(occurrence_index(parts, i))
        }
    } else if count_name(parts, p.name@) > 1 {
        creature + "_"@ + p.name@ + "_"@ + dec_of(occurrence_index(parts, i))
    } else {
        creature + "_"@ + p.name@
    }
}

/// The display name assigned to part `i`: the file name for an unnamed
/// part, else the creature name with the part name in parentheses on a
/// second line, identical across duplicates.
pub open spec fn spec_display_name(creature: Seq<char>, parts: Seq<Part>, i: int) -> Seq<char> {
    let p = parts[i];
    if p.name@.len() == 0 {
        if core_flag(p) {
            creature
        } else {
            creature + "_"@ + dec_of(occurrence_index(parts, i))
        }
    } else {
        creature + "\n("@ + p.name@ + ")"@
    }
}

/// The naming engine. The decision table is a function of the whole part
/// list, which `generate_names` receives; the namer itself keeps no
/// state.
pub struct PartNamer {}

impl PartNamer {
    /// A namer for the given parts. The duplicate counts the decision
    /// table needs are functions of the part list, which `generate_names`
    /// receives in full, so there is nothing to precompute here.
    #[allow(unused_variables)]
    pub fn new(parts: &Vec<Part>) -> (r: PartNamer) {
        PartNamer {  }
    }

    /// How many parts of `parts` up to (excluding) position `end` carry
    /// `name`.
    fn count_before(parts: &Vec<Part>, name: &str, end: usize) -> (r: usize)
        requires
            end <= parts@.len(),
        ensures
            r == count_name(parts@.take(end as int), name@),
    {
        let mut count: usize = 0;
        let mut j: usize = 0;
        proof {
            assert(parts@.take(0) =~= Seq::<Part>::empty());
        }
        while j < end
            invariant
                j <= end <= parts@.len(),
                count == count_name(parts@.take(j as int), name@),
                count <= j,
            decreases end - j,
        {
            proof {
                assert(parts@.take(j as int + 1).drop_last() =~= parts@.take(j as int));
                assert(parts@.take(j as int + 1).last() == parts@[j as int]);
            }
            if str_eq(parts[j].name.as_str(), name) {
                count = count + 1;
            }
            j = j + 1;
        }
        count
    }

    /// Assigns a file name and a display name to every part, in order.
    pub fn generate_names(&self, parts: &Vec<Part>, monster_name: &str) -> (r: Vec<PartName>)
        ensures
            r@.len() == parts@.len(),
            forall|i: int| 0 <= i < parts@.len() ==> (#[trigger] r@[i]).filename@
                == spec_file_name(monster_name@, parts@, i) && r@[i].display_name@
                == spec_display_name(monster_name@, parts@, i),
    {
        let mut result: Vec<PartName> = Vec::new();
        let mut i: usize = 0;
        while i < parts.len()
            invariant
                i <= parts@.len(),
                result@.len() == i,
                forall|k: int| 0 <= k < i ==> (#[trigger] result@[k]).filename@
                    == spec_file_name(monster_name@, parts@, k) && result@[k].display_name@
                    == spec_display_name(monster_name@, parts@, k),
            decreases parts@.len() - i,
        {
            let part = &parts[i];
            let occurrence = Self::count_before(parts, part.name.as_str(), i);
            let total = Self::count_before(parts, part.name.as_str(), parts.len());
            proof {
                assert(parts@.take(parts@.len() as int) =~= parts@);
            }
            let is_core = match part.core {
                Some(b) => b,
                None => false,
            };
            let pair: PartName = if part.name.as_str().is_empty() {
                if is_core {
                    let mut f = String::new();
                    f.append(monster_name);
                    let mut d = String::new();
                    d.append(monster_name);
                    proof {
                        assert(f@ =~= monster_name@);
                        assert(d@ =~= monster_name@);
                    }
                    PartName { filename: f, display_name: d }
                } else {
                    let idx = u64_to_string(occurrence as u64);
                    let mut f = String::new();
                    f.append(monster_name);
                    f.append("_");
                    f.append(idx.as_str());
                    let mut d = String::new();
                    d.append(monster_name);
                    d.append("_");
                    d.append(idx.as_str());
                    proof {
                        assert(f@ =~= monster_name@ + "_"@ + dec_of(
                            occurrence_index(parts@, i as int),
                        ));
                        assert(d@ =~= monster_name@ + "_"@ + dec_of(
                            occurrence_index(parts@, i as int),
                        ));
                    }
                    PartName { filename: f, display_name: d }
                }
            } else {
                let mut d = String::new();
                d.append(monster_name);
                d.append("\n(");
                d.append(part.name.as_str());
                d.append(")");
                proof {
                    assert(d@ =~= monster_name@ + "\n("@ + part.name@ + ")"@);
                }
                if total > 1 {
                    let idx = u64_to_string(occurrence as u64);
                    let mut f = String::new();
                    f.append(monster_name);
                    f.append("_");
                    f.append(part.name.as_str());
                    f.append("_");
                    f.append(idx.as_str());
                    proof {
                        assert(f@ =~= monster_name@ + "_"@ + part.name@ + "_"@ + dec_of(
                            occurrence_index(parts@, i as int),
                        ));
                    }
                    PartName { filename: f, display_name: d }
                } else {
                    let mut f = String::new();
                    f.append(monster_name);
                    f.append("_");
                    f.append(part.name.as_str());
                    proof {
                        assert(f@ =~= monster_name@ + "_"@ + part.name@);
                    }
                    PartName { filename: f, display_name: d }
                }
            };
            result.push(pair);
            i = i + 1;
        }
        result
    }
}

} // verus!
