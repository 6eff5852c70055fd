//! The virtual-tabletop export strategy: part naming, the per-part view,
//! XML character sheets and the zip archive that bundles them. Writing
//! the archive file is the caller's business.

use vstd::prelude::*;
use vstd::string::StringExecFns;
use crate::{core_flag, Monster};

pub mod data_transformer;
pub mod part_namer;
pub mod xml_generator;
pub mod zip_writer;

use data_transformer::{opt_or_zero, part_projection_matches, DataTransformer};
use part_namer::{spec_display_name, spec_file_name, PartNamer};
use xml_generator::{spec_core_xml, spec_non_core_xml, spec_part_xml, XmlGenerator};
use zip_writer::{entries_fit, entry_view, zip_bytes_of, ZipFileWriter};

verus! {

/// The character sheet text of part `i` of a monster record: the
/// projection rules of the virtual-tabletop view, with the display name
/// the part namer assigns, plugged into the core or non-core template.
pub open spec fn spec_monster_part_xml(m: Monster, i: int) -> Seq<char> {
    let p = m.part@[i];
    let dn = spec_display_name(m.name@, m.part@, i);
    if core_flag(p) {
        spec_core_xml(
            dn,
            opt_or_zero(p.hp) as int,
            if p.mp < 0 {
                0int
            } else {
                p.mp as int
            },
            p.armor as int,
            opt_or_zero(p.hit_rate) as int,
            opt_or_zero(p.damage) as int,
            opt_or_zero(p.dodge) as int,
            m.life_resistance as int,
            m.mental_resistance as int,
            m.common_abilities@,
            p.special_abilities@,
            m.fame as int,
            m.weakness_value as int,
            m.initiative as int,
            m.weakness@,
            m.category@,
            m.level as int,
        )
    } else {
        spec_non_core_xml(
            dn,
            opt_or_zero(p.hp) as int,
            if p.mp < 0 {
                0int
            } else {
                p.mp as int
            },
            p.armor as int,
            opt_or_zero(p.hit_rate) as int,
            opt_or_zero(p.damage) as int,
            opt_or_zero(p.dodge) as int,
            m.life_resistance as int,
            m.mental_resistance as int,
            m.common_abilities@,
            p.special_abilities@,
        )
    }
}

/// The archive entries of one monster, one per body part: the namer's
/// file name with the xml extension, and the rendered character sheet.
pub open spec fn spec_monster_entries(m: Monster) -> Seq<(Seq<char>, Seq<char>)> {
    Seq::new(
        m.part@.len(),
        |i: int| (spec_file_name(m.name@, m.part@, i) + ".xml"@, spec_monster_part_xml(m, i)),
    )
}

/// The archive entries of a list of monsters, in order.
pub open spec fn spec_archive_entries(data: Seq<Monster>) -> Seq<(Seq<char>, Seq<char>)>
    decreases data.len(),
{
    if data.len() == 0 {
        Seq::empty()
    } else {
        spec_archive_entries(data.drop_last()) + spec_monster_entries(data.last())
    }
}

/// The virtual-tabletop export strategy.
#[derive(Debug)]
pub struct UdonariumExporter;

impl UdonariumExporter {
    /// The strategy's display name.
    pub fn name(&self) -> (r: String)
        ensures
            r@ == "Udonarium Exporter"@,
    {
        let mut r = String::new();
        r.append("Udonarium Exporter");
        proof {
            assert(r@ =~= "Udonarium Exporter"@);
        }
        r
    }

    /// The archive entries of one monster: per part, the namer's file
    /// name with the xml extension and the rendered character sheet.
    pub fn monster_entries(monster: &Monster) -> (r: Vec<(String, String)>)
        ensures
            r@.map_values(|e: (String, String)| entry_view(e)) == spec_monster_entries(*monster),
    {
        let namer = PartNamer::new(&monster.part);
        let part_names = namer.generate_names(&monster.part, monster.name.as_str());

        let mut display_names: Vec<String> = Vec::new();
        let mut i: usize = 0;
        while i < part_names.len()
            invariant
                i <= part_names@.len(),
                part_names@.len() == monster.part@.len(),
                display_names@.len() == i,
                forall|k: int| 0 <= k < i ==> (#[trigger] display_names@[k])@
                    == spec_display_name(monster.name@, monster.part@, k),
                forall|k: int| 0 <= k < part_names@.len() ==> (#[trigger] part_names@[k]).filename@
                    == spec_file_name(monster.name@, monster.part@, k)
                    && part_names@[k].display_name@ == spec_display_name(
                    monster.name@,
                    monster.part@,
                    k,
                ),
            decreases part_names@.len() - i,
        {
            display_names.push(part_names[i].display_name.clone());
            i = i + 1;
        }

        let ghost dnv = display_names@;
        let transformed = DataTransformer::transform(monster, display_names);

        let mut r: Vec<(String, String)> = Vec::new();
        let mut j: usize = 0;
        while j < transformed.parts.len()
            invariant
                j <= transformed.parts@.len(),
                transformed.parts@.len() == monster.part@.len(),
                transformed.name@ == monster.name@,
                transformed.category@ == monster.category@,
                transformed.level == monster.level,
                transformed.fame == monster.fame,
                transformed.initiative == monster.initiative,
                transformed.common_abilities@ == monster.common_abilities@,
                part_names@.len() == monster.part@.len(),
                dnv.len() == monster.part@.len(),
                forall|k: int| 0 <= k < dnv.len() ==> (#[trigger] dnv[k])@ == spec_display_name(
                    monster.name@,
                    monster.part@,
                    k,
                ),
                forall|k: int| 0 <= k < part_names@.len() ==> (#[trigger] part_names@[k]).filename@
                    == spec_file_name(monster.name@, monster.part@, k),
                forall|k: int| 0 <= k < monster.part@.len() ==> part_projection_matches(
                    *monster,
                    dnv,
                    k,
                    #[trigger] transformed.parts@[k],
                ),
                r@.len() == j,
                forall|k: int| 0 <= k < j ==> entry_view(#[trigger] r@[k]) == (
                    spec_file_name(monster.name@, monster.part@, k) + ".xml"@,
                    spec_monster_part_xml(*monster, k),
                ),
            decreases transformed.parts@.len() - j,
        {
            let xml = match XmlGenerator::generate_xml(&transformed, j) {
                Ok(xml) => xml,
                Err(m) => {
                    proof {
                        assert(false);
                    }
                    m
                },
            };
            proof {
                assert(part_projection_matches(
                    *monster,
                    dnv,
                    j as int,
                    transformed.parts@[j as int],
                ));
                assert(spec_part_xml(transformed, j as int) == spec_monster_part_xml(
                    *monster,
                    j as int,
                ));
            }
            let mut filename = String::new();
            filename.append(part_names[j].filename.as_str());
            filename.append(".xml");
            proof {
                assert(filename@ =~= spec_file_name(monster.name@, monster.part@, j as int)
                    + ".xml"@);
            }
            r.push((filename, xml));
            j = j + 1;
        }
        proof {
            assert(r@.map_values(|e: (String, String)| entry_view(e)) =~= spec_monster_entries(
                *monster,
            ));
        }
        r
    }

    /// The archive entries of a list of monsters, in order.
    pub fn archive_entries(data: &Vec<Monster>) -> (r: Vec<(String, String)>)
        ensures
            r@.map_values(|e: (String, String)| entry_view(e)) == spec_archive_entries(data@),
    {
        let mut r: Vec<(String, String)> = Vec::new();
        let mut i: usize = 0;
        proof {
            assert(r@.map_values(|e: (String, String)| entry_view(e)) =~= spec_archive_entries(
                data@.subrange(0, 0),
            ));
        }
        while i < data.len()
            invariant
                i <= data@.len(),
                r@.map_values(|e: (String, String)| entry_view(e)) == spec_archive_entries(
                    data@.subrange(0, i as int),
                ),
            decreases data@.len() - i,
        {
            let mut entries = Self::monster_entries(&data[i]);
            let ghost r0 = r@;
            let ghost e0 = entries@;
            r.append(&mut entries);
            proof {
                assert(data@.subrange(0, i as int + 1).drop_last() =~= data@.subrange(
                    0,
                    i as int,
                ));
                assert(data@.subrange(0, i as int + 1).last() == data@[i as int]);
                assert((r0 + e0).map_values(|e: (String, String)| entry_view(e)) =~= r0.map_values(
                    |e: (String, String)| entry_view(e),
                ) + e0.map_values(|e: (String, String)| entry_view(e)));
            }
            i = i + 1;
        }
        proof {
            assert(data@.subrange(0, data@.len() as int) =~= data@);
        }
        r
    }

    /// The bytes of the zip archive of a list of monsters: one character
    /// sheet per body part, named by the part namer. Success is owed
    /// whenever every sheet fits a plain zip entry; an oversized sheet is
    /// reported as the zip crate's message.
    pub fn build_archive(data: &Vec<Monster>) -> (r: Result<Vec<u8>, String>)
        ensures
            entries_fit(spec_archive_entries(data@)) ==> r is Ok,
            r matches Ok(bytes) ==> bytes@ == zip_bytes_of(spec_archive_entries(data@)),
    {
        let entries = Self::archive_entries(data);
        ZipFileWriter::create_zip(&entries)
    }
}

} // verus!
