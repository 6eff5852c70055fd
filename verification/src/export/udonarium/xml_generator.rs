//! Renders the virtual-tabletop view of one body part as a standalone
//! XML character sheet, from a core-part or a non-core-part template.
//! Both emit identity, resource, statistics and abilities blocks and an
//! embedded chat-macro block; the core-part template adds the combat-prep,
//! weakness-info and species notes. The four non-damage statistics are run
//! through the nominal-to-base adjustment at this point.

use vstd::prelude::*;
use vstd::string::StringExecFns;
use super::data_transformer::{DataTransformer, TransformedMonster, TransformedPart, spec_adjust};
use crate::export::sheets::spec_transform_weakness;
use crate::text::{dec_of, i32_to_string, int_dec_of, u64_to_string};

verus! {

/// The character sheet text of a core part, over the values that fill
/// the template: both shared blocks and the combat-prep, weakness-info
/// and species notes.
pub open spec fn spec_core_xml(
    display_name: Seq<char>,
    hp: int,
    mp: int,
    armor: int,
    hit_rate: int,
    damage: int,
    dodge: int,
    life_resistance: int,
    mental_resistance: int,
    common_abilities: Seq<char>,
    special_abilities: Seq<char>,
    fame: int,
    weakness_value: int,
    initiative: int,
    weakness: Seq<char>,
    category: Seq<char>,
    level: int,
) -> Seq<char> {
    "<?xml version=\"1.0\" encoding=\"utf-8\"?>\n<character location.name=\"table\" location.x=\"0\" location.y=\"0\" posZ=\"0\" rotate=\"0\" roll=\"0\">\n  <data name=\"character\">\n    <data name=\"image\">\n      <data type=\"image\" name=\"imageIdentifier\"></data>\n    </data>\n    <data name=\"common\">\n      <data name=\"name\">"@
        + display_name
        + "</data>\n      <data name=\"size\">1</data>\n    </data>\n    <data name=\"detail\">\n      <data name=\"リソース\">\n        <data type=\"numberResource\" currentValue=\""@
        + int_dec_of(hp)
        + "\" name=\"HP\">"@
        + int_dec_of(hp)
        + "</data>\n        <data type=\"numberResource\" currentValue=\""@
        + int_dec_of(mp)
        + "\" name=\"MP\">"@
        + int_dec_of(mp)
        + "</data>\n        <data type=\"numberResource\" currentValue=\""@
        + int_dec_of(armor)
        + "\" name=\"防護点\">"@
        + int_dec_of(armor)
        + "</data>\n      </data>\n      <data name=\"ステータス・バフ・デバフ\">\n        <data name=\"命中力\" type=\"number\">"@
        + int_dec_of(spec_adjust(hit_rate))
        + "</data>\n        <data name=\"打撃点\" type=\"number\">"@
        + int_dec_of(damage)
        + "</data>\n        <data name=\"回避力\" type=\"number\">"@
        + int_dec_of(spec_adjust(dodge))
        + "</data>\n        <data name=\"生命抵抗力\" type=\"number\">"@
        + int_dec_of(spec_adjust(life_resistance))
        + "</data>\n        <data name=\"精神抵抗力\" type=\"number\">"@
        + int_dec_of(spec_adjust(mental_resistance))
        + "</data>\n      </data>\n      <data name=\"特殊能力\">\n        <data name=\"特殊能力1\" type=\"note\">"@
        + common_abilities
        + "</data>\n        <data name=\"特殊能力2\" type=\"note\">"@
        + special_abilities
        + "</data>\n      </data>\n       <data name=\"戦闘準備\">\n         <data name=\"魔物知識・先制判定\" type=\"note\">"@
        + int_dec_of(fame)
        + "/"@
        + int_dec_of(weakness_value)
        + "\n"@
        + int_dec_of(initiative)
        + "</data>\n       </data>\n      <data name=\"情報\">\n        <data name=\"弱点\" type=\"note\">"@
        + spec_transform_weakness(weakness)
        + "</data>\n      </data>\n      <data name=\"魔物知識\">\n        <data name=\"生態\" type=\"note\">"@
        + category
        + " Lv."@
        + int_dec_of(level)
        + "</data>\n      </data>\n    </data>\n  </data>\n  <chat-palette dicebot=\"SwordWorld2.5\">\n//-----計算\nC({HP}+{防護点}+{ダメージ軽減}-()) 　【残HP（物理ダメージ）】\nC({HP}+{ダメージ軽減}-())　【残HP（魔法ダメージ）】\nC({MP}-())　【MP消費】\nC{HP}　【現在HP】\nC{MP}　【現在MP】\n\n//-----固定値判定\nC({命中力}+7) 命中判定（固定値）\nC({回避力}+7) 回避判定（固定値）\nC({生命抵抗力}+7) 生命抵抗判定（固定値）\nC({精神抵抗力}+7) 精神抵抗判定（固定値）\n\n//-----ダイス判定\n2d+{命中力}　命中判定\n2d+{打撃点}　ダメージロール\n2d+{回避力}　回避判定\n2d+{生命抵抗力}　生命抵抗判定\n2d+{精神抵抗力}　精神抵抗判定\n  </chat-palette>\n</character>"@
}

/// The character sheet text of a non-core part, over the values that
/// fill the template: the shared blocks only.
pub open spec fn spec_non_core_xml(
    display_name: Seq<char>,
    hp: int,
    mp: int,
    armor: int,
    hit_rate: int,
    damage: int,
    dodge: int,
    life_resistance: int,
    mental_resistance: int,
    common_abilities: Seq<char>,
    special_abilities: Seq<char>,
) -> Seq<char> {
    "<?xml version=\"1.0\" encoding=\"utf-8\"?>\n  <character location.name=\"table\" location.x=\"0\" location.y=\"0\" posZ=\"0\" rotate=\"0\" roll=\"0\">\n    <data name=\"character\">\n      <data name=\"image\">\n        <data type=\"image\" name=\"imageIdentifier\"></data>\n      </data>\n      <data name=\"common\">\n        <data name=\"name\">"@
        + display_name
        + "</data>\n        <data name=\"size\">1</data>\n      </data>\n      <data name=\"detail\">\n       <data name=\"リソース\">\n         <data type=\"numberResource\" currentValue=\""@
        + int_dec_of(hp)
        + "\" name=\"HP\">"@
        + int_dec_of(hp)
        + "</data>\n         <data type=\"numberResource\" currentValue=\""@
        + int_dec_of(mp)
        + "\" name=\"MP\">"@
        + int_dec_of(mp)
        + "</data>\n         <data type=\"numberResource\" currentValue=\""@
        + int_dec_of(armor)
        + "\" name=\"防護点\">"@
        + int_dec_of(armor)
        + "</data>\n       </data>\n       <data name=\"ステータス・バフ・デバフ\">\n         <data name=\"命中力\" type=\"number\">"@
        + int_dec_of(spec_adjust(hit_rate))
        + "</data>\n         <data name=\"打撃点\" type=\"number\">"@
        + int_dec_of(damage)
        + "</data>\n         <data name=\"回避力\" type=\"number\">"@
        + int_dec_of(spec_adjust(dodge))
        + "</data>\n         <data name=\"生命抵抗力\" type=\"number\">"@
        + int_dec_of(spec_adjust(life_resistance))
        + "</data>\n         <data name=\"精神抵抗力\" type=\"number\">"@
        + int_dec_of(spec_adjust(mental_resistance))
        + "</data>\n       </data>\n       <data name=\"特殊能力\">\n         <data name=\"特殊能力1\" type=\"note\">"@
        + common_abilities
        + "</data>\n         <data name=\"特殊能力2\" type=\"note\">"@
        + special_abilities
        + "</data>\n       </data>\n     </data>\n   </data>\n   <chat-palette dicebot=\"SwordWorld2.5\">\n//-----計算\nC({HP}+{防護点}+{ダメージ軽減}-()) 　【残HP（物理ダメージ）】\nC({HP}+{ダメージ軽減}-())　【残HP（魔法ダメージ）】\nC({MP}-())　【MP消費】\nC{HP}　【現在HP】\nC{MP}　【現在MP】\n\n//-----固定値判定\nC({命中力}+7) 命中判定（固定値）\nC({回避力}+7) 回避判定（固定値）\nC({生命抵抗力}+7) 生命抵抗判定（固定値）\nC({精神抵抗力}+7) 精神抵抗判定（固定値）\n\n//-----ダイス判定\n2d+{命中力}　命中判定\n2d+{打撃点}　ダメージロール\n2d+{回避力}　回避判定\n2d+{生命抵抗力}　生命抵抗判定\n2d+{精神抵抗力}　精神抵抗判定\n   </chat-palette>\n </character>"@
}

/// The text that part `i` of a transformed monster renders to: the core
/// or the non-core template, by the part's core flag.
pub open spec fn spec_part_xml(m: TransformedMonster, i: int) -> Seq<char> {
    let p = m.parts@[i];
    if p.is_core {
        spec_core_xml(
            p.display_name@,
            p.hp as int,
            p.mp as int,
            p.armor as int,
            p.hit_rate as int,
            p.damage as int,
            p.dodge as int,
            p.life_resistance as int,
            p.mental_resistance as int,
            m.common_abilities@,
            p.special_abilities@,
            m.fame as int,
            p.weakness_value as int,
            m.initiative as int,
            p.weakness@,
            m.category@,
            m.level as int,
        )
    } else {
        spec_non_core_xml(
            p.display_name@,
            p.hp as int,
            p.mp as int,
            p.armor as int,
            p.hit_rate as int,
            p.damage as int,
            p.dodge as int,
            p.life_resistance as int,
            p.mental_resistance as int,
            m.common_abilities@,
            p.special_abilities@,
        )
    }
}

/// The XML renderer for the virtual-tabletop view.
pub struct XmlGenerator;

impl XmlGenerator {
    /// The character sheet document for part `part_index` of a
    /// transformed monster; an index past the parts is rejected.
    pub fn generate_xml(transformed: &TransformedMonster, part_index: usize) -> (r: Result<
        String,
        String,
    >)
        ensures
            match r {
                Ok(xml) => part_index < transformed.parts@.len() && xml@ == spec_part_xml(
                    *transformed,
                    part_index as int,
                ),
                Err(m) => part_index >= transformed.parts@.len() && m@ == "Part index "@
                    + dec_of(part_index as nat) + " out of bounds"@,
            },
    {
        if part_index >= transformed.parts.len() {
            let mut m = String::new();
            m.append("Part index ");
            let idx = u64_to_string(part_index as u64);
            m.append(idx.as_str());
            m.append(" out of bounds");
            proof {
                assert(m@ =~= "Part index "@ + dec_of(part_index as nat) + " out of bounds"@);
            }
            return Err(m);
        }
        let part = &transformed.parts[part_index];
        if part.is_core {
            Ok(Self::generate_core_part_xml(transformed, part))
        } else {
            Ok(Self::generate_non_core_part_xml(transformed, part))
        }
    }

    /// Renders the core-part template.
    fn generate_core_part_xml(m: &TransformedMonster, p: &TransformedPart) -> (r: String)
        ensures
            r@ == spec_core_xml(
            p.display_name@,
            p.hp as int,
            p.mp as int,
            p.armor as int,
            p.hit_rate as int,
            p.damage as int,
            p.dodge as int,
            p.life_resistance as int,
            p.mental_resistance as int,
            m.common_abilities@,
            p.special_abilities@,
            m.fame as int,
            p.weakness_value as int,
            m.initiative as int,
            p.weakness@,
            m.category@,
            m.level as int,
        ),
    {
        let mut xml = String::new();
        xml.append("<?xml version=\"1.0\" encoding=\"utf-8\"?>\n<character location.name=\"table\" location.x=\"0\" location.y=\"0\" posZ=\"0\" rotate=\"0\" roll=\"0\">\n  <data name=\"character\">\n    <data name=\"image\">\n      <data type=\"image\" name=\"imageIdentifier\"></data>\n    </data>\n    <data name=\"common\">\n      <data name=\"name\">");
        xml.append(p.display_name.as_str());
        xml.append("</data>\n      <data name=\"size\">1</data>\n    </data>\n    <data name=\"detail\">\n      <data name=\"リソース\">\n        <data type=\"numberResource\" currentValue=\"");
        let t = i32_to_string(p.hp);
        xml.append(t.as_str());
        xml.append("\" name=\"HP\">");
        let t = i32_to_string(p.hp);
        xml.append(t.as_str());
        xml.append("</data>\n        <data type=\"numberResource\" currentValue=\"");
        let t = i32_to_string(p.mp);
        xml.append(t.as_str());
        xml.append("\" name=\"MP\">");
        let t = i32_to_string(p.mp);
        xml.append(t.as_str());
        xml.append("</data>\n        <data type=\"numberResource\" currentValue=\"");
        let t = i32_to_string(p.armor);
        xml.append(t.as_str());
        xml.append("\" name=\"防護点\">");
        let t = i32_to_string(p.armor);
        xml.append(t.as_str());
        xml.append("</data>\n      </data>\n      <data name=\"ステータス・バフ・デバフ\">\n        <data name=\"命中力\" type=\"number\">");
        let t = i32_to_string(DataTransformer::adjust_value(p.hit_rate));
        xml.append(t.as_str());
        xml.append("</data>\n        <data name=\"打撃点\" type=\"number\">");
        let t = i32_to_string(p.damage);
        xml.append(t.as_str());
        xml.append("</data>\n        <data name=\"回避力\" type=\"number\">");
        let t = i32_to_string(DataTransformer::adjust_value(p.dodge));
        xml.append(t.as_str());
        xml.append("</data>\n        <data name=\"生命抵抗力\" type=\"number\">");
        let t = i32_to_string(DataTransformer::adjust_value(p.life_resistance));
        xml.append(t.as_str());
        xml.append("</data>\n        <data name=\"精神抵抗力\" type=\"number\">");
        let t = i32_to_string(DataTransformer::adjust_value(p.mental_resistance));
        xml.append(t.as_str());
        xml.append("</data>\n      </data>\n      <data name=\"特殊能力\">\n        <data name=\"特殊能力1\" type=\"note\">");
        xml.append(m.common_abilities.as_str());
        xml.append("</data>\n        <data name=\"特殊能力2\" type=\"note\">");
        xml.append(p.special_abilities.as_str());
        xml.append("</data>\n      </data>\n       <data name=\"戦闘準備\">\n         <data name=\"魔物知識・先制判定\" type=\"note\">");
        let t = i32_to_string(m.fame);
        xml.append(t.as_str());
        xml.append("/");
        let t = i32_to_string(p.weakness_value);
        xml.append(t.as_str());
        xml.append("\n");
        let t = i32_to_string(m.initiative);
        xml.append(t.as_str());
        xml.append("</data>\n       </data>\n      <data name=\"情報\">\n        <data name=\"弱点\" type=\"note\">");
        let t = DataTransformer::transform_weakness(p.weakness.as_str());
        xml.append(t.as_str());
        xml.append("</data>\n      </data>\n      <data name=\"魔物知識\">\n        <data name=\"生態\" type=\"note\">");
        xml.append(m.category.as_str());
        xml.append(" Lv.");
        let t = i32_to_string(m.level);
        xml.append(t.as_str());
        xml.append("</data>\n      </data>\n    </data>\n  </data>\n  <chat-palette dicebot=\"SwordWorld2.5\">\n//-----計算\nC({HP}+{防護点}+{ダメージ軽減}-()) 　【残HP（物理ダメージ）】\nC({HP}+{ダメージ軽減}-())　【残HP（魔法ダメージ）】\nC({MP}-())　【MP消費】\nC{HP}　【現在HP】\nC{MP}　【現在MP】\n\n//-----固定値判定\nC({命中力}+7) 命中判定（固定値）\nC({回避力}+7) 回避判定（固定値）\nC({生命抵抗力}+7) 生命抵抗判定（固定値）\nC({精神抵抗力}+7) 精神抵抗判定（固定値）\n\n//-----ダイス判定\n2d+{命中力}　命中判定\n2d+{打撃点}　ダメージロール\n2d+{回避力}　回避判定\n2d+{生命抵抗力}　生命抵抗判定\n2d+{精神抵抗力}　精神抵抗判定\n  </chat-palette>\n</character>");
        proof {
            assert(xml@ =~= spec_core_xml(
            p.display_name@,
            p.hp as int,
            p.mp as int,
            p.armor as int,
            p.hit_rate as int,
            p.damage as int,
            p.dodge as int,
            p.life_resistance as int,
            p.mental_resistance as int,
            m.common_abilities@,
            p.special_abilities@,
            m.fame as int,
            p.weakness_value as int,
            m.initiative as int,
            p.weakness@,
            m.category@,
            m.level as int,
        ));
        }
        xml
    }

    /// Renders the non-core-part template.
    fn generate_non_core_part_xml(m: &TransformedMonster, p: &TransformedPart) -> (r: String)
        ensures
            r@ == spec_non_core_xml(
            p.display_name@,
            p.hp as int,
            p.mp as int,
            p.armor as int,
            p.hit_rate as int,
            p.damage as int,
            p.dodge as int,
            p.life_resistance as int,
            p.mental_resistance as int,
            m.common_abilities@,
            p.special_abilities@,
        ),
    {
        let mut xml = String::new();
        xml.append("<?xml version=\"1.0\" encoding=\"utf-8\"?>\n  <character location.name=\"table\" location.x=\"0\" location.y=\"0\" posZ=\"0\" rotate=\"0\" roll=\"0\">\n    <data name=\"character\">\n      <data name=\"image\">\n        <data type=\"image\" name=\"imageIdentifier\"></data>\n      </data>\n      <data name=\"common\">\n        <data name=\"name\">");
        xml.append(p.display_name.as_str());
        xml.append("</data>\n        <data name=\"size\">1</data>\n      </data>\n      <data name=\"detail\">\n       <data name=\"リソース\">\n         <data type=\"numberResource\" currentValue=\"");
        let t = i32_to_string(p.hp);
        xml.append(t.as_str());
        xml.append("\" name=\"HP\">");
        let t = i32_to_string(p.hp);
        xml.append(t.as_str());
        xml.append("</data>\n         <data type=\"numberResource\" currentValue=\"");
        let t = i32_to_string(p.mp);
        xml.append(t.as_str());
        xml.append("\" name=\"MP\">");
        let t = i32_to_string(p.mp);
        xml.append(t.as_str());
        xml.append("</data>\n         <data type=\"numberResource\" currentValue=\"");
        let t = i32_to_string(p.armor);
        xml.append(t.as_str());
        xml.append("\" name=\"防護点\">");
        let t = i32_to_string(p.armor);
        xml.append(t.as_str());
        xml.append("</data>\n       </data>\n       <data name=\"ステータス・バフ・デバフ\">\n         <data name=\"命中力\" type=\"number\">");
        let t = i32_to_string(DataTransformer::adjust_value(p.hit_rate));
        xml.append(t.as_str());
        xml.append("</data>\n         <data name=\"打撃点\" type=\"number\">");
        let t = i32_to_string(p.damage);
        xml.append(t.as_str());
        xml.append("</data>\n         <data name=\"回避力\" type=\"number\">");
        let t = i32_to_string(DataTransformer::adjust_value(p.dodge));
        xml.append(t.as_str());
        xml.append("</data>\n         <data name=\"生命抵抗力\" type=\"number\">");
        let t = i32_to_string(DataTransformer::adjust_value(p.life_resistance));
        xml.append(t.as_str());
        xml.append("</data>\n         <data name=\"精神抵抗力\" type=\"number\">");
        let t = i32_to_string(DataTransformer::adjust_value(p.mental_resistance));
        xml.append(t.as_str());
        xml.append("</data>\n       </data>\n       <data name=\"特殊能力\">\n         <data name=\"特殊能力1\" type=\"note\">");
        xml.append(m.common_abilities.as_str());
        xml.append("</data>\n         <data name=\"特殊能力2\" type=\"note\">");
        xml.append(p.special_abilities.as_str());
        xml.append("</data>\n       </data>\n     </data>\n   </data>\n   <chat-palette dicebot=\"SwordWorld2.5\">\n//-----計算\nC({HP}+{防護点}+{ダメージ軽減}-()) 　【残HP（物理ダメージ）】\nC({HP}+{ダメージ軽減}-())　【残HP（魔法ダメージ）】\nC({MP}-())　【MP消費】\nC{HP}　【現在HP】\nC{MP}　【現在MP】\n\n//-----固定値判定\nC({命中力}+7) 命中判定（固定値）\nC({回避力}+7) 回避判定（固定値）\nC({生命抵抗力}+7) 生命抵抗判定（固定値）\nC({精神抵抗力}+7) 精神抵抗判定（固定値）\n\n//-----ダイス判定\n2d+{命中力}　命中判定\n2d+{打撃点}　ダメージロール\n2d+{回避力}　回避判定\n2d+{生命抵抗力}　生命抵抗判定\n2d+{精神抵抗力}　精神抵抗判定\n   </chat-palette>\n </character>");
        proof {
            assert(xml@ =~= spec_non_core_xml(
            p.display_name@,
            p.hp as int,
            p.mp as int,
            p.armor as int,
            p.hit_rate as int,
            p.damage as int,
            p.dodge as int,
            p.life_resistance as int,
            p.mental_resistance as int,
            m.common_abilities@,
            p.special_abilities@,
        ));
        }
        xml
    }

    /// The weakness text rule, applied when embedding the weakness note.
    pub fn transform_weakness(weakness: &str) -> (r: String)
        ensures
            r@ == spec_transform_weakness(weakness@),
    {
        DataTransformer::transform_weakness(weakness)
    }
}

} // verus!
