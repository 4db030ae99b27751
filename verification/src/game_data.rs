//! The rows of the remote tables, as they are once decoded.
//!
//! Each struct holds the fields of one table that the library reads; whatever
//! else a row carries is left behind by the decoder.

use vstd::prelude::*;

verus! {

/// The remote tables that one synchronization reads.
#[derive(Clone, Copy, Debug, PartialEq, Eq, Structural)]
pub enum Table {
    TextMap,
    AvatarSkillDepot,
    DisplayItem,
    Reliquary,
    ReliquaryMainProp,
    ReliquaryAffix,
    Weapon,
    Material,
    Avatar,
}

impl Table {
    /// Where the table lies below the root of a revision.
    pub open spec fn spec_path(&self) -> Seq<char> {
        match self {
            Table::TextMap => "TextMap/TextMapEN.json"@,
            Table::AvatarSkillDepot => "ExcelBinOutput/AvatarSkillDepotExcelConfigData.json"@,
            Table::DisplayItem => "ExcelBinOutput/DisplayItemExcelConfigData.json"@,
            Table::Reliquary => "ExcelBinOutput/ReliquaryExcelConfigData.json"@,
            Table::ReliquaryMainProp => "ExcelBinOutput/ReliquaryMainPropExcelConfigData.json"@,
            Table::ReliquaryAffix => "ExcelBinOutput/ReliquaryAffixExcelConfigData.json"@,
            Table::Weapon => "ExcelBinOutput/WeaponExcelConfigData.json"@,
            Table::Material => "ExcelBinOutput/MaterialExcelConfigData.json"@,
            Table::Avatar => "ExcelBinOutput/AvatarExcelConfigData.json"@,
        }
    }

    /// Where the table lies below the root of a revision.
    pub fn path(&self) -> (path: &'static str)
        ensures
            path@ == self.spec_path(),
    {
        match self {
            Table::TextMap => "TextMap/TextMapEN.json",
            Table::AvatarSkillDepot => "ExcelBinOutput/AvatarSkillDepotExcelConfigData.json",
            Table::DisplayItem => "ExcelBinOutput/DisplayItemExcelConfigData.json",
            Table::Reliquary => "ExcelBinOutput/ReliquaryExcelConfigData.json",
            Table::ReliquaryMainProp => "ExcelBinOutput/ReliquaryMainPropExcelConfigData.json",
            Table::ReliquaryAffix => "ExcelBinOutput/ReliquaryAffixExcelConfigData.json",
            Table::Weapon => "ExcelBinOutput/WeaponExcelConfigData.json",
            Table::Material => "ExcelBinOutput/MaterialExcelConfigData.json",
            Table::Avatar => "ExcelBinOutput/AvatarExcelConfigData.json",
        }
    }
}

/// A playable character.
#[derive(Clone, Debug)]
pub struct AvatarExcelConfigDataEntry {
    pub id: u32,
    pub name_text_map_hash: u32,
}

/// The skills of one character.
#[derive(Clone, Debug)]
pub struct AvatarSkillDepotExcelConfigDataEntry {
    pub energy_skill: u32,
    pub skills: Vec<u32>,
}

/// Something that the game shows in a list; artifact sets are among them.
#[derive(Clone, Debug)]
pub struct DisplayItemExcelConfigDataEntry {
    pub display_type: String,
    pub name_text_map_hash: u32,
    pub param: u32,
}

/// A material.
#[derive(Clone, Debug)]
pub struct MaterialExcelConfigDataEntry {
    pub id: u32,
    pub name_text_map_hash: u32,
}

/// A value that an artifact's secondary stat can take.
///
/// The table gives the value as a floating-point number. It is carried here
/// by the bit pattern of that IEEE 754 double, once as the table has it and
/// once multiplied by one hundred; the decoder computes both.
#[derive(Clone, Debug)]
pub struct ReliquaryAffixExcelConfigDataEntry {
    pub id: u32,
    pub prop_type: String,
    /// The value as the table has it.
    pub prop_value: u64,
    /// The value times one hundred, in double arithmetic.
    pub prop_value_percent: u64,
}

/// An artifact.
#[derive(Clone, Debug)]
pub struct ReliquaryExcelConfigDataEntry {
    pub equip_type: String,
    pub id: u32,
    pub rank_level: u32,
    pub set_id: u32,
}

/// A stat that an artifact can have as its main stat.
#[derive(Clone, Debug)]
pub struct ReliquaryMainPropExcelConfigDataEntry {
    pub id: u32,
    pub prop_type: String,
}

/// A weapon.
#[derive(Clone, Debug)]
pub struct WeaponExcelConfigDataEntry {
    pub id: u32,
    pub name_text_map_hash: u32,
    pub rank_level: u32,
}

} // verus!
