use std::str::FromStr;

use anime_game_data::text::str_eq;
use anime_game_data::ArtifactSlot;
use anime_game_data::Error;
use anime_game_data::Property;
use anime_game_data::Table;

fn properties() -> [(Property, &'static str, &'static str, bool); 19] {
    [
        (Property::Hp, "FIGHT_PROP_HP", "hp", false),
        (Property::HpPercent, "FIGHT_PROP_HP_PERCENT", "hp_", true),
        (Property::Attack, "FIGHT_PROP_ATTACK", "atk", false),
        (Property::AttackPercent, "FIGHT_PROP_ATTACK_PERCENT", "atk_", true),
        (Property::Defense, "FIGHT_PROP_DEFENSE", "def", false),
        (Property::DefensePercent, "FIGHT_PROP_DEFENSE_PERCENT", "def_", true),
        (Property::ElementalMastery, "FIGHT_PROP_ELEMENT_MASTERY", "eleMas", false),
        (Property::EnergyRecharge, "FIGHT_PROP_CHARGE_EFFICIENCY", "enerRech_", true),
        (Property::Healing, "FIGHT_PROP_HEAL_ADD", "heal_", true),
        (Property::CritRate, "FIGHT_PROP_CRITICAL", "critRate_", true),
        (Property::CritDamage, "FIGHT_PROP_CRITICAL_HURT", "critDMG_", true),
        (Property::PhysicalDamage, "FIGHT_PROP_PHYSICAL_ADD_HURT", "physical_dmg_", true),
        (Property::AnemoDamage, "FIGHT_PROP_WIND_ADD_HURT", "anemo_dmg_", true),
        (Property::GeoDamage, "FIGHT_PROP_ROCK_ADD_HURT", "geo_dmg_", true),
        (Property::ElectroDamage, "FIGHT_PROP_ELEC_ADD_HURT", "electro_dmg_", true),
        (Property::HydroDamage, "FIGHT_PROP_WATER_ADD_HURT", "hydro_dmg_", true),
        (Property::PyroDamage, "FIGHT_PROP_FIRE_ADD_HURT", "pyro_dmg_", true),
        (Property::CryoDamage, "FIGHT_PROP_ICE_ADD_HURT", "cryo_dmg_", true),
        (Property::DendroDamage, "FIGHT_PROP_GRASS_ADD_HURT", "dendro_dmg_", true),
    ]
}

#[test]
fn property_is_read_from_its_game_data_name() {
    for (property, name, _, _) in properties() {
        assert_eq!(Property::from_str(name), Ok(property));
        assert_eq!(name.parse::<Property>(), Ok(property));
        assert_eq!(<Property as FromStr>::from_str(name), Ok(property));
    }
}

#[test]
fn unknown_property_names_are_turned_down() {
    for name in [
        "",
        "FIGHT_PROP_NONE",
        "FIGHT_PROP_HP ",
        " FIGHT_PROP_HP",
        "fight_prop_hp",
        "FIGHT_PROP_H",
        "FIGHT_PROP_HP_PERCEN",
        "FIGHT_PROP_BASE_ATTACK",
        "hp",
        "FIGHT_PROP_HP\u{0}",
        "FIGHT_PROP_H\u{420}",
    ] {
        assert_eq!(Property::from_str(name), Err(Error::UnknownProperty));
        assert_eq!(name.parse::<Property>(), Err(Error::UnknownProperty));
    }
}

#[test]
fn property_good_names() {
    for (property, _, good_name, _) in properties() {
        assert_eq!(property.good_name(), good_name);
    }
}

#[test]
fn property_percentages() {
    for (property, _, _, percentage) in properties() {
        assert_eq!(property.is_percentage(), percentage);
    }
    let flat = properties().iter().filter(|p| !p.3).count();
    assert_eq!(flat, 4);
}

#[test]
fn artifact_slot_is_read_from_its_equip_type() {
    assert_eq!(ArtifactSlot::from_game_data_name("EQUIP_BRACER"), Some(ArtifactSlot::Flower));
    assert_eq!(ArtifactSlot::from_game_data_name("EQUIP_NECKLACE"), Some(ArtifactSlot::Plume));
    assert_eq!(ArtifactSlot::from_game_data_name("EQUIP_SHOES"), Some(ArtifactSlot::Sands));
    assert_eq!(ArtifactSlot::from_game_data_name("EQUIP_RING"), Some(ArtifactSlot::Goblet));
    assert_eq!(ArtifactSlot::from_game_data_name("EQUIP_DRESS"), Some(ArtifactSlot::Circlet));
}

#[test]
fn unknown_equip_types_are_turned_down() {
    for name in ["", "EQUIP_NONE", "EQUIP_RING ", "equip_ring", "EQUIP_RIN", "flower", "EQUIP_DRESS2"]
    {
        assert_eq!(ArtifactSlot::from_game_data_name(name), None);
    }
}

#[test]
fn artifact_slot_good_names() {
    assert_eq!(ArtifactSlot::Flower.good_name(), "flower");
    assert_eq!(ArtifactSlot::Plume.good_name(), "plume");
    assert_eq!(ArtifactSlot::Sands.good_name(), "sands");
    assert_eq!(ArtifactSlot::Goblet.good_name(), "goblet");
    assert_eq!(ArtifactSlot::Circlet.good_name(), "circlet");
}

#[test]
fn str_eq_compares_characters() {
    assert!(str_eq("", ""));
    assert!(str_eq("a", "a"));
    assert!(str_eq("RELIQUARY_ITEM", "RELIQUARY_ITEM"));
    assert!(str_eq("h\u{e9}llo \u{1f600}", "h\u{e9}llo \u{1f600}"));
    assert!(!str_eq("", "a"));
    assert!(!str_eq("a", ""));
    assert!(!str_eq("a", "b"));
    assert!(!str_eq("ab", "abc"));
    assert!(!str_eq("abc", "abd"));
    assert!(!str_eq("Abc", "abc"));
    assert!(!str_eq("h\u{e9}llo", "hello"));
    // Same number of bytes, other characters.
    assert!(!str_eq("\u{e9}", "ab"));
}

#[test]
fn table_paths() {
    assert_eq!(Table::TextMap.path(), "TextMap/TextMapEN.json");
    assert_eq!(
        Table::AvatarSkillDepot.path(),
        "ExcelBinOutput/AvatarSkillDepotExcelConfigData.json"
    );
    assert_eq!(Table::DisplayItem.path(), "ExcelBinOutput/DisplayItemExcelConfigData.json");
    assert_eq!(Table::Reliquary.path(), "ExcelBinOutput/ReliquaryExcelConfigData.json");
    assert_eq!(
        Table::ReliquaryMainProp.path(),
        "ExcelBinOutput/ReliquaryMainPropExcelConfigData.json"
    );
    assert_eq!(Table::ReliquaryAffix.path(), "ExcelBinOutput/ReliquaryAffixExcelConfigData.json");
    assert_eq!(Table::Weapon.path(), "ExcelBinOutput/WeaponExcelConfigData.json");
    assert_eq!(Table::Material.path(), "ExcelBinOutput/MaterialExcelConfigData.json");
    assert_eq!(Table::Avatar.path(), "ExcelBinOutput/AvatarExcelConfigData.json");
}
