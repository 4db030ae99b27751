//! The records that a snapshot holds, and the name tables that lead to them.

use vstd::prelude::*;

use crate::error::Error;
use crate::text::str_eq;

verus! {

/// A value of an artifact's secondary stat.
///
/// `value` is the bit pattern of an IEEE 754 double. Where `property` is a
/// percentage it holds percent points, one hundred times the fraction that
/// the game data gives.
#[derive(Clone, Copy, Debug, PartialEq)]
pub struct Affix {
    pub property: Property,
    pub value: u64,
}

/// An artifact: the set it belongs to, where it is worn, and its rarity.
#[derive(Clone, Debug, PartialEq, Eq)]
pub struct Artifact {
    pub set: String,
    pub slot: ArtifactSlot,
    pub rarity: u32,
}

/// What an [`Artifact`] holds, with the name of the set by its characters.
pub struct ArtifactView {
    pub set: Seq<char>,
    pub slot: ArtifactSlot,
    pub rarity: u32,
}

impl View for Artifact {
    type V = ArtifactView;

    open spec fn view(&self) -> ArtifactView {
        ArtifactView { set: self.set@, slot: self.slot, rarity: self.rarity }
    }
}

/// The five places where an artifact can be worn.
#[derive(Clone, Copy, Debug, PartialEq, Eq, Structural)]
pub enum ArtifactSlot {
    Flower,
    Plume,
    Sands,
    Goblet,
    Circlet,
}

impl ArtifactSlot {
    /// The slot that the game data calls `name`, if it is one of the five.
    pub open spec fn from_name(name: Seq<char>) -> Option<ArtifactSlot> {
        if name == "EQUIP_BRACER"@ {
            Some(ArtifactSlot::Flower)
        } else if name == "EQUIP_NECKLACE"@ {
            Some(ArtifactSlot::Plume)
        } else if name == "EQUIP_SHOES"@ {
            Some(ArtifactSlot::Sands)
        } else if name == "EQUIP_RING"@ {
            Some(ArtifactSlot::Goblet)
        } else if name == "EQUIP_DRESS"@ {
            Some(ArtifactSlot::Circlet)
        } else {
            None
        }
    }

    /// The name of the slot in the GOOD format.
    pub open spec fn spec_good_name(self) -> Seq<char> {
        match self {
            ArtifactSlot::Flower => "flower"@,
            ArtifactSlot::Plume => "plume"@,
            ArtifactSlot::Sands => "sands"@,
            ArtifactSlot::Goblet => "goblet"@,
            ArtifactSlot::Circlet => "circlet"@,
        }
    }

    /// Reads an equip type of the game data.
    pub fn from_game_data_name(name: &str) -> (slot: Option<ArtifactSlot>)
        ensures
            slot == ArtifactSlot::from_name(name@),
    {
        if str_eq(name, "EQUIP_BRACER") {
            Some(ArtifactSlot::Flower)
        } else if str_eq(name, "EQUIP_NECKLACE") {
            Some(ArtifactSlot::Plume)
        } else if str_eq(name, "EQUIP_SHOES") {
            Some(ArtifactSlot::Sands)
        } else if str_eq(name, "EQUIP_RING") {
            Some(ArtifactSlot::Goblet)
        } else if str_eq(name, "EQUIP_DRESS") {
            Some(ArtifactSlot::Circlet)
        } else {
            None
        }
    }

    /// The name of the slot in the GOOD format.
    pub fn good_name(&self) -> (name: &str)
        ensures
            name@ == self.spec_good_name(),
    {
        match self {
            ArtifactSlot::Flower => "flower",
            ArtifactSlot::Plume => "plume",
            ArtifactSlot::Sands => "sands",
            ArtifactSlot::Goblet => "goblet",
            ArtifactSlot::Circlet => "circlet",
        }
    }
}

/// The stats that artifacts and their affixes give.
#[derive(Clone, Copy, Debug, PartialEq, Eq, Hash, Structural)]
pub enum Property {
    Hp,
    HpPercent,
    Attack,
    AttackPercent,
    Defense,
    DefensePercent,
    ElementalMastery,
    EnergyRecharge,
    Healing,
    CritRate,
    CritDamage,
    PhysicalDamage,
    AnemoDamage,
    GeoDamage,
    ElectroDamage,
    HydroDamage,
    PyroDamage,
    CryoDamage,
    DendroDamage,
}

impl Property {
    /// The property that the game data calls `name`, if there is one.
    pub open spec fn from_name(name: Seq<char>) -> Option<Property> {
        if name == "FIGHT_PROP_HP"@ {
            Some(Property::Hp)
        } else if name == "FIGHT_PROP_HP_PERCENT"@ {
            Some(Property::HpPercent)
        } else if name == "FIGHT_PROP_ATTACK"@ {
            Some(Property::Attack)
        } else if name == "FIGHT_PROP_ATTACK_PERCENT"@ {
            Some(Property::AttackPercent)
        } else if name == "FIGHT_PROP_DEFENSE"@ {
            Some(Property::Defense)
        } else if name == "FIGHT_PROP_DEFENSE_PERCENT"@ {
            Some(Property::DefensePercent)
        } else if name == "FIGHT_PROP_ELEMENT_MASTERY"@ {
            Some(Property::ElementalMastery)
        } else if name == "FIGHT_PROP_CHARGE_EFFICIENCY"@ {
            Some(Property::EnergyRecharge)
        } else if name == "FIGHT_PROP_HEAL_ADD"@ {
            Some(Property::Healing)
        } else if name == "FIGHT_PROP_CRITICAL"@ {
            Some(Property::CritRate)
        } else if name == "FIGHT_PROP_CRITICAL_HURT"@ {
            Some(Property::CritDamage)
        } else if name == "FIGHT_PROP_PHYSICAL_ADD_HURT"@ {
            Some(Property::PhysicalDamage)
        } else if name == "FIGHT_PROP_WIND_ADD_HURT"@ {
            Some(Property::AnemoDamage)
        } else if name == "FIGHT_PROP_ROCK_ADD_HURT"@ {
            Some(Property::GeoDamage)
        } else if name == "FIGHT_PROP_ELEC_ADD_HURT"@ {
            Some(Property::ElectroDamage)
        } else if name == "FIGHT_PROP_WATER_ADD_HURT"@ {
            Some(Property::HydroDamage)
        } else if name == "FIGHT_PROP_FIRE_ADD_HURT"@ {
            Some(Property::PyroDamage)
        } else if name == "FIGHT_PROP_ICE_ADD_HURT"@ {
            Some(Property::CryoDamage)
        } else if name == "FIGHT_PROP_GRASS_ADD_HURT"@ {
            Some(Property::DendroDamage)
        } else {
            None
        }
    }

    /// The name of the property in the GOOD format.
    pub open spec fn spec_good_name(self) -> Seq<char> {
        match self {
            Property::Hp => "hp"@,
            Property::HpPercent => "hp_"@,
            Property::Attack => "atk"@,
            Property::AttackPercent => "atk_"@,
            Property::Defense => "def"@,
            Property::DefensePercent => "def_"@,
            Property::ElementalMastery => "eleMas"@,
            Property::EnergyRecharge => "enerRech_"@,
            Property::Healing => "heal_"@,
            Property::CritRate => "critRate_"@,
            Property::CritDamage => "critDMG_"@,
            Property::PhysicalDamage => "physical_dmg_"@,
            Property::AnemoDamage => "anemo_dmg_"@,
            Property::GeoDamage => "geo_dmg_"@,
            Property::ElectroDamage => "electro_dmg_"@,
            Property::HydroDamage => "hydro_dmg_"@,
            Property::PyroDamage => "pyro_dmg_"@,
            Property::CryoDamage => "cryo_dmg_"@,
            Property::DendroDamage => "dendro_dmg_"@,
        }
    }

    /// Whether the property counts in percent: every one does but the four
    /// flat stats.
    pub open spec fn spec_is_percentage(&self) -> bool {
        !(self is Hp || self is Attack || self is Defense || self is ElementalMastery)
    }

    /// Reads a property name of the game data.
    pub fn from_str(s: &str) -> (property: Result<Property, Error>)
        ensures
            property == match Property::from_name(s@) {
                Some(p) => Ok::<Property, Error>(p),
                None => Err(Error::UnknownProperty),
            },
    {
        if str_eq(s, "FIGHT_PROP_HP") {
            Ok(Property::Hp)
        } else if str_eq(s, "FIGHT_PROP_HP_PERCENT") {
            Ok(Property::HpPercent)
        } else if str_eq(s, "FIGHT_PROP_ATTACK") {
            Ok(Property::Attack)
        } else if str_eq(s, "FIGHT_PROP_ATTACK_PERCENT") {
            Ok(Property::AttackPercent)
        } else if str_eq(s, "FIGHT_PROP_DEFENSE") {
            Ok(Property::Defense)
        } else if str_eq(s, "FIGHT_PROP_DEFENSE_PERCENT") {
            Ok(Property::DefensePercent)
        } else if str_eq(s, "FIGHT_PROP_ELEMENT_MASTERY") {
            Ok(Property::ElementalMastery)
        } else if str_eq(s, "FIGHT_PROP_CHARGE_EFFICIENCY") {
            Ok(Property::EnergyRecharge)
        } else if str_eq(s, "FIGHT_PROP_HEAL_ADD") {
            Ok(Property::Healing)
        } else if str_eq(s, "FIGHT_PROP_CRITICAL") {
            Ok(Property::CritRate)
        } else if str_eq(s, "FIGHT_PROP_CRITICAL_HURT") {
            Ok(Property::CritDamage)
        } else if str_eq(s, "FIGHT_PROP_PHYSICAL_ADD_HURT") {
            Ok(Property::PhysicalDamage)
        } else if str_eq(s, "FIGHT_PROP_WIND_ADD_HURT") {
            Ok(Property::AnemoDamage)
        } else if str_eq(s, "FIGHT_PROP_ROCK_ADD_HURT") {
            Ok(Property::GeoDamage)
        } else if str_eq(s, "FIGHT_PROP_ELEC_ADD_HURT") {
            Ok(Property::ElectroDamage)
        } else if str_eq(s, "FIGHT_PROP_WATER_ADD_HURT") {
            Ok(Property::HydroDamage)
        } else if str_eq(s, "FIGHT_PROP_FIRE_ADD_HURT") {
            Ok(Property::PyroDamage)
        } else if str_eq(s, "FIGHT_PROP_ICE_ADD_HURT") {
            Ok(Property::CryoDamage)
        } else if str_eq(s, "FIGHT_PROP_GRASS_ADD_HURT") {
            Ok(Property::DendroDamage)
        } else {
            Err(Error::UnknownProperty)
        }
    }

    /// The name of the property in the GOOD format.
    pub fn good_name(&self) -> (name: &str)
        ensures
            name@ == self.spec_good_name(),
    {
        match self {
            Property::Hp => "hp",
            Property::HpPercent => "hp_",
            Property::Attack => "atk",
            Property::AttackPercent => "atk_",
            Property::Defense => "def",
            Property::DefensePercent => "def_",
            Property::ElementalMastery => "eleMas",
            Property::EnergyRecharge => "enerRech_",
            Property::Healing => "heal_",
            Property::CritRate => "critRate_",
            Property::CritDamage => "critDMG_",
            Property::PhysicalDamage => "physical_dmg_",
            Property::AnemoDamage => "anemo_dmg_",
            Property::GeoDamage => "geo_dmg_",
            Property::ElectroDamage => "electro_dmg_",
            Property::HydroDamage => "hydro_dmg_",
            Property::PyroDamage => "pyro_dmg_",
            Property::CryoDamage => "cryo_dmg_",
            Property::DendroDamage => "dendro_dmg_",
        }
    }

    /// Whether the property counts in percent.
    #[verifier::when_used_as_spec(spec_is_percentage)]
    pub fn is_percentage(&self) -> (percentage: bool)
        ensures
            percentage == self.spec_is_percentage(),
    {
        matches!(
            self,
            Property::HpPercent
                | Property::AttackPercent
                | Property::DefensePercent
                | Property::EnergyRecharge
                | Property::Healing
                | Property::CritRate
                | Property::CritDamage
                | Property::PhysicalDamage
                | Property::AnemoDamage
                | Property::GeoDamage
                | Property::ElectroDamage
                | Property::HydroDamage
                | Property::PyroDamage
                | Property::CryoDamage
                | Property::DendroDamage
        )
    }
}

impl core::str::FromStr for Property {
    type Err = Error;

    /// Reads a property name of the game data, as [`Property::from_str`]
    /// does.
    fn from_str(s: &str) -> (property: Result<Self, Self::Err>)
        ensures
            property == match Property::from_name(s@) {
                Some(p) => Ok::<Property, Error>(p),
                None => Err(Error::UnknownProperty),
            },
    {
        Property::from_str(s)
    }
}

/// The three talents of a character.
#[derive(Clone, Copy, Debug, PartialEq, Eq, Structural)]
pub enum SkillType {
    Auto,
    Skill,
    Burst,
}

/// A weapon: its name and its rarity.
#[derive(Clone, Debug, PartialEq, Eq)]
pub struct Weapon {
    pub name: String,
    pub rarity: u32,
}

/// What a [`Weapon`] holds, with its name by its characters.
pub struct WeaponView {
    pub name: Seq<char>,
    pub rarity: u32,
}

impl View for Weapon {
    type V = WeaponView;

    open spec fn view(&self) -> WeaponView {
        WeaponView { name: self.name@, rarity: self.rarity }
    }
}

} // verus!
