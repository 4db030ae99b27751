//! The snapshot: all derived maps of one revision of the game data.

use std::collections::HashMap;
use vstd::prelude::*;

use crate::types::Affix;
use crate::model::lemma_views_empty;
use crate::model::views;
use crate::types::Artifact;
use crate::types::ArtifactView;
use crate::types::Property;
use crate::types::SkillType;
use crate::types::Weapon;
use crate::types::WeaponView;

verus! {

/// The version of the snapshot's layout. A stored snapshot of another
/// version is not read.
pub const DATABASE_VERSION: u32 = 0;

/// The maps derived from one revision of the game data.
#[derive(Clone, Debug)]
pub struct Database {
    pub version: u32,
    pub git_hash: String,
    pub affix_map: HashMap<u32, Affix>,
    pub artifact_map: HashMap<u32, Artifact>,
    pub character_map: HashMap<u32, String>,
    pub material_map: HashMap<u32, String>,
    pub property_map: HashMap<u32, Property>,
    pub set_map: HashMap<u32, String>,
    pub skill_type_map: HashMap<u32, SkillType>,
    pub weapon_map: HashMap<u32, Weapon>,
}

/// What a [`Database`] holds: its revision by its characters, each map by
/// its entries, and in them each name by its characters.
pub struct DatabaseView {
    pub version: u32,
    pub git_hash: Seq<char>,
    pub affix_map: Map<u32, Affix>,
    pub artifact_map: Map<u32, ArtifactView>,
    pub character_map: Map<u32, Seq<char>>,
    pub material_map: Map<u32, Seq<char>>,
    pub property_map: Map<u32, Property>,
    pub set_map: Map<u32, Seq<char>>,
    pub skill_type_map: Map<u32, SkillType>,
    pub weapon_map: Map<u32, WeaponView>,
}

impl DatabaseView {
    /// The snapshot of revision `git_hash` before anything was derived.
    pub open spec fn empty(git_hash: Seq<char>) -> DatabaseView {
        DatabaseView {
            version: DATABASE_VERSION,
            git_hash,
            affix_map: Map::empty(),
            artifact_map: Map::empty(),
            character_map: Map::empty(),
            material_map: Map::empty(),
            property_map: Map::empty(),
            set_map: Map::empty(),
            skill_type_map: Map::empty(),
            weapon_map: Map::empty(),
        }
    }

    /// Whether the snapshot has the layout that this library reads.
    pub open spec fn is_current(self) -> bool {
        self.version == DATABASE_VERSION
    }
}

impl View for Database {
    type V = DatabaseView;

    open spec fn view(&self) -> DatabaseView {
        DatabaseView {
            version: self.version,
            git_hash: self.git_hash@,
            affix_map: self.affix_map@,
            artifact_map: views(self.artifact_map@),
            character_map: views(self.character_map@),
            material_map: views(self.material_map@),
            property_map: self.property_map@,
            set_map: views(self.set_map@),
            skill_type_map: self.skill_type_map@,
            weapon_map: views(self.weapon_map@),
        }
    }
}

impl Database {
    /// A snapshot of revision `git_hash` with nothing in it.
    pub fn new(git_hash: &str) -> (db: Database)
        ensures
            db@ == DatabaseView::empty(git_hash@),
    {
        proof {
            lemma_views_empty::<Artifact>();
            lemma_views_empty::<String>();
            lemma_views_empty::<Weapon>();
        }
        Database {
            version: DATABASE_VERSION,
            git_hash: git_hash.to_owned(),
            affix_map: HashMap::new(),
            artifact_map: HashMap::new(),
            character_map: HashMap::new(),
            material_map: HashMap::new(),
            property_map: HashMap::new(),
            set_map: HashMap::new(),
            skill_type_map: HashMap::new(),
            weapon_map: HashMap::new(),
        }
    }

    /// Whether the snapshot has the layout that this library reads.
    pub fn is_current(&self) -> (current: bool)
        ensures
            current == self@.is_current(),
    {
        self.version == DATABASE_VERSION
    }
}

} // verus!
