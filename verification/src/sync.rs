//! One synchronization, step by step.
//!
//! A synchronization builds the snapshot of a revision off to the side. It
//! says which table it needs next, takes that table in, and derives from it
//! whatever the table is the source of. Fetching the tables is the caller's
//! part: an [`Update`] never waits for anything, and nothing that it does
//! touches the snapshot in use.

use std::collections::HashMap;
use vstd::prelude::*;

use crate::database::Database;
use crate::database::DatabaseView;
use crate::database::DATABASE_VERSION;
use crate::error::Error;
use crate::game_data::AvatarExcelConfigDataEntry;
use crate::game_data::AvatarSkillDepotExcelConfigDataEntry;
use crate::game_data::DisplayItemExcelConfigDataEntry;
use crate::game_data::MaterialExcelConfigDataEntry;
use crate::game_data::ReliquaryAffixExcelConfigDataEntry;
use crate::game_data::ReliquaryExcelConfigDataEntry;
use crate::game_data::ReliquaryMainPropExcelConfigDataEntry;
use crate::game_data::Table;
use crate::game_data::WeaponExcelConfigDataEntry;
use crate::model::lemma_views_empty;
use crate::model::views;
use crate::tables::affix_map;
use crate::tables::artifact_map;
use crate::tables::character_map;
use crate::tables::check_two_skills;
use crate::tables::lists_two_skills;
use crate::tables::material_map;
use crate::tables::property_map;
use crate::tables::set_map;
use crate::tables::skill_type_map;
use crate::tables::spec_affix_map;
use crate::tables::spec_artifact_map;
use crate::tables::spec_character_map;
use crate::tables::spec_material_map;
use crate::tables::spec_property_map;
use crate::tables::spec_set_map;
use crate::tables::spec_skill_type_map;
use crate::tables::spec_weapon_map;
use crate::tables::weapon_map;

verus! {

/// How many tables a synchronization reads.
pub const TABLE_COUNT: usize = 9;

/// The order in which a synchronization reads its tables.
pub open spec fn fetch_order() -> Seq<Table> {
    seq![
        Table::TextMap,
        Table::AvatarSkillDepot,
        Table::DisplayItem,
        Table::Reliquary,
        Table::ReliquaryMainProp,
        Table::ReliquaryAffix,
        Table::Weapon,
        Table::Material,
        Table::Avatar,
    ]
}

/// Whether what is derived from `table` draws on what `earlier` gave: names
/// come from the text map, and an artifact's set from the set map, which
/// the display items give.
pub open spec fn draws_on(table: Table, earlier: Table) -> bool {
    match table {
        Table::DisplayItem | Table::Weapon | Table::Material | Table::Avatar => earlier
            == Table::TextMap,
        Table::Reliquary => earlier == Table::TextMap || earlier == Table::DisplayItem,
        _ => false,
    }
}

/// The place of a table in [`fetch_order`].
pub open spec fn position(table: Table) -> nat {
    match table {
        Table::TextMap => 0,
        Table::AvatarSkillDepot => 1,
        Table::DisplayItem => 2,
        Table::Reliquary => 3,
        Table::ReliquaryMainProp => 4,
        Table::ReliquaryAffix => 5,
        Table::Weapon => 6,
        Table::Material => 7,
        Table::Avatar => 8,
    }
}

/// Every table has one place in the order, and stands there behind each
/// table that it draws on.
pub proof fn lemma_fetch_order(table: Table, earlier: Table)
    ensures
        fetch_order().len() == TABLE_COUNT,
        position(table) < TABLE_COUNT,
        fetch_order()[position(table) as int] == table,
        draws_on(table, earlier) ==> position(earlier) < position(table),
{
}

/// The table at a place in the order, if the order is that long.
pub fn table_at(place: usize) -> (table: Option<Table>)
    ensures
        table == if place < TABLE_COUNT {
            Some(fetch_order()[place as int])
        } else {
            None
        },
{
    if place == 0 {
        Some(Table::TextMap)
    } else if place == 1 {
        Some(Table::AvatarSkillDepot)
    } else if place == 2 {
        Some(Table::DisplayItem)
    } else if place == 3 {
        Some(Table::Reliquary)
    } else if place == 4 {
        Some(Table::ReliquaryMainProp)
    } else if place == 5 {
        Some(Table::ReliquaryAffix)
    } else if place == 6 {
        Some(Table::Weapon)
    } else if place == 7 {
        Some(Table::Material)
    } else if place == 8 {
        Some(Table::Avatar)
    } else {
        None
    }
}

/// A table as it comes out of the decoder.
#[derive(Debug)]
pub enum Payload {
    TextMap(HashMap<u32, String>),
    AvatarSkillDepot(Vec<AvatarSkillDepotExcelConfigDataEntry>),
    DisplayItem(Vec<DisplayItemExcelConfigDataEntry>),
    Reliquary(Vec<ReliquaryExcelConfigDataEntry>),
    ReliquaryMainProp(Vec<ReliquaryMainPropExcelConfigDataEntry>),
    ReliquaryAffix(Vec<ReliquaryAffixExcelConfigDataEntry>),
    Weapon(Vec<WeaponExcelConfigDataEntry>),
    Material(Vec<MaterialExcelConfigDataEntry>),
    Avatar(Vec<AvatarExcelConfigDataEntry>),
}

impl Payload {
    /// The table that this is the content of.
    pub open spec fn spec_table(&self) -> Table {
        match self {
            Payload::TextMap(_) => Table::TextMap,
            Payload::AvatarSkillDepot(_) => Table::AvatarSkillDepot,
            Payload::DisplayItem(_) => Table::DisplayItem,
            Payload::Reliquary(_) => Table::Reliquary,
            Payload::ReliquaryMainProp(_) => Table::ReliquaryMainProp,
            Payload::ReliquaryAffix(_) => Table::ReliquaryAffix,
            Payload::Weapon(_) => Table::Weapon,
            Payload::Material(_) => Table::Material,
            Payload::Avatar(_) => Table::Avatar,
        }
    }

    /// Whether the payload can be read: a skill depot table must list two
    /// skills in every row, the others can always be.
    pub open spec fn readable(&self) -> bool {
        self matches Payload::AvatarSkillDepot(rows) ==> lists_two_skills(rows@)
    }

    /// The table that this is the content of.
    #[verifier::when_used_as_spec(spec_table)]
    pub fn table(&self) -> (table: Table)
        ensures
            table == self.spec_table(),
    {
        match self {
            Payload::TextMap(_) => Table::TextMap,
            Payload::AvatarSkillDepot(_) => Table::AvatarSkillDepot,
            Payload::DisplayItem(_) => Table::DisplayItem,
            Payload::Reliquary(_) => Table::Reliquary,
            Payload::ReliquaryMainProp(_) => Table::ReliquaryMainProp,
            Payload::ReliquaryAffix(_) => Table::ReliquaryAffix,
            Payload::Weapon(_) => Table::Weapon,
            Payload::Material(_) => Table::Material,
            Payload::Avatar(_) => Table::Avatar,
        }
    }

    /// Whether the payload can be read; see [`Payload::readable`].
    pub fn is_readable(&self) -> (readable: bool)
        ensures
            readable == self.readable(),
    {
        match self {
            Payload::AvatarSkillDepot(rows) => check_two_skills(rows),
            _ => true,
        }
    }
}

/// A synchronization under way: the snapshot as far as it is built, and
/// the text map that later tables are resolved against.
#[derive(Debug)]
pub struct Update {
    fetched: usize,
    text_map: HashMap<u32, String>,
    db: Database,
}

/// What an [`Update`] holds.
pub struct UpdateView {
    /// How many tables have been taken in.
    pub fetched: nat,
    /// The text map, once it has been taken in.
    pub text_map: Map<u32, Seq<char>>,
    /// The snapshot as far as it is built.
    pub db: DatabaseView,
}

impl UpdateView {
    /// A synchronization to revision `git_hash` that has read nothing yet.
    pub open spec fn start(git_hash: Seq<char>) -> UpdateView {
        UpdateView { fetched: 0, text_map: Map::empty(), db: DatabaseView::empty(git_hash) }
    }

    /// The table that is to be taken in next, if any is left.
    pub open spec fn expects(self) -> Option<Table> {
        if self.fetched < TABLE_COUNT {
            Some(fetch_order()[self.fetched as int])
        } else {
            None
        }
    }

    /// Whether all tables have been taken in.
    pub open spec fn is_complete(self) -> bool {
        self.fetched >= TABLE_COUNT
    }

    /// The snapshot after `payload` was derived from. The text map is kept
    /// as it comes; every other table fills the one map that it is the
    /// source of, resolved against what earlier tables gave.
    pub open spec fn derive(self, payload: Payload) -> DatabaseView {
        match payload {
            Payload::TextMap(_) => self.db,
            Payload::AvatarSkillDepot(rows) => DatabaseView {
                skill_type_map: spec_skill_type_map(rows@),
                ..self.db
            },
            Payload::DisplayItem(rows) => DatabaseView {
                set_map: spec_set_map(rows@, self.text_map),
                ..self.db
            },
            Payload::Reliquary(rows) => DatabaseView {
                artifact_map: spec_artifact_map(rows@, self.db.set_map),
                ..self.db
            },
            Payload::ReliquaryMainProp(rows) => DatabaseView {
                property_map: spec_property_map(rows@),
                ..self.db
            },
            Payload::ReliquaryAffix(rows) => DatabaseView {
                affix_map: spec_affix_map(rows@),
                ..self.db
            },
            Payload::Weapon(rows) => DatabaseView {
                weapon_map: spec_weapon_map(rows@, self.text_map),
                ..self.db
            },
            Payload::Material(rows) => DatabaseView {
                material_map: spec_material_map(rows@, self.text_map),
                ..self.db
            },
            Payload::Avatar(rows) => DatabaseView {
                character_map: spec_character_map(rows@, self.text_map),
                ..self.db
            },
        }
    }

    /// The synchronization after it took in the expected table.
    pub open spec fn advance(self, payload: Payload) -> UpdateView {
        UpdateView {
            fetched: self.fetched + 1,
            text_map: match payload {
                Payload::TextMap(text_map) => views(text_map@),
                _ => self.text_map,
            },
            db: self.derive(payload),
        }
    }
}

impl View for Update {
    type V = UpdateView;

    closed spec fn view(&self) -> UpdateView {
        UpdateView { fetched: self.fetched as nat, text_map: views(self.text_map@), db: self.db@ }
    }
}

impl Update {
    #[verifier::type_invariant]
    spec fn well_formed(&self) -> bool {
        self.db.version == DATABASE_VERSION
    }

    /// Starts a synchronization to revision `git_hash`.
    pub fn begin(git_hash: &str) -> (update: Update)
        ensures
            update@ == UpdateView::start(git_hash@),
    {
        proof {
            lemma_views_empty::<String>();
        }
        Update { fetched: 0, text_map: HashMap::new(), db: Database::new(git_hash) }
    }

    /// The revision that is being synchronized to.
    pub fn git_hash(&self) -> (git_hash: &str)
        ensures
            git_hash@ == self@.db.git_hash,
    {
        self.db.git_hash.as_str()
    }

    /// The table to fetch next, or `None` once all have been taken in.
    pub fn next_table(&self) -> (table: Option<Table>)
        ensures
            table == self@.expects(),
    {
        table_at(self.fetched)
    }

    /// Whether all tables have been taken in.
    pub fn is_complete(&self) -> (complete: bool)
        ensures
            complete == self@.is_complete(),
    {
        self.fetched >= TABLE_COUNT
    }

    /// Takes in a table. It must be the one that [`Update::next_table`]
    /// names; any other is turned down and changes nothing.
    pub fn provide(&mut self, payload: Payload) -> (taken: Result<(), Error>)
        requires
            old(self)@.expects() == Some(payload.table()) ==> payload.readable(),
        ensures
            taken == match old(self)@.expects() {
                Some(expected) => if expected == payload.table() {
                    Ok(())
                } else {
                    Err(Error::UnexpectedTable { expected, found: payload.table() })
                },
                None => Err(Error::NothingExpected { found: payload.table() }),
            },
            final(self)@ == if taken is Ok {
                old(self)@.advance(payload)
            } else {
                old(self)@
            },
    {
        proof {
            use_type_invariant(&*self);
        }
        let expected = match table_at(self.fetched) {
            Some(expected) => expected,
            None => {
                return Err(Error::NothingExpected { found: payload.table() });
            },
        };
        if expected != payload.table() {
            return Err(Error::UnexpectedTable { expected, found: payload.table() });
        }
        match payload {
            Payload::TextMap(text_map) => {
                self.text_map = text_map;
            },
            Payload::AvatarSkillDepot(rows) => {
                self.db.skill_type_map = skill_type_map(&rows);
            },
            Payload::DisplayItem(rows) => {
                self.db.set_map = set_map(&rows, &self.text_map);
            },
            Payload::Reliquary(rows) => {
                self.db.artifact_map = artifact_map(&rows, &self.db.set_map);
            },
            Payload::ReliquaryMainProp(rows) => {
                self.db.property_map = property_map(&rows);
            },
            Payload::ReliquaryAffix(rows) => {
                self.db.affix_map = affix_map(&rows);
            },
            Payload::Weapon(rows) => {
                self.db.weapon_map = weapon_map(&rows, &self.text_map);
            },
            Payload::Material(rows) => {
                self.db.material_map = material_map(&rows, &self.text_map);
            },
            Payload::Avatar(rows) => {
                self.db.character_map = character_map(&rows, &self.text_map);
            },
        }
        self.fetched = self.fetched + 1;
        Ok(())
    }

    /// Ends the synchronization and hands out the snapshot, if all tables
    /// have been taken in.
    pub fn finish(self) -> (snapshot: Result<Database, Error>)
        ensures
            match snapshot {
                Ok(db) => self@.is_complete() && db@ == self@.db && db@.is_current(),
                Err(e) => self@.expects() matches Some(missing) && e == Error::Incomplete {
                    missing,
                },
            },
    {
        proof {
            use_type_invariant(&self);
        }
        match table_at(self.fetched) {
            Some(missing) => Err(Error::Incomplete { missing }),
            None => Ok(self.db),
        }
    }
}

} // verus!
