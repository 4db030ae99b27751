//! The store: the snapshot in use, and the lookups into it.

use std::collections::HashMap;
use vstd::prelude::*;

use crate::database::Database;
use crate::database::DatabaseView;
use crate::database::DATABASE_VERSION;
use crate::error::Entity;
use crate::error::Error;
use crate::game_data::AvatarExcelConfigDataEntry;
use crate::game_data::AvatarSkillDepotExcelConfigDataEntry;
use crate::game_data::DisplayItemExcelConfigDataEntry;
use crate::game_data::MaterialExcelConfigDataEntry;
use crate::game_data::ReliquaryAffixExcelConfigDataEntry;
use crate::game_data::ReliquaryExcelConfigDataEntry;
use crate::game_data::ReliquaryMainPropExcelConfigDataEntry;
use crate::game_data::WeaponExcelConfigDataEntry;
use crate::model::views;
use crate::sync::Payload;
use crate::sync::Update;
use crate::sync::UpdateView;
use crate::tables::lists_two_skills;
use crate::tables::spec_affix_map;
use crate::tables::spec_artifact_map;
use crate::tables::spec_character_map;
use crate::tables::spec_material_map;
use crate::tables::spec_property_map;
use crate::tables::spec_set_map;
use crate::tables::spec_skill_type_map;
use crate::tables::spec_weapon_map;
use crate::text::str_eq;
use crate::types::Affix;
use crate::types::Artifact;
use crate::types::ArtifactView;
use crate::types::Property;
use crate::types::SkillType;
use crate::types::Weapon;
use crate::types::WeaponView;

verus! {

broadcast use vstd::std_specs::hash::group_hash_axioms;

/// What a lookup of `id` gives in a map that may not be loaded: the entry,
/// or the report that nothing of that kind was found under the id.
pub open spec fn lookup<V>(map: Option<Map<u32, V>>, entity: Entity, id: u32) -> Result<V, Error> {
    match map {
        Some(map) => if map.contains_key(id) {
            Ok(map[id])
        } else {
            Err(Error::NotFound { entity, id })
        },
        None => Err(Error::NotFound { entity, id }),
    }
}

/// A source of game data whose answers are given beforehand: the latest
/// revision and the nine tables, each as it would come out of the decoder
/// or as the failure to get it.
#[derive(Debug)]
pub struct FixedSource {
    pub latest_hash: Result<String, Error>,
    pub text_map: Result<HashMap<u32, String>, Error>,
    pub avatar_skill_depot: Result<Vec<AvatarSkillDepotExcelConfigDataEntry>, Error>,
    pub display_item: Result<Vec<DisplayItemExcelConfigDataEntry>, Error>,
    pub reliquary: Result<Vec<ReliquaryExcelConfigDataEntry>, Error>,
    pub reliquary_main_prop: Result<Vec<ReliquaryMainPropExcelConfigDataEntry>, Error>,
    pub reliquary_affix: Result<Vec<ReliquaryAffixExcelConfigDataEntry>, Error>,
    pub weapon: Result<Vec<WeaponExcelConfigDataEntry>, Error>,
    pub material: Result<Vec<MaterialExcelConfigDataEntry>, Error>,
    pub avatar: Result<Vec<AvatarExcelConfigDataEntry>, Error>,
}

impl FixedSource {
    /// The failure that a synchronization meets first when it reads the
    /// tables in their order, if it meets one.
    pub open spec fn first_failure(&self) -> Option<Error> {
        if self.text_map is Err {
            Some(self.text_map->Err_0)
        } else if self.avatar_skill_depot is Err {
            Some(self.avatar_skill_depot->Err_0)
        } else if self.display_item is Err {
            Some(self.display_item->Err_0)
        } else if self.reliquary is Err {
            Some(self.reliquary->Err_0)
        } else if self.reliquary_main_prop is Err {
            Some(self.reliquary_main_prop->Err_0)
        } else if self.reliquary_affix is Err {
            Some(self.reliquary_affix->Err_0)
        } else if self.weapon is Err {
            Some(self.weapon->Err_0)
        } else if self.material is Err {
            Some(self.material->Err_0)
        } else if self.avatar is Err {
            Some(self.avatar->Err_0)
        } else {
            None
        }
    }

    /// The snapshot that the tables give, where none of them fails: names
    /// are resolved against the text map, and artifacts against the set
    /// map that the display items give.
    pub open spec fn snapshot(&self, git_hash: Seq<char>) -> DatabaseView {
        let text_map = views(self.text_map->Ok_0@);
        let set_map = spec_set_map(self.display_item->Ok_0@, text_map);
        DatabaseView {
            version: DATABASE_VERSION,
            git_hash,
            affix_map: spec_affix_map(self.reliquary_affix->Ok_0@),
            artifact_map: spec_artifact_map(self.reliquary->Ok_0@, set_map),
            character_map: spec_character_map(self.avatar->Ok_0@, text_map),
            material_map: spec_material_map(self.material->Ok_0@, text_map),
            property_map: spec_property_map(self.reliquary_main_prop->Ok_0@),
            set_map,
            skill_type_map: spec_skill_type_map(self.avatar_skill_depot->Ok_0@),
            weapon_map: spec_weapon_map(self.weapon->Ok_0@, text_map),
        }
    }
}

/// The game data in use: the snapshot, if one is loaded, and the path of
/// the file that it is cached in, if it is cached.
#[derive(Debug)]
pub struct AnimeGameData {
    cache_path: Option<String>,
    db: Option<Database>,
}

/// What an [`AnimeGameData`] holds.
pub struct AnimeGameDataView {
    pub cache_path: Option<Seq<char>>,
    pub db: Option<DatabaseView>,
}

impl AnimeGameDataView {
    /// A snapshot in use has the layout that this library reads.
    pub open spec fn wf(self) -> bool {
        self.db matches Some(db) ==> db.is_current()
    }

    /// The store without data and without cache.
    pub open spec fn empty() -> AnimeGameDataView {
        AnimeGameDataView { cache_path: None, db: None }
    }

    /// The store that is opened on a cache: it has what was read from the
    /// cache file, unless nothing could be read or what was read has
    /// another layout.
    pub open spec fn with_cache(
        cache_path: Seq<char>,
        cached: Option<DatabaseView>,
    ) -> AnimeGameDataView {
        AnimeGameDataView {
            cache_path: Some(cache_path),
            db: match cached {
                Some(db) => if db.is_current() {
                    Some(db)
                } else {
                    None
                },
                None => None,
            },
        }
    }

    /// The store with `db` in place of whatever snapshot it had.
    pub open spec fn install(self, db: DatabaseView) -> AnimeGameDataView {
        AnimeGameDataView { cache_path: self.cache_path, db: Some(db) }
    }

    /// Whether the store lacks the data of revision `latest_hash`: it has
    /// none at all, or that of another revision.
    pub open spec fn needs_update_for(self, latest_hash: Seq<char>) -> bool {
        match self.db {
            Some(db) => db.git_hash != latest_hash,
            None => true,
        }
    }

    /// Whether a synchronization with `source` gets as far as reading
    /// tables: the source names its latest revision, and the store lacks
    /// that revision.
    pub open spec fn reads_tables_of(self, source: FixedSource) -> bool {
        source.latest_hash matches Ok(latest_hash) && self.needs_update_for(latest_hash@)
    }

    /// What a synchronization with `source` reports: the failure to learn
    /// the latest revision; else success, if the store has that revision;
    /// else the first failure among the tables, or success if there is
    /// none.
    pub open spec fn update_outcome(self, source: FixedSource) -> Result<(), Error> {
        match source.latest_hash {
            Err(e) => Err(e),
            Ok(latest_hash) => if self.needs_update_for(latest_hash@) {
                match source.first_failure() {
                    Some(e) => Err(e),
                    None => Ok(()),
                }
            } else {
                Ok(())
            },
        }
    }

    /// The store after a synchronization with `source`: with the snapshot
    /// that the source's tables give, if it lacked the latest revision and
    /// every table could be read; else as it was.
    pub open spec fn after_update(self, source: FixedSource) -> AnimeGameDataView {
        if self.reads_tables_of(source) && source.first_failure() is None {
            self.install(source.snapshot(source.latest_hash->Ok_0@))
        } else {
            self
        }
    }

    /// What a lookup of the affix `id` gives.
    pub open spec fn affix(self, id: u32) -> Result<Affix, Error> {
        lookup(
            match self.db {
                Some(db) => Some(db.affix_map),
                None => None,
            },
            Entity::Affix,
            id,
        )
    }

    /// What a lookup of the artifact `id` gives.
    pub open spec fn artifact(self, id: u32) -> Result<ArtifactView, Error> {
        lookup(
            match self.db {
                Some(db) => Some(db.artifact_map),
                None => None,
            },
            Entity::Artifact,
            id,
        )
    }

    /// What a lookup of the character `id` gives.
    pub open spec fn character(self, id: u32) -> Result<Seq<char>, Error> {
        lookup(
            match self.db {
                Some(db) => Some(db.character_map),
                None => None,
            },
            Entity::Character,
            id,
        )
    }

    /// What a lookup of the material `id` gives.
    pub open spec fn material(self, id: u32) -> Result<Seq<char>, Error> {
        lookup(
            match self.db {
                Some(db) => Some(db.material_map),
                None => None,
            },
            Entity::Material,
            id,
        )
    }

    /// What a lookup of the main stat `id` gives.
    pub open spec fn property(self, id: u32) -> Result<Property, Error> {
        lookup(
            match self.db {
                Some(db) => Some(db.property_map),
                None => None,
            },
            Entity::Property,
            id,
        )
    }

    /// What a lookup of the artifact set `id` gives.
    pub open spec fn set(self, id: u32) -> Result<Seq<char>, Error> {
        lookup(
            match self.db {
                Some(db) => Some(db.set_map),
                None => None,
            },
            Entity::ArtifactSet,
            id,
        )
    }

    /// What a lookup of the skill `id` gives.
    pub open spec fn skill_type(self, id: u32) -> Result<SkillType, Error> {
        lookup(
            match self.db {
                Some(db) => Some(db.skill_type_map),
                None => None,
            },
            Entity::SkillType,
            id,
        )
    }

    /// What a lookup of the weapon `id` gives.
    pub open spec fn weapon(self, id: u32) -> Result<WeaponView, Error> {
        lookup(
            match self.db {
                Some(db) => Some(db.weapon_map),
                None => None,
            },
            Entity::Weapon,
            id,
        )
    }
}

impl View for AnimeGameData {
    type V = AnimeGameDataView;

    closed spec fn view(&self) -> AnimeGameDataView {
        AnimeGameDataView {
            cache_path: match self.cache_path {
                Some(path) => Some(path@),
                None => None,
            },
            db: match self.db {
                Some(db) => Some(db@),
                None => None,
            },
        }
    }
}

impl AnimeGameData {
    #[verifier::type_invariant]
    spec fn well_formed(&self) -> bool {
        self.db matches Some(db) ==> db.version == DATABASE_VERSION
    }

    /// A store without data and without cache.
    pub fn new() -> (data: Result<AnimeGameData, Error>)
        ensures
            data matches Ok(data) && data@ == AnimeGameDataView::empty(),
    {
        Ok(AnimeGameData { cache_path: None, db: None })
    }

    /// A store on the cache file at `cache_path`. `cached` is what was read
    /// from that file, `None` if nothing could be. A snapshot of another
    /// layout than [`DATABASE_VERSION`] is not taken.
    pub fn new_with_cache(cache_path: &str, cached: Option<Database>) -> (data: Result<
        AnimeGameData,
        Error,
    >)
        ensures
            data matches Ok(data) && data@ == AnimeGameDataView::with_cache(
                cache_path@,
                match cached {
                    Some(db) => Some(db@),
                    None => None,
                },
            ),
    {
        let db = match cached {
            Some(db) => if db.is_current() {
                Some(db)
            } else {
                None
            },
            None => None,
        };
        Ok(AnimeGameData { cache_path: Some(cache_path.to_owned()), db })
    }

    /// The path of the cache file, if the store has one.
    pub fn cache_path(&self) -> (path: Option<&str>)
        ensures
            match path {
                Some(path) => self@.cache_path == Some(path@),
                None => self@.cache_path is None,
            },
    {
        match &self.cache_path {
            Some(path) => Some(path.as_str()),
            None => None,
        }
    }

    /// The snapshot in use, if there is one; it is what a cache file is
    /// written from.
    pub fn database(&self) -> (db: Option<&Database>)
        ensures
            self@.wf(),
            match db {
                Some(db) => self@.db == Some(db@),
                None => self@.db is None,
            },
    {
        proof {
            use_type_invariant(self);
        }
        self.db.as_ref()
    }

    /// Whether any data is loaded.
    pub fn has_data(&self) -> (loaded: bool)
        ensures
            loaded == self@.db is Some,
    {
        self.db.is_some()
    }

    /// The affix with this id.
    pub fn get_affix(&self, id: u32) -> (affix: Result<&Affix, Error>)
        ensures
            match affix {
                Ok(affix) => self@.affix(id) == Ok::<Affix, Error>(*affix),
                Err(e) => self@.affix(id) == Err::<Affix, Error>(e),
            },
    {
        match &self.db {
            Some(db) => match db.affix_map.get(&id) {
                Some(affix) => Ok(affix),
                None => Err(Error::NotFound { entity: Entity::Affix, id }),
            },
            None => Err(Error::NotFound { entity: Entity::Affix, id }),
        }
    }

    /// The artifact with this id.
    pub fn get_artifact(&self, id: u32) -> (artifact: Result<&Artifact, Error>)
        ensures
            match artifact {
                Ok(artifact) => self@.artifact(id) == Ok::<ArtifactView, Error>(artifact@),
                Err(e) => self@.artifact(id) == Err::<ArtifactView, Error>(e),
            },
    {
        match &self.db {
            Some(db) => match db.artifact_map.get(&id) {
                Some(artifact) => Ok(artifact),
                None => Err(Error::NotFound { entity: Entity::Artifact, id }),
            },
            None => Err(Error::NotFound { entity: Entity::Artifact, id }),
        }
    }

    /// The name of the character with this id.
    pub fn get_character(&self, id: u32) -> (character: Result<&String, Error>)
        ensures
            match character {
                Ok(character) => self@.character(id) == Ok::<Seq<char>, Error>(character@),
                Err(e) => self@.character(id) == Err::<Seq<char>, Error>(e),
            },
    {
        match &self.db {
            Some(db) => match db.character_map.get(&id) {
                Some(character) => Ok(character),
                None => Err(Error::NotFound { entity: Entity::Character, id }),
            },
            None => Err(Error::NotFound { entity: Entity::Character, id }),
        }
    }

    /// The name of the material with this id.
    pub fn get_material(&self, id: u32) -> (material: Result<&String, Error>)
        ensures
            match material {
                Ok(material) => self@.material(id) == Ok::<Seq<char>, Error>(material@),
                Err(e) => self@.material(id) == Err::<Seq<char>, Error>(e),
            },
    {
        match &self.db {
            Some(db) => match db.material_map.get(&id) {
                Some(material) => Ok(material),
                None => Err(Error::NotFound { entity: Entity::Material, id }),
            },
            None => Err(Error::NotFound { entity: Entity::Material, id }),
        }
    }

    /// The property of the main stat with this id.
    pub fn get_property(&self, id: u32) -> (property: Result<&Property, Error>)
        ensures
            match property {
                Ok(property) => self@.property(id) == Ok::<Property, Error>(*property),
                Err(e) => self@.property(id) == Err::<Property, Error>(e),
            },
    {
        match &self.db {
            Some(db) => match db.property_map.get(&id) {
                Some(property) => Ok(property),
                None => Err(Error::NotFound { entity: Entity::Property, id }),
            },
            None => Err(Error::NotFound { entity: Entity::Property, id }),
        }
    }

    /// The name of the artifact set with this id.
    pub fn get_set(&self, id: u32) -> (set: Result<&String, Error>)
        ensures
            match set {
                Ok(set) => self@.set(id) == Ok::<Seq<char>, Error>(set@),
                Err(e) => self@.set(id) == Err::<Seq<char>, Error>(e),
            },
    {
        match &self.db {
            Some(db) => match db.set_map.get(&id) {
                Some(set) => Ok(set),
                None => Err(Error::NotFound { entity: Entity::ArtifactSet, id }),
            },
            None => Err(Error::NotFound { entity: Entity::ArtifactSet, id }),
        }
    }

    /// The talent that the skill with this id is.
    pub fn get_skill_type(&self, id: u32) -> (skill_type: Result<&SkillType, Error>)
        ensures
            match skill_type {
                Ok(skill_type) => self@.skill_type(id) == Ok::<SkillType, Error>(*skill_type),
                Err(e) => self@.skill_type(id) == Err::<SkillType, Error>(e),
            },
    {
        match &self.db {
            Some(db) => match db.skill_type_map.get(&id) {
                Some(skill_type) => Ok(skill_type),
                None => Err(Error::NotFound { entity: Entity::SkillType, id }),
            },
            None => Err(Error::NotFound { entity: Entity::SkillType, id }),
        }
    }

    /// The weapon with this id.
    pub fn get_weapon(&self, id: u32) -> (weapon: Result<&Weapon, Error>)
        ensures
            match weapon {
                Ok(weapon) => self@.weapon(id) == Ok::<WeaponView, Error>(weapon@),
                Err(e) => self@.weapon(id) == Err::<WeaponView, Error>(e),
            },
    {
        match &self.db {
            Some(db) => match db.weapon_map.get(&id) {
                Some(weapon) => Ok(weapon),
                None => Err(Error::NotFound { entity: Entity::Weapon, id }),
            },
            None => Err(Error::NotFound { entity: Entity::Weapon, id }),
        }
    }

    /// Whether the store lacks the data of revision `latest_hash`; to
    /// answer takes no more than the revision.
    pub fn needs_update_for(&self, latest_hash: &str) -> (needed: bool)
        ensures
            needed == self@.needs_update_for(latest_hash@),
    {
        match &self.db {
            Some(db) => !str_eq(db.git_hash.as_str(), latest_hash),
            None => true,
        }
    }

    /// What can be said of the need for an update before the source is
    /// asked for its latest revision: without data an update is needed
    /// whatever the revision is; with data the revision decides.
    pub fn needs_update_unasked(&self) -> (needed: Option<bool>)
        ensures
            needed == if self@.db is None {
                Some(true)
            } else {
                None::<bool>
            },
            needed matches Some(needed) ==> forall|latest_hash: Seq<char>|
                needed == self@.needs_update_for(latest_hash),
    {
        if self.db.is_none() {
            Some(true)
        } else {
            None
        }
    }

    /// Whether the store lacks the latest revision of `source`. A store
    /// without data needs an update and does not ask the source; one with
    /// data fails if the source cannot name its latest revision.
    pub fn needs_update(&self, source: &FixedSource) -> (needed: Result<bool, Error>)
        ensures
            needed == match (self@.db, source.latest_hash) {
                (None, _) => Ok::<bool, Error>(true),
                (Some(_), Ok(latest_hash)) => Ok(self@.needs_update_for(latest_hash@)),
                (Some(_), Err(e)) => Err(e),
            },
    {
        match self.needs_update_unasked() {
            Some(needed) => Ok(needed),
            None => match &source.latest_hash {
                Ok(latest_hash) => Ok(self.needs_update_for(latest_hash.as_str())),
                Err(e) => Err(*e),
            },
        }
    }

    /// Starts a synchronization to revision `latest_hash`, unless the
    /// store has the data of that revision already.
    pub fn begin_update(&self, latest_hash: &str) -> (update: Option<Update>)
        ensures
            update is Some == self@.needs_update_for(latest_hash@),
            update matches Some(update) ==> update@ == UpdateView::start(latest_hash@),
    {
        if self.needs_update_for(latest_hash) {
            Some(Update::begin(latest_hash))
        } else {
            None
        }
    }

    /// Puts the snapshot of a synchronization in place of the one in use,
    /// if the synchronization has taken in all its tables; else the store
    /// stays as it is.
    pub fn finish_update(&mut self, update: Update) -> (installed: Result<(), Error>)
        ensures
            final(self)@.wf(),
            match installed {
                Ok(()) => update@.is_complete() && final(self)@ == old(self)@.install(update@.db),
                Err(e) => update@.expects() matches Some(missing) && e == Error::Incomplete {
                    missing,
                } && final(self)@ == old(self)@,
            },
    {
        proof {
            use_type_invariant(&*self);
        }
        match update.finish() {
            Ok(db) => {
                self.db = Some(db);
                Ok(())
            },
            Err(e) => Err(e),
        }
    }

    /// Brings the store up to the latest revision of `source`.
    ///
    /// The source is asked for its latest revision. If the store has the
    /// data of that revision, nothing more is read and nothing changes.
    /// Else the tables are read in their order and a new snapshot is built
    /// beside the one in use; it takes that one's place once the last
    /// table is in. If the revision or a table cannot be had, that failure
    /// is returned and the store is as it was.
    pub fn update(&mut self, source: FixedSource) -> (updated: Result<(), Error>)
        requires
            old(self)@.reads_tables_of(source) && source.text_map is Ok ==> (
            source.avatar_skill_depot matches Ok(rows) ==> lists_two_skills(rows@)),
        ensures
            updated == old(self)@.update_outcome(source),
            final(self)@ == old(self)@.after_update(source),
            updated is Err ==> final(self)@ == old(self)@,
            final(self)@.wf(),
    {
        proof {
            use_type_invariant(&*self);
        }
        let latest_hash = match source.latest_hash {
            Ok(latest_hash) => latest_hash,
            Err(e) => {
                return Err(e);
            },
        };
        let mut update = match self.begin_update(latest_hash.as_str()) {
            Some(update) => update,
            None => {
                return Ok(());
            },
        };
        match source.text_map {
            Ok(table) => update.provide(Payload::TextMap(table))?,
            Err(e) => {
                return Err(e);
            },
        }
        match source.avatar_skill_depot {
            Ok(table) => update.provide(Payload::AvatarSkillDepot(table))?,
            Err(e) => {
                return Err(e);
            },
        }
        match source.display_item {
            Ok(table) => update.provide(Payload::DisplayItem(table))?,
            Err(e) => {
                return Err(e);
            },
        }
        match source.reliquary {
            Ok(table) => update.provide(Payload::Reliquary(table))?,
            Err(e) => {
                return Err(e);
            },
        }
        match source.reliquary_main_prop {
            Ok(table) => update.provide(Payload::ReliquaryMainProp(table))?,
            Err(e) => {
                return Err(e);
            },
        }
        match source.reliquary_affix {
            Ok(table) => update.provide(Payload::ReliquaryAffix(table))?,
            Err(e) => {
                return Err(e);
            },
        }
        match source.weapon {
            Ok(table) => update.provide(Payload::Weapon(table))?,
            Err(e) => {
                return Err(e);
            },
        }
        match source.material {
            Ok(table) => update.provide(Payload::Material(table))?,
            Err(e) => {
                return Err(e);
            },
        }
        match source.avatar {
            Ok(table) => update.provide(Payload::Avatar(table))?,
            Err(e) => {
                return Err(e);
            },
        }
        match self.finish_update(update) {
            Ok(()) => Ok(()),
            Err(e) => Err(e),
        }
    }
}

/// A store that was brought up to date stays as it is when it is
/// synchronized again while the source still names the same latest
/// revision: the second run succeeds without reading a table, so whatever
/// the tables of `second` hold, and be it failures, makes no difference.
pub proof fn lemma_update_is_idempotent(
    store: AnimeGameDataView,
    first: FixedSource,
    second: FixedSource,
)
    requires
        store.update_outcome(first) is Ok,
        second.latest_hash is Ok,
        second.latest_hash->Ok_0@ == first.latest_hash->Ok_0@,
    ensures
        !store.after_update(first).reads_tables_of(second),
        store.after_update(first).update_outcome(second) == Ok::<(), Error>(()),
        store.after_update(first).after_update(second) == store.after_update(first),
{
}

/// A synchronization that fails leaves the store as it was, with the
/// snapshot that it had or with none.
pub proof fn lemma_update_is_atomic(store: AnimeGameDataView, source: FixedSource)
    requires
        store.update_outcome(source) is Err,
    ensures
        store.after_update(source) == store,
{
}

/// A synchronization to a revision that the store lacks, with every table
/// at hand, replaces the snapshot as a whole: each map is the one that the
/// source's tables give, nothing of the snapshot before is left, and the
/// store no longer needs an update to that revision.
pub proof fn lemma_update_supersedes(store: AnimeGameDataView, source: FixedSource)
    requires
        store.reads_tables_of(source),
        source.first_failure() is None,
    ensures
        store.update_outcome(source) == Ok::<(), Error>(()),
        store.after_update(source).db == Some(source.snapshot(source.latest_hash->Ok_0@)),
        store.after_update(source).cache_path == store.cache_path,
        !store.after_update(source).needs_update_for(source.latest_hash->Ok_0@),
        store.after_update(source).wf(),
{
}

/// A store that is opened on the snapshot of another store answers every
/// lookup as that store does. This is what reading back a cache file comes
/// to, as far as the file gives back the snapshot that was written to it.
pub proof fn lemma_cached_snapshot_is_kept(
    store: AnimeGameDataView,
    cache_path: Seq<char>,
    id: u32,
)
    requires
        store.wf(),
    ensures
        ({
            let reopened = AnimeGameDataView::with_cache(cache_path, store.db);
            &&& reopened.wf()
            &&& reopened.db == store.db
            &&& reopened.affix(id) == store.affix(id)
            &&& reopened.artifact(id) == store.artifact(id)
            &&& reopened.character(id) == store.character(id)
            &&& reopened.material(id) == store.material(id)
            &&& reopened.property(id) == store.property(id)
            &&& reopened.set(id) == store.set(id)
            &&& reopened.skill_type(id) == store.skill_type(id)
            &&& reopened.weapon(id) == store.weapon(id)
        }),
{
}

} // verus!
