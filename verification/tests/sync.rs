use std::collections::HashMap;

use anime_game_data::game_data::AvatarExcelConfigDataEntry;
use anime_game_data::game_data::AvatarSkillDepotExcelConfigDataEntry;
use anime_game_data::game_data::DisplayItemExcelConfigDataEntry;
use anime_game_data::game_data::ReliquaryExcelConfigDataEntry;
use anime_game_data::game_data::WeaponExcelConfigDataEntry;
use anime_game_data::sync::table_at;
use anime_game_data::sync::TABLE_COUNT;
use anime_game_data::AnimeGameData;
use anime_game_data::ArtifactSlot;
use anime_game_data::Database;
use anime_game_data::Error;
use anime_game_data::Payload;
use anime_game_data::Table;
use anime_game_data::Update;
use anime_game_data::DATABASE_VERSION;

fn order() -> [Table; 9] {
    [
        Table::TextMap,
        Table::AvatarSkillDepot,
        Table::DisplayItem,
        Table::Reliquary,
        Table::ReliquaryMainProp,
        Table::ReliquaryAffix,
        Table::Weapon,
        Table::Material,
        Table::Avatar,
    ]
}

fn payload(table: Table) -> Payload {
    match table {
        Table::TextMap => Payload::TextMap(HashMap::from([
            (1, "Marechaussee Hunter".to_string()),
            (2, "Primordial Jade Cutter".to_string()),
            (3, "Kirara".to_string()),
        ])),
        Table::AvatarSkillDepot => Payload::AvatarSkillDepot(vec![
            AvatarSkillDepotExcelConfigDataEntry { energy_skill: 10019, skills: vec![10024, 10018] },
        ]),
        Table::DisplayItem => Payload::DisplayItem(vec![DisplayItemExcelConfigDataEntry {
            display_type: "RELIQUARY_ITEM".to_string(),
            name_text_map_hash: 1,
            param: 15031,
        }]),
        Table::Reliquary => Payload::Reliquary(vec![ReliquaryExcelConfigDataEntry {
            equip_type: "EQUIP_BRACER".to_string(),
            id: 31514,
            rank_level: 5,
            set_id: 15031,
        }]),
        Table::ReliquaryMainProp => Payload::ReliquaryMainProp(vec![]),
        Table::ReliquaryAffix => Payload::ReliquaryAffix(vec![]),
        Table::Weapon => Payload::Weapon(vec![WeaponExcelConfigDataEntry {
            id: 11505,
            name_text_map_hash: 2,
            rank_level: 5,
        }]),
        Table::Material => Payload::Material(vec![]),
        Table::Avatar => Payload::Avatar(vec![AvatarExcelConfigDataEntry {
            id: 10000061,
            name_text_map_hash: 3,
        }]),
    }
}

#[test]
fn tables_are_asked_for_in_the_fetch_order() {
    assert_eq!(TABLE_COUNT, 9);
    for (place, table) in order().into_iter().enumerate() {
        assert_eq!(table_at(place), Some(table));
    }
    assert_eq!(table_at(9), None);
    assert_eq!(table_at(usize::MAX), None);

    let mut update = Update::begin("abc");
    for table in order() {
        assert!(!update.is_complete());
        assert_eq!(update.next_table(), Some(table));
        assert_eq!(update.provide(payload(table)), Ok(()));
    }
    assert!(update.is_complete());
    assert_eq!(update.next_table(), None);
}

#[test]
fn text_map_and_set_map_are_there_before_they_are_used() {
    let order = order();
    let place = |table: Table| order.iter().position(|t| *t == table).unwrap();
    for table in [Table::DisplayItem, Table::Reliquary, Table::Weapon, Table::Material, Table::Avatar]
    {
        assert!(place(Table::TextMap) < place(table));
    }
    assert!(place(Table::DisplayItem) < place(Table::Reliquary));
}

#[test]
fn payload_names_its_table() {
    for table in order() {
        assert_eq!(payload(table).table(), table);
        assert!(payload(table).is_readable());
    }
    let short = Payload::AvatarSkillDepot(vec![AvatarSkillDepotExcelConfigDataEntry {
        energy_skill: 1,
        skills: vec![2],
    }]);
    assert!(!short.is_readable());
}

#[test]
fn finished_update_hands_out_the_snapshot() {
    let mut update = Update::begin("abc");
    assert_eq!(update.git_hash(), "abc");
    for table in order() {
        update.provide(payload(table)).unwrap();
    }
    let db: Database = update.finish().unwrap();
    assert_eq!(db.version, DATABASE_VERSION);
    assert_eq!(db.git_hash, "abc");
    assert_eq!(db.set_map[&15031], "Marechaussee Hunter");
    assert_eq!(db.artifact_map[&31514].set, "Marechaussee Hunter");
    assert_eq!(db.artifact_map[&31514].slot, ArtifactSlot::Flower);
    assert_eq!(db.weapon_map[&11505].name, "Primordial Jade Cutter");
    assert_eq!(db.character_map[&10000061], "Kirara");
    assert_eq!(db.skill_type_map.len(), 3);
    assert!(db.affix_map.is_empty());
    assert!(db.material_map.is_empty());
    assert!(db.property_map.is_empty());
}

#[test]
fn unexpected_table_is_turned_down_and_changes_nothing() {
    let mut update = Update::begin("abc");
    for found in order() {
        if found != Table::TextMap {
            assert_eq!(
                update.provide(payload(found)),
                Err(Error::UnexpectedTable { expected: Table::TextMap, found })
            );
            assert_eq!(update.next_table(), Some(Table::TextMap));
        }
    }
    update.provide(payload(Table::TextMap)).unwrap();
    assert_eq!(
        update.provide(payload(Table::TextMap)),
        Err(Error::UnexpectedTable { expected: Table::AvatarSkillDepot, found: Table::TextMap })
    );
    assert_eq!(
        update.provide(payload(Table::Avatar)),
        Err(Error::UnexpectedTable { expected: Table::AvatarSkillDepot, found: Table::Avatar })
    );
    // The run goes on as if nothing had been offered.
    for table in order().into_iter().skip(1) {
        assert_eq!(update.provide(payload(table)), Ok(()));
    }
    let db = update.finish().unwrap();
    assert_eq!(db.character_map[&10000061], "Kirara");
}

#[test]
fn table_after_the_last_is_turned_down() {
    let mut update = Update::begin("abc");
    for table in order() {
        update.provide(payload(table)).unwrap();
    }
    for found in order() {
        assert_eq!(update.provide(payload(found)), Err(Error::NothingExpected { found }));
    }
    assert!(update.is_complete());
    assert_eq!(update.finish().unwrap().weapon_map.len(), 1);
}

#[test]
fn unfinished_update_names_the_missing_table() {
    for (place, missing) in order().into_iter().enumerate() {
        let mut update = Update::begin("abc");
        for table in order().into_iter().take(place) {
            update.provide(payload(table)).unwrap();
        }
        assert_eq!(update.finish().err(), Some(Error::Incomplete { missing }));
    }
}

#[test]
fn building_a_snapshot_leaves_the_store_alone() {
    let mut data = AnimeGameData::new_with_cache("cache.json", None).unwrap();
    let mut update = data.begin_update("abc").unwrap();
    for table in order() {
        assert!(!data.has_data());
        update.provide(payload(table)).unwrap();
    }
    assert!(!data.has_data());
    assert_eq!(data.finish_update(update), Ok(()));
    assert!(data.has_data());
    assert_eq!(data.get_character(10000061).unwrap(), "Kirara");
    assert!(!data.needs_update_for("abc"));
    assert!(data.begin_update("abc").is_none());
    assert_eq!(data.cache_path(), Some("cache.json"));
}

#[test]
fn empty_database_of_a_revision() {
    let db = Database::new("abc");
    assert_eq!(db.version, 0);
    assert!(db.is_current());
    assert_eq!(db.git_hash, "abc");
    assert!(db.affix_map.is_empty());
    assert!(db.artifact_map.is_empty());
    assert!(db.character_map.is_empty());
    assert!(db.material_map.is_empty());
    assert!(db.property_map.is_empty());
    assert!(db.set_map.is_empty());
    assert!(db.skill_type_map.is_empty());
    assert!(db.weapon_map.is_empty());

    let mut other = db.clone();
    other.version = 1;
    assert!(!other.is_current());
}
