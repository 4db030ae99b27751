//! From decoded tables to the maps of a snapshot.
//!
//! Every map but the one of skill types is made the same way: the rows are
//! taken in the order of the table, a row that cannot be resolved is passed
//! over, and a row that can is entered under its id, in place of whatever an
//! earlier row had entered there. [`collect`] is that rule; each table adds
//! what it means for one of its rows to be resolved.

use std::collections::HashMap;
use vstd::prelude::*;

use crate::game_data::AvatarExcelConfigDataEntry;
use crate::game_data::AvatarSkillDepotExcelConfigDataEntry;
use crate::game_data::DisplayItemExcelConfigDataEntry;
use crate::game_data::MaterialExcelConfigDataEntry;
use crate::game_data::ReliquaryAffixExcelConfigDataEntry;
use crate::game_data::ReliquaryExcelConfigDataEntry;
use crate::game_data::ReliquaryMainPropExcelConfigDataEntry;
use crate::game_data::WeaponExcelConfigDataEntry;
use crate::model::lemma_views_empty;
use crate::model::lemma_views_insert;
use crate::model::views;
use crate::text::str_eq;
use crate::types::Affix;
use crate::types::Artifact;
use crate::types::ArtifactView;
use crate::types::ArtifactSlot;
use crate::types::Property;
use crate::types::SkillType;
use crate::types::Weapon;
use crate::types::WeaponView;

verus! {

broadcast use vstd::std_specs::hash::group_hash_axioms;

/// The map that the rows give when each is entered in turn: a row that
/// `resolve` turns down leaves the map as it is, one that it accepts is
/// entered under its id and replaces what was there.
pub open spec fn collect<E, V>(rows: Seq<E>, resolve: spec_fn(E) -> Option<(u32, V)>) -> Map<
    u32,
    V,
>
    decreases rows.len(),
{
    if rows.len() == 0 {
        Map::empty()
    } else {
        enter(collect(rows.drop_last(), resolve), resolve(rows.last()))
    }
}

/// `map` after one row: unchanged if the row was turned down, else with the
/// row's value under the row's id.
pub open spec fn enter<V>(map: Map<u32, V>, resolved: Option<(u32, V)>) -> Map<u32, V> {
    match resolved {
        Some((id, value)) => map.insert(id, value),
        None => map,
    }
}

/// Whether `resolve` accepts `row` and enters it under `id`.
pub open spec fn enters_under<E, V>(
    resolve: spec_fn(E) -> Option<(u32, V)>,
    row: E,
    id: u32,
) -> bool {
    resolve(row) matches Some(entry) && entry.0 == id
}

/// Taking in one more row of a table enters that row into what the rows
/// before it gave.
pub proof fn lemma_collect_next<E, V>(
    rows: Seq<E>,
    resolve: spec_fn(E) -> Option<(u32, V)>,
    n: int,
)
    requires
        0 <= n < rows.len(),
    ensures
        collect(rows.take(n + 1), resolve) == enter(
            collect(rows.take(n), resolve),
            resolve(rows[n]),
        ),
{
    assert(rows.take(n + 1).drop_last() =~= rows.take(n));
}

/// An id is in the map exactly if some row is entered under it.
pub proof fn lemma_collect_contains<E, V>(
    rows: Seq<E>,
    resolve: spec_fn(E) -> Option<(u32, V)>,
    id: u32,
)
    ensures
        collect(rows, resolve).contains_key(id) <==> exists|i: int|
            0 <= i < rows.len() && #[trigger] enters_under(resolve, rows[i], id),
    decreases rows.len(),
{
    if rows.len() > 0 {
        let front = rows.drop_last();
        lemma_collect_contains(front, resolve, id);
        if collect(rows, resolve).contains_key(id) {
            if enters_under(resolve, rows.last(), id) {
                assert(enters_under(resolve, rows[rows.len() - 1], id));
            } else {
                let i = choose|i: int|
                    0 <= i < front.len() && #[trigger] enters_under(resolve, front[i], id);
                assert(enters_under(resolve, rows[i], id));
            }
        }
        if exists|i: int| 0 <= i < rows.len() && #[trigger] enters_under(resolve, rows[i], id) {
            let i = choose|i: int|
                0 <= i < rows.len() && #[trigger] enters_under(resolve, rows[i], id);
            if i < rows.len() - 1 {
                assert(enters_under(resolve, front[i], id));
            }
        }
    }
}

/// Whatever the map holds under an id, some row was entered under that id
/// with that value.
pub proof fn lemma_collect_value<E, V>(
    rows: Seq<E>,
    resolve: spec_fn(E) -> Option<(u32, V)>,
    id: u32,
)
    requires
        collect(rows, resolve).contains_key(id),
    ensures
        exists|i: int|
            0 <= i < rows.len() && #[trigger] resolve(rows[i]) == Some(
                (id, collect(rows, resolve)[id]),
            ),
    decreases rows.len(),
{
    if rows.len() > 0 {
        let front = rows.drop_last();
        let last = rows.len() - 1;
        if enters_under(resolve, rows.last(), id) {
            assert(resolve(rows[last]) == Some((id, collect(rows, resolve)[id])));
        } else {
            lemma_collect_value(front, resolve, id);
            let i = choose|i: int|
                0 <= i < front.len() && #[trigger] resolve(front[i]) == Some(
                    (id, collect(front, resolve)[id]),
                );
            assert(resolve(rows[i]) == Some((id, collect(rows, resolve)[id])));
        }
    }
}

/// Of the rows entered under one id, the last in the table decides the value.
pub proof fn lemma_collect_last_wins<E, V>(
    rows: Seq<E>,
    resolve: spec_fn(E) -> Option<(u32, V)>,
    i: int,
    id: u32,
    value: V,
)
    requires
        0 <= i < rows.len(),
        resolve(rows[i]) == Some((id, value)),
        forall|j: int| i < j < rows.len() ==> !#[trigger] enters_under(resolve, rows[j], id),
    ensures
        collect(rows, resolve).contains_key(id),
        collect(rows, resolve)[id] == value,
    decreases rows.len(),
{
    if i < rows.len() - 1 {
        let front = rows.drop_last();
        assert forall|j: int| i < j < front.len() implies !#[trigger] enters_under(
            resolve,
            front[j],
            id,
        ) by {
            assert(front[j] == rows[j]);
        }
        lemma_collect_last_wins(front, resolve, i, id, value);
        assert(!enters_under(resolve, rows[rows.len() - 1], id));
    }
}

/// The text that the text map holds under `id`, if it holds one.
pub fn lookup_text(text_map: &HashMap<u32, String>, id: u32) -> (text: Option<&String>)
    ensures
        text == if text_map@.contains_key(id) {
            Some(&text_map@[id])
        } else {
            None
        },
{
    text_map.get(&id)
}

/// What a row of the weapon table resolves to: the weapon under the row's
/// id, if the text map has its name.
pub open spec fn weapon_of(
    row: WeaponExcelConfigDataEntry,
    text_map: Map<u32, Seq<char>>,
) -> Option<(u32, WeaponView)> {
    if text_map.contains_key(row.name_text_map_hash) {
        Some(
            (row.id, WeaponView { name: text_map[row.name_text_map_hash], rarity: row.rank_level }),
        )
    } else {
        None
    }
}

/// [`weapon_of`] for a given text map, as a function of the row.
pub open spec fn weapon_resolver(text_map: Map<u32, Seq<char>>) -> spec_fn(
    WeaponExcelConfigDataEntry,
) -> Option<(u32, WeaponView)> {
    |row: WeaponExcelConfigDataEntry| weapon_of(row, text_map)
}

/// The weapon map that a weapon table gives.
pub open spec fn spec_weapon_map(
    rows: Seq<WeaponExcelConfigDataEntry>,
    text_map: Map<u32, Seq<char>>,
) -> Map<u32, WeaponView> {
    collect(rows, weapon_resolver(text_map))
}

/// Builds the weapon map: each weapon whose name the text map has, under
/// its id.
pub fn weapon_map(rows: &Vec<WeaponExcelConfigDataEntry>, text_map: &HashMap<u32, String>) -> (map:
    HashMap<u32, Weapon>)
    ensures
        views(map@) == spec_weapon_map(rows@, views(text_map@)),
{
    let mut map: HashMap<u32, Weapon> = HashMap::new();
    proof {
        lemma_views_empty::<Weapon>();
    }
    let mut i: usize = 0;
    while i < rows.len()
        invariant
            i <= rows.len(),
            views(map@) == spec_weapon_map(rows@.take(i as int), views(text_map@)),
        decreases rows.len() - i,
    {
        let row = &rows[i];
        proof {
            lemma_collect_next(rows@, weapon_resolver(views(text_map@)), i as int);
        }
        if let Some(name) = lookup_text(text_map, row.name_text_map_hash) {
            proof {
                lemma_views_insert(
                    map@,
                    row.id,
                    Weapon { name: *name, rarity: row.rank_level },
                );
            }
            map.insert(row.id, Weapon { name: name.clone(), rarity: row.rank_level });
        }
        i += 1;
    }
    assert(rows@.take(rows.len() as int) =~= rows@);
    map
}

/// What a row of the artifact table resolves to: the artifact under the
/// row's id, if the set map has the row's set and the equip type is one of
/// the five slots.
pub open spec fn artifact_of(
    row: ReliquaryExcelConfigDataEntry,
    set_map: Map<u32, Seq<char>>,
) -> Option<(u32, ArtifactView)> {
    if set_map.contains_key(row.set_id) {
        match ArtifactSlot::from_name(row.equip_type@) {
            Some(slot) => Some(
                (row.id, ArtifactView { set: set_map[row.set_id], slot, rarity: row.rank_level }),
            ),
            None => None,
        }
    } else {
        None
    }
}

/// [`artifact_of`] for a given set map, as a function of the row.
pub open spec fn artifact_resolver(set_map: Map<u32, Seq<char>>) -> spec_fn(
    ReliquaryExcelConfigDataEntry,
) -> Option<(u32, ArtifactView)> {
    |row: ReliquaryExcelConfigDataEntry| artifact_of(row, set_map)
}

/// The artifact map that an artifact table gives.
pub open spec fn spec_artifact_map(
    rows: Seq<ReliquaryExcelConfigDataEntry>,
    set_map: Map<u32, Seq<char>>,
) -> Map<u32, ArtifactView> {
    collect(rows, artifact_resolver(set_map))
}

/// Builds the artifact map: each artifact whose set the set map names and
/// whose equip type is a slot, under its id.
pub fn artifact_map(
    rows: &Vec<ReliquaryExcelConfigDataEntry>,
    set_map: &HashMap<u32, String>,
) -> (map: HashMap<u32, Artifact>)
    ensures
        views(map@) == spec_artifact_map(rows@, views(set_map@)),
{
    let mut map: HashMap<u32, Artifact> = HashMap::new();
    proof {
        lemma_views_empty::<Artifact>();
    }
    let mut i: usize = 0;
    while i < rows.len()
        invariant
            i <= rows.len(),
            views(map@) == spec_artifact_map(rows@.take(i as int), views(set_map@)),
        decreases rows.len() - i,
    {
        let row = &rows[i];
        proof {
            lemma_collect_next(rows@, artifact_resolver(views(set_map@)), i as int);
        }
        if let Some(set) = set_map.get(&row.set_id) {
            if let Some(slot) = ArtifactSlot::from_game_data_name(row.equip_type.as_str()) {
                proof {
                    lemma_views_insert(
                        map@,
                        row.id,
                        Artifact { set: *set, slot, rarity: row.rank_level },
                    );
                }
                map.insert(row.id, Artifact { set: set.clone(), slot, rarity: row.rank_level });
            }
        }
        i += 1;
    }
    assert(rows@.take(rows.len() as int) =~= rows@);
    map
}

/// An artifact is in the map only through a row whose set the set map
/// names, and it carries the name that the set map has for that set. So an
/// artifact that no row ties to a named set is not in the map at all.
pub proof fn lemma_artifact_needs_set(
    rows: Seq<ReliquaryExcelConfigDataEntry>,
    set_map: Map<u32, Seq<char>>,
    id: u32,
)
    ensures
        spec_artifact_map(rows, set_map).contains_key(id) ==> exists|i: int|
            0 <= i < rows.len() && (#[trigger] rows[i]).id == id && set_map.contains_key(
                rows[i].set_id,
            ) && spec_artifact_map(rows, set_map)[id].set == set_map[rows[i].set_id],
        (forall|i: int|
            0 <= i < rows.len() && (#[trigger] rows[i]).id == id ==> !set_map.contains_key(
                rows[i].set_id,
            )) ==> !spec_artifact_map(rows, set_map).contains_key(id),
{
    let resolve = artifact_resolver(set_map);
    if spec_artifact_map(rows, set_map).contains_key(id) {
        lemma_collect_value(rows, resolve, id);
        let i = choose|i: int|
            0 <= i < rows.len() && #[trigger] resolve(rows[i]) == Some(
                (id, collect(rows, resolve)[id]),
            );
        assert(rows[i].id == id && set_map.contains_key(rows[i].set_id));
    }
}

/// What a row of the affix table resolves to: the affix under the row's id,
/// if the row names a property. A percentage takes the value in percent
/// points, any other property the value as the table has it.
pub open spec fn affix_of(row: ReliquaryAffixExcelConfigDataEntry) -> Option<(u32, Affix)> {
    match Property::from_name(row.prop_type@) {
        Some(property) => Some(
            (
                row.id,
                Affix {
                    property,
                    value: if property.is_percentage() {
                        row.prop_value_percent
                    } else {
                        row.prop_value
                    },
                },
            ),
        ),
        None => None,
    }
}

/// [`affix_of`] as a function of the row.
pub open spec fn affix_resolver() -> spec_fn(ReliquaryAffixExcelConfigDataEntry) -> Option<
    (u32, Affix),
> {
    |row: ReliquaryAffixExcelConfigDataEntry| affix_of(row)
}

/// The affix map that an affix table gives.
pub open spec fn spec_affix_map(rows: Seq<ReliquaryAffixExcelConfigDataEntry>) -> Map<u32, Affix> {
    collect(rows, affix_resolver())
}

/// Builds the affix map: each affix whose property is known, under its id,
/// with its value in the unit of the property.
pub fn affix_map(rows: &Vec<ReliquaryAffixExcelConfigDataEntry>) -> (map: HashMap<u32, Affix>)
    ensures
        map@ == spec_affix_map(rows@),
{
    let mut map: HashMap<u32, Affix> = HashMap::new();
    let mut i: usize = 0;
    while i < rows.len()
        invariant
            i <= rows.len(),
            map@ == spec_affix_map(rows@.take(i as int)),
        decreases rows.len() - i,
    {
        let row = &rows[i];
        proof {
            lemma_collect_next(rows@, affix_resolver(), i as int);
        }
        if let Ok(property) = Property::from_str(row.prop_type.as_str()) {
            let value = if property.is_percentage() {
                row.prop_value_percent
            } else {
                row.prop_value
            };
            map.insert(row.id, Affix { property, value });
        }
        i += 1;
    }
    assert(rows@.take(rows.len() as int) =~= rows@);
    map
}

/// Every affix in the map has a row of its id behind it: the affix has the
/// property that the row names, and its value is the row's value in percent
/// points if that property is a percentage, the row's value as it stands
/// if not.
pub proof fn lemma_affix_unit(rows: Seq<ReliquaryAffixExcelConfigDataEntry>, id: u32)
    requires
        spec_affix_map(rows).contains_key(id),
    ensures
        exists|i: int|
            0 <= i < rows.len() && (#[trigger] rows[i]).id == id && Property::from_name(
                rows[i].prop_type@,
            ) == Some(spec_affix_map(rows)[id].property) && spec_affix_map(rows)[id].value == (
            if spec_affix_map(rows)[id].property.is_percentage() {
                rows[i].prop_value_percent
            } else {
                rows[i].prop_value
            }),
{
    let resolve = affix_resolver();
    lemma_collect_value(rows, resolve, id);
    let i = choose|i: int|
        0 <= i < rows.len() && #[trigger] resolve(rows[i]) == Some(
            (id, collect(rows, resolve)[id]),
        );
    assert(rows[i].id == id);
}

/// What a row with an id and the hash of a name resolves to: the name under
/// the id, if the text map has it.
pub open spec fn name_of(
    id: u32,
    name_text_map_hash: u32,
    text_map: Map<u32, Seq<char>>,
) -> Option<(u32, Seq<char>)> {
    if text_map.contains_key(name_text_map_hash) {
        Some((id, text_map[name_text_map_hash]))
    } else {
        None
    }
}

/// [`name_of`] on the rows of the character table.
pub open spec fn character_resolver(text_map: Map<u32, Seq<char>>) -> spec_fn(
    AvatarExcelConfigDataEntry,
) -> Option<(u32, Seq<char>)> {
    |row: AvatarExcelConfigDataEntry| name_of(row.id, row.name_text_map_hash, text_map)
}

/// The character map that a character table gives.
pub open spec fn spec_character_map(
    rows: Seq<AvatarExcelConfigDataEntry>,
    text_map: Map<u32, Seq<char>>,
) -> Map<u32, Seq<char>> {
    collect(rows, character_resolver(text_map))
}

/// Builds the character map: the name of each character that the text map
/// names, under the character's id.
pub fn character_map(
    rows: &Vec<AvatarExcelConfigDataEntry>,
    text_map: &HashMap<u32, String>,
) -> (map: HashMap<u32, String>)
    ensures
        views(map@) == spec_character_map(rows@, views(text_map@)),
{
    let mut map: HashMap<u32, String> = HashMap::new();
    proof {
        lemma_views_empty::<String>();
    }
    let mut i: usize = 0;
    while i < rows.len()
        invariant
            i <= rows.len(),
            views(map@) == spec_character_map(rows@.take(i as int), views(text_map@)),
        decreases rows.len() - i,
    {
        let row = &rows[i];
        proof {
            lemma_collect_next(rows@, character_resolver(views(text_map@)), i as int);
        }
        if let Some(name) = lookup_text(text_map, row.name_text_map_hash) {
            proof {
                lemma_views_insert(map@, row.id, *name);
            }
            map.insert(row.id, name.clone());
        }
        i += 1;
    }
    assert(rows@.take(rows.len() as int) =~= rows@);
    map
}

/// [`name_of`] on the rows of the material table.
pub open spec fn material_resolver(text_map: Map<u32, Seq<char>>) -> spec_fn(
    MaterialExcelConfigDataEntry,
) -> Option<(u32, Seq<char>)> {
    |row: MaterialExcelConfigDataEntry| name_of(row.id, row.name_text_map_hash, text_map)
}

/// The material map that a material table gives.
pub open spec fn spec_material_map(
    rows: Seq<MaterialExcelConfigDataEntry>,
    text_map: Map<u32, Seq<char>>,
) -> Map<u32, Seq<char>> {
    collect(rows, material_resolver(text_map))
}

/// Builds the material map: the name of each material that the text map
/// names, under the material's id.
pub fn material_map(
    rows: &Vec<MaterialExcelConfigDataEntry>,
    text_map: &HashMap<u32, String>,
) -> (map: HashMap<u32, String>)
    ensures
        views(map@) == spec_material_map(rows@, views(text_map@)),
{
    let mut map: HashMap<u32, String> = HashMap::new();
    proof {
        lemma_views_empty::<String>();
    }
    let mut i: usize = 0;
    while i < rows.len()
        invariant
            i <= rows.len(),
            views(map@) == spec_material_map(rows@.take(i as int), views(text_map@)),
        decreases rows.len() - i,
    {
        let row = &rows[i];
        proof {
            lemma_collect_next(rows@, material_resolver(views(text_map@)), i as int);
        }
        if let Some(name) = lookup_text(text_map, row.name_text_map_hash) {
            proof {
                lemma_views_insert(map@, row.id, *name);
            }
            map.insert(row.id, name.clone());
        }
        i += 1;
    }
    assert(rows@.take(rows.len() as int) =~= rows@);
    map
}

/// What a row of the main stat table resolves to: the property that it
/// names, if it names one, under the row's id.
pub open spec fn property_of(row: ReliquaryMainPropExcelConfigDataEntry) -> Option<
    (u32, Property),
> {
    match Property::from_name(row.prop_type@) {
        Some(property) => Some((row.id, property)),
        None => None,
    }
}

/// [`property_of`] as a function of the row.
pub open spec fn property_resolver() -> spec_fn(ReliquaryMainPropExcelConfigDataEntry) -> Option<
    (u32, Property),
> {
    |row: ReliquaryMainPropExcelConfigDataEntry| property_of(row)
}

/// The property map that a main stat table gives.
pub open spec fn spec_property_map(rows: Seq<ReliquaryMainPropExcelConfigDataEntry>) -> Map<
    u32,
    Property,
> {
    collect(rows, property_resolver())
}

/// Builds the property map: each main stat whose property is known, under
/// its id.
pub fn property_map(rows: &Vec<ReliquaryMainPropExcelConfigDataEntry>) -> (map: HashMap<
    u32,
    Property,
>)
    ensures
        map@ == spec_property_map(rows@),
{
    let mut map: HashMap<u32, Property> = HashMap::new();
    let mut i: usize = 0;
    while i < rows.len()
        invariant
            i <= rows.len(),
            map@ == spec_property_map(rows@.take(i as int)),
        decreases rows.len() - i,
    {
        let row = &rows[i];
        proof {
            lemma_collect_next(rows@, property_resolver(), i as int);
        }
        if let Ok(property) = Property::from_str(row.prop_type.as_str()) {
            map.insert(row.id, property);
        }
        i += 1;
    }
    assert(rows@.take(rows.len() as int) =~= rows@);
    map
}

/// What a row of the display item table resolves to: if the row shows an
/// artifact set and the text map has its name, that name under the id of
/// the set, which the row holds as its parameter.
pub open spec fn set_of(
    row: DisplayItemExcelConfigDataEntry,
    text_map: Map<u32, Seq<char>>,
) -> Option<(u32, Seq<char>)> {
    if row.display_type@ == "RELIQUARY_ITEM"@ {
        name_of(row.param, row.name_text_map_hash, text_map)
    } else {
        None
    }
}

/// [`set_of`] for a given text map, as a function of the row.
pub open spec fn set_resolver(text_map: Map<u32, Seq<char>>) -> spec_fn(
    DisplayItemExcelConfigDataEntry,
) -> Option<(u32, Seq<char>)> {
    |row: DisplayItemExcelConfigDataEntry| set_of(row, text_map)
}

/// The set map that a display item table gives.
pub open spec fn spec_set_map(
    rows: Seq<DisplayItemExcelConfigDataEntry>,
    text_map: Map<u32, Seq<char>>,
) -> Map<u32, Seq<char>> {
    collect(rows, set_resolver(text_map))
}

/// Builds the set map: the name of each artifact set that the table shows
/// and the text map names, under the id of the set.
pub fn set_map(rows: &Vec<DisplayItemExcelConfigDataEntry>, text_map: &HashMap<u32, String>) -> (map:
    HashMap<u32, String>)
    ensures
        views(map@) == spec_set_map(rows@, views(text_map@)),
{
    let mut map: HashMap<u32, String> = HashMap::new();
    proof {
        lemma_views_empty::<String>();
    }
    let mut i: usize = 0;
    while i < rows.len()
        invariant
            i <= rows.len(),
            views(map@) == spec_set_map(rows@.take(i as int), views(text_map@)),
        decreases rows.len() - i,
    {
        let row = &rows[i];
        proof {
            lemma_collect_next(rows@, set_resolver(views(text_map@)), i as int);
        }
        if str_eq(row.display_type.as_str(), "RELIQUARY_ITEM") {
            if let Some(name) = lookup_text(text_map, row.name_text_map_hash) {
                proof {
                    lemma_views_insert(map@, row.param, *name);
                }
                map.insert(row.param, name.clone());
            }
        }
        i += 1;
    }
    assert(rows@.take(rows.len() as int) =~= rows@);
    map
}

/// Whether every row of a skill depot table lists the two skills that are
/// read from it.
pub open spec fn lists_two_skills(rows: Seq<AvatarSkillDepotExcelConfigDataEntry>) -> bool {
    forall|i: int| 0 <= i < rows.len() ==> (#[trigger] rows[i]).skills@.len() >= 2
}

/// Checks that every row lists the two skills that are read from it.
pub fn check_two_skills(rows: &Vec<AvatarSkillDepotExcelConfigDataEntry>) -> (listed: bool)
    ensures
        listed == lists_two_skills(rows@),
{
    let mut i: usize = 0;
    while i < rows.len()
        invariant
            i <= rows.len(),
            forall|j: int| 0 <= j < i ==> (#[trigger] rows@[j]).skills@.len() >= 2,
        decreases rows.len() - i,
    {
        if rows[i].skills.len() < 2 {
            return false;
        }
        i += 1;
    }
    true
}

/// The talent that a row gives to a skill: its second listed skill is the
/// elemental skill, its first the normal attack, its energy skill the
/// burst. Where a row names one skill in more than one place, the place
/// that is read last counts, in this order.
pub open spec fn talent_in(row: AvatarSkillDepotExcelConfigDataEntry, id: u32) -> Option<
    SkillType,
> {
    if row.skills@[1] == id {
        Some(SkillType::Skill)
    } else if row.skills@[0] == id {
        Some(SkillType::Auto)
    } else if row.energy_skill == id {
        Some(SkillType::Burst)
    } else {
        None
    }
}

/// `map` after one row of the skill depot table.
pub open spec fn enter_skills(
    map: Map<u32, SkillType>,
    row: AvatarSkillDepotExcelConfigDataEntry,
) -> Map<u32, SkillType> {
    map.insert(row.energy_skill, SkillType::Burst).insert(row.skills@[0], SkillType::Auto).insert(
        row.skills@[1],
        SkillType::Skill,
    )
}

/// The skill type map that a skill depot table gives: each row in turn
/// enters its three skills.
pub open spec fn spec_skill_type_map(rows: Seq<AvatarSkillDepotExcelConfigDataEntry>) -> Map<
    u32,
    SkillType,
>
    decreases rows.len(),
{
    if rows.len() == 0 {
        Map::empty()
    } else {
        enter_skills(spec_skill_type_map(rows.drop_last()), rows.last())
    }
}

/// Builds the skill type map: for each row, its energy skill as the burst
/// and its first two listed skills as normal attack and elemental skill.
pub fn skill_type_map(rows: &Vec<AvatarSkillDepotExcelConfigDataEntry>) -> (map: HashMap<
    u32,
    SkillType,
>)
    requires
        lists_two_skills(rows@),
    ensures
        map@ == spec_skill_type_map(rows@),
{
    let mut map: HashMap<u32, SkillType> = HashMap::new();
    let mut i: usize = 0;
    while i < rows.len()
        invariant
            i <= rows.len(),
            lists_two_skills(rows@),
            map@ == spec_skill_type_map(rows@.take(i as int)),
        decreases rows.len() - i,
    {
        let row = &rows[i];
        proof {
            assert(rows@.take(i + 1).drop_last() =~= rows@.take(i as int));
            assert(rows@[i as int].skills@.len() >= 2);
        }
        map.insert(row.energy_skill, SkillType::Burst);
        map.insert(row.skills[0], SkillType::Auto);
        map.insert(row.skills[1], SkillType::Skill);
        i += 1;
    }
    assert(rows@.take(rows.len() as int) =~= rows@);
    map
}

/// A skill is in the map exactly if some row gives it a talent.
pub proof fn lemma_skill_type_contains(rows: Seq<AvatarSkillDepotExcelConfigDataEntry>, id: u32)
    ensures
        spec_skill_type_map(rows).contains_key(id) <==> exists|i: int|
            0 <= i < rows.len() && #[trigger] talent_in(rows[i], id) is Some,
    decreases rows.len(),
{
    if rows.len() > 0 {
        let front = rows.drop_last();
        lemma_skill_type_contains(front, id);
        if spec_skill_type_map(rows).contains_key(id) {
            if talent_in(rows.last(), id) is Some {
                assert(talent_in(rows[rows.len() - 1], id) is Some);
            } else {
                let i = choose|i: int|
                    0 <= i < front.len() && #[trigger] talent_in(front[i], id) is Some;
                assert(talent_in(rows[i], id) is Some);
            }
        }
        if exists|i: int| 0 <= i < rows.len() && #[trigger] talent_in(rows[i], id) is Some {
            let i = choose|i: int| 0 <= i < rows.len() && #[trigger] talent_in(rows[i], id) is Some;
            if i < rows.len() - 1 {
                assert(talent_in(front[i], id) is Some);
            }
        }
    }
}

/// Of the rows that give a skill a talent, the last in the table decides:
/// the map holds the talent that this row gives.
pub proof fn lemma_skill_type_last_wins(
    rows: Seq<AvatarSkillDepotExcelConfigDataEntry>,
    i: int,
    id: u32,
)
    requires
        0 <= i < rows.len(),
        talent_in(rows[i], id) is Some,
        forall|j: int| i < j < rows.len() ==> #[trigger] talent_in(rows[j], id) is None,
    ensures
        spec_skill_type_map(rows).contains_key(id),
        Some(spec_skill_type_map(rows)[id]) == talent_in(rows[i], id),
    decreases rows.len(),
{
    if i < rows.len() - 1 {
        let front = rows.drop_last();
        assert forall|j: int| i < j < front.len() implies #[trigger] talent_in(front[j], id)
            is None by {
            assert(front[j] == rows[j]);
        }
        lemma_skill_type_last_wins(front, i, id);
        assert(talent_in(rows[rows.len() - 1], id) is None);
    }
}

} // verus!
