//! The failures that the library reports.

use vstd::prelude::*;

use crate::game_data::Table;

verus! {

/// The kinds of record that can be looked up by id.
#[derive(Clone, Copy, Debug, PartialEq, Eq, Structural)]
pub enum Entity {
    Affix,
    Artifact,
    Character,
    Material,
    Property,
    ArtifactSet,
    SkillType,
    Weapon,
}

/// Why an operation of the library failed.
#[derive(Clone, Copy, Debug, PartialEq, Eq, Structural)]
pub enum Error {
    /// A lookup found nothing: no data is loaded, or the data holds no
    /// record of that kind under the id.
    NotFound { entity: Entity, id: u32 },
    /// A property name that the game data does not use.
    UnknownProperty,
    /// The remote source could not be reached, or gave no usable answer.
    Transport,
    /// A table was fetched, but its payload does not have the table's shape.
    Decode { table: Table },
    /// A synchronization was handed another table than the one it asked for.
    UnexpectedTable { expected: Table, found: Table },
    /// A synchronization was handed a table after it had taken in all of them.
    NothingExpected { found: Table },
    /// A synchronization was to be installed before it had all its tables.
    Incomplete { missing: Table },
}

} // verus!
