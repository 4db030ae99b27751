//! A local, queryable snapshot of the game's data tables.
//!
//! The game data is a set of JSON tables that refer to each other by
//! numeric ids: a weapon names itself by the hash of a text, an artifact
//! belongs to a set whose name a third table shows. This library turns the
//! decoded tables of one revision into maps that answer lookups by id, and
//! keeps the maps of the latest revision in an [`AnimeGameData`].
//!
//! Fetching and decoding are left to the caller. A synchronization is an
//! [`Update`]: it names the table that it needs next, takes it in, and
//! builds its snapshot beside the one in use, which is replaced only when
//! the last table is in. [`AnimeGameData::update`] runs a whole
//! synchronization against a [`FixedSource`], a source whose answers are
//! given beforehand.

pub mod database;
pub mod error;
pub mod game_data;
pub mod model;
pub mod store;
pub mod sync;
pub mod tables;
pub mod text;
pub mod types;

pub use database::Database;
pub use database::DATABASE_VERSION;
pub use error::Entity;
pub use error::Error;
pub use game_data::Table;
pub use store::AnimeGameData;
pub use store::FixedSource;
pub use sync::Payload;
pub use sync::Update;
pub use types::Affix;
pub use types::Artifact;
pub use types::ArtifactSlot;
pub use types::Property;
pub use types::SkillType;
pub use types::Weapon;
