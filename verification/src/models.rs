//! Data model: passive field containers mirroring the wrapped API's JSON
//! schema.  Values are created when a response is decoded and never mutated
//! afterwards; optional fields are `Option<String>` so that absence stays
//! distinguishable from an empty string.

use vstd::prelude::*;

verus! {

/// A lightweight `{name, url}` pointer to another entity, not its full body.
#[derive(Clone, Debug, PartialEq, Eq)]
pub struct NamedApiResource {
    pub name: String,
    pub url: String,
}

/// One fetched batch of a paginated collection, including the link to the
/// next batch if any.
#[derive(Clone, Debug, PartialEq, Eq)]
pub struct NamedApiResourceList {
    pub count: u32,
    pub next: Option<String>,
    pub previous: Option<String>,
    pub results: Vec<NamedApiResource>,
}

/// A fully-populated record for one Pokémon.
#[derive(Clone, Debug, PartialEq, Eq)]
pub struct Pokemon {
    pub id: u32,
    pub name: String,
    pub base_experience: u32,
    pub height: u32,
    pub weight: u32,
    pub abilities: Vec<PokemonAbility>,
    pub forms: Vec<NamedApiResource>,
    pub game_indices: Vec<VersionGameIndex>,
    pub held_items: Vec<PokemonHeldItem>,
    pub location_area_encounters: String,
    pub moves: Vec<PokemonMove>,
    pub sprites: PokemonSprites,
    pub species: NamedApiResource,
    pub stats: Vec<PokemonStat>,
    pub types: Vec<PokemonType>,
}

/// One ability slot of a Pokémon.
#[derive(Clone, Debug, PartialEq, Eq)]
pub struct PokemonAbility {
    pub is_hidden: bool,
    pub slot: u8,
    pub ability: NamedApiResource,
}

/// A per-game-version index number.
#[derive(Clone, Debug, PartialEq, Eq)]
pub struct VersionGameIndex {
    pub game_index: u16,
    pub version: NamedApiResource,
}

/// An item a Pokémon may hold, with per-version details.
#[derive(Clone, Debug, PartialEq, Eq)]
pub struct PokemonHeldItem {
    pub item: NamedApiResource,
    pub version_details: Vec<PokemonHeldItemVersion>,
}

/// The rarity of a held item in one game version.
#[derive(Clone, Debug, PartialEq, Eq)]
pub struct PokemonHeldItemVersion {
    pub version: NamedApiResource,
    pub rarity: u8,
}

/// A move a Pokémon can learn, with per-version-group details.
#[derive(Clone, Debug, PartialEq, Eq)]
pub struct PokemonMove {
    pub move_field: NamedApiResource,
    pub version_group_details: Vec<PokemonMoveVersion>,
}

/// How a Pokémon learns a move in one version group.
#[derive(Clone, Debug, PartialEq, Eq)]
pub struct PokemonMoveVersion {
    pub move_learn_method: NamedApiResource,
    pub version_group: NamedApiResource,
    pub level_learned_at: u8,
}

/// Sprite image URLs for a Pokémon; each may be absent.
#[derive(Clone, Debug, PartialEq, Eq)]
pub struct PokemonSprites {
    pub front_default: Option<String>,
    pub front_shiny: Option<String>,
}

/// One base stat of a Pokémon.
#[derive(Clone, Debug, PartialEq, Eq)]
pub struct PokemonStat {
    pub stat: NamedApiResource,
    pub effort: u8,
    pub base_stat: u8,
}

/// One type slot of a Pokémon.
#[derive(Clone, Debug, PartialEq, Eq)]
pub struct PokemonType {
    pub slot: u8,
    pub type_field: NamedApiResource,
}

/// A fully-populated record for one game generation.
#[derive(Clone, Debug, PartialEq, Eq)]
pub struct Generation {
    pub id: u32,
    pub name: String,
    pub abilities: Vec<NamedApiResource>,
    pub names: Vec<Name>,
    pub main_region: NamedApiResource,
    pub moves: Vec<NamedApiResource>,
    pub pokemon_species: Vec<NamedApiResource>,
    pub types: Vec<NamedApiResource>,
    pub version_groups: Vec<NamedApiResource>,
}

/// A localized display name together with its language.
#[derive(Clone, Debug, PartialEq, Eq)]
pub struct Name {
    pub name: String,
    pub language: NamedApiResource,
}

} // verus!
