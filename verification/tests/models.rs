use pokeapi_sdk::models::Generation;
use pokeapi_sdk::models::Name;
use pokeapi_sdk::models::NamedApiResource;
use pokeapi_sdk::models::Pokemon;
use pokeapi_sdk::models::PokemonAbility;
use pokeapi_sdk::models::PokemonHeldItem;
use pokeapi_sdk::models::PokemonHeldItemVersion;
use pokeapi_sdk::models::PokemonMove;
use pokeapi_sdk::models::PokemonMoveVersion;
use pokeapi_sdk::models::PokemonSprites;
use pokeapi_sdk::models::PokemonStat;
use pokeapi_sdk::models::PokemonType;
use pokeapi_sdk::models::VersionGameIndex;

fn resource(name: &str, url: &str) -> NamedApiResource {
    NamedApiResource { name: name.to_string(), url: url.to_string() }
}

fn sample_pokemon() -> Pokemon {
    Pokemon {
        id: 25,
        name: "pikachu".to_string(),
        base_experience: 112,
        height: 4,
        weight: 60,
        abilities: vec![PokemonAbility {
            is_hidden: false,
            slot: 1,
            ability: resource("static", "http://x/ability/9/"),
        }],
        forms: vec![resource("pikachu", "http://x/pokemon-form/25/")],
        game_indices: vec![VersionGameIndex {
            game_index: 84,
            version: resource("red", "http://x/version/1/"),
        }],
        held_items: vec![PokemonHeldItem {
            item: resource("light-ball", "http://x/item/213/"),
            version_details: vec![PokemonHeldItemVersion {
                version: resource("ruby", "http://x/version/7/"),
                rarity: 5,
            }],
        }],
        location_area_encounters: "http://x/pokemon/25/encounters".to_string(),
        moves: vec![PokemonMove {
            move_field: resource("thunder-shock", "http://x/move/84/"),
            version_group_details: vec![PokemonMoveVersion {
                move_learn_method: resource("level-up", "http://x/move-learn-method/1/"),
                version_group: resource("red-blue", "http://x/version-group/1/"),
                level_learned_at: 1,
            }],
        }],
        sprites: PokemonSprites {
            front_default: Some("http://x/sprites/25.png".to_string()),
            front_shiny: None,
        },
        species: resource("pikachu", "http://x/pokemon-species/25/"),
        stats: vec![PokemonStat {
            stat: resource("speed", "http://x/stat/6/"),
            effort: 2,
            base_stat: 90,
        }],
        types: vec![PokemonType {
            slot: 1,
            type_field: resource("electric", "http://x/type/13/"),
        }],
    }
}

#[test]
fn pokemon_record_holds_its_fields() {
    let pokemon = sample_pokemon();
    assert_eq!(pokemon.id, 25);
    assert_eq!(pokemon.name, "pikachu");
    assert_eq!(pokemon.abilities[0].ability.name, "static");
    assert_eq!(pokemon.sprites.front_default.as_deref(), Some("http://x/sprites/25.png"));
    assert_eq!(pokemon.sprites.front_shiny, None);
    assert_eq!(pokemon.moves[0].version_group_details[0].level_learned_at, 1);
}

#[test]
fn pokemon_records_compare_by_fields() {
    let a = sample_pokemon();
    let mut b = sample_pokemon();
    assert_eq!(a, b);
    b.weight = 61;
    assert_ne!(a, b);
}

#[test]
fn generation_record_holds_its_fields() {
    let generation = Generation {
        id: 1,
        name: "generation-i".to_string(),
        abilities: vec![],
        names: vec![Name {
            name: "Generation I".to_string(),
            language: resource("en", "http://x/language/9/"),
        }],
        main_region: resource("kanto", "http://x/region/1/"),
        moves: vec![resource("pound", "http://x/move/1/")],
        pokemon_species: vec![resource("bulbasaur", "http://x/pokemon-species/1/")],
        types: vec![resource("normal", "http://x/type/1/")],
        version_groups: vec![resource("red-blue", "http://x/version-group/1/")],
    };
    assert_eq!(generation.id, 1);
    assert_eq!(generation.name, "generation-i");
    assert_eq!(generation.main_region.name, "kanto");
    assert_eq!(generation.names[0].name, "Generation I");
    assert_eq!(generation.pokemon_species.len(), 1);
}

#[test]
fn absent_and_empty_sprite_urls_differ() {
    let absent = PokemonSprites { front_default: None, front_shiny: None };
    let empty = PokemonSprites {
        front_default: Some(String::new()),
        front_shiny: None,
    };
    assert_ne!(absent, empty);
}
