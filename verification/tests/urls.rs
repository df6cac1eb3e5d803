use pokeapi_sdk::urls::build_list_url;
use pokeapi_sdk::urls::build_resource_url;
use pokeapi_sdk::urls::generation_endpoint_by_id;
use pokeapi_sdk::urls::generation_endpoint_by_name;
use pokeapi_sdk::urls::pokemon_endpoint_by_id;
use pokeapi_sdk::urls::pokemon_endpoint_by_name;
use pokeapi_sdk::urls::DEFAULT_BASE_URL;

#[test]
fn pokemon_endpoint_from_id() {
    assert_eq!(pokemon_endpoint_by_id(25), "pokemon/25");
    assert_eq!(pokemon_endpoint_by_id(0), "pokemon/0");
    assert_eq!(pokemon_endpoint_by_id(u32::MAX), "pokemon/4294967295");
}

#[test]
fn pokemon_endpoint_from_name() {
    assert_eq!(pokemon_endpoint_by_name("pikachu"), "pokemon/pikachu");
    assert_eq!(pokemon_endpoint_by_name(""), "pokemon/");
}

#[test]
fn generation_endpoint_from_id() {
    assert_eq!(generation_endpoint_by_id(1), "generation/1");
    assert_eq!(generation_endpoint_by_id(1000), "generation/1000");
}

#[test]
fn generation_endpoint_from_name() {
    assert_eq!(generation_endpoint_by_name("generation-i"), "generation/generation-i");
}

#[test]
fn resource_url_concatenates_base_and_endpoint() {
    assert_eq!(
        build_resource_url(DEFAULT_BASE_URL, "pokemon/25"),
        "https://pokeapi.co/api/v2/pokemon/25"
    );
    assert_eq!(build_resource_url("http://localhost:9000/", "generation/1"),
        "http://localhost:9000/generation/1");
}

#[test]
fn list_url_without_parameters_has_no_query() {
    assert_eq!(
        build_list_url(DEFAULT_BASE_URL, "pokemon", None, None),
        "https://pokeapi.co/api/v2/pokemon"
    );
}

#[test]
fn list_url_with_limit_only() {
    assert_eq!(
        build_list_url(DEFAULT_BASE_URL, "pokemon", Some(10), None),
        "https://pokeapi.co/api/v2/pokemon?limit=10"
    );
}

#[test]
fn list_url_with_offset_only() {
    assert_eq!(
        build_list_url(DEFAULT_BASE_URL, "generation", None, Some(20)),
        "https://pokeapi.co/api/v2/generation?offset=20"
    );
}

#[test]
fn list_url_with_limit_and_offset() {
    assert_eq!(
        build_list_url("b/", "pokemon", Some(100), Some(200)),
        "b/pokemon?limit=100&offset=200"
    );
}
