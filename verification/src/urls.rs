//! Request-URL construction.
//!
//! Every URL the client requests is `base_url + endpoint`, optionally
//! followed by `limit` / `offset` query parameters.  The builders here state
//! the exact character sequence they produce, so the contracts of the fetch
//! and pagination layers can speak about the URLs that would be requested.

use vstd::prelude::*;

verus! {

/// The well-known base URL the default client targets.
pub const DEFAULT_BASE_URL: &'static str = "https://pokeapi.co/api/v2/";

/// The decimal digit character for `d` (meaningful for `d < 10`).
pub open spec fn digit_char(d: nat) -> char {
    if d == 0 {
        '0'
    } else if d == 1 {
        '1'
    } else if d == 2 {
        '2'
    } else if d == 3 {
        '3'
    } else if d == 4 {
        '4'
    } else if d == 5 {
        '5'
    } else if d == 6 {
        '6'
    } else if d == 7 {
        '7'
    } else if d == 8 {
        '8'
    } else {
        '9'
    }
}

/// The usual base-ten rendering of `n`, most significant digit first,
/// without a sign and without leading zeros (except for `n == 0` itself).
pub open spec fn decimal_digits(n: nat) -> Seq<char>
    decreases n,
{
    if n < 10 {
        seq![digit_char(n)]
    } else {
        decimal_digits(n / 10) + seq![digit_char(n % 10)]
    }
}

/// One decimal digit as a borrowed string.
fn digit_str(d: u32) -> (r: &'static str)
    requires
        d < 10,
    ensures
        r@ == seq![digit_char(d as nat)],
{
    proof {
        reveal_strlit("0");
        reveal_strlit("1");
        reveal_strlit("2");
        reveal_strlit("3");
        reveal_strlit("4");
        reveal_strlit("5");
        reveal_strlit("6");
        reveal_strlit("7");
        reveal_strlit("8");
        reveal_strlit("9");
    }
    match d {
        0 => "0",
        1 => "1",
        2 => "2",
        3 => "3",
        4 => "4",
        5 => "5",
        6 => "6",
        7 => "7",
        8 => "8",
        _ => "9",
    }
}

/// Appends the decimal rendering of `n` to `out`.
pub fn push_decimal(out: &mut String, n: u32)
    ensures
        final(out)@ == old(out)@ + decimal_digits(n as nat),
    decreases n,
{
    if n >= 10 {
        push_decimal(out, n / 10);
        let d = digit_str(n % 10);
        out.append(d);
        proof {
            assert(out@ =~= old(out)@ + decimal_digits(n as nat));
        }
    } else {
        let d = digit_str(n);
        out.append(d);
        proof {
            assert(out@ =~= old(out)@ + decimal_digits(n as nat));
        }
    }
}

/// The endpoint path for one Pokémon looked up by numeric ID.
pub open spec fn pokemon_endpoint_for_id(id: u32) -> Seq<char> {
    "pokemon/"@ + decimal_digits(id as nat)
}

/// Builds the endpoint path `pokemon/<id>`.
pub fn pokemon_endpoint_by_id(id: u32) -> (r: String)
    ensures
        r@ == pokemon_endpoint_for_id(id),
{
    let mut s = String::new();
    s.append("pokemon/");
    push_decimal(&mut s, id);
    proof {
        assert(s@ =~= pokemon_endpoint_for_id(id));
    }
    s
}

/// The endpoint path for one Pokémon looked up by name.
pub open spec fn pokemon_endpoint_for_name(name: Seq<char>) -> Seq<char> {
    "pokemon/"@ + name
}

/// Builds the endpoint path `pokemon/<name>`.
pub fn pokemon_endpoint_by_name(name: &str) -> (r: String)
    ensures
        r@ == pokemon_endpoint_for_name(name@),
{
    let mut s = String::new();
    s.append("pokemon/");
    s.append(name);
    proof {
        assert(s@ =~= pokemon_endpoint_for_name(name@));
    }
    s
}

/// The endpoint path for one generation looked up by numeric ID.
pub open spec fn generation_endpoint_for_id(id: u32) -> Seq<char> {
    "generation/"@ + decimal_digits(id as nat)
}

/// Builds the endpoint path `generation/<id>`.
pub fn generation_endpoint_by_id(id: u32) -> (r: String)
    ensures
        r@ == generation_endpoint_for_id(id),
{
    let mut s = String::new();
    s.append("generation/");
    push_decimal(&mut s, id);
    proof {
        assert(s@ =~= generation_endpoint_for_id(id));
    }
    s
}

/// The endpoint path for one generation looked up by name.
pub open spec fn generation_endpoint_for_name(name: Seq<char>) -> Seq<char> {
    "generation/"@ + name
}

/// Builds the endpoint path `generation/<name>`.
pub fn generation_endpoint_by_name(name: &str) -> (r: String)
    ensures
        r@ == generation_endpoint_for_name(name@),
{
    let mut s = String::new();
    s.append("generation/");
    s.append(name);
    proof {
        assert(s@ =~= generation_endpoint_for_name(name@));
    }
    s
}

/// The fully-resolved URL for a single-resource fetch.
pub open spec fn resource_url(base: Seq<char>, endpoint: Seq<char>) -> Seq<char> {
    base + endpoint
}

/// Builds the request URL `base + endpoint` for a single-resource fetch.
pub fn build_resource_url(base: &str, endpoint: &str) -> (r: String)
    ensures
        r@ == resource_url(base@, endpoint@),
{
    let mut s = String::new();
    s.append(base);
    s.append(endpoint);
    proof {
        assert(s@ =~= resource_url(base@, endpoint@));
    }
    s
}

/// The query-parameter fragment for a listing request.  A parameter the
/// caller did not supply is omitted entirely, so the wrapped service applies
/// its own default.
pub open spec fn query_fragment(limit: Option<u32>, offset: Option<u32>) -> Seq<char> {
    match (limit, offset) {
        (Option::None, Option::None) => Seq::<char>::empty(),
        (Option::Some(l), Option::None) => "?limit="@ + decimal_digits(l as nat),
        (Option::None, Option::Some(o)) => "?offset="@ + decimal_digits(o as nat),
        (Option::Some(l), Option::Some(o)) => "?limit="@ + decimal_digits(l as nat)
            + "&offset="@ + decimal_digits(o as nat),
    }
}

/// The fully-resolved URL for the first page of a listing.
pub open spec fn list_url(
    base: Seq<char>,
    endpoint: Seq<char>,
    limit: Option<u32>,
    offset: Option<u32>,
) -> Seq<char> {
    base + endpoint + query_fragment(limit, offset)
}

/// Builds the first-page URL for a listing: `base + endpoint`, with
/// `limit=<n>` and/or `offset=<n>` appended only when supplied.
pub fn build_list_url(
    base: &str,
    endpoint: &str,
    limit: Option<u32>,
    offset: Option<u32>,
) -> (r: String)
    ensures
        r@ == list_url(base@, endpoint@, limit, offset),
{
    let mut s = String::new();
    s.append(base);
    s.append(endpoint);
    match (limit, offset) {
        (Option::None, Option::None) => {},
        (Option::Some(l), Option::None) => {
            s.append("?limit=");
            push_decimal(&mut s, l);
        },
        (Option::None, Option::Some(o)) => {
            s.append("?offset=");
            push_decimal(&mut s, o);
        },
        (Option::Some(l), Option::Some(o)) => {
            s.append("?limit=");
            push_decimal(&mut s, l);
            s.append("&offset=");
            push_decimal(&mut s, o);
        },
    }
    proof {
        assert(s@ =~= list_url(base@, endpoint@, limit, offset));
    }
    s
}

} // verus!
