//! What the library takes from the Riot API client crate `riven`: the champion
//! identifier table, champion names, the list of known queue ids and the platform
//! routes' names.
//! All are pure functions of their arguments.
use vstd::prelude::*;
use std::str::FromStr;
use riven::consts::{IntoEnumIterator, PlatformRoute};

verus! {

/// The identifier that `riven` gives the champion with numeric id `id`
/// (`None` for ids it does not know).
pub uninterp spec fn champion_identifier(id: i32) -> Option<Seq<char>>;

/// The id of the champion that `riven` parses `name` as, `None` where it parses as
/// none.
pub uninterp spec fn champion_of_name(name: Seq<char>) -> Option<i32>;

/// Whether `riven` lists `id` among its known matchmaking queue ids.
pub uninterp spec fn queue_is_known(id: u16) -> bool;

/// Calls `riven::consts::Champion(id).identifier()`. Claimed: the result is the
/// identifier that `riven`'s generated table gives `id`, a function of `id` alone.
#[verifier::external_body]
pub(crate) fn riven_champion_identifier(id: i32) -> (r: Option<&'static str>)
    ensures
        r is Some <==> champion_identifier(id) is Some,
        r matches Some(s) ==> champion_identifier(id) == Some(s@),
{
    riven::consts::Champion(id).identifier()
}

/// Calls `riven`'s `FromStr` for `Champion` on `name` and takes the champion's id.
/// Claimed: the result is a function of `name` alone.
#[verifier::external_body]
pub(crate) fn riven_champion_from_name(name: &str) -> (r: Option<i32>)
    ensures
        r == champion_of_name(name@),
{
    match name.parse::<riven::consts::Champion>() {
        Ok(champion) => Some(champion.0),
        Err(_) => None,
    }
}

/// Calls `riven::consts::Queue(id).is_known()`. Claimed: the result is a function of
/// `id` alone, and it is `true` for the queue ids that `riven` declares as named
/// constants and that the library maps to named queues (custom games 0, draft 400,
/// ranked solo 420, blind 430, ranked flex 440, ARAM 450, clash 700, and the
/// co-op vs AI queues 870, 880 and 890).
#[verifier::external_body]
pub(crate) fn riven_queue_is_known(id: u16) -> (known: bool)
    ensures
        known == queue_is_known(id),
        (id == 0 || id == 400 || id == 420 || id == 430 || id == 440 || id == 450 || id == 700
            || id == 870 || id == 880 || id == 890) ==> known,
{
    riven::consts::Queue(id).is_known()
}


/// The name that `riven` displays for the platform route with number `code`, as
/// its source declares it (empty for a number that is no route).
pub open spec fn platform_name(code: u8) -> Seq<char> {
    if code == 16 {
        "BR1"@
    } else if code == 17 {
        "EUN1"@
    } else if code == 18 {
        "EUW1"@
    } else if code == 19 {
        "JP1"@
    } else if code == 20 {
        "KR"@
    } else if code == 21 {
        "LA1"@
    } else if code == 22 {
        "LA2"@
    } else if code == 37 {
        "ME1"@
    } else if code == 23 {
        "NA1"@
    } else if code == 24 {
        "OC1"@
    } else if code == 32 {
        "PH2"@
    } else if code == 25 {
        "RU"@
    } else if code == 33 {
        "SG2"@
    } else if code == 34 {
        "TH2"@
    } else if code == 26 {
        "TR1"@
    } else if code == 35 {
        "TW2"@
    } else if code == 36 {
        "VN2"@
    } else if code == 31 {
        "PBE1"@
    } else {
        Seq::empty()
    }
}

/// The number of the platform route that `riven`'s `FromStr` parses `name` as: the
/// displayed name or the short alias that its source declares for each route, matched
/// exactly; `None` for any other text.
pub open spec fn platform_of_name(name: Seq<char>) -> Option<u8> {
    if name == "BR1"@ || name == "BR"@ {
        Some(16u8)
    } else if name == "EUN1"@ || name == "EUNE"@ {
        Some(17u8)
    } else if name == "EUW1"@ || name == "EUW"@ {
        Some(18u8)
    } else if name == "JP1"@ || name == "JP"@ {
        Some(19u8)
    } else if name == "KR"@ {
        Some(20u8)
    } else if name == "LA1"@ || name == "LAN"@ {
        Some(21u8)
    } else if name == "LA2"@ || name == "LAS"@ {
        Some(22u8)
    } else if name == "ME1"@ || name == "MENA"@ {
        Some(37u8)
    } else if name == "NA1"@ || name == "NA"@ {
        Some(23u8)
    } else if name == "OC1"@ || name == "OCE"@ {
        Some(24u8)
    } else if name == "PH2"@ || name == "PH"@ {
        Some(32u8)
    } else if name == "RU"@ {
        Some(25u8)
    } else if name == "SG2"@ || name == "SG"@ {
        Some(33u8)
    } else if name == "TH2"@ || name == "TH"@ {
        Some(34u8)
    } else if name == "TR1"@ || name == "TR"@ {
        Some(26u8)
    } else if name == "TW2"@ || name == "TW"@ {
        Some(35u8)
    } else if name == "VN2"@ || name == "VN"@ {
        Some(36u8)
    } else if name == "PBE1"@ || name == "PBE"@ {
        Some(31u8)
    } else {
        None
    }
}

/// The displayed name of every route parses back to that route.
pub proof fn lemma_platform_name_round_trip(code: u8)
    requires
        is_platform_code(code),
    ensures
        platform_of_name(platform_name(code)) == Some(code),
{
    reveal_strlit("BR");
    assert("BR"@.len() == 2 && "BR"@[0] == 'B' && "BR"@[1] == 'R');
    reveal_strlit("BR1");
    assert("BR1"@.len() == 3 && "BR1"@[0] == 'B' && "BR1"@[1] == 'R' && "BR1"@[2] == '1');
    reveal_strlit("EUN1");
    assert("EUN1"@.len() == 4 && "EUN1"@[0] == 'E' && "EUN1"@[1] == 'U' && "EUN1"@[2] == 'N' && "EUN1"@[3] == '1');
    reveal_strlit("EUNE");
    assert("EUNE"@.len() == 4 && "EUNE"@[0] == 'E' && "EUNE"@[1] == 'U' && "EUNE"@[2] == 'N' && "EUNE"@[3] == 'E');
    reveal_strlit("EUW");
    assert("EUW"@.len() == 3 && "EUW"@[0] == 'E' && "EUW"@[1] == 'U' && "EUW"@[2] == 'W');
    reveal_strlit("EUW1");
    assert("EUW1"@.len() == 4 && "EUW1"@[0] == 'E' && "EUW1"@[1] == 'U' && "EUW1"@[2] == 'W' && "EUW1"@[3] == '1');
    reveal_strlit("JP");
    assert("JP"@.len() == 2 && "JP"@[0] == 'J' && "JP"@[1] == 'P');
    reveal_strlit("JP1");
    assert("JP1"@.len() == 3 && "JP1"@[0] == 'J' && "JP1"@[1] == 'P' && "JP1"@[2] == '1');
    reveal_strlit("KR");
    assert("KR"@.len() == 2 && "KR"@[0] == 'K' && "KR"@[1] == 'R');
    reveal_strlit("LA1");
    assert("LA1"@.len() == 3 && "LA1"@[0] == 'L' && "LA1"@[1] == 'A' && "LA1"@[2] == '1');
    reveal_strlit("LA2");
    assert("LA2"@.len() == 3 && "LA2"@[0] == 'L' && "LA2"@[1] == 'A' && "LA2"@[2] == '2');
    reveal_strlit("LAN");
    assert("LAN"@.len() == 3 && "LAN"@[0] == 'L' && "LAN"@[1] == 'A' && "LAN"@[2] == 'N');
    reveal_strlit("LAS");
    assert("LAS"@.len() == 3 && "LAS"@[0] == 'L' && "LAS"@[1] == 'A' && "LAS"@[2] == 'S');
    reveal_strlit("ME1");
    assert("ME1"@.len() == 3 && "ME1"@[0] == 'M' && "ME1"@[1] == 'E' && "ME1"@[2] == '1');
    reveal_strlit("MENA");
    assert("MENA"@.len() == 4 && "MENA"@[0] == 'M' && "MENA"@[1] == 'E' && "MENA"@[2] == 'N' && "MENA"@[3] == 'A');
    reveal_strlit("NA");
    assert("NA"@.len() == 2 && "NA"@[0] == 'N' && "NA"@[1] == 'A');
    reveal_strlit("NA1");
    assert("NA1"@.len() == 3 && "NA1"@[0] == 'N' && "NA1"@[1] == 'A' && "NA1"@[2] == '1');
    reveal_strlit("OC1");
    assert("OC1"@.len() == 3 && "OC1"@[0] == 'O' && "OC1"@[1] == 'C' && "OC1"@[2] == '1');
    reveal_strlit("OCE");
    assert("OCE"@.len() == 3 && "OCE"@[0] == 'O' && "OCE"@[1] == 'C' && "OCE"@[2] == 'E');
    reveal_strlit("PBE");
    assert("PBE"@.len() == 3 && "PBE"@[0] == 'P' && "PBE"@[1] == 'B' && "PBE"@[2] == 'E');
    reveal_strlit("PBE1");
    assert("PBE1"@.len() == 4 && "PBE1"@[0] == 'P' && "PBE1"@[1] == 'B' && "PBE1"@[2] == 'E' && "PBE1"@[3] == '1');
    reveal_strlit("PH");
    assert("PH"@.len() == 2 && "PH"@[0] == 'P' && "PH"@[1] == 'H');
    reveal_strlit("PH2");
    assert("PH2"@.len() == 3 && "PH2"@[0] == 'P' && "PH2"@[1] == 'H' && "PH2"@[2] == '2');
    reveal_strlit("RU");
    assert("RU"@.len() == 2 && "RU"@[0] == 'R' && "RU"@[1] == 'U');
    reveal_strlit("SG");
    assert("SG"@.len() == 2 && "SG"@[0] == 'S' && "SG"@[1] == 'G');
    reveal_strlit("SG2");
    assert("SG2"@.len() == 3 && "SG2"@[0] == 'S' && "SG2"@[1] == 'G' && "SG2"@[2] == '2');
    reveal_strlit("TH");
    assert("TH"@.len() == 2 && "TH"@[0] == 'T' && "TH"@[1] == 'H');
    reveal_strlit("TH2");
    assert("TH2"@.len() == 3 && "TH2"@[0] == 'T' && "TH2"@[1] == 'H' && "TH2"@[2] == '2');
    reveal_strlit("TR");
    assert("TR"@.len() == 2 && "TR"@[0] == 'T' && "TR"@[1] == 'R');
    reveal_strlit("TR1");
    assert("TR1"@.len() == 3 && "TR1"@[0] == 'T' && "TR1"@[1] == 'R' && "TR1"@[2] == '1');
    reveal_strlit("TW");
    assert("TW"@.len() == 2 && "TW"@[0] == 'T' && "TW"@[1] == 'W');
    reveal_strlit("TW2");
    assert("TW2"@.len() == 3 && "TW2"@[0] == 'T' && "TW2"@[1] == 'W' && "TW2"@[2] == '2');
    reveal_strlit("VN");
    assert("VN"@.len() == 2 && "VN"@[0] == 'V' && "VN"@[1] == 'N');
    reveal_strlit("VN2");
    assert("VN2"@.len() == 3 && "VN2"@[0] == 'V' && "VN2"@[1] == 'N' && "VN2"@[2] == '2');
}

/// The route numbers of `riven`'s platform routes: 16 to 26 and 31 to 37.
pub open spec fn is_platform_code(code: u8) -> bool {
    (16 <= code && code <= 26) || (31 <= code && code <= 37)
}

/// The route numbers of `riven`'s platform routes, in the order of their declaration.
pub open spec fn platform_codes() -> Seq<u8> {
    seq![16u8, 17, 18, 19, 20, 21, 22, 37, 23, 24, 32, 25, 33, 34, 26, 35, 36, 31]
}

/// Calls `PlatformRoute::from_str(name)` and takes the route's number. Claimed: the
/// result is the route whose displayed name or alias (the `to_string` and `serialize`
/// values of its `strum` attributes, or its identifier where it has none) equals
/// `name`.
#[verifier::external_body]
pub(crate) fn riven_platform_from_name(name: &str) -> (r: Option<u8>)
    ensures
        r == platform_of_name(name@),
{
    match PlatformRoute::from_str(name) {
        Ok(route) => Some(u8::from(route)),
        Err(_) => None,
    }
}

/// Calls `PlatformRoute::try_from(code)` and displays the route. Claimed: the result
/// is the route's `strum` `to_string` value, or its identifier where it has none.
#[verifier::external_body]
pub(crate) fn riven_platform_name(code: u8) -> (r: String)
    requires
        is_platform_code(code),
    ensures
        r@ == platform_name(code),
{
    match PlatformRoute::try_from(code) {
        Ok(route) => route.to_string(),
        Err(_) => String::new(),
    }
}

/// Calls `PlatformRoute::iter()` and takes each route's number. Claimed: the routes
/// come in the order of their declaration in `riven`'s source.
#[verifier::external_body]
pub(crate) fn riven_platforms() -> (r: Vec<u8>)
    ensures
        r@ == platform_codes(),
{
    PlatformRoute::iter().map(u8::from).collect()
}

} // verus!
