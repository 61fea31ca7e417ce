//! Verified core of a League of Legends match-history viewer: the data model of
//! accounts, games, players, ranked leagues and assets, and the rules that turn
//! them into the text that the viewer shows.

pub mod account;
pub mod assets;
pub mod component;
pub mod formatting;
pub mod frame;
pub mod game;
pub mod profile;
pub mod request;
pub mod search_bar;
pub mod riot;
pub mod summary;
pub mod summoner;
pub mod text;

use vstd::prelude::*;
use crate::riot::{
    is_platform_code, platform_codes, platform_name, platform_of_name, riven_platform_from_name,
    riven_platform_name, riven_platforms,
};

verus! {

/// The message of a failed request to the Riot API.
#[derive(Debug, Clone)]
pub struct InternalApiError(pub String);

/// Why a request to the Riot API gave no data.
#[derive(Debug, Clone)]
pub enum RequestError {
    NotFound,
    RequestFailed(InternalApiError),
}

impl RequestError {
    /// A failed request with the given message.
    pub fn internal(error: String) -> (r: RequestError)
        ensures
            r == RequestError::RequestFailed(InternalApiError(error)),
    {
        RequestError::RequestFailed(InternalApiError(error))
    }
}

/// A champion, by its numeric id.
#[derive(Debug, Clone, Copy, PartialEq, Eq, Hash, Structural)]
pub struct Champion(pub u32);

/// The identifier of a champion as the asset files name it: `Fiddlesticks` for id 9,
/// otherwise the identifier that `riven` gives the id's low 16 bits read as an `i16`
/// (so 65802 reads as 266, and 40000 as a negative id).
pub open spec fn champion_identifier_spec(id: u32) -> Option<Seq<char>> {
    if id == 9 {
        Some("Fiddlesticks"@)
    } else {
        crate::riot::champion_identifier((id as i16) as i32)
    }
}

/// The champion of a parsed champion name: the parsed id's bits read as a `u32`, or
/// id 0 where the name named no champion.
pub open spec fn champion_of_parsed(id: Option<i32>) -> Champion {
    match id {
        Some(i) => Champion(i as u32),
        None => Champion(0),
    }
}

impl Champion {
    pub fn new(id: u32) -> (c: Champion)
        ensures
            c.0 == id,
    {
        Champion(id)
    }

    /// The champion whose API id is `id` (the id's bits read as a `u32`).
    pub fn from_api(id: i32) -> (c: Champion)
        ensures
            c.0 == id as u32,
    {
        Champion(id as u32)
    }

    /// The champion of the result of parsing a champion name.
    pub fn from_parsed(id: Option<i32>) -> (c: Champion)
        ensures
            c == champion_of_parsed(id),
    {
        match id {
            Some(i) => Champion::from_api(i),
            None => Champion(0),
        }
    }

    /// The champion that a champion name (as the match API gives it) names; id 0
    /// where `riven` reads it as none.
    pub fn from_name(name: &str) -> (c: Champion)
        ensures
            c == champion_of_parsed(crate::riot::champion_of_name(name@)),
    {
        Champion::from_parsed(crate::riot::riven_champion_from_name(name))
    }

    pub fn identifier(&self) -> (r: Option<&'static str>)
        ensures
            match r {
                Some(s) => champion_identifier_spec(self.0) == Some(s@),
                None => champion_identifier_spec(self.0) is None,
            },
    {
        if self.0 == 9 {
            Some("Fiddlesticks")
        } else {
            let short = self.0 as i16;
            crate::riot::riven_champion_identifier(short as i32)
        }
    }
}

/// A side of a game, by the id that the API gives it.
#[derive(Debug, Clone, Copy, PartialEq, Eq, Hash, Structural)]
pub struct Team(pub usize);

impl Team {
    /// The blue side, id 100.
    pub fn blue() -> (t: Team)
        ensures
            t == Team(100),
    {
        Team(100)
    }

    /// The red side, id 200.
    pub fn red() -> (t: Team)
        ensures
            t == Team(200),
    {
        Team(200)
    }
}

/// The regional routes of the Riot API, as the library receives them.
#[derive(Debug, Clone, Copy, PartialEq, Eq, Structural)]
pub enum RegionalRoute {
    Americas,
    Asia,
    Europe,
    Sea,
    Apac,
    Esports,
    EsportsEu,
}

/// The routes that the viewer distinguishes.
#[derive(Debug, Clone, Copy, PartialEq, Eq, Structural)]
pub enum Route {
    America,
    Asia,
    Europe,
    SouthAsia,
    Tournament,
}

/// The route of a regional route; the European esports route has none.
pub open spec fn route_of(route: RegionalRoute) -> Route
    recommends
        route != RegionalRoute::EsportsEu,
{
    match route {
        RegionalRoute::Americas => Route::America,
        RegionalRoute::Asia => Route::Asia,
        RegionalRoute::Europe => Route::Europe,
        RegionalRoute::Sea => Route::SouthAsia,
        RegionalRoute::Apac => Route::SouthAsia,
        RegionalRoute::Esports => Route::Tournament,
        RegionalRoute::EsportsEu => Route::Tournament,
    }
}

impl Route {
    pub fn from_regional(route: RegionalRoute) -> (r: Route)
        requires
            route != RegionalRoute::EsportsEu,
        ensures
            r == route_of(route),
    {
        match route {
            RegionalRoute::Americas => Route::America,
            RegionalRoute::Asia => Route::Asia,
            RegionalRoute::Europe => Route::Europe,
            RegionalRoute::Sea => Route::SouthAsia,
            RegionalRoute::Apac => Route::SouthAsia,
            RegionalRoute::Esports => Route::Tournament,
            RegionalRoute::EsportsEu => Route::Tournament,
        }
    }
}


/// A platform of the Riot API (a server region), by its route number.
#[derive(Debug, Clone, Copy, PartialEq, Eq, Structural)]
pub struct Region {
    code: u8,
}

impl View for Region {
    type V = u8;

    closed spec fn view(&self) -> u8 {
        self.code
    }
}

impl Region {
    #[verifier::type_invariant]
    spec fn known(self) -> bool {
        is_platform_code(self.code)
    }

    /// The region with route number `code`, where it is one.
    pub fn from_code(code: u8) -> (r: Option<Region>)
        ensures
            r is Some <==> is_platform_code(code),
            r matches Some(region) ==> region@ == code,
    {
        if (16 <= code && code <= 26) || (31 <= code && code <= 37) {
            Some(Region { code })
        } else {
            None
        }
    }

    /// The route number.
    pub fn code(&self) -> (c: u8)
        ensures
            c == self@,
            is_platform_code(c),
    {
        proof {
            use_type_invariant(self);
        }
        self.code
    }

    /// The region that `name` names (such as `BR1` or `BR`).
    pub fn from_name(name: &str) -> (r: Region)
        requires
            platform_of_name(name@) is Some,
        ensures
            platform_of_name(name@) == Some(r@),
    {
        match riven_platform_from_name(name) {
            Some(code) => Region { code },
            None => Region { code: 16 },
        }
    }

    /// The region that `name` names, `None` where it names none.
    pub fn try_from_name(name: &str) -> (r: Option<Region>)
        ensures
            match r {
                Some(region) => platform_of_name(name@) == Some(region@),
                None => platform_of_name(name@) is None,
            },
    {
        match riven_platform_from_name(name) {
            Some(_) => Some(Region::from_name(name)),
            None => None,
        }
    }

    /// The region's name; it names this region again.
    pub fn to_string(&self) -> (s: String)
        ensures
            s@ == platform_name(self@),
            platform_of_name(s@) == Some(self@),
    {
        proof {
            use_type_invariant(self);
        }
        proof {
            crate::riot::lemma_platform_name_round_trip(self.code);
        }
        riven_platform_name(self.code)
    }

    /// Every region, in the order in which `riven` declares them.
    pub fn iter() -> (all: Vec<Region>)
        ensures
            all@.len() == platform_codes().len(),
            forall|i: int| 0 <= i < all@.len() ==> (#[trigger] all@[i])@ == platform_codes()[i],
    {
        let codes = riven_platforms();
        let mut all: Vec<Region> = Vec::new();
        let mut i: usize = 0;
        while i < codes.len()
            invariant
                codes@ == platform_codes(),
                i <= codes@.len(),
                all@.len() == i,
                forall|j: int| 0 <= j < i ==> (#[trigger] all@[j])@ == codes@[j],
            decreases codes@.len() - i,
        {
            let code = codes[i];
            assert(is_platform_code(code));
            all.push(Region { code });
            i = i + 1;
        }
        all
    }
}

impl Default for Region {
    /// Brazil, `BR1`.
    fn default() -> (r: Region)
        ensures
            r@ == 16,
    {
        Region { code: 16 }
    }
}

} // verus!
