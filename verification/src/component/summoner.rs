//! The tiers of a summoner's past seasons, as the summoner view shows them.
use vstd::prelude::*;
use crate::text::{decimal, u64_to_decimal};

verus! {

/// A past season's tier: below Master with its division, from Master up with the
/// league points.
#[derive(Debug, Clone, Copy)]
pub enum Tier {
    Iron(Division),
    Bronze(Division),
    Silver(Division),
    Gold(Division),
    Platinum(Division),
    Diamond(Division),
    Master(u16),
    Grandmaster(u16),
    Challenger(u16),
}

/// A division with the league points reached in it.
#[derive(Debug, Clone, Copy)]
pub enum Division {
    One(u8),
    Two(u8),
    Three(u8),
    Four(u8),
}

/// The number of a division.
pub open spec fn division_number(d: Division) -> Seq<char> {
    match d {
        Division::One(_) => "1"@,
        Division::Two(_) => "2"@,
        Division::Three(_) => "3"@,
        Division::Four(_) => "4"@,
    }
}

/// The league points of a season's tier.
pub open spec fn season_points(t: Tier) -> u16 {
    match t {
        Tier::Challenger(p) | Tier::Grandmaster(p) | Tier::Master(p) => p,
        Tier::Iron(d) | Tier::Bronze(d) | Tier::Silver(d) | Tier::Gold(d) | Tier::Platinum(d)
        | Tier::Diamond(d) => match d {
            Division::One(p) | Division::Two(p) | Division::Three(p) | Division::Four(p) => p as u16,
        },
    }
}

/// The name of a season's tier.
pub open spec fn season_tier_name(t: Tier) -> Seq<char> {
    match t {
        Tier::Iron(_) => "Iron"@,
        Tier::Bronze(_) => "Bronze"@,
        Tier::Silver(_) => "Silver"@,
        Tier::Gold(_) => "Gold"@,
        Tier::Platinum(_) => "Platinum"@,
        Tier::Diamond(_) => "Diamond"@,
        Tier::Master(_) => "Master"@,
        Tier::Grandmaster(_) => "Grandmaster"@,
        Tier::Challenger(_) => "Challenger"@,
    }
}

impl Division {
    pub fn to_string(&self) -> (s: String)
        ensures
            s@ == division_number(*self),
    {
        let n = match self {
            Division::One(_) => "1",
            Division::Two(_) => "2",
            Division::Three(_) => "3",
            Division::Four(_) => "4",
        };
        String::from_str(n)
    }
}

impl Tier {
    pub fn points(&self) -> (p: u16)
        ensures
            p == season_points(*self),
    {
        match self {
            Tier::Challenger(points) | Tier::Grandmaster(points) | Tier::Master(points) => *points,
            Tier::Iron(division) | Tier::Bronze(division) | Tier::Silver(division)
            | Tier::Gold(division) | Tier::Platinum(division) | Tier::Diamond(division) => match division {
                Division::One(points) | Division::Two(points) | Division::Three(points)
                | Division::Four(points) => *points as u16,
            },
        }
    }

    /// The division's number below Master, the league points from Master up.
    pub fn division(&self) -> (s: String)
        ensures
            s@ == (match *self {
                Tier::Iron(d) | Tier::Bronze(d) | Tier::Silver(d) | Tier::Gold(d)
                | Tier::Platinum(d) | Tier::Diamond(d) => division_number(d),
                Tier::Master(p) | Tier::Grandmaster(p) | Tier::Challenger(p) => decimal(p as nat),
            }),
    {
        match self {
            Tier::Iron(division) | Tier::Bronze(division) | Tier::Silver(division)
            | Tier::Gold(division) | Tier::Platinum(division) | Tier::Diamond(division) => division.to_string(),
            Tier::Master(points) | Tier::Grandmaster(points) | Tier::Challenger(points) => u64_to_decimal(*points as u64),
        }
    }

    pub fn to_string(&self) -> (s: String)
        ensures
            s@ == season_tier_name(*self),
    {
        let name = match self {
            Tier::Iron(_) => "Iron",
            Tier::Bronze(_) => "Bronze",
            Tier::Silver(_) => "Silver",
            Tier::Gold(_) => "Gold",
            Tier::Platinum(_) => "Platinum",
            Tier::Diamond(_) => "Diamond",
            Tier::Master(_) => "Master",
            Tier::Grandmaster(_) => "Grandmaster",
            Tier::Challenger(_) => "Challenger",
        };
        String::from_str(name)
    }
}

} // verus!
