//! Ranked leagues: the queue a ranking is for, and the tier, division and league
//! points reached in it.
use vstd::prelude::*;
use crate::formatting::{division_text, tier_text};

verus! {

/// What a ranking is for.
#[derive(Debug, Clone, PartialEq, Eq)]
pub enum Kind {
    SummonersRift(SummonersRift),
    TeamfightTactics(TeamfightTactics),
    Arena,
    Unknown(String),
}

#[derive(Debug, Clone, Copy, PartialEq, Eq, Structural)]
pub enum SummonersRift {
    Solo,
    Flex,
    TwistedTreeline,
}

#[derive(Debug, Clone, Copy, PartialEq, Eq, Structural)]
pub enum TeamfightTactics {
    Ranked,
    Turbo,
    DoubleUp,
}

/// The ranked queue types of the league API; `Unknown` holds a name the API's
/// client does not know.
#[derive(Debug, Clone)]
pub enum ApiQueueType {
    Unknown(String),
    RankedSolo5x5,
    RankedFlexSr,
    RankedFlexTt,
    RankedTft,
    RankedTftTurbo,
    RankedTftPairs,
    RankedTftDoubleUp,
    Cherry,
}

/// The kind of ranking of a queue type. Cherry is the Arena mode; the former pairs
/// queue of Teamfight Tactics counts as Double Up.
pub open spec fn kind_of(queue: ApiQueueType) -> Kind {
    match queue {
        ApiQueueType::Unknown(name) => Kind::Unknown(name),
        ApiQueueType::RankedSolo5x5 => Kind::SummonersRift(SummonersRift::Solo),
        ApiQueueType::RankedFlexSr => Kind::SummonersRift(SummonersRift::Flex),
        ApiQueueType::RankedFlexTt => Kind::SummonersRift(SummonersRift::TwistedTreeline),
        ApiQueueType::RankedTft => Kind::TeamfightTactics(TeamfightTactics::Ranked),
        ApiQueueType::RankedTftTurbo => Kind::TeamfightTactics(TeamfightTactics::Turbo),
        ApiQueueType::RankedTftPairs => Kind::TeamfightTactics(TeamfightTactics::DoubleUp),
        ApiQueueType::RankedTftDoubleUp => Kind::TeamfightTactics(TeamfightTactics::DoubleUp),
        ApiQueueType::Cherry => Kind::Arena,
    }
}

impl Kind {
    pub fn from_queue_type(queue: ApiQueueType) -> (k: Kind)
        ensures
            k == kind_of(queue),
    {
        match queue {
            ApiQueueType::Unknown(name) => Kind::Unknown(name),
            ApiQueueType::RankedSolo5x5 => Kind::SummonersRift(SummonersRift::Solo),
            ApiQueueType::RankedFlexSr => Kind::SummonersRift(SummonersRift::Flex),
            ApiQueueType::RankedFlexTt => Kind::SummonersRift(SummonersRift::TwistedTreeline),
            ApiQueueType::RankedTft => Kind::TeamfightTactics(TeamfightTactics::Ranked),
            ApiQueueType::RankedTftTurbo => Kind::TeamfightTactics(TeamfightTactics::Turbo),
            ApiQueueType::RankedTftPairs => Kind::TeamfightTactics(TeamfightTactics::DoubleUp),
            ApiQueueType::RankedTftDoubleUp => Kind::TeamfightTactics(TeamfightTactics::DoubleUp),
            ApiQueueType::Cherry => Kind::Arena,
        }
    }
}

/// A division of a tier below Master, with the league points reached in it.
#[derive(Debug, Clone, Copy)]
pub enum Division {
    One(u8),
    Two(u8),
    Three(u8),
    Four(u8),
}

/// A ranked tier: below Master with its division, from Master up with the league
/// points.
#[derive(Debug, Clone, Copy)]
pub enum Tier {
    Iron(Division),
    Bronze(Division),
    Silver(Division),
    Gold(Division),
    Platinum(Division),
    Emerald(Division),
    Diamond(Division),
    Master(u16),
    Grandmaster(u16),
    Challenger(u16),
}

/// The division of a tier, `None` from Master up.
pub open spec fn tier_division(tier: Tier) -> Option<Division> {
    match tier {
        Tier::Iron(d) | Tier::Bronze(d) | Tier::Silver(d) | Tier::Gold(d) | Tier::Platinum(d)
        | Tier::Emerald(d) | Tier::Diamond(d) => Some(d),
        Tier::Master(_) | Tier::Grandmaster(_) | Tier::Challenger(_) => None,
    }
}

/// The league points of a division.
pub open spec fn division_points(division: Division) -> u8 {
    match division {
        Division::One(p) | Division::Two(p) | Division::Three(p) | Division::Four(p) => p,
    }
}

/// The league points of a tier.
pub open spec fn tier_points(tier: Tier) -> u16 {
    match tier {
        Tier::Master(p) | Tier::Grandmaster(p) | Tier::Challenger(p) => p,
        Tier::Iron(d) | Tier::Bronze(d) | Tier::Silver(d) | Tier::Gold(d) | Tier::Platinum(d)
        | Tier::Emerald(d) | Tier::Diamond(d) => division_points(d) as u16,
    }
}

impl Tier {
    pub fn division(&self) -> (d: Option<Division>)
        ensures
            d == tier_division(*self),
    {
        match self {
            Tier::Challenger(_) | Tier::Grandmaster(_) | Tier::Master(_) => None,
            Tier::Iron(division) | Tier::Bronze(division) | Tier::Silver(division)
            | Tier::Gold(division) | Tier::Platinum(division) | Tier::Emerald(division)
            | Tier::Diamond(division) => Some(*division),
        }
    }

    pub fn points(&self) -> (p: u16)
        ensures
            p == tier_points(*self),
    {
        match self {
            Tier::Challenger(points) | Tier::Grandmaster(points) | Tier::Master(points) => *points,
            Tier::Iron(division) | Tier::Bronze(division) | Tier::Silver(division)
            | Tier::Gold(division) | Tier::Platinum(division) | Tier::Emerald(division)
            | Tier::Diamond(division) => match division {
                Division::One(points) | Division::Two(points) | Division::Three(points)
                | Division::Four(points) => *points as u16,
            },
        }
    }
}

/// The tiers of the league API.
#[derive(Debug, Clone, Copy, PartialEq, Eq, Structural)]
pub enum ApiTier {
    Unranked,
    Iron,
    Bronze,
    Silver,
    Gold,
    Platinum,
    Emerald,
    Diamond,
    Master,
    Grandmaster,
    Challenger,
}

/// The divisions of the league API; `V` is no longer used.
#[derive(Debug, Clone, Copy, PartialEq, Eq, Structural)]
pub enum ApiDivision {
    I,
    II,
    III,
    IV,
    V,
}

/// A ranking entry of the league API: the fields that the viewer reads.
#[derive(Debug, Clone)]
pub struct LeagueEntry {
    pub queue_type: ApiQueueType,
    pub tier: Option<ApiTier>,
    pub rank: Option<ApiDivision>,
    pub league_points: i32,
    pub wins: i32,
    pub losses: i32,
}

/// A tier below Master, whose entries need a division.
pub open spec fn has_divisions(tier: ApiTier) -> bool {
    match tier {
        ApiTier::Iron | ApiTier::Bronze | ApiTier::Silver | ApiTier::Gold | ApiTier::Platinum
        | ApiTier::Emerald | ApiTier::Diamond => true,
        _ => false,
    }
}

/// An entry that the conversion reads: a tier below Master comes with a division
/// from I to IV.
pub open spec fn entry_readable(entry: LeagueEntry) -> bool {
    entry.tier matches Some(t) && has_divisions(t) ==> (entry.rank matches Some(r) && r != ApiDivision::V)
}

/// The division of an entry's rank, holding `points` league points.
pub open spec fn division_of(rank: ApiDivision, points: u8) -> Division {
    match rank {
        ApiDivision::I => Division::One(points),
        ApiDivision::II => Division::Two(points),
        ApiDivision::III => Division::Three(points),
        _ => Division::Four(points),
    }
}

/// The tier of a readable entry; `None` for an unranked entry or one without a tier.
/// League points are kept as the low 16 bits of the API's value, and as its low 8
/// bits inside a division.
pub open spec fn tier_of_entry(entry: LeagueEntry) -> Option<Tier> {
    let points = entry.league_points as u16;
    match entry.tier {
        None => None,
        Some(t) => {
            let d = division_of(entry.rank.unwrap(), points as u8);
            match t {
                ApiTier::Unranked => None,
                ApiTier::Iron => Some(Tier::Iron(d)),
                ApiTier::Bronze => Some(Tier::Bronze(d)),
                ApiTier::Silver => Some(Tier::Silver(d)),
                ApiTier::Gold => Some(Tier::Gold(d)),
                ApiTier::Platinum => Some(Tier::Platinum(d)),
                ApiTier::Emerald => Some(Tier::Emerald(d)),
                ApiTier::Diamond => Some(Tier::Diamond(d)),
                ApiTier::Master => Some(Tier::Master(points)),
                ApiTier::Grandmaster => Some(Tier::Grandmaster(points)),
                ApiTier::Challenger => Some(Tier::Challenger(points)),
            }
        },
    }
}

/// The name of a tier of the league API.
pub open spec fn api_tier_name(tier: ApiTier) -> Seq<char> {
    match tier {
        ApiTier::Unranked => "Unranked"@,
        ApiTier::Iron => "Iron"@,
        ApiTier::Bronze => "Bronze"@,
        ApiTier::Silver => "Silver"@,
        ApiTier::Gold => "Gold"@,
        ApiTier::Platinum => "Platinum"@,
        ApiTier::Emerald => "Emerald"@,
        ApiTier::Diamond => "Diamond"@,
        ApiTier::Master => "Master"@,
        ApiTier::Grandmaster => "Grandmaster"@,
        ApiTier::Challenger => "Challenger"@,
    }
}

/// The number of a division of the league API: I is 1, II is 2, III is 3, IV is 4.
pub open spec fn api_rank_number(rank: ApiDivision) -> Seq<char> {
    match rank {
        ApiDivision::I => "1"@,
        ApiDivision::II => "2"@,
        ApiDivision::III => "3"@,
        ApiDivision::IV => "4"@,
        ApiDivision::V => "5"@,
    }
}

/// What reading an entry keeps of it: the tier has the API tier's name; below Master
/// its division has the API rank's number and the low 8 bits of the league points,
/// from Master up the tier holds the low 16 bits of the league points.
pub open spec fn tier_reads_entry(entry: LeagueEntry, t: Tier) -> bool {
    &&& entry.tier matches Some(a) && tier_text(t) == api_tier_name(a)
    &&& match tier_division(t) {
        Some(d) => {
            &&& entry.rank matches Some(rank) && division_text(d) == api_rank_number(rank)
            &&& division_points(d) == (entry.league_points as u16) as u8
        },
        None => tier_points(t) == entry.league_points as u16,
    }
}

/// Reading a readable entry gives a tier exactly when the entry has a ranked tier,
/// and that tier carries the entry's tier name, rank number and league points.
pub proof fn lemma_tier_of_entry_reads(entry: LeagueEntry)
    requires
        entry_readable(entry),
    ensures
        tier_of_entry(entry) is Some <==> (entry.tier matches Some(a) && a != ApiTier::Unranked),
        tier_of_entry(entry) matches Some(t) ==> tier_reads_entry(entry, t),
{
    reveal_strlit("Iron");
    reveal_strlit("Bronze");
    reveal_strlit("Silver");
    reveal_strlit("Gold");
    reveal_strlit("Platinum");
    reveal_strlit("Emerald");
    reveal_strlit("Diamond");
    reveal_strlit("Master");
    reveal_strlit("Grandmaster");
    reveal_strlit("Challenger");
    reveal_strlit("1");
    reveal_strlit("2");
    reveal_strlit("3");
    reveal_strlit("4");
}

impl Tier {
    /// The tier of a ranking entry; unranked entries and entries without a tier are
    /// refused.
    pub fn try_from_entry(entry: &LeagueEntry) -> (r: Result<Tier, ()>)
        requires
            entry_readable(*entry),
        ensures
            r is Ok <==> tier_of_entry(*entry) is Some,
            r matches Ok(t) ==> tier_of_entry(*entry) == Some(t),
            r is Ok <==> (entry.tier matches Some(a) && a != ApiTier::Unranked),
            r matches Ok(t) ==> tier_reads_entry(*entry, t),
    {
        proof {
            lemma_tier_of_entry_reads(*entry);
        }
        let points = entry.league_points as u16;
        let small = points as u8;
        match entry.tier {
            None => Err(()),
            Some(ApiTier::Unranked) => Err(()),
            Some(ApiTier::Master) => Ok(Tier::Master(points)),
            Some(ApiTier::Grandmaster) => Ok(Tier::Grandmaster(points)),
            Some(ApiTier::Challenger) => Ok(Tier::Challenger(points)),
            Some(t) => {
                let d = match entry.rank {
                    Some(ApiDivision::I) => Division::One(small),
                    Some(ApiDivision::II) => Division::Two(small),
                    Some(ApiDivision::III) => Division::Three(small),
                    _ => Division::Four(small),
                };
                match t {
                    ApiTier::Iron => Ok(Tier::Iron(d)),
                    ApiTier::Bronze => Ok(Tier::Bronze(d)),
                    ApiTier::Silver => Ok(Tier::Silver(d)),
                    ApiTier::Gold => Ok(Tier::Gold(d)),
                    ApiTier::Platinum => Ok(Tier::Platinum(d)),
                    ApiTier::Emerald => Ok(Tier::Emerald(d)),
                    _ => Ok(Tier::Diamond(d)),
                }
            },
        }
    }
}

/// A ranking: its kind, the tier reached (if ranked), and the wins and losses.
#[derive(Debug, Clone)]
pub struct League {
    pub kind: Kind,
    pub tier: Option<Tier>,
    pub wins: u32,
    pub losses: u32,
}

impl League {
    pub fn division(&self) -> (d: Option<Division>)
        ensures
            d == (match self.tier {
                Some(t) => tier_division(t),
                None => None,
            }),
    {
        match &self.tier {
            Some(t) => t.division(),
            None => None,
        }
    }

    /// The league points reached, 0 when unranked.
    pub fn points(&self) -> (p: u16)
        ensures
            p == (match self.tier {
                Some(t) => tier_points(t),
                None => 0,
            }),
    {
        match &self.tier {
            Some(t) => t.points(),
            None => 0,
        }
    }

    /// The ranking of a readable entry of the league API.
    pub fn from_entry(entry: LeagueEntry) -> (l: League)
        requires
            entry_readable(entry),
        ensures
            l.kind == kind_of(entry.queue_type),
            l.tier == tier_of_entry(entry),
            l.tier is Some <==> (entry.tier matches Some(a) && a != ApiTier::Unranked),
            l.tier matches Some(t) ==> tier_reads_entry(entry, t),
            l.wins == entry.wins as u32,
            l.losses == entry.losses as u32,
    {
        let wins = entry.wins as u32;
        let losses = entry.losses as u32;
        let tier = match Tier::try_from_entry(&entry) {
            Ok(t) => Some(t),
            Err(_) => None,
        };
        let kind = Kind::from_queue_type(entry.queue_type);
        League { kind, tier, wins, losses }
    }
}

/// Only tiers below Master have a division; their league points are the division's.
pub proof fn lemma_tier_division_points(tier: Tier)
    ensures
        tier_division(tier) is None <==> (tier matches Tier::Master(_) || tier matches Tier::Grandmaster(_)
            || tier matches Tier::Challenger(_)),
        tier_division(tier) matches Some(d) ==> tier_points(tier) == division_points(d) as u16,
        tier_points(tier) <= u16::MAX,
        tier_division(tier) is Some ==> tier_points(tier) <= u8::MAX,
{
}

} // verus!
