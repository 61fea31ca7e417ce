//! Ranked emblems, one per tier.
use vstd::prelude::*;
use crate::summoner::league::Tier;
use crate::formatting::tier_text;
use crate::text::str_eq;

verus! {

/// The emblem of a tier: 0 for Iron up to 9 for Challenger.
#[derive(Debug, Clone, Copy, PartialEq, Eq, Hash, Structural)]
pub struct Id(pub u8);

/// The emblem number of a tier.
pub open spec fn tier_rank(tier: Tier) -> u8 {
    match tier {
        Tier::Iron(_) => 0,
        Tier::Bronze(_) => 1,
        Tier::Silver(_) => 2,
        Tier::Gold(_) => 3,
        Tier::Platinum(_) => 4,
        Tier::Emerald(_) => 5,
        Tier::Diamond(_) => 6,
        Tier::Master(_) => 7,
        Tier::Grandmaster(_) => 8,
        Tier::Challenger(_) => 9,
    }
}

/// The asset key of an emblem number.
pub open spec fn emblem_key(n: u8) -> Seq<char> {
    if n == 0 {
        "iron"@
    } else if n == 1 {
        "bronze"@
    } else if n == 2 {
        "silver"@
    } else if n == 3 {
        "gold"@
    } else if n == 4 {
        "platinum"@
    } else if n == 5 {
        "emerald"@
    } else if n == 6 {
        "diamond"@
    } else if n == 7 {
        "master"@
    } else if n == 8 {
        "grandmaster"@
    } else {
        "challenger"@
    }
}

/// The emblem number of an asset key; keys that name no tier read as Iron.
pub open spec fn emblem_of_key(key: Seq<char>) -> u8 {
    if key == "iron"@ {
        0
    } else if key == "bronze"@ {
        1
    } else if key == "silver"@ {
        2
    } else if key == "gold"@ {
        3
    } else if key == "platinum"@ {
        4
    } else if key == "emerald"@ {
        5
    } else if key == "diamond"@ {
        6
    } else if key == "master"@ {
        7
    } else if key == "grandmaster"@ {
        8
    } else if key == "challenger"@ {
        9
    } else {
        0
    }
}

impl Id {
    /// The ten emblems, Iron first.
    pub fn all() -> (ids: Vec<Id>)
        ensures
            ids@.len() == 10,
            forall|i: int| 0 <= i < 10 ==> #[trigger] ids@[i] == Id(i as u8),
    {
        let mut ids: Vec<Id> = Vec::new();
        let mut n: u8 = 0;
        while n < 10
            invariant
                n <= 10,
                ids@.len() == n,
                forall|i: int| 0 <= i < n ==> #[trigger] ids@[i] == Id(i as u8),
            decreases 10 - n,
        {
            ids.push(Id(n));
            n = n + 1;
        }
        ids
    }

    pub fn from_tier(tier: &Tier) -> (id: Id)
        ensures
            id.0 == tier_rank(*tier),
            emblem_key(id.0) == ascii_lower(tier_text(*tier)),
    {
        proof {
            lemma_emblem_names_tier(*tier);
        }
        let id = match tier {
            Tier::Iron(_) => 0,
            Tier::Bronze(_) => 1,
            Tier::Silver(_) => 2,
            Tier::Gold(_) => 3,
            Tier::Platinum(_) => 4,
            Tier::Emerald(_) => 5,
            Tier::Diamond(_) => 6,
            Tier::Master(_) => 7,
            Tier::Grandmaster(_) => 8,
            Tier::Challenger(_) => 9,
        };
        Id(id)
    }

    pub fn from_key(key: &str) -> (id: Id)
        ensures
            id.0 == emblem_of_key(key@),
    {
        let id = if str_eq(key, "iron") {
            0
        } else if str_eq(key, "bronze") {
            1
        } else if str_eq(key, "silver") {
            2
        } else if str_eq(key, "gold") {
            3
        } else if str_eq(key, "platinum") {
            4
        } else if str_eq(key, "emerald") {
            5
        } else if str_eq(key, "diamond") {
            6
        } else if str_eq(key, "master") {
            7
        } else if str_eq(key, "grandmaster") {
            8
        } else if str_eq(key, "challenger") {
            9
        } else {
            0
        };
        Id(id)
    }

    pub fn into_key(&self) -> (key: &'static str)
        requires
            self.0 <= 9,
        ensures
            key@ == emblem_key(self.0),
    {
        match self.0 {
            0 => "iron",
            1 => "bronze",
            2 => "silver",
            3 => "gold",
            4 => "platinum",
            5 => "emerald",
            6 => "diamond",
            7 => "master",
            8 => "grandmaster",
            _ => "challenger",
        }
    }
}

/// Reading an emblem's key gives the emblem back.
pub proof fn lemma_emblem_key_round_trip(n: u8)
    requires
        n <= 9,
    ensures
        emblem_of_key(emblem_key(n)) == n,
{
    reveal_strlit("iron");
    reveal_strlit("bronze");
    reveal_strlit("silver");
    reveal_strlit("gold");
    reveal_strlit("platinum");
    reveal_strlit("emerald");
    reveal_strlit("diamond");
    reveal_strlit("master");
    reveal_strlit("grandmaster");
    reveal_strlit("challenger");
    assert("iron"@[0] == 'i' && "bronze"@[0] == 'b' && "silver"@[0] == 's' && "gold"@[0] == 'g');
    assert("platinum"@[0] == 'p' && "emerald"@[0] == 'e' && "diamond"@[0] == 'd');
    assert("master"@[0] == 'm' && "grandmaster"@[1] == 'r' && "gold"@[1] == 'o');
    assert("challenger"@[0] == 'c' && "grandmaster"@.len() == 11 && "gold"@.len() == 4);
}

/// The emblem of a tier is one of the ten, and its key names that tier's emblem.
pub proof fn lemma_emblem_of_tier(tier: Tier)
    ensures
        tier_rank(tier) <= 9,
        emblem_of_key(emblem_key(tier_rank(tier))) == tier_rank(tier),
{
    lemma_emblem_key_round_trip(tier_rank(tier));
}


/// `s` with its ASCII capital letters made small.
pub open spec fn ascii_lower(s: Seq<char>) -> Seq<char> {
    s.map_values(|c: char| if 'A' <= c && c <= 'Z' { ((c as u32) + 32) as char } else { c })
}

/// The emblem of a tier is keyed by the tier's name in small letters: Silver's emblem
/// is `silver`, Challenger's `challenger`.
pub proof fn lemma_emblem_names_tier(tier: Tier)
    ensures
        emblem_key(tier_rank(tier)) == ascii_lower(tier_text(tier)),
{
    reveal_strlit("Iron");
    reveal_strlit("iron");
    reveal_strlit("Bronze");
    reveal_strlit("bronze");
    reveal_strlit("Silver");
    reveal_strlit("silver");
    reveal_strlit("Gold");
    reveal_strlit("gold");
    reveal_strlit("Platinum");
    reveal_strlit("platinum");
    reveal_strlit("Emerald");
    reveal_strlit("emerald");
    reveal_strlit("Diamond");
    reveal_strlit("diamond");
    reveal_strlit("Master");
    reveal_strlit("master");
    reveal_strlit("Grandmaster");
    reveal_strlit("grandmaster");
    reveal_strlit("Challenger");
    reveal_strlit("challenger");
    match tier {
        Tier::Iron(_) => {
            assert(ascii_lower("Iron"@) =~= "iron"@);
        },
        Tier::Bronze(_) => {
            assert(ascii_lower("Bronze"@) =~= "bronze"@);
        },
        Tier::Silver(_) => {
            assert(ascii_lower("Silver"@) =~= "silver"@);
        },
        Tier::Gold(_) => {
            assert(ascii_lower("Gold"@) =~= "gold"@);
        },
        Tier::Platinum(_) => {
            assert(ascii_lower("Platinum"@) =~= "platinum"@);
        },
        Tier::Emerald(_) => {
            assert(ascii_lower("Emerald"@) =~= "emerald"@);
        },
        Tier::Diamond(_) => {
            assert(ascii_lower("Diamond"@) =~= "diamond"@);
        },
        Tier::Master(_) => {
            assert(ascii_lower("Master"@) =~= "master"@);
        },
        Tier::Grandmaster(_) => {
            assert(ascii_lower("Grandmaster"@) =~= "grandmaster"@);
        },
        Tier::Challenger(_) => {
            assert(ascii_lower("Challenger"@) =~= "challenger"@);
        },
    }
}

} // verus!
