//! The teams of a game: their bans and objectives.
use vstd::prelude::*;
use crate::Champion;

verus! {

/// A team's counter of one objective, as the match API gives it.
#[derive(Debug, Clone, Copy)]
pub struct ApiObjective {
    pub first: bool,
    pub kills: i32,
}

/// A team's objectives, as the match API gives them.
#[derive(Debug, Clone, Copy)]
pub struct ApiObjectives {
    pub baron: ApiObjective,
    pub champion: ApiObjective,
    pub dragon: ApiObjective,
    pub inhibitor: ApiObjective,
    pub rift_herald: ApiObjective,
    pub tower: ApiObjective,
    pub horde: Option<ApiObjective>,
}

/// A ban, as the match API gives it.
#[derive(Debug, Clone, Copy)]
pub struct ApiBan {
    pub champion_id: i32,
    pub pick_turn: i32,
}

/// A team, as the match API gives it.
#[derive(Debug, Clone)]
pub struct ApiTeam {
    pub bans: Vec<ApiBan>,
    pub objectives: ApiObjectives,
    pub team_id: u16,
    pub win: bool,
}

/// A team of a game.
#[derive(Debug, Clone)]
pub struct Team {
    pub won: bool,
    pub id: Id,
    pub bans: Vec<Ban>,
    pub objectives: Objectives,
}

/// A team's id.
#[derive(Debug, Clone, Copy, PartialEq, Eq, Hash, Structural)]
pub struct Id(pub usize);

impl Id {
    /// The id of the team that the API numbers `team_id`.
    pub fn from_api(team_id: u16) -> (id: Id)
        ensures
            id.0 == team_id as usize,
    {
        Id(team_id as usize)
    }

    /// The blue side, id 100.
    pub fn blue() -> (id: Id)
        ensures
            id == Id(100),
    {
        Id(100)
    }

    /// The red side, id 200.
    pub fn red() -> (id: Id)
        ensures
            id == Id(200),
    {
        Id(200)
    }
}

/// A ban: the champion and the turn at which it was banned.
#[derive(Debug, Clone, Copy, PartialEq, Eq, Structural)]
pub struct Ban {
    pub champion: Champion,
    pub turn_picked: usize,
}

/// A team's count of one objective and whether it took it first.
#[derive(Debug, Clone, Copy, PartialEq, Eq, Structural)]
pub struct Objective {
    pub first: bool,
    pub kills: usize,
}

/// A team's objectives.
#[derive(Debug, Clone, Copy, PartialEq, Eq, Structural)]
pub struct Objectives {
    pub baron: Objective,
    pub champion: Objective,
    pub dragon: Objective,
    pub inhibitor: Objective,
    pub rift_herald: Objective,
    pub tower: Objective,
    pub horde: Option<Objective>,
}

/// The objective of an API counter, its count's bits read as a `usize`.
pub open spec fn objective_of(o: ApiObjective) -> Objective {
    Objective { first: o.first, kills: o.kills as usize }
}

/// The ban of an API ban.
pub open spec fn ban_of(b: ApiBan) -> Ban {
    Ban { champion: Champion(b.champion_id as u32), turn_picked: b.pick_turn as usize }
}

/// The objectives of the API's objectives.
pub open spec fn objectives_of(o: ApiObjectives) -> Objectives {
    Objectives {
        baron: objective_of(o.baron),
        champion: objective_of(o.champion),
        dragon: objective_of(o.dragon),
        inhibitor: objective_of(o.inhibitor),
        rift_herald: objective_of(o.rift_herald),
        tower: objective_of(o.tower),
        horde: match o.horde {
            Some(h) => Some(objective_of(h)),
            None => None,
        },
    }
}

impl Objective {
    /// No kills, not first.
    pub fn zero() -> (o: Objective)
        ensures
            o == (Objective { first: false, kills: 0 }),
    {
        Objective { first: false, kills: 0 }
    }

    pub fn from_api(o: ApiObjective) -> (r: Objective)
        ensures
            r == objective_of(o),
    {
        Objective { first: o.first, kills: o.kills as usize }
    }
}

impl Objectives {
    /// No objective taken; the horde counter is present.
    pub fn default() -> (o: Objectives)
        ensures
            o.baron == (Objective { first: false, kills: 0 }),
            o.champion == (Objective { first: false, kills: 0 }),
            o.dragon == (Objective { first: false, kills: 0 }),
            o.inhibitor == (Objective { first: false, kills: 0 }),
            o.rift_herald == (Objective { first: false, kills: 0 }),
            o.tower == (Objective { first: false, kills: 0 }),
            o.horde == Some((Objective { first: false, kills: 0 })),
    {
        Objectives {
            baron: Objective::zero(),
            champion: Objective::zero(),
            dragon: Objective::zero(),
            inhibitor: Objective::zero(),
            rift_herald: Objective::zero(),
            tower: Objective::zero(),
            horde: Some(Objective::zero()),
        }
    }

    pub fn from_api(o: ApiObjectives) -> (r: Objectives)
        ensures
            r == objectives_of(o),
    {
        Objectives {
            baron: Objective::from_api(o.baron),
            champion: Objective::from_api(o.champion),
            dragon: Objective::from_api(o.dragon),
            inhibitor: Objective::from_api(o.inhibitor),
            rift_herald: Objective::from_api(o.rift_herald),
            tower: Objective::from_api(o.tower),
            horde: match o.horde {
                Some(h) => Some(Objective::from_api(h)),
                None => None,
            },
        }
    }
}

impl Team {
    /// The team that the match API describes.
    pub fn from_api(team: ApiTeam) -> (r: Team)
        ensures
            r.won == team.win,
            r.id == Id(team.team_id as usize),
            r.bans@.len() == team.bans@.len(),
            forall|i: int| 0 <= i < team.bans@.len() ==> #[trigger] r.bans@[i] == ban_of(team.bans@[i]),
            r.objectives == objectives_of(team.objectives),
    {
        let mut bans: Vec<Ban> = Vec::new();
        let mut i: usize = 0;
        while i < team.bans.len()
            invariant
                i <= team.bans@.len(),
                bans@.len() == i,
                forall|j: int| 0 <= j < i ==> #[trigger] bans@[j] == ban_of(team.bans@[j]),
            decreases team.bans@.len() - i,
        {
            let ban = team.bans[i];
            bans.push(Ban { champion: Champion::from_api(ban.champion_id), turn_picked: ban.pick_turn as usize });
            i = i + 1;
        }
        Team {
            won: team.win,
            id: Id::from_api(team.team_id),
            bans,
            objectives: Objectives::from_api(team.objectives),
        }
    }
}

} // verus!
