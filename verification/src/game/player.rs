//! The players of a game, as the viewer keeps them.
use vstd::prelude::*;
use crate::account::{Account, RiotId, text_or};
use crate::game::item::{Inventory, Item, Trinket, inventory_from_slots, slot_item};
use crate::game::rune::{Keystone, Page, Primary, Secondary};
use crate::game::{Result, Role, role_of_position};
use crate::{Champion, Team, champion_of_parsed};
use crate::riot::champion_of_name;

verus! {

/// A participant of a game as the match API describes it: the fields that the viewer
/// reads, as plain values.
#[derive(Debug, Clone)]
pub struct Participant {
    pub puuid: String,
    pub summoner_name: String,
    pub riot_id_game_name: Option<String>,
    pub riot_id_tagline: Option<String>,
    pub team_id: u16,
    pub win: bool,
    pub game_ended_in_early_surrender: bool,
    pub game_ended_in_surrender: bool,
    pub team_position: String,
    /// `item0` to `item5`.
    pub items: [i32; 6],
    pub item6: i32,
    pub champion_name: String,
    pub summoner1_id: i32,
    pub summoner2_id: i32,
    pub rune_page: Page,
    pub champ_level: i32,
    pub kills: i32,
    pub deaths: i32,
    pub assists: i32,
    pub total_minions_killed: i32,
    pub neutral_minions_killed: i32,
    pub vision_score: i32,
    pub total_damage_dealt_to_champions: i32,
    pub total_damage_taken: i32,
    pub gold_earned: i32,
    pub vision_wards_bought_in_game: i32,
    pub wards_placed: i32,
    pub wards_killed: i32,
}

/// A player of a game.
#[derive(Debug, Clone)]
pub struct Player {
    pub puuid: String,
    pub name: String,
    pub riot_id: RiotId,
    pub team: Team,
    pub result: Result,
    pub role: Option<Role>,
    pub inventory: Inventory,
    pub trinket: Trinket,
    pub champion: Champion,
    pub summoner_spells: SummonerSpells,
    pub rune_page: Page,
    pub stats: Stats,
}

/// The counters of a player's game.
#[derive(Debug, Clone, Copy, PartialEq, Eq, Structural)]
pub struct Stats {
    pub level: u32,
    pub kills: u32,
    pub deaths: u32,
    pub assists: u32,
    pub creep_score: u32,
    pub monster_score: u32,
    pub vision_score: u32,
    pub damage_dealt: u32,
    pub damage_taken: u32,
    pub gold: u32,
    pub control_wards: u32,
    pub wards_placed: u32,
    pub wards_removed: u32,
}

/// A summoner spell, by its id.
#[derive(Debug, Clone, Copy, PartialEq, Eq, Hash, Structural)]
pub struct SummonerSpell(pub u32);

impl SummonerSpell {
    pub fn new(id: u32) -> (s: SummonerSpell)
        ensures
            s.0 == id,
    {
        SummonerSpell(id)
    }

    pub fn id(&self) -> (id: u32)
        ensures
            id == self.0,
    {
        self.0
    }
}

/// The two summoner spells of a player.
#[derive(Debug, Clone, Copy)]
pub struct SummonerSpells(pub [SummonerSpell; 2]);

impl SummonerSpells {
    pub fn from_spells(spells: [SummonerSpell; 2]) -> (s: SummonerSpells)
        ensures
            s.0 == spells,
    {
        SummonerSpells(spells)
    }

    pub fn first(&self) -> (s: SummonerSpell)
        ensures
            s == self.0@[0],
    {
        self.0[0]
    }

    pub fn second(&self) -> (s: SummonerSpell)
        ensures
            s == self.0@[1],
    {
        self.0[1]
    }
}

/// The result of a game for a participant: an early surrender is a remake, a
/// surrender is a surrender whoever won, otherwise victory or defeat.
pub open spec fn result_of(early_surrender: bool, surrender: bool, win: bool) -> Result {
    if early_surrender {
        Result::Remake
    } else if surrender {
        Result::Surrender
    } else if win {
        Result::Victory
    } else {
        Result::Defeat
    }
}

/// The counters of a participant, each API value's bits read as a `u32`.
pub open spec fn stats_of(p: Participant) -> Stats {
    Stats {
        level: p.champ_level as u32,
        kills: p.kills as u32,
        deaths: p.deaths as u32,
        assists: p.assists as u32,
        creep_score: p.total_minions_killed as u32,
        monster_score: p.neutral_minions_killed as u32,
        vision_score: p.vision_score as u32,
        damage_dealt: p.total_damage_dealt_to_champions as u32,
        damage_taken: p.total_damage_taken as u32,
        gold: p.gold_earned as u32,
        control_wards: p.vision_wards_bought_in_game as u32,
        wards_placed: p.wards_placed as u32,
        wards_removed: p.wards_killed as u32,
    }
}

/// Each counter of `r` holds the participant's API field of the same meaning.
pub open spec fn counters_read(p: Participant, r: Player) -> bool {
    &&& r.stats.level == p.champ_level as u32
    &&& r.stats.kills == p.kills as u32
    &&& r.stats.deaths == p.deaths as u32
    &&& r.stats.assists == p.assists as u32
    &&& r.stats.creep_score == p.total_minions_killed as u32
    &&& r.stats.monster_score == p.neutral_minions_killed as u32
    &&& r.stats.vision_score == p.vision_score as u32
    &&& r.stats.damage_dealt == p.total_damage_dealt_to_champions as u32
    &&& r.stats.damage_taken == p.total_damage_taken as u32
    &&& r.stats.gold == p.gold_earned as u32
    &&& r.stats.control_wards == p.vision_wards_bought_in_game as u32
    &&& r.stats.wards_placed == p.wards_placed as u32
    &&& r.stats.wards_removed == p.wards_killed as u32
}

/// Each counter of a player is read from the participant's API field of the same
/// meaning: kills from kills, deaths from deaths, assists from assists, and so on.
pub proof fn lemma_stats_fields(p: Participant)
    ensures
        stats_of(p).level == p.champ_level as u32,
        stats_of(p).kills == p.kills as u32,
        stats_of(p).deaths == p.deaths as u32,
        stats_of(p).assists == p.assists as u32,
        stats_of(p).creep_score == p.total_minions_killed as u32,
        stats_of(p).monster_score == p.neutral_minions_killed as u32,
        stats_of(p).vision_score == p.vision_score as u32,
        stats_of(p).damage_dealt == p.total_damage_dealt_to_champions as u32,
        stats_of(p).damage_taken == p.total_damage_taken as u32,
        stats_of(p).gold == p.gold_earned as u32,
        stats_of(p).control_wards == p.vision_wards_bought_in_game as u32,
        stats_of(p).wards_placed == p.wards_placed as u32,
        stats_of(p).wards_removed == p.wards_killed as u32,
{
}

/// `r` is the player that the participant `p` of the match API is.
pub open spec fn player_of(p: Participant, r: Player) -> bool {
    &&& r.puuid == p.puuid
    &&& r.name == p.summoner_name
    &&& r.riot_id.name == p.riot_id_game_name
    &&& r.riot_id.tagline == p.riot_id_tagline
    &&& r.team == Team(p.team_id as usize)
    &&& r.result == result_of(p.game_ended_in_early_surrender, p.game_ended_in_surrender, p.win)
    &&& r.role == role_of_position(p.team_position@)
    &&& forall|i: int| 0 <= i < 6 ==> #[trigger] r.inventory.items@[i] == slot_item(p.items@[i])
    &&& r.trinket == Trinket(p.item6 as usize)
    &&& r.champion == champion_of_parsed(champion_of_name(p.champion_name@))
    &&& r.summoner_spells.0@[0] == SummonerSpell(p.summoner1_id as u32)
    &&& r.summoner_spells.0@[1] == SummonerSpell(p.summoner2_id as u32)
    &&& r.rune_page == p.rune_page
    &&& r.stats == stats_of(p)
}

impl Player {
    /// The player that a participant of the match API is.
    pub fn from_participant(p: &Participant) -> (r: Player)
        ensures
            player_of(*p, r),
            r.stats.level == p.champ_level as u32,
            r.stats.kills == p.kills as u32,
            r.stats.deaths == p.deaths as u32,
            r.stats.assists == p.assists as u32,
            r.stats.creep_score == p.total_minions_killed as u32,
            r.stats.monster_score == p.neutral_minions_killed as u32,
            r.stats.vision_score == p.vision_score as u32,
            r.stats.damage_dealt == p.total_damage_dealt_to_champions as u32,
            r.stats.damage_taken == p.total_damage_taken as u32,
            r.stats.gold == p.gold_earned as u32,
            r.stats.control_wards == p.vision_wards_bought_in_game as u32,
            r.stats.wards_placed == p.wards_placed as u32,
            r.stats.wards_removed == p.wards_killed as u32,
    {
        let inventory = inventory_from_slots(p.items);
        let stats = Stats {
            level: p.champ_level as u32,
            kills: p.kills as u32,
            deaths: p.deaths as u32,
            assists: p.assists as u32,
            creep_score: p.total_minions_killed as u32,
            monster_score: p.neutral_minions_killed as u32,
            vision_score: p.vision_score as u32,
            damage_dealt: p.total_damage_dealt_to_champions as u32,
            damage_taken: p.total_damage_taken as u32,
            gold: p.gold_earned as u32,
            control_wards: p.vision_wards_bought_in_game as u32,
            wards_placed: p.wards_placed as u32,
            wards_removed: p.wards_killed as u32,
        };
        let result = if p.game_ended_in_early_surrender {
            Result::Remake
        } else if p.game_ended_in_surrender {
            Result::Surrender
        } else if p.win {
            Result::Victory
        } else {
            Result::Defeat
        };
        let role = match Role::try_from(p.team_position.as_str()) {
            Ok(role) => Some(role),
            Err(_) => None,
        };
        let champion = Champion::from_name(p.champion_name.as_str());
        Player {
            puuid: p.puuid.clone(),
            name: p.summoner_name.clone(),
            riot_id: RiotId {
                name: p.riot_id_game_name.clone(),
                tagline: p.riot_id_tagline.clone(),
            },
            team: Team(p.team_id as usize),
            result,
            role,
            inventory,
            trinket: Trinket(p.item6 as usize),
            champion,
            summoner_spells: SummonerSpells([
                SummonerSpell(p.summoner1_id as u32),
                SummonerSpell(p.summoner2_id as u32),
            ]),
            rune_page: p.rune_page,
            stats,
        }
    }
}


/// The PUUID of a made-up player, as `Account::dummy` makes it.
pub open spec fn dummy_puuid(riot_id: RiotId) -> Seq<char> {
    text_or(riot_id.name.deep_view(), "foo"@) + "-"@ + text_or(riot_id.tagline.deep_view(), "bar"@)
}

/// The counters of a made-up player.
pub open spec fn dummy_stats() -> Stats {
    Stats {
        level: 5,
        kills: 1,
        deaths: 6,
        assists: 12,
        creep_score: 151,
        monster_score: 10,
        vision_score: 18,
        damage_dealt: 12456,
        damage_taken: 20520,
        gold: 13521,
        control_wards: 5,
        wards_placed: 10,
        wards_removed: 3,
    }
}

/// `p` is a made-up player with this team, role, champion and result: a fixed
/// build, spells, runes and counters.
pub open spec fn dummy_build(p: Player, team: Team, role: Role, champion: Champion, result: Result) -> bool {
    &&& p.name@ == "dummy"@
    &&& p.team == team
    &&& p.role == Some(role)
    &&& p.champion == champion
    &&& p.result == result
    &&& p.inventory.items@ == seq![
        Some(Item(1001)),
        Some(Item(6630)),
        Some(Item(4401)),
        Some(Item(3143)),
        Some(Item(3742)),
        Some(Item(6333)),
    ]
    &&& p.trinket == Trinket(3364)
    &&& p.summoner_spells.0@ == seq![SummonerSpell(14), SummonerSpell(4)]
    &&& p.rune_page.primary.keystone == Keystone(8010)
    &&& p.rune_page.secondary.lesser@ == seq![Keystone(8400), Keystone(8400)]
    &&& p.stats == dummy_stats()
}

impl Player {
    /// A made-up player for showing the viewer without the API: a fixed build,
    /// spells, runes and counters, and the PUUID that the made-up account of its
    /// Riot ID has.
    pub fn dummy(riot_id: RiotId, team: Team, role: Role, champion: Champion, result: Result) -> (p: Player)
        ensures
            p.puuid@ == dummy_puuid(riot_id),
            p.riot_id == riot_id,
            dummy_build(p, team, role, champion, result),
    {
        let account = Account::dummy(riot_id);
        let items = [
            Some(Item(1001)),
            Some(Item(6630)),
            Some(Item(4401)),
            Some(Item(3143)),
            Some(Item(3742)),
            Some(Item(6333)),
        ];
        let spells = [SummonerSpell(14), SummonerSpell(4)];
        let lesser = [Keystone(8400), Keystone(8400)];
        let p = Player {
            puuid: account.puuid.0,
            name: String::from_str("dummy"),
            riot_id: account.riot_id,
            team,
            result,
            role: Some(role),
            inventory: Inventory { items },
            trinket: Trinket(3364),
            champion,
            summoner_spells: SummonerSpells(spells),
            rune_page: Page { primary: Primary { keystone: Keystone(8010) }, secondary: Secondary { lesser } },
            stats: Stats {
                level: 5,
                kills: 1,
                deaths: 6,
                assists: 12,
                creep_score: 151,
                monster_score: 10,
                vision_score: 18,
                damage_dealt: 12456,
                damage_taken: 20520,
                gold: 13521,
                control_wards: 5,
                wards_placed: 10,
                wards_removed: 3,
            },
        };
        assert(p.inventory.items@ =~= seq![
            Some(Item(1001)),
            Some(Item(6630)),
            Some(Item(4401)),
            Some(Item(3143)),
            Some(Item(3742)),
            Some(Item(6333)),
        ]);
        assert(p.summoner_spells.0@ =~= seq![SummonerSpell(14), SummonerSpell(4)]);
        assert(p.rune_page.secondary.lesser@ =~= seq![Keystone(8400), Keystone(8400)]);
        p
    }
}

} // verus!
