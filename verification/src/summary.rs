//! The summary of a summoner's recent games: wins and losses, the role played with
//! the most wins, and the champions (with their roles) that won the most.
use vstd::prelude::*;
use crate::Champion;
use crate::game::{Game, Result, Role, first_player_with};
use crate::game::player::Player;

verus! {

/// What the summary reads of a player's game.
#[derive(Debug, Clone, Copy, PartialEq, Eq)]
pub struct Outcome {
    pub result: Result,
    pub role: Option<Role>,
    pub champion: Champion,
    pub kills: u32,
    pub deaths: u32,
    pub assists: u32,
}

/// Wins, losses and kill counters of a group of games.
#[derive(Debug, Clone, Copy, PartialEq, Eq, Structural)]
pub struct RoleStats {
    pub wins: usize,
    pub losses: usize,
    pub kills: usize,
    pub deaths: usize,
    pub assists: usize,
}

/// The counters of a champion played in a role.
#[derive(Debug, Clone, Copy, PartialEq, Eq, Structural)]
pub struct ChampionStats {
    pub role: Role,
    pub champion: Champion,
    pub stats: RoleStats,
}

/// The summary of a summoner's recent games.
#[derive(Debug, Clone)]
pub struct Summary {
    pub wins: usize,
    pub losses: usize,
    pub role: Role,
    pub role_stats: RoleStats,
    pub champions: Vec<ChampionStats>,
}

pub open spec fn outcome_of(p: Player) -> Outcome {
    Outcome {
        result: p.result,
        role: p.role,
        champion: p.champion,
        kills: p.stats.kills,
        deaths: p.stats.deaths,
        assists: p.stats.assists,
    }
}

pub open spec fn zero_stats() -> RoleStats {
    RoleStats { wins: 0, losses: 0, kills: 0, deaths: 0, assists: 0 }
}

/// The sum of `val` over the outcomes that satisfy `pred`.
pub open spec fn tally(os: Seq<Outcome>, pred: spec_fn(Outcome) -> bool, val: spec_fn(Outcome) -> int) -> int
    decreases os.len(),
{
    if os.len() == 0 {
        0
    } else {
        tally(os.drop_last(), pred, val) + (if pred(os.last()) { val(os.last()) } else { 0 })
    }
}

pub open spec fn won_val() -> spec_fn(Outcome) -> int {
    |o: Outcome| if o.result == Result::Victory { 1int } else { 0int }
}

pub open spec fn lost_val() -> spec_fn(Outcome) -> int {
    |o: Outcome| if o.result == Result::Defeat || o.result == Result::Surrender { 1int } else { 0int }
}

pub open spec fn kills_val() -> spec_fn(Outcome) -> int {
    |o: Outcome| o.kills as int
}

pub open spec fn deaths_val() -> spec_fn(Outcome) -> int {
    |o: Outcome| o.deaths as int
}

pub open spec fn assists_val() -> spec_fn(Outcome) -> int {
    |o: Outcome| o.assists as int
}

/// The outcomes played in `role` (any, where `None`) on `champion` (any, where `None`).
pub open spec fn matching(role: Option<Role>, champion: Option<Champion>) -> spec_fn(Outcome) -> bool {
    |o: Outcome|
        (match role {
            Some(r) => o.role == Some(r),
            None => true,
        }) && (match champion {
            Some(c) => o.champion == c,
            None => true,
        })
}

pub open spec fn every() -> spec_fn(Outcome) -> bool {
    matching(None, None)
}

pub open spec fn in_role(role: Role) -> spec_fn(Outcome) -> bool {
    matching(Some(role), None)
}

pub open spec fn on_champion(role: Role, champion: Champion) -> spec_fn(Outcome) -> bool {
    matching(Some(role), Some(champion))
}

/// Some outcome satisfies `pred`.
pub open spec fn present(os: Seq<Outcome>, pred: spec_fn(Outcome) -> bool) -> bool {
    exists|i: int| 0 <= i < os.len() && pred(#[trigger] os[i])
}

pub open spec fn role_present(os: Seq<Outcome>, role: Role) -> bool {
    present(os, in_role(role))
}

pub open spec fn role_wins(os: Seq<Outcome>, role: Role) -> int {
    tally(os, in_role(role), won_val())
}

pub open spec fn key_present(os: Seq<Outcome>, role: Role, champion: Champion) -> bool {
    present(os, on_champion(role, champion))
}

pub open spec fn key_wins(os: Seq<Outcome>, role: Role, champion: Champion) -> int {
    tally(os, on_champion(role, champion), won_val())
}

/// `st` counts the outcomes that satisfy `pred`.
pub open spec fn counts(st: RoleStats, os: Seq<Outcome>, pred: spec_fn(Outcome) -> bool) -> bool {
    &&& st.wins == tally(os, pred, won_val())
    &&& st.losses == tally(os, pred, lost_val())
    &&& st.kills == tally(os, pred, kills_val())
    &&& st.deaths == tally(os, pred, deaths_val())
    &&& st.assists == tally(os, pred, assists_val())
}

/// The kill, death and assist sums over all outcomes fit in a `usize`.
pub open spec fn totals_fit(os: Seq<Outcome>) -> bool {
    &&& tally(os, every(), kills_val()) <= usize::MAX
    &&& tally(os, every(), deaths_val()) <= usize::MAX
    &&& tally(os, every(), assists_val()) <= usize::MAX
}

pub open spec fn same_key(a: ChampionStats, b: ChampionStats) -> bool {
    a.role == b.role && a.champion == b.champion
}

/// No two entries are for the same champion in the same role.
pub open spec fn keys_distinct(cs: Seq<ChampionStats>) -> bool {
    forall|a: int, b: int|
        0 <= a < cs.len() && 0 <= b < cs.len() && a != b ==> !same_key(#[trigger] cs[a], #[trigger] cs[b])
}

/// Some entry is for `champion` in `role`.
pub open spec fn listed(cs: Seq<ChampionStats>, role: Role, champion: Champion) -> bool {
    exists|j: int| 0 <= j < cs.len() && (#[trigger] cs[j]).role == role && cs[j].champion == champion
}

/// `role` is a role with the most wins among those played, with its counters; `Mid`
/// with zero counters where no game has a role.
pub open spec fn best_role(os: Seq<Outcome>, role: Role, st: RoleStats) -> bool {
    if exists|r: Role| #[trigger] role_present(os, r) {
        &&& role_present(os, role)
        &&& counts(st, os, in_role(role))
        &&& forall|r: Role| #[trigger] role_present(os, r) ==> role_wins(os, r) <= st.wins
    } else {
        role == Role::Mid && st == zero_stats()
    }
}

/// `cs` holds the champions (by role) with the most wins, at most four, most wins first.
pub open spec fn ranks_champions(os: Seq<Outcome>, cs: Seq<ChampionStats>) -> bool {
    &&& cs.len() <= 4
    &&& forall|j: int|
        0 <= j < cs.len() ==> key_present(os, (#[trigger] cs[j]).role, cs[j].champion) && counts(
            cs[j].stats,
            os,
            on_champion(cs[j].role, cs[j].champion),
        )
    &&& keys_distinct(cs)
    &&& forall|a: int, b: int|
        0 <= a < b < cs.len() ==> (#[trigger] cs[a]).stats.wins >= (#[trigger] cs[b]).stats.wins
    &&& forall|r: Role, c: Champion|
        #[trigger] key_present(os, r, c) && !listed(cs, r, c) ==> cs.len() == 4 && forall|j: int|
            0 <= j < 4 ==> key_wins(os, r, c) <= (#[trigger] cs[j]).stats.wins
}

/// `s` summarizes the outcomes `os`.
pub open spec fn summarizes(s: Summary, os: Seq<Outcome>) -> bool {
    &&& s.wins == tally(os, every(), won_val())
    &&& s.losses == tally(os, every(), lost_val())
    &&& best_role(os, s.role, s.role_stats)
    &&& ranks_champions(os, s.champions@)
}

/// The game has a player with the PUUID.
pub open spec fn has_player(game: Game, puuid: Seq<char>) -> bool {
    exists|i: int| 0 <= i < game.players@.len() && (#[trigger] game.players@[i]).puuid@ == puuid
}

/// Every game has a player with the PUUID.
pub open spec fn all_games_have(games: Seq<Game>, puuid: Seq<char>) -> bool {
    forall|k: int| 0 <= k < games.len() ==> #[trigger] has_player(games[k], puuid)
}

/// The summoner's player in a game: the first with the PUUID.
pub open spec fn summoner_player(game: Game, puuid: Seq<char>) -> Player {
    game.players@[choose|i: int| first_player_with(game.players@, puuid, i)]
}

/// The outcomes of the summoner's players in the games, game by game.
pub open spec fn summoner_outcomes(games: Seq<Game>, puuid: Seq<char>) -> Seq<Outcome> {
    Seq::new(games.len(), |k: int| outcome_of(summoner_player(games[k], puuid)))
}

impl Outcome {
    pub fn of(p: &Player) -> (r: Outcome)
        ensures
            r == outcome_of(*p),
    {
        Outcome {
            result: p.result,
            role: p.role,
            champion: p.champion,
            kills: p.stats.kills,
            deaths: p.stats.deaths,
            assists: p.stats.assists,
        }
    }

    /// Whether the outcome was played in `role` and on `champion`, where given.
    pub fn matches(&self, role: Option<Role>, champion: Option<Champion>) -> (b: bool)
        ensures
            b == matching(role, champion)(*self),
    {
        let role_ok = match role {
            Some(r) => match self.role {
                Some(played) => played == r,
                None => false,
            },
            None => true,
        };
        let champion_ok = match champion {
            Some(c) => self.champion == c,
            None => true,
        };
        role_ok && champion_ok
    }
}

impl RoleStats {
    /// The counters of no game.
    pub fn zero() -> (r: RoleStats)
        ensures
            r == zero_stats(),
    {
        RoleStats { wins: 0, losses: 0, kills: 0, deaths: 0, assists: 0 }
    }
}

proof fn lemma_tally_step(os: Seq<Outcome>, pred: spec_fn(Outcome) -> bool, val: spec_fn(Outcome) -> int, k: int)
    requires
        0 <= k < os.len(),
    ensures
        tally(os.take(k + 1), pred, val) == tally(os.take(k), pred, val) + (if pred(os[k]) {
            val(os[k])
        } else {
            0
        }),
{
    assert(os.take(k + 1).drop_last() =~= os.take(k));
}

proof fn lemma_tally_sub(os: Seq<Outcome>, pred: spec_fn(Outcome) -> bool, val: spec_fn(Outcome) -> int)
    requires
        forall|o: Outcome| #[trigger] val(o) >= 0,
    ensures
        0 <= tally(os, pred, val) <= tally(os, every(), val),
    decreases os.len(),
{
    if os.len() > 0 {
        lemma_tally_sub(os.drop_last(), pred, val);
        assert(val(os.last()) >= 0);
    }
}

/// A prefix sums to no more than the whole, for a non-negative `val`.
proof fn lemma_tally_prefix(os: Seq<Outcome>, val: spec_fn(Outcome) -> int, k: int)
    requires
        0 <= k <= os.len(),
        forall|o: Outcome| #[trigger] val(o) >= 0,
    ensures
        tally(os.take(k), every(), val) <= tally(os, every(), val),
    decreases os.len() - k,
{
    if k < os.len() {
        lemma_tally_prefix(os, val, k + 1);
        lemma_tally_step(os, every(), val, k);
        assert(val(os[k]) >= 0);
    } else {
        assert(os.take(k) =~= os);
    }
}

proof fn lemma_tally_bounds(os: Seq<Outcome>, pred: spec_fn(Outcome) -> bool, val: spec_fn(Outcome) -> int, k: int)
    requires
        0 <= k <= os.len(),
        forall|o: Outcome| #[trigger] val(o) >= 0,
    ensures
        0 <= tally(os.take(k), pred, val) <= tally(os, every(), val),
{
    lemma_tally_sub(os.take(k), pred, val);
    lemma_tally_prefix(os, val, k);
}

proof fn lemma_count_bound(os: Seq<Outcome>, pred: spec_fn(Outcome) -> bool, val: spec_fn(Outcome) -> int)
    requires
        forall|o: Outcome| 0 <= #[trigger] val(o) <= 1,
    ensures
        0 <= tally(os, pred, val) <= os.len(),
    decreases os.len(),
{
    if os.len() > 0 {
        lemma_count_bound(os.drop_last(), pred, val);
        assert(0 <= val(os.last()) <= 1);
    }
}

proof fn lemma_counts_fit(os: Seq<Outcome>, pred: spec_fn(Outcome) -> bool, k: int)
    requires
        0 <= k <= os.len(),
        os.len() <= usize::MAX,
        totals_fit(os),
    ensures
        0 <= tally(os.take(k), pred, won_val()) <= k,
        0 <= tally(os.take(k), pred, lost_val()) <= k,
        0 <= tally(os.take(k), pred, kills_val()) <= usize::MAX,
        0 <= tally(os.take(k), pred, deaths_val()) <= usize::MAX,
        0 <= tally(os.take(k), pred, assists_val()) <= usize::MAX,
{
    lemma_tally_bounds(os, pred, kills_val(), k);
    lemma_tally_bounds(os, pred, deaths_val(), k);
    lemma_tally_bounds(os, pred, assists_val(), k);
    lemma_count_bound(os.take(k), pred, won_val());
    lemma_count_bound(os.take(k), pred, lost_val());
}

/// Counters that hold over the first `k` outcomes still hold over the first `k + 1`
/// when outcome `k` does not satisfy `pred`.
proof fn lemma_counts_skip(st: RoleStats, os: Seq<Outcome>, pred: spec_fn(Outcome) -> bool, k: int)
    requires
        0 <= k < os.len(),
        !pred(os[k]),
        counts(st, os.take(k), pred),
    ensures
        counts(st, os.take(k + 1), pred),
{
    lemma_tally_step(os, pred, won_val(), k);
    lemma_tally_step(os, pred, lost_val(), k);
    lemma_tally_step(os, pred, kills_val(), k);
    lemma_tally_step(os, pred, deaths_val(), k);
    lemma_tally_step(os, pred, assists_val(), k);
}

/// The counters of the first `k + 1` outcomes, from those of the first `k`.
fn add_outcome(
    st: RoleStats,
    o: &Outcome,
    Ghost(os): Ghost<Seq<Outcome>>,
    Ghost(pred): Ghost<spec_fn(Outcome) -> bool>,
    Ghost(k): Ghost<int>,
) -> (r: RoleStats)
    requires
        0 <= k < os.len(),
        os.len() <= usize::MAX,
        totals_fit(os),
        os[k] == *o,
        pred(*o),
        counts(st, os.take(k), pred),
    ensures
        counts(r, os.take(k + 1), pred),
{
    proof {
        lemma_counts_fit(os, pred, k + 1);
        lemma_tally_step(os, pred, won_val(), k);
        lemma_tally_step(os, pred, lost_val(), k);
        lemma_tally_step(os, pred, kills_val(), k);
        lemma_tally_step(os, pred, deaths_val(), k);
        lemma_tally_step(os, pred, assists_val(), k);
    }
    RoleStats {
        wins: st.wins + if o.result.won() { 1 } else { 0 },
        losses: st.losses + if o.result.lost() { 1 } else { 0 },
        kills: st.kills + o.kills as usize,
        deaths: st.deaths + o.deaths as usize,
        assists: st.assists + o.assists as usize,
    }
}

/// The counters of the outcomes played in `role` and on `champion`, where given.
pub fn stats_matching(os: &Vec<Outcome>, role: Option<Role>, champion: Option<Champion>) -> (st: RoleStats)
    requires
        totals_fit(os@),
    ensures
        counts(st, os@, matching(role, champion)),
{
    let ghost pred = matching(role, champion);
    let mut st = RoleStats::zero();
    let mut i: usize = 0;
    while i < os.len()
        invariant
            i <= os@.len(),
            totals_fit(os@),
            pred == matching(role, champion),
            counts(st, os@.take(i as int), pred),
        decreases os@.len() - i,
    {
        let o = os[i];
        if o.matches(role, champion) {
            st = add_outcome(st, &o, Ghost(os@), Ghost(pred), Ghost(i as int));
        } else {
            proof {
                lemma_counts_skip(st, os@, pred, i as int);
            }
        }
        i = i + 1;
    }
    assert(os@.take(os@.len() as int) =~= os@);
    st
}

/// Whether some outcome was played in `role` and on `champion`, where given.
pub fn any_matching(os: &Vec<Outcome>, role: Option<Role>, champion: Option<Champion>) -> (b: bool)
    ensures
        b == present(os@, matching(role, champion)),
{
    let mut i: usize = 0;
    while i < os.len()
        invariant
            i <= os@.len(),
            forall|j: int| 0 <= j < i ==> !matching(role, champion)(#[trigger] os@[j]),
        decreases os@.len() - i,
    {
        if os[i].matches(role, champion) {
            assert(matching(role, champion)(os@[i as int]));
            return true;
        }
        i = i + 1;
    }
    false
}

/// The best role so far: the one with the most wins among the roles of `seen` that
/// were played, `None` where none was.
pub open spec fn best_among(os: Seq<Outcome>, best: Option<(Role, RoleStats)>, seen: Set<Role>) -> bool {
    match best {
        None => forall|r: Role| #[trigger] seen.contains(r) ==> !role_present(os, r),
        Some((role, st)) => {
            &&& seen.contains(role)
            &&& role_present(os, role)
            &&& counts(st, os, in_role(role))
            &&& forall|r: Role| #[trigger] seen.contains(r) && role_present(os, r) ==> role_wins(os, r) <= st.wins
        },
    }
}

/// The best role after also looking at `role`; an earlier one stays on equal wins.
fn consider_role(
    os: &Vec<Outcome>,
    best: Option<(Role, RoleStats)>,
    role: Role,
    Ghost(seen): Ghost<Set<Role>>,
) -> (r: Option<(Role, RoleStats)>)
    requires
        totals_fit(os@),
        best_among(os@, best, seen),
    ensures
        best_among(os@, r, seen.insert(role)),
{
    if any_matching(os, Some(role), None) {
        let st = stats_matching(os, Some(role), None);
        match best {
            None => Some((role, st)),
            Some((_, best_stats)) => {
                if st.wins > best_stats.wins {
                    Some((role, st))
                } else {
                    best
                }
            },
        }
    } else {
        best
    }
}

/// The role with the most wins and its counters; `Mid` with zero counters where no
/// game has a role.
pub fn choose_role(os: &Vec<Outcome>) -> (r: (Role, RoleStats))
    requires
        totals_fit(os@),
    ensures
        best_role(os@, r.0, r.1),
{
    let ghost seen = Set::<Role>::empty();
    let best = consider_role(os, None, Role::Bottom, Ghost(seen));
    let ghost seen = seen.insert(Role::Bottom);
    let best = consider_role(os, best, Role::Jungle, Ghost(seen));
    let ghost seen = seen.insert(Role::Jungle);
    let best = consider_role(os, best, Role::Mid, Ghost(seen));
    let ghost seen = seen.insert(Role::Mid);
    let best = consider_role(os, best, Role::Support, Ghost(seen));
    let ghost seen = seen.insert(Role::Support);
    let best = consider_role(os, best, Role::Top, Ghost(seen));
    let ghost seen = seen.insert(Role::Top);
    assert forall|r: Role| seen.contains(r) by {
        match r {
            Role::Bottom => {},
            Role::Jungle => {},
            Role::Mid => {},
            Role::Support => {},
            Role::Top => {},
        }
    }
    match best {
        Some(found) => {
            proof {
                assert forall|r: Role| #[trigger] role_present(os@, r) implies role_wins(os@, r) <= found.1.wins by {
                    assert(seen.contains(r));
                }
            }
            found
        },
        None => {
            proof {
                assert forall|r: Role| !#[trigger] role_present(os@, r) by {
                    assert(seen.contains(r));
                }
            }
            (Role::Mid, RoleStats::zero())
        },
    }
}


/// Whether `cs` has an entry for `champion` in `role`.
fn find_listed(cs: &Vec<ChampionStats>, role: Role, champion: Champion) -> (b: bool)
    ensures
        b == listed(cs@, role, champion),
{
    let mut j: usize = 0;
    while j < cs.len()
        invariant
            j <= cs@.len(),
            forall|q: int| 0 <= q < j ==> !((#[trigger] cs@[q]).role == role && cs@[q].champion == champion),
        decreases cs@.len() - j,
    {
        if cs[j].role == role && cs[j].champion == champion {
            assert(cs@[j as int].role == role && cs@[j as int].champion == champion);
            return true;
        }
        j = j + 1;
    }
    false
}

/// One entry for each champion played in a role, with its counters.
pub fn champion_groups(os: &Vec<Outcome>) -> (all: Vec<ChampionStats>)
    requires
        totals_fit(os@),
    ensures
        keys_distinct(all@),
        forall|j: int|
            0 <= j < all@.len() ==> key_present(os@, (#[trigger] all@[j]).role, all@[j].champion)
                && counts(all@[j].stats, os@, on_champion(all@[j].role, all@[j].champion)),
        forall|i: int|
            0 <= i < os@.len() && (#[trigger] os@[i]).role is Some ==> listed(all@, os@[i].role->0, os@[i].champion),
{
    let mut all: Vec<ChampionStats> = Vec::new();
    let mut i: usize = 0;
    while i < os.len()
        invariant
            i <= os@.len(),
            totals_fit(os@),
            keys_distinct(all@),
            forall|j: int|
                0 <= j < all@.len() ==> key_present(os@, (#[trigger] all@[j]).role, all@[j].champion)
                    && counts(all@[j].stats, os@, on_champion(all@[j].role, all@[j].champion)),
            forall|i2: int|
                0 <= i2 < i && (#[trigger] os@[i2]).role is Some ==> listed(all@, os@[i2].role->0, os@[i2].champion),
        decreases os@.len() - i,
    {
        let o = os[i];
        match o.role {
            Some(role) => {
                if !find_listed(&all, role, o.champion) {
                    let stats = stats_matching(os, Some(role), Some(o.champion));
                    let entry = ChampionStats { role, champion: o.champion, stats };
                    let ghost before = all@;
                    proof {
                        assert(on_champion(role, o.champion)(os@[i as int]));
                    }
                    all.push(entry);
                    proof {
                        assert(all@[before.len() as int] == entry);
                        assert forall|a: int, b: int|
                            0 <= a < all@.len() && 0 <= b < all@.len() && a != b implies !same_key(
                            #[trigger] all@[a],
                            #[trigger] all@[b],
                        ) by {
                            if a < before.len() && b < before.len() {
                                assert(all@[a] == before[a] && all@[b] == before[b]);
                            } else if a < before.len() {
                                assert(all@[a] == before[a]);
                            } else {
                                assert(all@[b] == before[b]);
                            }
                        }
                        assert forall|i2: int|
                            0 <= i2 <= i && (#[trigger] os@[i2]).role is Some implies listed(
                            all@,
                            os@[i2].role->0,
                            os@[i2].champion,
                        ) by {
                            if i2 < i {
                                let j = choose|j: int|
                                    0 <= j < before.len() && (#[trigger] before[j]).role == os@[i2].role->0
                                        && before[j].champion == os@[i2].champion;
                                assert(all@[j] == before[j]);
                            } else {
                                assert(all@[before.len() as int] == entry);
                            }
                        }
                    }
                } else {
                    proof {
                        assert forall|i2: int|
                            0 <= i2 <= i && (#[trigger] os@[i2]).role is Some implies listed(
                            all@,
                            os@[i2].role->0,
                            os@[i2].champion,
                        ) by {
                            if i2 < i {
                            }
                        }
                    }
                }
            },
            None => {},
        }
        i = i + 1;
    }
    all
}


/// The entries with the most wins, at most four, most wins first; an entry left out
/// has no more wins than any taken.
pub fn rank_champions(all: Vec<ChampionStats>) -> (top: Vec<ChampionStats>)
    requires
        keys_distinct(all@),
    ensures
        top@.len() == (if all@.len() < 4 { all@.len() } else { 4 }),
        forall|j: int| 0 <= j < top@.len() ==> all@.contains(#[trigger] top@[j]),
        keys_distinct(top@),
        forall|a: int, b: int|
            0 <= a < b < top@.len() ==> (#[trigger] top@[a]).stats.wins >= (#[trigger] top@[b]).stats.wins,
        forall|k: int|
            0 <= k < all@.len() && !top@.contains(#[trigger] all@[k]) ==> top@.len() == 4 && forall|j: int|
                0 <= j < 4 ==> all@[k].stats.wins <= (#[trigger] top@[j]).stats.wins,
{
    let ghost orig = all@;
    let n = all.len();
    let limit: usize = if n < 4 { n } else { 4 };
    let mut rest = all;
    let mut pos: usize = 0;
    while pos < limit
        invariant
            rest@.len() == n == orig.len(),
            limit == (if n < 4 { n } else { 4 }),
            pos <= limit,
            keys_distinct(rest@),
            forall|k: int| 0 <= k < n ==> rest@.contains(#[trigger] orig[k]),
            forall|b: int| 0 <= b < n ==> orig.contains(#[trigger] rest@[b]),
            forall|a: int, b: int|
                0 <= a < pos && a < b < n ==> (#[trigger] rest@[a]).stats.wins >= (#[trigger] rest@[b]).stats.wins,
        decreases limit - pos,
    {
        let mut m: usize = pos;
        let mut q: usize = pos + 1;
        while q < n
            invariant
                rest@.len() == n,
                pos <= m < q <= n,
                forall|b: int| pos <= b < q ==> (#[trigger] rest@[b]).stats.wins <= rest@[m as int].stats.wins,
            decreases n - q,
        {
            if rest[q].stats.wins > rest[m].stats.wins {
                m = q;
            }
            q = q + 1;
        }
        let ghost old_rest = rest@;
        let x = rest[pos];
        let y = rest[m];
        rest.set(pos, y);
        rest.set(m, x);
        proof {
            let swapped = |b: int| if b == pos as int { m as int } else if b == m as int { pos as int } else { b };
            assert forall|b: int| 0 <= b < n implies rest@[b] == old_rest[swapped(b)] by {}
            assert forall|a: int, b: int|
                0 <= a < rest@.len() && 0 <= b < rest@.len() && a != b implies !same_key(
                #[trigger] rest@[a],
                #[trigger] rest@[b],
            ) by {
                assert(rest@[a] == old_rest[swapped(a)]);
                assert(rest@[b] == old_rest[swapped(b)]);
            }
            assert forall|k: int| 0 <= k < n implies rest@.contains(#[trigger] orig[k]) by {
                let b = choose|b: int| 0 <= b < n && old_rest[b] == orig[k];
                assert(rest@[swapped(b)] == old_rest[b]);
            }
            assert forall|b: int| 0 <= b < n implies orig.contains(#[trigger] rest@[b]) by {
                assert(rest@[b] == old_rest[swapped(b)]);
                assert(orig.contains(old_rest[swapped(b)]));
            }
            assert forall|a: int, b: int|
                0 <= a < pos + 1 && a < b < n implies (#[trigger] rest@[a]).stats.wins >= (
                #[trigger] rest@[b]).stats.wins by {
                assert(rest@[a] == old_rest[swapped(a)]);
                assert(rest@[b] == old_rest[swapped(b)]);
                if a < pos {
                    assert(old_rest[a].stats.wins >= old_rest[swapped(b)].stats.wins);
                } else {
                    assert(old_rest[m as int].stats.wins >= old_rest[swapped(b)].stats.wins);
                }
            }
        }
        pos = pos + 1;
    }
    let mut top: Vec<ChampionStats> = Vec::new();
    let mut j: usize = 0;
    while j < limit
        invariant
            rest@.len() == n,
            j <= limit <= n,
            top@ == rest@.take(j as int),
        decreases limit - j,
    {
        top.push(rest[j]);
        j = j + 1;
        assert(top@ =~= rest@.take(j as int));
    }
    proof {
        assert forall|j2: int| 0 <= j2 < top@.len() implies orig.contains(#[trigger] top@[j2]) by {
            assert(top@[j2] == rest@[j2]);
        }
        assert forall|a: int, b: int|
            0 <= a < top@.len() && 0 <= b < top@.len() && a != b implies !same_key(
            #[trigger] top@[a],
            #[trigger] top@[b],
        ) by {
            assert(top@[a] == rest@[a] && top@[b] == rest@[b]);
        }
        assert forall|a: int, b: int| 0 <= a < b < top@.len() implies (#[trigger] top@[a]).stats.wins
            >= (#[trigger] top@[b]).stats.wins by {
            assert(top@[a] == rest@[a] && top@[b] == rest@[b]);
        }
        assert forall|k: int|
            0 <= k < n && !top@.contains(#[trigger] orig[k]) implies top@.len() == 4 && forall|j2: int|
                0 <= j2 < 4 ==> orig[k].stats.wins <= (#[trigger] top@[j2]).stats.wins by {
            let b = choose|b: int| 0 <= b < n && rest@[b] == orig[k];
            if b < limit {
                assert(top@[b] == rest@[b]);
            }
            assert(b >= limit);
            assert forall|j2: int| 0 <= j2 < 4 implies orig[k].stats.wins <= (#[trigger] top@[j2]).stats.wins by {
                assert(top@[j2] == rest@[j2]);
            }
        }
    }
    top
}


/// A game counts as a win, as a loss, or as neither.
proof fn lemma_wins_and_losses(os: Seq<Outcome>)
    ensures
        tally(os, every(), won_val()) + tally(os, every(), lost_val()) <= os.len(),
    decreases os.len(),
{
    if os.len() > 0 {
        lemma_wins_and_losses(os.drop_last());
    }
}

/// A summary counts each game at most once as won or lost, and the chosen role's
/// wins and losses are among the summary's.
pub proof fn lemma_summary_counts(s: Summary, os: Seq<Outcome>)
    requires
        summarizes(s, os),
    ensures
        s.wins + s.losses <= os.len(),
        s.role_stats.wins <= s.wins,
        s.role_stats.losses <= s.losses,
{
    lemma_wins_and_losses(os);
    lemma_tally_sub(os, in_role(s.role), won_val());
    lemma_tally_sub(os, in_role(s.role), lost_val());
}

/// At most one player of a game is the first with a PUUID.
proof fn lemma_first_player_unique(players: Seq<Player>, puuid: Seq<char>, i: int, j: int)
    requires
        first_player_with(players, puuid, i),
        first_player_with(players, puuid, j),
    ensures
        i == j,
{
    if i < j {
        assert(players[i].puuid@ == puuid);
    } else if j < i {
        assert(players[j].puuid@ == puuid);
    }
}

impl Summary {
    /// The summary of a summoner's outcomes.
    pub fn from_outcomes(os: &Vec<Outcome>) -> (s: Summary)
        requires
            totals_fit(os@),
        ensures
            summarizes(s, os@),
    {
        let total = stats_matching(os, None, None);
        let (role, role_stats) = choose_role(os);
        let groups = champion_groups(os);
        let ghost all = groups@;
        let champions = rank_champions(groups);
        proof {
            let cs = champions@;
            assert forall|j: int| 0 <= j < cs.len() implies key_present(os@, (#[trigger] cs[j]).role, cs[j].champion)
                && counts(cs[j].stats, os@, on_champion(cs[j].role, cs[j].champion)) by {
                assert(all.contains(cs[j]));
                let k = choose|k: int| 0 <= k < all.len() && all[k] == cs[j];
                assert(all[k] == cs[j]);
            }
            assert forall|r: Role, c: Champion|
                #[trigger] key_present(os@, r, c) && !listed(cs, r, c) implies cs.len() == 4 && forall|j: int|
                    0 <= j < 4 ==> key_wins(os@, r, c) <= (#[trigger] cs[j]).stats.wins by {
                let i = choose|i: int| 0 <= i < os@.len() && on_champion(r, c)(#[trigger] os@[i]);
                assert(os@[i].role is Some);
                let k = choose|k: int| 0 <= k < all.len() && (#[trigger] all[k]).role == r && all[k].champion == c;
                if cs.contains(all[k]) {
                    let j = choose|j: int| 0 <= j < cs.len() && cs[j] == all[k];
                    assert(cs[j].role == r && cs[j].champion == c);
                }
                assert(!cs.contains(all[k]));
            }
        }
        Summary { wins: total.wins, losses: total.losses, role, role_stats, champions }
    }

    /// The summary of the summoner's games: in each game, the summoner is the first
    /// player with the PUUID.
    pub fn from_games(puuid: &str, games: &Vec<Game>) -> (s: Summary)
        requires
            all_games_have(games@, puuid@),
            totals_fit(summoner_outcomes(games@, puuid@)),
        ensures
            summarizes(s, summoner_outcomes(games@, puuid@)),
    {
        let ghost target = summoner_outcomes(games@, puuid@);
        let mut os: Vec<Outcome> = Vec::new();
        let mut k: usize = 0;
        while k < games.len()
            invariant
                k <= games@.len(),
                all_games_have(games@, puuid@),
                target == summoner_outcomes(games@, puuid@),
                os@ == target.take(k as int),
            decreases games@.len() - k,
        {
            let game = &games[k];
            assert(has_player(games@[k as int], puuid@));
            match game.player(puuid) {
                Some(p) => {
                    proof {
                        let i = choose|i: int|
                            first_player_with(game.players@, puuid@, i) && *p == #[trigger] game.players@[i];
                        let c = choose|c: int| first_player_with(game.players@, puuid@, c);
                        lemma_first_player_unique(game.players@, puuid@, i, c);
                        assert(summoner_player(*game, puuid@) == *p);
                    }
                    os.push(Outcome::of(p));
                    assert(os@ =~= target.take(k + 1));
                },
                None => {
                    let ghost i = choose|i: int|
                        0 <= i < game.players@.len() && (#[trigger] game.players@[i]).puuid@ == puuid@;
                    assert(game.players@[i].puuid@ != puuid@);
                    assert(false);
                },
            }
            k = k + 1;
        }
        assert(os@ =~= target);
        Summary::from_outcomes(&os)
    }
}

} // verus!
