//! The profile screen's rules: which games a queue filter shows, how player names
//! are shortened, how a game's players split into teams, and the summary of a
//! summoner's recent games.
use vstd::prelude::*;
use crate::game::{Queue, Result, queue_name};
use crate::game::player::Player;
use crate::Team;
use crate::account::RiotId;
use crate::Region;
use crate::summoner::league::{Kind, League, SummonersRift, Tier};

verus! {

/// The queues whose games the timeline shows.
#[derive(Debug, Clone, Copy, PartialEq, Eq, Structural)]
pub enum QueueFilter {
    All,
    Specific(Queue),
}

/// The filters offered in the picker beside the filter buttons.
pub open spec fn alternative_filters() -> Seq<QueueFilter> {
    seq![
        QueueFilter::Specific(Queue::Custom),
        QueueFilter::Specific(Queue::Blind),
        QueueFilter::Specific(Queue::Draft),
        QueueFilter::Specific(Queue::Clash),
        QueueFilter::Specific(Queue::BotIntro),
        QueueFilter::Specific(Queue::BotBeginner),
        QueueFilter::Specific(Queue::BotIntermediate),
    ]
}

/// Whether a filter shows the games of `queue`.
pub open spec fn filter_admits(filter: QueueFilter, queue: Queue) -> bool {
    match filter {
        QueueFilter::All => true,
        QueueFilter::Specific(q) => q == queue,
    }
}

/// The label of a filter.
pub open spec fn filter_label(filter: QueueFilter) -> Seq<char> {
    match filter {
        QueueFilter::All => "All"@,
        QueueFilter::Specific(q) => queue_name(q),
    }
}

impl QueueFilter {
    /// The filter that shows every game.
    pub fn default() -> (f: QueueFilter)
        ensures
            f == QueueFilter::All,
    {
        QueueFilter::All
    }

    /// The filters offered in the picker.
    pub fn alternative() -> (fs: [QueueFilter; 7])
        ensures
            fs@ == alternative_filters(),
    {
        let fs = [
            QueueFilter::Specific(Queue::Custom),
            QueueFilter::Specific(Queue::Blind),
            QueueFilter::Specific(Queue::Draft),
            QueueFilter::Specific(Queue::Clash),
            QueueFilter::Specific(Queue::BotIntro),
            QueueFilter::Specific(Queue::BotBeginner),
            QueueFilter::Specific(Queue::BotIntermediate),
        ];
        assert(fs@ =~= alternative_filters());
        fs
    }

    /// Whether this filter shows the games of `queue`.
    pub fn admits(&self, queue: &Queue) -> (r: bool)
        ensures
            r == filter_admits(*self, *queue),
    {
        match self {
            QueueFilter::All => true,
            QueueFilter::Specific(q) => *q == *queue,
        }
    }

    /// The label of this filter, as its `Display` gives it.
    pub fn to_string(&self) -> (s: String)
        ensures
            s@ == filter_label(*self),
    {
        match self {
            QueueFilter::All => String::from_str("All"),
            QueueFilter::Specific(q) => q.to_string(),
        }
    }
}

/// The filter that shows everything admits every queue; a specific filter admits
/// exactly its own queue.
pub proof fn lemma_filter_admits(filter: QueueFilter, queue: Queue)
    ensures
        filter == QueueFilter::All ==> filter_admits(filter, queue),
        filter_admits(QueueFilter::Specific(queue), queue),
        filter matches QueueFilter::Specific(q) && q != queue ==> !filter_admits(filter, queue),
{
}

/// The number of bytes of `c` in UTF-8.
pub open spec fn char_width(c: char) -> nat {
    if (c as u32) < 0x80 {
        1
    } else if (c as u32) < 0x800 {
        2
    } else if (c as u32) < 0x10000 {
        3
    } else {
        4
    }
}

/// The number of bytes of `s` in UTF-8.
pub open spec fn utf8_len(s: Seq<char>) -> nat
    decreases s.len(),
{
    if s.len() == 0 {
        0
    } else {
        char_width(s[0]) + utf8_len(s.drop_first())
    }
}

/// The number of characters of `s` outside ASCII.
pub open spec fn non_ascii_count(s: Seq<char>) -> nat
    decreases s.len(),
{
    if s.len() == 0 {
        0
    } else {
        (if (s[0] as u32) < 0x80 { 0nat } else { 1nat }) + non_ascii_count(s.drop_first())
    }
}

/// The number of leading characters of `s` whose UTF-8 bytes fit in `n` bytes.
pub open spec fn fitting_chars(s: Seq<char>, n: int) -> nat
    decreases s.len(),
{
    if s.len() == 0 || char_width(s[0]) > n {
        0
    } else {
        1 + fitting_chars(s.drop_first(), n - char_width(s[0]))
    }
}

/// The number of characters kept when `s` is cut at its `max`-th character: the
/// UTF-8 byte offset of that character, taken as a count of characters (at most all
/// of them). For ASCII text this is `max`; each character wider than one byte keeps
/// more.
pub open spec fn truncate_keep(s: Seq<char>, max: nat) -> nat {
    let offset = utf8_len(s.take(max as int));
    if offset < s.len() { offset } else { s.len() }
}

/// `s` shortened at its `max`-th character as above, with an ellipsis, where it has
/// more than `max` characters; `s` itself otherwise.
pub open spec fn truncate_text(s: Seq<char>, max: nat) -> Seq<char> {
    if s.len() > max {
        s.take(truncate_keep(s, max) as int) + "…"@
    } else {
        s
    }
}

/// Cuts `string` at its `max`-th character, keeping as many characters as that
/// character's byte offset, and marks the cut with an ellipsis.
pub fn truncate(string: String, max: usize) -> (r: String)
    ensures
        r@ == truncate_text(string@, max as nat),
{
    let len = string.unicode_len();
    if len > max {
        let ghost s = string@;
        let mut offset: u128 = 0;
        let mut i: usize = 0;
        assert(s.take(0) =~= Seq::<char>::empty());
        while i < max
            invariant
                len == s.len(),
                s == string@,
                max < len,
                i <= max,
                offset == utf8_len(s.take(i as int)),
                offset <= 4 * i,
            decreases max - i,
        {
            let c = string.as_str().get_char(i);
            let w = width_of(c);
            proof {
                lemma_take_utf8(s, i as int);
            }
            offset = offset + w as u128;
            i = i + 1;
        }
        let keep: usize = if offset < len as u128 { offset as usize } else { len };
        let mut r = String::from_str(string.as_str().substring_char(0, keep));
        assert(s.subrange(0, keep as int) =~= s.take(keep as int));
        r.append("…");
        r
    } else {
        string
    }
}

/// The byte budget of a shortened name: `max`, doubled for names in which more
/// than half of `max` characters lie outside ASCII.
pub open spec fn name_budget(s: Seq<char>, max: nat) -> nat {
    if non_ascii_count(s) > max / 2 { max * 2 } else { max }
}

/// A player name shortened to the characters whose UTF-8 bytes fit in the budget
/// (at most the whole name), followed by an ellipsis.
pub open spec fn truncated_text(s: Seq<char>, max: nat) -> Seq<char> {
    let n = if utf8_len(s) < name_budget(s, max) { utf8_len(s) } else { name_budget(s, max) };
    s.take(fitting_chars(s, n as int) as int) + "…"@
}

proof fn lemma_fitting_bounds(s: Seq<char>, n: int)
    ensures
        fitting_chars(s, n) <= s.len(),
        n >= utf8_len(s) ==> fitting_chars(s, n) == s.len(),
    decreases s.len(),
{
    if s.len() > 0 {
        lemma_fitting_bounds(s.drop_first(), n - char_width(s[0]));
    }
}

proof fn lemma_non_ascii_bound(s: Seq<char>)
    ensures
        non_ascii_count(s) <= s.len(),
    decreases s.len(),
{
    if s.len() > 0 {
        lemma_non_ascii_bound(s.drop_first());
    }
}

fn width_of(c: char) -> (w: usize)
    ensures
        w == char_width(c),
{
    let v = c as u32;
    if v < 0x80 {
        1
    } else if v < 0x800 {
        2
    } else if v < 0x10000 {
        3
    } else {
        4
    }
}

/// Shortens a player name to fit a byte budget of `max`, doubled for mostly
/// non-ASCII names, and marks it with an ellipsis.
pub fn truncated(string: String, max: usize) -> (r: String)
    requires
        non_ascii_count(string@) > max / 2 ==> max * 2 <= usize::MAX,
    ensures
        r@ == truncated_text(string@, max as nat),
{
    let len = string.unicode_len();
    let ghost s = string@;
    let mut count: usize = 0;
    let mut i: usize = 0;
    proof {
        lemma_non_ascii_bound(s);
    }
    assert(s.skip(0) =~= s);
    while i < len
        invariant
            len == s.len(),
            s == string@,
            i <= len,
            count + non_ascii_count(s.skip(i as int)) == non_ascii_count(s),
            count <= i,
        decreases len - i,
    {
        proof {
            assert(s.skip(i as int).drop_first() =~= s.skip(i + 1));
            assert(s.skip(i as int)[0] == s[i as int]);
        }
        let c = string.as_str().get_char(i);
        if (c as u32) >= 0x80 {
            count = count + 1;
        }
        i = i + 1;
    }
    assert(s.skip(len as int) =~= Seq::<char>::empty());
    let budget: usize = if count > max / 2 { max * 2 } else { max };
    let mut used: usize = 0;
    let mut k: usize = 0;
    let mut stop = false;
    assert(s.take(0) =~= Seq::<char>::empty());
    while k < len && !stop
        invariant
            len == s.len(),
            s == string@,
            k <= len,
            used <= budget,
            fitting_chars(s, budget as int) == k + fitting_chars(s.skip(k as int), budget - used),
            used == utf8_len(s.take(k as int)),
            stop ==> fitting_chars(s.skip(k as int), budget - used) == 0,
        decreases len - k + (if stop { 0int } else { 1int }),
    {
        let c = string.as_str().get_char(k);
        let w = width_of(c);
        proof {
            assert(s.skip(k as int).drop_first() =~= s.skip(k + 1));
            assert(s.skip(k as int)[0] == s[k as int]);
        }
        if w > budget - used {
            stop = true;
        } else {
            proof {
                lemma_take_utf8(s, k as int);
            }
            used = used + w;
            k = k + 1;
        }
    }
    assert(s.skip(len as int) =~= Seq::<char>::empty());
    assert(fitting_chars(s, budget as int) == k);
    assert(budget == name_budget(s, max as nat));
    proof {
        lemma_fitting_min(s, budget as int);
    }
    assert(s.subrange(0, k as int) =~= s.take(k as int));
    let mut r = String::from_str(string.as_str().substring_char(0, k));
    r.append("…");
    r
}

proof fn lemma_take_utf8(s: Seq<char>, k: int)
    requires
        0 <= k < s.len(),
    ensures
        utf8_len(s.take(k + 1)) == utf8_len(s.take(k)) + char_width(s[k]),
        utf8_len(s.skip(k)) == char_width(s[k]) + utf8_len(s.skip(k + 1)),
    decreases k,
{
    assert(s.skip(k).drop_first() =~= s.skip(k + 1));
    assert(s.skip(k)[0] == s[k]);
    if k > 0 {
        lemma_take_utf8(s.drop_first(), k - 1);
        assert(s.take(k + 1).drop_first() =~= s.drop_first().take(k));
        assert(s.take(k).drop_first() =~= s.drop_first().take(k - 1));
        assert(s.take(k + 1)[0] == s[0]);
        assert(s.take(k)[0] == s[0]);
        assert(s.drop_first()[k - 1] == s[k]);
    } else {
        assert(s.take(1).drop_first() =~= Seq::<char>::empty());
        assert(s.take(1)[0] == s[0]);
        assert(utf8_len(Seq::<char>::empty()) == 0);
        assert(s.take(0) =~= Seq::<char>::empty());
    }
}

proof fn lemma_fitting_min(s: Seq<char>, budget: int)
    ensures
        fitting_chars(s, if utf8_len(s) < budget { utf8_len(s) as int } else { budget })
            == fitting_chars(s, budget),
{
    lemma_fitting_bounds(s, budget);
    lemma_fitting_bounds(s, utf8_len(s) as int);
}


/// A text that is short enough stays as it is; a longer one keeps a prefix of at
/// least `max` characters, followed by one ellipsis.
pub proof fn lemma_truncate_bounds(s: Seq<char>, max: nat)
    ensures
        s.len() <= max ==> truncate_text(s, max) == s,
        s.len() > max ==> max <= truncate_keep(s, max) <= s.len(),
        s.len() > max ==> truncate_text(s, max).drop_last() == s.take(truncate_keep(s, max) as int),
        s.len() > max ==> truncate_text(s, max).last() == '…',
{
    reveal_strlit("…");
    if s.len() > max {
        lemma_utf8_at_least(s.take(max as int));
        assert(truncate_text(s, max).drop_last() =~= s.take(truncate_keep(s, max) as int));
    }
}

/// Each character takes at least one byte.
proof fn lemma_utf8_at_least(s: Seq<char>)
    ensures
        utf8_len(s) >= s.len(),
    decreases s.len(),
{
    if s.len() > 0 {
        lemma_utf8_at_least(s.drop_first());
    }
}

/// A shortened name is a prefix of the name, whose UTF-8 bytes fit in the budget,
/// followed by one ellipsis.
pub proof fn lemma_truncated_prefix(s: Seq<char>, max: nat)
    ensures
        truncated_text(s, max).len() <= s.len() + 1,
        truncated_text(s, max).last() == '…',
        truncated_text(s, max).drop_last() == s.take(truncated_text(s, max).len() - 1),
{
    reveal_strlit("…");
    let n = if utf8_len(s) < name_budget(s, max) { utf8_len(s) } else { name_budget(s, max) };
    lemma_fitting_bounds(s, n as int);
    let k = fitting_chars(s, n as int);
    assert(truncated_text(s, max).drop_last() =~= s.take(k as int));
}

/// The players of one side of a game, by their positions in the game's players.
#[derive(Debug, Clone)]
pub struct TeamPlayers {
    pub id: Team,
    pub result: Result,
    pub players: Vec<usize>,
}

/// The positions, in increasing order, of the first `n` players that play for `team`.
pub open spec fn team_indices(players: Seq<Player>, team: Team, n: int) -> Seq<usize>
    decreases n,
{
    if n <= 0 {
        Seq::empty()
    } else {
        team_indices(players, team, n - 1) + (if players[n - 1].team == team {
            seq![(n - 1) as usize]
        } else {
            Seq::empty()
        })
    }
}

proof fn lemma_team_indices_absent(players: Seq<Player>, team: Team, n: int)
    requires
        0 <= n <= players.len(),
        forall|j: int| 0 <= j < n ==> (#[trigger] players[j]).team != team,
    ensures
        team_indices(players, team, n) == Seq::<usize>::empty(),
    decreases n,
{
    if n > 0 {
        lemma_team_indices_absent(players, team, n - 1);
        assert(team_indices(players, team, n) =~= Seq::<usize>::empty());
    }
}

/// No side appears twice.
#[verifier::opaque]
pub open spec fn teams_distinct(teams: Seq<TeamPlayers>) -> bool {
    forall|a: int, b: int|
        0 <= a < b < teams.len() ==> (#[trigger] teams[a]).id != (#[trigger] teams[b]).id
}

/// Each side lists the positions of its players among the first `n`, in order.
#[verifier::opaque]
pub open spec fn teams_indexed(teams: Seq<TeamPlayers>, players: Seq<Player>, n: int) -> bool {
    forall|g: int|
        0 <= g < teams.len() ==> (#[trigger] teams[g]).players@ == team_indices(players, teams[g].id, n)
}

/// Each side has a player, and the result of its first player.
#[verifier::opaque]
pub open spec fn teams_results(teams: Seq<TeamPlayers>, players: Seq<Player>) -> bool {
    forall|g: int|
        0 <= g < teams.len() ==> (#[trigger] teams[g]).players@.len() > 0 && teams[g].result
            == players[teams[g].players@[0] as int].result
}

/// The side of each of the first `n` players is listed.
#[verifier::opaque]
pub open spec fn teams_complete(teams: Seq<TeamPlayers>, players: Seq<Player>, n: int) -> bool {
    forall|j: int| 0 <= j < n ==> #[trigger] team_listed(teams, players[j].team)
}

/// `team` is the side of one of `teams`.
pub open spec fn team_listed(teams: Seq<TeamPlayers>, team: Team) -> bool {
    exists|g: int| 0 <= g < teams.len() && teams[g].id == team
}

/// `teams` groups the first `n` players by side.
pub open spec fn teams_cover(teams: Seq<TeamPlayers>, players: Seq<Player>, n: int) -> bool {
    &&& teams_distinct(teams)
    &&& teams_indexed(teams, players, n)
    &&& teams_results(teams, players)
    &&& teams_complete(teams, players, n)
}

proof fn lemma_teams_cover_empty(players: Seq<Player>)
    ensures
        teams_cover(Seq::empty(), players, 0),
{
    reveal(teams_distinct);
    reveal(teams_indexed);
    reveal(teams_results);
    reveal(teams_complete);
}

fn find_team(teams: &Vec<TeamPlayers>, team: Team) -> (g: usize)
    ensures
        g <= teams@.len(),
        g < teams@.len() ==> teams@[g as int].id == team,
        forall|h: int| 0 <= h < g ==> (#[trigger] teams@[h]).id != team,
{
    let mut g: usize = 0;
    while g < teams.len()
        invariant
            g <= teams@.len(),
            forall|h: int| 0 <= h < g ==> (#[trigger] teams@[h]).id != team,
        decreases teams@.len() - g,
    {
        if teams[g].id == team {
            return g;
        }
        g = g + 1;
    }
    g
}

proof fn lemma_indices_step(players: Seq<Player>, team: Team, other: Team, i: int)
    requires
        0 <= i < players.len(),
        players[i].team == team,
    ensures
        team_indices(players, team, i + 1) == team_indices(players, team, i).push(i as usize),
        other != team ==> team_indices(players, other, i + 1) == team_indices(players, other, i),
{
    assert(team_indices(players, team, i + 1) =~= team_indices(players, team, i).push(i as usize));
    if other != team {
        assert(team_indices(players, other, i + 1) =~= team_indices(players, other, i));
    }
}

proof fn lemma_cover_existing(
    old_teams: Seq<TeamPlayers>,
    teams: Seq<TeamPlayers>,
    players: Seq<Player>,
    i: int,
    g: int,
)
    requires
        0 <= i < players.len(),
        teams_cover(old_teams, players, i),
        0 <= g < old_teams.len(),
        old_teams[g].id == players[i].team,
        teams.len() == old_teams.len(),
        forall|h: int| 0 <= h < teams.len() && h != g ==> teams[h] == old_teams[h],
        teams[g].id == old_teams[g].id,
        teams[g].result == old_teams[g].result,
        teams[g].players@ == old_teams[g].players@.push(i as usize),
    ensures
        teams_cover(teams, players, i + 1),
{
    let team = players[i].team;
    assert(teams_distinct(teams)) by {
        reveal(teams_distinct);
        assert forall|a: int, b: int| 0 <= a < b < teams.len() implies (#[trigger] teams[a]).id
            != (#[trigger] teams[b]).id by {
            assert(old_teams[a].id != old_teams[b].id);
        }
    }
    assert(teams_indexed(teams, players, i + 1)) by {
        reveal(teams_indexed);
        assert forall|h: int| 0 <= h < teams.len() implies (#[trigger] teams[h]).players@
            == team_indices(players, teams[h].id, i + 1) by {
            lemma_indices_step(players, team, teams[h].id, i);
            assert(old_teams[h].players@ == team_indices(players, old_teams[h].id, i));
            if h != g {
                reveal(teams_distinct);
                if h < g {
                    assert(old_teams[h].id != old_teams[g].id);
                } else {
                    assert(old_teams[g].id != old_teams[h].id);
                }
            }
        }
    }
    assert(teams_results(teams, players)) by {
        reveal(teams_results);
        assert forall|h: int| 0 <= h < teams.len() implies (#[trigger] teams[h]).players@.len() > 0
            && teams[h].result == players[teams[h].players@[0] as int].result by {
            assert(old_teams[h].players@.len() > 0);
            if h == g {
                assert(teams[g].players@[0] == old_teams[g].players@[0]);
            }
        }
    }
    assert(teams_complete(teams, players, i + 1)) by {
        reveal(teams_complete);
        assert forall|j: int| 0 <= j < i + 1 implies #[trigger] team_listed(teams, players[j].team) by {
            if j == i {
                assert(teams[g].id == team);
            } else {
                assert(team_listed(old_teams, players[j].team));
                let h = choose|h: int| 0 <= h < old_teams.len() && old_teams[h].id == players[j].team;
                assert(teams[h].id == old_teams[h].id);
            }
        }
    }
}

proof fn lemma_cover_new(old_teams: Seq<TeamPlayers>, entry: TeamPlayers, players: Seq<Player>, i: int)
    requires
        0 <= i < players.len(),
        i <= usize::MAX,
        teams_cover(old_teams, players, i),
        forall|h: int| 0 <= h < old_teams.len() ==> (#[trigger] old_teams[h]).id != players[i].team,
        entry.id == players[i].team,
        entry.result == players[i].result,
        entry.players@ == seq![i as usize],
    ensures
        teams_cover(old_teams.push(entry), players, i + 1),
{
    let team = players[i].team;
    let teams = old_teams.push(entry);
    assert(teams_distinct(teams)) by {
        reveal(teams_distinct);
        assert forall|a: int, b: int| 0 <= a < b < teams.len() implies (#[trigger] teams[a]).id
            != (#[trigger] teams[b]).id by {
            if b < old_teams.len() {
                assert(old_teams[a].id != old_teams[b].id);
            } else {
                assert(old_teams[a].id != team);
            }
        }
    }
    assert forall|j: int| 0 <= j < i implies (#[trigger] players[j]).team != team by {
        reveal(teams_complete);
        assert(team_listed(old_teams, players[j].team));
        let h = choose|h: int| 0 <= h < old_teams.len() && old_teams[h].id == players[j].team;
        assert(old_teams[h].id != team);
    }
    lemma_team_indices_absent(players, team, i);
    assert(teams_indexed(teams, players, i + 1)) by {
        reveal(teams_indexed);
        assert forall|h: int| 0 <= h < teams.len() implies (#[trigger] teams[h]).players@
            == team_indices(players, teams[h].id, i + 1) by {
            lemma_indices_step(players, team, teams[h].id, i);
            if h == old_teams.len() {
                assert(team_indices(players, team, i).push(i as usize) =~= seq![i as usize]);
            } else {
                assert(old_teams[h].players@ == team_indices(players, old_teams[h].id, i));
            }
        }
    }
    assert(teams_results(teams, players)) by {
        reveal(teams_results);
        assert forall|h: int| 0 <= h < teams.len() implies (#[trigger] teams[h]).players@.len() > 0
            && teams[h].result == players[teams[h].players@[0] as int].result by {
            if h < old_teams.len() {
                assert(teams[h] == old_teams[h]);
                assert(old_teams[h].players@.len() > 0);
            } else {
                assert(teams[h] == entry);
                assert(entry.players@[0] == i as usize);
            }
        }
    }
    assert(teams_complete(teams, players, i + 1)) by {
        reveal(teams_complete);
        assert forall|j: int| 0 <= j < i + 1 implies #[trigger] team_listed(teams, players[j].team) by {
            if j == i {
                assert(teams[old_teams.len() as int].id == team);
            } else {
                assert(team_listed(old_teams, players[j].team));
                let h = choose|h: int| 0 <= h < old_teams.len() && old_teams[h].id == players[j].team;
                assert(teams[h] == old_teams[h]);
            }
        }
    }
}

fn add_to_team(teams: &mut Vec<TeamPlayers>, players: &Vec<Player>, i: usize)
    requires
        i < players@.len(),
        teams_cover(old(teams)@, players@, i as int),
    ensures
        teams_cover(final(teams)@, players@, i + 1),
{
    let team = players[i].team;
    let g = find_team(teams, team);
    let ghost old_teams = teams@;
    if g < teams.len() {
        let mut entry = teams.remove(g);
        entry.players.push(i);
        teams.insert(g, entry);
        proof {
            lemma_cover_existing(old_teams, teams@, players@, i as int, g as int);
        }
    } else {
        let mut members: Vec<usize> = Vec::new();
        members.push(i);
        let entry = TeamPlayers { id: team, result: players[i].result, players: members };
        proof {
            assert(entry.players@ =~= seq![i]);
            lemma_cover_new(old_teams, entry, players@, i as int);
        }
        teams.push(entry);
    }
}

/// The sides of a game, each once, in the order of their first player, each with
/// the positions of its players in order and the result of its first player.
pub fn teams_of(players: &Vec<Player>) -> (teams: Vec<TeamPlayers>)
    ensures
        teams_cover(teams@, players@, players@.len() as int),
{
    let mut teams: Vec<TeamPlayers> = Vec::new();
    let mut i: usize = 0;
    proof {
        lemma_teams_cover_empty(players@);
    }
    while i < players.len()
        invariant
            i <= players@.len(),
            teams_cover(teams@, players@, i as int),
        decreases players@.len() - i,
    {
        add_to_team(&mut teams, players, i);
        i = i + 1;
    }
    teams
}


/// The kills of the players at positions `members`.
pub open spec fn kills_of(players: Seq<Player>, members: Seq<usize>) -> int
    decreases members.len(),
{
    if members.len() == 0 {
        0
    } else {
        kills_of(players, members.drop_last()) + players[members.last() as int].stats.kills
    }
}

/// The kills of a side's players.
pub fn team_kills(players: &Vec<Player>, members: &Vec<usize>) -> (total: u32)
    requires
        forall|j: int| 0 <= j < members@.len() ==> (#[trigger] members@[j]) < players@.len(),
        kills_of(players@, members@) <= u32::MAX,
    ensures
        total == kills_of(players@, members@),
{
    let mut total: u32 = 0;
    let mut j: usize = 0;
    while j < members.len()
        invariant
            j <= members@.len(),
            forall|q: int| 0 <= q < members@.len() ==> (#[trigger] members@[q]) < players@.len(),
            kills_of(players@, members@) <= u32::MAX,
            total == kills_of(players@, members@.take(j as int)),
        decreases members@.len() - j,
    {
        proof {
            assert(members@.take(j + 1).drop_last() =~= members@.take(j as int));
            lemma_kills_prefix(players@, members@, j + 1);
        }
        total = total + players[members[j]].stats.kills;
        j = j + 1;
    }
    assert(members@.take(members@.len() as int) =~= members@);
    total
}

proof fn lemma_kills_prefix(players: Seq<Player>, members: Seq<usize>, k: int)
    requires
        0 <= k <= members.len(),
    ensures
        kills_of(players, members.take(k)) <= kills_of(players, members),
    decreases members.len() - k,
{
    if k < members.len() {
        lemma_kills_prefix(players, members, k + 1);
        assert(members.take(k + 1).drop_last() =~= members.take(k));
    } else {
        assert(members.take(k) =~= members);
    }
}

/// `m` is the most damage that a player dealt (`dealt`) or took (otherwise).
pub open spec fn is_max_damage(players: Seq<Player>, dealt: bool, m: u32) -> bool {
    &&& exists|i: int| 0 <= i < players.len() && damage_of(#[trigger] players[i], dealt) == m
    &&& forall|i: int| 0 <= i < players.len() ==> damage_of(#[trigger] players[i], dealt) <= m
}

pub open spec fn damage_of(p: Player, dealt: bool) -> u32 {
    if dealt {
        p.stats.damage_dealt
    } else {
        p.stats.damage_taken
    }
}

/// The most damage that a player of the game dealt (`dealt`) or took (otherwise).
pub fn max_damage(players: &Vec<Player>, dealt: bool) -> (m: u32)
    requires
        players@.len() > 0,
    ensures
        is_max_damage(players@, dealt, m),
{
    let first = if dealt { players[0].stats.damage_dealt } else { players[0].stats.damage_taken };
    let mut m: u32 = first;
    let mut at: usize = 0;
    let mut i: usize = 1;
    while i < players.len()
        invariant
            1 <= i <= players@.len(),
            at < i,
            damage_of(players@[at as int], dealt) == m,
            forall|j: int| 0 <= j < i ==> damage_of(#[trigger] players@[j], dealt) <= m,
        decreases players@.len() - i,
    {
        let d = if dealt { players[i].stats.damage_dealt } else { players[i].stats.damage_taken };
        if d > m {
            m = d;
            at = i;
        }
        i = i + 1;
    }
    assert(damage_of(players@[at as int], dealt) == m);
    m
}

/// The sides with the summoner's side first, each group in its order.
pub open spec fn summoner_side_first(teams: Seq<TeamPlayers>, side: Team) -> Seq<TeamPlayers> {
    teams.filter(|t: TeamPlayers| t.id == side) + teams.filter(|t: TeamPlayers| t.id != side)
}

/// Puts the summoner's side first, keeping the order of the others.
pub fn order_teams(teams: Vec<TeamPlayers>, side: Team) -> (r: Vec<TeamPlayers>)
    ensures
        r@ == summoner_side_first(teams@, side),
{
    let ghost orig = teams@;
    let mut rest = teams;
    let mut own: Vec<TeamPlayers> = Vec::new();
    let mut others: Vec<TeamPlayers> = Vec::new();
    let ghost mut i: int = 0;
    while rest.len() > 0
        invariant
            0 <= i <= orig.len(),
            rest@ == orig.skip(i),
            own@ == orig.take(i).filter(|t: TeamPlayers| t.id == side),
            others@ == orig.take(i).filter(|t: TeamPlayers| t.id != side),
        decreases rest@.len(),
    {
        let t = rest.remove(0);
        proof {
            assert(orig.take(i + 1) =~= orig.take(i).push(t));
            orig.take(i).lemma_filter_push(t, |x: TeamPlayers| x.id == side);
            orig.take(i).lemma_filter_push(t, |x: TeamPlayers| x.id != side);
            assert(rest@ =~= orig.skip(i + 1));
            i = i + 1;
        }
        if t.id == side {
            own.push(t);
        } else {
            others.push(t);
        }
    }
    assert(orig.take(i) =~= orig);
    own.append(&mut others);
    own
}


/// The positions of the games whose queue the filter admits, in order.
pub open spec fn shown_positions(queues: Seq<Queue>, filter: QueueFilter, n: int) -> Seq<usize>
    decreases n,
{
    if n <= 0 {
        Seq::empty()
    } else {
        shown_positions(queues, filter, n - 1) + (if filter_admits(filter, queues[n - 1]) {
            seq![(n - 1) as usize]
        } else {
            Seq::empty()
        })
    }
}

/// The games (by position) that the timeline shows under `filter`.
pub fn shown_games(queues: &Vec<Queue>, filter: QueueFilter) -> (shown: Vec<usize>)
    ensures
        shown@ == shown_positions(queues@, filter, queues@.len() as int),
{
    let mut shown: Vec<usize> = Vec::new();
    let mut i: usize = 0;
    while i < queues.len()
        invariant
            i <= queues@.len(),
            shown@ == shown_positions(queues@, filter, i as int),
        decreases queues@.len() - i,
    {
        if filter.admits(&queues[i]) {
            shown.push(i);
        }
        proof {
            assert(shown@ =~= shown_positions(queues@, filter, i + 1));
        }
        i = i + 1;
    }
    shown
}

/// The Riot ID to look up when a player's name is pressed: `name#tag` where both parts
/// are known, `None` otherwise.
pub fn full_riot_id(riot_id: &RiotId) -> (r: Option<String>)
    ensures
        match (riot_id.name.deep_view(), riot_id.tagline.deep_view()) {
            (Some(name), Some(tag)) => r matches Some(s) && s@ == name + "#"@ + tag,
            _ => r is None,
        },
{
    match (&riot_id.name, &riot_id.tagline) {
        (Some(name), Some(tag)) => {
            let mut s = name.clone();
            s.append("#");
            s.append(tag.as_str());
            proof {
                reveal_strlit("#");
            }
            Some(s)
        },
        _ => None,
    }
}


/// What the ranked overview shows of a queue: tier, wins and losses.
#[derive(Debug, Clone, Copy)]
pub struct RankedStats {
    pub tier: Tier,
    pub wins: u16,
    pub losses: u16,
}

pub open spec fn is_ranking_for(league: League, queue: SummonersRift) -> bool {
    league.kind == Kind::SummonersRift(queue)
}

/// The first league that ranks `queue`: the overview shows its tier and counts
/// (cut to 16 bits), where it has a tier; nothing where it has none or there is none.
pub open spec fn ranked_stats_spec(leagues: Seq<League>, queue: SummonersRift, r: Option<RankedStats>) -> bool {
    if exists|i: int| 0 <= i < leagues.len() && is_ranking_for(#[trigger] leagues[i], queue) {
        let i = choose|i: int|
            0 <= i < leagues.len() && is_ranking_for(#[trigger] leagues[i], queue) && forall|j: int|
                0 <= j < i ==> !is_ranking_for(#[trigger] leagues[j], queue);
        match leagues[i].tier {
            Some(tier) => r == Some(RankedStats {
                tier,
                wins: leagues[i].wins as u16,
                losses: leagues[i].losses as u16,
            }),
            None => r is None,
        }
    } else {
        r is None
    }
}

/// The ranked overview of `queue`.
pub fn ranked_stats(leagues: &Vec<League>, queue: SummonersRift) -> (r: Option<RankedStats>)
    ensures
        ranked_stats_spec(leagues@, queue, r),
{
    let mut i: usize = 0;
    while i < leagues.len()
        invariant
            i <= leagues@.len(),
            forall|j: int| 0 <= j < i ==> !is_ranking_for(#[trigger] leagues@[j], queue),
        decreases leagues@.len() - i,
    {
        let found = match &leagues[i].kind {
            Kind::SummonersRift(q) => *q == queue,
            _ => false,
        };
        if found {
            proof {
                let c = choose|c: int|
                    0 <= c < leagues@.len() && is_ranking_for(#[trigger] leagues@[c], queue) && forall|j: int|
                        0 <= j < c ==> !is_ranking_for(#[trigger] leagues@[j], queue);
                assert(is_ranking_for(leagues@[i as int], queue));
                if c < i {
                    assert(!is_ranking_for(leagues@[c], queue));
                } else if c > i {
                    assert(!is_ranking_for(leagues@[i as int], queue));
                }
            }
            return match leagues[i].tier {
                Some(tier) => Some(
                    RankedStats {
                        tier,
                        wins: leagues[i].wins as u16,
                        losses: leagues[i].losses as u16,
                    },
                ),
                None => None,
            };
        }
        i = i + 1;
    }
    None
}


/// What the profile screen asks the worker for.
#[derive(Debug, Clone)]
pub enum Request {
    /// A summoner's data, by the Riot ID written `name#tag`, on a region.
    Summoner { riot_id: String, region: Region },
    /// A summoner's games, by PUUID, on a region, ending before a time where given.
    Games { puuid: String, region: Region, end_time: Option<i64> },
}

/// What the profile screen's requests depend on.
#[derive(Debug, Clone)]
pub struct ProfileState {
    pub puuid: String,
    pub region: Region,
    pub queue_filter: QueueFilter,
    pub has_games: bool,
}

/// What happens on the profile screen.
#[derive(Debug, Clone)]
pub enum ProfileEvent {
    QueueFilterChanged(QueueFilter),
    /// More games are asked for, older than a time.
    FetchGames(i64),
    /// A player's name was pressed.
    NamePressed(RiotId),
    /// The summoner's update button was pressed; it holds the summoner's Riot ID.
    UpdatePressed(String),
    SearchRequested { riot_id: String, region: Region },
    /// A summoner's data arrived: its PUUID and how many games it holds.
    DataArrived { puuid: String, games: usize },
    /// More games arrived.
    GamesArrived(usize),
}

/// The state after an event and the request it makes, if any.
pub open spec fn profile_step(s: ProfileState, e: ProfileEvent, t: ProfileState, r: Option<Request>) -> bool {
    match e {
        ProfileEvent::QueueFilterChanged(f) => {
            &&& t == (ProfileState { queue_filter: f, ..s })
            &&& r is None
        },
        ProfileEvent::FetchGames(time) => {
            &&& t == s
            &&& r matches Some(Request::Games { puuid, region, end_time })
            &&& puuid@ == s.puuid@
            &&& region == s.region
            &&& end_time == Some(time)
        },
        ProfileEvent::NamePressed(id) => {
            &&& t == s
            &&& match (id.name.deep_view(), id.tagline.deep_view()) {
                (Some(name), Some(tag)) => {
                    &&& r matches Some(Request::Summoner { riot_id, region })
                    &&& riot_id@ == name + "#"@ + tag
                    &&& region == s.region
                },
                _ => r is None,
            }
        },
        ProfileEvent::UpdatePressed(name) => {
            &&& t == s
            &&& if s.has_games {
                &&& r matches Some(Request::Summoner { riot_id, region })
                &&& riot_id@ == name@
                &&& region == s.region
            } else {
                &&& r matches Some(Request::Games { puuid, region, end_time })
                &&& puuid@ == s.puuid@
                &&& region == s.region
                &&& end_time is None
            }
        },
        ProfileEvent::SearchRequested { riot_id: name, region: to } => {
            &&& t == (ProfileState { region: to, ..s })
            &&& r matches Some(Request::Summoner { riot_id, region })
            &&& riot_id@ == name@
            &&& region == to
        },
        ProfileEvent::DataArrived { puuid, games } => {
            &&& t == (ProfileState { puuid, has_games: games > 0, ..s })
            &&& r is None
        },
        ProfileEvent::GamesArrived(n) => {
            &&& t == (ProfileState { has_games: s.has_games || n > 0, ..s })
            &&& r is None
        },
    }
}

impl ProfileState {
    /// Takes an event: updates the state and gives the request to make, if any.
    pub fn on_event(&mut self, event: ProfileEvent) -> (r: Option<Request>)
        ensures
            profile_step(*old(self), event, *final(self), r),
    {
        match event {
            ProfileEvent::QueueFilterChanged(f) => {
                self.queue_filter = f;
                None
            },
            ProfileEvent::FetchGames(time) => Some(
                Request::Games { puuid: self.puuid.clone(), region: self.region, end_time: Some(time) },
            ),
            ProfileEvent::NamePressed(id) => match full_riot_id(&id) {
                Some(riot_id) => Some(Request::Summoner { riot_id, region: self.region }),
                None => None,
            },
            ProfileEvent::UpdatePressed(name) => {
                if self.has_games {
                    Some(Request::Summoner { riot_id: name, region: self.region })
                } else {
                    Some(Request::Games { puuid: self.puuid.clone(), region: self.region, end_time: None })
                }
            },
            ProfileEvent::SearchRequested { riot_id, region } => {
                self.region = region;
                Some(Request::Summoner { riot_id, region })
            },
            ProfileEvent::DataArrived { puuid, games } => {
                self.puuid = puuid;
                self.has_games = games > 0;
                None
            },
            ProfileEvent::GamesArrived(n) => {
                self.has_games = self.has_games || n > 0;
                None
            },
        }
    }
}

} // verus!
