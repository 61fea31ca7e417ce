//! Games: their players, queues and results.
pub mod item;
pub mod player;
pub mod rune;
pub mod team;

use vstd::prelude::*;
use crate::text::str_eq;
use crate::account::RiotId;
use crate::game::player::{Participant, Player, dummy_build};
use crate::{Champion, Team};
use crate::riot::{queue_is_known, riven_queue_is_known};

verus! {

/// The result of a game for a player or a team.
#[derive(Debug, Clone, Copy, PartialEq, Eq, Structural)]
pub enum Result {
    Defeat,
    Remake,
    Surrender,
    Victory,
}

impl Result {
    /// `Victory` for a win, `Defeat` otherwise.
    pub fn from_bool(won: bool) -> (r: Result)
        ensures
            r == (if won { Result::Victory } else { Result::Defeat }),
    {
        if won {
            Result::Victory
        } else {
            Result::Defeat
        }
    }

    pub fn won(&self) -> (r: bool)
        ensures
            r == (*self == Result::Victory),
    {
        *self == Result::Victory
    }

    /// A defeat or a surrender; a remake is neither won nor lost.
    pub fn lost(&self) -> (r: bool)
        ensures
            r == (*self == Result::Defeat || *self == Result::Surrender),
    {
        *self == Result::Defeat || *self == Result::Surrender
    }
}

/// A player's position in a game.
#[derive(Debug, Clone, Copy, PartialEq, Eq, Hash, Structural)]
pub enum Role {
    Bottom,
    Jungle,
    Mid,
    Support,
    Top,
}

/// The role of a team position as the match API names it.
pub open spec fn role_of_position(position: Seq<char>) -> Option<Role> {
    if position == "BOTTOM"@ {
        Some(Role::Bottom)
    } else if position == "JUNGLE"@ {
        Some(Role::Jungle)
    } else if position == "MIDDLE"@ {
        Some(Role::Mid)
    } else if position == "UTILITY"@ {
        Some(Role::Support)
    } else if position == "TOP"@ {
        Some(Role::Top)
    } else {
        None
    }
}

/// The API's name of the team position of a role.
pub open spec fn position_of_role(role: Role) -> Seq<char> {
    match role {
        Role::Bottom => "BOTTOM"@,
        Role::Jungle => "JUNGLE"@,
        Role::Mid => "MIDDLE"@,
        Role::Support => "UTILITY"@,
        Role::Top => "TOP"@,
    }
}

impl Role {
    /// The role of a team position; positions the viewer does not know are refused.
    pub fn try_from(position: &str) -> (r: core::result::Result<Role, ()>)
        ensures
            r is Ok <==> role_of_position(position@) is Some,
            r matches Ok(role) ==> role_of_position(position@) == Some(role),
    {
        if str_eq(position, "BOTTOM") {
            Ok(Role::Bottom)
        } else if str_eq(position, "JUNGLE") {
            Ok(Role::Jungle)
        } else if str_eq(position, "MIDDLE") {
            Ok(Role::Mid)
        } else if str_eq(position, "UTILITY") {
            Ok(Role::Support)
        } else if str_eq(position, "TOP") {
            Ok(Role::Top)
        } else {
            Err(())
        }
    }
}

/// Reading a role's position name gives the role back.
pub proof fn lemma_role_position_round_trip(role: Role)
    ensures
        role_of_position(position_of_role(role)) == Some(role),
{
    reveal_strlit("BOTTOM");
    reveal_strlit("JUNGLE");
    reveal_strlit("MIDDLE");
    reveal_strlit("UTILITY");
    reveal_strlit("TOP");
    assert("BOTTOM"@[0] == 'B' && "JUNGLE"@[0] == 'J' && "MIDDLE"@[0] == 'M');
    assert("UTILITY"@[0] == 'U' && "TOP"@[0] == 'T');
}


/// A matchmaking queue.
#[derive(Debug, Clone, Copy, PartialEq, Eq, Hash, Structural)]
pub enum Queue {
    /// CUSTOM
    Custom,
    /// SUMMONERS_RIFT_5V5_BLIND_PICK
    Blind,
    /// SUMMONERS_RIFT_5V5_DRAFT_PICK
    Draft,
    /// SUMMONERS_RIFT_5V5_RANKED_SOLO
    RankedSolo,
    /// SUMMONERS_RIFT_5V5_RANKED_FLEX
    RankedFlex,
    /// SUMMONERS_RIFT_CLASH
    Clash,
    /// HOWLING_ABYSS_5V5_ARAM
    ARAM,
    BotIntro,
    BotBeginner,
    BotIntermediate,
    /// A queue that the API knows and the viewer shows as an event.
    Other(u16),
    /// A queue id that the API does not know.
    Unknown(u16),
}

/// The API's queue id of a queue.
pub open spec fn queue_id(queue: Queue) -> u16 {
    match queue {
        Queue::Custom => 0,
        Queue::Blind => 430,
        Queue::Draft => 400,
        Queue::RankedSolo => 420,
        Queue::RankedFlex => 440,
        Queue::Clash => 700,
        Queue::ARAM => 450,
        Queue::BotIntro => 870,
        Queue::BotBeginner => 880,
        Queue::BotIntermediate => 890,
        Queue::Other(id) => id,
        Queue::Unknown(id) => id,
    }
}

/// The queue of a queue id, given whether the API knows that id.
pub open spec fn queue_of(id: u16, known: bool) -> Queue {
    if !known {
        Queue::Unknown(id)
    } else if id == 0 {
        Queue::Custom
    } else if id == 430 {
        Queue::Blind
    } else if id == 400 {
        Queue::Draft
    } else if id == 420 {
        Queue::RankedSolo
    } else if id == 440 {
        Queue::RankedFlex
    } else if id == 700 {
        Queue::Clash
    } else if id == 450 {
        Queue::ARAM
    } else if id == 870 {
        Queue::BotIntro
    } else if id == 880 {
        Queue::BotBeginner
    } else if id == 890 {
        Queue::BotIntermediate
    } else {
        Queue::Other(id)
    }
}

/// The ids of the queues that the viewer names.
pub open spec fn is_named_queue_id(id: u16) -> bool {
    id == 0 || id == 400 || id == 420 || id == 430 || id == 440 || id == 450 || id == 700
        || id == 870 || id == 880 || id == 890
}

/// A queue that the conversion from ids can give when the API's knowledge of the
/// id is `known`: named queues are known, `Other` holds a known id the viewer does
/// not name, `Unknown` an id the API does not know.
pub open spec fn queue_consistent(queue: Queue, known: bool) -> bool {
    match queue {
        Queue::Other(id) => known && !is_named_queue_id(id),
        Queue::Unknown(_) => !known,
        _ => known,
    }
}

impl Queue {
    /// The queue of an API queue id.
    pub fn from_id(id: u16) -> (q: Queue)
        ensures
            q == queue_of(id, queue_is_known(id)),
            queue_consistent(q, queue_is_known(id)),
    {
        let known = riven_queue_is_known(id);
        if !known {
            return Queue::Unknown(id);
        }
        if id == 0 {
            Queue::Custom
        } else if id == 430 {
            Queue::Blind
        } else if id == 400 {
            Queue::Draft
        } else if id == 420 {
            Queue::RankedSolo
        } else if id == 440 {
            Queue::RankedFlex
        } else if id == 700 {
            Queue::Clash
        } else if id == 450 {
            Queue::ARAM
        } else if id == 870 {
            Queue::BotIntro
        } else if id == 880 {
            Queue::BotBeginner
        } else if id == 890 {
            Queue::BotIntermediate
        } else {
            Queue::Other(id)
        }
    }

    /// The API queue id of this queue.
    pub fn id(&self) -> (id: u16)
        ensures
            id == queue_id(*self),
    {
        match self {
            Queue::Custom => 0,
            Queue::Blind => 430,
            Queue::Draft => 400,
            Queue::RankedSolo => 420,
            Queue::RankedFlex => 440,
            Queue::Clash => 700,
            Queue::ARAM => 450,
            Queue::BotIntro => 870,
            Queue::BotBeginner => 880,
            Queue::BotIntermediate => 890,
            Queue::Other(id) => *id,
            Queue::Unknown(id) => *id,
        }
    }

    /// The name under which the viewer shows this queue.
    pub fn name(&self) -> (s: &'static str)
        ensures
            s@ == queue_name(*self),
            is_named_queue(*self) ==> s@ == queue_label_of_id(queue_id(*self)),
            forall|q: Queue|
                is_named_queue(*self) && is_named_queue(q) && q != *self ==> #[trigger] queue_name(q) != s@,
    {
        proof {
            if is_named_queue(*self) {
                lemma_queue_names(*self, *self);
                assert forall|q: Queue|
                    is_named_queue(q) && q != *self implies #[trigger] queue_name(q) != queue_name(*self) by {
                    lemma_queue_names(q, *self);
                }
            }
        }
        match self {
            Queue::Custom => "Custom",
            Queue::Blind => "Blind Pick",
            Queue::Draft => "Draft Pick",
            Queue::RankedSolo => "Ranked Solo",
            Queue::RankedFlex => "Ranked Flex",
            Queue::Clash => "Clash",
            Queue::ARAM => "ARAM",
            Queue::BotIntro => "Bot (Introduction)",
            Queue::BotBeginner => "Bot (Beginner)",
            Queue::BotIntermediate => "Bot (Intermediate)",
            Queue::Other(_) => "Event",
            Queue::Unknown(_) => "Unknown",
        }
    }

    /// The queue's name as a `String`, as its `Display` gives it.
    pub fn to_string(&self) -> (s: String)
        ensures
            s@ == queue_name(*self),
            is_named_queue(*self) ==> s@ == queue_label_of_id(queue_id(*self)),
            forall|q: Queue|
                is_named_queue(*self) && is_named_queue(q) && q != *self ==> #[trigger] queue_name(q) != s@,
    {
        String::from_str(self.name())
    }
}

/// The name under which the viewer shows a queue.
pub open spec fn queue_name(queue: Queue) -> Seq<char> {
    match queue {
        Queue::Custom => "Custom"@,
        Queue::Blind => "Blind Pick"@,
        Queue::Draft => "Draft Pick"@,
        Queue::RankedSolo => "Ranked Solo"@,
        Queue::RankedFlex => "Ranked Flex"@,
        Queue::Clash => "Clash"@,
        Queue::ARAM => "ARAM"@,
        Queue::BotIntro => "Bot (Introduction)"@,
        Queue::BotBeginner => "Bot (Beginner)"@,
        Queue::BotIntermediate => "Bot (Intermediate)"@,
        Queue::Other(_) => "Event"@,
        Queue::Unknown(_) => "Unknown"@,
    }
}

/// The label of a matchmaking queue, by the API's queue id: the queues that the
/// viewer names; `Event` for any other id.
pub open spec fn queue_label_of_id(id: u16) -> Seq<char> {
    if id == 0 {
        "Custom"@
    } else if id == 430 {
        "Blind Pick"@
    } else if id == 400 {
        "Draft Pick"@
    } else if id == 420 {
        "Ranked Solo"@
    } else if id == 440 {
        "Ranked Flex"@
    } else if id == 700 {
        "Clash"@
    } else if id == 450 {
        "ARAM"@
    } else if id == 870 {
        "Bot (Introduction)"@
    } else if id == 880 {
        "Bot (Beginner)"@
    } else if id == 890 {
        "Bot (Intermediate)"@
    } else {
        "Event"@
    }
}

/// A queue that the viewer names, not one it shows as an event or an unknown id.
pub open spec fn is_named_queue(q: Queue) -> bool {
    !(q is Other) && !(q is Unknown)
}

/// Two different named queues have different names, and each named queue's name is
/// the label of its API queue id.
pub proof fn lemma_queue_names(a: Queue, b: Queue)
    requires
        is_named_queue(a),
        is_named_queue(b),
    ensures
        a != b ==> queue_name(a) != queue_name(b),
        queue_name(a) == queue_label_of_id(queue_id(a)),
{
    reveal_strlit("Custom");
    assert("Custom"@.len() == 6 && "Custom"@[0] == 'C' && "Custom"@[1] == 'u' && "Custom"@[2] == 's' && "Custom"@[3] == 't' && "Custom"@[4] == 'o' && "Custom"@[5] == 'm');
    reveal_strlit("Blind Pick");
    assert("Blind Pick"@.len() == 10 && "Blind Pick"@[0] == 'B' && "Blind Pick"@[1] == 'l' && "Blind Pick"@[2] == 'i' && "Blind Pick"@[3] == 'n' && "Blind Pick"@[4] == 'd' && "Blind Pick"@[5] == ' ' && "Blind Pick"@[6] == 'P' && "Blind Pick"@[7] == 'i' && "Blind Pick"@[8] == 'c' && "Blind Pick"@[9] == 'k');
    reveal_strlit("Draft Pick");
    assert("Draft Pick"@.len() == 10 && "Draft Pick"@[0] == 'D' && "Draft Pick"@[1] == 'r' && "Draft Pick"@[2] == 'a' && "Draft Pick"@[3] == 'f' && "Draft Pick"@[4] == 't' && "Draft Pick"@[5] == ' ' && "Draft Pick"@[6] == 'P' && "Draft Pick"@[7] == 'i' && "Draft Pick"@[8] == 'c' && "Draft Pick"@[9] == 'k');
    reveal_strlit("Ranked Solo");
    assert("Ranked Solo"@.len() == 11 && "Ranked Solo"@[0] == 'R' && "Ranked Solo"@[1] == 'a' && "Ranked Solo"@[2] == 'n' && "Ranked Solo"@[3] == 'k' && "Ranked Solo"@[4] == 'e' && "Ranked Solo"@[5] == 'd' && "Ranked Solo"@[6] == ' ' && "Ranked Solo"@[7] == 'S' && "Ranked Solo"@[8] == 'o' && "Ranked Solo"@[9] == 'l' && "Ranked Solo"@[10] == 'o');
    reveal_strlit("Ranked Flex");
    assert("Ranked Flex"@.len() == 11 && "Ranked Flex"@[0] == 'R' && "Ranked Flex"@[1] == 'a' && "Ranked Flex"@[2] == 'n' && "Ranked Flex"@[3] == 'k' && "Ranked Flex"@[4] == 'e' && "Ranked Flex"@[5] == 'd' && "Ranked Flex"@[6] == ' ' && "Ranked Flex"@[7] == 'F' && "Ranked Flex"@[8] == 'l' && "Ranked Flex"@[9] == 'e' && "Ranked Flex"@[10] == 'x');
    reveal_strlit("Clash");
    assert("Clash"@.len() == 5 && "Clash"@[0] == 'C' && "Clash"@[1] == 'l' && "Clash"@[2] == 'a' && "Clash"@[3] == 's' && "Clash"@[4] == 'h');
    reveal_strlit("ARAM");
    assert("ARAM"@.len() == 4 && "ARAM"@[0] == 'A' && "ARAM"@[1] == 'R' && "ARAM"@[2] == 'A' && "ARAM"@[3] == 'M');
    reveal_strlit("Bot (Introduction)");
    assert("Bot (Introduction)"@.len() == 18 && "Bot (Introduction)"@[0] == 'B' && "Bot (Introduction)"@[1] == 'o' && "Bot (Introduction)"@[2] == 't' && "Bot (Introduction)"@[3] == ' ' && "Bot (Introduction)"@[4] == '(' && "Bot (Introduction)"@[5] == 'I' && "Bot (Introduction)"@[6] == 'n' && "Bot (Introduction)"@[7] == 't' && "Bot (Introduction)"@[8] == 'r' && "Bot (Introduction)"@[9] == 'o' && "Bot (Introduction)"@[10] == 'd' && "Bot (Introduction)"@[11] == 'u' && "Bot (Introduction)"@[12] == 'c' && "Bot (Introduction)"@[13] == 't' && "Bot (Introduction)"@[14] == 'i' && "Bot (Introduction)"@[15] == 'o' && "Bot (Introduction)"@[16] == 'n' && "Bot (Introduction)"@[17] == ')');
    reveal_strlit("Bot (Beginner)");
    assert("Bot (Beginner)"@.len() == 14 && "Bot (Beginner)"@[0] == 'B' && "Bot (Beginner)"@[1] == 'o' && "Bot (Beginner)"@[2] == 't' && "Bot (Beginner)"@[3] == ' ' && "Bot (Beginner)"@[4] == '(' && "Bot (Beginner)"@[5] == 'B' && "Bot (Beginner)"@[6] == 'e' && "Bot (Beginner)"@[7] == 'g' && "Bot (Beginner)"@[8] == 'i' && "Bot (Beginner)"@[9] == 'n' && "Bot (Beginner)"@[10] == 'n' && "Bot (Beginner)"@[11] == 'e' && "Bot (Beginner)"@[12] == 'r' && "Bot (Beginner)"@[13] == ')');
    reveal_strlit("Bot (Intermediate)");
    assert("Bot (Intermediate)"@.len() == 18 && "Bot (Intermediate)"@[0] == 'B' && "Bot (Intermediate)"@[1] == 'o' && "Bot (Intermediate)"@[2] == 't' && "Bot (Intermediate)"@[3] == ' ' && "Bot (Intermediate)"@[4] == '(' && "Bot (Intermediate)"@[5] == 'I' && "Bot (Intermediate)"@[6] == 'n' && "Bot (Intermediate)"@[7] == 't' && "Bot (Intermediate)"@[8] == 'e' && "Bot (Intermediate)"@[9] == 'r' && "Bot (Intermediate)"@[10] == 'm' && "Bot (Intermediate)"@[11] == 'e' && "Bot (Intermediate)"@[12] == 'd' && "Bot (Intermediate)"@[13] == 'i' && "Bot (Intermediate)"@[14] == 'a' && "Bot (Intermediate)"@[15] == 't' && "Bot (Intermediate)"@[16] == 'e' && "Bot (Intermediate)"@[17] == ')');
}

/// Converting an id to a queue and back gives the id, whatever the API knows of it.
pub proof fn lemma_queue_id_round_trip(id: u16, known: bool)
    ensures
        queue_id(queue_of(id, known)) == id,
{
}

/// Converting a queue to its id and back gives the queue, for every queue that the
/// conversion from ids can give.
pub proof fn lemma_queue_round_trip(queue: Queue, known: bool)
    requires
        queue_consistent(queue, known),
    ensures
        queue_of(queue_id(queue), known) == queue,
{
}

/// The id of a game.
#[derive(Debug, Clone, PartialEq, Eq, Hash)]
pub struct Id(pub String);

impl View for Id {
    type V = Seq<char>;

    open spec fn view(&self) -> Seq<char> {
        self.0@
    }
}

impl Id {
    /// Every string is accepted as a game id.
    pub fn try_from(value: String) -> (r: core::result::Result<Id, ()>)
        ensures
            r == Ok::<Id, ()>(Id(value)),
    {
        Ok(Id(value))
    }

    pub fn as_string(&self) -> (s: &String)
        ensures
            *s == self.0,
    {
        &self.0
    }
}

/// A game as the viewer keeps it. `created_at` is a Unix time in milliseconds,
/// `duration` a length in seconds.
#[derive(Debug, Clone)]
pub struct Game {
    pub id: Id,
    pub queue: Queue,
    pub created_at: i64,
    pub duration: i64,
    pub players: Vec<Player>,
}

/// Whole seconds in a number of milliseconds, rounded toward zero.
pub open spec fn whole_seconds_of_millis(millis: int) -> int {
    if millis >= 0 {
        millis / 1000
    } else {
        -((-millis) / 1000)
    }
}

/// The length in seconds of a game whose API duration is `duration`: the API gives
/// seconds for games that have an end timestamp and milliseconds for older ones.
pub open spec fn game_seconds(duration: i64, has_end_timestamp: bool) -> int {
    if has_end_timestamp {
        duration as int
    } else {
        whole_seconds_of_millis(duration as int)
    }
}

/// The index of the first player with this PUUID.
pub open spec fn first_player_with(players: Seq<Player>, puuid: Seq<char>, i: int) -> bool {
    &&& 0 <= i < players.len()
    &&& players[i].puuid@ == puuid
    &&& forall|j: int| 0 <= j < i ==> (#[trigger] players[j]).puuid@ != puuid
}

/// The made-up players' Riot ID names, from the second player on.
pub open spec fn roster_name(i: int) -> Seq<char> {
    if i == 1 {
        "Brambleback"@
    } else if i == 2 {
        "Gromp"@
    } else if i == 3 {
        "Murk Wolf"@
    } else if i == 4 {
        "Rift Scuttler"@
    } else if i == 5 {
        "Sentinel"@
    } else if i == 6 {
        "Krug"@
    } else if i == 7 {
        "Raptor"@
    } else if i == 8 {
        "Voidmite"@
    } else {
        "Rift Herald"@
    }
}

/// The made-up players' champions.
pub open spec fn roster_champion(i: int) -> u32 {
    if i == 0 {
        799
    } else if i == 1 {
        233
    } else if i == 2 {
        800
    } else if i == 3 {
        901
    } else if i == 4 {
        902
    } else if i == 5 {
        14
    } else if i == 6 {
        9
    } else if i == 7 {
        1
    } else if i == 8 {
        22
    } else {
        12
    }
}

/// The made-up players' roles: top, jungle, mid, bottom and support on each side.
pub open spec fn roster_role(i: int) -> Role {
    let k = i % 5;
    if k == 0 {
        Role::Top
    } else if k == 1 {
        Role::Jungle
    } else if k == 2 {
        Role::Mid
    } else if k == 3 {
        Role::Bottom
    } else {
        Role::Support
    }
}

/// The `i`-th made-up player of a game whose first player has `riot_id`: the red
/// side won against the blue side.
pub open spec fn roster_player(p: Player, i: int, riot_id: RiotId) -> bool {
    &&& dummy_build(
        p,
        if i < 5 { Team(200) } else { Team(100) },
        roster_role(i),
        Champion(roster_champion(i)),
        if i < 5 { Result::Victory } else { Result::Defeat },
    )
    &&& i == 0 ==> p.riot_id == riot_id
    &&& i > 0 ==> p.riot_id.name.deep_view() == Some(roster_name(i))
    &&& i > 0 ==> p.riot_id.tagline.deep_view() == Some(if i < 5 { "red"@ } else { "blue"@ })
}

fn roster_entry(i: usize, riot_id: &RiotId) -> (p: Player)
    requires
        i < 10,
    ensures
        roster_player(p, i as int, *riot_id),
{
    let (name, team, role, champion) = match i {
        1 => ("Brambleback", Team(200), Role::Jungle, 233),
        2 => ("Gromp", Team(200), Role::Mid, 800),
        3 => ("Murk Wolf", Team(200), Role::Bottom, 901),
        4 => ("Rift Scuttler", Team(200), Role::Support, 902),
        5 => ("Sentinel", Team(100), Role::Top, 14),
        6 => ("Krug", Team(100), Role::Jungle, 9),
        7 => ("Raptor", Team(100), Role::Mid, 1),
        8 => ("Voidmite", Team(100), Role::Bottom, 22),
        9 => ("Rift Herald", Team(100), Role::Support, 12),
        _ => ("", Team(200), Role::Top, 799),
    };
    let result = if i < 5 { Result::Victory } else { Result::Defeat };
    let id = if i == 0 {
        riot_id.duplicate()
    } else {
        RiotId::new(name, if i < 5 { "red" } else { "blue" })
    };
    Player::dummy(id, team, role, Champion(champion), result)
}

impl Game {
    /// A made-up ranked solo game for showing the viewer without the API: the
    /// player with `riot_id` plays top for the red side, which wins.
    pub fn dummy(riot_id: RiotId) -> (g: Game)
        ensures
            g.id.0@ == "foo"@,
            g.queue == Queue::RankedSolo,
            g.created_at == 1751830754821,
            g.duration == 2205,
            g.players@.len() == 10,
            forall|i: int| 0 <= i < 10 ==> roster_player(#[trigger] g.players@[i], i, riot_id),
    {
        let mut players: Vec<Player> = Vec::new();
        let mut i: usize = 0;
        while i < 10
            invariant
                i <= 10,
                players@.len() == i,
                forall|j: int| 0 <= j < i ==> roster_player(#[trigger] players@[j], j, riot_id),
            decreases 10 - i,
        {
            players.push(roster_entry(i, &riot_id));
            i = i + 1;
        }
        Game {
            id: Id(String::from_str("foo")),
            queue: Queue::RankedSolo,
            created_at: 1751830754821,
            duration: 2205,
            players,
        }
    }

    /// The first player of the game with this PUUID.
    pub fn player(&self, puuid: &str) -> (r: Option<&Player>)
        ensures
            r is None <==> forall|i: int|
                0 <= i < self.players@.len() ==> (#[trigger] self.players@[i]).puuid@ != puuid@,
            r matches Some(p) ==> exists|i: int|
                first_player_with(self.players@, puuid@, i) && *p == #[trigger] self.players@[i],
    {
        let mut i: usize = 0;
        while i < self.players.len()
            invariant
                i <= self.players@.len(),
                forall|j: int| 0 <= j < i ==> (#[trigger] self.players@[j]).puuid@ != puuid@,
            decreases self.players@.len() - i,
        {
            if str_eq(self.players[i].puuid.as_str(), puuid) {
                assert(first_player_with(self.players@, puuid@, i as int));
                return Some(&self.players[i]);
            }
            i = i + 1;
        }
        None
    }

    /// The game that the match API describes by these fields.
    pub fn from_api(
        id: String,
        queue_id: u16,
        game_creation: i64,
        game_duration: i64,
        has_end_timestamp: bool,
        participants: &Vec<Participant>,
    ) -> (g: Game)
        ensures
            g.id.0 == id,
            g.queue == queue_of(queue_id, queue_is_known(queue_id)),
            g.created_at == game_creation,
            g.duration == game_seconds(game_duration, has_end_timestamp),
            g.players@.len() == participants@.len(),
            forall|i: int|
                0 <= i < participants@.len() ==> crate::game::player::player_of(
                    #[trigger] participants@[i],
                    g.players@[i],
                ),
            forall|i: int|
                0 <= i < participants@.len() ==> crate::game::player::counters_read(
                    #[trigger] participants@[i],
                    g.players@[i],
                ),
    {
        let queue = Queue::from_id(queue_id);
        let duration = if has_end_timestamp {
            game_duration
        } else {
            game_duration / 1000
        };
        let mut players: Vec<Player> = Vec::new();
        let mut i: usize = 0;
        while i < participants.len()
            invariant
                i <= participants@.len(),
                players@.len() == i,
                forall|j: int|
                    0 <= j < i ==> crate::game::player::player_of(
                        #[trigger] participants@[j],
                        players@[j],
                    ),
                forall|j: int|
                    0 <= j < i ==> crate::game::player::counters_read(
                        #[trigger] participants@[j],
                        players@[j],
                    ),
            decreases participants@.len() - i,
        {
            players.push(Player::from_participant(&participants[i]));
            i = i + 1;
        }
        Game { id: Id(id), queue, created_at: game_creation, duration, players }
    }
}


/// No two entries share an id.
pub open spec fn keys_distinct(entries: Seq<(Id, Game)>) -> bool {
    forall|i: int, j: int|
        0 <= i < j < entries.len() ==> (#[trigger] entries[i]).0@ != (#[trigger] entries[j]).0@
}

/// The map that a sequence of entries gives, later entries replacing earlier ones.
pub open spec fn entries_map(entries: Seq<(Id, Game)>) -> Map<Seq<char>, Game>
    decreases entries.len(),
{
    if entries.len() == 0 {
        Map::empty()
    } else {
        entries_map(entries.drop_last()).insert(entries.last().0@, entries.last().1)
    }
}

/// The map `m` after inserting `items` in order.
pub open spec fn insert_all(m: Map<Seq<char>, Game>, items: Seq<(Id, Game)>) -> Map<Seq<char>, Game>
    decreases items.len(),
{
    if items.len() == 0 {
        m
    } else {
        insert_all(m, items.drop_last()).insert(items.last().0@, items.last().1)
    }
}

proof fn lemma_entries_map_dom(entries: Seq<(Id, Game)>)
    requires
        keys_distinct(entries),
    ensures
        entries_map(entries).dom().finite(),
        entries_map(entries).dom().len() == entries.len(),
        forall|k: Seq<char>|
            entries_map(entries).contains_key(k) <==> exists|i: int|
                0 <= i < entries.len() && (#[trigger] entries[i]).0@ == k,
        forall|i: int|
            0 <= i < entries.len() ==> entries_map(entries)[(#[trigger] entries[i]).0@]
                == entries[i].1,
    decreases entries.len(),
{
    if entries.len() > 0 {
        let d = entries.drop_last();
        assert(keys_distinct(d));
        lemma_entries_map_dom(d);
        let last = entries.last();
        assert(!entries_map(d).contains_key(last.0@)) by {
            if entries_map(d).contains_key(last.0@) {
                let i = choose|i: int| 0 <= i < d.len() && (#[trigger] d[i]).0@ == last.0@;
                assert(entries[i] == d[i]);
                assert(entries[entries.len() - 1] == last);
            }
        }
        assert forall|k: Seq<char>|
            entries_map(entries).contains_key(k) implies exists|i: int|
                0 <= i < entries.len() && (#[trigger] entries[i]).0@ == k by {
            if k == last.0@ {
                assert(entries[entries.len() - 1].0@ == k);
            } else {
                let i = choose|i: int| 0 <= i < d.len() && (#[trigger] d[i]).0@ == k;
                assert(entries[i] == d[i]);
            }
        }
        assert forall|k: Seq<char>|
            (exists|i: int| 0 <= i < entries.len() && (#[trigger] entries[i]).0@ == k) implies
            entries_map(entries).contains_key(k) by {
            let i = choose|i: int| 0 <= i < entries.len() && (#[trigger] entries[i]).0@ == k;
            if i < entries.len() - 1 {
                assert(d[i] == entries[i]);
            }
        }
        assert forall|i: int| 0 <= i < entries.len() implies entries_map(entries)[(
        #[trigger] entries[i]).0@] == entries[i].1 by {
            if i < entries.len() - 1 {
                assert(d[i] == entries[i]);
                assert(entries[i].0@ != last.0@);
            }
        }
    }
}

proof fn lemma_entries_map_update(entries: Seq<(Id, Game)>, j: int, item: (Id, Game))
    requires
        keys_distinct(entries),
        0 <= j < entries.len(),
        entries[j].0@ == item.0@,
    ensures
        keys_distinct(entries.update(j, item)),
        entries_map(entries.update(j, item)) == entries_map(entries).insert(item.0@, item.1),
    decreases entries.len(),
{
    let u = entries.update(j, item);
    assert forall|a: int, b: int| 0 <= a < b < u.len() implies (#[trigger] u[a]).0@ != (
    #[trigger] u[b]).0@ by {
        assert(entries[a].0@ != entries[b].0@);
    }
    let d = entries.drop_last();
    if j == entries.len() - 1 {
        assert(u.drop_last() =~= d);
        assert(entries_map(u) =~= entries_map(entries).insert(item.0@, item.1));
    } else {
        assert(u.drop_last() =~= d.update(j, item));
        assert(keys_distinct(d));
        lemma_entries_map_update(d, j, item);
        assert(entries.last().0@ != item.0@) by {
            assert(entries[j].0@ != entries[entries.len() - 1].0@);
        }
        assert(u.last() == entries.last());
        assert(entries_map(u) =~= entries_map(entries).insert(item.0@, item.1));
    }
}

/// The games are ordered by creation, the most recent first.
pub open spec fn newest_first_order(games: Seq<Game>) -> bool {
    forall|a: int, b: int| 0 <= a < b < games.len() ==> (#[trigger] games[a]).created_at >= (#[trigger] games[b]).created_at
}

/// The games, the most recently created first; games created at the same moment may
/// come in any order.
pub fn newest_first(games: Vec<Game>) -> (r: Vec<Game>)
    ensures
        r@.to_multiset() == games@.to_multiset(),
        newest_first_order(r@),
{
    broadcast use vstd::multiset::group_multiset_axioms, vstd::multiset::group_multiset_properties, vstd::seq_lib::group_to_multiset_ensures;

    let ghost orig = games@;
    let mut rest = games;
    let mut out: Vec<Game> = Vec::new();
    assert(out@.to_multiset() =~= vstd::multiset::Multiset::empty());
    assert(out@.to_multiset().add(rest@.to_multiset()) =~= orig.to_multiset());
    while rest.len() > 0
        invariant
            out@.to_multiset().add(rest@.to_multiset()) == orig.to_multiset(),
            newest_first_order(out@),
        decreases rest@.len(),
    {
        let last = rest.len() - 1;
        let ghost before = rest@;
        let g = rest.remove(last);
        let mut p: usize = 0;
        while p < out.len() && out[p].created_at >= g.created_at
            invariant
                p <= out@.len(),
                forall|k: int| 0 <= k < p ==> (#[trigger] out@[k]).created_at >= g.created_at,
            decreases out@.len() - p,
        {
            p = p + 1;
        }
        let ghost shorter = out@;
        out.insert(p, g);
        proof {
            assert(before[before.len() - 1] == g);
            assert(before.contains(g));
            vstd::seq_lib::to_multiset_contains(before, g);
            assert(before.to_multiset().count(g) > 0);
            assert(rest@ == before.remove(before.len() - 1));
            vstd::seq_lib::to_multiset_remove(before, before.len() - 1);
            vstd::seq_lib::to_multiset_insert(shorter, p as int, g);
            assert(rest@.to_multiset() == before.to_multiset().remove(g));
            assert(out@ == shorter.insert(p as int, g));
            assert(out@.to_multiset() == shorter.to_multiset().insert(g));
            assert(out@.to_multiset().add(rest@.to_multiset()) =~= orig.to_multiset());
            assert forall|a: int, b: int| 0 <= a < b < out@.len() implies (#[trigger] out@[a]).created_at
                >= (#[trigger] out@[b]).created_at by {
                if b < p {
                    assert(out@[a] == shorter[a] && out@[b] == shorter[b]);
                } else if b == p {
                    assert(out@[a] == shorter[a]);
                } else if a < p {
                    assert(out@[a] == shorter[a] && out@[b] == shorter[b - 1]);
                    assert(shorter[b - 1].created_at < g.created_at || shorter[a].created_at >= shorter[b - 1].created_at);
                } else if a == p {
                    assert(out@[b] == shorter[b - 1]);
                    assert(shorter[p as int].created_at < g.created_at);
                } else {
                    assert(out@[a] == shorter[a - 1] && out@[b] == shorter[b - 1]);
                }
            }
        }
    }
    assert(rest@ =~= Seq::<Game>::empty());
    assert(out@.to_multiset().add(rest@.to_multiset()) =~= out@.to_multiset());
    out
}

/// Games keyed by their ids; inserting a game under an id it already holds replaces it.
#[derive(Debug)]
pub struct GameMap {
    entries: Vec<(Id, Game)>,
}

impl View for GameMap {
    type V = Map<Seq<char>, Game>;

    closed spec fn view(&self) -> Map<Seq<char>, Game> {
        entries_map(self.entries@)
    }
}

impl GameMap {
    #[verifier::type_invariant]
    spec fn well_formed(self) -> bool {
        keys_distinct(self.entries@)
    }

    /// The empty map.
    pub fn new() -> (m: GameMap)
        ensures
            m@ == Map::<Seq<char>, Game>::empty(),
    {
        GameMap { entries: Vec::new() }
    }

    /// The number of games.
    pub fn len(&self) -> (n: usize)
        ensures
            n == self@.dom().len(),
            self@.dom().finite(),
    {
        proof {
            use_type_invariant(self);
            lemma_entries_map_dom(self.entries@);
        }
        self.entries.len()
    }

    /// The games with their ids, each once, in no particular order.
    pub fn entries(&self) -> (r: &Vec<(Id, Game)>)
        ensures
            r@.len() == self@.dom().len(),
            keys_distinct(r@),
            forall|i: int|
                0 <= i < r@.len() ==> self@.contains_key((#[trigger] r@[i]).0@) && self@[r@[i].0@]
                    == r@[i].1,
            forall|k: Seq<char>|
                self@.contains_key(k) ==> exists|i: int|
                    0 <= i < r@.len() && (#[trigger] r@[i]).0@ == k,
    {
        proof {
            use_type_invariant(self);
            lemma_entries_map_dom(self.entries@);
        }
        &self.entries
    }

    /// Puts `game` under `id`, replacing what the map held there.
    pub fn insert(&mut self, id: Id, game: Game)
        ensures
            final(self)@ == old(self)@.insert(id@, game),
    {
        proof {
            use_type_invariant(&*self);
        }
        let mut entries: Vec<(Id, Game)> = Vec::new();
        std::mem::swap(&mut entries, &mut self.entries);
        let ghost before = entries@;
        let mut j: usize = 0;
        while j < entries.len()
            invariant
                entries@ == before,
                before == old(self).entries@,
                keys_distinct(before),
                j <= entries@.len(),
                forall|i: int| 0 <= i < j ==> (#[trigger] before[i]).0@ != id@,
            decreases entries@.len() - j,
        {
            if entries[j].0.0 == id.0 {
                let ghost item = (id, game);
                proof {
                    lemma_entries_map_update(before, j as int, item);
                }
                entries.set(j, (id, game));
                self.entries = entries;
                return;
            }
            j = j + 1;
        }
        let ghost item = (id, game);
        entries.push((id, game));
        proof {
            assert(entries@.drop_last() =~= before);
            assert(keys_distinct(entries@)) by {
                assert forall|a: int, b: int|
                    0 <= a < b < entries@.len() implies (#[trigger] entries@[a]).0@ != (
                #[trigger] entries@[b]).0@ by {
                    if b < before.len() {
                        assert(entries@[a] == before[a] && entries@[b] == before[b]);
                    } else {
                        assert(entries@[a] == before[a]);
                    }
                }
            }
        }
        self.entries = entries;
    }

    /// Inserts the games in order, later ones replacing earlier ones under the same id.
    pub fn extend(&mut self, items: Vec<(Id, Game)>)
        ensures
            final(self)@ == insert_all(old(self)@, items@),
    {
        let ghost start = self@;
        let mut i: usize = 0;
        let mut items = items;
        let ghost all = items@;
        let n = items.len();
        while i < n
            invariant
                self@ == insert_all(start, all.take(i as int)),
                n == all.len(),
                i <= n,
                items@.len() == n - i,
                items@ == all.subrange(i as int, n as int),
            decreases n - i,
        {
            let (id, game) = items.remove(0);
            assert(all.take(i + 1).drop_last() =~= all.take(i as int));
            self.insert(id, game);
            i = i + 1;
        }
        assert(all.take(all.len() as int) =~= all);
    }

    /// The map of the given games, later ones replacing earlier ones under the same id.
    pub fn from_entries(items: Vec<(Id, Game)>) -> (m: GameMap)
        ensures
            m@ == insert_all(Map::empty(), items@),
    {
        let mut m = GameMap::new();
        m.extend(items);
        m
    }
}

} // verus!
