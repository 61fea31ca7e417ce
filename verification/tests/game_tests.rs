use aery::account::RiotId;
use aery::game::player::{Participant, Player};
use aery::game::rune::{Keystone, Page, Primary, Secondary};
use aery::game::{newest_first, Game, GameMap, Id, Queue, Result, Role};
use aery::{Champion, Team};

fn faker() -> RiotId {
    RiotId::new("Faker", "KR1")
}

fn page() -> Page {
    Page { primary: Primary { keystone: Keystone(8010) }, secondary: Secondary { lesser: [Keystone(8226), Keystone(8237)] } }
}

fn participant(puuid: &str, position: &str) -> Participant {
    Participant {
        puuid: String::from(puuid),
        summoner_name: String::from("Hide on bush"),
        riot_id_game_name: Some(String::from("Faker")),
        riot_id_tagline: Some(String::from("KR1")),
        team_id: 100,
        win: true,
        game_ended_in_early_surrender: false,
        game_ended_in_surrender: false,
        team_position: String::from(position),
        items: [3089, 0, 3020, -1, 3157, 0],
        item6: 3340,
        champion_name: String::from("Annie"),
        summoner1_id: 4,
        summoner2_id: 14,
        rune_page: page(),
        champ_level: 18,
        kills: 10,
        deaths: 2,
        assists: 7,
        total_minions_killed: 250,
        neutral_minions_killed: 12,
        vision_score: 30,
        total_damage_dealt_to_champions: 40000,
        total_damage_taken: 15000,
        gold_earned: 16000,
        vision_wards_bought_in_game: 3,
        wards_placed: 11,
        wards_killed: 4,
    }
}

fn game_at(id: &str, created_at: i64) -> Game {
    Game { id: Id(String::from(id)), queue: Queue::ARAM, created_at, duration: 900, players: Vec::new() }
}

#[test]
fn result_won_and_lost() {
    assert!(Result::Victory.won());
    assert!(!Result::Victory.lost());
    assert!(Result::Defeat.lost());
    assert!(Result::Surrender.lost());
    assert!(!Result::Remake.won());
    assert!(!Result::Remake.lost());
    assert_eq!(Result::from_bool(true), Result::Victory);
    assert_eq!(Result::from_bool(false), Result::Defeat);
}

#[test]
fn role_try_from_reads_team_positions() {
    assert_eq!(Role::try_from("BOTTOM"), Ok(Role::Bottom));
    assert_eq!(Role::try_from("JUNGLE"), Ok(Role::Jungle));
    assert_eq!(Role::try_from("MIDDLE"), Ok(Role::Mid));
    assert_eq!(Role::try_from("UTILITY"), Ok(Role::Support));
    assert_eq!(Role::try_from("TOP"), Ok(Role::Top));
    assert_eq!(Role::try_from("middle"), Err(()));
    assert_eq!(Role::try_from(""), Err(()));
}

#[test]
fn queue_from_id_names_known_queues() {
    assert_eq!(Queue::from_id(0), Queue::Custom);
    assert_eq!(Queue::from_id(400), Queue::Draft);
    assert_eq!(Queue::from_id(420), Queue::RankedSolo);
    assert_eq!(Queue::from_id(430), Queue::Blind);
    assert_eq!(Queue::from_id(440), Queue::RankedFlex);
    assert_eq!(Queue::from_id(450), Queue::ARAM);
    assert_eq!(Queue::from_id(700), Queue::Clash);
    assert_eq!(Queue::from_id(870), Queue::BotIntro);
    assert_eq!(Queue::from_id(880), Queue::BotBeginner);
    assert_eq!(Queue::from_id(890), Queue::BotIntermediate);
}

#[test]
fn queue_from_id_keeps_other_and_unknown_ids() {
    assert_eq!(Queue::from_id(1700), Queue::Other(1700));
    assert_eq!(Queue::from_id(12345), Queue::Unknown(12345));
}

#[test]
fn queue_id_round_trips() {
    for id in [0u16, 400, 420, 430, 440, 450, 700, 870, 880, 890, 1700, 12345] {
        assert_eq!(Queue::from_id(id).id(), id);
    }
}

#[test]
fn queue_names() {
    assert_eq!(Queue::RankedSolo.to_string(), "Ranked Solo");
    assert_eq!(Queue::Blind.name(), "Blind Pick");
    assert_eq!(Queue::BotIntro.to_string(), "Bot (Introduction)");
    assert_eq!(Queue::Other(1700).to_string(), "Event");
    assert_eq!(Queue::Unknown(5).to_string(), "Unknown");
}

#[test]
fn game_id_accepts_any_string() {
    let id = Id::try_from(String::from("KR_123")).unwrap();
    assert_eq!(id.as_string(), "KR_123");
}

#[test]
fn game_dummy_has_ten_players() {
    let game = Game::dummy(faker());
    assert_eq!(game.id.as_string(), "foo");
    assert_eq!(game.queue, Queue::RankedSolo);
    assert_eq!(game.created_at, 1751830754821);
    assert_eq!(game.duration, 2205);
    assert_eq!(game.players.len(), 10);
    let me = &game.players[0];
    assert_eq!(me.puuid, "Faker-KR1");
    assert_eq!(me.team, Team(200));
    assert_eq!(me.role, Some(Role::Top));
    assert_eq!(me.champion, Champion(799));
    assert_eq!(me.result, Result::Victory);
    let herald = &game.players[9];
    assert_eq!(herald.riot_id.name.as_deref(), Some("Rift Herald"));
    assert_eq!(herald.riot_id.tagline.as_deref(), Some("blue"));
    assert_eq!(herald.team, Team(100));
    assert_eq!(herald.result, Result::Defeat);
}

#[test]
fn game_player_finds_the_first_with_the_puuid() {
    let game = Game::dummy(faker());
    let found = game.player("Faker-KR1").unwrap();
    assert_eq!(found.champion, Champion(799));
    assert_eq!(game.player("Krug-blue").unwrap().champion, Champion(9));
    assert!(game.player("nobody").is_none());
}

#[test]
fn player_from_participant_reads_every_field() {
    let p = Player::from_participant(&participant("p1", "MIDDLE"));
    assert_eq!(p.puuid, "p1");
    assert_eq!(p.name, "Hide on bush");
    assert_eq!(p.team, Team(100));
    assert_eq!(p.result, Result::Victory);
    assert_eq!(p.role, Some(Role::Mid));
    assert_eq!(p.champion, Champion(1));
    let items: Vec<Option<usize>> = p.inventory.items.iter().map(|i| i.map(|i| i.0)).collect();
    assert_eq!(items, vec![Some(3089), None, Some(3020), None, Some(3157), None]);
    assert_eq!(p.trinket.0, 3340);
    assert_eq!(p.summoner_spells.first().id(), 4);
    assert_eq!(p.summoner_spells.second().id(), 14);
    assert_eq!(p.stats.kills, 10);
    assert_eq!(p.stats.creep_score, 250);
    assert_eq!(p.stats.wards_removed, 4);
}

#[test]
fn player_result_prefers_remake_then_surrender() {
    let mut p = participant("p", "TOP");
    p.game_ended_in_surrender = true;
    assert_eq!(Player::from_participant(&p).result, Result::Surrender);
    p.game_ended_in_early_surrender = true;
    assert_eq!(Player::from_participant(&p).result, Result::Remake);
    let mut q = participant("q", "");
    q.win = false;
    q.champion_name = String::from("Xyzzy");
    let player = Player::from_participant(&q);
    assert_eq!(player.result, Result::Defeat);
    assert_eq!(player.role, None);
    assert_eq!(player.champion, Champion(0));
}

#[test]
fn game_from_api_converts_duration_and_players() {
    let participants = vec![participant("a", "TOP"), participant("b", "UTILITY")];
    let game = Game::from_api(String::from("EUW1_1"), 420, 1000, 1800, true, &participants);
    assert_eq!(game.queue, Queue::RankedSolo);
    assert_eq!(game.duration, 1800);
    assert_eq!(game.players.len(), 2);
    assert_eq!(game.players[1].role, Some(Role::Support));
    let old = Game::from_api(String::from("EUW1_2"), 450, 1000, 1_800_500, false, &participants);
    assert_eq!(old.duration, 1800);
}

#[test]
fn newest_first_orders_by_creation() {
    let games = vec![game_at("a", 10), game_at("b", 30), game_at("c", 20), game_at("d", -5)];
    let sorted = newest_first(games);
    let ids: Vec<&str> = sorted.iter().map(|g| g.id.as_string().as_str()).collect();
    assert_eq!(ids, vec!["b", "c", "a", "d"]);
}

#[test]
fn newest_first_keeps_every_game() {
    let games = vec![game_at("a", 5), game_at("b", 5), game_at("c", 7)];
    let sorted = newest_first(games);
    assert_eq!(sorted.len(), 3);
    assert_eq!(sorted[0].id.as_string(), "c");
    let mut rest: Vec<&str> = sorted[1..].iter().map(|g| g.id.as_string().as_str()).collect();
    rest.sort();
    assert_eq!(rest, vec!["a", "b"]);
    assert!(newest_first(Vec::new()).is_empty());
}

#[test]
fn game_map_insert_replaces_by_id() {
    let mut map = GameMap::new();
    assert_eq!(map.len(), 0);
    map.insert(Id(String::from("a")), game_at("a", 1));
    map.insert(Id(String::from("b")), game_at("b", 2));
    map.insert(Id(String::from("a")), game_at("a", 3));
    assert_eq!(map.len(), 2);
    let a = map.entries().iter().find(|(id, _)| id.as_string() == "a").unwrap();
    assert_eq!(a.1.created_at, 3);
}

#[test]
fn game_map_from_entries_and_extend() {
    let mut map = GameMap::from_entries(vec![
        (Id(String::from("x")), game_at("x", 1)),
        (Id(String::from("x")), game_at("x", 2)),
    ]);
    assert_eq!(map.len(), 1);
    assert_eq!(map.entries()[0].1.created_at, 2);
    map.extend(vec![(Id(String::from("y")), game_at("y", 9))]);
    assert_eq!(map.len(), 2);
}

#[test]
fn rune_page_from_styles_takes_first_runes() {
    let page = Page::from_styles(&vec![vec![8010, 9111, 9104, 8299], vec![8226, 8237]]);
    assert_eq!(page.primary.keystone(), Keystone(8010));
    assert_eq!(page.secondary.lesser, [Keystone(8226), Keystone(8237)]);
    assert_eq!(page.secondary.keystone(), Keystone(8200));
    let short = Page::from_styles(&vec![vec![8112]]);
    assert_eq!(short.primary.keystone, Keystone(8112));
    assert_eq!(short.secondary.lesser, [Keystone(0), Keystone(0)]);
    assert_eq!(Page::from_styles(&vec![]).primary.keystone, Keystone(0));
}
