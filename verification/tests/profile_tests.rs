use aery::account::RiotId;
use aery::game::{Game, Queue};
use aery::profile::{
    full_riot_id, max_damage, order_teams, ranked_stats, shown_games, team_kills, teams_of, truncate, truncated,
    QueueFilter,
};
use aery::game::Result;
use aery::summoner::league::{Division, Kind, League, SummonersRift, TeamfightTactics, Tier};
use aery::Team;

fn league(kind: Kind, tier: Option<Tier>, wins: u32, losses: u32) -> League {
    League { kind, tier, wins, losses }
}

#[test]
fn queue_filter_default_and_alternatives() {
    assert_eq!(QueueFilter::default(), QueueFilter::All);
    let alternatives = QueueFilter::alternative();
    assert_eq!(alternatives[0], QueueFilter::Specific(Queue::Custom));
    assert_eq!(alternatives[6], QueueFilter::Specific(Queue::BotIntermediate));
}

#[test]
fn queue_filter_admits() {
    assert!(QueueFilter::All.admits(&Queue::Unknown(3)));
    assert!(QueueFilter::Specific(Queue::ARAM).admits(&Queue::ARAM));
    assert!(!QueueFilter::Specific(Queue::ARAM).admits(&Queue::RankedSolo));
    assert_eq!(QueueFilter::All.to_string(), "All");
    assert_eq!(QueueFilter::Specific(Queue::Draft).to_string(), "Draft Pick");
}

#[test]
fn truncate_cuts_long_text() {
    assert_eq!(truncate(String::from("Hello world"), 5), "Hello…");
    assert_eq!(truncate(String::from("Hello"), 5), "Hello");
    assert_eq!(truncate(String::from("가나다라"), 2), "가나다라…");
    assert_eq!(truncate(String::from("éééé"), 2), "éééé…");
    assert_eq!(truncate(String::from("éééééé"), 2), "éééé…");
    assert_eq!(truncate(String::from("éaaaaa"), 2), "éaa…");
    assert_eq!(truncate(String::new(), 0), "");
}

#[test]
fn truncated_counts_bytes_and_always_marks() {
    assert_eq!(truncated(String::from("Faker"), 8), "Faker…");
    assert_eq!(truncated(String::from("Hide on bush"), 8), "Hide on …");
    assert_eq!(truncated(String::from("가나다라마"), 8), "가나다라마…");
    assert_eq!(truncated(String::from("가나다라마바"), 8), "가나다라마…");
    assert_eq!(truncated(String::from("éa"), 1), "é…");
    assert_eq!(truncated(String::from("éa"), 0), "…");
}

#[test]
fn teams_of_dummy_game() {
    let game = Game::dummy(RiotId::new("Faker", "KR1"));
    let teams = teams_of(&game.players);
    assert_eq!(teams.len(), 2);
    assert_eq!(teams[0].id, Team(200));
    assert_eq!(teams[0].players, vec![0, 1, 2, 3, 4]);
    assert_eq!(teams[0].result, Result::Victory);
    assert_eq!(teams[1].id, Team(100));
    assert_eq!(teams[1].players, vec![5, 6, 7, 8, 9]);
    assert_eq!(teams[1].result, Result::Defeat);
    let ordered = order_teams(teams, Team(100));
    assert_eq!(ordered[0].id, Team(100));
    assert_eq!(ordered[1].id, Team(200));
}

#[test]
fn team_kills_and_max_damage() {
    let mut game = Game::dummy(RiotId::new("Faker", "KR1"));
    game.players[3].stats.kills = 10;
    game.players[7].stats.damage_dealt = 50000;
    game.players[2].stats.damage_taken = 1;
    assert_eq!(team_kills(&game.players, &vec![0, 1, 2, 3, 4]), 14);
    assert_eq!(team_kills(&game.players, &vec![]), 0);
    assert_eq!(max_damage(&game.players, true), 50000);
    assert_eq!(max_damage(&game.players, false), 20520);
}

#[test]
fn shown_games_follow_the_filter() {
    let queues = vec![Queue::ARAM, Queue::RankedSolo, Queue::ARAM, Queue::Other(1700)];
    assert_eq!(shown_games(&queues, QueueFilter::All), vec![0, 1, 2, 3]);
    assert_eq!(shown_games(&queues, QueueFilter::Specific(Queue::ARAM)), vec![0, 2]);
    assert_eq!(shown_games(&queues, QueueFilter::Specific(Queue::Clash)), Vec::<usize>::new());
}

#[test]
fn full_riot_id_needs_both_parts() {
    assert_eq!(full_riot_id(&RiotId::new("Faker", "KR1")), Some(String::from("Faker#KR1")));
    assert_eq!(full_riot_id(&RiotId { name: Some(String::from("Faker")), tagline: None }), None);
    assert_eq!(full_riot_id(&RiotId { name: None, tagline: None }), None);
}

#[test]
fn ranked_stats_uses_the_first_league_of_the_queue() {
    let leagues = vec![
        league(Kind::TeamfightTactics(TeamfightTactics::Ranked), Some(Tier::Gold(Division::One(3))), 1, 1),
        league(Kind::SummonersRift(SummonersRift::Solo), Some(Tier::Master(120)), 70_000, 40),
        league(Kind::SummonersRift(SummonersRift::Solo), Some(Tier::Iron(Division::Four(0))), 1, 2),
        league(Kind::SummonersRift(SummonersRift::Flex), None, 5, 5),
    ];
    let solo = ranked_stats(&leagues, SummonersRift::Solo).unwrap();
    assert!(matches!(solo.tier, Tier::Master(120)));
    assert_eq!(solo.wins, (70_000u32 % 65_536) as u16);
    assert_eq!(solo.losses, 40);
    assert!(ranked_stats(&leagues, SummonersRift::Flex).is_none());
    assert!(ranked_stats(&leagues, SummonersRift::TwistedTreeline).is_none());
}

#[test]
fn truncate_matches_byte_offset_precision() {
    for (text, max) in [("Hide on bush", 8), ("가나다라마바사", 3), ("aé가😀bcdefg", 4), ("short", 9), ("", 0)] {
        let string = String::from(text);
        let expected = match string.char_indices().nth(max) {
            None => string.clone(),
            Some((idx, _)) => format!("{string:.idx$}…"),
        };
        assert_eq!(truncate(string, max), expected);
    }
}
