use aery::account::RiotId;
use aery::game::{Game, Result, Role};
use aery::summary::{choose_role, rank_champions, ChampionStats, Outcome, RoleStats, Summary};
use aery::Champion;

fn outcome(result: Result, role: Option<Role>, champion: u32) -> Outcome {
    Outcome { result, role, champion: Champion(champion), kills: 2, deaths: 1, assists: 3 }
}

#[test]
fn summary_of_dummy_games() {
    let games = vec![
        Game::dummy(RiotId::new("Faker", "KR1")),
        Game::dummy(RiotId::new("Faker", "KR1")),
        Game::dummy(RiotId::new("Faker", "KR1")),
    ];
    let summary = Summary::from_games("Faker-KR1", &games);
    assert_eq!(summary.wins, 3);
    assert_eq!(summary.losses, 0);
    assert_eq!(summary.role, Role::Top);
    assert_eq!(summary.role_stats, RoleStats { wins: 3, losses: 0, kills: 3, deaths: 18, assists: 36 });
    assert_eq!(summary.champions.len(), 1);
    assert_eq!(summary.champions[0].role, Role::Top);
    assert_eq!(summary.champions[0].champion, Champion(799));
    assert_eq!(summary.champions[0].stats.wins, 3);
}

#[test]
fn summary_of_an_opponent_in_the_same_games() {
    let games = vec![Game::dummy(RiotId::new("Faker", "KR1"))];
    let summary = Summary::from_games("Krug-blue", &games);
    assert_eq!(summary.wins, 0);
    assert_eq!(summary.losses, 1);
    assert_eq!(summary.role, Role::Jungle);
    assert_eq!(summary.champions[0].champion, Champion(9));
}

#[test]
fn summary_picks_the_role_and_champions_with_most_wins() {
    let outcomes = vec![
        outcome(Result::Victory, Some(Role::Mid), 1),
        outcome(Result::Victory, Some(Role::Mid), 1),
        outcome(Result::Defeat, Some(Role::Top), 2),
        outcome(Result::Victory, Some(Role::Top), 3),
        outcome(Result::Remake, None, 4),
        outcome(Result::Surrender, Some(Role::Jungle), 5),
        outcome(Result::Victory, Some(Role::Bottom), 6),
    ];
    let summary = Summary::from_outcomes(&outcomes);
    assert_eq!(summary.wins, 4);
    assert_eq!(summary.losses, 2);
    assert_eq!(summary.role, Role::Mid);
    assert_eq!(summary.role_stats, RoleStats { wins: 2, losses: 0, kills: 4, deaths: 2, assists: 6 });
    let champions = &summary.champions;
    assert_eq!(champions.len(), 4);
    assert_eq!((champions[0].role, champions[0].champion, champions[0].stats.wins), (Role::Mid, Champion(1), 2));
    assert_eq!(champions[1].stats.wins, 1);
    assert_eq!(champions[2].stats.wins, 1);
    assert_eq!(champions[3].stats.wins, 0);
    let mut middle = vec![champions[1].champion.0, champions[2].champion.0];
    middle.sort();
    assert_eq!(middle, vec![3, 6]);
}

#[test]
fn summary_without_roles_defaults_to_mid() {
    let outcomes = vec![outcome(Result::Victory, None, 1), outcome(Result::Defeat, None, 2)];
    let summary = Summary::from_outcomes(&outcomes);
    assert_eq!(summary.wins, 1);
    assert_eq!(summary.losses, 1);
    assert_eq!(summary.role, Role::Mid);
    assert_eq!(summary.role_stats, RoleStats::zero());
    assert!(summary.champions.is_empty());
    let empty = Summary::from_outcomes(&Vec::new());
    assert_eq!((empty.wins, empty.losses, empty.role), (0, 0, Role::Mid));
}

#[test]
fn role_with_no_wins_is_still_chosen_when_played() {
    let outcomes = vec![outcome(Result::Defeat, Some(Role::Support), 40)];
    let (role, stats) = choose_role(&outcomes);
    assert_eq!(role, Role::Support);
    assert_eq!(stats.losses, 1);
}

#[test]
fn rank_champions_keeps_at_most_four() {
    let stat = |wins: usize| RoleStats { wins, losses: 0, kills: 0, deaths: 0, assists: 0 };
    let all: Vec<ChampionStats> = (0..6u32)
        .map(|i| ChampionStats { role: Role::Top, champion: Champion(i), stats: stat(i as usize) })
        .collect();
    let top = rank_champions(all);
    let ids: Vec<u32> = top.iter().map(|c| c.champion.0).collect();
    assert_eq!(ids, vec![5, 4, 3, 2]);
    let two = rank_champions(vec![
        ChampionStats { role: Role::Mid, champion: Champion(1), stats: stat(0) },
        ChampionStats { role: Role::Mid, champion: Champion(2), stats: stat(9) },
    ]);
    assert_eq!(two.iter().map(|c| c.champion.0).collect::<Vec<_>>(), vec![2, 1]);
}

#[test]
fn summary_counts_each_game_at_most_once() {
    let outcomes = vec![
        outcome(Result::Remake, Some(Role::Top), 1),
        outcome(Result::Victory, Some(Role::Top), 1),
        outcome(Result::Surrender, Some(Role::Mid), 2),
    ];
    let summary = Summary::from_outcomes(&outcomes);
    assert_eq!((summary.wins, summary.losses), (1, 1));
    assert!(summary.wins + summary.losses <= outcomes.len());
    assert_eq!(summary.role, Role::Top);
    assert_eq!(summary.role_stats.wins, 1);
    assert_eq!(summary.role_stats.losses, 0);
}
