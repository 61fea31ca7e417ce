use aery::game::team::{ApiBan, ApiObjective, ApiObjectives, ApiTeam, Ban, Id, Objective, Objectives, Team};
use aery::Champion;

fn objective(first: bool, kills: i32) -> ApiObjective {
    ApiObjective { first, kills }
}

#[test]
fn team_id_from_api_and_sides() {
    assert_eq!(Id::from_api(100), Id(100));
    assert_eq!(Id::blue(), Id(100));
    assert_eq!(Id::red(), Id(200));
}

#[test]
fn objectives_default_is_all_zero_with_horde() {
    let o = Objectives::default();
    assert_eq!(o.baron, Objective::zero());
    assert_eq!(o.tower, Objective { first: false, kills: 0 });
    assert_eq!(o.horde, Some(Objective::zero()));
}

#[test]
fn team_from_api_reads_bans_and_objectives() {
    let api = ApiTeam {
        bans: vec![ApiBan { champion_id: 157, pick_turn: 1 }, ApiBan { champion_id: -1, pick_turn: 2 }],
        objectives: ApiObjectives {
            baron: objective(true, 1),
            champion: objective(false, 25),
            dragon: objective(true, 3),
            inhibitor: objective(false, 0),
            rift_herald: objective(false, 1),
            tower: objective(true, 8),
            horde: None,
        },
        team_id: 200,
        win: true,
    };
    let team = Team::from_api(api);
    assert!(team.won);
    assert_eq!(team.id, Id(200));
    assert_eq!(team.bans, vec![
        Ban { champion: Champion(157), turn_picked: 1 },
        Ban { champion: Champion(u32::MAX), turn_picked: 2 },
    ]);
    assert_eq!(team.objectives.champion, Objective { first: false, kills: 25 });
    assert_eq!(team.objectives.tower, Objective { first: true, kills: 8 });
    assert_eq!(team.objectives.horde, None);
    assert_eq!(Objective::from_api(objective(true, 4)), Objective { first: true, kills: 4 });
}
