use aery::component::formatting;
use aery::component::summoner::{Division, Tier};
use aery::component::{Role, Summoner};
use aery::game;

#[test]
fn component_role_from_game_role() {
    assert_eq!(Role::try_from(Some(game::Role::Bottom)), Ok(Role::Bottom));
    assert_eq!(Role::try_from(Some(game::Role::Top)), Ok(Role::Top));
    assert_eq!(Role::try_from(None), Err(()));
    assert_eq!(Role::Jungle.to_string(), "Jungle");
}

#[test]
fn component_tier_points_division_and_name() {
    let gold = Tier::Gold(Division::Two(75));
    assert_eq!(gold.points(), 75);
    assert_eq!(gold.division(), "2");
    assert_eq!(gold.to_string(), "Gold");
    let master = Tier::Master(321);
    assert_eq!(master.points(), 321);
    assert_eq!(master.division(), "321");
    assert_eq!(master.to_string(), "Master");
    assert_eq!(Division::Four(0).to_string(), "4");
}

#[test]
fn component_summoner_and_formatting() {
    assert_eq!(Summoner(String::from("Faker#KR1")).to_string(), "Faker#KR1");
    assert_eq!(formatting::win(game::Result::Defeat), "Defeat");
    assert_eq!(formatting::vision_score(7), "7 vision");
}
