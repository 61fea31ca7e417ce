use aery::formatting::{
    division, division_or_points, duration, league_points, ranked_tier, record, role, team, tier, time_since,
    vision_score, win,
};
use aery::game::{Result, Role};
use aery::summoner::league::{Division, Tier};
use aery::Team;

const SECOND: i128 = 1_000_000_000;
const DAY: i128 = 86_400 * SECOND;

fn ago(seconds: i128) -> String {
    let now: i128 = 1_751_830_754 * SECOND;
    time_since(now, now - seconds * SECOND)
}

#[test]
fn tier_names() {
    assert_eq!(tier(Tier::Iron(Division::One(0))), "Iron");
    assert_eq!(tier(Tier::Emerald(Division::Four(10))), "Emerald");
    assert_eq!(tier(Tier::Grandmaster(500)), "Grandmaster");
}

#[test]
fn division_or_points_by_tier() {
    assert_eq!(division_or_points(Tier::Gold(Division::Two(50))), "2");
    assert_eq!(division_or_points(Tier::Master(245)), "245");
    assert_eq!(division_or_points(Tier::Challenger(0)), "0");
    assert_eq!(division(Division::Three(1)), "3");
    assert_eq!(division(Division::One(1)), "1");
}

#[test]
fn duration_keeps_two_characters_of_each_count() {
    assert_eq!(duration(2205), "36m 22s");
    assert_eq!(duration(59), "0m 59s");
    assert_eq!(duration(0), "0m 0s");
    assert_eq!(duration(-61), "-1m -6s");
}

#[test]
fn time_since_seconds_minutes_hours() {
    assert_eq!(ago(0), "few seconds ago");
    assert_eq!(ago(59), "few seconds ago");
    assert_eq!(ago(-3600), "few seconds ago");
    assert_eq!(ago(60), "1 minute ago");
    assert_eq!(ago(150), "2 minutes ago");
    assert_eq!(ago(3600), "1 hour ago");
    assert_eq!(ago(23 * 3600), "23 hours ago");
}

#[test]
fn time_since_days_weeks_months_years() {
    assert_eq!(ago(86_400), "yesterday");
    assert_eq!(ago(3 * 86_400), "3 days ago");
    assert_eq!(ago(7 * 86_400), "last week");
    assert_eq!(ago(20 * 86_400), "2 weeks ago");
    assert_eq!(ago(28 * 86_400), "last month");
    assert_eq!(ago(61 * 86_400), "2 months ago");
    assert_eq!(ago(365 * 86_400), "last year");
    assert_eq!(ago(800 * 86_400), "2 years ago");
}

#[test]
fn time_since_truncates_to_whole_seconds() {
    let now: i128 = 10 * DAY;
    assert_eq!(time_since(now, now - 60 * SECOND + 1), "few seconds ago");
}

#[test]
fn role_team_win_and_vision_texts() {
    assert_eq!(role(Role::Support), "Support");
    assert_eq!(role(Role::Mid), "Mid");
    assert_eq!(team(Team(100)), "Blue team");
    assert_eq!(team(Team(200)), "Red team");
    assert_eq!(win(Result::Surrender), "Defeat");
    assert_eq!(win(Result::Remake), "Remake");
    assert_eq!(win(Result::Victory), "Victory");
    assert_eq!(vision_score(42), "42 vision");
}

#[test]
fn ranked_overview_texts() {
    assert_eq!(ranked_tier(Tier::Gold(Division::Two(50))), "Gold 2");
    assert_eq!(ranked_tier(Tier::Emerald(Division::Four(0))), "Emerald 4");
    assert_eq!(ranked_tier(Tier::Master(245)), "Master");
    assert_eq!(league_points(75), "75 LP");
    assert_eq!(record(30, 20), "30W 20L");
    assert_eq!(record(0, 0), "0W 0L");
}
