use aery::request::{matches_path, riot_id_from_path, riot_id_to_path, summoner_path};
use aery::Region;

#[test]
fn riot_id_path_swaps_hash_and_dash() {
    assert_eq!(riot_id_to_path("Faker#KR1"), "Faker-KR1");
    assert_eq!(riot_id_from_path("Faker-KR1"), "Faker#KR1");
    assert_eq!(riot_id_to_path("no tag"), "no tag");
}

#[test]
fn riot_id_without_dash_survives_the_path() {
    for id in ["Faker#KR1", "Hide on bush#KR1", "a#b#c", "", "#", "가나다#한국"] {
        assert_eq!(riot_id_from_path(&riot_id_to_path(id)), id);
    }
}

#[test]
fn riot_id_with_dash_does_not_survive_the_path() {
    assert_eq!(riot_id_to_path("a-b#c"), "a-b-c");
    assert_eq!(riot_id_from_path(&riot_id_to_path("a-b#c")), "a#b#c");
}

#[test]
fn summoner_path_writes_region_and_riot_id() {
    let region = Region::from_name("KR");
    assert_eq!(
        summoner_path("https://worker.example", &region, "Faker#KR1"),
        "https://worker.example/summoner/KR/Faker-KR1"
    );
    let euw = Region::from_name("EUW");
    assert_eq!(summoner_path("w", &euw, "Caps#EUW"), "w/summoner/EUW1/Caps-EUW");
}

#[test]
fn matches_path_adds_end_time_when_given() {
    assert_eq!(matches_path("w", "abc", None), "w/matches/abc");
    assert_eq!(matches_path("w", "abc", Some(1751830754)), "w/matches/abc?end_time=1751830754");
    assert_eq!(matches_path("w", "abc", Some(-5)), "w/matches/abc?end_time=-5");
    assert_eq!(matches_path("w", "abc", Some(0)), "w/matches/abc?end_time=0");
}
