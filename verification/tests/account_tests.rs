use aery::account::{copy_text, split_riot_id, Account, RiotId};
use aery::summoner::Summoner;

fn riot_id(name: Option<&str>, tag: Option<&str>) -> RiotId {
    RiotId { name: name.map(String::from), tagline: tag.map(String::from) }
}

#[test]
fn riot_id_new_keeps_both_parts() {
    let id = RiotId::new("Faker", "KR1");
    assert_eq!(id.name.as_deref(), Some("Faker"));
    assert_eq!(id.tagline.as_deref(), Some("KR1"));
}

#[test]
fn riot_id_duplicate_is_equal() {
    let id = riot_id(Some("Caps"), None);
    let copy = id.duplicate();
    assert_eq!(copy.name.as_deref(), Some("Caps"));
    assert_eq!(copy.tagline, None);
    assert_eq!(copy_text(&Some(String::from("x"))), Some(String::from("x")));
    assert_eq!(copy_text(&None), None);
}

#[test]
fn account_dummy_puuid_joins_name_and_tag() {
    let account = Account::dummy(riot_id(Some("Faker"), Some("KR1")));
    assert_eq!(account.puuid.as_str(), "Faker-KR1");
    assert_eq!(account.riot_id.name.as_deref(), Some("Faker"));
}

#[test]
fn account_dummy_puuid_fills_missing_parts() {
    assert_eq!(Account::dummy(riot_id(None, Some("EUW"))).puuid.as_str(), "foo-EUW");
    assert_eq!(Account::dummy(riot_id(Some("Caps"), None)).puuid.as_str(), "Caps-bar");
    assert_eq!(Account::dummy(riot_id(None, None)).puuid.as_str(), "foo-bar");
}

#[test]
fn account_from_api_keeps_fields() {
    let account = Account::from_api(String::from("abc-123"), Some(String::from("Faker")), None);
    assert_eq!(account.puuid.as_str(), "abc-123");
    assert_eq!(account.riot_id.name.as_deref(), Some("Faker"));
    assert_eq!(account.riot_id.tagline, None);
}

#[test]
fn split_riot_id_takes_name_and_tag() {
    assert_eq!(split_riot_id("Faker#KR1"), Some((String::from("Faker"), String::from("KR1"))));
    assert_eq!(split_riot_id("Hide on bush#KR1"), Some((String::from("Hide on bush"), String::from("KR1"))));
}

#[test]
fn split_riot_id_stops_at_second_hash() {
    assert_eq!(split_riot_id("a#b#c"), Some((String::from("a"), String::from("b"))));
    assert_eq!(split_riot_id("#tag"), Some((String::new(), String::from("tag"))));
    assert_eq!(split_riot_id("name#"), Some((String::from("name"), String::new())));
}

#[test]
fn split_riot_id_without_hash_is_none() {
    assert_eq!(split_riot_id("Faker"), None);
    assert_eq!(split_riot_id(""), None);
}

#[test]
fn summoner_name_splits_back_into_its_riot_id() {
    let summoner = Summoner {
        account: Account::dummy(riot_id(Some("여우"), Some("KR1"))),
        level: 404,
        icon_id: 3505,
        last_modified: 1751832991000,
    };
    let name = summoner.name();
    assert_eq!(name, "여우#KR1");
    assert_eq!(split_riot_id(&name), Some((String::from("여우"), String::from("KR1"))));
    assert_eq!(summoner.puuid(), "여우-KR1");
}

#[test]
fn summoner_name_leaves_missing_parts_empty() {
    let summoner = Summoner {
        account: Account::from_api(String::from("p"), None, Some(String::from("NA1"))),
        level: 1,
        icon_id: 1,
        last_modified: 0,
    };
    assert_eq!(summoner.name(), "#NA1");
}
