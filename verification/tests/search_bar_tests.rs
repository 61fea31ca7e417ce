use aery::search_bar::{SearchBar, SearchMessage};
use aery::Region;

#[test]
fn search_bar_starts_empty_on_brazil() {
    let bar = SearchBar::new();
    assert_eq!(bar.text, "");
    assert_eq!(bar.region, Region::default());
}

#[test]
fn search_bar_requests_what_was_typed() {
    let mut bar = SearchBar::new();
    assert!(bar.update(SearchMessage::TextChanged(String::from("Faker#KR1"))).is_none());
    assert!(bar.update(SearchMessage::RegionSelected(Region::from_name("KR"))).is_none());
    let request = bar.update(SearchMessage::SearchPressed).unwrap();
    assert_eq!(request.riot_id, "Faker#KR1");
    assert_eq!(request.region, Region::from_name("KR"));
    assert_eq!(bar.text, "Faker#KR1");
}
