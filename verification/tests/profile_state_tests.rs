use aery::account::RiotId;
use aery::profile::{ProfileEvent, ProfileState, QueueFilter, Request};
use aery::game::Queue;
use aery::Region;

fn state(has_games: bool) -> ProfileState {
    ProfileState {
        puuid: String::from("p-1"),
        region: Region::from_name("KR"),
        queue_filter: QueueFilter::All,
        has_games,
    }
}

#[test]
fn profile_filter_change_makes_no_request() {
    let mut s = state(true);
    assert!(s.on_event(ProfileEvent::QueueFilterChanged(QueueFilter::Specific(Queue::ARAM))).is_none());
    assert_eq!(s.queue_filter, QueueFilter::Specific(Queue::ARAM));
}

#[test]
fn profile_fetch_games_asks_for_older_games() {
    let mut s = state(true);
    match s.on_event(ProfileEvent::FetchGames(1751830754)) {
        Some(Request::Games { puuid, region, end_time }) => {
            assert_eq!(puuid, "p-1");
            assert_eq!(region, Region::from_name("KR"));
            assert_eq!(end_time, Some(1751830754));
        },
        other => panic!("unexpected {other:?}"),
    }
}

#[test]
fn profile_name_press_needs_a_full_riot_id() {
    let mut s = state(true);
    match s.on_event(ProfileEvent::NamePressed(RiotId::new("Faker", "KR1"))) {
        Some(Request::Summoner { riot_id, region }) => {
            assert_eq!(riot_id, "Faker#KR1");
            assert_eq!(region.to_string(), "KR");
        },
        other => panic!("unexpected {other:?}"),
    }
    let partial = RiotId { name: Some(String::from("Faker")), tagline: None };
    assert!(s.on_event(ProfileEvent::NamePressed(partial)).is_none());
}

#[test]
fn profile_update_asks_for_games_when_there_are_none() {
    let mut empty = state(false);
    match empty.on_event(ProfileEvent::UpdatePressed(String::from("Faker#KR1"))) {
        Some(Request::Games { puuid, end_time, .. }) => {
            assert_eq!(puuid, "p-1");
            assert_eq!(end_time, None);
        },
        other => panic!("unexpected {other:?}"),
    }
    let mut full = state(true);
    match full.on_event(ProfileEvent::UpdatePressed(String::from("Faker#KR1"))) {
        Some(Request::Summoner { riot_id, .. }) => assert_eq!(riot_id, "Faker#KR1"),
        other => panic!("unexpected {other:?}"),
    }
}

#[test]
fn profile_search_switches_region() {
    let mut s = state(true);
    let euw = Region::from_name("EUW");
    match s.on_event(ProfileEvent::SearchRequested { riot_id: String::from("Caps#EUW"), region: euw }) {
        Some(Request::Summoner { riot_id, region }) => {
            assert_eq!(riot_id, "Caps#EUW");
            assert_eq!(region, euw);
        },
        other => panic!("unexpected {other:?}"),
    }
    assert_eq!(s.region, euw);
}

#[test]
fn profile_arrivals_update_the_state() {
    let mut s = state(false);
    assert!(s.on_event(ProfileEvent::DataArrived { puuid: String::from("p-2"), games: 0 }).is_none());
    assert_eq!(s.puuid, "p-2");
    assert!(!s.has_games);
    assert!(s.on_event(ProfileEvent::GamesArrived(3)).is_none());
    assert!(s.has_games);
    assert!(s.on_event(ProfileEvent::GamesArrived(0)).is_none());
    assert!(s.has_games);
}
