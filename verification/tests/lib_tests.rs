use aery::{Champion, InternalApiError, RegionalRoute, RequestError, Route, Team};

#[test]
fn champion_identifier_special_cases_fiddlesticks() {
    assert_eq!(Champion::new(9).identifier(), Some("Fiddlesticks"));
}

#[test]
fn champion_identifier_asks_riven() {
    assert_eq!(Champion::new(1).identifier(), Some("Annie"));
    assert_eq!(Champion::new(266).identifier(), Some("Aatrox"));
    assert_eq!(Champion::new(99999).identifier(), None);
}

#[test]
fn champion_identifier_reads_the_low_sixteen_bits() {
    assert_eq!(Champion::new(65802).identifier(), Some("Aatrox"));
    assert_eq!(Champion::new(65536 + 9).identifier(), Some("FiddleSticks"));
    assert_eq!(Champion::new(60062).identifier(), None);
}

#[test]
fn champion_from_api_reads_the_bits() {
    assert_eq!(Champion::from_api(103), Champion(103));
    assert_eq!(Champion::from_api(-1), Champion(u32::MAX));
}

#[test]
fn team_sides_have_their_ids() {
    assert_eq!(Team::blue(), Team(100));
    assert_eq!(Team::red(), Team(200));
}

#[test]
fn request_error_internal_keeps_the_message() {
    match RequestError::internal(String::from("boom")) {
        RequestError::RequestFailed(InternalApiError(message)) => assert_eq!(message, "boom"),
        RequestError::NotFound => panic!("wrong variant"),
    }
}

#[test]
fn route_from_regional_routes() {
    assert_eq!(Route::from_regional(RegionalRoute::Americas), Route::America);
    assert_eq!(Route::from_regional(RegionalRoute::Asia), Route::Asia);
    assert_eq!(Route::from_regional(RegionalRoute::Europe), Route::Europe);
    assert_eq!(Route::from_regional(RegionalRoute::Sea), Route::SouthAsia);
    assert_eq!(Route::from_regional(RegionalRoute::Apac), Route::SouthAsia);
    assert_eq!(Route::from_regional(RegionalRoute::Esports), Route::Tournament);
}

#[test]
fn champion_from_name_asks_riven() {
    assert_eq!(Champion::from_name("Annie"), Champion(1));
    assert_eq!(Champion::from_name("MonkeyKing"), Champion(62));
    assert_eq!(Champion::from_name("Xyzzy"), Champion(0));
    assert_eq!(Champion::from_parsed(Some(-2)), Champion(u32::MAX - 1));
    assert_eq!(Champion::from_parsed(None), Champion(0));
}
