use aery::assets::champion;
use aery::assets::emblem;
use aery::assets::Image;
use aery::summoner::league::{Division, Tier};

#[test]
fn champion_asset_id_from_key() {
    assert_eq!(champion::Id::from_key(&String::from("266")), champion::Id(266));
    assert_eq!(champion::Id::from_key(&String::from("+12")), champion::Id(12));
    assert_eq!(champion::Id::from_key(&String::from("65535")), champion::Id(65535));
}

#[test]
fn emblem_ids_of_tiers() {
    assert_eq!(emblem::Id::from_tier(&Tier::Iron(Division::One(0))), emblem::Id(0));
    assert_eq!(emblem::Id::from_tier(&Tier::Emerald(Division::Two(5))), emblem::Id(5));
    assert_eq!(emblem::Id::from_tier(&Tier::Challenger(900)), emblem::Id(9));
}

#[test]
fn emblem_keys_round_trip() {
    let all = emblem::Id::all();
    assert_eq!(all.len(), 10);
    for id in all {
        assert_eq!(emblem::Id::from_key(id.into_key()), id);
    }
    assert_eq!(emblem::Id(8).into_key(), "grandmaster");
    assert_eq!(emblem::Id::from_key("gold"), emblem::Id(3));
    assert_eq!(emblem::Id::from_key("wood"), emblem::Id(0));
}

#[test]
fn image_keeps_its_bytes() {
    let image = Image::from_bytes(vec![1, 2, 3]);
    assert_eq!(image.as_bytes(), &[1, 2, 3]);
}
