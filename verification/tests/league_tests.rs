use aery::summoner::league::{
    ApiDivision, ApiQueueType, ApiTier, Division, Kind, League, LeagueEntry, SummonersRift, TeamfightTactics, Tier,
};

fn entry(tier: Option<ApiTier>, rank: Option<ApiDivision>, points: i32) -> LeagueEntry {
    LeagueEntry { queue_type: ApiQueueType::RankedSolo5x5, tier, rank, league_points: points, wins: 30, losses: 20 }
}

#[test]
fn kind_from_queue_type() {
    assert_eq!(Kind::from_queue_type(ApiQueueType::RankedSolo5x5), Kind::SummonersRift(SummonersRift::Solo));
    assert_eq!(Kind::from_queue_type(ApiQueueType::RankedFlexSr), Kind::SummonersRift(SummonersRift::Flex));
    assert_eq!(
        Kind::from_queue_type(ApiQueueType::RankedFlexTt),
        Kind::SummonersRift(SummonersRift::TwistedTreeline)
    );
    assert_eq!(Kind::from_queue_type(ApiQueueType::RankedTftPairs), Kind::TeamfightTactics(TeamfightTactics::DoubleUp));
    assert_eq!(Kind::from_queue_type(ApiQueueType::Cherry), Kind::Arena);
    assert_eq!(
        Kind::from_queue_type(ApiQueueType::Unknown(String::from("NEW"))),
        Kind::Unknown(String::from("NEW"))
    );
}

#[test]
fn tier_from_entry_below_master_keeps_division() {
    let tier = Tier::try_from_entry(&entry(Some(ApiTier::Gold), Some(ApiDivision::II), 57)).unwrap();
    assert!(matches!(tier, Tier::Gold(Division::Two(57))));
    let tier = Tier::try_from_entry(&entry(Some(ApiTier::Iron), Some(ApiDivision::IV), 300)).unwrap();
    assert!(matches!(tier, Tier::Iron(Division::Four(44))));
}

#[test]
fn tier_from_entry_from_master_keeps_points() {
    let tier = Tier::try_from_entry(&entry(Some(ApiTier::Challenger), None, 1432)).unwrap();
    assert!(matches!(tier, Tier::Challenger(1432)));
    assert_eq!(tier.points(), 1432);
    assert!(tier.division().is_none());
}

#[test]
fn tier_from_entry_refuses_unranked_and_missing() {
    assert!(Tier::try_from_entry(&entry(Some(ApiTier::Unranked), None, 0)).is_err());
    assert!(Tier::try_from_entry(&entry(None, None, 0)).is_err());
}

#[test]
fn tier_division_and_points() {
    let tier = Tier::Diamond(Division::One(99));
    assert!(matches!(tier.division(), Some(Division::One(99))));
    assert_eq!(tier.points(), 99);
}

#[test]
fn league_from_entry() {
    let league = League::from_entry(entry(Some(ApiTier::Platinum), Some(ApiDivision::III), 12));
    assert_eq!(league.kind, Kind::SummonersRift(SummonersRift::Solo));
    assert!(matches!(league.tier, Some(Tier::Platinum(Division::Three(12)))));
    assert_eq!(league.wins, 30);
    assert_eq!(league.losses, 20);
    assert!(matches!(league.division(), Some(Division::Three(12))));
    assert_eq!(league.points(), 12);
    let unranked = League::from_entry(entry(Some(ApiTier::Unranked), None, 0));
    assert!(unranked.tier.is_none());
    assert_eq!(unranked.points(), 0);
    assert!(unranked.division().is_none());
}
