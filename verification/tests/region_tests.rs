use aery::Region;

#[test]
fn region_from_name_accepts_both_spellings() {
    assert_eq!(Region::from_name("BR1").code(), 16);
    assert_eq!(Region::from_name("BR").code(), 16);
    assert_eq!(Region::from_name("EUW").code(), 18);
    assert_eq!(Region::from_name("KR").code(), 20);
    assert_eq!(Region::from_name("ME1").code(), 37);
}

#[test]
fn region_try_from_name_refuses_unknown_names() {
    assert!(Region::try_from_name("XX").is_none());
    assert!(Region::try_from_name("").is_none());
    assert_eq!(Region::try_from_name("NA").map(|r| r.code()), Some(23));
}

#[test]
fn region_to_string_is_the_route_name() {
    assert_eq!(Region::from_name("EUW").to_string(), "EUW1");
    assert_eq!(Region::from_name("KR").to_string(), "KR");
    assert_eq!(Region::default().to_string(), "BR1");
}

#[test]
fn region_name_parses_back_for_every_region() {
    for region in Region::iter() {
        assert_eq!(Region::from_name(&region.to_string()), region);
    }
}

#[test]
fn region_iter_lists_the_declared_routes() {
    let codes: Vec<u8> = Region::iter().iter().map(|r| r.code()).collect();
    assert_eq!(codes, vec![16, 17, 18, 19, 20, 21, 22, 37, 23, 24, 32, 25, 33, 34, 26, 35, 36, 31]);
}

#[test]
fn region_from_code_checks_the_number() {
    assert_eq!(Region::from_code(16), Some(Region::default()));
    assert!(Region::from_code(27).is_none());
    assert!(Region::from_code(15).is_none());
    assert_eq!(Region::from_code(31).map(|r| r.to_string()), Some(String::from("PBE1")));
}

#[test]
fn region_names_and_aliases() {
    let table = [
        ("BR1", "BR", 16), ("EUN1", "EUNE", 17), ("EUW1", "EUW", 18), ("JP1", "JP", 19), ("KR", "KR", 20),
        ("LA1", "LAN", 21), ("LA2", "LAS", 22), ("ME1", "MENA", 37), ("NA1", "NA", 23), ("OC1", "OCE", 24),
        ("PH2", "PH", 32), ("RU", "RU", 25), ("SG2", "SG", 33), ("TH2", "TH", 34), ("TR1", "TR", 26),
        ("TW2", "TW", 35), ("VN2", "VN", 36), ("PBE1", "PBE", 31),
    ];
    for (name, alias, code) in table {
        assert_eq!(Region::try_from_name(name).map(|r| r.code()), Some(code));
        assert_eq!(Region::try_from_name(alias).map(|r| r.code()), Some(code));
        assert_eq!(Region::from_code(code).unwrap().to_string(), name);
    }
    assert!(Region::try_from_name("br1").is_none());
    assert!(Region::try_from_name("EUW1 ").is_none());
}
