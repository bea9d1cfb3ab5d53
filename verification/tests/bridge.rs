use badal::bridge::{frost_season, FrostSeason};

#[test]
fn frost_season_boundaries() {
    assert_eq!(frost_season(1), FrostSeason::Winter);
    assert_eq!(frost_season(89), FrostSeason::Winter);
    assert_eq!(frost_season(90), FrostSeason::Shoulder);
    assert_eq!(frost_season(119), FrostSeason::Shoulder);
    assert_eq!(frost_season(120), FrostSeason::Summer);
    assert_eq!(frost_season(180), FrostSeason::Summer);
    assert_eq!(frost_season(275), FrostSeason::Summer);
    assert_eq!(frost_season(276), FrostSeason::Shoulder);
    assert_eq!(frost_season(305), FrostSeason::Shoulder);
    assert_eq!(frost_season(306), FrostSeason::Winter);
    assert_eq!(frost_season(365), FrostSeason::Winter);
}

#[test]
fn frost_season_day_zero_and_max() {
    assert_eq!(frost_season(0), FrostSeason::Winter);
    assert_eq!(frost_season(u16::MAX), FrostSeason::Winter);
}
