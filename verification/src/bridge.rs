//! Seasonal classification used by the frost-risk bridge.

use vstd::prelude::*;

verus! {

/// The season as it bears on ground-frost risk in the northern hemisphere.
#[derive(Debug, Clone, Copy, PartialEq, Eq, Structural)]
pub enum FrostSeason {
    /// Days before 90 or after 305: full frost risk.
    Winter,
    /// Days 90–119 and 276–305: reduced risk.
    Shoulder,
    /// Days 120–275: frost still possible, at high altitude.
    Summer,
}

/// The frost season of a day of the year.
pub open spec fn frost_season_of(day: int) -> FrostSeason {
    if day < 90 || day > 305 {
        FrostSeason::Winter
    } else if day < 120 || day > 275 {
        FrostSeason::Shoulder
    } else {
        FrostSeason::Summer
    }
}

/// Classify a day of the year (1–366) into its frost season.
pub fn frost_season(day_of_year: u16) -> (s: FrostSeason)
    ensures
        s == frost_season_of(day_of_year as int),
        (s == FrostSeason::Summer) <==> (120 <= day_of_year && day_of_year <= 275),
        (s == FrostSeason::Winter) <==> (day_of_year < 90 || day_of_year > 305),
{
    if day_of_year < 90 || day_of_year > 305 {
        FrostSeason::Winter
    } else if day_of_year < 120 || day_of_year > 275 {
        FrostSeason::Shoulder
    } else {
        FrostSeason::Summer
    }
}

} // verus!
