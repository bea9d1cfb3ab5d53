//! Precipitation: type and intensity classifications, and the rule that
//! decides the precipitation type from the outcomes of its threshold tests.

use vstd::prelude::*;
use crate::cloud::{CloudType, precipitating};

verus! {

/// Precipitation type classification.
#[derive(Debug, Clone, Copy, PartialEq, Eq, Structural)]
#[non_exhaustive]
pub enum PrecipitationType {
    /// No precipitation (displayed as "None").
    NoPrecipitation,
    /// Light, fine drops (stratiform, low intensity).
    Drizzle,
    /// Liquid precipitation.
    Rain,
    /// Frozen precipitation (ice crystals).
    Snow,
    /// Ice pellets — freezes before reaching surface.
    Sleet,
    /// Liquid drops that freeze on contact with sub-zero surfaces.
    FreezingRain,
    /// Large ice formed in strong convective updrafts.
    Hail,
}

/// Precipitation intensity category.
#[derive(Debug, Clone, Copy, PartialEq, Eq, Structural)]
#[non_exhaustive]
pub enum Intensity {
    /// No precipitation, 0 mm/hr (displayed as "None").
    NoPrecipitation,
    /// Trace to light (< 2.5 mm/hr).
    Light,
    /// Moderate (2.5–7.5 mm/hr).
    Moderate,
    /// Heavy (7.5–50 mm/hr).
    Heavy,
    /// Violent (> 50 mm/hr).
    Violent,
}

/// The display name of a precipitation type.
pub open spec fn precipitation_type_name(p: PrecipitationType) -> Seq<char> {
    match p {
        PrecipitationType::NoPrecipitation => "None"@,
        PrecipitationType::Drizzle => "Drizzle"@,
        PrecipitationType::Rain => "Rain"@,
        PrecipitationType::Snow => "Snow"@,
        PrecipitationType::Sleet => "Sleet"@,
        PrecipitationType::FreezingRain => "Freezing Rain"@,
        PrecipitationType::Hail => "Hail"@,
    }
}

/// The display name of an intensity category.
pub open spec fn intensity_name(i: Intensity) -> Seq<char> {
    match i {
        Intensity::NoPrecipitation => "None"@,
        Intensity::Light => "Light"@,
        Intensity::Moderate => "Moderate"@,
        Intensity::Heavy => "Heavy"@,
        Intensity::Violent => "Violent"@,
    }
}

impl PrecipitationType {
    /// The precipitation type's name, as it is displayed.
    pub fn to_string(&self) -> (s: String)
        ensures
            s@ == precipitation_type_name(*self),
    {
        match self {
            PrecipitationType::NoPrecipitation => String::from_str("None"),
            PrecipitationType::Drizzle => String::from_str("Drizzle"),
            PrecipitationType::Rain => String::from_str("Rain"),
            PrecipitationType::Snow => String::from_str("Snow"),
            PrecipitationType::Sleet => String::from_str("Sleet"),
            PrecipitationType::FreezingRain => String::from_str("Freezing Rain"),
            PrecipitationType::Hail => String::from_str("Hail"),
        }
    }
}

impl Intensity {
    /// The intensity's name, as it is displayed.
    pub fn to_string(&self) -> (s: String)
        ensures
            s@ == intensity_name(*self),
    {
        match self {
            Intensity::NoPrecipitation => String::from_str("None"),
            Intensity::Light => String::from_str("Light"),
            Intensity::Moderate => String::from_str("Moderate"),
            Intensity::Heavy => String::from_str("Heavy"),
            Intensity::Violent => String::from_str("Violent"),
        }
    }
}

/// Outcomes of the threshold tests on which the precipitation type depends.
///
/// Each field is the truth of one comparison of a measured or derived
/// quantity against its limit: the cloud's rain rate against zero and against
/// the drizzle limit (0.5 mm/hr), CAPE against the hail limit (2000 J/kg),
/// the wet-bulb temperature against 0 °C and 1.5 °C, and the surface
/// temperature against 0 °C.
#[derive(Debug, Clone, Copy, PartialEq, Eq, Structural)]
pub struct PrecipitationSignals {
    /// The cloud's rain rate is above zero.
    pub rate_positive: bool,
    /// The rain rate is below the drizzle limit.
    pub drizzle_rate: bool,
    /// CAPE is above the hail limit.
    pub strong_convection: bool,
    /// The wet-bulb temperature is at or below 0 °C.
    pub wet_bulb_frozen: bool,
    /// The wet-bulb temperature is at or below 1.5 °C.
    pub wet_bulb_near_freezing: bool,
    /// The surface temperature is at or below 0 °C.
    pub surface_freezing: bool,
}

/// The precipitation-type rule, in the order in which its cases take
/// precedence: no precipitation from a cloud that does not produce
/// precipitation or whose rain rate is zero; hail from a cumulonimbus in strong convection; snow at a
/// frozen wet bulb; sleet in the partial-melt band; freezing rain on a
/// freezing surface; drizzle at a low rate; rain otherwise.
pub open spec fn precipitation_rule(cloud: CloudType, s: PrecipitationSignals) -> PrecipitationType {
    if !precipitating(cloud) || !s.rate_positive {
        PrecipitationType::NoPrecipitation
    } else if s.strong_convection && cloud == CloudType::Cumulonimbus {
        PrecipitationType::Hail
    } else if s.wet_bulb_frozen {
        PrecipitationType::Snow
    } else if s.wet_bulb_near_freezing {
        PrecipitationType::Sleet
    } else if s.surface_freezing {
        PrecipitationType::FreezingRain
    } else if s.drizzle_rate {
        PrecipitationType::Drizzle
    } else {
        PrecipitationType::Rain
    }
}

/// Something falls from the cloud and it is not hail: the cloud produces
/// precipitation at a positive rate, and it is not a cumulonimbus in strong
/// convection.
pub open spec fn falls_below_hail(cloud: CloudType, s: PrecipitationSignals) -> bool {
    precipitating(cloud) && s.rate_positive && !(s.strong_convection && cloud == CloudType::Cumulonimbus)
}

/// Decide the precipitation type of a cloud from the outcomes of its
/// threshold tests.
pub fn precipitation_type_from_signals(cloud_type: CloudType, signals: &PrecipitationSignals) -> (p: PrecipitationType)
    ensures
        p == precipitation_rule(cloud_type, *signals),
        !precipitating(cloud_type) ==> p == PrecipitationType::NoPrecipitation,
        (p == PrecipitationType::NoPrecipitation) <==> (!precipitating(cloud_type) || !signals.rate_positive),
        (p == PrecipitationType::Hail) <==> (cloud_type == CloudType::Cumulonimbus && signals.rate_positive
            && signals.strong_convection),
        (p == PrecipitationType::Snow) <==> (falls_below_hail(cloud_type, *signals) && signals.wet_bulb_frozen),
        (p == PrecipitationType::Sleet) <==> (falls_below_hail(cloud_type, *signals) && !signals.wet_bulb_frozen
            && signals.wet_bulb_near_freezing),
        (p == PrecipitationType::FreezingRain) <==> (falls_below_hail(cloud_type, *signals)
            && !signals.wet_bulb_frozen && !signals.wet_bulb_near_freezing && signals.surface_freezing),
        (p == PrecipitationType::Drizzle) <==> (falls_below_hail(cloud_type, *signals) && !signals.wet_bulb_frozen
            && !signals.wet_bulb_near_freezing && !signals.surface_freezing && signals.drizzle_rate),
        (p == PrecipitationType::Rain) <==> (falls_below_hail(cloud_type, *signals) && !signals.wet_bulb_frozen
            && !signals.wet_bulb_near_freezing && !signals.surface_freezing && !signals.drizzle_rate),
{
    if !cloud_type.produces_precipitation() || !signals.rate_positive {
        return PrecipitationType::NoPrecipitation;
    }
    if signals.strong_convection && matches!(cloud_type, CloudType::Cumulonimbus) {
        return PrecipitationType::Hail;
    }
    if signals.wet_bulb_frozen {
        return PrecipitationType::Snow;
    }
    if signals.wet_bulb_near_freezing {
        return PrecipitationType::Sleet;
    }
    if signals.surface_freezing {
        return PrecipitationType::FreezingRain;
    }
    if signals.drizzle_rate {
        return PrecipitationType::Drizzle;
    }
    PrecipitationType::Rain
}

/// The wet bulb decides the phase before anything else does: when something
/// other than hail falls and the wet bulb is at or below 0 °C, it is snow,
/// whatever the rain rate and the surface temperature.
pub proof fn lemma_frozen_wet_bulb_gives_snow(cloud: CloudType, s: PrecipitationSignals)
    requires
        falls_below_hail(cloud, s),
        s.wet_bulb_frozen,
    ensures
        precipitation_rule(cloud, s) == PrecipitationType::Snow,
{
}

/// A wet bulb in the partial-melt band (above 0 °C, at most 1.5 °C) gives
/// sleet whatever the rain rate and the surface temperature.
pub proof fn lemma_partial_melt_gives_sleet(cloud: CloudType, s: PrecipitationSignals)
    requires
        falls_below_hail(cloud, s),
        !s.wet_bulb_frozen,
        s.wet_bulb_near_freezing,
    ensures
        precipitation_rule(cloud, s) == PrecipitationType::Sleet,
{
}

/// What each frozen or freezing result needs of the temperatures: snow needs
/// a frozen wet bulb; sleet a wet bulb in the partial-melt band; freezing
/// rain a freezing surface under a wet bulb above 1.5 °C; drizzle and rain
/// need a surface above freezing and a wet bulb above 1.5 °C, and drizzle a
/// rate below the drizzle limit.
pub proof fn lemma_phase_needs_temperatures(cloud: CloudType, s: PrecipitationSignals)
    ensures
        precipitation_rule(cloud, s) == PrecipitationType::Snow ==> s.wet_bulb_frozen,
        precipitation_rule(cloud, s) == PrecipitationType::Sleet ==> !s.wet_bulb_frozen
            && s.wet_bulb_near_freezing,
        precipitation_rule(cloud, s) == PrecipitationType::FreezingRain ==> s.surface_freezing
            && !s.wet_bulb_frozen && !s.wet_bulb_near_freezing,
        precipitation_rule(cloud, s) == PrecipitationType::Drizzle ==> s.drizzle_rate
            && !s.surface_freezing && !s.wet_bulb_frozen && !s.wet_bulb_near_freezing,
        precipitation_rule(cloud, s) == PrecipitationType::Rain ==> !s.drizzle_rate
            && !s.surface_freezing && !s.wet_bulb_frozen && !s.wet_bulb_near_freezing,
{
}

/// The surface temperature matters only once the wet bulb is above 1.5 °C:
/// two conditions that differ in the surface test alone, with the wet bulb at
/// or below 1.5 °C, give the same precipitation type.
pub proof fn lemma_surface_irrelevant_under_cold_wet_bulb(
    cloud: CloudType,
    a: PrecipitationSignals,
    b: PrecipitationSignals,
)
    requires
        a.wet_bulb_near_freezing || a.wet_bulb_frozen,
        b == (PrecipitationSignals { surface_freezing: b.surface_freezing, ..a }),
    ensures
        precipitation_rule(cloud, a) == precipitation_rule(cloud, b),
{
}

/// The rain rate's drizzle test only tells drizzle from rain: two conditions
/// that differ in it alone give the same type unless that type is drizzle or
/// rain, and then one is drizzle and the other rain.
pub proof fn lemma_drizzle_test_only_splits_liquid(
    cloud: CloudType,
    a: PrecipitationSignals,
    b: PrecipitationSignals,
)
    requires
        b == (PrecipitationSignals { drizzle_rate: b.drizzle_rate, ..a }),
        a.drizzle_rate != b.drizzle_rate,
    ensures
        precipitation_rule(cloud, a) != PrecipitationType::Drizzle && precipitation_rule(cloud, a)
            != PrecipitationType::Rain ==> precipitation_rule(cloud, a) == precipitation_rule(cloud, b),
        precipitation_rule(cloud, a) == PrecipitationType::Drizzle ==> precipitation_rule(cloud, b)
            == PrecipitationType::Rain,
        precipitation_rule(cloud, a) == PrecipitationType::Rain ==> precipitation_rule(cloud, b)
            == PrecipitationType::Drizzle,
{
}

} // verus!
