//! Severe weather: the threat-level scale and the rule that classifies a
//! threat from the outcomes of the composite-parameter threshold tests.

use vstd::prelude::*;
use core::cmp::Ordering;
use vstd::std_specs::cmp::PartialOrdSpecImpl;
use vstd::std_specs::cmp::PartialOrdSpec;

verus! {

/// Severe weather threat level, from least to most severe.
#[derive(Debug, Clone, Copy, PartialEq, Eq, Structural, Ord)]
#[non_exhaustive]
pub enum ThreatLevel {
    /// No significant threat (displayed as "None").
    NoThreat,
    /// Marginal — isolated severe weather possible.
    Marginal,
    /// Slight — scattered severe weather possible.
    Slight,
    /// Enhanced — numerous severe weather events likely.
    Enhanced,
    /// Moderate — widespread severe weather expected.
    Moderate,
    /// High — widespread, long-lived, intense severe weather.
    High,
}

/// The position of a threat level on the scale, 0 for no threat up to 5 for
/// a high threat.
pub open spec fn threat_rank(t: ThreatLevel) -> nat {
    match t {
        ThreatLevel::NoThreat => 0,
        ThreatLevel::Marginal => 1,
        ThreatLevel::Slight => 2,
        ThreatLevel::Enhanced => 3,
        ThreatLevel::Moderate => 4,
        ThreatLevel::High => 5,
    }
}

/// The display name of a threat level.
pub open spec fn threat_name(t: ThreatLevel) -> Seq<char> {
    match t {
        ThreatLevel::NoThreat => "None"@,
        ThreatLevel::Marginal => "Marginal"@,
        ThreatLevel::Slight => "Slight"@,
        ThreatLevel::Enhanced => "Enhanced"@,
        ThreatLevel::Moderate => "Moderate"@,
        ThreatLevel::High => "High"@,
    }
}

impl ThreatLevel {
    /// The threat level's name, as it is displayed.
    pub fn to_string(&self) -> (s: String)
        ensures
            s@ == threat_name(*self),
    {
        match self {
            ThreatLevel::NoThreat => String::from_str("None"),
            ThreatLevel::Marginal => String::from_str("Marginal"),
            ThreatLevel::Slight => String::from_str("Slight"),
            ThreatLevel::Enhanced => String::from_str("Enhanced"),
            ThreatLevel::Moderate => String::from_str("Moderate"),
            ThreatLevel::High => String::from_str("High"),
        }
    }

    /// The position of this level on the scale.
    fn rank(&self) -> (r: u8)
        ensures
            r == threat_rank(*self),
    {
        match self {
            ThreatLevel::NoThreat => 0,
            ThreatLevel::Marginal => 1,
            ThreatLevel::Slight => 2,
            ThreatLevel::Enhanced => 3,
            ThreatLevel::Moderate => 4,
            ThreatLevel::High => 5,
        }
    }
}

impl PartialOrd for ThreatLevel {
    fn partial_cmp(&self, other: &Self) -> (r: Option<Ordering>) {
        let a = self.rank();
        let b = other.rank();
        if a < b {
            Some(Ordering::Less)
        } else if a == b {
            Some(Ordering::Equal)
        } else {
            Some(Ordering::Greater)
        }
    }
}

impl PartialOrdSpecImpl for ThreatLevel {
    open spec fn obeys_partial_cmp_spec() -> bool {
        true
    }

    open spec fn partial_cmp_spec(&self, other: &Self) -> Option<Ordering> {
        if threat_rank(*self) < threat_rank(*other) {
            Some(Ordering::Less)
        } else if threat_rank(*self) == threat_rank(*other) {
            Some(Ordering::Equal)
        } else {
            Some(Ordering::Greater)
        }
    }
}

/// Outcomes of the threshold tests on the Supercell Composite Parameter
/// (SCP) and the Significant Tornado Parameter (STP) that decide the threat
/// level. Each field is the truth of "parameter > limit".
#[derive(Debug, Clone, Copy, PartialEq, Eq, Structural)]
pub struct ThreatSignals {
    /// STP > 4.
    pub stp_above_4: bool,
    /// STP > 2.
    pub stp_above_2: bool,
    /// STP > 1.
    pub stp_above_1: bool,
    /// SCP > 8.
    pub scp_above_8: bool,
    /// SCP > 4.
    pub scp_above_4: bool,
    /// SCP > 2.
    pub scp_above_2: bool,
    /// SCP > 1.
    pub scp_above_1: bool,
    /// SCP > 0.5.
    pub scp_above_half: bool,
}

/// The threat rule: high if STP > 4 or SCP > 8; moderate if STP > 2 or
/// SCP > 4; enhanced if STP > 1 or SCP > 2; slight if SCP > 1; marginal if
/// SCP > 0.5; no threat otherwise. The first case that holds decides.
pub open spec fn threat_rule(s: ThreatSignals) -> ThreatLevel {
    if s.stp_above_4 || s.scp_above_8 {
        ThreatLevel::High
    } else if s.stp_above_2 || s.scp_above_4 {
        ThreatLevel::Moderate
    } else if s.stp_above_1 || s.scp_above_2 {
        ThreatLevel::Enhanced
    } else if s.scp_above_1 {
        ThreatLevel::Slight
    } else if s.scp_above_half {
        ThreatLevel::Marginal
    } else {
        ThreatLevel::NoThreat
    }
}

/// Every test that holds in `a` holds in `b`: `b` comes from parameters at
/// least as large as those of `a`.
pub open spec fn signals_at_most(a: ThreatSignals, b: ThreatSignals) -> bool {
    &&& a.stp_above_4 ==> b.stp_above_4
    &&& a.stp_above_2 ==> b.stp_above_2
    &&& a.stp_above_1 ==> b.stp_above_1
    &&& a.scp_above_8 ==> b.scp_above_8
    &&& a.scp_above_4 ==> b.scp_above_4
    &&& a.scp_above_2 ==> b.scp_above_2
    &&& a.scp_above_1 ==> b.scp_above_1
    &&& a.scp_above_half ==> b.scp_above_half
}

/// A test that calls for a moderate threat or more holds: STP > 2 or
/// SCP > 4, or one of the high-threat tests.
pub open spec fn at_least_moderate(s: ThreatSignals) -> bool {
    s.stp_above_4 || s.scp_above_8 || s.stp_above_2 || s.scp_above_4
}

/// A test that calls for an enhanced threat or more holds: STP > 1 or
/// SCP > 2, or one of the higher tests.
pub open spec fn at_least_enhanced(s: ThreatSignals) -> bool {
    at_least_moderate(s) || s.stp_above_1 || s.scp_above_2
}

/// Classify the severe-weather threat level from the outcomes of the SCP
/// and STP threshold tests.
pub fn threat_from_signals(signals: &ThreatSignals) -> (t: ThreatLevel)
    ensures
        t == threat_rule(*signals),
        (t == ThreatLevel::High) <==> (signals.stp_above_4 || signals.scp_above_8),
        threat_rank(t) >= 4 <==> at_least_moderate(*signals),
        threat_rank(t) >= 3 <==> at_least_enhanced(*signals),
        threat_rank(t) >= 2 <==> (at_least_enhanced(*signals) || signals.scp_above_1),
        threat_rank(t) >= 1 <==> (at_least_enhanced(*signals) || signals.scp_above_1 || signals.scp_above_half),
{
    if signals.stp_above_4 || signals.scp_above_8 {
        ThreatLevel::High
    } else if signals.stp_above_2 || signals.scp_above_4 {
        ThreatLevel::Moderate
    } else if signals.stp_above_1 || signals.scp_above_2 {
        ThreatLevel::Enhanced
    } else if signals.scp_above_1 {
        ThreatLevel::Slight
    } else if signals.scp_above_half {
        ThreatLevel::Marginal
    } else {
        ThreatLevel::NoThreat
    }
}

/// Passing more thresholds never lowers the threat: when every test that
/// holds for `a` also holds for `b`, the level classified from `b` is at
/// least the level classified from `a`.
pub proof fn lemma_threat_monotone(a: ThreatSignals, b: ThreatSignals)
    requires
        signals_at_most(a, b),
    ensures
        threat_rank(threat_rule(a)) <= threat_rank(threat_rule(b)),
{
}

/// The order of threat levels is their order on the scale: one level is
/// below another exactly when its rank is smaller, and equal exactly when it
/// is the same level.
pub proof fn lemma_threat_order_is_rank(a: ThreatLevel, b: ThreatLevel)
    ensures
        (PartialOrdSpec::partial_cmp_spec(&a, &b) == Some(Ordering::Less)) <==> threat_rank(a) < threat_rank(b),
        (PartialOrdSpec::partial_cmp_spec(&a, &b) == Some(Ordering::Equal)) <==> a == b,
        (PartialOrdSpec::partial_cmp_spec(&a, &b) == Some(Ordering::Greater)) <==> threat_rank(b) < threat_rank(a),
{
}

/// Each limit sets a floor on the threat, and the threat reaches a level
/// only through a test of that level or above: high exactly when STP > 4 or
/// SCP > 8; at least moderate exactly when also STP > 2 or SCP > 4 may hold;
/// at least enhanced exactly when also STP > 1 or SCP > 2 may hold; at least
/// slight exactly when also SCP > 1 may hold; at least marginal exactly when
/// also SCP > 0.5 may hold.
pub proof fn lemma_threat_floors(s: ThreatSignals)
    ensures
        (threat_rule(s) == ThreatLevel::High) <==> (s.stp_above_4 || s.scp_above_8),
        threat_rank(threat_rule(s)) >= 4 <==> (s.stp_above_4 || s.scp_above_8 || s.stp_above_2
            || s.scp_above_4),
        threat_rank(threat_rule(s)) >= 3 <==> (s.stp_above_4 || s.scp_above_8 || s.stp_above_2
            || s.scp_above_4 || s.stp_above_1 || s.scp_above_2),
        threat_rank(threat_rule(s)) >= 2 <==> (s.stp_above_4 || s.scp_above_8 || s.stp_above_2
            || s.scp_above_4 || s.stp_above_1 || s.scp_above_2 || s.scp_above_1),
        threat_rank(threat_rule(s)) >= 1 <==> (s.stp_above_4 || s.scp_above_8 || s.stp_above_2
            || s.scp_above_4 || s.stp_above_1 || s.scp_above_2 || s.scp_above_1 || s.scp_above_half),
{
}

} // verus!
