use badal::severe::{threat_from_signals, ThreatSignals};
use badal::ThreatLevel;

fn signals(scp: f64, stp: f64) -> ThreatSignals {
    ThreatSignals {
        stp_above_4: stp > 4.0,
        stp_above_2: stp > 2.0,
        stp_above_1: stp > 1.0,
        scp_above_8: scp > 8.0,
        scp_above_4: scp > 4.0,
        scp_above_2: scp > 2.0,
        scp_above_1: scp > 1.0,
        scp_above_half: scp > 0.5,
    }
}

#[test]
fn threat_ordering() {
    assert!(ThreatLevel::High > ThreatLevel::Moderate);
    assert!(ThreatLevel::Moderate > ThreatLevel::NoThreat);
}

#[test]
fn threat_display() {
    assert_eq!(ThreatLevel::Enhanced.to_string(), "Enhanced");
    assert_eq!(ThreatLevel::High.to_string(), "High");
}

#[test]
fn threat_display_every_level() {
    assert_eq!(ThreatLevel::NoThreat.to_string(), "None");
    assert_eq!(ThreatLevel::Marginal.to_string(), "Marginal");
    assert_eq!(ThreatLevel::Slight.to_string(), "Slight");
    assert_eq!(ThreatLevel::Moderate.to_string(), "Moderate");
}

#[test]
fn threat_levels_strictly_ascend() {
    let scale = [
        ThreatLevel::NoThreat,
        ThreatLevel::Marginal,
        ThreatLevel::Slight,
        ThreatLevel::Enhanced,
        ThreatLevel::Moderate,
        ThreatLevel::High,
    ];
    for i in 0..scale.len() {
        for j in 0..scale.len() {
            assert_eq!(scale[i] < scale[j], i < j);
            assert_eq!(scale[i].partial_cmp(&scale[j]), i.partial_cmp(&j));
            assert_eq!(scale[i].cmp(&scale[j]), i.cmp(&j));
        }
    }
}

#[test]
fn threat_rule_each_level() {
    assert_eq!(threat_from_signals(&signals(0.3, 0.0)), ThreatLevel::NoThreat);
    assert_eq!(threat_from_signals(&signals(0.7, 0.0)), ThreatLevel::Marginal);
    assert_eq!(threat_from_signals(&signals(1.5, 0.5)), ThreatLevel::Slight);
    assert_eq!(threat_from_signals(&signals(2.5, 1.5)), ThreatLevel::Enhanced);
    assert_eq!(threat_from_signals(&signals(5.0, 0.5)), ThreatLevel::Moderate);
    assert_eq!(threat_from_signals(&signals(9.0, 5.0)), ThreatLevel::High);
}

#[test]
fn threat_rule_stp_alone_raises_level() {
    // A tornado parameter above its limit decides even with a small SCP.
    assert_eq!(threat_from_signals(&signals(0.0, 4.5)), ThreatLevel::High);
    assert_eq!(threat_from_signals(&signals(0.0, 2.5)), ThreatLevel::Moderate);
    assert_eq!(threat_from_signals(&signals(0.0, 1.5)), ThreatLevel::Enhanced);
}

#[test]
fn threat_rule_limits_are_strict() {
    assert_eq!(threat_from_signals(&signals(0.5, 0.0)), ThreatLevel::NoThreat);
    assert_eq!(threat_from_signals(&signals(1.0, 1.0)), ThreatLevel::Marginal);
    assert_eq!(threat_from_signals(&signals(8.0, 4.0)), ThreatLevel::Moderate);
}

#[test]
fn threat_rule_monotone_in_parameters() {
    let grid = [0.0, 0.4, 0.6, 1.2, 2.2, 3.0, 4.4, 6.0, 8.5, 12.0];
    for &scp in &grid {
        for &stp in &grid {
            let base = threat_from_signals(&signals(scp, stp));
            assert!(threat_from_signals(&signals(scp + 1.0, stp)) >= base);
            assert!(threat_from_signals(&signals(scp, stp + 1.0)) >= base);
        }
    }
}
