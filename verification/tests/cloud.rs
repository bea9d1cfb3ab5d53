use badal::cloud::CloudType;

#[test]
fn cumulonimbus_precipitates() {
    assert!(CloudType::Cumulonimbus.produces_precipitation());
}

#[test]
fn cirrus_no_precipitation() {
    assert!(!CloudType::Cirrus.produces_precipitation());
}

#[test]
fn cloud_type_display() {
    assert_eq!(CloudType::Cumulonimbus.to_string(), "Cumulonimbus");
    assert_eq!(CloudType::Cirrus.to_string(), "Cirrus");
}

#[test]
fn only_cumulonimbus_nimbostratus_and_stratus_precipitate() {
    let all = [
        CloudType::Cumulus,
        CloudType::Stratus,
        CloudType::Cirrus,
        CloudType::Cumulonimbus,
        CloudType::Stratocumulus,
        CloudType::Altostratus,
        CloudType::Altocumulus,
        CloudType::Nimbostratus,
        CloudType::Cirrostratus,
        CloudType::Cirrocumulus,
    ];
    for c in all {
        let expected = c == CloudType::Cumulonimbus
            || c == CloudType::Nimbostratus
            || c == CloudType::Stratus;
        assert_eq!(c.produces_precipitation(), expected, "{c:?}");
    }
}

#[test]
fn cloud_type_names_all_variants() {
    let cases = [
        (CloudType::Cumulus, "Cumulus"),
        (CloudType::Stratus, "Stratus"),
        (CloudType::Cirrus, "Cirrus"),
        (CloudType::Cumulonimbus, "Cumulonimbus"),
        (CloudType::Stratocumulus, "Stratocumulus"),
        (CloudType::Altostratus, "Altostratus"),
        (CloudType::Altocumulus, "Altocumulus"),
        (CloudType::Nimbostratus, "Nimbostratus"),
        (CloudType::Cirrostratus, "Cirrostratus"),
        (CloudType::Cirrocumulus, "Cirrocumulus"),
    ];
    for (c, name) in cases {
        assert_eq!(c.to_string(), name);
    }
}

#[test]
fn stratus_precipitates() {
    assert!(CloudType::Stratus.produces_precipitation());
}
