use badal::{BadalError, Result};

#[test]
fn error_display() {
    let e = BadalError::InvalidTemperature("below absolute zero".into());
    assert!(e.to_string().contains("below absolute zero"));
}

#[test]
fn result_type() {
    let ok: Result<f64> = Ok(1.0);
    assert!(ok.is_ok());
}

#[test]
fn error_display_every_kind() {
    assert_eq!(
        BadalError::InvalidTemperature("t".into()).to_string(),
        "invalid temperature: t"
    );
    assert_eq!(
        BadalError::InvalidPressure("density must be positive".into()).to_string(),
        "invalid pressure: density must be positive"
    );
    assert_eq!(
        BadalError::InvalidHumidity("h".into()).to_string(),
        "invalid humidity: h"
    );
    assert_eq!(
        BadalError::InvalidAltitude("a".into()).to_string(),
        "invalid altitude: a"
    );
    assert_eq!(
        BadalError::ComputationError("grid".into()).to_string(),
        "computation error: grid"
    );
}

#[test]
fn error_display_empty_detail() {
    assert_eq!(
        BadalError::ComputationError(String::new()).to_string(),
        "computation error: "
    );
}
