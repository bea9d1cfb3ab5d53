//! The library's error type.

use vstd::prelude::*;

verus! {

/// Errors of the atmospheric computations. Each carries a detail text.
#[derive(Debug)]
#[non_exhaustive]
pub enum BadalError {
    InvalidTemperature(String),
    InvalidPressure(String),
    InvalidHumidity(String),
    InvalidAltitude(String),
    ComputationError(String),
}

/// Result with the library's error.
pub type Result<T> = std::result::Result<T, BadalError>;

/// The text an error is displayed as: a prefix that names the kind of
/// error, then the detail.
pub open spec fn error_text(e: BadalError) -> Seq<char> {
    match e {
        BadalError::InvalidTemperature(d) => "invalid temperature: "@ + d@,
        BadalError::InvalidPressure(d) => "invalid pressure: "@ + d@,
        BadalError::InvalidHumidity(d) => "invalid humidity: "@ + d@,
        BadalError::InvalidAltitude(d) => "invalid altitude: "@ + d@,
        BadalError::ComputationError(d) => "computation error: "@ + d@,
    }
}

impl BadalError {
    /// The error's display text.
    pub fn to_string(&self) -> (s: String)
        ensures
            s@ == error_text(*self),
    {
        match self {
            BadalError::InvalidTemperature(d) => String::from_str("invalid temperature: ").concat(d.as_str()),
            BadalError::InvalidPressure(d) => String::from_str("invalid pressure: ").concat(d.as_str()),
            BadalError::InvalidHumidity(d) => String::from_str("invalid humidity: ").concat(d.as_str()),
            BadalError::InvalidAltitude(d) => String::from_str("invalid altitude: ").concat(d.as_str()),
            BadalError::ComputationError(d) => String::from_str("computation error: ").concat(d.as_str()),
        }
    }
}

} // verus!
