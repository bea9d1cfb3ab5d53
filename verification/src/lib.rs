//! Badal: weather and atmospheric modelling.
//!
//! This crate holds the verified part of the engine: the classifications
//! (cloud, precipitation, intensity, stability, severe-weather threat), the
//! error type, and the decision rules that turn threshold outcomes into a
//! precipitation type or a threat level.

pub mod bridge;
pub mod cloud;
pub mod coupling;
pub mod error;
pub mod precipitation;
pub mod severe;
pub mod stability;

pub use cloud::CloudType;
pub use error::{BadalError, Result};
pub use precipitation::PrecipitationType;
pub use severe::ThreatLevel;
pub use stability::StabilityClass;
