//! Cloud classification.

use vstd::prelude::*;

verus! {

/// Cloud classification.
#[derive(Debug, Clone, Copy, PartialEq, Eq, Structural)]
#[non_exhaustive]
pub enum CloudType {
    Cumulus,
    Stratus,
    Cirrus,
    Cumulonimbus,
    Stratocumulus,
    Altostratus,
    Altocumulus,
    Nimbostratus,
    Cirrostratus,
    Cirrocumulus,
}

/// The cloud types that produce precipitation: the convective cumulonimbus,
/// the stratiform nimbostratus, and stratus, which drizzles.
pub open spec fn precipitating(c: CloudType) -> bool {
    c == CloudType::Cumulonimbus || c == CloudType::Nimbostratus || c == CloudType::Stratus
}

/// The display name of a cloud type.
pub open spec fn cloud_type_name(c: CloudType) -> Seq<char> {
    match c {
        CloudType::Cumulus => "Cumulus"@,
        CloudType::Stratus => "Stratus"@,
        CloudType::Cirrus => "Cirrus"@,
        CloudType::Cumulonimbus => "Cumulonimbus"@,
        CloudType::Stratocumulus => "Stratocumulus"@,
        CloudType::Altostratus => "Altostratus"@,
        CloudType::Altocumulus => "Altocumulus"@,
        CloudType::Nimbostratus => "Nimbostratus"@,
        CloudType::Cirrostratus => "Cirrostratus"@,
        CloudType::Cirrocumulus => "Cirrocumulus"@,
    }
}

impl CloudType {
    /// Does this cloud type produce precipitation?
    pub fn produces_precipitation(&self) -> (r: bool)
        ensures
            r == precipitating(*self),
    {
        match self {
            CloudType::Cumulonimbus | CloudType::Nimbostratus | CloudType::Stratus => true,
            _ => false,
        }
    }

    /// The cloud type's name, as it is displayed.
    pub fn to_string(&self) -> (s: String)
        ensures
            s@ == cloud_type_name(*self),
    {
        match self {
            CloudType::Cumulus => String::from_str("Cumulus"),
            CloudType::Stratus => String::from_str("Stratus"),
            CloudType::Cirrus => String::from_str("Cirrus"),
            CloudType::Cumulonimbus => String::from_str("Cumulonimbus"),
            CloudType::Stratocumulus => String::from_str("Stratocumulus"),
            CloudType::Altostratus => String::from_str("Altostratus"),
            CloudType::Altocumulus => String::from_str("Altocumulus"),
            CloudType::Nimbostratus => String::from_str("Nimbostratus"),
            CloudType::Cirrostratus => String::from_str("Cirrostratus"),
            CloudType::Cirrocumulus => String::from_str("Cirrocumulus"),
        }
    }
}

} // verus!
