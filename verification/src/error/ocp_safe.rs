use vstd::prelude::*;
use vstd::string::*;

verus! {

/// Errors specific to the OCP SAFE SFR profile.
#[derive(Debug, Clone, PartialEq, Eq)]
pub enum OcpSafeError {
    /// The SFR extension (key -1) is missing from the measurement-values-map.
    MissingSfrExtension,
    /// A mandatory field is not set.
    UnsetMandatoryField(&'static str, &'static str),
    /// The fw-identifier is empty (at least one field must be set).
    EmptyFwIdentifier,
    /// Wraps an arbitrary error message.
    Custom(String),
}

/// The mathematical content of an [`OcpSafeError`].
pub enum OcpSafeErrorModel {
    MissingSfrExtension,
    UnsetMandatoryField(Seq<char>, Seq<char>),
    EmptyFwIdentifier,
    Custom(Seq<char>),
}

impl View for OcpSafeError {
    type V = OcpSafeErrorModel;

    open spec fn view(&self) -> OcpSafeErrorModel {
        match self {
            OcpSafeError::MissingSfrExtension => OcpSafeErrorModel::MissingSfrExtension,
            OcpSafeError::UnsetMandatoryField(t, f) => OcpSafeErrorModel::UnsetMandatoryField(t@, f@),
            OcpSafeError::EmptyFwIdentifier => OcpSafeErrorModel::EmptyFwIdentifier,
            OcpSafeError::Custom(m) => OcpSafeErrorModel::Custom(m@),
        }
    }
}

impl OcpSafeErrorModel {
    /// The human-readable text of the error.
    pub open spec fn message(self) -> Seq<char> {
        match self {
            OcpSafeErrorModel::MissingSfrExtension =>
                "ocp-safe-sfr extension (key -1) not found in measurement-values-map"@,
            OcpSafeErrorModel::UnsetMandatoryField(t, f) =>
                t + ": mandatory field '"@ + f + "' is not set"@,
            OcpSafeErrorModel::EmptyFwIdentifier => "fw-identifier must have at least one field set"@,
            OcpSafeErrorModel::Custom(m) => m,
        }
    }
}

impl OcpSafeError {
    /// The error for a mandatory `field` of the type `ty` that was never set.
    pub fn unset_mandatory_field(ty: &'static str, field: &'static str) -> (e: Self)
        ensures
            e == OcpSafeError::UnsetMandatoryField(ty, field),
    {
        OcpSafeError::UnsetMandatoryField(ty, field)
    }

    /// An error carrying an arbitrary message.
    pub fn custom(message: &str) -> (e: Self)
        ensures
            e@ == OcpSafeErrorModel::Custom(message@),
    {
        OcpSafeError::Custom(String::from_str(message))
    }

    /// The human-readable text of the error.
    pub fn message(&self) -> (s: String)
        ensures
            s@ == self@.message(),
    {
        match self {
            OcpSafeError::MissingSfrExtension => String::from_str(
                "ocp-safe-sfr extension (key -1) not found in measurement-values-map",
            ),
            OcpSafeError::UnsetMandatoryField(ty, field) => {
                let mut s = String::from_str(ty);
                s.append(": mandatory field '");
                s.append(field);
                s.append("' is not set");
                s
            },
            OcpSafeError::EmptyFwIdentifier => String::from_str(
                "fw-identifier must have at least one field set",
            ),
            OcpSafeError::Custom(message) => String::from_str(message.as_str()),
        }
    }
}

} // verus!
