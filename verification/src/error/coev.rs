use vstd::prelude::*;
use vstd::string::*;

verus! {

/// Errors raised while building or reading Concise Evidence.
#[derive(Debug, Clone, PartialEq, Eq)]
pub enum CoevError {
    EmptyEvTriples,
    InvalidEvidenceId(String),
    UnsetMandatoryField(String, String),
    Custom(String),
    Unknown,
}

/// The mathematical content of a [`CoevError`].
pub enum CoevErrorModel {
    EmptyEvTriples,
    InvalidEvidenceId(Seq<char>),
    UnsetMandatoryField(Seq<char>, Seq<char>),
    Custom(Seq<char>),
    Unknown,
}

impl View for CoevError {
    type V = CoevErrorModel;

    open spec fn view(&self) -> CoevErrorModel {
        match self {
            CoevError::EmptyEvTriples => CoevErrorModel::EmptyEvTriples,
            CoevError::InvalidEvidenceId(id) => CoevErrorModel::InvalidEvidenceId(id@),
            CoevError::UnsetMandatoryField(o, f) => CoevErrorModel::UnsetMandatoryField(o@, f@),
            CoevError::Custom(m) => CoevErrorModel::Custom(m@),
            CoevError::Unknown => CoevErrorModel::Unknown,
        }
    }
}

impl CoevErrorModel {
    /// The human-readable text of the error.
    pub open spec fn message(self) -> Seq<char> {
        match self {
            CoevErrorModel::EmptyEvTriples => "an EvTriples must have at least one non-empty field"@,
            CoevErrorModel::InvalidEvidenceId(id) => "invalid evidence ID: "@ + id,
            CoevErrorModel::UnsetMandatoryField(o, f) => o + " field(s) "@ + f + " must be set"@,
            CoevErrorModel::Custom(m) => m,
            CoevErrorModel::Unknown => "unknown CoevError encountered"@,
        }
    }
}

impl CoevError {
    /// The error for a mandatory `field` of `object` that was never set.
    pub fn unset_mandatory_field(object: &str, field: &str) -> (e: Self)
        ensures
            e@ == CoevErrorModel::UnsetMandatoryField(object@, field@),
    {
        CoevError::UnsetMandatoryField(String::from_str(object), String::from_str(field))
    }

    /// An error carrying an arbitrary message.
    pub fn custom(message: &str) -> (e: Self)
        ensures
            e@ == CoevErrorModel::Custom(message@),
    {
        CoevError::Custom(String::from_str(message))
    }

    /// The human-readable text of the error.
    pub fn message(&self) -> (s: String)
        ensures
            s@ == self@.message(),
    {
        match self {
            CoevError::EmptyEvTriples => String::from_str(
                "an EvTriples must have at least one non-empty field",
            ),
            CoevError::InvalidEvidenceId(id) => {
                let mut s = String::from_str("invalid evidence ID: ");
                s.append(id.as_str());
                s
            },
            CoevError::UnsetMandatoryField(object, field) => {
                let mut s = String::from_str(object.as_str());
                s.append(" field(s) ");
                s.append(field.as_str());
                s.append(" must be set");
                s
            },
            CoevError::Custom(message) => String::from_str(message.as_str()),
            CoevError::Unknown => String::from_str("unknown CoevError encountered"),
        }
    }
}

} // verus!
