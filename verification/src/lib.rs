//! Concise Evidence (CoEV) and the OCP S.A.F.E. short-form-report profile of
//! CoRIM, with their map layouts stated and proved over a CBOR/JSON data model.

pub mod coev;
pub mod error;
pub mod profiles;
pub mod types;
pub mod value;

pub use crate::error::coev::CoevError;
pub use crate::error::ocp_safe::OcpSafeError;
pub use crate::error::{DecodeError, Error};
pub use crate::types::{
    AttestKeyTripleRecord, ConciseSwidTagId, CryptoKeyTypeChoice, DigestsType,
    DomainDependencyTripleRecord, DomainMembershipTripleRecord, EncodedRecord, EnvironmentMap,
    EvidenceEntry, ExtensionMap, ExtensionValue, IdentityTripleRecord, IntegerTime,
    MeasurementValuesMap, OidType, ProfileTypeChoice, ReferenceTripleRecord, Text, UuidType,
    VersionMap,
};
pub use crate::value::{Codec, Value};
