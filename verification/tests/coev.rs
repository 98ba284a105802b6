use corim_coev::coev::{
    TRIPLE_RECORD_EXPECTED,
    CoevCoswidEvidenceMap, CoevCoswidTripleRecord, ConciseEvidence, ConciseEvidenceBuilder,
    EvTriples, EvTriplesBuilder, EvidenceIdTypeChoice, TaggedConciseEvidence,
};
use corim_coev::value::{Codec, Value};
use corim_coev::{CoevError, DecodeError, EncodedRecord, Error, ExtensionMap, OidType, UuidType};

fn record(x: i128) -> EncodedRecord {
    EncodedRecord { value: Value::Array(vec![Value::Integer(x)]) }
}

fn sample_triples() -> EvTriples {
    EvTriplesBuilder::new()
        .add_evidence_triple(record(1))
        .add_evidence_triple(record(2))
        .coswid_triples(vec![CoevCoswidTripleRecord::new(
            record(3),
            vec![CoevCoswidEvidenceMap {
                tag_id: Some(EncodedRecord { value: Value::Text("tag".into()) }),
                evidence: record(4),
                authorized_by: Some(vec![record(5)]),
            }],
        )])
        .build()
        .unwrap()
}

#[test]
fn ev_triples_builder_requires_a_triple() {
    assert_eq!(
        EvTriplesBuilder::new().build().unwrap_err(),
        Error::Coev(CoevError::EmptyEvTriples)
    );
    let ext_only = EvTriplesBuilder::new()
        .extensions(ExtensionMap { entries: vec![(Value::Integer(-1), Value::Null)] })
        .build();
    assert_eq!(ext_only.unwrap_err(), Error::Coev(CoevError::EmptyEvTriples));
    assert!(EvTriples::default().is_empty());
    assert!(!sample_triples().is_empty());
}

#[test]
fn ev_triples_add_appends_in_order() {
    let t = sample_triples();
    assert_eq!(t.evidence_triples, Some(vec![record(1), record(2)]));
    let t = EvTriplesBuilder::new()
        .identity_triples(vec![record(7)])
        .add_identity_triple(record(8))
        .add_attest_key_triple(record(9))
        .add_dependency_triple(record(10))
        .add_membership_triple(record(11))
        .build()
        .unwrap();
    assert_eq!(t.identity_triples, Some(vec![record(7), record(8)]));
    assert_eq!(t.attest_key_triples, Some(vec![record(9)]));
    assert_eq!(t.dependency_triples, Some(vec![record(10)]));
    assert_eq!(t.membership_triples, Some(vec![record(11)]));
}

#[test]
fn concise_evidence_builder_requires_triples() {
    assert_eq!(
        ConciseEvidenceBuilder::new().build().unwrap_err(),
        Error::Coev(CoevError::UnsetMandatoryField(
            "ConciseEvidence".into(),
            "ev-triples".into()
        ))
    );
    let ev = ConciseEvidenceBuilder::new().ev_triples(sample_triples()).build().unwrap();
    assert_eq!(ev.ev_triples, sample_triples());
    assert!(ev.evidence_id.is_none());
}

fn sample_evidence() -> ConciseEvidence {
    ConciseEvidenceBuilder::new()
        .ev_triples(sample_triples())
        .evidence_id(EvidenceIdTypeChoice::Uuid(UuidType((0u8..16).collect())))
        .profile(EncodedRecord { value: Value::Tag(32, Box::new(Value::Text("urn:x".into()))) })
        .build()
        .unwrap()
}

#[test]
fn concise_evidence_round_trips_both_forms() {
    let ev = sample_evidence();
    for hr in [false, true] {
        let back = ConciseEvidence::from_value(&ev.to_value(hr), hr).unwrap();
        assert_eq!(back, ev);
    }
}

#[test]
fn tagged_evidence_carries_tag_571() {
    let t = TaggedConciseEvidence(sample_evidence());
    let v = t.to_value(false);
    match &v {
        Value::Tag(571, _) => {}
        _ => panic!("expected tag 571"),
    }
    assert_eq!(TaggedConciseEvidence::from_value(&v, false).unwrap(), t);
    let untagged = sample_evidence().to_value(false);
    assert_eq!(
        TaggedConciseEvidence::from_value(&untagged, false).unwrap_err(),
        Error::Decode(DecodeError::ExpectedTag(571))
    );
}

#[test]
fn evidence_id_forms() {
    let uuid = EvidenceIdTypeChoice::Uuid(UuidType(vec![7; 16]));
    assert_eq!(
        uuid.to_value(false),
        Value::Tag(37, Box::new(Value::Bytes(vec![7; 16])))
    );
    match uuid.to_value(true) {
        Value::Mapping(es) => {
            assert_eq!(es[0], (Value::Text("type".into()), Value::Text("uuid".into())));
        }
        _ => panic!("expected a map"),
    }
    let oid = EvidenceIdTypeChoice::Oid(OidType(vec![0x2b, 6]));
    assert_eq!(
        EvidenceIdTypeChoice::from_value(&oid.to_value(false), false).unwrap(),
        oid
    );
    assert_eq!(
        EvidenceIdTypeChoice::from_value(&oid.to_value(true), true).unwrap(),
        oid
    );
    let other = Value::Tag(40, Box::new(Value::Null));
    assert_eq!(
        EvidenceIdTypeChoice::from_value(&other, false).unwrap(),
        EvidenceIdTypeChoice::Extension(Value::Tag(40, Box::new(Value::Null)))
    );
    let short = Value::Tag(37, Box::new(Value::Bytes(vec![1, 2])));
    assert_eq!(
        EvidenceIdTypeChoice::from_value(&short, false).unwrap_err(),
        Error::Decode(DecodeError::InvalidLength(2, "16 bytes"))
    );
}

#[test]
fn coswid_triple_needs_two_elements() {
    let v = Value::Array(vec![Value::Null]);
    assert_eq!(
        CoevCoswidTripleRecord::from_value(&v, false).unwrap_err(),
        Error::Decode(DecodeError::InvalidLength(1, TRIPLE_RECORD_EXPECTED))
    );
    assert_eq!(
        CoevCoswidTripleRecord::from_value(&v, false).unwrap_err().message(),
        "invalid length 1, expected a sequence of [EnvironmentMap, Vec<CoevCoswidEvidenceMap>]"
    );
    assert_eq!(
        CoevCoswidTripleRecord::from_value(&Value::Array(vec![]), false).unwrap_err(),
        Error::Decode(DecodeError::InvalidLength(0, TRIPLE_RECORD_EXPECTED))
    );
    let v = Value::Array(vec![Value::Null, Value::Array(vec![]), Value::Null]);
    assert_eq!(
        CoevCoswidTripleRecord::from_value(&v, false).unwrap_err(),
        Error::Decode(DecodeError::InvalidLength(3, TRIPLE_RECORD_EXPECTED))
    );
}

#[test]
fn coswid_evidence_needs_evidence() {
    let v = Value::Mapping(vec![(Value::Integer(0), Value::Null)]);
    assert_eq!(
        CoevCoswidEvidenceMap::from_value(&v, false).unwrap_err(),
        Error::Decode(DecodeError::MissingRequiredField("evidence"))
    );
    let err = CoevCoswidEvidenceMap::from_value(&Value::Mapping(vec![]), true).unwrap_err();
    assert_eq!(err.message(), "missing required field 'evidence'");
}

#[test]
fn ev_triples_cbor_keys() {
    match sample_triples().to_value(false) {
        Value::Mapping(es) => {
            assert_eq!(es.len(), 2);
            assert_eq!(es[0].0, Value::Integer(0));
            assert_eq!(es[1].0, Value::Integer(4));
        }
        _ => panic!("expected a map"),
    }
    match sample_triples().to_value(true) {
        Value::Mapping(es) => {
            assert_eq!(es[1].0, Value::Text("coswid-triples".into()));
        }
        _ => panic!("expected a map"),
    }
}

#[test]
fn later_entry_wins_when_read() {
    let v = Value::Mapping(vec![
        (Value::Integer(0), Value::Array(vec![Value::Integer(1)])),
        (Value::Integer(0), Value::Array(vec![Value::Integer(2)])),
    ]);
    let t = EvTriples::from_value(&v, false).unwrap();
    assert_eq!(
        t.evidence_triples,
        Some(vec![EncodedRecord { value: Value::Integer(2) }])
    );
}

#[test]
fn coev_error_messages() {
    assert_eq!(
        CoevError::unset_mandatory_field("ConciseEvidence", "ev-triples").message(),
        "ConciseEvidence field(s) ev-triples must be set"
    );
    assert_eq!(
        CoevError::EmptyEvTriples.message(),
        "an EvTriples must have at least one non-empty field"
    );
    assert_eq!(CoevError::custom("x").message(), "x");
    assert_eq!(
        CoevError::InvalidEvidenceId("q".into()).message(),
        "invalid evidence ID: q"
    );
    assert_eq!(CoevError::Unknown.message(), "unknown CoevError encountered");
}

#[test]
fn unknown_keys_are_refused_by_evidence_maps() {
    let key_map = Value::Mapping(vec![(Value::Integer(42), Value::Null)]);
    let name_map = Value::Mapping(vec![(Value::Text("nope".into()), Value::Null)]);
    let key_err = Error::Decode(DecodeError::UnexpectedFieldKey(42));
    let name_err = Error::Decode(DecodeError::UnexpectedFieldName("nope".into()));
    assert_eq!(key_err.message(), "unexpected field key \"42\"");
    assert_eq!(name_err.message(), "unexpected field name \"nope\"");
    assert_eq!(ConciseEvidence::from_value(&key_map, false).unwrap_err(), key_err);
    assert_eq!(ConciseEvidence::from_value(&name_map, true).unwrap_err(), name_err);
    assert_eq!(EvTriples::from_value(&key_map, false).unwrap_err(), key_err);
    assert_eq!(EvTriples::from_value(&name_map, true).unwrap_err(), name_err);
    assert_eq!(CoevCoswidEvidenceMap::from_value(&key_map, false).unwrap_err(), key_err);
    assert_eq!(CoevCoswidEvidenceMap::from_value(&name_map, true).unwrap_err(), name_err);
}

#[test]
fn evidence_clones_and_constructors_keep_content() {
    let ev = ConciseEvidence::new(
        sample_triples(),
        Some(EvidenceIdTypeChoice::from(UuidType(vec![3; 16]))),
        Some(record(8)),
        None,
    );
    let copy = ev.clone();
    assert_eq!(copy, ev);
    assert_eq!(
        TaggedConciseEvidence(ev.clone()).clone(),
        TaggedConciseEvidence(ev)
    );
    let t = EvTriples::new(Some(vec![record(1)]), None, None, None, None, None, None);
    assert_eq!(t.clone(), t);
    assert!(!t.is_empty());
    let m = CoevCoswidEvidenceMap::new(None, record(2), Some(vec![record(3)]));
    assert_eq!(m.clone(), m);
    assert_eq!(m.evidence, record(2));
    assert_eq!(
        EvidenceIdTypeChoice::from(OidType(vec![1])),
        EvidenceIdTypeChoice::Oid(OidType(vec![1]))
    );
    assert_eq!(
        EvidenceIdTypeChoice::from(Value::Null),
        EvidenceIdTypeChoice::Extension(Value::Null)
    );
}

#[test]
fn evidence_id_later_type_and_value_win() {
    let uuid = Value::Bytes(vec![9; 16]);
    let v = Value::Mapping(vec![
        (Value::Text("type".into()), Value::Text("uuid".into())),
        (Value::Text("type".into()), Value::Text("other".into())),
        (Value::Text("value".into()), uuid.clone()),
    ]);
    assert_eq!(
        EvidenceIdTypeChoice::from_value(&v, true).unwrap(),
        EvidenceIdTypeChoice::Extension(v.clone())
    );
    let hr_uuid = EvidenceIdTypeChoice::Uuid(UuidType(vec![9; 16])).to_value(true);
    let inner = match &hr_uuid {
        Value::Mapping(es) => es[1].1.clone(),
        _ => panic!("expected a map"),
    };
    let v = Value::Mapping(vec![
        (Value::Text("type".into()), Value::Text("other".into())),
        (Value::Text("value".into()), Value::Null),
        (Value::Text("type".into()), Value::Text("uuid".into())),
        (Value::Text("value".into()), inner),
    ]);
    assert_eq!(
        EvidenceIdTypeChoice::from_value(&v, true).unwrap(),
        EvidenceIdTypeChoice::Uuid(UuidType(vec![9; 16]))
    );
}
