use corim_coev::profiles::ocp_safe::{
    Assessment, Cvss, FwIdentifier, IssueEntry, ManifestEntry, OcpSafeSfrMap,
    OcpSafeSfrMapBuilder, SrcManifest,
};
use corim_coev::value::{Codec, Value};
use corim_coev::{
    DecodeError, EncodedRecord, Error, ExtensionMap, IntegerTime, MeasurementValuesMap,
    OcpSafeError, VersionMap,
};

fn to_cbor_value(v: &Value) -> ciborium::Value {
    match v {
        Value::Integer(i) => ciborium::Value::Integer(ciborium::value::Integer::try_from(*i).unwrap()),
        Value::Bytes(b) => ciborium::Value::Bytes(b.clone()),
        Value::Text(s) => ciborium::Value::Text(s.clone()),
        Value::Bool(b) => ciborium::Value::Bool(*b),
        Value::Null => ciborium::Value::Null,
        Value::Tag(t, inner) => ciborium::Value::Tag(*t, Box::new(to_cbor_value(inner))),
        Value::Array(items) => ciborium::Value::Array(items.iter().map(to_cbor_value).collect()),
        Value::Mapping(es) => ciborium::Value::Map(
            es.iter().map(|(k, v)| (to_cbor_value(k), to_cbor_value(v))).collect(),
        ),
    }
}

fn from_cbor_value(v: &ciborium::Value) -> Value {
    match v {
        ciborium::Value::Integer(i) => Value::Integer(i128::from(*i)),
        ciborium::Value::Bytes(b) => Value::Bytes(b.clone()),
        ciborium::Value::Text(s) => Value::Text(s.clone()),
        ciborium::Value::Bool(b) => Value::Bool(*b),
        ciborium::Value::Null => Value::Null,
        ciborium::Value::Tag(t, inner) => Value::Tag(*t, Box::new(from_cbor_value(inner))),
        ciborium::Value::Array(items) => Value::Array(items.iter().map(from_cbor_value).collect()),
        ciborium::Value::Map(es) => Value::Mapping(
            es.iter().map(|(k, v)| (from_cbor_value(k), from_cbor_value(v))).collect(),
        ),
        _ => panic!("value outside the data model"),
    }
}

fn to_json_value(v: &Value) -> serde_json::Value {
    match v {
        Value::Integer(i) => serde_json::Value::from(i64::try_from(*i).unwrap()),
        Value::Bytes(b) => serde_json::Value::Array(b.iter().map(|x| serde_json::Value::from(*x)).collect()),
        Value::Text(s) => serde_json::Value::String(s.clone()),
        Value::Bool(b) => serde_json::Value::Bool(*b),
        Value::Null => serde_json::Value::Null,
        Value::Tag(_, inner) => to_json_value(inner),
        Value::Array(items) => serde_json::Value::Array(items.iter().map(to_json_value).collect()),
        Value::Mapping(es) => {
            let mut m = serde_json::Map::new();
            for (k, v) in es {
                match k {
                    Value::Text(k) => {
                        m.insert(k.clone(), to_json_value(v));
                    }
                    _ => panic!("non-text key in human-readable form"),
                }
            }
            serde_json::Value::Object(m)
        }
    }
}

fn from_json_value(v: &serde_json::Value) -> Value {
    match v {
        serde_json::Value::Null => Value::Null,
        serde_json::Value::Bool(b) => Value::Bool(*b),
        serde_json::Value::Number(n) => Value::Integer(n.as_i64().unwrap() as i128),
        serde_json::Value::String(s) => Value::Text(s.clone()),
        serde_json::Value::Array(items) => Value::Array(items.iter().map(from_json_value).collect()),
        serde_json::Value::Object(m) => Value::Mapping(
            m.iter().map(|(k, v)| (Value::Text(k.clone()), from_json_value(v))).collect(),
        ),
    }
}

fn cbor_round_trip<T: Codec>(x: &T) -> T {
    let mut buf: Vec<u8> = Vec::new();
    ciborium::into_writer(&to_cbor_value(&x.to_value(false)), &mut buf).unwrap();
    let back: ciborium::Value = ciborium::from_reader(buf.as_slice()).unwrap();
    T::from_value(&from_cbor_value(&back), false).unwrap()
}

fn json_round_trip<T: Codec>(x: &T) -> T {
    let json = serde_json::to_string(&to_json_value(&x.to_value(true))).unwrap();
    let back: serde_json::Value = serde_json::from_str(&json).unwrap();
    T::from_value(&from_json_value(&back), true).unwrap()
}

fn sample_sfr() -> OcpSafeSfrMap {
    OcpSafeSfrMapBuilder::new()
        .review_framework_version("1.1".into())
        .report_version("1.2".into())
        .completion_date(IntegerTime::from(1687651200i64))
        .scope_number(1)
        .issues(vec![IssueEntry {
            title: "Memory corruption".into(),
            description: "Stack buffer overflow in SPI flash reader".into(),
            assessment: Assessment::Cvss(Cvss {
                score: "7.9".into(),
                vector: "AV:L/AC:L/PR:L/UI:N/S:C/C:L/I:H/A:L".into(),
                version: Some("3.1".into()),
            }),
            cwe: Some("CWE-111".into()),
            cve: None,
            extensions: None,
        }])
        .build()
        .unwrap()
}

#[test]
fn sfr_cbor_roundtrip() {
    let sfr = sample_sfr();
    let decoded: OcpSafeSfrMap = cbor_round_trip(&sfr);
    assert_eq!(
        sfr.review_framework_version,
        decoded.review_framework_version
    );
    assert_eq!(sfr.report_version, decoded.report_version);
    assert_eq!(sfr.scope_number, decoded.scope_number);
    assert_eq!(sfr.issues.as_ref().unwrap().len(), 1);
    let issue = &decoded.issues.unwrap()[0];
    assert_eq!(issue.title, "Memory corruption");
    assert_eq!(issue.cwe.as_deref(), Some("CWE-111"));
    assert!(issue.cve.is_none());
}

#[test]
fn sfr_json_roundtrip() {
    let sfr = sample_sfr();
    let decoded: OcpSafeSfrMap = json_round_trip(&sfr);
    assert_eq!(
        sfr.review_framework_version,
        decoded.review_framework_version
    );
    assert_eq!(sfr.scope_number, decoded.scope_number);
}

#[test]
fn builder_missing_mandatory_field() {
    let result = OcpSafeSfrMapBuilder::new()
        .review_framework_version("1.0".into())
        .build();
    assert!(result.is_err());
}

#[test]
fn fw_identifier_non_empty() {
    let fw = FwIdentifier {
        fw_version: None,
        fw_file_digests: None,
        repo_tag: None,
        src_manifest: None,
    };
    assert!(fw.is_empty());
}

#[test]
fn cvss_cbor_roundtrip() {
    let cvss = Cvss {
        score: "9.8".into(),
        vector: "AV:N/AC:L/PR:N/UI:N/S:U/C:H/I:H/A:H".into(),
        version: Some("3.1".into()),
    };
    let decoded: Cvss = cbor_round_trip(&cvss);
    assert_eq!(cvss.score, decoded.score);
    assert_eq!(cvss.vector, decoded.vector);
    assert_eq!(cvss.version, decoded.version);
}

#[test]
fn sfr_with_fw_identifiers() {
    let sfr = OcpSafeSfrMapBuilder::new()
        .review_framework_version("1.1".into())
        .report_version("1.0".into())
        .completion_date(IntegerTime::from(1700000000i64))
        .scope_number(2)
        .fw_identifiers(vec![FwIdentifier {
            fw_version: Some(VersionMap {
                version: "1.2.3".into(),
                version_scheme: None,
            }),
            fw_file_digests: None,
            repo_tag: Some("v1.2.3".into()),
            src_manifest: None,
        }])
        .build()
        .unwrap();

    let decoded: OcpSafeSfrMap = cbor_round_trip(&sfr);
    let fw = &decoded.fw_identifiers.unwrap()[0];
    assert_eq!(fw.fw_version.as_ref().unwrap().version, "1.2.3");
    assert_eq!(fw.repo_tag.as_deref(), Some("v1.2.3"));
}

#[test]
fn builder_names_first_unset_field() {
    let r = OcpSafeSfrMapBuilder::new()
        .review_framework_version("1.0".into())
        .build();
    assert_eq!(
        r.unwrap_err(),
        Error::OcpSafe(OcpSafeError::UnsetMandatoryField("OcpSafeSfrMap", "report-version"))
    );
    let r = OcpSafeSfrMapBuilder::new().build();
    assert_eq!(
        r.unwrap_err(),
        Error::OcpSafe(OcpSafeError::UnsetMandatoryField(
            "OcpSafeSfrMap",
            "review-framework-version"
        ))
    );
    let r = OcpSafeSfrMapBuilder::new()
        .review_framework_version("1.0".into())
        .report_version("1.0".into())
        .completion_date(IntegerTime::from(5))
        .build();
    assert_eq!(
        r.unwrap_err(),
        Error::OcpSafe(OcpSafeError::UnsetMandatoryField("OcpSafeSfrMap", "scope-number"))
    );
}

#[test]
fn sfr_cbor_layout_uses_integer_keys() {
    let v = sample_sfr().to_value(false);
    match v {
        Value::Mapping(es) => {
            assert_eq!(es.len(), 5);
            assert_eq!(es[0].0, Value::Integer(0));
            assert_eq!(es[0].1, Value::Text("1.1".into()));
            assert_eq!(es[2].0, Value::Integer(2));
            assert_eq!(
                es[2].1,
                Value::Tag(1, Box::new(Value::Integer(1687651200)))
            );
            assert_eq!(es[3].1, Value::Integer(1));
            assert_eq!(es[4].0, Value::Integer(5));
        }
        _ => panic!("expected a map"),
    }
}

#[test]
fn sfr_json_layout_uses_names() {
    let v = sample_sfr().to_value(true);
    match v {
        Value::Mapping(es) => {
            assert_eq!(es[0].0, Value::Text("review-framework-version".into()));
            assert_eq!(es[2].1, Value::Integer(1687651200));
            assert_eq!(es[4].0, Value::Text("issues".into()));
        }
        _ => panic!("expected a map"),
    }
}

#[test]
fn sfr_unknown_key_is_refused() {
    let mut v = sample_sfr().to_value(false);
    if let Value::Mapping(es) = &mut v {
        es.push((Value::Integer(9), Value::Null));
    }
    assert_eq!(
        OcpSafeSfrMap::from_value(&v, false).unwrap_err(),
        Error::Decode(DecodeError::UnexpectedKey(9))
    );
    let mut v = sample_sfr().to_value(true);
    if let Value::Mapping(es) = &mut v {
        es.push((Value::Text("bogus".into()), Value::Null));
    }
    assert_eq!(
        OcpSafeSfrMap::from_value(&v, true).unwrap_err(),
        Error::Decode(DecodeError::UnexpectedField("bogus".into()))
    );
}

#[test]
fn sfr_missing_field_when_read() {
    let v = Value::Mapping(vec![(Value::Integer(0), Value::Text("1.0".into()))]);
    assert_eq!(
        OcpSafeSfrMap::from_value(&v, false).unwrap_err(),
        Error::OcpSafe(OcpSafeError::UnsetMandatoryField("OcpSafeSfrMap", "report-version"))
    );
    assert_eq!(
        OcpSafeSfrMap::from_value(&Value::Integer(3), false).unwrap_err(),
        Error::Decode(DecodeError::ExpectedMap)
    );
}

#[test]
fn sfr_wrong_value_types_are_refused() {
    let v = Value::Mapping(vec![(Value::Integer(0), Value::Integer(1))]);
    assert_eq!(
        OcpSafeSfrMap::from_value(&v, false).unwrap_err(),
        Error::Decode(DecodeError::ExpectedText)
    );
    let v = Value::Mapping(vec![(Value::Integer(3), Value::Integer(1i128 << 70))]);
    assert_eq!(
        OcpSafeSfrMap::from_value(&v, false).unwrap_err(),
        Error::Decode(DecodeError::IntegerOutOfRange)
    );
    let v = Value::Mapping(vec![(Value::Text("scope-number".into()), Value::Null)]);
    assert_eq!(
        OcpSafeSfrMap::from_value(&v, false).unwrap_err(),
        Error::Decode(DecodeError::ExpectedInteger)
    );
}

#[test]
fn empty_fw_identifier_is_refused_when_read() {
    let fw = FwIdentifier {
        fw_version: None,
        fw_file_digests: None,
        repo_tag: None,
        src_manifest: None,
    };
    let v = fw.to_value(false);
    assert_eq!(v, Value::Mapping(vec![]));
    assert_eq!(
        FwIdentifier::from_value(&v, false).unwrap_err(),
        Error::OcpSafe(OcpSafeError::EmptyFwIdentifier)
    );
}

#[test]
fn issue_missing_title() {
    let v = Value::Mapping(vec![(Value::Integer(1), Value::Text("d".into()))]);
    assert_eq!(
        IssueEntry::from_value(&v, false).unwrap_err(),
        Error::Decode(DecodeError::MissingField("title"))
    );
}

#[test]
fn src_manifest_round_trip() {
    let m = SrcManifest {
        manifest_digest: EncodedRecord { value: Value::Bytes(vec![1, 2, 3]) },
        manifest: vec![ManifestEntry {
            filename: "main.c".into(),
            file_hash: EncodedRecord { value: Value::Bytes(vec![9]) },
        }],
    };
    let fw = FwIdentifier {
        fw_version: None,
        fw_file_digests: None,
        repo_tag: None,
        src_manifest: Some(m),
    };
    let back: FwIdentifier = cbor_round_trip(&fw);
    assert_eq!(back, fw);
    let back: FwIdentifier = json_round_trip(&fw);
    assert_eq!(back.src_manifest.unwrap().manifest[0].filename, "main.c");
}

#[test]
fn tagged_integer_key_is_read_in_cbor() {
    let v = Value::Mapping(vec![
        (Value::Tag(99, Box::new(Value::Integer(0))), Value::Text("9.1".into())),
        (Value::Integer(1), Value::Tag(7, Box::new(Value::Text("AV".into())))),
    ]);
    let c = Cvss::from_value(&v, false).unwrap();
    assert_eq!(c.score, "9.1");
    assert_eq!(c.vector, "AV");
    assert!(Cvss::from_value(&v, true).is_err());
}

#[test]
fn sfr_from_measurement_values() {
    let sfr = sample_sfr();
    let mval = MeasurementValuesMap {
        extensions: Some(ExtensionMap {
            entries: vec![
                (Value::Integer(7), Value::Null),
                (Value::Integer(-1), sfr.to_value(false)),
            ],
        }),
    };
    let got = OcpSafeSfrMap::from_measurement_values(&mval).unwrap();
    assert_eq!(got, sfr);
    let empty = MeasurementValuesMap { extensions: None };
    assert_eq!(
        OcpSafeSfrMap::from_measurement_values(&empty).unwrap_err(),
        Error::OcpSafe(OcpSafeError::MissingSfrExtension)
    );
    let other = MeasurementValuesMap {
        extensions: Some(ExtensionMap { entries: vec![(Value::Integer(7), Value::Null)] }),
    };
    assert_eq!(
        OcpSafeSfrMap::from_measurement_values(&other).unwrap_err(),
        Error::OcpSafe(OcpSafeError::MissingSfrExtension)
    );
}

#[test]
fn sfr_from_measurement_values_that_are_no_sfr() {
    let not_a_map = MeasurementValuesMap {
        extensions: Some(ExtensionMap { entries: vec![(Value::Integer(-1), Value::Null)] }),
    };
    assert_eq!(
        OcpSafeSfrMap::from_measurement_values(&not_a_map).unwrap_err(),
        Error::OcpSafe(OcpSafeError::Custom(
            "CBOR deserialize SFR: invalid type: expected a map".into()
        ))
    );
    let missing = MeasurementValuesMap {
        extensions: Some(ExtensionMap {
            entries: vec![(
                Value::Integer(-1),
                Value::Mapping(vec![(Value::Integer(0), Value::Text("1.0".into()))]),
            )],
        }),
    };
    assert_eq!(
        OcpSafeSfrMap::from_measurement_values(&missing).unwrap_err(),
        Error::OcpSafe(OcpSafeError::Custom(
            "CBOR deserialize SFR: OcpSafeSfrMap: mandatory field 'report-version' is not set"
                .into()
        ))
    );
    let unknown_key = MeasurementValuesMap {
        extensions: Some(ExtensionMap {
            entries: vec![(
                Value::Integer(-1),
                Value::Mapping(vec![(Value::Integer(-12), Value::Null)]),
            )],
        }),
    };
    assert_eq!(
        OcpSafeSfrMap::from_measurement_values(&unknown_key).unwrap_err(),
        Error::OcpSafe(OcpSafeError::Custom(
            "CBOR deserialize SFR: unexpected key \"-12\"".into()
        ))
    );
}

#[test]
fn decode_error_messages() {
    assert_eq!(DecodeError::UnexpectedKey(-17).message(), "unexpected key \"-17\"");
    assert_eq!(DecodeError::UnexpectedKey(i64::MIN).message(), "unexpected key \"-9223372036854775808\"");
    assert_eq!(DecodeError::UnexpectedKey(0).message(), "unexpected key \"0\"");
    assert_eq!(DecodeError::InvalidLength(10, "16 bytes").message(), "invalid length 10, expected 16 bytes");
    assert_eq!(DecodeError::MissingRequiredField("evidence").message(), "missing required field 'evidence'");
    assert_eq!(DecodeError::ExpectedTag(u64::MAX).message(), "expected tag 18446744073709551615");
    assert_eq!(DecodeError::ExpectedTag(571).message(), "expected tag 571");
    assert_eq!(DecodeError::MissingField("title").message(), "missing field `title`");
    assert_eq!(
        DecodeError::UnexpectedField("bogus".into()).message(),
        "unexpected field \"bogus\""
    );
    assert_eq!(DecodeError::ExpectedMap.message(), "invalid type: expected a map");
    assert_eq!(
        Error::Decode(DecodeError::IntegerOutOfRange).message(),
        "integer out of range"
    );
    assert_eq!(
        Error::OcpSafe(OcpSafeError::EmptyFwIdentifier).message(),
        "fw-identifier must have at least one field set"
    );
}

#[test]
fn sfr_extensions_are_written_after_fields() {
    let sfr = OcpSafeSfrMapBuilder::new()
        .review_framework_version("1".into())
        .report_version("2".into())
        .completion_date(IntegerTime::from(0))
        .scope_number(0)
        .extensions(ExtensionMap { entries: vec![(Value::Integer(-7), Value::Bool(true))] })
        .build()
        .unwrap();
    match sfr.to_value(false) {
        Value::Mapping(es) => {
            assert_eq!(es.len(), 5);
            assert_eq!(es[4], (Value::Integer(-7), Value::Bool(true)));
        }
        _ => panic!("expected a map"),
    }
}

#[test]
fn ocp_safe_error_messages() {
    assert_eq!(
        OcpSafeError::unset_mandatory_field("OcpSafeSfrMap", "scope-number").message(),
        "OcpSafeSfrMap: mandatory field 'scope-number' is not set"
    );
    assert_eq!(
        OcpSafeError::MissingSfrExtension.message(),
        "ocp-safe-sfr extension (key -1) not found in measurement-values-map"
    );
    assert_eq!(OcpSafeError::custom("boom").message(), "boom");
    assert_eq!(
        OcpSafeError::EmptyFwIdentifier.message(),
        "fw-identifier must have at least one field set"
    );
}

#[test]
fn assessment_from_cvss() {
    let c = Cvss { score: "1.0".into(), vector: "V".into(), version: None };
    let a: Assessment = c.clone().into();
    assert_eq!(a, Assessment::Cvss(c));
}

#[test]
fn unknown_keys_are_refused_by_every_map() {
    let unknown = |hr: bool| {
        if hr {
            Value::Mapping(vec![(Value::Text("nope".into()), Value::Null)])
        } else {
            Value::Mapping(vec![(Value::Integer(42), Value::Null)])
        }
    };
    let key_err = Error::Decode(DecodeError::UnexpectedKey(42));
    let name_err = Error::Decode(DecodeError::UnexpectedField("nope".into()));
    assert_eq!(Cvss::from_value(&unknown(false), false).unwrap_err(), key_err);
    assert_eq!(Cvss::from_value(&unknown(true), true).unwrap_err(), name_err);
    assert_eq!(IssueEntry::from_value(&unknown(false), false).unwrap_err(), key_err);
    assert_eq!(IssueEntry::from_value(&unknown(true), true).unwrap_err(), name_err);
    assert_eq!(ManifestEntry::from_value(&unknown(false), false).unwrap_err(), key_err);
    assert_eq!(ManifestEntry::from_value(&unknown(true), true).unwrap_err(), name_err);
    assert_eq!(SrcManifest::from_value(&unknown(false), false).unwrap_err(), key_err);
    assert_eq!(SrcManifest::from_value(&unknown(true), true).unwrap_err(), name_err);
    assert_eq!(FwIdentifier::from_value(&unknown(false), false).unwrap_err(), key_err);
    assert_eq!(FwIdentifier::from_value(&unknown(true), true).unwrap_err(), name_err);
}

#[test]
fn report_clones_and_constructors_keep_content() {
    let sfr = sample_sfr();
    assert_eq!(sfr.clone(), sfr);
    let fw = FwIdentifier::new(
        Some(VersionMap { version: "1".into(), version_scheme: Some(1) }),
        None,
        Some("t".into()),
        Some(SrcManifest::new(
            EncodedRecord { value: Value::Bytes(vec![1]) },
            vec![ManifestEntry::new("a.c".into(), EncodedRecord { value: Value::Bytes(vec![2]) })],
        )),
    );
    assert_eq!(fw.clone(), fw);
    let issue = IssueEntry::new(
        "t".into(),
        "d".into(),
        Assessment::Cvss(Cvss::new("1.0".into(), "V".into(), None)),
        None,
        Some("CVE-1".into()),
        Some(ExtensionMap { entries: vec![(Value::Integer(-3), Value::Text("x".into()))] }),
    );
    assert_eq!(issue.clone(), issue);
    let map = OcpSafeSfrMap::new(
        "1".into(),
        "2".into(),
        IntegerTime::from(5),
        7,
        Some(vec![fw]),
        Some(vec![issue]),
        None,
    );
    assert_eq!(map.clone(), map);
    assert_eq!(map.scope_number, 7);
}
