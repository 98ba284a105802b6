//! Concise Evidence (CoEV).
//!
//! Evidence triples that describe an attester's state, an optional evidence
//! identifier and an optional profile. In CBOR a [`ConciseEvidence`] is a map
//! with integer keys, tagged 571 when it stands alone
//! ([`TaggedConciseEvidence`]); in human-readable form the keys are names.
use vstd::prelude::*;
use vstd::string::*;

use crate::error::coev::{CoevError, CoevErrorModel};
use crate::error::{outcome, DecodeError, DecodeErrorModel, Error, ErrorModel};
use crate::types::{
    append_extensions, lemma_with_extensions_contains, with_extensions, AttestKeyTripleRecord, ConciseSwidTagId,
    CryptoKeyTypeChoice, DomainDependencyTripleRecord, DomainMembershipTripleRecord,
    EncodedRecord, EnvironmentMap, EvidenceEntry, ExtensionMap, ExtensionValue,
    IdentityTripleRecord, OidType, ProfileTypeChoice, ReferenceTripleRecord, UuidType,
};
use crate::value::{
    all_round_trip, appended, array_from_value, array_to_value, decode_error, decoded_array,
    distinct, encoded_array, key_of, key_value, lemma_array_round_trip, lemma_array_view,
    lemma_field_index_key, lemma_mapping_view, lemma_walked_push, lemma_walked_step, models, names_data, opt_encoded,
    opt_encoded_array, opt_models, opt_view, pairs_data, peel, peel_value, push_entry,
    push_opt_array_entry, push_opt_entry, push_some, walk_entries, walked, Codec, Data, FieldSink,
    Value, count_some, count_extensions, field_index, lemma_walked_refuses_unknown_key,
    clone_keeps_view, clone_list, clone_opt_list, encoded_items, has_entry,
    lemma_push_some_contains, lemma_bytes_round_trip,
};

verus! {

// ---------------------------------------------------------------------------
// EvidenceIdTypeChoice
// ---------------------------------------------------------------------------

/// Evidence identifier: a UUID, an OID, or any other value.
#[derive(Debug, PartialEq, Eq, PartialOrd, Ord)]
pub enum EvidenceIdTypeChoice {
    /// UUID-based evidence identifier (CBOR tag 37)
    Uuid(UuidType),
    /// OID-based evidence identifier (CBOR tag 111)
    Oid(OidType),
    /// Extension value
    Extension(ExtensionValue),
}

pub enum EvidenceIdModel {
    Uuid(Seq<u8>),
    Oid(Seq<u8>),
    Extension(Data),
}

impl From<UuidType> for EvidenceIdTypeChoice {
    fn from(u: UuidType) -> (r: Self) {
        EvidenceIdTypeChoice::Uuid(u)
    }
}

impl vstd::std_specs::convert::FromSpecImpl<UuidType> for EvidenceIdTypeChoice {
    open spec fn obeys_from_spec() -> bool {
        true
    }

    open spec fn from_spec(u: UuidType) -> Self {
        EvidenceIdTypeChoice::Uuid(u)
    }
}

impl From<OidType> for EvidenceIdTypeChoice {
    fn from(o: OidType) -> (r: Self) {
        EvidenceIdTypeChoice::Oid(o)
    }
}

impl vstd::std_specs::convert::FromSpecImpl<OidType> for EvidenceIdTypeChoice {
    open spec fn obeys_from_spec() -> bool {
        true
    }

    open spec fn from_spec(o: OidType) -> Self {
        EvidenceIdTypeChoice::Oid(o)
    }
}

impl From<ExtensionValue> for EvidenceIdTypeChoice {
    fn from(v: ExtensionValue) -> (r: Self) {
        EvidenceIdTypeChoice::Extension(v)
    }
}

impl vstd::std_specs::convert::FromSpecImpl<ExtensionValue> for EvidenceIdTypeChoice {
    open spec fn obeys_from_spec() -> bool {
        true
    }

    open spec fn from_spec(v: ExtensionValue) -> Self {
        EvidenceIdTypeChoice::Extension(v)
    }
}

impl Clone for EvidenceIdTypeChoice {
    /// A copy of the identifier, with the same content.
    fn clone(&self) -> (r: Self)
        ensures
            r@ == self@,
    {
        match self {
            EvidenceIdTypeChoice::Uuid(u) => EvidenceIdTypeChoice::Uuid(u.clone()),
            EvidenceIdTypeChoice::Oid(o) => EvidenceIdTypeChoice::Oid(o.clone()),
            EvidenceIdTypeChoice::Extension(v) => EvidenceIdTypeChoice::Extension(v.deep_clone()),
        }
    }
}

impl View for EvidenceIdTypeChoice {
    type V = EvidenceIdModel;

    open spec fn view(&self) -> EvidenceIdModel {
        match self {
            EvidenceIdTypeChoice::Uuid(u) => EvidenceIdModel::Uuid(u@),
            EvidenceIdTypeChoice::Oid(o) => EvidenceIdModel::Oid(o@),
            EvidenceIdTypeChoice::Extension(v) => EvidenceIdModel::Extension(v@),
        }
    }
}

/// The value of the last entry under the text key `name`: a later entry
/// overrides an earlier one with the same key.
pub open spec fn lookup_text(es: Seq<(Data, Data)>, name: Seq<char>) -> Option<Data>
    decreases es.len(),
{
    if es.len() == 0 {
        None
    } else if es.last().0 == Data::Text(name) {
        Some(es.last().1)
    } else {
        lookup_text(es.drop_last(), name)
    }
}

/// Finds the value of the last entry under the text key `name`.
fn lookup_text_value<'a>(es: &'a Vec<(Value, Value)>, name: &str) -> (r: Option<&'a Value>)
    ensures
        match r {
            Some(v) => lookup_text(pairs_data(es@), name@) == Some(v@),
            None => lookup_text(pairs_data(es@), name@) == None::<Data>,
        },
{
    let ghost ps = pairs_data(es@);
    let key = String::from_str(name);
    let mut i: usize = es.len();
    assert(ps.take(i as int) =~= ps);
    while i > 0
        invariant
            i <= es@.len(),
            ps == pairs_data(es@),
            key@ == name@,
            lookup_text(ps, name@) == lookup_text(ps.take(i as int), name@),
        decreases i,
    {
        let j = i - 1;
        assert(ps.take(i as int).drop_last() =~= ps.take(j as int));
        assert(ps.take(i as int).last() == (es@[j as int].0@, es@[j as int].1@));
        match &es[j].0 {
            Value::Text(k) => {
                if *k == key {
                    return Some(&es[j].1);
                }
            },
            _ => {},
        }
        i = j;
    }
    None
}

impl EvidenceIdTypeChoice {
    /// Whether reading `d` would take it for a UUID or an OID rather than an extension.
    pub open spec fn claimed(d: Data, hr: bool) -> bool {
        if hr {
            match d {
                Data::Mapping(es) => {
                    &&& lookup_text(es, "type"@) is Some
                    &&& lookup_text(es, "value"@) is Some
                    &&& (lookup_text(es, "type"@) == Some(Data::Text("uuid"@)) || lookup_text(
                        es,
                        "type"@,
                    ) == Some(Data::Text("oid"@)))
                },
                _ => false,
            }
        } else {
            match d {
                Data::Tag(t, _) => t == 37 || t == 111,
                _ => false,
            }
        }
    }

    pub open spec fn typed(kind: Seq<char>, v: Data) -> Data {
        Data::Mapping(seq![(Data::Text("type"@), Data::Text(kind)), (Data::Text("value"@), v)])
    }
}

pub open spec fn uuid_result(r: Result<Seq<u8>, ErrorModel>) -> Result<EvidenceIdModel, ErrorModel> {
    match r {
        Ok(b) => Ok(EvidenceIdModel::Uuid(b)),
        Err(e) => Err(e),
    }
}

pub open spec fn oid_result(r: Result<Seq<u8>, ErrorModel>) -> Result<EvidenceIdModel, ErrorModel> {
    match r {
        Ok(b) => Ok(EvidenceIdModel::Oid(b)),
        Err(e) => Err(e),
    }
}

fn is_text(v: &Value, s: &str) -> (r: bool)
    ensures
        r == (v@ == Data::Text(s@)),
{
    match v {
        Value::Text(t) => *t == String::from_str(s),
        _ => false,
    }
}

impl Codec for EvidenceIdTypeChoice {
    /// In human-readable form a UUID or OID is written as
    /// `{"type": "uuid"|"oid", "value": ...}`; in CBOR it is the tagged byte string.
    open spec fn encoded(m: EvidenceIdModel, hr: bool) -> Data {
        match m {
            EvidenceIdModel::Uuid(b) => if hr {
                EvidenceIdTypeChoice::typed("uuid"@, UuidType::encoded(b, hr))
            } else {
                UuidType::encoded(b, hr)
            },
            EvidenceIdModel::Oid(b) => if hr {
                EvidenceIdTypeChoice::typed("oid"@, OidType::encoded(b, hr))
            } else {
                OidType::encoded(b, hr)
            },
            EvidenceIdModel::Extension(d) => d,
        }
    }

    open spec fn decoded(d: Data, hr: bool) -> Result<EvidenceIdModel, ErrorModel> {
        if hr {
            match d {
                Data::Mapping(es) => match (lookup_text(es, "type"@), lookup_text(es, "value"@)) {
                    (Some(t), Some(v)) => if t == Data::Text("uuid"@) {
                        uuid_result(UuidType::decoded(v, hr))
                    } else if t == Data::Text("oid"@) {
                        oid_result(OidType::decoded(v, hr))
                    } else {
                        Ok(EvidenceIdModel::Extension(d))
                    },
                    _ => Ok(EvidenceIdModel::Extension(d)),
                },
                _ => Ok(EvidenceIdModel::Extension(d)),
            }
        } else {
            match d {
                Data::Tag(t, _) => if t == 37 {
                    uuid_result(UuidType::decoded(d, hr))
                } else if t == 111 {
                    oid_result(OidType::decoded(d, hr))
                } else {
                    Ok(EvidenceIdModel::Extension(d))
                },
                _ => Ok(EvidenceIdModel::Extension(d)),
            }
        }
    }

    open spec fn round_trips(m: EvidenceIdModel, hr: bool) -> bool {
        match m {
            EvidenceIdModel::Uuid(b) => b.len() == 16,
            EvidenceIdModel::Oid(_) => true,
            EvidenceIdModel::Extension(d) => !EvidenceIdTypeChoice::claimed(d, hr),
        }
    }

    fn to_value(&self, hr: bool) -> (v: Value) {
        match self {
            EvidenceIdTypeChoice::Uuid(u) => {
                if hr {
                    typed_value("uuid", u.to_value(hr))
                } else {
                    u.to_value(hr)
                }
            },
            EvidenceIdTypeChoice::Oid(o) => {
                if hr {
                    typed_value("oid", o.to_value(hr))
                } else {
                    o.to_value(hr)
                }
            },
            EvidenceIdTypeChoice::Extension(x) => x.deep_clone(),
        }
    }

    fn from_value(v: &Value, hr: bool) -> (r: Result<Self, Error>) {
        if hr {
            match v {
                Value::Mapping(es) => {
                    proof {
                        lemma_mapping_view(*es);
                    }
                    match (lookup_text_value(es, "type"), lookup_text_value(es, "value")) {
                        (Some(t), Some(x)) => {
                            if is_text(t, "uuid") {
                                let u = UuidType::from_value(x, hr)?;
                                Ok(EvidenceIdTypeChoice::Uuid(u))
                            } else if is_text(t, "oid") {
                                let o = OidType::from_value(x, hr)?;
                                Ok(EvidenceIdTypeChoice::Oid(o))
                            } else {
                                Ok(EvidenceIdTypeChoice::Extension(v.deep_clone()))
                            }
                        },
                        _ => Ok(EvidenceIdTypeChoice::Extension(v.deep_clone())),
                    }
                },
                _ => Ok(EvidenceIdTypeChoice::Extension(v.deep_clone())),
            }
        } else {
            match v {
                Value::Tag(t, _) => {
                    if *t == 37 {
                        let u = UuidType::from_value(v, hr)?;
                        Ok(EvidenceIdTypeChoice::Uuid(u))
                    } else if *t == 111 {
                        let o = OidType::from_value(v, hr)?;
                        Ok(EvidenceIdTypeChoice::Oid(o))
                    } else {
                        Ok(EvidenceIdTypeChoice::Extension(v.deep_clone()))
                    }
                },
                _ => Ok(EvidenceIdTypeChoice::Extension(v.deep_clone())),
            }
        }
    }

    proof fn lemma_round_trip(m: EvidenceIdModel, hr: bool) {
        match m {
            EvidenceIdModel::Uuid(b) => {
                UuidType::lemma_round_trip(b, hr);
                if hr {
                    lemma_typed_lookup("uuid"@, UuidType::encoded(b, hr));
                }
            },
            EvidenceIdModel::Oid(b) => {
                OidType::lemma_round_trip(b, hr);
                if hr {
                    lemma_typed_lookup("oid"@, OidType::encoded(b, hr));
                    reveal_strlit("oid");
                    reveal_strlit("uuid");
                    assert("oid"@.len() != "uuid"@.len());
                }
            },
            EvidenceIdModel::Extension(d) => {},
        }
    }
}

proof fn lemma_typed_lookup(kind: Seq<char>, v: Data)
    ensures
        ({
            let es = EvidenceIdTypeChoice::typed(kind, v)->Mapping_0;
            &&& lookup_text(es, "type"@) == Some(Data::Text(kind))
            &&& lookup_text(es, "value"@) == Some(v)
        }),
{
    let es = EvidenceIdTypeChoice::typed(kind, v)->Mapping_0;
    reveal_strlit("type");
    reveal_strlit("value");
    assert("type"@.len() != "value"@.len());
    let e1 = seq![(Data::Text("type"@), Data::Text(kind))];
    assert(es.drop_last() =~= e1);
    assert(e1.drop_last() =~= Seq::<(Data, Data)>::empty());
    assert(lookup_text(Seq::<(Data, Data)>::empty(), "type"@) == None::<Data>);
    assert(lookup_text(Seq::<(Data, Data)>::empty(), "value"@) == None::<Data>);
    assert(lookup_text(e1, "type"@) == Some(Data::Text(kind)));
    assert(lookup_text(e1, "value"@) == None::<Data>);
}

/// `{"type": kind, "value": v}`
fn typed_value(kind: &str, v: Value) -> (r: Value)
    ensures
        r@ == EvidenceIdTypeChoice::typed(kind@, v@),
{
    let mut es: Vec<(Value, Value)> = Vec::new();
    push_entry(&mut es, Value::Text(String::from_str("type")), Value::Text(String::from_str(kind)));
    push_entry(&mut es, Value::Text(String::from_str("value")), v);
    proof {
        lemma_mapping_view(es);
    }
    assert(pairs_data(es@) =~= EvidenceIdTypeChoice::typed(kind@, v@)->Mapping_0);
    Value::Mapping(es)
}

// ---------------------------------------------------------------------------
// CoevCoswidEvidenceMap
// ---------------------------------------------------------------------------

/// A CoSWID evidence entry: an optional tag identifier, the evidence, and the
/// optional keys that authorize it.
#[derive(Debug, PartialEq, Eq, PartialOrd, Ord)]
pub struct CoevCoswidEvidenceMap {
    /// Optional CoSWID tag identifier (key 0)
    pub tag_id: Option<ConciseSwidTagId>,
    /// Evidence entry describing the observed state (key 1)
    pub evidence: EvidenceEntry,
    /// Optional cryptographic keys authorizing this evidence (key 2)
    pub authorized_by: Option<Vec<CryptoKeyTypeChoice>>,
}

pub struct CoevCoswidEvidenceModel {
    pub tag_id: Option<Data>,
    pub evidence: Data,
    pub authorized_by: Option<Seq<Data>>,
}

impl CoevCoswidEvidenceMap {
    /// A CoSWID evidence entry of the given fields.
    pub fn new(tag_id: Option<ConciseSwidTagId>, evidence: EvidenceEntry, authorized_by: Option<Vec<CryptoKeyTypeChoice>>) -> (r: Self)
        ensures
            r.tag_id == tag_id,
            r.evidence == evidence,
            r.authorized_by == authorized_by,
    {
        CoevCoswidEvidenceMap { tag_id, evidence, authorized_by }
    }
}

impl Clone for CoevCoswidEvidenceMap {
    /// A copy of the evidence entry, with the same content.
    fn clone(&self) -> (r: Self)
        ensures
            r@ == self@,
    {
        assert(clone_keeps_view::<CryptoKeyTypeChoice>());
        CoevCoswidEvidenceMap {
            tag_id: self.tag_id.clone(),
            evidence: self.evidence.clone(),
            authorized_by: clone_opt_list(&self.authorized_by),
        }
    }
}

impl View for CoevCoswidEvidenceMap {
    type V = CoevCoswidEvidenceModel;

    open spec fn view(&self) -> CoevCoswidEvidenceModel {
        CoevCoswidEvidenceModel {
            tag_id: opt_view(self.tag_id),
            evidence: self.evidence@,
            authorized_by: opt_models(self.authorized_by),
        }
    }
}

/// The fields of a [`CoevCoswidEvidenceMap`] read so far.
pub struct CoswidEvidenceFields {
    tag_id: Option<ConciseSwidTagId>,
    evidence: Option<EvidenceEntry>,
    authorized_by: Option<Vec<CryptoKeyTypeChoice>>,
}

pub struct CoswidEvidenceFieldsModel {
    pub tag_id: Option<Data>,
    pub evidence: Option<Data>,
    pub authorized_by: Option<Seq<Data>>,
}

impl View for CoswidEvidenceFields {
    type V = CoswidEvidenceFieldsModel;

    closed spec fn view(&self) -> CoswidEvidenceFieldsModel {
        CoswidEvidenceFieldsModel {
            tag_id: opt_view(self.tag_id),
            evidence: opt_view(self.evidence),
            authorized_by: opt_models(self.authorized_by),
        }
    }
}

fn coswid_evidence_names() -> (r: &'static [&'static str])
    ensures
        names_data(r@) == CoswidEvidenceFields::field_names(),
{
    let r: &'static [&'static str] = &["tagId", "evidence", "authorized-by"];
    assert(names_data(r@) =~= CoswidEvidenceFields::field_names());
    r
}

impl FieldSink for CoswidEvidenceFields {
    open spec fn field_names() -> Seq<Seq<char>> {
        seq!["tagId"@, "evidence"@, "authorized-by"@]
    }

    open spec fn accepted(st: CoswidEvidenceFieldsModel, index: int, d: Data, hr: bool) -> Result<
        CoswidEvidenceFieldsModel,
        ErrorModel,
    > {
        if index == 0 {
            Ok(CoswidEvidenceFieldsModel { tag_id: Some(d), ..st })
        } else if index == 1 {
            Ok(CoswidEvidenceFieldsModel { evidence: Some(d), ..st })
        } else {
            match decoded_array::<CryptoKeyTypeChoice>(d, hr) {
                Ok(keys) => Ok(CoswidEvidenceFieldsModel { authorized_by: Some(keys), ..st }),
                Err(e) => Err(e),
            }
        }
    }

    fn accept(&mut self, index: usize, v: &Value, hr: bool) -> (r: Result<(), Error>) {
        if index == 0 {
            self.tag_id = Some(EncodedRecord::from_value(v, hr)?);
        } else if index == 1 {
            self.evidence = Some(EncodedRecord::from_value(v, hr)?);
        } else {
            self.authorized_by = Some(array_from_value(v, hr)?);
        }
        Ok(())
    }
}

impl CoevCoswidEvidenceMap {
    pub open spec fn encoded_entries(m: CoevCoswidEvidenceModel, hr: bool) -> Seq<(Data, Data)> {
        push_some(
            push_some(Seq::empty(), key_of(0, "tagId"@, hr), m.tag_id).push(
                (key_of(1, "evidence"@, hr), m.evidence),
            ),
            key_of(2, "authorized-by"@, hr),
            opt_encoded_array::<CryptoKeyTypeChoice>(m.authorized_by, hr),
        )
    }

    pub open spec fn empty_fields() -> CoswidEvidenceFieldsModel {
        CoswidEvidenceFieldsModel { tag_id: None, evidence: None, authorized_by: None }
    }

    pub open spec fn finished(st: CoswidEvidenceFieldsModel) -> Result<
        CoevCoswidEvidenceModel,
        ErrorModel,
    > {
        match st.evidence {
            Some(e) => Ok(
                CoevCoswidEvidenceModel {
                    tag_id: st.tag_id,
                    evidence: e,
                    authorized_by: st.authorized_by,
                },
            ),
            None => Err(decode_error(DecodeErrorModel::MissingRequiredField("evidence"@))),
        }
    }
}

/// What a CoSWID triple record is expected to be, as its length error says.
pub const TRIPLE_RECORD_EXPECTED: &'static str = "a sequence of [EnvironmentMap, Vec<CoevCoswidEvidenceMap>]";

pub open spec fn triple_record_expected() -> Seq<char> {
    TRIPLE_RECORD_EXPECTED@
}

/// An error as the Concise Evidence maps report it: a text key that names no
/// field is an unexpected field name, an integer one an unexpected field key.
pub open spec fn as_evidence_error(e: ErrorModel) -> ErrorModel {
    match e {
        ErrorModel::Decode(DecodeErrorModel::UnexpectedField(name)) => ErrorModel::Decode(
            DecodeErrorModel::UnexpectedFieldName(name),
        ),
        ErrorModel::Decode(DecodeErrorModel::UnexpectedKey(key)) => ErrorModel::Decode(
            DecodeErrorModel::UnexpectedFieldKey(key),
        ),
        _ => e,
    }
}

fn evidence_error(e: Error) -> (r: Error)
    ensures
        r@ == as_evidence_error(e@),
{
    match e {
        Error::Decode(DecodeError::UnexpectedField(name)) => Error::Decode(
            DecodeError::UnexpectedFieldName(name),
        ),
        Error::Decode(DecodeError::UnexpectedKey(key)) => Error::Decode(
            DecodeError::UnexpectedFieldKey(key),
        ),
        other => other,
    }
}

impl Codec for CoevCoswidEvidenceMap {
    open spec fn encoded(m: CoevCoswidEvidenceModel, hr: bool) -> Data {
        Data::Mapping(CoevCoswidEvidenceMap::encoded_entries(m, hr))
    }

    open spec fn decoded(d: Data, hr: bool) -> Result<CoevCoswidEvidenceModel, ErrorModel> {
        match peel(d, hr) {
            Data::Mapping(es) => match walked::<CoswidEvidenceFields>(
                CoevCoswidEvidenceMap::empty_fields(),
                es,
                hr,
            ) {
                Ok(st) => CoevCoswidEvidenceMap::finished(st),
                Err(e) => Err(as_evidence_error(e)),
            },
            _ => Err(decode_error(DecodeErrorModel::ExpectedMap)),
        }
    }

    open spec fn round_trips(m: CoevCoswidEvidenceModel, hr: bool) -> bool {
        true
    }

    fn to_value(&self, hr: bool) -> (v: Value) {
        let mut es: Vec<(Value, Value)> = Vec::new();
        assert(pairs_data(es@) =~= Seq::<(Data, Data)>::empty());
        push_opt_entry(&mut es, 0, "tagId", &self.tag_id, hr);
        push_entry(&mut es, key_value(1, "evidence", hr), self.evidence.to_value(hr));
        push_opt_array_entry(&mut es, 2, "authorized-by", &self.authorized_by, hr);
        assert(opt_encoded::<EncodedRecord>(opt_view(self.tag_id), hr) == self@.tag_id);
        proof {
            lemma_mapping_view(es);
        }
        Value::Mapping(es)
    }

    fn from_value(v: &Value, hr: bool) -> (r: Result<Self, Error>) {
        match peel_value(v, hr) {
            Value::Mapping(es) => {
                proof {
                    lemma_mapping_view(*es);
                }
                let mut fields = CoswidEvidenceFields {
                    tag_id: None,
                    evidence: None,
                    authorized_by: None,
                };
                match walk_entries(&mut fields, es, coswid_evidence_names(), hr) {
                    Ok(_) => {},
                    Err(e) => return Err(evidence_error(e)),
                }
                match fields.evidence {
                    Some(evidence) => Ok(
                        CoevCoswidEvidenceMap {
                            tag_id: fields.tag_id,
                            evidence,
                            authorized_by: fields.authorized_by,
                        },
                    ),
                    None => Err(Error::Decode(DecodeError::MissingRequiredField("evidence"))),
                }
            },
            _ => Err(Error::Decode(DecodeError::ExpectedMap)),
        }
    }

    proof fn lemma_round_trip(m: CoevCoswidEvidenceModel, hr: bool) {
        let names = CoswidEvidenceFields::field_names();
        reveal_strlit("tagId");
        reveal_strlit("evidence");
        reveal_strlit("authorized-by");
        assert(names[0].len() != names[1].len());
        assert(names[0].len() != names[2].len());
        assert(names[1].len() != names[2].len());
        assert(distinct(names));
        lemma_field_index_key(names, 0, hr);
        lemma_field_index_key(names, 1, hr);
        lemma_field_index_key(names, 2, hr);
        let st0 = CoevCoswidEvidenceMap::empty_fields();
        let e0 = Seq::<(Data, Data)>::empty();
        let e1 = push_some(e0, key_of(0, "tagId"@, hr), m.tag_id);
        let e2 = e1.push((key_of(1, "evidence"@, hr), m.evidence));
        match m.tag_id {
            Some(t) => lemma_walked_push::<CoswidEvidenceFields>(
                st0,
                e0,
                (key_of(0, "tagId"@, hr), t),
                hr,
            ),
            None => {},
        }
        lemma_walked_push::<CoswidEvidenceFields>(
            st0,
            e1,
            (key_of(1, "evidence"@, hr), m.evidence),
            hr,
        );
        match m.authorized_by {
            Some(keys) => {
                lemma_array_round_trip::<CryptoKeyTypeChoice>(keys, hr);
                lemma_walked_push::<CoswidEvidenceFields>(
                    st0,
                    e2,
                    (
                        key_of(2, "authorized-by"@, hr),
                        encoded_array::<CryptoKeyTypeChoice>(keys, hr),
                    ),
                    hr,
                );
            },
            None => {},
        }
    }
}

// ---------------------------------------------------------------------------
// CoevCoswidTripleRecord
// ---------------------------------------------------------------------------

/// Record linking an environment to CoSWID evidence entries; written as the
/// array `[environment, [evidence...]]`.
#[derive(Debug, PartialEq, Eq, PartialOrd, Ord)]
pub struct CoevCoswidTripleRecord {
    /// The environment the evidence pertains to
    pub environment: EnvironmentMap,
    /// One or more CoSWID evidence entries
    pub coswid_evidence: Vec<CoevCoswidEvidenceMap>,
}

pub struct CoevCoswidTripleModel {
    pub environment: Data,
    pub coswid_evidence: Seq<CoevCoswidEvidenceModel>,
}

impl Clone for CoevCoswidTripleRecord {
    /// A copy of the record, with the same content.
    fn clone(&self) -> (r: Self)
        ensures
            r@ == self@,
    {
        assert(clone_keeps_view::<CoevCoswidEvidenceMap>());
        CoevCoswidTripleRecord {
            environment: self.environment.clone(),
            coswid_evidence: clone_list(&self.coswid_evidence),
        }
    }
}

impl View for CoevCoswidTripleRecord {
    type V = CoevCoswidTripleModel;

    open spec fn view(&self) -> CoevCoswidTripleModel {
        CoevCoswidTripleModel {
            environment: self.environment@,
            coswid_evidence: models(self.coswid_evidence@),
        }
    }
}

impl CoevCoswidTripleRecord {
    pub fn new(environment: EnvironmentMap, coswid_evidence: Vec<CoevCoswidEvidenceMap>) -> (r:
        Self)
        ensures
            r@ == (CoevCoswidTripleModel {
                environment: environment@,
                coswid_evidence: models(coswid_evidence@),
            }),
    {
        CoevCoswidTripleRecord { environment, coswid_evidence }
    }
}

impl Codec for CoevCoswidTripleRecord {
    open spec fn encoded(m: CoevCoswidTripleModel, hr: bool) -> Data {
        Data::Array(
            seq![m.environment, encoded_array::<CoevCoswidEvidenceMap>(m.coswid_evidence, hr)],
        )
    }

    /// Fewer than two elements, or more, is an error that names the length;
    /// the elements are read before more than two is found.
    open spec fn decoded(d: Data, hr: bool) -> Result<CoevCoswidTripleModel, ErrorModel> {
        match peel(d, hr) {
            Data::Array(ds) => if ds.len() < 2 {
                Err(decode_error(DecodeErrorModel::InvalidLength(ds.len(), triple_record_expected())))
            } else {
                match decoded_array::<CoevCoswidEvidenceMap>(ds[1], hr) {
                    Err(e) => Err(e),
                    Ok(evs) => if ds.len() > 2 {
                        Err(
                            decode_error(
                                DecodeErrorModel::InvalidLength(ds.len(), triple_record_expected()),
                            ),
                        )
                    } else {
                        Ok(CoevCoswidTripleModel { environment: ds[0], coswid_evidence: evs })
                    },
                }
            },
            _ => Err(decode_error(DecodeErrorModel::ExpectedArray)),
        }
    }

    open spec fn round_trips(m: CoevCoswidTripleModel, hr: bool) -> bool {
        true
    }

    fn to_value(&self, hr: bool) -> (v: Value) {
        let mut items: Vec<Value> = Vec::new();
        items.push(self.environment.to_value(hr));
        items.push(array_to_value(&self.coswid_evidence, hr));
        proof {
            lemma_array_view(items);
        }
        assert(crate::value::items_data(items@) =~= seq![
            self.environment@,
            encoded_array::<CoevCoswidEvidenceMap>(models(self.coswid_evidence@), hr),
        ]);
        Value::Array(items)
    }

    fn from_value(v: &Value, hr: bool) -> (r: Result<Self, Error>) {
        match peel_value(v, hr) {
            Value::Array(items) => {
                proof {
                    lemma_array_view(*items);
                }
                if items.len() < 2 {
                    return Err(
                        Error::Decode(DecodeError::InvalidLength(items.len(), TRIPLE_RECORD_EXPECTED)),
                    );
                }
                let environment = EncodedRecord::from_value(&items[0], hr)?;
                let coswid_evidence = array_from_value(&items[1], hr)?;
                if items.len() > 2 {
                    return Err(
                        Error::Decode(DecodeError::InvalidLength(items.len(), TRIPLE_RECORD_EXPECTED)),
                    );
                }
                Ok(CoevCoswidTripleRecord { environment, coswid_evidence })
            },
            _ => Err(Error::Decode(DecodeError::ExpectedArray)),
        }
    }

    proof fn lemma_round_trip(m: CoevCoswidTripleModel, hr: bool) {
        assert forall|i: int| 0 <= i < m.coswid_evidence.len() implies CoevCoswidEvidenceMap::round_trips(
            #[trigger] m.coswid_evidence[i],
            hr,
        ) by {}
        lemma_array_round_trip::<CoevCoswidEvidenceMap>(m.coswid_evidence, hr);
    }
}

// ---------------------------------------------------------------------------
// EvTriples
// ---------------------------------------------------------------------------

/// Container for evidence-specific triples; at least one kind of triple is present.
#[derive(Debug, PartialEq, Eq, PartialOrd, Ord)]
pub struct EvTriples {
    /// Evidence triples (environment → measurement claims), CBOR key 0
    pub evidence_triples: Option<Vec<ReferenceTripleRecord>>,
    /// Identity triples (environment → cryptographic keys), CBOR key 1
    pub identity_triples: Option<Vec<IdentityTripleRecord>>,
    /// Dependency triples (domain → dependent domains), CBOR key 2
    pub dependency_triples: Option<Vec<DomainDependencyTripleRecord>>,
    /// Membership triples (domain → member environments), CBOR key 3
    pub membership_triples: Option<Vec<DomainMembershipTripleRecord>>,
    /// CoSWID evidence triples, CBOR key 4
    pub coswid_triples: Option<Vec<CoevCoswidTripleRecord>>,
    /// Attestation key triples, CBOR key 5
    pub attest_key_triples: Option<Vec<AttestKeyTripleRecord>>,
    /// Optional extensible attributes
    pub extensions: Option<ExtensionMap>,
}

pub struct EvTriplesModel {
    pub evidence_triples: Option<Seq<Data>>,
    pub identity_triples: Option<Seq<Data>>,
    pub dependency_triples: Option<Seq<Data>>,
    pub membership_triples: Option<Seq<Data>>,
    pub coswid_triples: Option<Seq<CoevCoswidTripleModel>>,
    pub attest_key_triples: Option<Seq<Data>>,
    pub extensions: Option<Seq<(Data, Data)>>,
}

impl EvTriplesModel {
    /// No kind of triple is present.
    pub open spec fn no_triples(self) -> bool {
        &&& self.evidence_triples is None
        &&& self.identity_triples is None
        &&& self.dependency_triples is None
        &&& self.membership_triples is None
        &&& self.coswid_triples is None
        &&& self.attest_key_triples is None
    }

    pub open spec fn empty() -> EvTriplesModel {
        EvTriplesModel {
            evidence_triples: None,
            identity_triples: None,
            dependency_triples: None,
            membership_triples: None,
            coswid_triples: None,
            attest_key_triples: None,
            extensions: None,
        }
    }

    /// What building from these contents gives.
    pub open spec fn built(self) -> Result<EvTriplesModel, ErrorModel> {
        if self.no_triples() {
            Err(ErrorModel::Coev(CoevErrorModel::EmptyEvTriples))
        } else {
            Ok(self)
        }
    }
}

impl EvTriples {
    /// Evidence triples of the given fields, as given: no kind of triple is required here.
    pub fn new(evidence_triples: Option<Vec<ReferenceTripleRecord>>, identity_triples: Option<Vec<IdentityTripleRecord>>, dependency_triples: Option<Vec<DomainDependencyTripleRecord>>, membership_triples: Option<Vec<DomainMembershipTripleRecord>>, coswid_triples: Option<Vec<CoevCoswidTripleRecord>>, attest_key_triples: Option<Vec<AttestKeyTripleRecord>>, extensions: Option<ExtensionMap>) -> (r: Self)
        ensures
            r.evidence_triples == evidence_triples,
            r.identity_triples == identity_triples,
            r.dependency_triples == dependency_triples,
            r.membership_triples == membership_triples,
            r.coswid_triples == coswid_triples,
            r.attest_key_triples == attest_key_triples,
            r.extensions == extensions,
    {
        EvTriples { evidence_triples, identity_triples, dependency_triples, membership_triples, coswid_triples, attest_key_triples, extensions }
    }
}

impl Clone for EvTriples {
    /// A copy of the triples, with the same content.
    fn clone(&self) -> (r: Self)
        ensures
            r@ == self@,
    {
        assert(clone_keeps_view::<EncodedRecord>());
        assert(clone_keeps_view::<CoevCoswidTripleRecord>());
        EvTriples {
            evidence_triples: clone_opt_list(&self.evidence_triples),
            identity_triples: clone_opt_list(&self.identity_triples),
            dependency_triples: clone_opt_list(&self.dependency_triples),
            membership_triples: clone_opt_list(&self.membership_triples),
            coswid_triples: clone_opt_list(&self.coswid_triples),
            attest_key_triples: clone_opt_list(&self.attest_key_triples),
            extensions: self.extensions.clone(),
        }
    }
}

impl View for EvTriples {
    type V = EvTriplesModel;

    open spec fn view(&self) -> EvTriplesModel {
        EvTriplesModel {
            evidence_triples: opt_models(self.evidence_triples),
            identity_triples: opt_models(self.identity_triples),
            dependency_triples: opt_models(self.dependency_triples),
            membership_triples: opt_models(self.membership_triples),
            coswid_triples: opt_models(self.coswid_triples),
            attest_key_triples: opt_models(self.attest_key_triples),
            extensions: opt_view(self.extensions),
        }
    }
}

impl EvTriples {
    /// True when no kind of triple is present.
    pub fn is_empty(&self) -> (r: bool)
        ensures
            r == self@.no_triples(),
            r <==> (self.evidence_triples is None && self.identity_triples is None
                && self.dependency_triples is None && self.membership_triples is None
                && self.coswid_triples is None && self.attest_key_triples is None),
    {
        self.evidence_triples.is_none() && self.identity_triples.is_none()
            && self.dependency_triples.is_none() && self.membership_triples.is_none()
            && self.coswid_triples.is_none() && self.attest_key_triples.is_none()
    }

    pub open spec fn encoded_entries(m: EvTriplesModel, hr: bool) -> Seq<(Data, Data)> {
        with_extensions(
            push_some(
                push_some(
                    push_some(
                        push_some(
                            push_some(
                                push_some(
                                    Seq::empty(),
                                    key_of(0, "evidence-triples"@, hr),
                                    opt_encoded_array::<ReferenceTripleRecord>(
                                        m.evidence_triples,
                                        hr,
                                    ),
                                ),
                                key_of(1, "identity-triples"@, hr),
                                opt_encoded_array::<IdentityTripleRecord>(m.identity_triples, hr),
                            ),
                            key_of(2, "dependency-triples"@, hr),
                            opt_encoded_array::<DomainDependencyTripleRecord>(
                                m.dependency_triples,
                                hr,
                            ),
                        ),
                        key_of(3, "membership-triples"@, hr),
                        opt_encoded_array::<DomainMembershipTripleRecord>(
                            m.membership_triples,
                            hr,
                        ),
                    ),
                    key_of(4, "coswid-triples"@, hr),
                    opt_encoded_array::<CoevCoswidTripleRecord>(m.coswid_triples, hr),
                ),
                key_of(5, "attestkey-triples"@, hr),
                opt_encoded_array::<AttestKeyTripleRecord>(m.attest_key_triples, hr),
            ),
            m.extensions,
        )
    }
}

impl Default for EvTriples {
    fn default() -> (r: Self)
        ensures
            r@ == EvTriplesModel::empty(),
    {
        EvTriples {
            evidence_triples: None,
            identity_triples: None,
            dependency_triples: None,
            membership_triples: None,
            coswid_triples: None,
            attest_key_triples: None,
            extensions: None,
        }
    }
}

/// Builder for [`EvTriples`].
pub struct EvTriplesBuilder {
    evidence_triples: Option<Vec<ReferenceTripleRecord>>,
    identity_triples: Option<Vec<IdentityTripleRecord>>,
    dependency_triples: Option<Vec<DomainDependencyTripleRecord>>,
    membership_triples: Option<Vec<DomainMembershipTripleRecord>>,
    coswid_triples: Option<Vec<CoevCoswidTripleRecord>>,
    attest_key_triples: Option<Vec<AttestKeyTripleRecord>>,
    extensions: Option<ExtensionMap>,
}

impl View for EvTriplesBuilder {
    type V = EvTriplesModel;

    closed spec fn view(&self) -> EvTriplesModel {
        EvTriplesModel {
            evidence_triples: opt_models(self.evidence_triples),
            identity_triples: opt_models(self.identity_triples),
            dependency_triples: opt_models(self.dependency_triples),
            membership_triples: opt_models(self.membership_triples),
            coswid_triples: opt_models(self.coswid_triples),
            attest_key_triples: opt_models(self.attest_key_triples),
            extensions: opt_view(self.extensions),
        }
    }
}

/// The list with `x` pushed at its end, or a new list of `x` alone.
fn pushed<T>(o: Option<Vec<T>>, x: T) -> (r: Vec<T>)
    ensures
        r@ == appended(match o {
            Some(v) => Some(v@),
            None => None,
        }, x),
{
    let mut v = match o {
        Some(v) => v,
        None => Vec::new(),
    };
    v.push(x);
    v
}

proof fn lemma_models_pushed<T: View>(o: Option<Vec<T>>, r: Vec<T>, x: T)
    requires
        r@ == appended(match o {
            Some(v) => Some(v@),
            None => None,
        }, x),
    ensures
        models(r@) == appended(opt_models(o), x@),
{
    match o {
        Some(v) => assert(models(r@) =~= models(v@).push(x@)),
        None => assert(models(r@) =~= seq![x@]),
    }
}

impl EvTriplesBuilder {
    pub fn new() -> (r: Self)
        ensures
            r@ == EvTriplesModel::empty(),
    {
        EvTriplesBuilder {
            evidence_triples: None,
            identity_triples: None,
            dependency_triples: None,
            membership_triples: None,
            coswid_triples: None,
            attest_key_triples: None,
            extensions: None,
        }
    }

    pub fn evidence_triples(self, triples: Vec<ReferenceTripleRecord>) -> (r: Self)
        ensures
            r@ == (EvTriplesModel { evidence_triples: Some(models(triples@)), ..self@ }),
    {
        let mut b = self;
        b.evidence_triples = Some(triples);
        b
    }

    pub fn add_evidence_triple(self, triple: ReferenceTripleRecord) -> (r: Self)
        ensures
            r@ == (EvTriplesModel {
                evidence_triples: Some(appended(self@.evidence_triples, triple@)),
                ..self@
            }),
    {
        let mut b = self;
        let ghost o = b.evidence_triples;
        let ghost t = triple;
        let v = pushed(b.evidence_triples, triple);
        proof {
            lemma_models_pushed(o, v, t);
        }
        b.evidence_triples = Some(v);
        b
    }

    pub fn identity_triples(self, triples: Vec<IdentityTripleRecord>) -> (r: Self)
        ensures
            r@ == (EvTriplesModel { identity_triples: Some(models(triples@)), ..self@ }),
    {
        let mut b = self;
        b.identity_triples = Some(triples);
        b
    }

    pub fn add_identity_triple(self, triple: IdentityTripleRecord) -> (r: Self)
        ensures
            r@ == (EvTriplesModel {
                identity_triples: Some(appended(self@.identity_triples, triple@)),
                ..self@
            }),
    {
        let mut b = self;
        let ghost o = b.identity_triples;
        let ghost t = triple;
        let v = pushed(b.identity_triples, triple);
        proof {
            lemma_models_pushed(o, v, t);
        }
        b.identity_triples = Some(v);
        b
    }

    pub fn dependency_triples(self, triples: Vec<DomainDependencyTripleRecord>) -> (r: Self)
        ensures
            r@ == (EvTriplesModel { dependency_triples: Some(models(triples@)), ..self@ }),
    {
        let mut b = self;
        b.dependency_triples = Some(triples);
        b
    }

    pub fn add_dependency_triple(self, triple: DomainDependencyTripleRecord) -> (r: Self)
        ensures
            r@ == (EvTriplesModel {
                dependency_triples: Some(appended(self@.dependency_triples, triple@)),
                ..self@
            }),
    {
        let mut b = self;
        let ghost o = b.dependency_triples;
        let ghost t = triple;
        let v = pushed(b.dependency_triples, triple);
        proof {
            lemma_models_pushed(o, v, t);
        }
        b.dependency_triples = Some(v);
        b
    }

    pub fn membership_triples(self, triples: Vec<DomainMembershipTripleRecord>) -> (r: Self)
        ensures
            r@ == (EvTriplesModel { membership_triples: Some(models(triples@)), ..self@ }),
    {
        let mut b = self;
        b.membership_triples = Some(triples);
        b
    }

    pub fn add_membership_triple(self, triple: DomainMembershipTripleRecord) -> (r: Self)
        ensures
            r@ == (EvTriplesModel {
                membership_triples: Some(appended(self@.membership_triples, triple@)),
                ..self@
            }),
    {
        let mut b = self;
        let ghost o = b.membership_triples;
        let ghost t = triple;
        let v = pushed(b.membership_triples, triple);
        proof {
            lemma_models_pushed(o, v, t);
        }
        b.membership_triples = Some(v);
        b
    }

    pub fn coswid_triples(self, triples: Vec<CoevCoswidTripleRecord>) -> (r: Self)
        ensures
            r@ == (EvTriplesModel { coswid_triples: Some(models(triples@)), ..self@ }),
    {
        let mut b = self;
        b.coswid_triples = Some(triples);
        b
    }

    pub fn add_coswid_triple(self, triple: CoevCoswidTripleRecord) -> (r: Self)
        ensures
            r@ == (EvTriplesModel {
                coswid_triples: Some(appended(self@.coswid_triples, triple@)),
                ..self@
            }),
    {
        let mut b = self;
        let ghost o = b.coswid_triples;
        let ghost t = triple;
        let v = pushed(b.coswid_triples, triple);
        proof {
            lemma_models_pushed(o, v, t);
        }
        b.coswid_triples = Some(v);
        b
    }

    pub fn attest_key_triples(self, triples: Vec<AttestKeyTripleRecord>) -> (r: Self)
        ensures
            r@ == (EvTriplesModel { attest_key_triples: Some(models(triples@)), ..self@ }),
    {
        let mut b = self;
        b.attest_key_triples = Some(triples);
        b
    }

    pub fn add_attest_key_triple(self, triple: AttestKeyTripleRecord) -> (r: Self)
        ensures
            r@ == (EvTriplesModel {
                attest_key_triples: Some(appended(self@.attest_key_triples, triple@)),
                ..self@
            }),
    {
        let mut b = self;
        let ghost o = b.attest_key_triples;
        let ghost t = triple;
        let v = pushed(b.attest_key_triples, triple);
        proof {
            lemma_models_pushed(o, v, t);
        }
        b.attest_key_triples = Some(v);
        b
    }

    pub fn extensions(self, extensions: ExtensionMap) -> (r: Self)
        ensures
            r@ == (EvTriplesModel { extensions: Some(extensions@), ..self@ }),
    {
        let mut b = self;
        b.extensions = Some(extensions);
        b
    }

    /// The triples; an error when no kind of triple was set.
    pub fn build(self) -> (r: Result<EvTriples, Error>)
        ensures
            outcome(r) == self@.built(),
            r is Ok <==> (self@.evidence_triples is Some || self@.identity_triples is Some
                || self@.dependency_triples is Some || self@.membership_triples is Some
                || self@.coswid_triples is Some || self@.attest_key_triples is Some),
            r matches Ok(t) ==> t@ == self@,
            r matches Err(e) ==> e == Error::Coev(CoevError::EmptyEvTriples),
    {
        if self.evidence_triples.is_none() && self.identity_triples.is_none()
            && self.dependency_triples.is_none() && self.membership_triples.is_none()
            && self.coswid_triples.is_none() && self.attest_key_triples.is_none() {
            return Err(Error::Coev(CoevError::EmptyEvTriples));
        }
        Ok(
            EvTriples {
                evidence_triples: self.evidence_triples,
                identity_triples: self.identity_triples,
                dependency_triples: self.dependency_triples,
                membership_triples: self.membership_triples,
                coswid_triples: self.coswid_triples,
                attest_key_triples: self.attest_key_triples,
                extensions: self.extensions,
            },
        )
    }
}

impl Default for EvTriplesBuilder {
    fn default() -> (r: Self)
        ensures
            r@ == EvTriplesModel::empty(),
    {
        EvTriplesBuilder::new()
    }
}

fn ev_triples_names() -> (r: &'static [&'static str])
    ensures
        names_data(r@) == EvTriplesBuilder::field_names(),
{
    let r: &'static [&'static str] = &[
        "evidence-triples",
        "identity-triples",
        "dependency-triples",
        "membership-triples",
        "coswid-triples",
        "attestkey-triples",
    ];
    assert(names_data(r@) =~= EvTriplesBuilder::field_names());
    r
}

pub open spec fn set_ev_triple(
    st: EvTriplesModel,
    index: int,
    d: Data,
    hr: bool,
) -> Result<EvTriplesModel, ErrorModel> {
    if index == 0 {
        match decoded_array::<ReferenceTripleRecord>(d, hr) {
            Ok(xs) => Ok(EvTriplesModel { evidence_triples: Some(xs), ..st }),
            Err(e) => Err(e),
        }
    } else if index == 1 {
        match decoded_array::<IdentityTripleRecord>(d, hr) {
            Ok(xs) => Ok(EvTriplesModel { identity_triples: Some(xs), ..st }),
            Err(e) => Err(e),
        }
    } else if index == 2 {
        match decoded_array::<DomainDependencyTripleRecord>(d, hr) {
            Ok(xs) => Ok(EvTriplesModel { dependency_triples: Some(xs), ..st }),
            Err(e) => Err(e),
        }
    } else if index == 3 {
        match decoded_array::<DomainMembershipTripleRecord>(d, hr) {
            Ok(xs) => Ok(EvTriplesModel { membership_triples: Some(xs), ..st }),
            Err(e) => Err(e),
        }
    } else if index == 4 {
        match decoded_array::<CoevCoswidTripleRecord>(d, hr) {
            Ok(xs) => Ok(EvTriplesModel { coswid_triples: Some(xs), ..st }),
            Err(e) => Err(e),
        }
    } else {
        match decoded_array::<AttestKeyTripleRecord>(d, hr) {
            Ok(xs) => Ok(EvTriplesModel { attest_key_triples: Some(xs), ..st }),
            Err(e) => Err(e),
        }
    }
}

impl FieldSink for EvTriplesBuilder {
    open spec fn field_names() -> Seq<Seq<char>> {
        seq![
            "evidence-triples"@,
            "identity-triples"@,
            "dependency-triples"@,
            "membership-triples"@,
            "coswid-triples"@,
            "attestkey-triples"@,
        ]
    }

    open spec fn accepted(st: EvTriplesModel, index: int, d: Data, hr: bool) -> Result<
        EvTriplesModel,
        ErrorModel,
    > {
        set_ev_triple(st, index, d, hr)
    }

    fn accept(&mut self, index: usize, v: &Value, hr: bool) -> (r: Result<(), Error>) {
        if index == 0 {
            self.evidence_triples = Some(array_from_value(v, hr)?);
        } else if index == 1 {
            self.identity_triples = Some(array_from_value(v, hr)?);
        } else if index == 2 {
            self.dependency_triples = Some(array_from_value(v, hr)?);
        } else if index == 3 {
            self.membership_triples = Some(array_from_value(v, hr)?);
        } else if index == 4 {
            self.coswid_triples = Some(array_from_value(v, hr)?);
        } else {
            self.attest_key_triples = Some(array_from_value(v, hr)?);
        }
        Ok(())
    }
}

proof fn lemma_records_round_trip(ms: Seq<Data>, hr: bool)
    ensures
        all_round_trip::<EncodedRecord>(ms, hr),
        decoded_array::<EncodedRecord>(encoded_array::<EncodedRecord>(ms, hr), hr) == Ok::<
            Seq<Data>,
            ErrorModel,
        >(ms),
{
    assert forall|i: int| 0 <= i < ms.len() implies EncodedRecord::round_trips(
        #[trigger] ms[i],
        hr,
    ) by {}
    lemma_array_round_trip::<EncodedRecord>(ms, hr);
}

proof fn lemma_coswid_triples_round_trip(ms: Seq<CoevCoswidTripleModel>, hr: bool)
    ensures
        decoded_array::<CoevCoswidTripleRecord>(
            encoded_array::<CoevCoswidTripleRecord>(ms, hr),
            hr,
        ) == Ok::<Seq<CoevCoswidTripleModel>, ErrorModel>(ms),
{
    assert forall|i: int| 0 <= i < ms.len() implies CoevCoswidTripleRecord::round_trips(
        #[trigger] ms[i],
        hr,
    ) by {}
    lemma_array_round_trip::<CoevCoswidTripleRecord>(ms, hr);
}

impl Codec for EvTriples {
    open spec fn encoded(m: EvTriplesModel, hr: bool) -> Data {
        Data::Mapping(EvTriples::encoded_entries(m, hr))
    }

    open spec fn decoded(d: Data, hr: bool) -> Result<EvTriplesModel, ErrorModel> {
        match peel(d, hr) {
            Data::Mapping(es) => match walked::<EvTriplesBuilder>(EvTriplesModel::empty(), es, hr) {
                Ok(st) => st.built(),
                Err(e) => Err(as_evidence_error(e)),
            },
            _ => Err(decode_error(DecodeErrorModel::ExpectedMap)),
        }
    }

    /// The values read back as written include those without extension entries
    /// and with at least one kind of triple. Reading takes an extension entry whose key names
    /// a kind of triple as that triple, and refuses one whose key names none.
    open spec fn round_trips(m: EvTriplesModel, hr: bool) -> bool {
        m.extensions is None && !m.no_triples()
    }

    fn to_value(&self, hr: bool) -> (v: Value) {
        let mut es: Vec<(Value, Value)> = Vec::new();
        assert(pairs_data(es@) =~= Seq::<(Data, Data)>::empty());
        push_opt_array_entry(&mut es, 0, "evidence-triples", &self.evidence_triples, hr);
        push_opt_array_entry(&mut es, 1, "identity-triples", &self.identity_triples, hr);
        push_opt_array_entry(&mut es, 2, "dependency-triples", &self.dependency_triples, hr);
        push_opt_array_entry(&mut es, 3, "membership-triples", &self.membership_triples, hr);
        push_opt_array_entry(&mut es, 4, "coswid-triples", &self.coswid_triples, hr);
        push_opt_array_entry(&mut es, 5, "attestkey-triples", &self.attest_key_triples, hr);
        append_extensions(&mut es, &self.extensions);
        proof {
            lemma_mapping_view(es);
        }
        Value::Mapping(es)
    }

    fn from_value(v: &Value, hr: bool) -> (r: Result<Self, Error>) {
        match peel_value(v, hr) {
            Value::Mapping(es) => {
                proof {
                    lemma_mapping_view(*es);
                }
                let mut builder = EvTriplesBuilder::new();
                match walk_entries(&mut builder, es, ev_triples_names(), hr) {
                    Ok(_) => {},
                    Err(e) => return Err(evidence_error(e)),
                }
                builder.build()
            },
            _ => Err(Error::Decode(DecodeError::ExpectedMap)),
        }
    }

    proof fn lemma_round_trip(m: EvTriplesModel, hr: bool) {
        let names = EvTriplesBuilder::field_names();
        reveal_strlit("evidence-triples");
        reveal_strlit("identity-triples");
        reveal_strlit("dependency-triples");
        reveal_strlit("membership-triples");
        reveal_strlit("coswid-triples");
        reveal_strlit("attestkey-triples");
        assert(names[0][0] != names[1][0]);
        assert(names[2][0] != names[3][0]);
        assert(names[0].len() == 16 && names[1].len() == 16 && names[2].len() == 18);
        assert(names[3].len() == 18 && names[4].len() == 14 && names[5].len() == 17);
        assert forall|i: int, j: int|
            0 <= i < names.len() && 0 <= j < names.len() && i != j implies names[i] != names[j] by {
            assert(i == 0 || i == 1 || i == 2 || i == 3 || i == 4 || i == 5);
            assert(j == 0 || j == 1 || j == 2 || j == 3 || j == 4 || j == 5);
        }
        assert(distinct(names));
        let st0 = EvTriplesModel::empty();
        let st1 = EvTriplesModel { evidence_triples: m.evidence_triples, ..st0 };
        let st2 = EvTriplesModel { identity_triples: m.identity_triples, ..st1 };
        let st3 = EvTriplesModel { dependency_triples: m.dependency_triples, ..st2 };
        let st4 = EvTriplesModel { membership_triples: m.membership_triples, ..st3 };
        let st5 = EvTriplesModel { coswid_triples: m.coswid_triples, ..st4 };
        let st6 = EvTriplesModel { attest_key_triples: m.attest_key_triples, ..st5 };
        let k0 = key_of(0, names[0], hr);
        let k1 = key_of(1, names[1], hr);
        let k2 = key_of(2, names[2], hr);
        let k3 = key_of(3, names[3], hr);
        let k4 = key_of(4, names[4], hr);
        let k5 = key_of(5, names[5], hr);
        let e0 = Seq::<(Data, Data)>::empty();
        let e1 = push_some(e0, k0, opt_encoded_array::<ReferenceTripleRecord>(m.evidence_triples, hr));
        let e2 = push_some(e1, k1, opt_encoded_array::<IdentityTripleRecord>(m.identity_triples, hr));
        let e3 = push_some(
            e2,
            k2,
            opt_encoded_array::<DomainDependencyTripleRecord>(m.dependency_triples, hr),
        );
        let e4 = push_some(
            e3,
            k3,
            opt_encoded_array::<DomainMembershipTripleRecord>(m.membership_triples, hr),
        );
        let e5 = push_some(e4, k4, opt_encoded_array::<CoevCoswidTripleRecord>(m.coswid_triples, hr));
        let e6 = push_some(e5, k5, opt_encoded_array::<AttestKeyTripleRecord>(m.attest_key_triples, hr));
        assert(st0 == (EvTriplesModel { evidence_triples: None, ..st0 }));
        if let Some(xs) = m.evidence_triples {
            lemma_records_round_trip(xs, hr);
            lemma_field_index_key(names, 0, hr);
        }
        lemma_walked_step::<EvTriplesBuilder>(
            st0,
            e0,
            st0,
            st1,
            k0,
            0,
            opt_encoded_array::<ReferenceTripleRecord>(m.evidence_triples, hr),
            hr,
        );
        if let Some(xs) = m.identity_triples {
            lemma_records_round_trip(xs, hr);
            lemma_field_index_key(names, 1, hr);
        }
        lemma_walked_step::<EvTriplesBuilder>(
            st0,
            e1,
            st1,
            st2,
            k1,
            1,
            opt_encoded_array::<IdentityTripleRecord>(m.identity_triples, hr),
            hr,
        );
        if let Some(xs) = m.dependency_triples {
            lemma_records_round_trip(xs, hr);
            lemma_field_index_key(names, 2, hr);
        }
        lemma_walked_step::<EvTriplesBuilder>(
            st0,
            e2,
            st2,
            st3,
            k2,
            2,
            opt_encoded_array::<DomainDependencyTripleRecord>(m.dependency_triples, hr),
            hr,
        );
        if let Some(xs) = m.membership_triples {
            lemma_records_round_trip(xs, hr);
            lemma_field_index_key(names, 3, hr);
        }
        lemma_walked_step::<EvTriplesBuilder>(
            st0,
            e3,
            st3,
            st4,
            k3,
            3,
            opt_encoded_array::<DomainMembershipTripleRecord>(m.membership_triples, hr),
            hr,
        );
        if let Some(xs) = m.coswid_triples {
            lemma_coswid_triples_round_trip(xs, hr);
            lemma_field_index_key(names, 4, hr);
        }
        lemma_walked_step::<EvTriplesBuilder>(
            st0,
            e4,
            st4,
            st5,
            k4,
            4,
            opt_encoded_array::<CoevCoswidTripleRecord>(m.coswid_triples, hr),
            hr,
        );
        if let Some(xs) = m.attest_key_triples {
            lemma_records_round_trip(xs, hr);
            lemma_field_index_key(names, 5, hr);
        }
        lemma_walked_step::<EvTriplesBuilder>(
            st0,
            e5,
            st5,
            st6,
            k5,
            5,
            opt_encoded_array::<AttestKeyTripleRecord>(m.attest_key_triples, hr),
            hr,
        );
        assert(st6 == m);
        assert(EvTriples::encoded_entries(m, hr) == e6);
    }
}

// ---------------------------------------------------------------------------
// ConciseEvidence
// ---------------------------------------------------------------------------

/// The main Concise Evidence structure.
///
/// Contains evidence triples describing attester state, an optional evidence identifier,
/// and an optional profile.
#[derive(Debug, PartialEq, Eq, PartialOrd, Ord)]
pub struct ConciseEvidence {
    /// Evidence triples (required) — the core evidence data
    pub ev_triples: EvTriples,
    /// Optional evidence identifier
    pub evidence_id: Option<EvidenceIdTypeChoice>,
    /// Optional profile (URI or OID)
    pub profile: Option<ProfileTypeChoice>,
    /// Optional extensible attributes
    pub extensions: Option<ExtensionMap>,
}

pub struct ConciseEvidenceModel {
    pub ev_triples: EvTriplesModel,
    pub evidence_id: Option<EvidenceIdModel>,
    pub profile: Option<Data>,
    pub extensions: Option<Seq<(Data, Data)>>,
}

impl ConciseEvidence {
    /// Concise Evidence of the given fields.
    pub fn new(ev_triples: EvTriples, evidence_id: Option<EvidenceIdTypeChoice>, profile: Option<ProfileTypeChoice>, extensions: Option<ExtensionMap>) -> (r: Self)
        ensures
            r.ev_triples == ev_triples,
            r.evidence_id == evidence_id,
            r.profile == profile,
            r.extensions == extensions,
    {
        ConciseEvidence { ev_triples, evidence_id, profile, extensions }
    }
}

impl Clone for ConciseEvidence {
    /// A copy of the evidence, with the same content.
    fn clone(&self) -> (r: Self)
        ensures
            r@ == self@,
    {
        ConciseEvidence {
            ev_triples: self.ev_triples.clone(),
            evidence_id: self.evidence_id.clone(),
            profile: self.profile.clone(),
            extensions: self.extensions.clone(),
        }
    }
}

impl View for ConciseEvidence {
    type V = ConciseEvidenceModel;

    open spec fn view(&self) -> ConciseEvidenceModel {
        ConciseEvidenceModel {
            ev_triples: self.ev_triples@,
            evidence_id: opt_view(self.evidence_id),
            profile: opt_view(self.profile),
            extensions: opt_view(self.extensions),
        }
    }
}

impl Default for ConciseEvidence {
    fn default() -> (r: Self)
        ensures
            r@ == (ConciseEvidenceModel {
                ev_triples: EvTriplesModel::empty(),
                evidence_id: None,
                profile: None,
                extensions: None,
            }),
    {
        ConciseEvidence {
            ev_triples: EvTriples::default(),
            evidence_id: None,
            profile: None,
            extensions: None,
        }
    }
}

/// The contents of a [`ConciseEvidenceBuilder`].
pub struct ConciseEvidenceBuilderModel {
    pub ev_triples: Option<EvTriplesModel>,
    pub evidence_id: Option<EvidenceIdModel>,
    pub profile: Option<Data>,
    pub extensions: Option<Seq<(Data, Data)>>,
}

impl ConciseEvidenceBuilderModel {
    pub open spec fn empty() -> ConciseEvidenceBuilderModel {
        ConciseEvidenceBuilderModel {
            ev_triples: None,
            evidence_id: None,
            profile: None,
            extensions: None,
        }
    }

    /// What building from these contents gives.
    pub open spec fn built(self) -> Result<ConciseEvidenceModel, ErrorModel> {
        match self.ev_triples {
            Some(t) => Ok(
                ConciseEvidenceModel {
                    ev_triples: t,
                    evidence_id: self.evidence_id,
                    profile: self.profile,
                    extensions: self.extensions,
                },
            ),
            None => Err(
                ErrorModel::Coev(
                    CoevErrorModel::UnsetMandatoryField("ConciseEvidence"@, "ev-triples"@),
                ),
            ),
        }
    }
}

/// Builder for [`ConciseEvidence`].
pub struct ConciseEvidenceBuilder {
    ev_triples: Option<EvTriples>,
    evidence_id: Option<EvidenceIdTypeChoice>,
    profile: Option<ProfileTypeChoice>,
    extensions: Option<ExtensionMap>,
}

impl View for ConciseEvidenceBuilder {
    type V = ConciseEvidenceBuilderModel;

    closed spec fn view(&self) -> ConciseEvidenceBuilderModel {
        ConciseEvidenceBuilderModel {
            ev_triples: opt_view(self.ev_triples),
            evidence_id: opt_view(self.evidence_id),
            profile: opt_view(self.profile),
            extensions: opt_view(self.extensions),
        }
    }
}

impl ConciseEvidenceBuilder {
    pub fn new() -> (r: Self)
        ensures
            r@ == ConciseEvidenceBuilderModel::empty(),
    {
        ConciseEvidenceBuilder { ev_triples: None, evidence_id: None, profile: None, extensions: None }
    }

    pub fn ev_triples(self, ev_triples: EvTriples) -> (r: Self)
        ensures
            r@ == (ConciseEvidenceBuilderModel { ev_triples: Some(ev_triples@), ..self@ }),
    {
        let mut b = self;
        b.ev_triples = Some(ev_triples);
        b
    }

    pub fn evidence_id(self, evidence_id: EvidenceIdTypeChoice) -> (r: Self)
        ensures
            r@ == (ConciseEvidenceBuilderModel { evidence_id: Some(evidence_id@), ..self@ }),
    {
        let mut b = self;
        b.evidence_id = Some(evidence_id);
        b
    }

    pub fn profile(self, profile: ProfileTypeChoice) -> (r: Self)
        ensures
            r@ == (ConciseEvidenceBuilderModel { profile: Some(profile@), ..self@ }),
    {
        let mut b = self;
        b.profile = Some(profile);
        b
    }

    pub fn extensions(self, extensions: ExtensionMap) -> (r: Self)
        ensures
            r@ == (ConciseEvidenceBuilderModel { extensions: Some(extensions@), ..self@ }),
    {
        let mut b = self;
        b.extensions = Some(extensions);
        b
    }

    /// The evidence; an error when the evidence triples were not set.
    pub fn build(self) -> (r: Result<ConciseEvidence, Error>)
        ensures
            outcome(r) == self@.built(),
    {
        match self.ev_triples {
            Some(ev_triples) => Ok(
                ConciseEvidence {
                    ev_triples,
                    evidence_id: self.evidence_id,
                    profile: self.profile,
                    extensions: self.extensions,
                },
            ),
            None => Err(
                Error::Coev(CoevError::unset_mandatory_field("ConciseEvidence", "ev-triples")),
            ),
        }
    }
}

impl Default for ConciseEvidenceBuilder {
    fn default() -> (r: Self)
        ensures
            r@ == ConciseEvidenceBuilderModel::empty(),
    {
        ConciseEvidenceBuilder::new()
    }
}

fn concise_evidence_names() -> (r: &'static [&'static str])
    ensures
        names_data(r@) == ConciseEvidenceBuilder::field_names(),
{
    let r: &'static [&'static str] = &["ev-triples", "evidence-id", "profile"];
    assert(names_data(r@) =~= ConciseEvidenceBuilder::field_names());
    r
}

impl FieldSink for ConciseEvidenceBuilder {
    open spec fn field_names() -> Seq<Seq<char>> {
        seq!["ev-triples"@, "evidence-id"@, "profile"@]
    }

    open spec fn accepted(
        st: ConciseEvidenceBuilderModel,
        index: int,
        d: Data,
        hr: bool,
    ) -> Result<ConciseEvidenceBuilderModel, ErrorModel> {
        if index == 0 {
            match EvTriples::decoded(d, hr) {
                Ok(t) => Ok(ConciseEvidenceBuilderModel { ev_triples: Some(t), ..st }),
                Err(e) => Err(e),
            }
        } else if index == 1 {
            match EvidenceIdTypeChoice::decoded(d, hr) {
                Ok(x) => Ok(ConciseEvidenceBuilderModel { evidence_id: Some(x), ..st }),
                Err(e) => Err(e),
            }
        } else {
            Ok(ConciseEvidenceBuilderModel { profile: Some(d), ..st })
        }
    }

    fn accept(&mut self, index: usize, v: &Value, hr: bool) -> (r: Result<(), Error>) {
        if index == 0 {
            self.ev_triples = Some(EvTriples::from_value(v, hr)?);
        } else if index == 1 {
            self.evidence_id = Some(EvidenceIdTypeChoice::from_value(v, hr)?);
        } else {
            self.profile = Some(EncodedRecord::from_value(v, hr)?);
        }
        Ok(())
    }
}

impl ConciseEvidence {
    pub open spec fn encoded_entries(m: ConciseEvidenceModel, hr: bool) -> Seq<(Data, Data)> {
        with_extensions(
            push_some(
                push_some(
                    seq![(key_of(0, "ev-triples"@, hr), EvTriples::encoded(m.ev_triples, hr))],
                    key_of(1, "evidence-id"@, hr),
                    opt_encoded::<EvidenceIdTypeChoice>(m.evidence_id, hr),
                ),
                key_of(2, "profile"@, hr),
                m.profile,
            ),
            m.extensions,
        )
    }
}

impl Codec for ConciseEvidence {
    open spec fn encoded(m: ConciseEvidenceModel, hr: bool) -> Data {
        Data::Mapping(ConciseEvidence::encoded_entries(m, hr))
    }

    open spec fn decoded(d: Data, hr: bool) -> Result<ConciseEvidenceModel, ErrorModel> {
        match peel(d, hr) {
            Data::Mapping(es) => match walked::<ConciseEvidenceBuilder>(
                ConciseEvidenceBuilderModel::empty(),
                es,
                hr,
            ) {
                Ok(st) => st.built(),
                Err(e) => Err(as_evidence_error(e)),
            },
            _ => Err(decode_error(DecodeErrorModel::ExpectedMap)),
        }
    }

    /// The values read back as written include those without extension entries.
    /// Reading takes an extension entry whose key names a field as that field,
    /// and refuses one whose key names none.
    open spec fn round_trips(m: ConciseEvidenceModel, hr: bool) -> bool {
        &&& m.extensions is None
        &&& EvTriples::round_trips(m.ev_triples, hr)
        &&& m.evidence_id matches Some(x) ==> EvidenceIdTypeChoice::round_trips(x, hr)
    }

    fn to_value(&self, hr: bool) -> (v: Value) {
        let mut es: Vec<(Value, Value)> = Vec::new();
        push_entry(&mut es, key_value(0, "ev-triples", hr), self.ev_triples.to_value(hr));
        push_opt_entry(&mut es, 1, "evidence-id", &self.evidence_id, hr);
        assert(opt_encoded::<EncodedRecord>(opt_view(self.profile), hr) == self@.profile);
        push_opt_entry(&mut es, 2, "profile", &self.profile, hr);
        append_extensions(&mut es, &self.extensions);
        assert(pairs_data(es@) =~= ConciseEvidence::encoded_entries(self@, hr));
        proof {
            lemma_mapping_view(es);
        }
        Value::Mapping(es)
    }

    fn from_value(v: &Value, hr: bool) -> (r: Result<Self, Error>) {
        match peel_value(v, hr) {
            Value::Mapping(es) => {
                proof {
                    lemma_mapping_view(*es);
                }
                let mut builder = ConciseEvidenceBuilder::new();
                match walk_entries(&mut builder, es, concise_evidence_names(), hr) {
                    Ok(_) => {},
                    Err(e) => return Err(evidence_error(e)),
                }
                builder.build()
            },
            _ => Err(Error::Decode(DecodeError::ExpectedMap)),
        }
    }

    proof fn lemma_round_trip(m: ConciseEvidenceModel, hr: bool) {
        let names = ConciseEvidenceBuilder::field_names();
        reveal_strlit("ev-triples");
        reveal_strlit("evidence-id");
        reveal_strlit("profile");
        assert(names[0].len() != names[1].len());
        assert(names[0].len() != names[2].len());
        assert(names[1].len() != names[2].len());
        assert(distinct(names));
        lemma_field_index_key(names, 0, hr);
        lemma_field_index_key(names, 1, hr);
        lemma_field_index_key(names, 2, hr);
        EvTriples::lemma_round_trip(m.ev_triples, hr);
        if let Some(x) = m.evidence_id {
            EvidenceIdTypeChoice::lemma_round_trip(x, hr);
        }
        let st0 = ConciseEvidenceBuilderModel::empty();
        let st1 = ConciseEvidenceBuilderModel { ev_triples: Some(m.ev_triples), ..st0 };
        let st2 = ConciseEvidenceBuilderModel { evidence_id: m.evidence_id, ..st1 };
        let st3 = ConciseEvidenceBuilderModel { profile: m.profile, ..st2 };
        let k0 = key_of(0, names[0], hr);
        let e0 = Seq::<(Data, Data)>::empty();
        let e1 = e0.push((k0, EvTriples::encoded(m.ev_triples, hr)));
        let e2 = push_some(e1, key_of(1, names[1], hr), opt_encoded::<EvidenceIdTypeChoice>(m.evidence_id, hr));
        lemma_walked_push::<ConciseEvidenceBuilder>(st0, e0, (k0, EvTriples::encoded(m.ev_triples, hr)), hr);
        assert(e1 =~= seq![(k0, EvTriples::encoded(m.ev_triples, hr))]);
        lemma_walked_step::<ConciseEvidenceBuilder>(
            st0,
            e1,
            st1,
            st2,
            key_of(1, names[1], hr),
            1,
            opt_encoded::<EvidenceIdTypeChoice>(m.evidence_id, hr),
            hr,
        );
        lemma_walked_step::<ConciseEvidenceBuilder>(
            st0,
            e2,
            st2,
            st3,
            key_of(2, names[2], hr),
            2,
            m.profile,
            hr,
        );
    }
}

/// A [`ConciseEvidence`] under CBOR tag 571.
#[derive(Debug, PartialEq, Eq, PartialOrd, Ord)]
pub struct TaggedConciseEvidence(pub ConciseEvidence);

impl Clone for TaggedConciseEvidence {
    /// A copy of the tagged evidence, with the same content.
    fn clone(&self) -> (r: Self)
        ensures
            r@ == self@,
    {
        TaggedConciseEvidence(self.0.clone())
    }
}

impl View for TaggedConciseEvidence {
    type V = ConciseEvidenceModel;

    open spec fn view(&self) -> ConciseEvidenceModel {
        self.0@
    }
}

impl Codec for TaggedConciseEvidence {
    /// Tag 571 around the evidence in CBOR; the evidence alone in human-readable form.
    open spec fn encoded(m: ConciseEvidenceModel, hr: bool) -> Data {
        if hr {
            ConciseEvidence::encoded(m, hr)
        } else {
            Data::Tag(571, Box::new(ConciseEvidence::encoded(m, hr)))
        }
    }

    open spec fn decoded(d: Data, hr: bool) -> Result<ConciseEvidenceModel, ErrorModel> {
        if hr {
            ConciseEvidence::decoded(d, hr)
        } else {
            match d {
                Data::Tag(t, inner) => if t == 571 {
                    ConciseEvidence::decoded(*inner, hr)
                } else {
                    Err(decode_error(DecodeErrorModel::ExpectedTag(571)))
                },
                _ => Err(decode_error(DecodeErrorModel::ExpectedTag(571))),
            }
        }
    }

    open spec fn round_trips(m: ConciseEvidenceModel, hr: bool) -> bool {
        ConciseEvidence::round_trips(m, hr)
    }

    fn to_value(&self, hr: bool) -> (v: Value) {
        let inner = self.0.to_value(hr);
        if hr {
            inner
        } else {
            Value::Tag(571, Box::new(inner))
        }
    }

    fn from_value(v: &Value, hr: bool) -> (r: Result<Self, Error>) {
        if hr {
            let e = ConciseEvidence::from_value(v, hr)?;
            Ok(TaggedConciseEvidence(e))
        } else {
            match v {
                Value::Tag(t, inner) => {
                    if *t == 571 {
                        let e = ConciseEvidence::from_value(inner, hr)?;
                        Ok(TaggedConciseEvidence(e))
                    } else {
                        Err(Error::Decode(DecodeError::ExpectedTag(571)))
                    }
                },
                _ => Err(Error::Decode(DecodeError::ExpectedTag(571))),
            }
        }
    }

    proof fn lemma_round_trip(m: ConciseEvidenceModel, hr: bool) {
        ConciseEvidence::lemma_round_trip(m, hr);
    }
}

// ---------------------------------------------------------------------------
// Laws
// ---------------------------------------------------------------------------

/// Building evidence succeeds exactly when its triples are set, and the
/// evidence holds what was set.
pub proof fn lemma_concise_evidence_build(b: ConciseEvidenceBuilderModel)
    ensures
        b.built() is Ok <==> b.ev_triples is Some,
        b.built() matches Ok(m) ==> {
            &&& b.ev_triples == Some(m.ev_triples)
            &&& m.evidence_id == b.evidence_id
            &&& m.profile == b.profile
            &&& m.extensions == b.extensions
        },
        b.ev_triples is None ==> b.built() == Err::<ConciseEvidenceModel, ErrorModel>(
            ErrorModel::Coev(CoevErrorModel::UnsetMandatoryField("ConciseEvidence"@, "ev-triples"@)),
        ),
{
}

/// Evidence triples, built or read, hold at least one kind of triple; building
/// succeeds exactly when one is set.
pub proof fn lemma_ev_triples_never_empty(b: EvTriplesModel, d: Data, hr: bool)
    ensures
        b.built() is Ok <==> !b.no_triples(),
        b.built() matches Ok(m) ==> m == b,
        EvTriples::decoded(d, hr) matches Ok(m) ==> !m.no_triples(),
{
}

/// The map written for evidence has one entry for its triples, one for each
/// optional field that is set, and its extension entries.
pub proof fn lemma_concise_evidence_entry_count(m: ConciseEvidenceModel, hr: bool)
    ensures
        ConciseEvidence::encoded_entries(m, hr).len() == 1 + count_some(m.evidence_id)
            + count_some(m.profile) + count_extensions(m.extensions),
{
}

/// The map written for evidence triples has one entry for each kind of triple
/// that is present, and its extension entries.
pub proof fn lemma_ev_triples_entry_count(m: EvTriplesModel, hr: bool)
    ensures
        EvTriples::encoded_entries(m, hr).len() == count_some(m.evidence_triples) + count_some(
            m.identity_triples,
        ) + count_some(m.dependency_triples) + count_some(m.membership_triples) + count_some(
            m.coswid_triples,
        ) + count_some(m.attest_key_triples) + count_extensions(m.extensions),
{
}

/// The map written for a CoSWID evidence entry has one entry for the evidence
/// and one for each optional field that is set.
pub proof fn lemma_coswid_evidence_entry_count(m: CoevCoswidEvidenceModel, hr: bool)
    ensures
        CoevCoswidEvidenceMap::encoded_entries(m, hr).len() == 1 + count_some(m.tag_id)
            + count_some(m.authorized_by),
{
}

/// Evidence whose map has a key that names none of its fields is refused.
pub proof fn lemma_concise_evidence_refuses_unknown_key(es: Seq<(Data, Data)>, i: int, hr: bool)
    requires
        0 <= i < es.len(),
        field_index(es[i].0, hr, ConciseEvidenceBuilder::field_names()) is Err,
    ensures
        ConciseEvidence::decoded(Data::Mapping(es), hr) is Err,
{
    lemma_walked_refuses_unknown_key::<ConciseEvidenceBuilder>(
        ConciseEvidenceBuilderModel::empty(),
        es,
        i,
        hr,
    );
}

/// A CoSWID evidence map with a key that names none of its fields is refused.
pub proof fn lemma_coswid_evidence_refuses_unknown_key(es: Seq<(Data, Data)>, i: int, hr: bool)
    requires
        0 <= i < es.len(),
        field_index(es[i].0, hr, CoswidEvidenceFields::field_names()) is Err,
    ensures
        CoevCoswidEvidenceMap::decoded(Data::Mapping(es), hr) is Err,
{
    lemma_walked_refuses_unknown_key::<CoswidEvidenceFields>(
        CoevCoswidEvidenceMap::empty_fields(),
        es,
        i,
        hr,
    );
}

/// Evidence triples whose map has a key that names no kind of triple are refused.
pub proof fn lemma_ev_triples_refuses_unknown_key(es: Seq<(Data, Data)>, i: int, hr: bool)
    requires
        0 <= i < es.len(),
        field_index(es[i].0, hr, EvTriplesBuilder::field_names()) is Err,
    ensures
        EvTriples::decoded(Data::Mapping(es), hr) is Err,
{
    lemma_walked_refuses_unknown_key::<EvTriplesBuilder>(EvTriplesModel::empty(), es, i, hr);
}


/// Building evidence triples succeeds exactly when at least one of the six kinds
/// of triple is set, and then gives back what was set; otherwise it is refused
/// as empty.
pub proof fn lemma_ev_triples_build_any_kind(b: EvTriplesModel)
    ensures
        (b.built() is Ok) <==> (b.evidence_triples is Some || b.identity_triples is Some
            || b.dependency_triples is Some || b.membership_triples is Some
            || b.coswid_triples is Some || b.attest_key_triples is Some),
        b.built() is Ok ==> b.built() == Ok::<EvTriplesModel, ErrorModel>(b),
        b.built() is Err ==> b.built() == Err::<EvTriplesModel, ErrorModel>(
            ErrorModel::Coev(CoevErrorModel::EmptyEvTriples),
        ),
{
}

/// Triples with at least one kind set and no extension entries are read back as
/// written, in either layout.
pub proof fn lemma_ev_triples_any_kind_round_trips(m: EvTriplesModel, hr: bool)
    requires
        m.evidence_triples is Some || m.identity_triples is Some || m.dependency_triples is Some
            || m.membership_triples is Some || m.coswid_triples is Some
            || m.attest_key_triples is Some,
        m.extensions is None,
        m.coswid_triples matches Some(ts) ==> all_round_trip::<CoevCoswidTripleRecord>(ts, hr),
    ensures
        EvTriples::decoded(EvTriples::encoded(m, hr), hr) == Ok::<EvTriplesModel, ErrorModel>(m),
{
    EvTriples::lemma_round_trip(m, hr);
}

/// In CBOR, a map whose one entry is an array of records under the key of a
/// record kind (0 evidence, 1 identity, 2 dependency, 3 membership, 5 attest-key)
/// is read as triples of that kind holding those records, and of no other kind.
pub proof fn lemma_ev_triples_single_kind_cbor(k: int, ds: Seq<Data>)
    requires
        k == 0 || k == 1 || k == 2 || k == 3 || k == 5,
    ensures
        EvTriples::decoded(Data::Mapping(seq![(Data::Int(k), Data::Array(ds))]), false) == Ok::<
            EvTriplesModel,
            ErrorModel,
        >(
            (EvTriplesModel {
                evidence_triples: if k == 0 { Some(ds) } else { None },
                identity_triples: if k == 1 { Some(ds) } else { None },
                dependency_triples: if k == 2 { Some(ds) } else { None },
                membership_triples: if k == 3 { Some(ds) } else { None },
                coswid_triples: None,
                attest_key_triples: if k == 5 { Some(ds) } else { None },
                extensions: None,
            }),
        ),
{
    let m = EvTriplesModel {
        evidence_triples: if k == 0 { Some(ds) } else { None },
        identity_triples: if k == 1 { Some(ds) } else { None },
        dependency_triples: if k == 2 { Some(ds) } else { None },
        membership_triples: if k == 3 { Some(ds) } else { None },
        coswid_triples: None,
        attest_key_triples: if k == 5 { Some(ds) } else { None },
        extensions: None,
    };
    EvTriples::lemma_round_trip(m, false);
    assert(encoded_items::<EncodedRecord>(ds, false) =~= ds);
    assert(EvTriples::encoded_entries(m, false) =~= seq![(Data::Int(k), Data::Array(ds))]);
}

/// In CBOR, an OID identifier is written as tag 111 around its bytes, and tag 111
/// around a byte string is read as that OID; in JSON it is `{"type": "oid",
/// "value": [its bytes]}`.
pub proof fn lemma_evidence_id_oid(b: Seq<u8>)
    ensures
        EvidenceIdTypeChoice::encoded(EvidenceIdModel::Oid(b), false) == Data::Tag(
            111,
            Box::new(Data::Bytes(b)),
        ),
        EvidenceIdTypeChoice::decoded(Data::Tag(111, Box::new(Data::Bytes(b))), false) == Ok::<
            EvidenceIdModel,
            ErrorModel,
        >(EvidenceIdModel::Oid(b)),
        EvidenceIdTypeChoice::encoded(EvidenceIdModel::Oid(b), true) == Data::Mapping(
            seq![
                (Data::Text("type"@), Data::Text("oid"@)),
                (Data::Text("value"@), Data::Array(b.map_values(|x: u8| Data::Int(x as int)))),
            ],
        ),
{
    EvidenceIdTypeChoice::lemma_round_trip(EvidenceIdModel::Oid(b), false);
}

/// In CBOR, a UUID identifier is written as tag 37 around its sixteen bytes, and
/// tag 37 around a byte string is read as a UUID when it has sixteen bytes and
/// refused otherwise.
pub proof fn lemma_evidence_id_uuid(b: Seq<u8>)
    ensures
        b.len() == 16 ==> EvidenceIdTypeChoice::encoded(EvidenceIdModel::Uuid(b), false)
            == Data::Tag(37, Box::new(Data::Bytes(b))),
        b.len() == 16 ==> EvidenceIdTypeChoice::decoded(
            Data::Tag(37, Box::new(Data::Bytes(b))),
            false,
        ) == Ok::<EvidenceIdModel, ErrorModel>(EvidenceIdModel::Uuid(b)),
        b.len() != 16 ==> EvidenceIdTypeChoice::decoded(
            Data::Tag(37, Box::new(Data::Bytes(b))),
            false,
        ) is Err,
{
    if b.len() == 16 {
        EvidenceIdTypeChoice::lemma_round_trip(EvidenceIdModel::Uuid(b), false);
    }
}

/// In CBOR, a value under any tag but 37 and 111, or under no tag, is read as an
/// extension identifier holding that value.
pub proof fn lemma_evidence_id_other_cbor(d: Data)
    requires
        !(d matches Data::Tag(t, _) && (t == 37 || t == 111)),
    ensures
        EvidenceIdTypeChoice::decoded(d, false) == Ok::<EvidenceIdModel, ErrorModel>(
            EvidenceIdModel::Extension(d),
        ),
{
}


/// A CoSWID evidence map holds its tag identifier, where set, under key 0 ("tagId"
/// in JSON), its evidence under key 1 ("evidence") and its authorizing keys, where
/// set, under key 2 ("authorized-by").
pub proof fn lemma_coswid_evidence_layout(m: CoevCoswidEvidenceModel)
    ensures
        m.tag_id matches Some(t) ==> has_entry(CoevCoswidEvidenceMap::encoded(m, false), Data::Int(0), t),
        has_entry(CoevCoswidEvidenceMap::encoded(m, false), Data::Int(1), m.evidence),
        m.authorized_by matches Some(ks) ==> has_entry(CoevCoswidEvidenceMap::encoded(m, false), Data::Int(2), encoded_array::<CryptoKeyTypeChoice>(ks, false)),
        m.tag_id matches Some(t) ==> has_entry(CoevCoswidEvidenceMap::encoded(m, true), Data::Text("tagId"@), t),
        has_entry(CoevCoswidEvidenceMap::encoded(m, true), Data::Text("evidence"@), m.evidence),
        m.authorized_by matches Some(ks) ==> has_entry(CoevCoswidEvidenceMap::encoded(m, true), Data::Text("authorized-by"@), encoded_array::<CryptoKeyTypeChoice>(ks, true)),
{
    let l0_false = Seq::<(Data, Data)>::empty();
    let l1_false = push_some(l0_false, key_of(0, "tagId"@, false), m.tag_id);
    let l2_false = push_some(l1_false, key_of(1, "evidence"@, false), Some(m.evidence));
    let l3_false = push_some(l2_false, key_of(2, "authorized-by"@, false), opt_encoded_array::<CryptoKeyTypeChoice>(m.authorized_by, false));
    assert(CoevCoswidEvidenceMap::encoded_entries(m, false) == l3_false);
    if let Some(t) = m.tag_id {
        lemma_push_some_contains(l0_false, key_of(0, "tagId"@, false), m.tag_id, (Data::Int(0), t));
        lemma_push_some_contains(l1_false, key_of(1, "evidence"@, false), Some(m.evidence), (Data::Int(0), t));
        lemma_push_some_contains(l2_false, key_of(2, "authorized-by"@, false), opt_encoded_array::<CryptoKeyTypeChoice>(m.authorized_by, false), (Data::Int(0), t));
    }
    lemma_push_some_contains(l0_false, key_of(0, "tagId"@, false), m.tag_id, (Data::Int(1), m.evidence));
    lemma_push_some_contains(l1_false, key_of(1, "evidence"@, false), Some(m.evidence), (Data::Int(1), m.evidence));
    lemma_push_some_contains(l2_false, key_of(2, "authorized-by"@, false), opt_encoded_array::<CryptoKeyTypeChoice>(m.authorized_by, false), (Data::Int(1), m.evidence));
    if let Some(ks) = m.authorized_by {
        lemma_push_some_contains(l0_false, key_of(0, "tagId"@, false), m.tag_id, (Data::Int(2), encoded_array::<CryptoKeyTypeChoice>(ks, false)));
        lemma_push_some_contains(l1_false, key_of(1, "evidence"@, false), Some(m.evidence), (Data::Int(2), encoded_array::<CryptoKeyTypeChoice>(ks, false)));
        lemma_push_some_contains(l2_false, key_of(2, "authorized-by"@, false), opt_encoded_array::<CryptoKeyTypeChoice>(m.authorized_by, false), (Data::Int(2), encoded_array::<CryptoKeyTypeChoice>(ks, false)));
    }
    let l0_true = Seq::<(Data, Data)>::empty();
    let l1_true = push_some(l0_true, key_of(0, "tagId"@, true), m.tag_id);
    let l2_true = push_some(l1_true, key_of(1, "evidence"@, true), Some(m.evidence));
    let l3_true = push_some(l2_true, key_of(2, "authorized-by"@, true), opt_encoded_array::<CryptoKeyTypeChoice>(m.authorized_by, true));
    assert(CoevCoswidEvidenceMap::encoded_entries(m, true) == l3_true);
    if let Some(t) = m.tag_id {
        lemma_push_some_contains(l0_true, key_of(0, "tagId"@, true), m.tag_id, (Data::Text("tagId"@), t));
        lemma_push_some_contains(l1_true, key_of(1, "evidence"@, true), Some(m.evidence), (Data::Text("tagId"@), t));
        lemma_push_some_contains(l2_true, key_of(2, "authorized-by"@, true), opt_encoded_array::<CryptoKeyTypeChoice>(m.authorized_by, true), (Data::Text("tagId"@), t));
    }
    lemma_push_some_contains(l0_true, key_of(0, "tagId"@, true), m.tag_id, (Data::Text("evidence"@), m.evidence));
    lemma_push_some_contains(l1_true, key_of(1, "evidence"@, true), Some(m.evidence), (Data::Text("evidence"@), m.evidence));
    lemma_push_some_contains(l2_true, key_of(2, "authorized-by"@, true), opt_encoded_array::<CryptoKeyTypeChoice>(m.authorized_by, true), (Data::Text("evidence"@), m.evidence));
    if let Some(ks) = m.authorized_by {
        lemma_push_some_contains(l0_true, key_of(0, "tagId"@, true), m.tag_id, (Data::Text("authorized-by"@), encoded_array::<CryptoKeyTypeChoice>(ks, true)));
        lemma_push_some_contains(l1_true, key_of(1, "evidence"@, true), Some(m.evidence), (Data::Text("authorized-by"@), encoded_array::<CryptoKeyTypeChoice>(ks, true)));
        lemma_push_some_contains(l2_true, key_of(2, "authorized-by"@, true), opt_encoded_array::<CryptoKeyTypeChoice>(m.authorized_by, true), (Data::Text("authorized-by"@), encoded_array::<CryptoKeyTypeChoice>(ks, true)));
    }
}

/// An evidence map holds its triples under key 0 ("ev-triples" in JSON), and, where
/// set, its identifier under key 1 ("evidence-id") and its profile under key 2
/// ("profile").
pub proof fn lemma_concise_evidence_layout(m: ConciseEvidenceModel)
    ensures
        has_entry(ConciseEvidence::encoded(m, false), Data::Int(0), EvTriples::encoded(m.ev_triples, false)),
        m.evidence_id matches Some(i) ==> has_entry(ConciseEvidence::encoded(m, false), Data::Int(1), EvidenceIdTypeChoice::encoded(i, false)),
        m.profile matches Some(p) ==> has_entry(ConciseEvidence::encoded(m, false), Data::Int(2), p),
        has_entry(ConciseEvidence::encoded(m, true), Data::Text("ev-triples"@), EvTriples::encoded(m.ev_triples, true)),
        m.evidence_id matches Some(i) ==> has_entry(ConciseEvidence::encoded(m, true), Data::Text("evidence-id"@), EvidenceIdTypeChoice::encoded(i, true)),
        m.profile matches Some(p) ==> has_entry(ConciseEvidence::encoded(m, true), Data::Text("profile"@), p),
{
    let l0_false = seq![(key_of(0, "ev-triples"@, false), EvTriples::encoded(m.ev_triples, false))];
    assert(l0_false[0] == (key_of(0, "ev-triples"@, false), EvTriples::encoded(m.ev_triples, false)));
    let l1_false = push_some(l0_false, key_of(1, "evidence-id"@, false), opt_encoded::<EvidenceIdTypeChoice>(m.evidence_id, false));
    let l2_false = push_some(l1_false, key_of(2, "profile"@, false), m.profile);
    assert(ConciseEvidence::encoded_entries(m, false) == with_extensions(l2_false, m.extensions));
    lemma_push_some_contains(l0_false, key_of(1, "evidence-id"@, false), opt_encoded::<EvidenceIdTypeChoice>(m.evidence_id, false), (Data::Int(0), EvTriples::encoded(m.ev_triples, false)));
    lemma_push_some_contains(l1_false, key_of(2, "profile"@, false), m.profile, (Data::Int(0), EvTriples::encoded(m.ev_triples, false)));
    lemma_with_extensions_contains(l2_false, m.extensions, (Data::Int(0), EvTriples::encoded(m.ev_triples, false)));
    if let Some(i) = m.evidence_id {
        lemma_push_some_contains(l0_false, key_of(1, "evidence-id"@, false), opt_encoded::<EvidenceIdTypeChoice>(m.evidence_id, false), (Data::Int(1), EvidenceIdTypeChoice::encoded(i, false)));
        lemma_push_some_contains(l1_false, key_of(2, "profile"@, false), m.profile, (Data::Int(1), EvidenceIdTypeChoice::encoded(i, false)));
        lemma_with_extensions_contains(l2_false, m.extensions, (Data::Int(1), EvidenceIdTypeChoice::encoded(i, false)));
    }
    if let Some(p) = m.profile {
        lemma_push_some_contains(l0_false, key_of(1, "evidence-id"@, false), opt_encoded::<EvidenceIdTypeChoice>(m.evidence_id, false), (Data::Int(2), p));
        lemma_push_some_contains(l1_false, key_of(2, "profile"@, false), m.profile, (Data::Int(2), p));
        lemma_with_extensions_contains(l2_false, m.extensions, (Data::Int(2), p));
    }
    let l0_true = seq![(key_of(0, "ev-triples"@, true), EvTriples::encoded(m.ev_triples, true))];
    assert(l0_true[0] == (key_of(0, "ev-triples"@, true), EvTriples::encoded(m.ev_triples, true)));
    let l1_true = push_some(l0_true, key_of(1, "evidence-id"@, true), opt_encoded::<EvidenceIdTypeChoice>(m.evidence_id, true));
    let l2_true = push_some(l1_true, key_of(2, "profile"@, true), m.profile);
    assert(ConciseEvidence::encoded_entries(m, true) == with_extensions(l2_true, m.extensions));
    lemma_push_some_contains(l0_true, key_of(1, "evidence-id"@, true), opt_encoded::<EvidenceIdTypeChoice>(m.evidence_id, true), (Data::Text("ev-triples"@), EvTriples::encoded(m.ev_triples, true)));
    lemma_push_some_contains(l1_true, key_of(2, "profile"@, true), m.profile, (Data::Text("ev-triples"@), EvTriples::encoded(m.ev_triples, true)));
    lemma_with_extensions_contains(l2_true, m.extensions, (Data::Text("ev-triples"@), EvTriples::encoded(m.ev_triples, true)));
    if let Some(i) = m.evidence_id {
        lemma_push_some_contains(l0_true, key_of(1, "evidence-id"@, true), opt_encoded::<EvidenceIdTypeChoice>(m.evidence_id, true), (Data::Text("evidence-id"@), EvidenceIdTypeChoice::encoded(i, true)));
        lemma_push_some_contains(l1_true, key_of(2, "profile"@, true), m.profile, (Data::Text("evidence-id"@), EvidenceIdTypeChoice::encoded(i, true)));
        lemma_with_extensions_contains(l2_true, m.extensions, (Data::Text("evidence-id"@), EvidenceIdTypeChoice::encoded(i, true)));
    }
    if let Some(p) = m.profile {
        lemma_push_some_contains(l0_true, key_of(1, "evidence-id"@, true), opt_encoded::<EvidenceIdTypeChoice>(m.evidence_id, true), (Data::Text("profile"@), p));
        lemma_push_some_contains(l1_true, key_of(2, "profile"@, true), m.profile, (Data::Text("profile"@), p));
        lemma_with_extensions_contains(l2_true, m.extensions, (Data::Text("profile"@), p));
    }
}

/// An evidence-triples map holds each kind of triple that is set, as an array: evidence
/// under key 0 ("evidence-triples" in JSON), identity under 1 ("identity-triples"),
/// dependency under 2 ("dependency-triples"), membership under 3
/// ("membership-triples"), CoSWID under 4 ("coswid-triples") and attest-key under 5
/// ("attestkey-triples").
pub proof fn lemma_ev_triples_layout(m: EvTriplesModel)
    ensures
        m.evidence_triples matches Some(ts) ==> has_entry(EvTriples::encoded(m, false), Data::Int(0), encoded_array::<ReferenceTripleRecord>(ts, false)),
        m.identity_triples matches Some(ts) ==> has_entry(EvTriples::encoded(m, false), Data::Int(1), encoded_array::<IdentityTripleRecord>(ts, false)),
        m.dependency_triples matches Some(ts) ==> has_entry(EvTriples::encoded(m, false), Data::Int(2), encoded_array::<DomainDependencyTripleRecord>(ts, false)),
        m.membership_triples matches Some(ts) ==> has_entry(EvTriples::encoded(m, false), Data::Int(3), encoded_array::<DomainMembershipTripleRecord>(ts, false)),
        m.coswid_triples matches Some(ts) ==> has_entry(EvTriples::encoded(m, false), Data::Int(4), encoded_array::<CoevCoswidTripleRecord>(ts, false)),
        m.attest_key_triples matches Some(ts) ==> has_entry(EvTriples::encoded(m, false), Data::Int(5), encoded_array::<AttestKeyTripleRecord>(ts, false)),
        m.evidence_triples matches Some(ts) ==> has_entry(EvTriples::encoded(m, true), Data::Text("evidence-triples"@), encoded_array::<ReferenceTripleRecord>(ts, true)),
        m.identity_triples matches Some(ts) ==> has_entry(EvTriples::encoded(m, true), Data::Text("identity-triples"@), encoded_array::<IdentityTripleRecord>(ts, true)),
        m.dependency_triples matches Some(ts) ==> has_entry(EvTriples::encoded(m, true), Data::Text("dependency-triples"@), encoded_array::<DomainDependencyTripleRecord>(ts, true)),
        m.membership_triples matches Some(ts) ==> has_entry(EvTriples::encoded(m, true), Data::Text("membership-triples"@), encoded_array::<DomainMembershipTripleRecord>(ts, true)),
        m.coswid_triples matches Some(ts) ==> has_entry(EvTriples::encoded(m, true), Data::Text("coswid-triples"@), encoded_array::<CoevCoswidTripleRecord>(ts, true)),
        m.attest_key_triples matches Some(ts) ==> has_entry(EvTriples::encoded(m, true), Data::Text("attestkey-triples"@), encoded_array::<AttestKeyTripleRecord>(ts, true)),
{
    let l0_false = Seq::<(Data, Data)>::empty();
    let l1_false = push_some(l0_false, key_of(0, "evidence-triples"@, false), opt_encoded_array::<ReferenceTripleRecord>(m.evidence_triples, false));
    let l2_false = push_some(l1_false, key_of(1, "identity-triples"@, false), opt_encoded_array::<IdentityTripleRecord>(m.identity_triples, false));
    let l3_false = push_some(l2_false, key_of(2, "dependency-triples"@, false), opt_encoded_array::<DomainDependencyTripleRecord>(m.dependency_triples, false));
    let l4_false = push_some(l3_false, key_of(3, "membership-triples"@, false), opt_encoded_array::<DomainMembershipTripleRecord>(m.membership_triples, false));
    let l5_false = push_some(l4_false, key_of(4, "coswid-triples"@, false), opt_encoded_array::<CoevCoswidTripleRecord>(m.coswid_triples, false));
    let l6_false = push_some(l5_false, key_of(5, "attestkey-triples"@, false), opt_encoded_array::<AttestKeyTripleRecord>(m.attest_key_triples, false));
    assert(EvTriples::encoded_entries(m, false) == with_extensions(l6_false, m.extensions));
    if let Some(ts) = m.evidence_triples {
        lemma_push_some_contains(l0_false, key_of(0, "evidence-triples"@, false), opt_encoded_array::<ReferenceTripleRecord>(m.evidence_triples, false), (Data::Int(0), encoded_array::<ReferenceTripleRecord>(ts, false)));
        lemma_push_some_contains(l1_false, key_of(1, "identity-triples"@, false), opt_encoded_array::<IdentityTripleRecord>(m.identity_triples, false), (Data::Int(0), encoded_array::<ReferenceTripleRecord>(ts, false)));
        lemma_push_some_contains(l2_false, key_of(2, "dependency-triples"@, false), opt_encoded_array::<DomainDependencyTripleRecord>(m.dependency_triples, false), (Data::Int(0), encoded_array::<ReferenceTripleRecord>(ts, false)));
        lemma_push_some_contains(l3_false, key_of(3, "membership-triples"@, false), opt_encoded_array::<DomainMembershipTripleRecord>(m.membership_triples, false), (Data::Int(0), encoded_array::<ReferenceTripleRecord>(ts, false)));
        lemma_push_some_contains(l4_false, key_of(4, "coswid-triples"@, false), opt_encoded_array::<CoevCoswidTripleRecord>(m.coswid_triples, false), (Data::Int(0), encoded_array::<ReferenceTripleRecord>(ts, false)));
        lemma_push_some_contains(l5_false, key_of(5, "attestkey-triples"@, false), opt_encoded_array::<AttestKeyTripleRecord>(m.attest_key_triples, false), (Data::Int(0), encoded_array::<ReferenceTripleRecord>(ts, false)));
        lemma_with_extensions_contains(l6_false, m.extensions, (Data::Int(0), encoded_array::<ReferenceTripleRecord>(ts, false)));
    }
    if let Some(ts) = m.identity_triples {
        lemma_push_some_contains(l0_false, key_of(0, "evidence-triples"@, false), opt_encoded_array::<ReferenceTripleRecord>(m.evidence_triples, false), (Data::Int(1), encoded_array::<IdentityTripleRecord>(ts, false)));
        lemma_push_some_contains(l1_false, key_of(1, "identity-triples"@, false), opt_encoded_array::<IdentityTripleRecord>(m.identity_triples, false), (Data::Int(1), encoded_array::<IdentityTripleRecord>(ts, false)));
        lemma_push_some_contains(l2_false, key_of(2, "dependency-triples"@, false), opt_encoded_array::<DomainDependencyTripleRecord>(m.dependency_triples, false), (Data::Int(1), encoded_array::<IdentityTripleRecord>(ts, false)));
        lemma_push_some_contains(l3_false, key_of(3, "membership-triples"@, false), opt_encoded_array::<DomainMembershipTripleRecord>(m.membership_triples, false), (Data::Int(1), encoded_array::<IdentityTripleRecord>(ts, false)));
        lemma_push_some_contains(l4_false, key_of(4, "coswid-triples"@, false), opt_encoded_array::<CoevCoswidTripleRecord>(m.coswid_triples, false), (Data::Int(1), encoded_array::<IdentityTripleRecord>(ts, false)));
        lemma_push_some_contains(l5_false, key_of(5, "attestkey-triples"@, false), opt_encoded_array::<AttestKeyTripleRecord>(m.attest_key_triples, false), (Data::Int(1), encoded_array::<IdentityTripleRecord>(ts, false)));
        lemma_with_extensions_contains(l6_false, m.extensions, (Data::Int(1), encoded_array::<IdentityTripleRecord>(ts, false)));
    }
    if let Some(ts) = m.dependency_triples {
        lemma_push_some_contains(l0_false, key_of(0, "evidence-triples"@, false), opt_encoded_array::<ReferenceTripleRecord>(m.evidence_triples, false), (Data::Int(2), encoded_array::<DomainDependencyTripleRecord>(ts, false)));
        lemma_push_some_contains(l1_false, key_of(1, "identity-triples"@, false), opt_encoded_array::<IdentityTripleRecord>(m.identity_triples, false), (Data::Int(2), encoded_array::<DomainDependencyTripleRecord>(ts, false)));
        lemma_push_some_contains(l2_false, key_of(2, "dependency-triples"@, false), opt_encoded_array::<DomainDependencyTripleRecord>(m.dependency_triples, false), (Data::Int(2), encoded_array::<DomainDependencyTripleRecord>(ts, false)));
        lemma_push_some_contains(l3_false, key_of(3, "membership-triples"@, false), opt_encoded_array::<DomainMembershipTripleRecord>(m.membership_triples, false), (Data::Int(2), encoded_array::<DomainDependencyTripleRecord>(ts, false)));
        lemma_push_some_contains(l4_false, key_of(4, "coswid-triples"@, false), opt_encoded_array::<CoevCoswidTripleRecord>(m.coswid_triples, false), (Data::Int(2), encoded_array::<DomainDependencyTripleRecord>(ts, false)));
        lemma_push_some_contains(l5_false, key_of(5, "attestkey-triples"@, false), opt_encoded_array::<AttestKeyTripleRecord>(m.attest_key_triples, false), (Data::Int(2), encoded_array::<DomainDependencyTripleRecord>(ts, false)));
        lemma_with_extensions_contains(l6_false, m.extensions, (Data::Int(2), encoded_array::<DomainDependencyTripleRecord>(ts, false)));
    }
    if let Some(ts) = m.membership_triples {
        lemma_push_some_contains(l0_false, key_of(0, "evidence-triples"@, false), opt_encoded_array::<ReferenceTripleRecord>(m.evidence_triples, false), (Data::Int(3), encoded_array::<DomainMembershipTripleRecord>(ts, false)));
        lemma_push_some_contains(l1_false, key_of(1, "identity-triples"@, false), opt_encoded_array::<IdentityTripleRecord>(m.identity_triples, false), (Data::Int(3), encoded_array::<DomainMembershipTripleRecord>(ts, false)));
        lemma_push_some_contains(l2_false, key_of(2, "dependency-triples"@, false), opt_encoded_array::<DomainDependencyTripleRecord>(m.dependency_triples, false), (Data::Int(3), encoded_array::<DomainMembershipTripleRecord>(ts, false)));
        lemma_push_some_contains(l3_false, key_of(3, "membership-triples"@, false), opt_encoded_array::<DomainMembershipTripleRecord>(m.membership_triples, false), (Data::Int(3), encoded_array::<DomainMembershipTripleRecord>(ts, false)));
        lemma_push_some_contains(l4_false, key_of(4, "coswid-triples"@, false), opt_encoded_array::<CoevCoswidTripleRecord>(m.coswid_triples, false), (Data::Int(3), encoded_array::<DomainMembershipTripleRecord>(ts, false)));
        lemma_push_some_contains(l5_false, key_of(5, "attestkey-triples"@, false), opt_encoded_array::<AttestKeyTripleRecord>(m.attest_key_triples, false), (Data::Int(3), encoded_array::<DomainMembershipTripleRecord>(ts, false)));
        lemma_with_extensions_contains(l6_false, m.extensions, (Data::Int(3), encoded_array::<DomainMembershipTripleRecord>(ts, false)));
    }
    if let Some(ts) = m.coswid_triples {
        lemma_push_some_contains(l0_false, key_of(0, "evidence-triples"@, false), opt_encoded_array::<ReferenceTripleRecord>(m.evidence_triples, false), (Data::Int(4), encoded_array::<CoevCoswidTripleRecord>(ts, false)));
        lemma_push_some_contains(l1_false, key_of(1, "identity-triples"@, false), opt_encoded_array::<IdentityTripleRecord>(m.identity_triples, false), (Data::Int(4), encoded_array::<CoevCoswidTripleRecord>(ts, false)));
        lemma_push_some_contains(l2_false, key_of(2, "dependency-triples"@, false), opt_encoded_array::<DomainDependencyTripleRecord>(m.dependency_triples, false), (Data::Int(4), encoded_array::<CoevCoswidTripleRecord>(ts, false)));
        lemma_push_some_contains(l3_false, key_of(3, "membership-triples"@, false), opt_encoded_array::<DomainMembershipTripleRecord>(m.membership_triples, false), (Data::Int(4), encoded_array::<CoevCoswidTripleRecord>(ts, false)));
        lemma_push_some_contains(l4_false, key_of(4, "coswid-triples"@, false), opt_encoded_array::<CoevCoswidTripleRecord>(m.coswid_triples, false), (Data::Int(4), encoded_array::<CoevCoswidTripleRecord>(ts, false)));
        lemma_push_some_contains(l5_false, key_of(5, "attestkey-triples"@, false), opt_encoded_array::<AttestKeyTripleRecord>(m.attest_key_triples, false), (Data::Int(4), encoded_array::<CoevCoswidTripleRecord>(ts, false)));
        lemma_with_extensions_contains(l6_false, m.extensions, (Data::Int(4), encoded_array::<CoevCoswidTripleRecord>(ts, false)));
    }
    if let Some(ts) = m.attest_key_triples {
        lemma_push_some_contains(l0_false, key_of(0, "evidence-triples"@, false), opt_encoded_array::<ReferenceTripleRecord>(m.evidence_triples, false), (Data::Int(5), encoded_array::<AttestKeyTripleRecord>(ts, false)));
        lemma_push_some_contains(l1_false, key_of(1, "identity-triples"@, false), opt_encoded_array::<IdentityTripleRecord>(m.identity_triples, false), (Data::Int(5), encoded_array::<AttestKeyTripleRecord>(ts, false)));
        lemma_push_some_contains(l2_false, key_of(2, "dependency-triples"@, false), opt_encoded_array::<DomainDependencyTripleRecord>(m.dependency_triples, false), (Data::Int(5), encoded_array::<AttestKeyTripleRecord>(ts, false)));
        lemma_push_some_contains(l3_false, key_of(3, "membership-triples"@, false), opt_encoded_array::<DomainMembershipTripleRecord>(m.membership_triples, false), (Data::Int(5), encoded_array::<AttestKeyTripleRecord>(ts, false)));
        lemma_push_some_contains(l4_false, key_of(4, "coswid-triples"@, false), opt_encoded_array::<CoevCoswidTripleRecord>(m.coswid_triples, false), (Data::Int(5), encoded_array::<AttestKeyTripleRecord>(ts, false)));
        lemma_push_some_contains(l5_false, key_of(5, "attestkey-triples"@, false), opt_encoded_array::<AttestKeyTripleRecord>(m.attest_key_triples, false), (Data::Int(5), encoded_array::<AttestKeyTripleRecord>(ts, false)));
        lemma_with_extensions_contains(l6_false, m.extensions, (Data::Int(5), encoded_array::<AttestKeyTripleRecord>(ts, false)));
    }
    let l0_true = Seq::<(Data, Data)>::empty();
    let l1_true = push_some(l0_true, key_of(0, "evidence-triples"@, true), opt_encoded_array::<ReferenceTripleRecord>(m.evidence_triples, true));
    let l2_true = push_some(l1_true, key_of(1, "identity-triples"@, true), opt_encoded_array::<IdentityTripleRecord>(m.identity_triples, true));
    let l3_true = push_some(l2_true, key_of(2, "dependency-triples"@, true), opt_encoded_array::<DomainDependencyTripleRecord>(m.dependency_triples, true));
    let l4_true = push_some(l3_true, key_of(3, "membership-triples"@, true), opt_encoded_array::<DomainMembershipTripleRecord>(m.membership_triples, true));
    let l5_true = push_some(l4_true, key_of(4, "coswid-triples"@, true), opt_encoded_array::<CoevCoswidTripleRecord>(m.coswid_triples, true));
    let l6_true = push_some(l5_true, key_of(5, "attestkey-triples"@, true), opt_encoded_array::<AttestKeyTripleRecord>(m.attest_key_triples, true));
    assert(EvTriples::encoded_entries(m, true) == with_extensions(l6_true, m.extensions));
    if let Some(ts) = m.evidence_triples {
        lemma_push_some_contains(l0_true, key_of(0, "evidence-triples"@, true), opt_encoded_array::<ReferenceTripleRecord>(m.evidence_triples, true), (Data::Text("evidence-triples"@), encoded_array::<ReferenceTripleRecord>(ts, true)));
        lemma_push_some_contains(l1_true, key_of(1, "identity-triples"@, true), opt_encoded_array::<IdentityTripleRecord>(m.identity_triples, true), (Data::Text("evidence-triples"@), encoded_array::<ReferenceTripleRecord>(ts, true)));
        lemma_push_some_contains(l2_true, key_of(2, "dependency-triples"@, true), opt_encoded_array::<DomainDependencyTripleRecord>(m.dependency_triples, true), (Data::Text("evidence-triples"@), encoded_array::<ReferenceTripleRecord>(ts, true)));
        lemma_push_some_contains(l3_true, key_of(3, "membership-triples"@, true), opt_encoded_array::<DomainMembershipTripleRecord>(m.membership_triples, true), (Data::Text("evidence-triples"@), encoded_array::<ReferenceTripleRecord>(ts, true)));
        lemma_push_some_contains(l4_true, key_of(4, "coswid-triples"@, true), opt_encoded_array::<CoevCoswidTripleRecord>(m.coswid_triples, true), (Data::Text("evidence-triples"@), encoded_array::<ReferenceTripleRecord>(ts, true)));
        lemma_push_some_contains(l5_true, key_of(5, "attestkey-triples"@, true), opt_encoded_array::<AttestKeyTripleRecord>(m.attest_key_triples, true), (Data::Text("evidence-triples"@), encoded_array::<ReferenceTripleRecord>(ts, true)));
        lemma_with_extensions_contains(l6_true, m.extensions, (Data::Text("evidence-triples"@), encoded_array::<ReferenceTripleRecord>(ts, true)));
    }
    if let Some(ts) = m.identity_triples {
        lemma_push_some_contains(l0_true, key_of(0, "evidence-triples"@, true), opt_encoded_array::<ReferenceTripleRecord>(m.evidence_triples, true), (Data::Text("identity-triples"@), encoded_array::<IdentityTripleRecord>(ts, true)));
        lemma_push_some_contains(l1_true, key_of(1, "identity-triples"@, true), opt_encoded_array::<IdentityTripleRecord>(m.identity_triples, true), (Data::Text("identity-triples"@), encoded_array::<IdentityTripleRecord>(ts, true)));
        lemma_push_some_contains(l2_true, key_of(2, "dependency-triples"@, true), opt_encoded_array::<DomainDependencyTripleRecord>(m.dependency_triples, true), (Data::Text("identity-triples"@), encoded_array::<IdentityTripleRecord>(ts, true)));
        lemma_push_some_contains(l3_true, key_of(3, "membership-triples"@, true), opt_encoded_array::<DomainMembershipTripleRecord>(m.membership_triples, true), (Data::Text("identity-triples"@), encoded_array::<IdentityTripleRecord>(ts, true)));
        lemma_push_some_contains(l4_true, key_of(4, "coswid-triples"@, true), opt_encoded_array::<CoevCoswidTripleRecord>(m.coswid_triples, true), (Data::Text("identity-triples"@), encoded_array::<IdentityTripleRecord>(ts, true)));
        lemma_push_some_contains(l5_true, key_of(5, "attestkey-triples"@, true), opt_encoded_array::<AttestKeyTripleRecord>(m.attest_key_triples, true), (Data::Text("identity-triples"@), encoded_array::<IdentityTripleRecord>(ts, true)));
        lemma_with_extensions_contains(l6_true, m.extensions, (Data::Text("identity-triples"@), encoded_array::<IdentityTripleRecord>(ts, true)));
    }
    if let Some(ts) = m.dependency_triples {
        lemma_push_some_contains(l0_true, key_of(0, "evidence-triples"@, true), opt_encoded_array::<ReferenceTripleRecord>(m.evidence_triples, true), (Data::Text("dependency-triples"@), encoded_array::<DomainDependencyTripleRecord>(ts, true)));
        lemma_push_some_contains(l1_true, key_of(1, "identity-triples"@, true), opt_encoded_array::<IdentityTripleRecord>(m.identity_triples, true), (Data::Text("dependency-triples"@), encoded_array::<DomainDependencyTripleRecord>(ts, true)));
        lemma_push_some_contains(l2_true, key_of(2, "dependency-triples"@, true), opt_encoded_array::<DomainDependencyTripleRecord>(m.dependency_triples, true), (Data::Text("dependency-triples"@), encoded_array::<DomainDependencyTripleRecord>(ts, true)));
        lemma_push_some_contains(l3_true, key_of(3, "membership-triples"@, true), opt_encoded_array::<DomainMembershipTripleRecord>(m.membership_triples, true), (Data::Text("dependency-triples"@), encoded_array::<DomainDependencyTripleRecord>(ts, true)));
        lemma_push_some_contains(l4_true, key_of(4, "coswid-triples"@, true), opt_encoded_array::<CoevCoswidTripleRecord>(m.coswid_triples, true), (Data::Text("dependency-triples"@), encoded_array::<DomainDependencyTripleRecord>(ts, true)));
        lemma_push_some_contains(l5_true, key_of(5, "attestkey-triples"@, true), opt_encoded_array::<AttestKeyTripleRecord>(m.attest_key_triples, true), (Data::Text("dependency-triples"@), encoded_array::<DomainDependencyTripleRecord>(ts, true)));
        lemma_with_extensions_contains(l6_true, m.extensions, (Data::Text("dependency-triples"@), encoded_array::<DomainDependencyTripleRecord>(ts, true)));
    }
    if let Some(ts) = m.membership_triples {
        lemma_push_some_contains(l0_true, key_of(0, "evidence-triples"@, true), opt_encoded_array::<ReferenceTripleRecord>(m.evidence_triples, true), (Data::Text("membership-triples"@), encoded_array::<DomainMembershipTripleRecord>(ts, true)));
        lemma_push_some_contains(l1_true, key_of(1, "identity-triples"@, true), opt_encoded_array::<IdentityTripleRecord>(m.identity_triples, true), (Data::Text("membership-triples"@), encoded_array::<DomainMembershipTripleRecord>(ts, true)));
        lemma_push_some_contains(l2_true, key_of(2, "dependency-triples"@, true), opt_encoded_array::<DomainDependencyTripleRecord>(m.dependency_triples, true), (Data::Text("membership-triples"@), encoded_array::<DomainMembershipTripleRecord>(ts, true)));
        lemma_push_some_contains(l3_true, key_of(3, "membership-triples"@, true), opt_encoded_array::<DomainMembershipTripleRecord>(m.membership_triples, true), (Data::Text("membership-triples"@), encoded_array::<DomainMembershipTripleRecord>(ts, true)));
        lemma_push_some_contains(l4_true, key_of(4, "coswid-triples"@, true), opt_encoded_array::<CoevCoswidTripleRecord>(m.coswid_triples, true), (Data::Text("membership-triples"@), encoded_array::<DomainMembershipTripleRecord>(ts, true)));
        lemma_push_some_contains(l5_true, key_of(5, "attestkey-triples"@, true), opt_encoded_array::<AttestKeyTripleRecord>(m.attest_key_triples, true), (Data::Text("membership-triples"@), encoded_array::<DomainMembershipTripleRecord>(ts, true)));
        lemma_with_extensions_contains(l6_true, m.extensions, (Data::Text("membership-triples"@), encoded_array::<DomainMembershipTripleRecord>(ts, true)));
    }
    if let Some(ts) = m.coswid_triples {
        lemma_push_some_contains(l0_true, key_of(0, "evidence-triples"@, true), opt_encoded_array::<ReferenceTripleRecord>(m.evidence_triples, true), (Data::Text("coswid-triples"@), encoded_array::<CoevCoswidTripleRecord>(ts, true)));
        lemma_push_some_contains(l1_true, key_of(1, "identity-triples"@, true), opt_encoded_array::<IdentityTripleRecord>(m.identity_triples, true), (Data::Text("coswid-triples"@), encoded_array::<CoevCoswidTripleRecord>(ts, true)));
        lemma_push_some_contains(l2_true, key_of(2, "dependency-triples"@, true), opt_encoded_array::<DomainDependencyTripleRecord>(m.dependency_triples, true), (Data::Text("coswid-triples"@), encoded_array::<CoevCoswidTripleRecord>(ts, true)));
        lemma_push_some_contains(l3_true, key_of(3, "membership-triples"@, true), opt_encoded_array::<DomainMembershipTripleRecord>(m.membership_triples, true), (Data::Text("coswid-triples"@), encoded_array::<CoevCoswidTripleRecord>(ts, true)));
        lemma_push_some_contains(l4_true, key_of(4, "coswid-triples"@, true), opt_encoded_array::<CoevCoswidTripleRecord>(m.coswid_triples, true), (Data::Text("coswid-triples"@), encoded_array::<CoevCoswidTripleRecord>(ts, true)));
        lemma_push_some_contains(l5_true, key_of(5, "attestkey-triples"@, true), opt_encoded_array::<AttestKeyTripleRecord>(m.attest_key_triples, true), (Data::Text("coswid-triples"@), encoded_array::<CoevCoswidTripleRecord>(ts, true)));
        lemma_with_extensions_contains(l6_true, m.extensions, (Data::Text("coswid-triples"@), encoded_array::<CoevCoswidTripleRecord>(ts, true)));
    }
    if let Some(ts) = m.attest_key_triples {
        lemma_push_some_contains(l0_true, key_of(0, "evidence-triples"@, true), opt_encoded_array::<ReferenceTripleRecord>(m.evidence_triples, true), (Data::Text("attestkey-triples"@), encoded_array::<AttestKeyTripleRecord>(ts, true)));
        lemma_push_some_contains(l1_true, key_of(1, "identity-triples"@, true), opt_encoded_array::<IdentityTripleRecord>(m.identity_triples, true), (Data::Text("attestkey-triples"@), encoded_array::<AttestKeyTripleRecord>(ts, true)));
        lemma_push_some_contains(l2_true, key_of(2, "dependency-triples"@, true), opt_encoded_array::<DomainDependencyTripleRecord>(m.dependency_triples, true), (Data::Text("attestkey-triples"@), encoded_array::<AttestKeyTripleRecord>(ts, true)));
        lemma_push_some_contains(l3_true, key_of(3, "membership-triples"@, true), opt_encoded_array::<DomainMembershipTripleRecord>(m.membership_triples, true), (Data::Text("attestkey-triples"@), encoded_array::<AttestKeyTripleRecord>(ts, true)));
        lemma_push_some_contains(l4_true, key_of(4, "coswid-triples"@, true), opt_encoded_array::<CoevCoswidTripleRecord>(m.coswid_triples, true), (Data::Text("attestkey-triples"@), encoded_array::<AttestKeyTripleRecord>(ts, true)));
        lemma_push_some_contains(l5_true, key_of(5, "attestkey-triples"@, true), opt_encoded_array::<AttestKeyTripleRecord>(m.attest_key_triples, true), (Data::Text("attestkey-triples"@), encoded_array::<AttestKeyTripleRecord>(ts, true)));
        lemma_with_extensions_contains(l6_true, m.extensions, (Data::Text("attestkey-triples"@), encoded_array::<AttestKeyTripleRecord>(ts, true)));
    }
}

/// In CBOR a CoSWID triple record is the array of its environment and its
/// evidence entries; tagged evidence is tag 571 around the evidence map, and the
/// map alone in JSON.
pub proof fn lemma_triple_record_and_tag_layout(t: CoevCoswidTripleModel, m: ConciseEvidenceModel)
    ensures
        CoevCoswidTripleRecord::encoded(t, false) == Data::Array(
            seq![t.environment, encoded_array::<CoevCoswidEvidenceMap>(t.coswid_evidence, false)],
        ),
        TaggedConciseEvidence::encoded(m, false) == Data::Tag(
            571,
            Box::new(ConciseEvidence::encoded(m, false)),
        ),
        TaggedConciseEvidence::encoded(m, true) == ConciseEvidence::encoded(m, true),
{
}


/// A CoSWID triple record array of fewer than two elements is refused with an
/// error naming its length and the record's expected shape.
pub proof fn lemma_triple_record_too_short(ds: Seq<Data>, hr: bool)
    requires
        ds.len() < 2,
    ensures
        CoevCoswidTripleRecord::decoded(Data::Array(ds), hr) == Err::<CoevCoswidTripleModel, ErrorModel>(
            ErrorModel::Decode(
                DecodeErrorModel::InvalidLength(
                    ds.len(),
                    "a sequence of [EnvironmentMap, Vec<CoevCoswidEvidenceMap>]"@,
                ),
            ),
        ),
{
}

/// A CoSWID evidence map without its evidence entry is refused, the error saying
/// "missing required field 'evidence'": so is the empty map, and in CBOR a map
/// holding only a tag identifier under key 0.
pub proof fn lemma_coswid_evidence_requires_evidence(t: Data, hr: bool)
    ensures
        CoevCoswidEvidenceMap::decoded(Data::Mapping(Seq::empty()), hr) == Err::<
            CoevCoswidEvidenceModel,
            ErrorModel,
        >(ErrorModel::Decode(DecodeErrorModel::MissingRequiredField("evidence"@))),
        CoevCoswidEvidenceMap::decoded(Data::Mapping(seq![(Data::Int(0), t)]), false) == Err::<
            CoevCoswidEvidenceModel,
            ErrorModel,
        >(ErrorModel::Decode(DecodeErrorModel::MissingRequiredField("evidence"@))),
        ErrorModel::Decode(DecodeErrorModel::MissingRequiredField("evidence"@)).message()
            == "missing required field 'evidence'"@,
{
    let names = CoswidEvidenceFields::field_names();
    assert(names.len() == 3);
    assert(field_index(Data::Int(0), false, names) == Ok::<int, ErrorModel>(0));
    let es = seq![(Data::Int(0), t)];
    assert(es.drop_last() =~= Seq::<(Data, Data)>::empty());
    reveal_strlit("missing required field '");
    reveal_strlit("evidence");
    reveal_strlit("'");
    reveal_strlit("missing required field 'evidence'");
    assert("missing required field '"@ + "evidence"@ + "'"@ =~= "missing required field 'evidence'"@);
}


/// In JSON, whatever entries come first, a map that ends with `"type": "oid"` and
/// then the OID's bytes under `"value"` is read as that OID: the last `"type"` and
/// `"value"` entries decide.
pub proof fn lemma_evidence_id_last_entries_decide(es: Seq<(Data, Data)>, b: Seq<u8>)
    ensures
        EvidenceIdTypeChoice::decoded(
            Data::Mapping(
                es.push((Data::Text("type"@), Data::Text("oid"@))).push(
                    (Data::Text("value"@), Data::Array(b.map_values(|x: u8| Data::Int(x as int)))),
                ),
            ),
            true,
        ) == Ok::<EvidenceIdModel, ErrorModel>(EvidenceIdModel::Oid(b)),
{
    reveal_strlit("type");
    reveal_strlit("value");
    reveal_strlit("oid");
    reveal_strlit("uuid");
    assert("type"@.len() != "value"@.len());
    assert("oid"@.len() != "uuid"@.len());
    let e1 = es.push((Data::Text("type"@), Data::Text("oid"@)));
    let e2 = e1.push((Data::Text("value"@), Data::Array(b.map_values(|x: u8| Data::Int(x as int)))));
    assert(e2.drop_last() =~= e1);
    assert(e1.last() == (Data::Text("type"@), Data::Text("oid"@)));
    assert(e2.last().0 != Data::Text("type"@));
    assert(lookup_text(e1, "type"@) == Some(Data::Text("oid"@)));
    assert(lookup_text(e2, "type"@) == lookup_text(e2.drop_last(), "type"@));
    assert(lookup_text(e2, "type"@) == Some(Data::Text("oid"@)));
    assert(lookup_text(e2, "value"@) == Some(e2.last().1));
    lemma_bytes_round_trip(b, true);
}

} // verus!
