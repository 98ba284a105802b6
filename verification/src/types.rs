//! The CoRIM types that Concise Evidence and the OCP SAFE profile are built
//! from: times, UUIDs, OIDs, version maps, extension maps, and the records
//! whose layout the CoRIM triples and CoSWID definitions fix, which this
//! library carries as the data it was given.
use vstd::prelude::*;

use crate::error::{outcome, DecodeError, DecodeErrorModel, Error, ErrorModel};
use crate::value::{
    decode_error, decoded_bytes, decoded_i64, decoded_text, distinct, encoded_bytes, field_index,
    i64_from_value, key_of, key_value, lemma_bytes_round_trip, lemma_field_index_key,
    lemma_mapping_view, lemma_walked_push, names_data, pairs_data, peel, peel_value, push_entry,
    push_some, opt_view, copy_bytes, copy_entries, text_from_value, text_value, walk_entries, walked, bytes_from_value, bytes_to_value,
    Codec, Data, FieldSink, Value,
};

verus! {

/// A text string.
pub type Text = String;

/// An extension value: any value of the data model.
pub type ExtensionValue = Value;

/// A point in time, in seconds since the Unix epoch (CBOR tag 1).
#[derive(Debug, Clone, Copy, PartialEq, Eq, PartialOrd, Ord)]
pub struct IntegerTime(pub i64);

impl View for IntegerTime {
    type V = i64;

    open spec fn view(&self) -> i64 {
        self.0
    }
}

impl IntegerTime {
    pub fn from(seconds: i64) -> (t: Self)
        ensures
            t@ == seconds,
    {
        IntegerTime(seconds)
    }
}

impl Codec for IntegerTime {
    open spec fn encoded(m: i64, hr: bool) -> Data {
        if hr {
            Data::Int(m as int)
        } else {
            Data::Tag(1, Box::new(Data::Int(m as int)))
        }
    }

    open spec fn decoded(d: Data, hr: bool) -> Result<i64, ErrorModel> {
        decoded_i64(d, hr)
    }

    open spec fn round_trips(m: i64, hr: bool) -> bool {
        true
    }

    fn to_value(&self, hr: bool) -> (v: Value) {
        let n = Value::Integer(self.0 as i128);
        assert(n@ == Data::Int(self.0 as int));
        if hr {
            n
        } else {
            Value::Tag(1, Box::new(n))
        }
    }

    fn from_value(v: &Value, hr: bool) -> (r: Result<Self, Error>) {
        match i64_from_value(v, hr) {
            Ok(x) => Ok(IntegerTime(x)),
            Err(e) => Err(e),
        }
    }

    proof fn lemma_round_trip(m: i64, hr: bool) {
        assert(peel(Data::Int(m as int), hr) == Data::Int(m as int));
    }
}

/// A UUID: sixteen bytes (CBOR tag 37).
#[derive(Debug, PartialEq, Eq, PartialOrd, Ord)]
pub struct UuidType(pub Vec<u8>);

impl Clone for UuidType {
    /// A copy of the UUID, with the same bytes.
    fn clone(&self) -> (r: Self)
        ensures
            r@ == self@,
    {
        UuidType(copy_bytes(&self.0))
    }
}

impl View for UuidType {
    type V = Seq<u8>;

    open spec fn view(&self) -> Seq<u8> {
        self.0@
    }
}

/// The content of a tagged byte string: tag `tag` around the bytes in CBOR,
/// the bytes alone in human-readable form.
pub open spec fn decoded_tagged_bytes(d: Data, tag: u64, hr: bool) -> Result<Seq<u8>, ErrorModel> {
    if hr {
        decoded_bytes(d, hr)
    } else {
        match d {
            Data::Tag(t, inner) => if t == tag {
                decoded_bytes(*inner, hr)
            } else {
                Err(decode_error(DecodeErrorModel::ExpectedTag(tag)))
            },
            _ => Err(decode_error(DecodeErrorModel::ExpectedTag(tag))),
        }
    }
}

pub open spec fn encoded_tagged_bytes(b: Seq<u8>, tag: u64, hr: bool) -> Data {
    if hr {
        encoded_bytes(b, hr)
    } else {
        Data::Tag(tag as int, Box::new(encoded_bytes(b, hr)))
    }
}

fn tagged_bytes_to_value(b: &Vec<u8>, tag: u64, hr: bool) -> (v: Value)
    ensures
        v@ == encoded_tagged_bytes(b@, tag, hr),
{
    if hr {
        bytes_to_value(b, hr)
    } else {
        Value::Tag(tag, Box::new(bytes_to_value(b, hr)))
    }
}

fn tagged_bytes_from_value(v: &Value, tag: u64, hr: bool) -> (r: Result<Vec<u8>, Error>)
    ensures
        match r {
            Ok(b) => decoded_tagged_bytes(v@, tag, hr) == Ok::<Seq<u8>, ErrorModel>(b@),
            Err(e) => decoded_tagged_bytes(v@, tag, hr) == Err::<Seq<u8>, ErrorModel>(e@),
        },
{
    if hr {
        bytes_from_value(v, hr)
    } else {
        match v {
            Value::Tag(t, inner) => {
                if *t == tag {
                    bytes_from_value(inner, hr)
                } else {
                    Err(Error::Decode(DecodeError::ExpectedTag(tag)))
                }
            },
            _ => Err(Error::Decode(DecodeError::ExpectedTag(tag))),
        }
    }
}

proof fn lemma_tagged_bytes_round_trip(b: Seq<u8>, tag: u64, hr: bool)
    ensures
        decoded_tagged_bytes(encoded_tagged_bytes(b, tag, hr), tag, hr) == Ok::<
            Seq<u8>,
            ErrorModel,
        >(b),
{
    lemma_bytes_round_trip(b, hr);
}

impl Codec for UuidType {
    open spec fn encoded(m: Seq<u8>, hr: bool) -> Data {
        encoded_tagged_bytes(m, 37, hr)
    }

    open spec fn decoded(d: Data, hr: bool) -> Result<Seq<u8>, ErrorModel> {
        match decoded_tagged_bytes(d, 37, hr) {
            Err(e) => Err(e),
            Ok(b) => if b.len() == 16 {
                Ok(b)
            } else {
                Err(decode_error(DecodeErrorModel::InvalidLength(b.len(), "16 bytes"@)))
            },
        }
    }

    open spec fn round_trips(m: Seq<u8>, hr: bool) -> bool {
        m.len() == 16
    }

    fn to_value(&self, hr: bool) -> (v: Value) {
        tagged_bytes_to_value(&self.0, 37, hr)
    }

    fn from_value(v: &Value, hr: bool) -> (r: Result<Self, Error>) {
        let b = tagged_bytes_from_value(v, 37, hr)?;
        if b.len() == 16 {
            Ok(UuidType(b))
        } else {
            Err(Error::Decode(DecodeError::InvalidLength(b.len(), "16 bytes")))
        }
    }

    proof fn lemma_round_trip(m: Seq<u8>, hr: bool) {
        lemma_tagged_bytes_round_trip(m, 37, hr);
    }
}

/// An object identifier, by its encoded arcs (CBOR tag 111).
#[derive(Debug, PartialEq, Eq, PartialOrd, Ord)]
pub struct OidType(pub Vec<u8>);

impl Clone for OidType {
    /// A copy of the OID, with the same bytes.
    fn clone(&self) -> (r: Self)
        ensures
            r@ == self@,
    {
        OidType(copy_bytes(&self.0))
    }
}

impl View for OidType {
    type V = Seq<u8>;

    open spec fn view(&self) -> Seq<u8> {
        self.0@
    }
}

impl Codec for OidType {
    open spec fn encoded(m: Seq<u8>, hr: bool) -> Data {
        encoded_tagged_bytes(m, 111, hr)
    }

    open spec fn decoded(d: Data, hr: bool) -> Result<Seq<u8>, ErrorModel> {
        decoded_tagged_bytes(d, 111, hr)
    }

    open spec fn round_trips(m: Seq<u8>, hr: bool) -> bool {
        true
    }

    fn to_value(&self, hr: bool) -> (v: Value) {
        tagged_bytes_to_value(&self.0, 111, hr)
    }

    fn from_value(v: &Value, hr: bool) -> (r: Result<Self, Error>) {
        let b = tagged_bytes_from_value(v, 111, hr)?;
        Ok(OidType(b))
    }

    proof fn lemma_round_trip(m: Seq<u8>, hr: bool) {
        lemma_tagged_bytes_round_trip(m, 111, hr);
    }
}

/// A record whose layout is fixed by the CoRIM triples or CoSWID definitions;
/// the library carries it as the data it was read from, and writes it back unchanged.
#[derive(Debug, PartialEq, Eq, PartialOrd, Ord)]
pub struct EncodedRecord {
    pub value: Value,
}

impl View for EncodedRecord {
    type V = Data;

    open spec fn view(&self) -> Data {
        self.value@
    }
}

impl Clone for EncodedRecord {
    /// A copy of the record, with the same content.
    fn clone(&self) -> (r: Self)
        ensures
            r@ == self@,
    {
        EncodedRecord { value: self.value.deep_clone() }
    }
}

impl Codec for EncodedRecord {
    open spec fn encoded(m: Data, hr: bool) -> Data {
        m
    }

    open spec fn decoded(d: Data, hr: bool) -> Result<Data, ErrorModel> {
        Ok(d)
    }

    open spec fn round_trips(m: Data, hr: bool) -> bool {
        true
    }

    fn to_value(&self, hr: bool) -> (v: Value) {
        self.value.deep_clone()
    }

    fn from_value(v: &Value, hr: bool) -> (r: Result<Self, Error>) {
        let r = EncodedRecord { value: v.deep_clone() };
        assert(r@ == v@);
        assert(outcome(Ok::<EncodedRecord, Error>(r)) == Ok::<Data, ErrorModel>(v@));
        assert(EncodedRecord::decoded(v@, hr) == Ok::<Data, ErrorModel>(v@));
        Ok(r)
    }

    proof fn lemma_round_trip(m: Data, hr: bool) {
    }
}

/// A profile identifier (a URI or an OID).
pub type ProfileTypeChoice = EncodedRecord;

/// A CoSWID tag identifier.
pub type ConciseSwidTagId = EncodedRecord;

/// A CoSWID evidence entry.
pub type EvidenceEntry = EncodedRecord;

/// A cryptographic key.
pub type CryptoKeyTypeChoice = EncodedRecord;

/// An environment map (class, instance, group).
pub type EnvironmentMap = EncodedRecord;

/// A list of digests.
pub type DigestsType = EncodedRecord;

/// A reference-values triple (environment and measurements).
pub type ReferenceTripleRecord = EncodedRecord;

/// An identity triple (environment and keys).
pub type IdentityTripleRecord = EncodedRecord;

/// A domain-dependency triple.
pub type DomainDependencyTripleRecord = EncodedRecord;

/// A domain-membership triple.
pub type DomainMembershipTripleRecord = EncodedRecord;

/// An attestation-key triple.
pub type AttestKeyTripleRecord = EncodedRecord;

/// Extension entries of a map, written after the map's own fields.
#[derive(Debug, PartialEq, Eq, PartialOrd, Ord)]
pub struct ExtensionMap {
    pub entries: Vec<(Value, Value)>,
}

impl Clone for ExtensionMap {
    /// A copy of the extension entries, in the same order.
    fn clone(&self) -> (r: Self)
        ensures
            r@ == self@,
    {
        ExtensionMap { entries: copy_entries(&self.entries) }
    }
}

impl View for ExtensionMap {
    type V = Seq<(Data, Data)>;

    open spec fn view(&self) -> Seq<(Data, Data)> {
        pairs_data(self.entries@)
    }
}

/// The value of the first entry under the integer key `key`.
pub open spec fn lookup_int(es: Seq<(Data, Data)>, key: int) -> Option<Data>
    decreases es.len(),
{
    if es.len() == 0 {
        None
    } else {
        match lookup_int(es.drop_last(), key) {
            Some(d) => Some(d),
            None => if es.last().0 == Data::Int(key) {
                Some(es.last().1)
            } else {
                None
            },
        }
    }
}

proof fn lemma_lookup_prefix(es: Seq<(Data, Data)>, key: int, n: int)
    requires
        0 <= n <= es.len(),
        lookup_int(es.take(n), key) is Some,
    ensures
        lookup_int(es, key) == lookup_int(es.take(n), key),
    decreases es.len() - n,
{
    if n < es.len() {
        assert(es.take(n + 1).drop_last() =~= es.take(n));
        lemma_lookup_prefix(es, key, n + 1);
    } else {
        assert(es.take(n) =~= es);
    }
}

impl ExtensionMap {
    /// The number of entries.
    pub fn len(&self) -> (n: usize)
        ensures
            n == self@.len(),
    {
        self.entries.len()
    }

    /// The value of the first entry under the integer key `key`.
    pub fn get(&self, key: i128) -> (r: Option<&Value>)
        ensures
            match r {
                Some(v) => lookup_int(self@, key as int) == Some(v@),
                None => lookup_int(self@, key as int) == None::<Data>,
            },
    {
        let ghost es = self@;
        let mut i: usize = 0;
        while i < self.entries.len()
            invariant
                i <= self.entries@.len(),
                es == self@,
                lookup_int(es.take(i as int), key as int) == None::<Data>,
            decreases self.entries@.len() - i,
        {
            assert(es.take(i + 1).drop_last() =~= es.take(i as int));
            assert(es[i as int] == (self.entries@[i as int].0@, self.entries@[i as int].1@));
            match &self.entries[i].0 {
                Value::Integer(k) => {
                    if *k == key {
                        proof {
                            lemma_lookup_prefix(es, key as int, i + 1);
                        }
                        return Some(&self.entries[i].1);
                    }
                },
                _ => {},
            }
            i = i + 1;
        }
        assert(es.take(i as int) =~= es);
        None
    }

    /// Appends the entries to a map under construction.
    pub fn append_to(&self, es: &mut Vec<(Value, Value)>)
        ensures
            pairs_data(final(es)@) == pairs_data(old(es)@) + self@,
    {
        let ghost start = pairs_data(es@);
        let mut i: usize = 0;
        while i < self.entries.len()
            invariant
                i <= self.entries@.len(),
                pairs_data(es@) == start + self@.take(i as int),
            decreases self.entries@.len() - i,
        {
            let k = self.entries[i].0.deep_clone();
            let v = self.entries[i].1.deep_clone();
            push_entry(es, k, v);
            assert(start + self@.take(i + 1) =~= (start + self@.take(i as int)).push((k@, v@)));
            i = i + 1;
        }
        assert(self@.take(i as int) =~= self@);
    }
}

/// Appends the extension entries, where there are any, to a map under construction.
pub fn append_extensions(es: &mut Vec<(Value, Value)>, ext: &Option<ExtensionMap>)
    ensures
        pairs_data(final(es)@) == with_extensions(pairs_data(old(es)@), opt_view(*ext)),
{
    match ext {
        Some(x) => x.append_to(es),
        None => {},
    }
}

/// The extension entries, where there are any, after the map's own entries.
/// Appending extension entries keeps the entries already there.
pub proof fn lemma_with_extensions_contains(
    es: Seq<(Data, Data)>,
    ext: Option<Seq<(Data, Data)>>,
    x: (Data, Data),
)
    ensures
        es.contains(x) ==> with_extensions(es, ext).contains(x),
{
    if es.contains(x) {
        let i = choose|i: int| 0 <= i < es.len() && es[i] == x;
        if let Some(e) = ext {
            assert((es + e)[i] == x);
        }
    }
}

pub open spec fn with_extensions(es: Seq<(Data, Data)>, ext: Option<Seq<(Data, Data)>>) -> Seq<
    (Data, Data),
> {
    match ext {
        Some(x) => es + x,
        None => es,
    }
}

/// A version and its optional versioning scheme.
#[derive(Debug, PartialEq, Eq, PartialOrd, Ord)]
pub struct VersionMap {
    pub version: Text,
    pub version_scheme: Option<i64>,
}

impl Clone for VersionMap {
    /// A copy of the version map, with the same content.
    fn clone(&self) -> (r: Self)
        ensures
            r@ == self@,
    {
        VersionMap { version: self.version.clone(), version_scheme: self.version_scheme }
    }
}

pub struct VersionMapModel {
    pub version: Seq<char>,
    pub version_scheme: Option<i64>,
}

impl View for VersionMap {
    type V = VersionMapModel;

    open spec fn view(&self) -> VersionMapModel {
        VersionMapModel { version: self.version@, version_scheme: self.version_scheme }
    }
}

/// The fields of a [`VersionMap`] read so far.
pub struct VersionMapFields {
    version: Option<Text>,
    version_scheme: Option<i64>,
}

pub struct VersionMapFieldsModel {
    pub version: Option<Seq<char>>,
    pub version_scheme: Option<i64>,
}

impl View for VersionMapFields {
    type V = VersionMapFieldsModel;

    closed spec fn view(&self) -> VersionMapFieldsModel {
        VersionMapFieldsModel {
            version: match self.version {
                Some(s) => Some(s@),
                None => None,
            },
            version_scheme: self.version_scheme,
        }
    }
}

fn version_map_names() -> (r: &'static [&'static str])
    ensures
        names_data(r@) == VersionMapFields::field_names(),
{
    let r: &'static [&'static str] = &["version", "version-scheme"];
    assert(names_data(r@) =~= VersionMapFields::field_names());
    r
}

impl FieldSink for VersionMapFields {
    open spec fn field_names() -> Seq<Seq<char>> {
        seq!["version"@, "version-scheme"@]
    }

    open spec fn accepted(st: VersionMapFieldsModel, index: int, d: Data, hr: bool) -> Result<
        VersionMapFieldsModel,
        ErrorModel,
    > {
        if index == 0 {
            match decoded_text(d, hr) {
                Ok(s) => Ok(VersionMapFieldsModel { version: Some(s), ..st }),
                Err(e) => Err(e),
            }
        } else {
            match decoded_i64(d, hr) {
                Ok(x) => Ok(VersionMapFieldsModel { version_scheme: Some(x), ..st }),
                Err(e) => Err(e),
            }
        }
    }

    fn accept(&mut self, index: usize, v: &Value, hr: bool) -> (r: Result<(), Error>) {
        if index == 0 {
            let s = text_from_value(v, hr)?;
            self.version = Some(s);
        } else {
            let x = i64_from_value(v, hr)?;
            self.version_scheme = Some(x);
        }
        Ok(())
    }
}

impl VersionMap {
    pub open spec fn encoded_entries(m: VersionMapModel, hr: bool) -> Seq<(Data, Data)> {
        push_some(
            seq![(key_of(0, "version"@, hr), Data::Text(m.version))],
            key_of(1, "version-scheme"@, hr),
            match m.version_scheme {
                Some(x) => Some(Data::Int(x as int)),
                None => None,
            },
        )
    }

    pub open spec fn finished(st: VersionMapFieldsModel) -> Result<VersionMapModel, ErrorModel> {
        match st.version {
            Some(v) => Ok(VersionMapModel { version: v, version_scheme: st.version_scheme }),
            None => Err(decode_error(DecodeErrorModel::MissingField("version"@))),
        }
    }

    pub open spec fn empty_fields() -> VersionMapFieldsModel {
        VersionMapFieldsModel { version: None, version_scheme: None }
    }
}

impl Codec for VersionMap {
    open spec fn encoded(m: VersionMapModel, hr: bool) -> Data {
        Data::Mapping(VersionMap::encoded_entries(m, hr))
    }

    open spec fn decoded(d: Data, hr: bool) -> Result<VersionMapModel, ErrorModel> {
        match peel(d, hr) {
            Data::Mapping(es) => match walked::<VersionMapFields>(
                VersionMap::empty_fields(),
                es,
                hr,
            ) {
                Ok(st) => VersionMap::finished(st),
                Err(e) => Err(e),
            },
            _ => Err(decode_error(DecodeErrorModel::ExpectedMap)),
        }
    }

    open spec fn round_trips(m: VersionMapModel, hr: bool) -> bool {
        true
    }

    fn to_value(&self, hr: bool) -> (v: Value) {
        let mut es: Vec<(Value, Value)> = Vec::new();
        push_entry(&mut es, key_value(0, "version", hr), text_value(&self.version));
        match self.version_scheme {
            Some(x) => push_entry(&mut es, key_value(1, "version-scheme", hr), Value::Integer(x as i128)),
            None => {},
        }
        assert(pairs_data(es@) =~= VersionMap::encoded_entries(self@, hr));
        proof {
            lemma_mapping_view(es);
        }
        Value::Mapping(es)
    }

    fn from_value(v: &Value, hr: bool) -> (r: Result<Self, Error>) {
        match peel_value(v, hr) {
            Value::Mapping(es) => {
                proof {
                    lemma_mapping_view(*es);
                }
                let mut fields = VersionMapFields { version: None, version_scheme: None };
                walk_entries(&mut fields, es, version_map_names(), hr)?;
                match fields.version {
                    Some(version) => Ok(
                        VersionMap { version, version_scheme: fields.version_scheme },
                    ),
                    None => Err(Error::Decode(DecodeError::MissingField("version"))),
                }
            },
            _ => Err(Error::Decode(DecodeError::ExpectedMap)),
        }
    }

    proof fn lemma_round_trip(m: VersionMapModel, hr: bool) {
        let names = VersionMapFields::field_names();
        reveal_strlit("version");
        reveal_strlit("version-scheme");
        assert(names[0].len() != names[1].len());
        assert(distinct(names));
        lemma_field_index_key(names, 0, hr);
        lemma_field_index_key(names, 1, hr);
        let e0 = seq![(key_of(0, "version"@, hr), Data::Text(m.version))];
        lemma_walked_push::<VersionMapFields>(VersionMap::empty_fields(), Seq::empty(), e0[0], hr);
        assert(Seq::<(Data, Data)>::empty().push(e0[0]) =~= e0);
        match m.version_scheme {
            Some(x) => {
                lemma_walked_push::<VersionMapFields>(
                    VersionMap::empty_fields(),
                    e0,
                    (key_of(1, "version-scheme"@, hr), Data::Int(x as int)),
                    hr,
                );
            },
            None => {},
        }
    }
}

/// The measurement values of an environment, as far as this library reads them:
/// their extension entries.
#[derive(Debug, PartialEq, Eq, PartialOrd, Ord)]
pub struct MeasurementValuesMap {
    pub extensions: Option<ExtensionMap>,
}

impl Clone for MeasurementValuesMap {
    /// A copy of the measurement values, with the same extension entries.
    fn clone(&self) -> (r: Self)
        ensures
            opt_view(r.extensions) == opt_view(self.extensions),
    {
        MeasurementValuesMap { extensions: self.extensions.clone() }
    }
}


/// A time is written in CBOR as tag 1 around its seconds, and as the bare number in
/// JSON; reading tag 1 around a number in range gives that time.
pub proof fn lemma_integer_time_layout(t: i64)
    ensures
        IntegerTime::encoded(t, false) == Data::Tag(1, Box::new(Data::Int(t as int))),
        IntegerTime::encoded(t, true) == Data::Int(t as int),
        IntegerTime::decoded(Data::Tag(1, Box::new(Data::Int(t as int))), false) == Ok::<
            i64,
            ErrorModel,
        >(t),
{
    IntegerTime::lemma_round_trip(t, false);
}

} // verus!
