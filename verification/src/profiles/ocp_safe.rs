//! OCP S.A.F.E. Short Form Report (SFR) CoRIM Profile
//!
//! The profile, identified by OID `1.3.6.1.4.1.42623.1.1`, extends the
//! `measurement-values-map` at CBOR key `-1` with the findings of a security
//! review: [`OcpSafeSfrMap`], its [`IssueEntry`]s with their [`Cvss`]
//! assessments, and the reviewed firmware ([`FwIdentifier`]).
use vstd::prelude::*;
use vstd::string::*;

use crate::error::ocp_safe::{OcpSafeError, OcpSafeErrorModel};
use crate::error::{outcome, DecodeError, DecodeErrorModel, Error, ErrorModel};
use crate::types::{
    append_extensions, lemma_with_extensions_contains, lookup_int, with_extensions, DigestsType, EncodedRecord, ExtensionMap,
    IntegerTime, MeasurementValuesMap, Text, VersionMap, VersionMapModel,
};
use crate::value::{
    all_round_trip, array_from_value, decode_error, decoded_array, decoded_i64, decoded_text,
    distinct, encoded_array, i64_from_value, key_of, key_value, lemma_array_round_trip,
    lemma_field_index_key, lemma_mapping_view, lemma_walked_step, models, names_data, opt_encoded,
    opt_encoded_array, opt_models, opt_text, opt_view, pairs_data, peel, peel_value, push_entry,
    push_opt_array_entry, push_opt_entry, push_opt_text_entry, push_some, text_from_value,
    text_value, walk_entries, walked, Codec, Data, FieldSink, Value, count_some, count_extensions,
    field_index, lemma_walked_refuses_unknown_key, clone_keeps_view, clone_list, clone_opt_list,
    has_entry, lemma_push_some_contains,
};

verus! {

/// Profile OID `1.3.6.1.4.1.42623.1.1` in BER/DER encoding.
pub const PROFILE_OID_BYTES: [u8; 12] = [
    0x06,
    0x0A,
    0x2B,
    0x06,
    0x01,
    0x04,
    0x01,
    0x82,
    0xF4,
    0x17,
    0x01,
    0x01,
];

/// CBOR key used for the SFR extension inside `measurement-values-map`.
pub const SFR_EXTENSION_KEY: i128 = -1;

// ============================================================================
// Cvss
// ============================================================================

/// CVSS vulnerability score.
#[derive(Debug, PartialEq)]
pub struct Cvss {
    /// CVSS numerical score, e.g. "7.9" (key 0)
    pub score: Text,
    /// CVSS vector string (key 1)
    pub vector: Text,
    /// Optional CVSS version, e.g. "3.1" (key 2)
    pub version: Option<Text>,
}

pub struct CvssModel {
    pub score: Seq<char>,
    pub vector: Seq<char>,
    pub version: Option<Seq<char>>,
}

impl Cvss {
    /// A CVSS score of the given fields.
    pub fn new(score: Text, vector: Text, version: Option<Text>) -> (r: Self)
        ensures
            r.score == score,
            r.vector == vector,
            r.version == version,
    {
        Cvss { score, vector, version }
    }
}

impl Clone for Cvss {
    /// A copy of the score, with the same content.
    fn clone(&self) -> (r: Self)
        ensures
            r@ == self@,
    {
        Cvss { score: self.score.clone(), vector: self.vector.clone(), version: self.version.clone() }
    }
}

impl View for Cvss {
    type V = CvssModel;

    open spec fn view(&self) -> CvssModel {
        CvssModel { score: self.score@, vector: self.vector@, version: opt_view(self.version) }
    }
}

/// The fields of a [`Cvss`] read so far.
pub struct CvssFields {
    score: Option<Text>,
    vector: Option<Text>,
    version: Option<Text>,
}

pub struct CvssFieldsModel {
    pub score: Option<Seq<char>>,
    pub vector: Option<Seq<char>>,
    pub version: Option<Seq<char>>,
}

impl View for CvssFields {
    type V = CvssFieldsModel;

    closed spec fn view(&self) -> CvssFieldsModel {
        CvssFieldsModel {
            score: opt_view(self.score),
            vector: opt_view(self.vector),
            version: opt_view(self.version),
        }
    }
}

fn cvss_names() -> (r: &'static [&'static str])
    ensures
        names_data(r@) == CvssFields::field_names(),
{
    let r: &'static [&'static str] = &["cvss-score", "cvss-vector", "cvss-version"];
    assert(names_data(r@) =~= CvssFields::field_names());
    r
}

impl FieldSink for CvssFields {
    open spec fn field_names() -> Seq<Seq<char>> {
        seq!["cvss-score"@, "cvss-vector"@, "cvss-version"@]
    }

    open spec fn accepted(st: CvssFieldsModel, index: int, d: Data, hr: bool) -> Result<
        CvssFieldsModel,
        ErrorModel,
    > {
        match decoded_text(d, hr) {
            Err(e) => Err(e),
            Ok(s) => if index == 0 {
                Ok(CvssFieldsModel { score: Some(s), ..st })
            } else if index == 1 {
                Ok(CvssFieldsModel { vector: Some(s), ..st })
            } else {
                Ok(CvssFieldsModel { version: Some(s), ..st })
            },
        }
    }

    fn accept(&mut self, index: usize, v: &Value, hr: bool) -> (r: Result<(), Error>) {
        let s = text_from_value(v, hr)?;
        if index == 0 {
            self.score = Some(s);
        } else if index == 1 {
            self.vector = Some(s);
        } else {
            self.version = Some(s);
        }
        Ok(())
    }
}

impl Cvss {
    pub open spec fn encoded_entries(m: CvssModel, hr: bool) -> Seq<(Data, Data)> {
        push_some(
            seq![
                (key_of(0, "cvss-score"@, hr), Data::Text(m.score)),
                (key_of(1, "cvss-vector"@, hr), Data::Text(m.vector)),
            ],
            key_of(2, "cvss-version"@, hr),
            opt_text(m.version),
        )
    }

    pub open spec fn empty_fields() -> CvssFieldsModel {
        CvssFieldsModel { score: None, vector: None, version: None }
    }

    pub open spec fn finished(st: CvssFieldsModel) -> Result<CvssModel, ErrorModel> {
        match (st.score, st.vector) {
            (Some(score), Some(vector)) => Ok(CvssModel { score, vector, version: st.version }),
            (None, _) => Err(decode_error(DecodeErrorModel::MissingField("cvss-score"@))),
            (_, None) => Err(decode_error(DecodeErrorModel::MissingField("cvss-vector"@))),
        }
    }
}

impl Codec for Cvss {
    open spec fn encoded(m: CvssModel, hr: bool) -> Data {
        Data::Mapping(Cvss::encoded_entries(m, hr))
    }

    open spec fn decoded(d: Data, hr: bool) -> Result<CvssModel, ErrorModel> {
        match peel(d, hr) {
            Data::Mapping(es) => match walked::<CvssFields>(Cvss::empty_fields(), es, hr) {
                Ok(st) => Cvss::finished(st),
                Err(e) => Err(e),
            },
            _ => Err(decode_error(DecodeErrorModel::ExpectedMap)),
        }
    }

    open spec fn round_trips(m: CvssModel, hr: bool) -> bool {
        true
    }

    fn to_value(&self, hr: bool) -> (v: Value) {
        let mut es: Vec<(Value, Value)> = Vec::new();
        push_entry(&mut es, key_value(0, "cvss-score", hr), text_value(&self.score));
        push_entry(&mut es, key_value(1, "cvss-vector", hr), text_value(&self.vector));
        push_opt_text_entry(&mut es, 2, "cvss-version", &self.version, hr);
        assert(pairs_data(es@) =~= Cvss::encoded_entries(self@, hr));
        proof {
            lemma_mapping_view(es);
        }
        Value::Mapping(es)
    }

    fn from_value(v: &Value, hr: bool) -> (r: Result<Self, Error>) {
        match peel_value(v, hr) {
            Value::Mapping(es) => {
                proof {
                    lemma_mapping_view(*es);
                }
                let mut f = CvssFields { score: None, vector: None, version: None };
                walk_entries(&mut f, es, cvss_names(), hr)?;
                match (f.score, f.vector) {
                    (Some(score), Some(vector)) => Ok(Cvss { score, vector, version: f.version }),
                    (None, _) => Err(Error::Decode(DecodeError::MissingField("cvss-score"))),
                    (_, None) => Err(Error::Decode(DecodeError::MissingField("cvss-vector"))),
                }
            },
            _ => Err(Error::Decode(DecodeError::ExpectedMap)),
        }
    }

    proof fn lemma_round_trip(m: CvssModel, hr: bool) {
        let names = CvssFields::field_names();
        reveal_strlit("cvss-score");
        reveal_strlit("cvss-vector");
        reveal_strlit("cvss-version");
        assert(names[0].len() != names[1].len() && names[0].len() != names[2].len()
            && names[1].len() != names[2].len());
        assert(distinct(names));
        lemma_field_index_key(names, 0, hr);
        lemma_field_index_key(names, 1, hr);
        lemma_field_index_key(names, 2, hr);
        let st0 = Cvss::empty_fields();
        let st1 = CvssFieldsModel { score: Some(m.score), ..st0 };
        let st2 = CvssFieldsModel { vector: Some(m.vector), ..st1 };
        let st3 = CvssFieldsModel { version: m.version, ..st2 };
        let k0 = key_of(0, names[0], hr);
        let k1 = key_of(1, names[1], hr);
        let k2 = key_of(2, names[2], hr);
        let e0 = Seq::<(Data, Data)>::empty();
        let e1 = push_some(e0, k0, Some(Data::Text(m.score)));
        let e2 = push_some(e1, k1, Some(Data::Text(m.vector)));
        lemma_walked_step::<CvssFields>(st0, e0, st0, st1, k0, 0, Some(Data::Text(m.score)), hr);
        lemma_walked_step::<CvssFields>(st0, e1, st1, st2, k1, 1, Some(Data::Text(m.vector)), hr);
        lemma_walked_step::<CvssFields>(st0, e2, st2, st3, k2, 2, opt_text(m.version), hr);
        assert(e2 =~= seq![(k0, Data::Text(m.score)), (k1, Data::Text(m.vector))]);
    }
}

// ============================================================================
// Assessment
// ============================================================================

/// Assessment type choice; CVSS is the one defined. Written as the CVSS map itself.
#[derive(Debug, PartialEq)]
pub enum Assessment {
    /// CVSS-based assessment
    Cvss(Cvss),
}

pub enum AssessmentModel {
    Cvss(CvssModel),
}

impl Clone for Assessment {
    /// A copy of the assessment, with the same content.
    fn clone(&self) -> (r: Self)
        ensures
            r@ == self@,
    {
        match self {
            Assessment::Cvss(c) => Assessment::Cvss(c.clone()),
        }
    }
}

impl View for Assessment {
    type V = AssessmentModel;

    open spec fn view(&self) -> AssessmentModel {
        match self {
            Assessment::Cvss(c) => AssessmentModel::Cvss(c@),
        }
    }
}

impl From<Cvss> for Assessment {
    fn from(c: Cvss) -> (r: Self) {
        Assessment::Cvss(c)
    }
}

impl vstd::std_specs::convert::FromSpecImpl<Cvss> for Assessment {
    open spec fn obeys_from_spec() -> bool {
        true
    }

    open spec fn from_spec(c: Cvss) -> Self {
        Assessment::Cvss(c)
    }
}

impl Codec for Assessment {
    open spec fn encoded(m: AssessmentModel, hr: bool) -> Data {
        match m {
            AssessmentModel::Cvss(c) => Cvss::encoded(c, hr),
        }
    }

    open spec fn decoded(d: Data, hr: bool) -> Result<AssessmentModel, ErrorModel> {
        match Cvss::decoded(d, hr) {
            Ok(c) => Ok(AssessmentModel::Cvss(c)),
            Err(e) => Err(e),
        }
    }

    open spec fn round_trips(m: AssessmentModel, hr: bool) -> bool {
        true
    }

    fn to_value(&self, hr: bool) -> (v: Value) {
        match self {
            Assessment::Cvss(c) => c.to_value(hr),
        }
    }

    fn from_value(v: &Value, hr: bool) -> (r: Result<Self, Error>) {
        let c = Cvss::from_value(v, hr)?;
        Ok(Assessment::Cvss(c))
    }

    proof fn lemma_round_trip(m: AssessmentModel, hr: bool) {
        match m {
            AssessmentModel::Cvss(c) => Cvss::lemma_round_trip(c, hr),
        }
    }
}

// ============================================================================
// IssueEntry
// ============================================================================

/// A security issue found during the review.
#[derive(Debug, PartialEq)]
pub struct IssueEntry {
    /// Brief title (key 0)
    pub title: Text,
    /// Detailed description (key 1)
    pub description: Text,
    /// Assessment, e.g. CVSS (key 2)
    pub assessment: Assessment,
    /// Optional CWE identifier (key 3)
    pub cwe: Option<Text>,
    /// Optional CVE identifier (key 4)
    pub cve: Option<Text>,
    /// Extension attributes
    pub extensions: Option<ExtensionMap>,
}

pub struct IssueEntryModel {
    pub title: Seq<char>,
    pub description: Seq<char>,
    pub assessment: AssessmentModel,
    pub cwe: Option<Seq<char>>,
    pub cve: Option<Seq<char>>,
    pub extensions: Option<Seq<(Data, Data)>>,
}

impl IssueEntry {
    /// An issue of the given fields.
    pub fn new(title: Text, description: Text, assessment: Assessment, cwe: Option<Text>, cve: Option<Text>, extensions: Option<ExtensionMap>) -> (r: Self)
        ensures
            r.title == title,
            r.description == description,
            r.assessment == assessment,
            r.cwe == cwe,
            r.cve == cve,
            r.extensions == extensions,
    {
        IssueEntry { title, description, assessment, cwe, cve, extensions }
    }
}

impl Clone for IssueEntry {
    /// A copy of the issue, with the same content.
    fn clone(&self) -> (r: Self)
        ensures
            r@ == self@,
    {
        IssueEntry {
            title: self.title.clone(),
            description: self.description.clone(),
            assessment: self.assessment.clone(),
            cwe: self.cwe.clone(),
            cve: self.cve.clone(),
            extensions: self.extensions.clone(),
        }
    }
}

impl View for IssueEntry {
    type V = IssueEntryModel;

    open spec fn view(&self) -> IssueEntryModel {
        IssueEntryModel {
            title: self.title@,
            description: self.description@,
            assessment: self.assessment@,
            cwe: opt_view(self.cwe),
            cve: opt_view(self.cve),
            extensions: opt_view(self.extensions),
        }
    }
}

/// The fields of an [`IssueEntry`] read so far.
pub struct IssueEntryFields {
    title: Option<Text>,
    description: Option<Text>,
    assessment: Option<Assessment>,
    cwe: Option<Text>,
    cve: Option<Text>,
}

pub struct IssueEntryFieldsModel {
    pub title: Option<Seq<char>>,
    pub description: Option<Seq<char>>,
    pub assessment: Option<AssessmentModel>,
    pub cwe: Option<Seq<char>>,
    pub cve: Option<Seq<char>>,
}

impl View for IssueEntryFields {
    type V = IssueEntryFieldsModel;

    closed spec fn view(&self) -> IssueEntryFieldsModel {
        IssueEntryFieldsModel {
            title: opt_view(self.title),
            description: opt_view(self.description),
            assessment: opt_view(self.assessment),
            cwe: opt_view(self.cwe),
            cve: opt_view(self.cve),
        }
    }
}

fn issue_entry_names() -> (r: &'static [&'static str])
    ensures
        names_data(r@) == IssueEntryFields::field_names(),
{
    let r: &'static [&'static str] = &["title", "description", "assessment", "cwe", "cve"];
    assert(names_data(r@) =~= IssueEntryFields::field_names());
    r
}

impl FieldSink for IssueEntryFields {
    open spec fn field_names() -> Seq<Seq<char>> {
        seq!["title"@, "description"@, "assessment"@, "cwe"@, "cve"@]
    }

    open spec fn accepted(st: IssueEntryFieldsModel, index: int, d: Data, hr: bool) -> Result<
        IssueEntryFieldsModel,
        ErrorModel,
    > {
        if index == 2 {
            match Assessment::decoded(d, hr) {
                Ok(a) => Ok(IssueEntryFieldsModel { assessment: Some(a), ..st }),
                Err(e) => Err(e),
            }
        } else {
            match decoded_text(d, hr) {
                Err(e) => Err(e),
                Ok(s) => if index == 0 {
                    Ok(IssueEntryFieldsModel { title: Some(s), ..st })
                } else if index == 1 {
                    Ok(IssueEntryFieldsModel { description: Some(s), ..st })
                } else if index == 3 {
                    Ok(IssueEntryFieldsModel { cwe: Some(s), ..st })
                } else {
                    Ok(IssueEntryFieldsModel { cve: Some(s), ..st })
                },
            }
        }
    }

    fn accept(&mut self, index: usize, v: &Value, hr: bool) -> (r: Result<(), Error>) {
        if index == 2 {
            self.assessment = Some(Assessment::from_value(v, hr)?);
        } else {
            let s = text_from_value(v, hr)?;
            if index == 0 {
                self.title = Some(s);
            } else if index == 1 {
                self.description = Some(s);
            } else if index == 3 {
                self.cwe = Some(s);
            } else {
                self.cve = Some(s);
            }
        }
        Ok(())
    }
}

impl IssueEntry {
    pub open spec fn encoded_entries(m: IssueEntryModel, hr: bool) -> Seq<(Data, Data)> {
        with_extensions(
            push_some(
                push_some(
                    seq![
                        (key_of(0, "title"@, hr), Data::Text(m.title)),
                        (key_of(1, "description"@, hr), Data::Text(m.description)),
                        (key_of(2, "assessment"@, hr), Assessment::encoded(m.assessment, hr)),
                    ],
                    key_of(3, "cwe"@, hr),
                    opt_text(m.cwe),
                ),
                key_of(4, "cve"@, hr),
                opt_text(m.cve),
            ),
            m.extensions,
        )
    }

    pub open spec fn empty_fields() -> IssueEntryFieldsModel {
        IssueEntryFieldsModel {
            title: None,
            description: None,
            assessment: None,
            cwe: None,
            cve: None,
        }
    }

    /// A read issue carries no extensions.
    pub open spec fn finished(st: IssueEntryFieldsModel) -> Result<IssueEntryModel, ErrorModel> {
        match (st.title, st.description, st.assessment) {
            (Some(title), Some(description), Some(assessment)) => Ok(
                IssueEntryModel {
                    title,
                    description,
                    assessment,
                    cwe: st.cwe,
                    cve: st.cve,
                    extensions: None,
                },
            ),
            (None, _, _) => Err(decode_error(DecodeErrorModel::MissingField("title"@))),
            (_, None, _) => Err(decode_error(DecodeErrorModel::MissingField("description"@))),
            (_, _, None) => Err(decode_error(DecodeErrorModel::MissingField("assessment"@))),
        }
    }
}

impl Codec for IssueEntry {
    open spec fn encoded(m: IssueEntryModel, hr: bool) -> Data {
        Data::Mapping(IssueEntry::encoded_entries(m, hr))
    }

    open spec fn decoded(d: Data, hr: bool) -> Result<IssueEntryModel, ErrorModel> {
        match peel(d, hr) {
            Data::Mapping(es) => match walked::<IssueEntryFields>(
                IssueEntry::empty_fields(),
                es,
                hr,
            ) {
                Ok(st) => IssueEntry::finished(st),
                Err(e) => Err(e),
            },
            _ => Err(decode_error(DecodeErrorModel::ExpectedMap)),
        }
    }

    /// The values read back as written include those without extension entries.
    /// Reading takes an extension entry whose key names a field as that field,
    /// and refuses one whose key names none.
    open spec fn round_trips(m: IssueEntryModel, hr: bool) -> bool {
        m.extensions is None
    }

    fn to_value(&self, hr: bool) -> (v: Value) {
        let mut es: Vec<(Value, Value)> = Vec::new();
        push_entry(&mut es, key_value(0, "title", hr), text_value(&self.title));
        push_entry(&mut es, key_value(1, "description", hr), text_value(&self.description));
        push_entry(&mut es, key_value(2, "assessment", hr), self.assessment.to_value(hr));
        push_opt_text_entry(&mut es, 3, "cwe", &self.cwe, hr);
        push_opt_text_entry(&mut es, 4, "cve", &self.cve, hr);
        append_extensions(&mut es, &self.extensions);
        assert(pairs_data(es@) =~= IssueEntry::encoded_entries(self@, hr));
        proof {
            lemma_mapping_view(es);
        }
        Value::Mapping(es)
    }

    fn from_value(v: &Value, hr: bool) -> (r: Result<Self, Error>) {
        match peel_value(v, hr) {
            Value::Mapping(es) => {
                proof {
                    lemma_mapping_view(*es);
                }
                let mut f = IssueEntryFields {
                    title: None,
                    description: None,
                    assessment: None,
                    cwe: None,
                    cve: None,
                };
                walk_entries(&mut f, es, issue_entry_names(), hr)?;
                match (f.title, f.description, f.assessment) {
                    (Some(title), Some(description), Some(assessment)) => Ok(
                        IssueEntry {
                            title,
                            description,
                            assessment,
                            cwe: f.cwe,
                            cve: f.cve,
                            extensions: None,
                        },
                    ),
                    (None, _, _) => Err(Error::Decode(DecodeError::MissingField("title"))),
                    (_, None, _) => Err(Error::Decode(DecodeError::MissingField("description"))),
                    (_, _, None) => Err(Error::Decode(DecodeError::MissingField("assessment"))),
                }
            },
            _ => Err(Error::Decode(DecodeError::ExpectedMap)),
        }
    }

    proof fn lemma_round_trip(m: IssueEntryModel, hr: bool) {
        let names = IssueEntryFields::field_names();
        reveal_strlit("title");
        reveal_strlit("description");
        reveal_strlit("assessment");
        reveal_strlit("cwe");
        reveal_strlit("cve");
        assert(names[0].len() == 5 && names[1].len() == 11 && names[2].len() == 10);
        assert(names[3].len() == 3 && names[4].len() == 3 && names[3][1] != names[4][1]);
        assert forall|i: int, j: int|
            0 <= i < names.len() && 0 <= j < names.len() && i != j implies names[i] != names[j] by {
            assert(i == 0 || i == 1 || i == 2 || i == 3 || i == 4);
            assert(j == 0 || j == 1 || j == 2 || j == 3 || j == 4);
        }
        assert(distinct(names));
        lemma_field_index_key(names, 0, hr);
        lemma_field_index_key(names, 1, hr);
        lemma_field_index_key(names, 2, hr);
        lemma_field_index_key(names, 3, hr);
        lemma_field_index_key(names, 4, hr);
        Assessment::lemma_round_trip(m.assessment, hr);
        let st0 = IssueEntry::empty_fields();
        let st1 = IssueEntryFieldsModel { title: Some(m.title), ..st0 };
        let st2 = IssueEntryFieldsModel { description: Some(m.description), ..st1 };
        let st3 = IssueEntryFieldsModel { assessment: Some(m.assessment), ..st2 };
        let st4 = IssueEntryFieldsModel { cwe: m.cwe, ..st3 };
        let st5 = IssueEntryFieldsModel { cve: m.cve, ..st4 };
        let k0 = key_of(0, names[0], hr);
        let k1 = key_of(1, names[1], hr);
        let k2 = key_of(2, names[2], hr);
        let k3 = key_of(3, names[3], hr);
        let k4 = key_of(4, names[4], hr);
        let d2 = Assessment::encoded(m.assessment, hr);
        let e0 = Seq::<(Data, Data)>::empty();
        let e1 = push_some(e0, k0, Some(Data::Text(m.title)));
        let e2 = push_some(e1, k1, Some(Data::Text(m.description)));
        let e3 = push_some(e2, k2, Some(d2));
        let e4 = push_some(e3, k3, opt_text(m.cwe));
        lemma_walked_step::<IssueEntryFields>(st0, e0, st0, st1, k0, 0, Some(Data::Text(m.title)), hr);
        lemma_walked_step::<IssueEntryFields>(
            st0,
            e1,
            st1,
            st2,
            k1,
            1,
            Some(Data::Text(m.description)),
            hr,
        );
        lemma_walked_step::<IssueEntryFields>(st0, e2, st2, st3, k2, 2, Some(d2), hr);
        lemma_walked_step::<IssueEntryFields>(st0, e3, st3, st4, k3, 3, opt_text(m.cwe), hr);
        lemma_walked_step::<IssueEntryFields>(st0, e4, st4, st5, k4, 4, opt_text(m.cve), hr);
        assert(e3 =~= seq![
            (k0, Data::Text(m.title)),
            (k1, Data::Text(m.description)),
            (k2, d2),
        ]);
    }
}

// ============================================================================
// ManifestEntry
// ============================================================================

/// An entry in a source manifest: filename + digest.
#[derive(Debug, PartialEq)]
pub struct ManifestEntry {
    /// Source file name (key 0)
    pub filename: Text,
    /// Cryptographic hash(es) of the file (key 1)
    pub file_hash: DigestsType,
}

pub struct ManifestEntryModel {
    pub filename: Seq<char>,
    pub file_hash: Data,
}

impl ManifestEntry {
    /// A manifest entry of the given fields.
    pub fn new(filename: Text, file_hash: DigestsType) -> (r: Self)
        ensures
            r.filename == filename,
            r.file_hash == file_hash,
    {
        ManifestEntry { filename, file_hash }
    }
}

impl Clone for ManifestEntry {
    /// A copy of the manifest entry, with the same content.
    fn clone(&self) -> (r: Self)
        ensures
            r@ == self@,
    {
        ManifestEntry { filename: self.filename.clone(), file_hash: self.file_hash.clone() }
    }
}

impl View for ManifestEntry {
    type V = ManifestEntryModel;

    open spec fn view(&self) -> ManifestEntryModel {
        ManifestEntryModel { filename: self.filename@, file_hash: self.file_hash@ }
    }
}

/// The fields of a [`ManifestEntry`] read so far.
pub struct ManifestEntryFields {
    filename: Option<Text>,
    file_hash: Option<DigestsType>,
}

pub struct ManifestEntryFieldsModel {
    pub filename: Option<Seq<char>>,
    pub file_hash: Option<Data>,
}

impl View for ManifestEntryFields {
    type V = ManifestEntryFieldsModel;

    closed spec fn view(&self) -> ManifestEntryFieldsModel {
        ManifestEntryFieldsModel { filename: opt_view(self.filename), file_hash: opt_view(self.file_hash) }
    }
}

fn manifest_entry_names() -> (r: &'static [&'static str])
    ensures
        names_data(r@) == ManifestEntryFields::field_names(),
{
    let r: &'static [&'static str] = &["filename", "file-hash"];
    assert(names_data(r@) =~= ManifestEntryFields::field_names());
    r
}

impl FieldSink for ManifestEntryFields {
    open spec fn field_names() -> Seq<Seq<char>> {
        seq!["filename"@, "file-hash"@]
    }

    open spec fn accepted(st: ManifestEntryFieldsModel, index: int, d: Data, hr: bool) -> Result<
        ManifestEntryFieldsModel,
        ErrorModel,
    > {
        if index == 0 {
            match decoded_text(d, hr) {
                Ok(s) => Ok(ManifestEntryFieldsModel { filename: Some(s), ..st }),
                Err(e) => Err(e),
            }
        } else {
            Ok(ManifestEntryFieldsModel { file_hash: Some(d), ..st })
        }
    }

    fn accept(&mut self, index: usize, v: &Value, hr: bool) -> (r: Result<(), Error>) {
        if index == 0 {
            self.filename = Some(text_from_value(v, hr)?);
        } else {
            self.file_hash = Some(EncodedRecord::from_value(v, hr)?);
        }
        Ok(())
    }
}

impl ManifestEntry {
    pub open spec fn encoded_entries(m: ManifestEntryModel, hr: bool) -> Seq<(Data, Data)> {
        seq![
            (key_of(0, "filename"@, hr), Data::Text(m.filename)),
            (key_of(1, "file-hash"@, hr), m.file_hash),
        ]
    }

    pub open spec fn empty_fields() -> ManifestEntryFieldsModel {
        ManifestEntryFieldsModel { filename: None, file_hash: None }
    }

    pub open spec fn finished(st: ManifestEntryFieldsModel) -> Result<ManifestEntryModel, ErrorModel> {
        match (st.filename, st.file_hash) {
            (Some(filename), Some(file_hash)) => Ok(ManifestEntryModel { filename, file_hash }),
            (None, _) => Err(decode_error(DecodeErrorModel::MissingField("filename"@))),
            (_, None) => Err(decode_error(DecodeErrorModel::MissingField("file-hash"@))),
        }
    }
}

impl Codec for ManifestEntry {
    open spec fn encoded(m: ManifestEntryModel, hr: bool) -> Data {
        Data::Mapping(ManifestEntry::encoded_entries(m, hr))
    }

    open spec fn decoded(d: Data, hr: bool) -> Result<ManifestEntryModel, ErrorModel> {
        match peel(d, hr) {
            Data::Mapping(es) => match walked::<ManifestEntryFields>(
                ManifestEntry::empty_fields(),
                es,
                hr,
            ) {
                Ok(st) => ManifestEntry::finished(st),
                Err(e) => Err(e),
            },
            _ => Err(decode_error(DecodeErrorModel::ExpectedMap)),
        }
    }

    open spec fn round_trips(m: ManifestEntryModel, hr: bool) -> bool {
        true
    }

    fn to_value(&self, hr: bool) -> (v: Value) {
        let mut es: Vec<(Value, Value)> = Vec::new();
        push_entry(&mut es, key_value(0, "filename", hr), text_value(&self.filename));
        push_entry(&mut es, key_value(1, "file-hash", hr), self.file_hash.to_value(hr));
        assert(pairs_data(es@) =~= ManifestEntry::encoded_entries(self@, hr));
        proof {
            lemma_mapping_view(es);
        }
        Value::Mapping(es)
    }

    fn from_value(v: &Value, hr: bool) -> (r: Result<Self, Error>) {
        match peel_value(v, hr) {
            Value::Mapping(es) => {
                proof {
                    lemma_mapping_view(*es);
                }
                let mut f = ManifestEntryFields { filename: None, file_hash: None };
                walk_entries(&mut f, es, manifest_entry_names(), hr)?;
                match (f.filename, f.file_hash) {
                    (Some(filename), Some(file_hash)) => Ok(ManifestEntry { filename, file_hash }),
                    (None, _) => Err(Error::Decode(DecodeError::MissingField("filename"))),
                    (_, None) => Err(Error::Decode(DecodeError::MissingField("file-hash"))),
                }
            },
            _ => Err(Error::Decode(DecodeError::ExpectedMap)),
        }
    }

    proof fn lemma_round_trip(m: ManifestEntryModel, hr: bool) {
        let names = ManifestEntryFields::field_names();
        reveal_strlit("filename");
        reveal_strlit("file-hash");
        assert(names[0].len() != names[1].len());
        assert(distinct(names));
        lemma_field_index_key(names, 0, hr);
        lemma_field_index_key(names, 1, hr);
        let st0 = ManifestEntry::empty_fields();
        let st1 = ManifestEntryFieldsModel { filename: Some(m.filename), ..st0 };
        let st2 = ManifestEntryFieldsModel { file_hash: Some(m.file_hash), ..st1 };
        let k0 = key_of(0, names[0], hr);
        let k1 = key_of(1, names[1], hr);
        let e0 = Seq::<(Data, Data)>::empty();
        let e1 = push_some(e0, k0, Some(Data::Text(m.filename)));
        let e2 = push_some(e1, k1, Some(m.file_hash));
        lemma_walked_step::<ManifestEntryFields>(st0, e0, st0, st1, k0, 0, Some(Data::Text(m.filename)), hr);
        lemma_walked_step::<ManifestEntryFields>(st0, e1, st1, st2, k1, 1, Some(m.file_hash), hr);
        assert(e2 =~= ManifestEntry::encoded_entries(m, hr));
    }
}

// ============================================================================
// SrcManifest
// ============================================================================

/// Source code manifest with an overall digest and individual file entries.
#[derive(Debug, PartialEq)]
pub struct SrcManifest {
    /// Digest of the manifest itself (key 0)
    pub manifest_digest: DigestsType,
    /// Individual file entries (key 1)
    pub manifest: Vec<ManifestEntry>,
}

pub struct SrcManifestModel {
    pub manifest_digest: Data,
    pub manifest: Seq<ManifestEntryModel>,
}

impl SrcManifest {
    /// A source manifest of the given fields.
    pub fn new(manifest_digest: DigestsType, manifest: Vec<ManifestEntry>) -> (r: Self)
        ensures
            r.manifest_digest == manifest_digest,
            r.manifest == manifest,
    {
        SrcManifest { manifest_digest, manifest }
    }
}

impl Clone for SrcManifest {
    /// A copy of the source manifest, with the same content.
    fn clone(&self) -> (r: Self)
        ensures
            r@ == self@,
    {
        assert(clone_keeps_view::<ManifestEntry>());
        SrcManifest {
            manifest_digest: self.manifest_digest.clone(),
            manifest: clone_list(&self.manifest),
        }
    }
}

impl View for SrcManifest {
    type V = SrcManifestModel;

    open spec fn view(&self) -> SrcManifestModel {
        SrcManifestModel { manifest_digest: self.manifest_digest@, manifest: models(self.manifest@) }
    }
}

/// The fields of a [`SrcManifest`] read so far.
pub struct SrcManifestFields {
    manifest_digest: Option<DigestsType>,
    manifest: Option<Vec<ManifestEntry>>,
}

pub struct SrcManifestFieldsModel {
    pub manifest_digest: Option<Data>,
    pub manifest: Option<Seq<ManifestEntryModel>>,
}

impl View for SrcManifestFields {
    type V = SrcManifestFieldsModel;

    closed spec fn view(&self) -> SrcManifestFieldsModel {
        SrcManifestFieldsModel {
            manifest_digest: opt_view(self.manifest_digest),
            manifest: opt_models(self.manifest),
        }
    }
}

fn src_manifest_names() -> (r: &'static [&'static str])
    ensures
        names_data(r@) == SrcManifestFields::field_names(),
{
    let r: &'static [&'static str] = &["manifest-digest", "manifest"];
    assert(names_data(r@) =~= SrcManifestFields::field_names());
    r
}

impl FieldSink for SrcManifestFields {
    open spec fn field_names() -> Seq<Seq<char>> {
        seq!["manifest-digest"@, "manifest"@]
    }

    open spec fn accepted(st: SrcManifestFieldsModel, index: int, d: Data, hr: bool) -> Result<
        SrcManifestFieldsModel,
        ErrorModel,
    > {
        if index == 0 {
            Ok(SrcManifestFieldsModel { manifest_digest: Some(d), ..st })
        } else {
            match decoded_array::<ManifestEntry>(d, hr) {
                Ok(xs) => Ok(SrcManifestFieldsModel { manifest: Some(xs), ..st }),
                Err(e) => Err(e),
            }
        }
    }

    fn accept(&mut self, index: usize, v: &Value, hr: bool) -> (r: Result<(), Error>) {
        if index == 0 {
            self.manifest_digest = Some(EncodedRecord::from_value(v, hr)?);
        } else {
            self.manifest = Some(array_from_value(v, hr)?);
        }
        Ok(())
    }
}

impl SrcManifest {
    pub open spec fn encoded_entries(m: SrcManifestModel, hr: bool) -> Seq<(Data, Data)> {
        seq![
            (key_of(0, "manifest-digest"@, hr), m.manifest_digest),
            (key_of(1, "manifest"@, hr), encoded_array::<ManifestEntry>(m.manifest, hr)),
        ]
    }

    pub open spec fn empty_fields() -> SrcManifestFieldsModel {
        SrcManifestFieldsModel { manifest_digest: None, manifest: None }
    }

    pub open spec fn finished(st: SrcManifestFieldsModel) -> Result<SrcManifestModel, ErrorModel> {
        match (st.manifest_digest, st.manifest) {
            (Some(manifest_digest), Some(manifest)) => Ok(
                SrcManifestModel { manifest_digest, manifest },
            ),
            (None, _) => Err(decode_error(DecodeErrorModel::MissingField("manifest-digest"@))),
            (_, None) => Err(decode_error(DecodeErrorModel::MissingField("manifest"@))),
        }
    }
}

impl Codec for SrcManifest {
    open spec fn encoded(m: SrcManifestModel, hr: bool) -> Data {
        Data::Mapping(SrcManifest::encoded_entries(m, hr))
    }

    open spec fn decoded(d: Data, hr: bool) -> Result<SrcManifestModel, ErrorModel> {
        match peel(d, hr) {
            Data::Mapping(es) => match walked::<SrcManifestFields>(
                SrcManifest::empty_fields(),
                es,
                hr,
            ) {
                Ok(st) => SrcManifest::finished(st),
                Err(e) => Err(e),
            },
            _ => Err(decode_error(DecodeErrorModel::ExpectedMap)),
        }
    }

    open spec fn round_trips(m: SrcManifestModel, hr: bool) -> bool {
        true
    }

    fn to_value(&self, hr: bool) -> (v: Value) {
        let mut es: Vec<(Value, Value)> = Vec::new();
        push_entry(&mut es, key_value(0, "manifest-digest", hr), self.manifest_digest.to_value(hr));
        push_entry(&mut es, key_value(1, "manifest", hr), crate::value::array_to_value(&self.manifest, hr));
        assert(pairs_data(es@) =~= SrcManifest::encoded_entries(self@, hr));
        proof {
            lemma_mapping_view(es);
        }
        Value::Mapping(es)
    }

    fn from_value(v: &Value, hr: bool) -> (r: Result<Self, Error>) {
        match peel_value(v, hr) {
            Value::Mapping(es) => {
                proof {
                    lemma_mapping_view(*es);
                }
                let mut f = SrcManifestFields { manifest_digest: None, manifest: None };
                walk_entries(&mut f, es, src_manifest_names(), hr)?;
                match (f.manifest_digest, f.manifest) {
                    (Some(manifest_digest), Some(manifest)) => Ok(
                        SrcManifest { manifest_digest, manifest },
                    ),
                    (None, _) => Err(Error::Decode(DecodeError::MissingField("manifest-digest"))),
                    (_, None) => Err(Error::Decode(DecodeError::MissingField("manifest"))),
                }
            },
            _ => Err(Error::Decode(DecodeError::ExpectedMap)),
        }
    }

    proof fn lemma_round_trip(m: SrcManifestModel, hr: bool) {
        let names = SrcManifestFields::field_names();
        reveal_strlit("manifest-digest");
        reveal_strlit("manifest");
        assert(names[0].len() != names[1].len());
        assert(distinct(names));
        lemma_field_index_key(names, 0, hr);
        lemma_field_index_key(names, 1, hr);
        assert forall|i: int| 0 <= i < m.manifest.len() implies ManifestEntry::round_trips(
            #[trigger] m.manifest[i],
            hr,
        ) by {}
        lemma_array_round_trip::<ManifestEntry>(m.manifest, hr);
        let d1 = encoded_array::<ManifestEntry>(m.manifest, hr);
        let st0 = SrcManifest::empty_fields();
        let st1 = SrcManifestFieldsModel { manifest_digest: Some(m.manifest_digest), ..st0 };
        let st2 = SrcManifestFieldsModel { manifest: Some(m.manifest), ..st1 };
        let k0 = key_of(0, names[0], hr);
        let k1 = key_of(1, names[1], hr);
        let e0 = Seq::<(Data, Data)>::empty();
        let e1 = push_some(e0, k0, Some(m.manifest_digest));
        let e2 = push_some(e1, k1, Some(d1));
        lemma_walked_step::<SrcManifestFields>(st0, e0, st0, st1, k0, 0, Some(m.manifest_digest), hr);
        lemma_walked_step::<SrcManifestFields>(st0, e1, st1, st2, k1, 1, Some(d1), hr);
        assert(e2 =~= SrcManifest::encoded_entries(m, hr));
    }
}

// ============================================================================
// FwIdentifier
// ============================================================================

/// Firmware identifier describing a reviewed firmware component; at least one
/// field must be set.
#[derive(Debug, PartialEq)]
pub struct FwIdentifier {
    /// Firmware version (key 0)
    pub fw_version: Option<VersionMap>,
    /// Cryptographic digests of firmware files (key 1)
    pub fw_file_digests: Option<DigestsType>,
    /// Source repository tag or commit (key 2)
    pub repo_tag: Option<Text>,
    /// Source code manifest (key 3)
    pub src_manifest: Option<SrcManifest>,
}

pub struct FwIdentifierModel {
    pub fw_version: Option<VersionMapModel>,
    pub fw_file_digests: Option<Data>,
    pub repo_tag: Option<Seq<char>>,
    pub src_manifest: Option<SrcManifestModel>,
}

impl FwIdentifierModel {
    /// No field is set.
    pub open spec fn no_fields(self) -> bool {
        &&& self.fw_version is None
        &&& self.fw_file_digests is None
        &&& self.repo_tag is None
        &&& self.src_manifest is None
    }

    pub open spec fn empty() -> FwIdentifierModel {
        FwIdentifierModel { fw_version: None, fw_file_digests: None, repo_tag: None, src_manifest: None }
    }
}

impl FwIdentifier {
    /// A firmware identifier of the given fields, as given: no field is required here.
    pub fn new(fw_version: Option<VersionMap>, fw_file_digests: Option<DigestsType>, repo_tag: Option<Text>, src_manifest: Option<SrcManifest>) -> (r: Self)
        ensures
            r.fw_version == fw_version,
            r.fw_file_digests == fw_file_digests,
            r.repo_tag == repo_tag,
            r.src_manifest == src_manifest,
    {
        FwIdentifier { fw_version, fw_file_digests, repo_tag, src_manifest }
    }
}

impl Clone for FwIdentifier {
    /// A copy of the firmware identifier, with the same content.
    fn clone(&self) -> (r: Self)
        ensures
            r@ == self@,
    {
        FwIdentifier {
            fw_version: self.fw_version.clone(),
            fw_file_digests: self.fw_file_digests.clone(),
            repo_tag: self.repo_tag.clone(),
            src_manifest: self.src_manifest.clone(),
        }
    }
}

impl View for FwIdentifier {
    type V = FwIdentifierModel;

    open spec fn view(&self) -> FwIdentifierModel {
        FwIdentifierModel {
            fw_version: opt_view(self.fw_version),
            fw_file_digests: opt_view(self.fw_file_digests),
            repo_tag: opt_view(self.repo_tag),
            src_manifest: opt_view(self.src_manifest),
        }
    }
}

impl FwIdentifier {
    /// Returns true if no fields are set (invalid per CDDL `non-empty`).
    pub fn is_empty(&self) -> (r: bool)
        ensures
            r == self@.no_fields(),
            r <==> (self.fw_version is None && self.fw_file_digests is None && self.repo_tag is None
                && self.src_manifest is None),
    {
        self.fw_version.is_none() && self.fw_file_digests.is_none() && self.repo_tag.is_none()
            && self.src_manifest.is_none()
    }

    pub open spec fn encoded_entries(m: FwIdentifierModel, hr: bool) -> Seq<(Data, Data)> {
        push_some(
            push_some(
                push_some(
                    push_some(
                        Seq::empty(),
                        key_of(0, "fw-version"@, hr),
                        opt_encoded::<VersionMap>(m.fw_version, hr),
                    ),
                    key_of(1, "fw-file-digests"@, hr),
                    m.fw_file_digests,
                ),
                key_of(2, "repo-tag"@, hr),
                opt_text(m.repo_tag),
            ),
            key_of(3, "src-manifest"@, hr),
            opt_encoded::<SrcManifest>(m.src_manifest, hr),
        )
    }

    /// A read identifier with no field set is refused.
    pub open spec fn finished(st: FwIdentifierModel) -> Result<FwIdentifierModel, ErrorModel> {
        if st.no_fields() {
            Err(ErrorModel::OcpSafe(OcpSafeErrorModel::EmptyFwIdentifier))
        } else {
            Ok(st)
        }
    }
}

fn fw_identifier_names() -> (r: &'static [&'static str])
    ensures
        names_data(r@) == FwIdentifier::field_names(),
{
    let r: &'static [&'static str] = &["fw-version", "fw-file-digests", "repo-tag", "src-manifest"];
    assert(names_data(r@) =~= FwIdentifier::field_names());
    r
}

impl FieldSink for FwIdentifier {
    open spec fn field_names() -> Seq<Seq<char>> {
        seq!["fw-version"@, "fw-file-digests"@, "repo-tag"@, "src-manifest"@]
    }

    open spec fn accepted(st: FwIdentifierModel, index: int, d: Data, hr: bool) -> Result<
        FwIdentifierModel,
        ErrorModel,
    > {
        if index == 0 {
            match VersionMap::decoded(d, hr) {
                Ok(x) => Ok(FwIdentifierModel { fw_version: Some(x), ..st }),
                Err(e) => Err(e),
            }
        } else if index == 1 {
            Ok(FwIdentifierModel { fw_file_digests: Some(d), ..st })
        } else if index == 2 {
            match decoded_text(d, hr) {
                Ok(s) => Ok(FwIdentifierModel { repo_tag: Some(s), ..st }),
                Err(e) => Err(e),
            }
        } else {
            match SrcManifest::decoded(d, hr) {
                Ok(x) => Ok(FwIdentifierModel { src_manifest: Some(x), ..st }),
                Err(e) => Err(e),
            }
        }
    }

    fn accept(&mut self, index: usize, v: &Value, hr: bool) -> (r: Result<(), Error>) {
        if index == 0 {
            self.fw_version = Some(VersionMap::from_value(v, hr)?);
        } else if index == 1 {
            self.fw_file_digests = Some(EncodedRecord::from_value(v, hr)?);
        } else if index == 2 {
            self.repo_tag = Some(text_from_value(v, hr)?);
        } else {
            self.src_manifest = Some(SrcManifest::from_value(v, hr)?);
        }
        Ok(())
    }
}

impl Codec for FwIdentifier {
    open spec fn encoded(m: FwIdentifierModel, hr: bool) -> Data {
        Data::Mapping(FwIdentifier::encoded_entries(m, hr))
    }

    open spec fn decoded(d: Data, hr: bool) -> Result<FwIdentifierModel, ErrorModel> {
        match peel(d, hr) {
            Data::Mapping(es) => match walked::<FwIdentifier>(FwIdentifierModel::empty(), es, hr) {
                Ok(st) => FwIdentifier::finished(st),
                Err(e) => Err(e),
            },
            _ => Err(decode_error(DecodeErrorModel::ExpectedMap)),
        }
    }

    /// An identifier with no field set is written but refused when read.
    open spec fn round_trips(m: FwIdentifierModel, hr: bool) -> bool {
        !m.no_fields()
    }

    fn to_value(&self, hr: bool) -> (v: Value) {
        let mut es: Vec<(Value, Value)> = Vec::new();
        assert(pairs_data(es@) =~= Seq::<(Data, Data)>::empty());
        push_opt_entry(&mut es, 0, "fw-version", &self.fw_version, hr);
        assert(opt_encoded::<EncodedRecord>(opt_view(self.fw_file_digests), hr) == self@.fw_file_digests);
        push_opt_entry(&mut es, 1, "fw-file-digests", &self.fw_file_digests, hr);
        push_opt_text_entry(&mut es, 2, "repo-tag", &self.repo_tag, hr);
        push_opt_entry(&mut es, 3, "src-manifest", &self.src_manifest, hr);
        proof {
            lemma_mapping_view(es);
        }
        Value::Mapping(es)
    }

    fn from_value(v: &Value, hr: bool) -> (r: Result<Self, Error>) {
        match peel_value(v, hr) {
            Value::Mapping(es) => {
                proof {
                    lemma_mapping_view(*es);
                }
                let mut f = FwIdentifier {
                    fw_version: None,
                    fw_file_digests: None,
                    repo_tag: None,
                    src_manifest: None,
                };
                walk_entries(&mut f, es, fw_identifier_names(), hr)?;
                if f.is_empty() {
                    return Err(Error::OcpSafe(OcpSafeError::EmptyFwIdentifier));
                }
                Ok(f)
            },
            _ => Err(Error::Decode(DecodeError::ExpectedMap)),
        }
    }

    proof fn lemma_round_trip(m: FwIdentifierModel, hr: bool) {
        let names = FwIdentifier::field_names();
        reveal_strlit("fw-version");
        reveal_strlit("fw-file-digests");
        reveal_strlit("repo-tag");
        reveal_strlit("src-manifest");
        assert(names[0].len() == 10 && names[1].len() == 15 && names[2].len() == 8
            && names[3].len() == 12);
        assert forall|i: int, j: int|
            0 <= i < names.len() && 0 <= j < names.len() && i != j implies names[i] != names[j] by {
            assert(i == 0 || i == 1 || i == 2 || i == 3);
            assert(j == 0 || j == 1 || j == 2 || j == 3);
        }
        assert(distinct(names));
        lemma_field_index_key(names, 0, hr);
        lemma_field_index_key(names, 1, hr);
        lemma_field_index_key(names, 2, hr);
        lemma_field_index_key(names, 3, hr);
        if let Some(x) = m.fw_version {
            VersionMap::lemma_round_trip(x, hr);
        }
        if let Some(x) = m.src_manifest {
            SrcManifest::lemma_round_trip(x, hr);
        }
        let st0 = FwIdentifierModel::empty();
        let st1 = FwIdentifierModel { fw_version: m.fw_version, ..st0 };
        let st2 = FwIdentifierModel { fw_file_digests: m.fw_file_digests, ..st1 };
        let st3 = FwIdentifierModel { repo_tag: m.repo_tag, ..st2 };
        let st4 = FwIdentifierModel { src_manifest: m.src_manifest, ..st3 };
        let k0 = key_of(0, names[0], hr);
        let k1 = key_of(1, names[1], hr);
        let k2 = key_of(2, names[2], hr);
        let k3 = key_of(3, names[3], hr);
        let e0 = Seq::<(Data, Data)>::empty();
        let e1 = push_some(e0, k0, opt_encoded::<VersionMap>(m.fw_version, hr));
        let e2 = push_some(e1, k1, m.fw_file_digests);
        let e3 = push_some(e2, k2, opt_text(m.repo_tag));
        lemma_walked_step::<FwIdentifier>(
            st0,
            e0,
            st0,
            st1,
            k0,
            0,
            opt_encoded::<VersionMap>(m.fw_version, hr),
            hr,
        );
        lemma_walked_step::<FwIdentifier>(st0, e1, st1, st2, k1, 1, m.fw_file_digests, hr);
        lemma_walked_step::<FwIdentifier>(st0, e2, st2, st3, k2, 2, opt_text(m.repo_tag), hr);
        lemma_walked_step::<FwIdentifier>(
            st0,
            e3,
            st3,
            st4,
            k3,
            3,
            opt_encoded::<SrcManifest>(m.src_manifest, hr),
            hr,
        );
        assert(st4 == m);
    }
}

// ============================================================================
// OcpSafeSfrMap
// ============================================================================

/// OCP S.A.F.E. SFR extension map embedded at CBOR key `-1` in `measurement-values-map`.
///
/// Contains security review metadata, optional firmware identifiers, and
/// optional security issues found during the review.
#[derive(Debug, PartialEq)]
pub struct OcpSafeSfrMap {
    /// Version of the OCP S.A.F.E. review framework used (key 0)
    pub review_framework_version: Text,
    /// Version of the specific security review report (key 1)
    pub report_version: Text,
    /// Date the security review was completed (key 2, CBOR tag 1 epoch)
    pub completion_date: IntegerTime,
    /// Numerical identifier for the review scope (key 3)
    pub scope_number: i64,
    /// Optional firmware identifiers reviewed (key 4)
    pub fw_identifiers: Option<Vec<FwIdentifier>>,
    /// Optional security issues found (key 5)
    pub issues: Option<Vec<IssueEntry>>,
    /// Extension attributes
    pub extensions: Option<ExtensionMap>,
}

pub struct OcpSafeSfrModel {
    pub review_framework_version: Seq<char>,
    pub report_version: Seq<char>,
    pub completion_date: i64,
    pub scope_number: i64,
    pub fw_identifiers: Option<Seq<FwIdentifierModel>>,
    pub issues: Option<Seq<IssueEntryModel>>,
    pub extensions: Option<Seq<(Data, Data)>>,
}

impl OcpSafeSfrMap {
    /// A report of the given fields.
    pub fn new(review_framework_version: Text, report_version: Text, completion_date: IntegerTime, scope_number: i64, fw_identifiers: Option<Vec<FwIdentifier>>, issues: Option<Vec<IssueEntry>>, extensions: Option<ExtensionMap>) -> (r: Self)
        ensures
            r.review_framework_version == review_framework_version,
            r.report_version == report_version,
            r.completion_date == completion_date,
            r.scope_number == scope_number,
            r.fw_identifiers == fw_identifiers,
            r.issues == issues,
            r.extensions == extensions,
    {
        OcpSafeSfrMap { review_framework_version, report_version, completion_date, scope_number, fw_identifiers, issues, extensions }
    }
}

impl Clone for OcpSafeSfrMap {
    /// A copy of the report, with the same content.
    fn clone(&self) -> (r: Self)
        ensures
            r@ == self@,
    {
        assert(clone_keeps_view::<FwIdentifier>());
        assert(clone_keeps_view::<IssueEntry>());
        OcpSafeSfrMap {
            review_framework_version: self.review_framework_version.clone(),
            report_version: self.report_version.clone(),
            completion_date: self.completion_date,
            scope_number: self.scope_number,
            fw_identifiers: clone_opt_list(&self.fw_identifiers),
            issues: clone_opt_list(&self.issues),
            extensions: self.extensions.clone(),
        }
    }
}

impl View for OcpSafeSfrMap {
    type V = OcpSafeSfrModel;

    open spec fn view(&self) -> OcpSafeSfrModel {
        OcpSafeSfrModel {
            review_framework_version: self.review_framework_version@,
            report_version: self.report_version@,
            completion_date: self.completion_date@,
            scope_number: self.scope_number,
            fw_identifiers: opt_models(self.fw_identifiers),
            issues: opt_models(self.issues),
            extensions: opt_view(self.extensions),
        }
    }
}

/// The contents of an [`OcpSafeSfrMapBuilder`].
pub struct OcpSafeSfrBuilderModel {
    pub review_framework_version: Option<Seq<char>>,
    pub report_version: Option<Seq<char>>,
    pub completion_date: Option<i64>,
    pub scope_number: Option<i64>,
    pub fw_identifiers: Option<Seq<FwIdentifierModel>>,
    pub issues: Option<Seq<IssueEntryModel>>,
    pub extensions: Option<Seq<(Data, Data)>>,
}

pub open spec fn unset(field: Seq<char>) -> ErrorModel {
    ErrorModel::OcpSafe(OcpSafeErrorModel::UnsetMandatoryField("OcpSafeSfrMap"@, field))
}

impl OcpSafeSfrBuilderModel {
    pub open spec fn empty() -> OcpSafeSfrBuilderModel {
        OcpSafeSfrBuilderModel {
            review_framework_version: None,
            report_version: None,
            completion_date: None,
            scope_number: None,
            fw_identifiers: None,
            issues: None,
            extensions: None,
        }
    }

    /// What building from these contents gives: the first mandatory field
    /// that is unset, in the order of the fields, is the error.
    pub open spec fn built(self) -> Result<OcpSafeSfrModel, ErrorModel> {
        match (self.review_framework_version, self.report_version, self.completion_date, self.scope_number) {
            (Some(rfv), Some(rv), Some(cd), Some(sn)) => Ok(
                OcpSafeSfrModel {
                    review_framework_version: rfv,
                    report_version: rv,
                    completion_date: cd,
                    scope_number: sn,
                    fw_identifiers: self.fw_identifiers,
                    issues: self.issues,
                    extensions: self.extensions,
                },
            ),
            (None, _, _, _) => Err(unset("review-framework-version"@)),
            (_, None, _, _) => Err(unset("report-version"@)),
            (_, _, None, _) => Err(unset("completion-date"@)),
            (_, _, _, None) => Err(unset("scope-number"@)),
        }
    }
}

/// Builder for [`OcpSafeSfrMap`].
pub struct OcpSafeSfrMapBuilder {
    review_framework_version: Option<Text>,
    report_version: Option<Text>,
    completion_date: Option<IntegerTime>,
    scope_number: Option<i64>,
    fw_identifiers: Option<Vec<FwIdentifier>>,
    issues: Option<Vec<IssueEntry>>,
    extensions: Option<ExtensionMap>,
}

impl View for OcpSafeSfrMapBuilder {
    type V = OcpSafeSfrBuilderModel;

    closed spec fn view(&self) -> OcpSafeSfrBuilderModel {
        OcpSafeSfrBuilderModel {
            review_framework_version: opt_view(self.review_framework_version),
            report_version: opt_view(self.report_version),
            completion_date: opt_view(self.completion_date),
            scope_number: self.scope_number,
            fw_identifiers: opt_models(self.fw_identifiers),
            issues: opt_models(self.issues),
            extensions: opt_view(self.extensions),
        }
    }
}

impl OcpSafeSfrMapBuilder {
    pub fn new() -> (r: Self)
        ensures
            r@ == OcpSafeSfrBuilderModel::empty(),
    {
        OcpSafeSfrMapBuilder {
            review_framework_version: None,
            report_version: None,
            completion_date: None,
            scope_number: None,
            fw_identifiers: None,
            issues: None,
            extensions: None,
        }
    }

    pub fn review_framework_version(self, v: Text) -> (r: Self)
        ensures
            r@ == (OcpSafeSfrBuilderModel { review_framework_version: Some(v@), ..self@ }),
    {
        let mut b = self;
        b.review_framework_version = Some(v);
        b
    }

    pub fn report_version(self, v: Text) -> (r: Self)
        ensures
            r@ == (OcpSafeSfrBuilderModel { report_version: Some(v@), ..self@ }),
    {
        let mut b = self;
        b.report_version = Some(v);
        b
    }

    pub fn completion_date(self, v: IntegerTime) -> (r: Self)
        ensures
            r@ == (OcpSafeSfrBuilderModel { completion_date: Some(v@), ..self@ }),
    {
        let mut b = self;
        b.completion_date = Some(v);
        b
    }

    pub fn scope_number(self, v: i64) -> (r: Self)
        ensures
            r@ == (OcpSafeSfrBuilderModel { scope_number: Some(v), ..self@ }),
    {
        let mut b = self;
        b.scope_number = Some(v);
        b
    }

    pub fn fw_identifiers(self, v: Vec<FwIdentifier>) -> (r: Self)
        ensures
            r@ == (OcpSafeSfrBuilderModel { fw_identifiers: Some(models(v@)), ..self@ }),
    {
        let mut b = self;
        b.fw_identifiers = Some(v);
        b
    }

    pub fn issues(self, v: Vec<IssueEntry>) -> (r: Self)
        ensures
            r@ == (OcpSafeSfrBuilderModel { issues: Some(models(v@)), ..self@ }),
    {
        let mut b = self;
        b.issues = Some(v);
        b
    }

    pub fn extensions(self, v: ExtensionMap) -> (r: Self)
        ensures
            r@ == (OcpSafeSfrBuilderModel { extensions: Some(v@), ..self@ }),
    {
        let mut b = self;
        b.extensions = Some(v);
        b
    }

    /// The map; an error naming the first mandatory field that was not set.
    pub fn build(self) -> (r: Result<OcpSafeSfrMap, Error>)
        ensures
            outcome(r) == self@.built(),
    {
        let review_framework_version = match self.review_framework_version {
            Some(v) => v,
            None => {
                return Err(
                    Error::OcpSafe(
                        OcpSafeError::unset_mandatory_field(
                            "OcpSafeSfrMap",
                            "review-framework-version",
                        ),
                    ),
                )
            },
        };
        let report_version = match self.report_version {
            Some(v) => v,
            None => {
                return Err(
                    Error::OcpSafe(
                        OcpSafeError::unset_mandatory_field("OcpSafeSfrMap", "report-version"),
                    ),
                )
            },
        };
        let completion_date = match self.completion_date {
            Some(v) => v,
            None => {
                return Err(
                    Error::OcpSafe(
                        OcpSafeError::unset_mandatory_field("OcpSafeSfrMap", "completion-date"),
                    ),
                )
            },
        };
        let scope_number = match self.scope_number {
            Some(v) => v,
            None => {
                return Err(
                    Error::OcpSafe(
                        OcpSafeError::unset_mandatory_field("OcpSafeSfrMap", "scope-number"),
                    ),
                )
            },
        };
        Ok(
            OcpSafeSfrMap {
                review_framework_version,
                report_version,
                completion_date,
                scope_number,
                fw_identifiers: self.fw_identifiers,
                issues: self.issues,
                extensions: self.extensions,
            },
        )
    }
}

impl Default for OcpSafeSfrMapBuilder {
    fn default() -> (r: Self)
        ensures
            r@ == OcpSafeSfrBuilderModel::empty(),
    {
        OcpSafeSfrMapBuilder::new()
    }
}

fn sfr_names() -> (r: &'static [&'static str])
    ensures
        names_data(r@) == OcpSafeSfrMapBuilder::field_names(),
{
    let r: &'static [&'static str] = &[
        "review-framework-version",
        "report-version",
        "completion-date",
        "scope-number",
        "fw-identifiers",
        "issues",
    ];
    assert(names_data(r@) =~= OcpSafeSfrMapBuilder::field_names());
    r
}

impl FieldSink for OcpSafeSfrMapBuilder {
    open spec fn field_names() -> Seq<Seq<char>> {
        seq![
            "review-framework-version"@,
            "report-version"@,
            "completion-date"@,
            "scope-number"@,
            "fw-identifiers"@,
            "issues"@,
        ]
    }

    open spec fn accepted(st: OcpSafeSfrBuilderModel, index: int, d: Data, hr: bool) -> Result<
        OcpSafeSfrBuilderModel,
        ErrorModel,
    > {
        if index == 0 {
            match decoded_text(d, hr) {
                Ok(s) => Ok(OcpSafeSfrBuilderModel { review_framework_version: Some(s), ..st }),
                Err(e) => Err(e),
            }
        } else if index == 1 {
            match decoded_text(d, hr) {
                Ok(s) => Ok(OcpSafeSfrBuilderModel { report_version: Some(s), ..st }),
                Err(e) => Err(e),
            }
        } else if index == 2 {
            match IntegerTime::decoded(d, hr) {
                Ok(t) => Ok(OcpSafeSfrBuilderModel { completion_date: Some(t), ..st }),
                Err(e) => Err(e),
            }
        } else if index == 3 {
            match decoded_i64(d, hr) {
                Ok(x) => Ok(OcpSafeSfrBuilderModel { scope_number: Some(x), ..st }),
                Err(e) => Err(e),
            }
        } else if index == 4 {
            match decoded_array::<FwIdentifier>(d, hr) {
                Ok(xs) => Ok(OcpSafeSfrBuilderModel { fw_identifiers: Some(xs), ..st }),
                Err(e) => Err(e),
            }
        } else {
            match decoded_array::<IssueEntry>(d, hr) {
                Ok(xs) => Ok(OcpSafeSfrBuilderModel { issues: Some(xs), ..st }),
                Err(e) => Err(e),
            }
        }
    }

    fn accept(&mut self, index: usize, v: &Value, hr: bool) -> (r: Result<(), Error>) {
        if index == 0 {
            self.review_framework_version = Some(text_from_value(v, hr)?);
        } else if index == 1 {
            self.report_version = Some(text_from_value(v, hr)?);
        } else if index == 2 {
            self.completion_date = Some(IntegerTime::from_value(v, hr)?);
        } else if index == 3 {
            self.scope_number = Some(i64_from_value(v, hr)?);
        } else if index == 4 {
            self.fw_identifiers = Some(array_from_value(v, hr)?);
        } else {
            self.issues = Some(array_from_value(v, hr)?);
        }
        Ok(())
    }
}

impl OcpSafeSfrMap {
    pub open spec fn encoded_entries(m: OcpSafeSfrModel, hr: bool) -> Seq<(Data, Data)> {
        with_extensions(
            push_some(
                push_some(
                    seq![
                        (key_of(0, "review-framework-version"@, hr), Data::Text(m.review_framework_version)),
                        (key_of(1, "report-version"@, hr), Data::Text(m.report_version)),
                        (key_of(2, "completion-date"@, hr), IntegerTime::encoded(m.completion_date, hr)),
                        (key_of(3, "scope-number"@, hr), Data::Int(m.scope_number as int)),
                    ],
                    key_of(4, "fw-identifiers"@, hr),
                    opt_encoded_array::<FwIdentifier>(m.fw_identifiers, hr),
                ),
                key_of(5, "issues"@, hr),
                opt_encoded_array::<IssueEntry>(m.issues, hr),
            ),
            m.extensions,
        )
    }

    /// What reading the SFR extension of measurement values with extension
    /// entries `ext` gives.
    pub open spec fn from_extensions(ext: Option<Seq<(Data, Data)>>) -> Result<
        OcpSafeSfrModel,
        ErrorModel,
    > {
        match ext {
            Some(es) => match lookup_int(es, SFR_EXTENSION_KEY as int) {
                Some(d) => match OcpSafeSfrMap::decoded(d, false) {
                    Ok(m) => Ok(m),
                    Err(e) => Err(
                        ErrorModel::OcpSafe(
                            OcpSafeErrorModel::Custom("CBOR deserialize SFR: "@ + e.message()),
                        ),
                    ),
                },
                None => Err(ErrorModel::OcpSafe(OcpSafeErrorModel::MissingSfrExtension)),
            },
            None => Err(ErrorModel::OcpSafe(OcpSafeErrorModel::MissingSfrExtension)),
        }
    }

    /// Extracts and reads the OCP SAFE SFR extension at CBOR key `-1` of a
    /// `MeasurementValuesMap`'s extensions; `MissingSfrExtension` where there is none,
    /// and a `Custom` error naming the failure where the extension is no SFR.
    pub fn from_measurement_values(mval: &MeasurementValuesMap) -> (r: Result<Self, Error>)
        ensures
            outcome(r) == OcpSafeSfrMap::from_extensions(opt_view(mval.extensions)),
    {
        match &mval.extensions {
            Some(ext) => match ext.get(SFR_EXTENSION_KEY) {
                Some(v) => match OcpSafeSfrMap::from_value(v, false) {
                    Ok(sfr) => Ok(sfr),
                    Err(e) => {
                        let mut message = String::from_str("CBOR deserialize SFR: ");
                        message.append(e.message().as_str());
                        Err(Error::OcpSafe(OcpSafeError::Custom(message)))
                    },
                },
                None => Err(Error::OcpSafe(OcpSafeError::MissingSfrExtension)),
            },
            None => Err(Error::OcpSafe(OcpSafeError::MissingSfrExtension)),
        }
    }
}

impl Codec for OcpSafeSfrMap {
    open spec fn encoded(m: OcpSafeSfrModel, hr: bool) -> Data {
        Data::Mapping(OcpSafeSfrMap::encoded_entries(m, hr))
    }

    open spec fn decoded(d: Data, hr: bool) -> Result<OcpSafeSfrModel, ErrorModel> {
        match peel(d, hr) {
            Data::Mapping(es) => match walked::<OcpSafeSfrMapBuilder>(
                OcpSafeSfrBuilderModel::empty(),
                es,
                hr,
            ) {
                Ok(st) => st.built(),
                Err(e) => Err(e),
            },
            _ => Err(decode_error(DecodeErrorModel::ExpectedMap)),
        }
    }

    /// The values read back as written include those without extension entries.
    /// Reading takes an extension entry whose key names a field as that field,
    /// and refuses one whose key names none.
    open spec fn round_trips(m: OcpSafeSfrModel, hr: bool) -> bool {
        &&& m.extensions is None
        &&& m.fw_identifiers matches Some(fws) ==> all_round_trip::<FwIdentifier>(fws, hr)
        &&& m.issues matches Some(is) ==> all_round_trip::<IssueEntry>(is, hr)
    }

    fn to_value(&self, hr: bool) -> (v: Value) {
        let mut es: Vec<(Value, Value)> = Vec::new();
        push_entry(
            &mut es,
            key_value(0, "review-framework-version", hr),
            text_value(&self.review_framework_version),
        );
        push_entry(&mut es, key_value(1, "report-version", hr), text_value(&self.report_version));
        push_entry(&mut es, key_value(2, "completion-date", hr), self.completion_date.to_value(hr));
        push_entry(
            &mut es,
            key_value(3, "scope-number", hr),
            Value::Integer(self.scope_number as i128),
        );
        push_opt_array_entry(&mut es, 4, "fw-identifiers", &self.fw_identifiers, hr);
        push_opt_array_entry(&mut es, 5, "issues", &self.issues, hr);
        append_extensions(&mut es, &self.extensions);
        assert(pairs_data(es@) =~= OcpSafeSfrMap::encoded_entries(self@, hr));
        proof {
            lemma_mapping_view(es);
        }
        Value::Mapping(es)
    }

    fn from_value(v: &Value, hr: bool) -> (r: Result<Self, Error>) {
        match peel_value(v, hr) {
            Value::Mapping(es) => {
                proof {
                    lemma_mapping_view(*es);
                }
                let mut builder = OcpSafeSfrMapBuilder::new();
                walk_entries(&mut builder, es, sfr_names(), hr)?;
                builder.build()
            },
            _ => Err(Error::Decode(DecodeError::ExpectedMap)),
        }
    }

    proof fn lemma_round_trip(m: OcpSafeSfrModel, hr: bool) {
        let names = OcpSafeSfrMapBuilder::field_names();
        reveal_strlit("review-framework-version");
        reveal_strlit("report-version");
        reveal_strlit("completion-date");
        reveal_strlit("scope-number");
        reveal_strlit("fw-identifiers");
        reveal_strlit("issues");
        assert(names[0].len() == 24 && names[1].len() == 14 && names[2].len() == 15);
        assert(names[3].len() == 12 && names[4].len() == 14 && names[5].len() == 6);
        assert(names[1][0] != names[4][0]);
        assert forall|i: int, j: int|
            0 <= i < names.len() && 0 <= j < names.len() && i != j implies names[i] != names[j] by {
            assert(i == 0 || i == 1 || i == 2 || i == 3 || i == 4 || i == 5);
            assert(j == 0 || j == 1 || j == 2 || j == 3 || j == 4 || j == 5);
        }
        assert(distinct(names));
        lemma_field_index_key(names, 0, hr);
        lemma_field_index_key(names, 1, hr);
        lemma_field_index_key(names, 2, hr);
        lemma_field_index_key(names, 3, hr);
        lemma_field_index_key(names, 4, hr);
        lemma_field_index_key(names, 5, hr);
        IntegerTime::lemma_round_trip(m.completion_date, hr);
        if let Some(fws) = m.fw_identifiers {
            lemma_array_round_trip::<FwIdentifier>(fws, hr);
        }
        if let Some(is) = m.issues {
            lemma_array_round_trip::<IssueEntry>(is, hr);
        }
        let d0 = Data::Text(m.review_framework_version);
        let d1 = Data::Text(m.report_version);
        let d2 = IntegerTime::encoded(m.completion_date, hr);
        let d3 = Data::Int(m.scope_number as int);
        let st0 = OcpSafeSfrBuilderModel::empty();
        let st1 = OcpSafeSfrBuilderModel { review_framework_version: Some(m.review_framework_version), ..st0 };
        let st2 = OcpSafeSfrBuilderModel { report_version: Some(m.report_version), ..st1 };
        let st3 = OcpSafeSfrBuilderModel { completion_date: Some(m.completion_date), ..st2 };
        let st4 = OcpSafeSfrBuilderModel { scope_number: Some(m.scope_number), ..st3 };
        let st5 = OcpSafeSfrBuilderModel { fw_identifiers: m.fw_identifiers, ..st4 };
        let st6 = OcpSafeSfrBuilderModel { issues: m.issues, ..st5 };
        let k0 = key_of(0, names[0], hr);
        let k1 = key_of(1, names[1], hr);
        let k2 = key_of(2, names[2], hr);
        let k3 = key_of(3, names[3], hr);
        let k4 = key_of(4, names[4], hr);
        let k5 = key_of(5, names[5], hr);
        let e0 = Seq::<(Data, Data)>::empty();
        let e1 = push_some(e0, k0, Some(d0));
        let e2 = push_some(e1, k1, Some(d1));
        let e3 = push_some(e2, k2, Some(d2));
        let e4 = push_some(e3, k3, Some(d3));
        let e5 = push_some(e4, k4, opt_encoded_array::<FwIdentifier>(m.fw_identifiers, hr));
        lemma_walked_step::<OcpSafeSfrMapBuilder>(st0, e0, st0, st1, k0, 0, Some(d0), hr);
        lemma_walked_step::<OcpSafeSfrMapBuilder>(st0, e1, st1, st2, k1, 1, Some(d1), hr);
        lemma_walked_step::<OcpSafeSfrMapBuilder>(st0, e2, st2, st3, k2, 2, Some(d2), hr);
        lemma_walked_step::<OcpSafeSfrMapBuilder>(st0, e3, st3, st4, k3, 3, Some(d3), hr);
        lemma_walked_step::<OcpSafeSfrMapBuilder>(
            st0,
            e4,
            st4,
            st5,
            k4,
            4,
            opt_encoded_array::<FwIdentifier>(m.fw_identifiers, hr),
            hr,
        );
        lemma_walked_step::<OcpSafeSfrMapBuilder>(
            st0,
            e5,
            st5,
            st6,
            k5,
            5,
            opt_encoded_array::<IssueEntry>(m.issues, hr),
            hr,
        );
        assert(e4 =~= seq![(k0, d0), (k1, d1), (k2, d2), (k3, d3)]);
    }
}

// ============================================================================
// Laws
// ============================================================================

/// Building an SFR map succeeds exactly when its four mandatory fields are set,
/// and the map holds what was set.
pub proof fn lemma_sfr_build(b: OcpSafeSfrBuilderModel)
    ensures
        b.built() is Ok <==> {
            &&& b.review_framework_version is Some
            &&& b.report_version is Some
            &&& b.completion_date is Some
            &&& b.scope_number is Some
        },
        b.built() matches Ok(m) ==> {
            &&& b.review_framework_version == Some(m.review_framework_version)
            &&& b.report_version == Some(m.report_version)
            &&& b.completion_date == Some(m.completion_date)
            &&& b.scope_number == Some(m.scope_number)
            &&& m.fw_identifiers == b.fw_identifiers
            &&& m.issues == b.issues
            &&& m.extensions == b.extensions
        },
        b.review_framework_version is None ==> b.built() == Err::<OcpSafeSfrModel, ErrorModel>(
            ErrorModel::OcpSafe(
                OcpSafeErrorModel::UnsetMandatoryField("OcpSafeSfrMap"@, "review-framework-version"@),
            ),
        ),
        b.review_framework_version is Some && b.report_version is None ==> b.built() == Err::<
            OcpSafeSfrModel,
            ErrorModel,
        >(
            ErrorModel::OcpSafe(
                OcpSafeErrorModel::UnsetMandatoryField("OcpSafeSfrMap"@, "report-version"@),
            ),
        ),
        b.review_framework_version is Some && b.report_version is Some && b.completion_date is None
            ==> b.built() == Err::<OcpSafeSfrModel, ErrorModel>(
            ErrorModel::OcpSafe(
                OcpSafeErrorModel::UnsetMandatoryField("OcpSafeSfrMap"@, "completion-date"@),
            ),
        ),
        b.review_framework_version is Some && b.report_version is Some && b.completion_date is Some
            && b.scope_number is None ==> b.built() == Err::<OcpSafeSfrModel, ErrorModel>(
            ErrorModel::OcpSafe(
                OcpSafeErrorModel::UnsetMandatoryField("OcpSafeSfrMap"@, "scope-number"@),
            ),
        ),
{
}

/// A firmware identifier that is read has at least one field set.
pub proof fn lemma_fw_identifier_never_empty(d: Data, hr: bool)
    ensures
        FwIdentifier::decoded(d, hr) matches Ok(m) ==> !m.no_fields(),
        FwIdentifier::decoded(d, hr) matches Ok(m) ==> (m.fw_version is Some || m.fw_file_digests is Some
            || m.repo_tag is Some || m.src_manifest is Some),
{
}

/// The map written for an SFR has its four mandatory entries, one for each
/// optional list that is set, and its extension entries.
pub proof fn lemma_sfr_entry_count(m: OcpSafeSfrModel, hr: bool)
    ensures
        OcpSafeSfrMap::encoded_entries(m, hr).len() == 4 + count_some(m.fw_identifiers)
            + count_some(m.issues) + count_extensions(m.extensions),
{
}

/// The map written for an issue has its three mandatory entries, one for each
/// optional identifier that is set, and its extension entries.
pub proof fn lemma_issue_entry_count(m: IssueEntryModel, hr: bool)
    ensures
        IssueEntry::encoded_entries(m, hr).len() == 3 + count_some(m.cwe) + count_some(m.cve)
            + count_extensions(m.extensions),
{
}

/// The map written for a CVSS score has its score and vector, and the version where set.
pub proof fn lemma_cvss_entry_count(m: CvssModel, hr: bool)
    ensures
        Cvss::encoded_entries(m, hr).len() == 2 + count_some(m.version),
{
}

/// The map written for a firmware identifier has one entry per field that is set.
pub proof fn lemma_fw_identifier_entry_count(m: FwIdentifierModel, hr: bool)
    ensures
        FwIdentifier::encoded_entries(m, hr).len() == count_some(m.fw_version) + count_some(
            m.fw_file_digests,
        ) + count_some(m.repo_tag) + count_some(m.src_manifest),
{
}

/// An SFR map with a key that names none of its fields is refused.
pub proof fn lemma_sfr_refuses_unknown_key(es: Seq<(Data, Data)>, i: int, hr: bool)
    requires
        0 <= i < es.len(),
        field_index(es[i].0, hr, OcpSafeSfrMapBuilder::field_names()) is Err,
    ensures
        OcpSafeSfrMap::decoded(Data::Mapping(es), hr) is Err,
{
    lemma_walked_refuses_unknown_key::<OcpSafeSfrMapBuilder>(
        OcpSafeSfrBuilderModel::empty(),
        es,
        i,
        hr,
    );
}

/// A CVSS map with a key that names none of its fields is refused.
pub proof fn lemma_cvss_refuses_unknown_key(es: Seq<(Data, Data)>, i: int, hr: bool)
    requires
        0 <= i < es.len(),
        field_index(es[i].0, hr, CvssFields::field_names()) is Err,
    ensures
        Cvss::decoded(Data::Mapping(es), hr) is Err,
{
    lemma_walked_refuses_unknown_key::<CvssFields>(Cvss::empty_fields(), es, i, hr);
}

/// An issue map with a key that names none of its fields is refused.
pub proof fn lemma_issue_refuses_unknown_key(es: Seq<(Data, Data)>, i: int, hr: bool)
    requires
        0 <= i < es.len(),
        field_index(es[i].0, hr, IssueEntryFields::field_names()) is Err,
    ensures
        IssueEntry::decoded(Data::Mapping(es), hr) is Err,
{
    lemma_walked_refuses_unknown_key::<IssueEntryFields>(IssueEntry::empty_fields(), es, i, hr);
}

/// A manifest entry map with a key that names none of its fields is refused.
pub proof fn lemma_manifest_entry_refuses_unknown_key(es: Seq<(Data, Data)>, i: int, hr: bool)
    requires
        0 <= i < es.len(),
        field_index(es[i].0, hr, ManifestEntryFields::field_names()) is Err,
    ensures
        ManifestEntry::decoded(Data::Mapping(es), hr) is Err,
{
    lemma_walked_refuses_unknown_key::<ManifestEntryFields>(
        ManifestEntry::empty_fields(),
        es,
        i,
        hr,
    );
}

/// A source manifest map with a key that names none of its fields is refused.
pub proof fn lemma_src_manifest_refuses_unknown_key(es: Seq<(Data, Data)>, i: int, hr: bool)
    requires
        0 <= i < es.len(),
        field_index(es[i].0, hr, SrcManifestFields::field_names()) is Err,
    ensures
        SrcManifest::decoded(Data::Mapping(es), hr) is Err,
{
    lemma_walked_refuses_unknown_key::<SrcManifestFields>(SrcManifest::empty_fields(), es, i, hr);
}

/// A firmware identifier map with a key that names none of its fields is refused.
pub proof fn lemma_fw_identifier_refuses_unknown_key(es: Seq<(Data, Data)>, i: int, hr: bool)
    requires
        0 <= i < es.len(),
        field_index(es[i].0, hr, FwIdentifier::field_names()) is Err,
    ensures
        FwIdentifier::decoded(Data::Mapping(es), hr) is Err,
{
    lemma_walked_refuses_unknown_key::<FwIdentifier>(FwIdentifierModel::empty(), es, i, hr);
}

/// Measurement values whose extension `-1` holds a written SFR map give that map back.
pub proof fn lemma_sfr_from_measurement_values(es: Seq<(Data, Data)>, m: OcpSafeSfrModel)
    requires
        lookup_int(es, SFR_EXTENSION_KEY as int) == Some(OcpSafeSfrMap::encoded(m, false)),
        OcpSafeSfrMap::round_trips(m, false),
    ensures
        OcpSafeSfrMap::from_extensions(Some(es)) == Ok::<OcpSafeSfrModel, ErrorModel>(m),
{
    OcpSafeSfrMap::lemma_round_trip(m, false);
}


/// An issue's CWE is written under key 3 in CBOR and under "cwe" in JSON, and
/// its CVE under key 4 and "cve".
pub proof fn lemma_issue_cwe_cve_keys(m: IssueEntryModel)
    ensures
        m.cwe matches Some(s) ==> IssueEntry::encoded(m, false)->Mapping_0.contains(
            (Data::Int(3), Data::Text(s)),
        ),
        m.cve matches Some(s) ==> IssueEntry::encoded(m, false)->Mapping_0.contains(
            (Data::Int(4), Data::Text(s)),
        ),
        m.cwe matches Some(s) ==> IssueEntry::encoded(m, true)->Mapping_0.contains(
            (Data::Text("cwe"@), Data::Text(s)),
        ),
        m.cve matches Some(s) ==> IssueEntry::encoded(m, true)->Mapping_0.contains(
            (Data::Text("cve"@), Data::Text(s)),
        ),
{
    let es = IssueEntry::encoded(m, false)->Mapping_0;
    let hs = IssueEntry::encoded(m, true)->Mapping_0;
    if let Some(s) = m.cwe {
        assert(es[3] == (Data::Int(3), Data::Text(s)));
        assert(hs[3] == (Data::Text("cwe"@), Data::Text(s)));
    }
    if let Some(s) = m.cve {
        let i: int = if m.cwe is Some { 4 } else { 3 };
        assert(es[i] == (Data::Int(4), Data::Text(s)));
        assert(hs[i] == (Data::Text("cve"@), Data::Text(s)));
    }
}

/// In CBOR, a map of a title, a description, an assessment and one more text
/// reads that text as the CWE when it stands under key 3 and as the CVE when it
/// stands under key 4.
pub proof fn lemma_issue_reads_cwe_and_cve(
    title: Seq<char>,
    description: Seq<char>,
    a: AssessmentModel,
    s: Seq<char>,
)
    ensures
        IssueEntry::decoded(
            Data::Mapping(
                seq![
                    (Data::Int(0), Data::Text(title)),
                    (Data::Int(1), Data::Text(description)),
                    (Data::Int(2), Assessment::encoded(a, false)),
                    (Data::Int(3), Data::Text(s)),
                ],
            ),
            false,
        ) == Ok::<IssueEntryModel, ErrorModel>(
            (IssueEntryModel {
                title,
                description,
                assessment: a,
                cwe: Some(s),
                cve: None,
                extensions: None,
            }),
        ),
        IssueEntry::decoded(
            Data::Mapping(
                seq![
                    (Data::Int(0), Data::Text(title)),
                    (Data::Int(1), Data::Text(description)),
                    (Data::Int(2), Assessment::encoded(a, false)),
                    (Data::Int(4), Data::Text(s)),
                ],
            ),
            false,
        ) == Ok::<IssueEntryModel, ErrorModel>(
            (IssueEntryModel {
                title,
                description,
                assessment: a,
                cwe: None,
                cve: Some(s),
                extensions: None,
            }),
        ),
{
    let m3 = IssueEntryModel {
        title,
        description,
        assessment: a,
        cwe: Some(s),
        cve: None,
        extensions: None,
    };
    let m4 = IssueEntryModel { cwe: None, cve: Some(s), ..m3 };
    IssueEntry::lemma_round_trip(m3, false);
    IssueEntry::lemma_round_trip(m4, false);
    assert(IssueEntry::encoded_entries(m3, false) =~= seq![
        (Data::Int(0), Data::Text(title)),
        (Data::Int(1), Data::Text(description)),
        (Data::Int(2), Assessment::encoded(a, false)),
        (Data::Int(3), Data::Text(s)),
    ]);
    assert(IssueEntry::encoded_entries(m4, false) =~= seq![
        (Data::Int(0), Data::Text(title)),
        (Data::Int(1), Data::Text(description)),
        (Data::Int(2), Assessment::encoded(a, false)),
        (Data::Int(4), Data::Text(s)),
    ]);
}

/// A firmware identifier with any one of its four fields set is read back as
/// written, in either layout.
pub proof fn lemma_fw_identifier_any_field_round_trips(m: FwIdentifierModel, hr: bool)
    requires
        m.fw_version is Some || m.fw_file_digests is Some || m.repo_tag is Some
            || m.src_manifest is Some,
    ensures
        FwIdentifier::decoded(FwIdentifier::encoded(m, hr), hr) == Ok::<FwIdentifierModel, ErrorModel>(
            m,
        ),
{
    FwIdentifier::lemma_round_trip(m, hr);
}

/// A map holding only file digests, under key 1 in CBOR or "fw-file-digests" in
/// JSON, is read as a firmware identifier given by those digests alone.
pub proof fn lemma_fw_identifier_digests_only(d: Data)
    ensures
        FwIdentifier::decoded(Data::Mapping(seq![(Data::Int(1), d)]), false) == Ok::<
            FwIdentifierModel,
            ErrorModel,
        >(
            (FwIdentifierModel {
                fw_version: None,
                fw_file_digests: Some(d),
                repo_tag: None,
                src_manifest: None,
            }),
        ),
        FwIdentifier::decoded(Data::Mapping(seq![(Data::Text("fw-file-digests"@), d)]), true)
            == Ok::<FwIdentifierModel, ErrorModel>(
            (FwIdentifierModel {
                fw_version: None,
                fw_file_digests: Some(d),
                repo_tag: None,
                src_manifest: None,
            }),
        ),
{
    let m = FwIdentifierModel {
        fw_version: None,
        fw_file_digests: Some(d),
        repo_tag: None,
        src_manifest: None,
    };
    FwIdentifier::lemma_round_trip(m, false);
    FwIdentifier::lemma_round_trip(m, true);
    assert(FwIdentifier::encoded_entries(m, false) =~= seq![(Data::Int(1), d)]);
    assert(FwIdentifier::encoded_entries(m, true) =~= seq![(Data::Text("fw-file-digests"@), d)]);
}


/// A CVSS map holds its score under key 0 ("cvss-score" in JSON), its vector under
/// key 1 ("cvss-vector") and its version, where set, under key 2 ("cvss-version").
pub proof fn lemma_cvss_layout(m: CvssModel)
    ensures
        has_entry(Cvss::encoded(m, false), Data::Int(0), Data::Text(m.score)),
        has_entry(Cvss::encoded(m, false), Data::Int(1), Data::Text(m.vector)),
        m.version matches Some(v) ==> has_entry(Cvss::encoded(m, false), Data::Int(2), Data::Text(v)),
        has_entry(Cvss::encoded(m, true), Data::Text("cvss-score"@), Data::Text(m.score)),
        has_entry(Cvss::encoded(m, true), Data::Text("cvss-vector"@), Data::Text(m.vector)),
        m.version matches Some(v) ==> has_entry(Cvss::encoded(m, true), Data::Text("cvss-version"@), Data::Text(v)),
{
    let l0_false = seq![(key_of(0, "cvss-score"@, false), Data::Text(m.score)), (key_of(1, "cvss-vector"@, false), Data::Text(m.vector))];
    assert(l0_false[0] == (key_of(0, "cvss-score"@, false), Data::Text(m.score)));
    assert(l0_false[1] == (key_of(1, "cvss-vector"@, false), Data::Text(m.vector)));
    let l1_false = push_some(l0_false, key_of(2, "cvss-version"@, false), opt_text(m.version));
    assert(Cvss::encoded_entries(m, false) == l1_false);
    lemma_push_some_contains(l0_false, key_of(2, "cvss-version"@, false), opt_text(m.version), (Data::Int(0), Data::Text(m.score)));
    lemma_push_some_contains(l0_false, key_of(2, "cvss-version"@, false), opt_text(m.version), (Data::Int(1), Data::Text(m.vector)));
    if let Some(v) = m.version {
        lemma_push_some_contains(l0_false, key_of(2, "cvss-version"@, false), opt_text(m.version), (Data::Int(2), Data::Text(v)));
    }
    let l0_true = seq![(key_of(0, "cvss-score"@, true), Data::Text(m.score)), (key_of(1, "cvss-vector"@, true), Data::Text(m.vector))];
    assert(l0_true[0] == (key_of(0, "cvss-score"@, true), Data::Text(m.score)));
    assert(l0_true[1] == (key_of(1, "cvss-vector"@, true), Data::Text(m.vector)));
    let l1_true = push_some(l0_true, key_of(2, "cvss-version"@, true), opt_text(m.version));
    assert(Cvss::encoded_entries(m, true) == l1_true);
    lemma_push_some_contains(l0_true, key_of(2, "cvss-version"@, true), opt_text(m.version), (Data::Text("cvss-score"@), Data::Text(m.score)));
    lemma_push_some_contains(l0_true, key_of(2, "cvss-version"@, true), opt_text(m.version), (Data::Text("cvss-vector"@), Data::Text(m.vector)));
    if let Some(v) = m.version {
        lemma_push_some_contains(l0_true, key_of(2, "cvss-version"@, true), opt_text(m.version), (Data::Text("cvss-version"@), Data::Text(v)));
    }
}

/// An issue map holds its title under key 0 ("title" in JSON), its description
/// under key 1 ("description") and its assessment under key 2 ("assessment").
pub proof fn lemma_issue_layout(m: IssueEntryModel)
    ensures
        has_entry(IssueEntry::encoded(m, false), Data::Int(0), Data::Text(m.title)),
        has_entry(IssueEntry::encoded(m, false), Data::Int(1), Data::Text(m.description)),
        has_entry(IssueEntry::encoded(m, false), Data::Int(2), Assessment::encoded(m.assessment, false)),
        has_entry(IssueEntry::encoded(m, true), Data::Text("title"@), Data::Text(m.title)),
        has_entry(IssueEntry::encoded(m, true), Data::Text("description"@), Data::Text(m.description)),
        has_entry(IssueEntry::encoded(m, true), Data::Text("assessment"@), Assessment::encoded(m.assessment, true)),
{
    let l0_false = seq![(key_of(0, "title"@, false), Data::Text(m.title)), (key_of(1, "description"@, false), Data::Text(m.description)), (key_of(2, "assessment"@, false), Assessment::encoded(m.assessment, false))];
    assert(l0_false[0] == (key_of(0, "title"@, false), Data::Text(m.title)));
    assert(l0_false[1] == (key_of(1, "description"@, false), Data::Text(m.description)));
    assert(l0_false[2] == (key_of(2, "assessment"@, false), Assessment::encoded(m.assessment, false)));
    let l1_false = push_some(l0_false, key_of(3, "cwe"@, false), opt_text(m.cwe));
    let l2_false = push_some(l1_false, key_of(4, "cve"@, false), opt_text(m.cve));
    assert(IssueEntry::encoded_entries(m, false) == with_extensions(l2_false, m.extensions));
    lemma_push_some_contains(l0_false, key_of(3, "cwe"@, false), opt_text(m.cwe), (Data::Int(0), Data::Text(m.title)));
    lemma_push_some_contains(l1_false, key_of(4, "cve"@, false), opt_text(m.cve), (Data::Int(0), Data::Text(m.title)));
    lemma_with_extensions_contains(l2_false, m.extensions, (Data::Int(0), Data::Text(m.title)));
    lemma_push_some_contains(l0_false, key_of(3, "cwe"@, false), opt_text(m.cwe), (Data::Int(1), Data::Text(m.description)));
    lemma_push_some_contains(l1_false, key_of(4, "cve"@, false), opt_text(m.cve), (Data::Int(1), Data::Text(m.description)));
    lemma_with_extensions_contains(l2_false, m.extensions, (Data::Int(1), Data::Text(m.description)));
    lemma_push_some_contains(l0_false, key_of(3, "cwe"@, false), opt_text(m.cwe), (Data::Int(2), Assessment::encoded(m.assessment, false)));
    lemma_push_some_contains(l1_false, key_of(4, "cve"@, false), opt_text(m.cve), (Data::Int(2), Assessment::encoded(m.assessment, false)));
    lemma_with_extensions_contains(l2_false, m.extensions, (Data::Int(2), Assessment::encoded(m.assessment, false)));
    let l0_true = seq![(key_of(0, "title"@, true), Data::Text(m.title)), (key_of(1, "description"@, true), Data::Text(m.description)), (key_of(2, "assessment"@, true), Assessment::encoded(m.assessment, true))];
    assert(l0_true[0] == (key_of(0, "title"@, true), Data::Text(m.title)));
    assert(l0_true[1] == (key_of(1, "description"@, true), Data::Text(m.description)));
    assert(l0_true[2] == (key_of(2, "assessment"@, true), Assessment::encoded(m.assessment, true)));
    let l1_true = push_some(l0_true, key_of(3, "cwe"@, true), opt_text(m.cwe));
    let l2_true = push_some(l1_true, key_of(4, "cve"@, true), opt_text(m.cve));
    assert(IssueEntry::encoded_entries(m, true) == with_extensions(l2_true, m.extensions));
    lemma_push_some_contains(l0_true, key_of(3, "cwe"@, true), opt_text(m.cwe), (Data::Text("title"@), Data::Text(m.title)));
    lemma_push_some_contains(l1_true, key_of(4, "cve"@, true), opt_text(m.cve), (Data::Text("title"@), Data::Text(m.title)));
    lemma_with_extensions_contains(l2_true, m.extensions, (Data::Text("title"@), Data::Text(m.title)));
    lemma_push_some_contains(l0_true, key_of(3, "cwe"@, true), opt_text(m.cwe), (Data::Text("description"@), Data::Text(m.description)));
    lemma_push_some_contains(l1_true, key_of(4, "cve"@, true), opt_text(m.cve), (Data::Text("description"@), Data::Text(m.description)));
    lemma_with_extensions_contains(l2_true, m.extensions, (Data::Text("description"@), Data::Text(m.description)));
    lemma_push_some_contains(l0_true, key_of(3, "cwe"@, true), opt_text(m.cwe), (Data::Text("assessment"@), Assessment::encoded(m.assessment, true)));
    lemma_push_some_contains(l1_true, key_of(4, "cve"@, true), opt_text(m.cve), (Data::Text("assessment"@), Assessment::encoded(m.assessment, true)));
    lemma_with_extensions_contains(l2_true, m.extensions, (Data::Text("assessment"@), Assessment::encoded(m.assessment, true)));
}

/// A manifest entry map holds its file name under key 0 ("filename" in JSON) and
/// its file hash under key 1 ("file-hash").
pub proof fn lemma_manifest_entry_layout(m: ManifestEntryModel)
    ensures
        has_entry(ManifestEntry::encoded(m, false), Data::Int(0), Data::Text(m.filename)),
        has_entry(ManifestEntry::encoded(m, false), Data::Int(1), m.file_hash),
        has_entry(ManifestEntry::encoded(m, true), Data::Text("filename"@), Data::Text(m.filename)),
        has_entry(ManifestEntry::encoded(m, true), Data::Text("file-hash"@), m.file_hash),
{
    let l0_false = seq![(key_of(0, "filename"@, false), Data::Text(m.filename)), (key_of(1, "file-hash"@, false), m.file_hash)];
    assert(l0_false[0] == (key_of(0, "filename"@, false), Data::Text(m.filename)));
    assert(l0_false[1] == (key_of(1, "file-hash"@, false), m.file_hash));
    assert(ManifestEntry::encoded_entries(m, false) == l0_false);
    let l0_true = seq![(key_of(0, "filename"@, true), Data::Text(m.filename)), (key_of(1, "file-hash"@, true), m.file_hash)];
    assert(l0_true[0] == (key_of(0, "filename"@, true), Data::Text(m.filename)));
    assert(l0_true[1] == (key_of(1, "file-hash"@, true), m.file_hash));
    assert(ManifestEntry::encoded_entries(m, true) == l0_true);
}

/// A source manifest map holds its digest under key 0 ("manifest-digest" in JSON)
/// and its entries, as an array, under key 1 ("manifest").
pub proof fn lemma_src_manifest_layout(m: SrcManifestModel)
    ensures
        has_entry(SrcManifest::encoded(m, false), Data::Int(0), m.manifest_digest),
        has_entry(SrcManifest::encoded(m, false), Data::Int(1), encoded_array::<ManifestEntry>(m.manifest, false)),
        has_entry(SrcManifest::encoded(m, true), Data::Text("manifest-digest"@), m.manifest_digest),
        has_entry(SrcManifest::encoded(m, true), Data::Text("manifest"@), encoded_array::<ManifestEntry>(m.manifest, true)),
{
    let l0_false = seq![(key_of(0, "manifest-digest"@, false), m.manifest_digest), (key_of(1, "manifest"@, false), encoded_array::<ManifestEntry>(m.manifest, false))];
    assert(l0_false[0] == (key_of(0, "manifest-digest"@, false), m.manifest_digest));
    assert(l0_false[1] == (key_of(1, "manifest"@, false), encoded_array::<ManifestEntry>(m.manifest, false)));
    assert(SrcManifest::encoded_entries(m, false) == l0_false);
    let l0_true = seq![(key_of(0, "manifest-digest"@, true), m.manifest_digest), (key_of(1, "manifest"@, true), encoded_array::<ManifestEntry>(m.manifest, true))];
    assert(l0_true[0] == (key_of(0, "manifest-digest"@, true), m.manifest_digest));
    assert(l0_true[1] == (key_of(1, "manifest"@, true), encoded_array::<ManifestEntry>(m.manifest, true)));
    assert(SrcManifest::encoded_entries(m, true) == l0_true);
}

/// A firmware identifier map holds each field that is set: the version under key 0
/// ("fw-version" in JSON), the file digests under key 1 ("fw-file-digests"), the
/// repository tag under key 2 ("repo-tag") and the source manifest under key 3
/// ("src-manifest").
pub proof fn lemma_fw_identifier_layout(m: FwIdentifierModel)
    ensures
        m.fw_version matches Some(v) ==> has_entry(FwIdentifier::encoded(m, false), Data::Int(0), VersionMap::encoded(v, false)),
        m.fw_file_digests matches Some(d) ==> has_entry(FwIdentifier::encoded(m, false), Data::Int(1), d),
        m.repo_tag matches Some(t) ==> has_entry(FwIdentifier::encoded(m, false), Data::Int(2), Data::Text(t)),
        m.src_manifest matches Some(s) ==> has_entry(FwIdentifier::encoded(m, false), Data::Int(3), SrcManifest::encoded(s, false)),
        m.fw_version matches Some(v) ==> has_entry(FwIdentifier::encoded(m, true), Data::Text("fw-version"@), VersionMap::encoded(v, true)),
        m.fw_file_digests matches Some(d) ==> has_entry(FwIdentifier::encoded(m, true), Data::Text("fw-file-digests"@), d),
        m.repo_tag matches Some(t) ==> has_entry(FwIdentifier::encoded(m, true), Data::Text("repo-tag"@), Data::Text(t)),
        m.src_manifest matches Some(s) ==> has_entry(FwIdentifier::encoded(m, true), Data::Text("src-manifest"@), SrcManifest::encoded(s, true)),
{
    let l0_false = Seq::<(Data, Data)>::empty();
    let l1_false = push_some(l0_false, key_of(0, "fw-version"@, false), opt_encoded::<VersionMap>(m.fw_version, false));
    let l2_false = push_some(l1_false, key_of(1, "fw-file-digests"@, false), m.fw_file_digests);
    let l3_false = push_some(l2_false, key_of(2, "repo-tag"@, false), opt_text(m.repo_tag));
    let l4_false = push_some(l3_false, key_of(3, "src-manifest"@, false), opt_encoded::<SrcManifest>(m.src_manifest, false));
    assert(FwIdentifier::encoded_entries(m, false) == l4_false);
    if let Some(v) = m.fw_version {
        lemma_push_some_contains(l0_false, key_of(0, "fw-version"@, false), opt_encoded::<VersionMap>(m.fw_version, false), (Data::Int(0), VersionMap::encoded(v, false)));
        lemma_push_some_contains(l1_false, key_of(1, "fw-file-digests"@, false), m.fw_file_digests, (Data::Int(0), VersionMap::encoded(v, false)));
        lemma_push_some_contains(l2_false, key_of(2, "repo-tag"@, false), opt_text(m.repo_tag), (Data::Int(0), VersionMap::encoded(v, false)));
        lemma_push_some_contains(l3_false, key_of(3, "src-manifest"@, false), opt_encoded::<SrcManifest>(m.src_manifest, false), (Data::Int(0), VersionMap::encoded(v, false)));
    }
    if let Some(d) = m.fw_file_digests {
        lemma_push_some_contains(l0_false, key_of(0, "fw-version"@, false), opt_encoded::<VersionMap>(m.fw_version, false), (Data::Int(1), d));
        lemma_push_some_contains(l1_false, key_of(1, "fw-file-digests"@, false), m.fw_file_digests, (Data::Int(1), d));
        lemma_push_some_contains(l2_false, key_of(2, "repo-tag"@, false), opt_text(m.repo_tag), (Data::Int(1), d));
        lemma_push_some_contains(l3_false, key_of(3, "src-manifest"@, false), opt_encoded::<SrcManifest>(m.src_manifest, false), (Data::Int(1), d));
    }
    if let Some(t) = m.repo_tag {
        lemma_push_some_contains(l0_false, key_of(0, "fw-version"@, false), opt_encoded::<VersionMap>(m.fw_version, false), (Data::Int(2), Data::Text(t)));
        lemma_push_some_contains(l1_false, key_of(1, "fw-file-digests"@, false), m.fw_file_digests, (Data::Int(2), Data::Text(t)));
        lemma_push_some_contains(l2_false, key_of(2, "repo-tag"@, false), opt_text(m.repo_tag), (Data::Int(2), Data::Text(t)));
        lemma_push_some_contains(l3_false, key_of(3, "src-manifest"@, false), opt_encoded::<SrcManifest>(m.src_manifest, false), (Data::Int(2), Data::Text(t)));
    }
    if let Some(s) = m.src_manifest {
        lemma_push_some_contains(l0_false, key_of(0, "fw-version"@, false), opt_encoded::<VersionMap>(m.fw_version, false), (Data::Int(3), SrcManifest::encoded(s, false)));
        lemma_push_some_contains(l1_false, key_of(1, "fw-file-digests"@, false), m.fw_file_digests, (Data::Int(3), SrcManifest::encoded(s, false)));
        lemma_push_some_contains(l2_false, key_of(2, "repo-tag"@, false), opt_text(m.repo_tag), (Data::Int(3), SrcManifest::encoded(s, false)));
        lemma_push_some_contains(l3_false, key_of(3, "src-manifest"@, false), opt_encoded::<SrcManifest>(m.src_manifest, false), (Data::Int(3), SrcManifest::encoded(s, false)));
    }
    let l0_true = Seq::<(Data, Data)>::empty();
    let l1_true = push_some(l0_true, key_of(0, "fw-version"@, true), opt_encoded::<VersionMap>(m.fw_version, true));
    let l2_true = push_some(l1_true, key_of(1, "fw-file-digests"@, true), m.fw_file_digests);
    let l3_true = push_some(l2_true, key_of(2, "repo-tag"@, true), opt_text(m.repo_tag));
    let l4_true = push_some(l3_true, key_of(3, "src-manifest"@, true), opt_encoded::<SrcManifest>(m.src_manifest, true));
    assert(FwIdentifier::encoded_entries(m, true) == l4_true);
    if let Some(v) = m.fw_version {
        lemma_push_some_contains(l0_true, key_of(0, "fw-version"@, true), opt_encoded::<VersionMap>(m.fw_version, true), (Data::Text("fw-version"@), VersionMap::encoded(v, true)));
        lemma_push_some_contains(l1_true, key_of(1, "fw-file-digests"@, true), m.fw_file_digests, (Data::Text("fw-version"@), VersionMap::encoded(v, true)));
        lemma_push_some_contains(l2_true, key_of(2, "repo-tag"@, true), opt_text(m.repo_tag), (Data::Text("fw-version"@), VersionMap::encoded(v, true)));
        lemma_push_some_contains(l3_true, key_of(3, "src-manifest"@, true), opt_encoded::<SrcManifest>(m.src_manifest, true), (Data::Text("fw-version"@), VersionMap::encoded(v, true)));
    }
    if let Some(d) = m.fw_file_digests {
        lemma_push_some_contains(l0_true, key_of(0, "fw-version"@, true), opt_encoded::<VersionMap>(m.fw_version, true), (Data::Text("fw-file-digests"@), d));
        lemma_push_some_contains(l1_true, key_of(1, "fw-file-digests"@, true), m.fw_file_digests, (Data::Text("fw-file-digests"@), d));
        lemma_push_some_contains(l2_true, key_of(2, "repo-tag"@, true), opt_text(m.repo_tag), (Data::Text("fw-file-digests"@), d));
        lemma_push_some_contains(l3_true, key_of(3, "src-manifest"@, true), opt_encoded::<SrcManifest>(m.src_manifest, true), (Data::Text("fw-file-digests"@), d));
    }
    if let Some(t) = m.repo_tag {
        lemma_push_some_contains(l0_true, key_of(0, "fw-version"@, true), opt_encoded::<VersionMap>(m.fw_version, true), (Data::Text("repo-tag"@), Data::Text(t)));
        lemma_push_some_contains(l1_true, key_of(1, "fw-file-digests"@, true), m.fw_file_digests, (Data::Text("repo-tag"@), Data::Text(t)));
        lemma_push_some_contains(l2_true, key_of(2, "repo-tag"@, true), opt_text(m.repo_tag), (Data::Text("repo-tag"@), Data::Text(t)));
        lemma_push_some_contains(l3_true, key_of(3, "src-manifest"@, true), opt_encoded::<SrcManifest>(m.src_manifest, true), (Data::Text("repo-tag"@), Data::Text(t)));
    }
    if let Some(s) = m.src_manifest {
        lemma_push_some_contains(l0_true, key_of(0, "fw-version"@, true), opt_encoded::<VersionMap>(m.fw_version, true), (Data::Text("src-manifest"@), SrcManifest::encoded(s, true)));
        lemma_push_some_contains(l1_true, key_of(1, "fw-file-digests"@, true), m.fw_file_digests, (Data::Text("src-manifest"@), SrcManifest::encoded(s, true)));
        lemma_push_some_contains(l2_true, key_of(2, "repo-tag"@, true), opt_text(m.repo_tag), (Data::Text("src-manifest"@), SrcManifest::encoded(s, true)));
        lemma_push_some_contains(l3_true, key_of(3, "src-manifest"@, true), opt_encoded::<SrcManifest>(m.src_manifest, true), (Data::Text("src-manifest"@), SrcManifest::encoded(s, true)));
    }
}

/// An SFR map holds the framework version under key 0 ("review-framework-version"
/// in JSON), the report version under key 1 ("report-version"), the completion date
/// under key 2 ("completion-date"), the scope number under key 3 ("scope-number"),
/// and, where set, the firmware identifiers under key 4 ("fw-identifiers") and the
/// issues under key 5 ("issues").
pub proof fn lemma_sfr_layout(m: OcpSafeSfrModel)
    ensures
        has_entry(OcpSafeSfrMap::encoded(m, false), Data::Int(0), Data::Text(m.review_framework_version)),
        has_entry(OcpSafeSfrMap::encoded(m, false), Data::Int(1), Data::Text(m.report_version)),
        has_entry(OcpSafeSfrMap::encoded(m, false), Data::Int(2), IntegerTime::encoded(m.completion_date, false)),
        has_entry(OcpSafeSfrMap::encoded(m, false), Data::Int(3), Data::Int(m.scope_number as int)),
        m.fw_identifiers matches Some(fs) ==> has_entry(OcpSafeSfrMap::encoded(m, false), Data::Int(4), encoded_array::<FwIdentifier>(fs, false)),
        m.issues matches Some(is) ==> has_entry(OcpSafeSfrMap::encoded(m, false), Data::Int(5), encoded_array::<IssueEntry>(is, false)),
        has_entry(OcpSafeSfrMap::encoded(m, true), Data::Text("review-framework-version"@), Data::Text(m.review_framework_version)),
        has_entry(OcpSafeSfrMap::encoded(m, true), Data::Text("report-version"@), Data::Text(m.report_version)),
        has_entry(OcpSafeSfrMap::encoded(m, true), Data::Text("completion-date"@), IntegerTime::encoded(m.completion_date, true)),
        has_entry(OcpSafeSfrMap::encoded(m, true), Data::Text("scope-number"@), Data::Int(m.scope_number as int)),
        m.fw_identifiers matches Some(fs) ==> has_entry(OcpSafeSfrMap::encoded(m, true), Data::Text("fw-identifiers"@), encoded_array::<FwIdentifier>(fs, true)),
        m.issues matches Some(is) ==> has_entry(OcpSafeSfrMap::encoded(m, true), Data::Text("issues"@), encoded_array::<IssueEntry>(is, true)),
{
    let l0_false = seq![(key_of(0, "review-framework-version"@, false), Data::Text(m.review_framework_version)), (key_of(1, "report-version"@, false), Data::Text(m.report_version)), (key_of(2, "completion-date"@, false), IntegerTime::encoded(m.completion_date, false)), (key_of(3, "scope-number"@, false), Data::Int(m.scope_number as int))];
    assert(l0_false[0] == (key_of(0, "review-framework-version"@, false), Data::Text(m.review_framework_version)));
    assert(l0_false[1] == (key_of(1, "report-version"@, false), Data::Text(m.report_version)));
    assert(l0_false[2] == (key_of(2, "completion-date"@, false), IntegerTime::encoded(m.completion_date, false)));
    assert(l0_false[3] == (key_of(3, "scope-number"@, false), Data::Int(m.scope_number as int)));
    let l1_false = push_some(l0_false, key_of(4, "fw-identifiers"@, false), opt_encoded_array::<FwIdentifier>(m.fw_identifiers, false));
    let l2_false = push_some(l1_false, key_of(5, "issues"@, false), opt_encoded_array::<IssueEntry>(m.issues, false));
    assert(OcpSafeSfrMap::encoded_entries(m, false) == with_extensions(l2_false, m.extensions));
    lemma_push_some_contains(l0_false, key_of(4, "fw-identifiers"@, false), opt_encoded_array::<FwIdentifier>(m.fw_identifiers, false), (Data::Int(0), Data::Text(m.review_framework_version)));
    lemma_push_some_contains(l1_false, key_of(5, "issues"@, false), opt_encoded_array::<IssueEntry>(m.issues, false), (Data::Int(0), Data::Text(m.review_framework_version)));
    lemma_with_extensions_contains(l2_false, m.extensions, (Data::Int(0), Data::Text(m.review_framework_version)));
    lemma_push_some_contains(l0_false, key_of(4, "fw-identifiers"@, false), opt_encoded_array::<FwIdentifier>(m.fw_identifiers, false), (Data::Int(1), Data::Text(m.report_version)));
    lemma_push_some_contains(l1_false, key_of(5, "issues"@, false), opt_encoded_array::<IssueEntry>(m.issues, false), (Data::Int(1), Data::Text(m.report_version)));
    lemma_with_extensions_contains(l2_false, m.extensions, (Data::Int(1), Data::Text(m.report_version)));
    lemma_push_some_contains(l0_false, key_of(4, "fw-identifiers"@, false), opt_encoded_array::<FwIdentifier>(m.fw_identifiers, false), (Data::Int(2), IntegerTime::encoded(m.completion_date, false)));
    lemma_push_some_contains(l1_false, key_of(5, "issues"@, false), opt_encoded_array::<IssueEntry>(m.issues, false), (Data::Int(2), IntegerTime::encoded(m.completion_date, false)));
    lemma_with_extensions_contains(l2_false, m.extensions, (Data::Int(2), IntegerTime::encoded(m.completion_date, false)));
    lemma_push_some_contains(l0_false, key_of(4, "fw-identifiers"@, false), opt_encoded_array::<FwIdentifier>(m.fw_identifiers, false), (Data::Int(3), Data::Int(m.scope_number as int)));
    lemma_push_some_contains(l1_false, key_of(5, "issues"@, false), opt_encoded_array::<IssueEntry>(m.issues, false), (Data::Int(3), Data::Int(m.scope_number as int)));
    lemma_with_extensions_contains(l2_false, m.extensions, (Data::Int(3), Data::Int(m.scope_number as int)));
    if let Some(fs) = m.fw_identifiers {
        lemma_push_some_contains(l0_false, key_of(4, "fw-identifiers"@, false), opt_encoded_array::<FwIdentifier>(m.fw_identifiers, false), (Data::Int(4), encoded_array::<FwIdentifier>(fs, false)));
        lemma_push_some_contains(l1_false, key_of(5, "issues"@, false), opt_encoded_array::<IssueEntry>(m.issues, false), (Data::Int(4), encoded_array::<FwIdentifier>(fs, false)));
        lemma_with_extensions_contains(l2_false, m.extensions, (Data::Int(4), encoded_array::<FwIdentifier>(fs, false)));
    }
    if let Some(is) = m.issues {
        lemma_push_some_contains(l0_false, key_of(4, "fw-identifiers"@, false), opt_encoded_array::<FwIdentifier>(m.fw_identifiers, false), (Data::Int(5), encoded_array::<IssueEntry>(is, false)));
        lemma_push_some_contains(l1_false, key_of(5, "issues"@, false), opt_encoded_array::<IssueEntry>(m.issues, false), (Data::Int(5), encoded_array::<IssueEntry>(is, false)));
        lemma_with_extensions_contains(l2_false, m.extensions, (Data::Int(5), encoded_array::<IssueEntry>(is, false)));
    }
    let l0_true = seq![(key_of(0, "review-framework-version"@, true), Data::Text(m.review_framework_version)), (key_of(1, "report-version"@, true), Data::Text(m.report_version)), (key_of(2, "completion-date"@, true), IntegerTime::encoded(m.completion_date, true)), (key_of(3, "scope-number"@, true), Data::Int(m.scope_number as int))];
    assert(l0_true[0] == (key_of(0, "review-framework-version"@, true), Data::Text(m.review_framework_version)));
    assert(l0_true[1] == (key_of(1, "report-version"@, true), Data::Text(m.report_version)));
    assert(l0_true[2] == (key_of(2, "completion-date"@, true), IntegerTime::encoded(m.completion_date, true)));
    assert(l0_true[3] == (key_of(3, "scope-number"@, true), Data::Int(m.scope_number as int)));
    let l1_true = push_some(l0_true, key_of(4, "fw-identifiers"@, true), opt_encoded_array::<FwIdentifier>(m.fw_identifiers, true));
    let l2_true = push_some(l1_true, key_of(5, "issues"@, true), opt_encoded_array::<IssueEntry>(m.issues, true));
    assert(OcpSafeSfrMap::encoded_entries(m, true) == with_extensions(l2_true, m.extensions));
    lemma_push_some_contains(l0_true, key_of(4, "fw-identifiers"@, true), opt_encoded_array::<FwIdentifier>(m.fw_identifiers, true), (Data::Text("review-framework-version"@), Data::Text(m.review_framework_version)));
    lemma_push_some_contains(l1_true, key_of(5, "issues"@, true), opt_encoded_array::<IssueEntry>(m.issues, true), (Data::Text("review-framework-version"@), Data::Text(m.review_framework_version)));
    lemma_with_extensions_contains(l2_true, m.extensions, (Data::Text("review-framework-version"@), Data::Text(m.review_framework_version)));
    lemma_push_some_contains(l0_true, key_of(4, "fw-identifiers"@, true), opt_encoded_array::<FwIdentifier>(m.fw_identifiers, true), (Data::Text("report-version"@), Data::Text(m.report_version)));
    lemma_push_some_contains(l1_true, key_of(5, "issues"@, true), opt_encoded_array::<IssueEntry>(m.issues, true), (Data::Text("report-version"@), Data::Text(m.report_version)));
    lemma_with_extensions_contains(l2_true, m.extensions, (Data::Text("report-version"@), Data::Text(m.report_version)));
    lemma_push_some_contains(l0_true, key_of(4, "fw-identifiers"@, true), opt_encoded_array::<FwIdentifier>(m.fw_identifiers, true), (Data::Text("completion-date"@), IntegerTime::encoded(m.completion_date, true)));
    lemma_push_some_contains(l1_true, key_of(5, "issues"@, true), opt_encoded_array::<IssueEntry>(m.issues, true), (Data::Text("completion-date"@), IntegerTime::encoded(m.completion_date, true)));
    lemma_with_extensions_contains(l2_true, m.extensions, (Data::Text("completion-date"@), IntegerTime::encoded(m.completion_date, true)));
    lemma_push_some_contains(l0_true, key_of(4, "fw-identifiers"@, true), opt_encoded_array::<FwIdentifier>(m.fw_identifiers, true), (Data::Text("scope-number"@), Data::Int(m.scope_number as int)));
    lemma_push_some_contains(l1_true, key_of(5, "issues"@, true), opt_encoded_array::<IssueEntry>(m.issues, true), (Data::Text("scope-number"@), Data::Int(m.scope_number as int)));
    lemma_with_extensions_contains(l2_true, m.extensions, (Data::Text("scope-number"@), Data::Int(m.scope_number as int)));
    if let Some(fs) = m.fw_identifiers {
        lemma_push_some_contains(l0_true, key_of(4, "fw-identifiers"@, true), opt_encoded_array::<FwIdentifier>(m.fw_identifiers, true), (Data::Text("fw-identifiers"@), encoded_array::<FwIdentifier>(fs, true)));
        lemma_push_some_contains(l1_true, key_of(5, "issues"@, true), opt_encoded_array::<IssueEntry>(m.issues, true), (Data::Text("fw-identifiers"@), encoded_array::<FwIdentifier>(fs, true)));
        lemma_with_extensions_contains(l2_true, m.extensions, (Data::Text("fw-identifiers"@), encoded_array::<FwIdentifier>(fs, true)));
    }
    if let Some(is) = m.issues {
        lemma_push_some_contains(l0_true, key_of(4, "fw-identifiers"@, true), opt_encoded_array::<FwIdentifier>(m.fw_identifiers, true), (Data::Text("issues"@), encoded_array::<IssueEntry>(is, true)));
        lemma_push_some_contains(l1_true, key_of(5, "issues"@, true), opt_encoded_array::<IssueEntry>(m.issues, true), (Data::Text("issues"@), encoded_array::<IssueEntry>(is, true)));
        lemma_with_extensions_contains(l2_true, m.extensions, (Data::Text("issues"@), encoded_array::<IssueEntry>(is, true)));
    }
}


proof fn lemma_lookup_absent(es: Seq<(Data, Data)>, key: int)
    requires
        forall|i: int| 0 <= i < es.len() ==> es[i].0 != Data::Int(key),
    ensures
        lookup_int(es, key) == None::<Data>,
    decreases es.len(),
{
    if es.len() > 0 {
        lemma_lookup_absent(es.drop_last(), key);
    }
}

/// The SFR is read from the extension entry under key -1: after any entries under
/// other keys, a written SFR map there is given back; where no entry has key -1,
/// or there are no extensions, the SFR extension is reported missing.
pub proof fn lemma_sfr_extension_key(others: Seq<(Data, Data)>, m: OcpSafeSfrModel)
    requires
        forall|i: int| 0 <= i < others.len() ==> others[i].0 != Data::Int(-1),
        OcpSafeSfrMap::round_trips(m, false),
    ensures
        OcpSafeSfrMap::from_extensions(
            Some(others.push((Data::Int(-1), OcpSafeSfrMap::encoded(m, false)))),
        ) == Ok::<OcpSafeSfrModel, ErrorModel>(m),
        OcpSafeSfrMap::from_extensions(Some(others)) == Err::<OcpSafeSfrModel, ErrorModel>(
            ErrorModel::OcpSafe(OcpSafeErrorModel::MissingSfrExtension),
        ),
        OcpSafeSfrMap::from_extensions(None) == Err::<OcpSafeSfrModel, ErrorModel>(
            ErrorModel::OcpSafe(OcpSafeErrorModel::MissingSfrExtension),
        ),
{
    lemma_lookup_absent(others, -1);
    let es = others.push((Data::Int(-1), OcpSafeSfrMap::encoded(m, false)));
    assert(es.drop_last() =~= others);
    OcpSafeSfrMap::lemma_round_trip(m, false);
}

} // verus!
