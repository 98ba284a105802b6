//! The data model that every type of the library is written to and read from:
//! the values that CBOR and JSON share (integers, byte and text strings,
//! booleans, null, tags, arrays and maps), and the rules by which the library's
//! map-shaped types are laid out in it.
use vstd::prelude::*;
use vstd::string::*;

use crate::error::{outcome, DecodeError, DecodeErrorModel, Error, ErrorModel};

verus! {

/// A value of the CBOR/JSON data model.
///
/// A map is kept as its list of entries in order, duplicates included.
#[derive(Debug, PartialEq, Eq, PartialOrd, Ord)]
pub enum Value {
    Integer(i128),
    Bytes(Vec<u8>),
    Text(String),
    Bool(bool),
    Null,
    Tag(u64, Box<Value>),
    Array(Vec<Value>),
    Mapping(Vec<(Value, Value)>),
}

/// The mathematical content of a [`Value`].
pub enum Data {
    Int(int),
    Bytes(Seq<u8>),
    Text(Seq<char>),
    Bool(bool),
    Null,
    Tag(int, Box<Data>),
    Array(Seq<Data>),
    Mapping(Seq<(Data, Data)>),
}

impl View for Value {
    type V = Data;

    open spec fn view(&self) -> Data {
        value_data(*self)
    }
}

/// The data of a value.
pub open spec fn value_data(v: Value) -> Data
    decreases v,
{
    match v {
        Value::Integer(i) => Data::Int(i as int),
        Value::Bytes(b) => Data::Bytes(b@),
        Value::Text(s) => Data::Text(s@),
        Value::Bool(b) => Data::Bool(b),
        Value::Null => Data::Null,
        Value::Tag(t, inner) => Data::Tag(t as int, Box::new(value_data(*inner))),
        Value::Array(vs) => Data::Array(
            Seq::new(
                vs@.len(),
                |i: int|
                    if 0 <= i < vs@.len() {
                        value_data(vs@[i])
                    } else {
                        Data::Null
                    },
            ),
        ),
        Value::Mapping(es) => Data::Mapping(
            Seq::new(
                es@.len(),
                |i: int|
                    if 0 <= i < es@.len() {
                        (value_data(es@[i].0), value_data(es@[i].1))
                    } else {
                        (Data::Null, Data::Null)
                    },
            ),
        ),
    }
}

/// The data of a list of values, element by element.
pub open spec fn items_data(vs: Seq<Value>) -> Seq<Data> {
    Seq::new(vs.len(), |i: int| vs[i]@)
}

/// The data of a list of map entries, entry by entry.
pub open spec fn pairs_data(es: Seq<(Value, Value)>) -> Seq<(Data, Data)> {
    Seq::new(es.len(), |i: int| (es[i].0@, es[i].1@))
}

/// The data of an array value is the data of its items.
pub proof fn lemma_array_view(vs: Vec<Value>)
    ensures
        Value::Array(vs)@ == Data::Array(items_data(vs@)),
{
    match Value::Array(vs)@ {
        Data::Array(d) => {
            assert(d =~= items_data(vs@));
        },
        _ => {},
    }
}

/// The data of a map value is the data of its entries.
pub proof fn lemma_mapping_view(es: Vec<(Value, Value)>)
    ensures
        Value::Mapping(es)@ == Data::Mapping(pairs_data(es@)),
{
    let d = value_data(Value::Mapping(es))->Mapping_0;
    assert forall|i: int| 0 <= i < es@.len() implies d[i] == pairs_data(es@)[i] by {}
    assert(d =~= pairs_data(es@));
}

/// Pushing a value onto a list pushes its data onto the list's data.
pub proof fn lemma_items_push(vs: Seq<Value>, v: Value)
    ensures
        items_data(vs.push(v)) == items_data(vs).push(v@),
{
    assert(items_data(vs.push(v)) =~= items_data(vs).push(v@));
}

/// Pushing an entry onto a list of entries pushes its data onto the list's data.
pub proof fn lemma_pairs_push(es: Seq<(Value, Value)>, e: (Value, Value))
    ensures
        pairs_data(es.push(e)) == pairs_data(es).push((e.0@, e.1@)),
{
    assert(pairs_data(es.push(e)) =~= pairs_data(es).push((e.0@, e.1@)));
}

proof fn lemma_byte_items_prefix(ds: Seq<Data>, n: int)
    requires
        0 <= n <= ds.len(),
        decoded_byte_items(ds.take(n)) is Err,
    ensures
        decoded_byte_items(ds) == decoded_byte_items(ds.take(n)),
    decreases ds.len() - n,
{
    if n < ds.len() {
        assert(ds.take(n + 1).drop_last() =~= ds.take(n));
        lemma_byte_items_prefix(ds, n + 1);
    } else {
        assert(ds.take(n) =~= ds);
    }
}

proof fn lemma_items_prefix<T: Codec>(ds: Seq<Data>, n: int, hr: bool)
    requires
        0 <= n <= ds.len(),
        decoded_items::<T>(ds.take(n), hr) is Err,
    ensures
        decoded_items::<T>(ds, hr) == decoded_items::<T>(ds.take(n), hr),
    decreases ds.len() - n,
{
    if n < ds.len() {
        assert(ds.take(n + 1).drop_last() =~= ds.take(n));
        lemma_items_prefix::<T>(ds, n + 1, hr);
    } else {
        assert(ds.take(n) =~= ds);
    }
}

proof fn lemma_walked_prefix<S: FieldSink>(st: S::V, es: Seq<(Data, Data)>, n: int, hr: bool)
    requires
        0 <= n <= es.len(),
        walked::<S>(st, es.take(n), hr) is Err,
    ensures
        walked::<S>(st, es, hr) == walked::<S>(st, es.take(n), hr),
    decreases es.len() - n,
{
    if n < es.len() {
        assert(es.take(n + 1).drop_last() =~= es.take(n));
        lemma_walked_prefix::<S>(st, es, n + 1, hr);
    } else {
        assert(es.take(n) =~= es);
    }
}

/// Strips the tags around a value where the reader ignores them: a CBOR
/// reader skips the tags in front of the item it expects; a JSON reader has none.
pub open spec fn peel(d: Data, hr: bool) -> Data
    decreases d,
{
    if hr {
        d
    } else {
        match d {
            Data::Tag(_, inner) => peel(*inner, hr),
            _ => d,
        }
    }
}

/// The key under which the field at `index`, named `name`, is written: its
/// name in human-readable form, its number in CBOR.
pub open spec fn key_of(index: int, name: Seq<char>, hr: bool) -> Data {
    if hr {
        Data::Text(name)
    } else {
        Data::Int(index)
    }
}

/// The first position of `s` in `names`.
pub open spec fn position_of(names: Seq<Seq<char>>, s: Seq<char>) -> Option<int>
    decreases names.len(),
{
    if names.len() == 0 {
        None
    } else {
        match position_of(names.drop_last(), s) {
            Some(j) => Some(j),
            None => if names.last() == s {
                Some(names.len() - 1)
            } else {
                None
            },
        }
    }
}

pub open spec fn decode_error(e: DecodeErrorModel) -> ErrorModel {
    ErrorModel::Decode(e)
}

pub open spec fn in_i64(i: int) -> bool {
    i64::MIN <= i <= i64::MAX
}

/// The field that a map key selects among `names`: by name in human-readable
/// form, by number in CBOR; a key that selects none is an error.
pub open spec fn field_index(k: Data, hr: bool, names: Seq<Seq<char>>) -> Result<int, ErrorModel> {
    if hr {
        match k {
            Data::Text(s) => match position_of(names, s) {
                Some(i) => Ok(i),
                None => Err(decode_error(DecodeErrorModel::UnexpectedField(s))),
            },
            _ => Err(decode_error(DecodeErrorModel::ExpectedText)),
        }
    } else {
        match peel(k, hr) {
            Data::Int(i) => if !in_i64(i) {
                Err(decode_error(DecodeErrorModel::IntegerOutOfRange))
            } else if 0 <= i < names.len() {
                Ok(i)
            } else {
                Err(decode_error(DecodeErrorModel::UnexpectedKey(i as i64)))
            },
            _ => Err(decode_error(DecodeErrorModel::ExpectedInteger)),
        }
    }
}

/// A text field's content.
pub open spec fn decoded_text(d: Data, hr: bool) -> Result<Seq<char>, ErrorModel> {
    match peel(d, hr) {
        Data::Text(s) => Ok(s),
        _ => Err(decode_error(DecodeErrorModel::ExpectedText)),
    }
}

/// A 64-bit signed integer field's content.
pub open spec fn decoded_i64(d: Data, hr: bool) -> Result<i64, ErrorModel> {
    match peel(d, hr) {
        Data::Int(i) => if in_i64(i) {
            Ok(i as i64)
        } else {
            Err(decode_error(DecodeErrorModel::IntegerOutOfRange))
        },
        _ => Err(decode_error(DecodeErrorModel::ExpectedInteger)),
    }
}

/// How a byte string is written: as such in CBOR, as an array of its bytes in
/// human-readable form (as serde_json writes and reads a byte vector).
pub open spec fn encoded_bytes(b: Seq<u8>, hr: bool) -> Data {
    if hr {
        Data::Array(b.map_values(|x: u8| Data::Int(x as int)))
    } else {
        Data::Bytes(b)
    }
}

/// The bytes that an array of small integers spells.
pub open spec fn decoded_byte_items(ds: Seq<Data>) -> Result<Seq<u8>, ErrorModel>
    decreases ds.len(),
{
    if ds.len() == 0 {
        Ok(Seq::empty())
    } else {
        match decoded_byte_items(ds.drop_last()) {
            Err(e) => Err(e),
            Ok(bs) => match ds.last() {
                Data::Int(i) => if 0 <= i <= 255 {
                    Ok(bs.push(i as u8))
                } else {
                    Err(decode_error(DecodeErrorModel::IntegerOutOfRange))
                },
                _ => Err(decode_error(DecodeErrorModel::ExpectedInteger)),
            },
        }
    }
}

/// A byte-string field's content.
pub open spec fn decoded_bytes(d: Data, hr: bool) -> Result<Seq<u8>, ErrorModel> {
    if hr {
        match d {
            Data::Array(ds) => decoded_byte_items(ds),
            _ => Err(decode_error(DecodeErrorModel::ExpectedArray)),
        }
    } else {
        match peel(d, hr) {
            Data::Bytes(b) => Ok(b),
            _ => Err(decode_error(DecodeErrorModel::ExpectedBytes)),
        }
    }
}

/// A type that is written to and read from the data model.
pub trait Codec: View + Sized {
    /// The data that a value with content `m` is written as.
    spec fn encoded(m: Self::V, hr: bool) -> Data;

    /// What reading `d` gives.
    spec fn decoded(d: Data, hr: bool) -> Result<Self::V, ErrorModel>;

    /// The values that reading gives back after writing.
    spec fn round_trips(m: Self::V, hr: bool) -> bool;

    /// Writes the value; `hr` selects the human-readable (JSON) layout.
    fn to_value(&self, hr: bool) -> (v: Value)
        ensures
            v@ == Self::encoded(self@, hr),
    ;

    /// Reads a value; `hr` selects the human-readable (JSON) layout.
    fn from_value(v: &Value, hr: bool) -> (r: Result<Self, Error>)
        ensures
            outcome(r) == Self::decoded(v@, hr),
    ;

    /// Reading what was written gives the value back.
    proof fn lemma_round_trip(m: Self::V, hr: bool)
        requires
            Self::round_trips(m, hr),
        ensures
            Self::decoded(Self::encoded(m, hr), hr) == Ok::<Self::V, ErrorModel>(m),
    ;
}

/// The contents of a list of values.
pub open spec fn models<T: View>(xs: Seq<T>) -> Seq<T::V> {
    xs.map_values(|x: T| x@)
}

pub open spec fn encoded_items<T: Codec>(ms: Seq<T::V>, hr: bool) -> Seq<Data> {
    ms.map_values(|m: T::V| T::encoded(m, hr))
}

pub open spec fn decoded_items<T: Codec>(ds: Seq<Data>, hr: bool) -> Result<Seq<T::V>, ErrorModel>
    decreases ds.len(),
{
    if ds.len() == 0 {
        Ok(Seq::empty())
    } else {
        match decoded_items::<T>(ds.drop_last(), hr) {
            Err(e) => Err(e),
            Ok(ms) => match T::decoded(ds.last(), hr) {
                Err(e) => Err(e),
                Ok(m) => Ok(ms.push(m)),
            },
        }
    }
}

/// The data an array of values of `T` is written as.
pub open spec fn encoded_array<T: Codec>(ms: Seq<T::V>, hr: bool) -> Data {
    Data::Array(encoded_items::<T>(ms, hr))
}

/// What reading `d` as an array of values of `T` gives.
pub open spec fn decoded_array<T: Codec>(d: Data, hr: bool) -> Result<Seq<T::V>, ErrorModel> {
    match peel(d, hr) {
        Data::Array(ds) => decoded_items::<T>(ds, hr),
        _ => Err(decode_error(DecodeErrorModel::ExpectedArray)),
    }
}

pub open spec fn all_round_trip<T: Codec>(ms: Seq<T::V>, hr: bool) -> bool {
    forall|i: int| 0 <= i < ms.len() ==> T::round_trips(#[trigger] ms[i], hr)
}

/// The state that feeding the map entries `es`, in order, into a sink in state `st` leads to.
pub open spec fn walked<S: FieldSink>(st: S::V, es: Seq<(Data, Data)>, hr: bool) -> Result<
    S::V,
    ErrorModel,
>
    decreases es.len(),
{
    if es.len() == 0 {
        Ok(st)
    } else {
        match walked::<S>(st, es.drop_last(), hr) {
            Err(e) => Err(e),
            Ok(b) => match field_index(es.last().0, hr, S::field_names()) {
                Err(e) => Err(e),
                Ok(i) => S::accepted(b, i, es.last().1, hr),
            },
        }
    }
}

/// A partly read map-shaped value, which takes the map's entries one by one.
pub trait FieldSink: View + Sized {
    /// The names of the fields, in the order of their numbers.
    spec fn field_names() -> Seq<Seq<char>>;

    /// The state after taking `d` as the field at `index`.
    spec fn accepted(st: Self::V, index: int, d: Data, hr: bool) -> Result<Self::V, ErrorModel>;

    /// Takes `v` as the field at `index`.
    fn accept(&mut self, index: usize, v: &Value, hr: bool) -> (r: Result<(), Error>)
        requires
            index < Self::field_names().len(),
        ensures
            match r {
                Ok(_) => Self::accepted(old(self)@, index as int, v@, hr) == Ok::<
                    Self::V,
                    ErrorModel,
                >(final(self)@),
                Err(e) => Self::accepted(old(self)@, index as int, v@, hr) == Err::<
                    Self::V,
                    ErrorModel,
                >(e@),
            },
    ;
}

pub open spec fn names_data(names: Seq<&str>) -> Seq<Seq<char>> {
    names.map_values(|s: &str| s@)
}

pub open spec fn distinct(names: Seq<Seq<char>>) -> bool {
    forall|i: int, j: int| 0 <= i < names.len() && 0 <= j < names.len() && i != j ==> names[i] != names[j]
}

/// Cloning a `T` keeps its content.
pub open spec fn clone_keeps_view<T: Clone + View>() -> bool {
    forall|x: T, y: T| #[trigger] cloned::<T>(x, y) ==> y@ == x@
}

/// A copy of a list of map entries, entry by entry.
pub fn copy_entries(es: &Vec<(Value, Value)>) -> (r: Vec<(Value, Value)>)
    ensures
        pairs_data(r@) == pairs_data(es@),
{
    let mut out: Vec<(Value, Value)> = Vec::new();
    let mut i: usize = 0;
    while i < es.len()
        invariant
            i <= es@.len(),
            out@.len() == i,
            pairs_data(out@) == pairs_data(es@).take(i as int),
        decreases es@.len() - i,
    {
        let ghost before = out@;
        let k = es[i].0.deep_clone();
        let v = es[i].1.deep_clone();
        out.push((k, v));
        proof {
            lemma_pairs_push(before, (k, v));
        }
        assert(pairs_data(out@) =~= pairs_data(es@).take(i + 1));
        i = i + 1;
    }
    assert(pairs_data(es@).take(i as int) =~= pairs_data(es@));
    out
}

/// A copy of a list, with the same contents.
pub fn clone_list<T: Clone + View>(xs: &Vec<T>) -> (r: Vec<T>)
    requires
        clone_keeps_view::<T>(),
    ensures
        models(r@) == models(xs@),
{
    let ys = xs.clone();
    assert(models(ys@) =~= models(xs@)) by {
        assert forall|i: int| 0 <= i < xs@.len() implies ys@[i]@ == xs@[i]@ by {
            assert(cloned::<T>(xs@[i], ys@[i]));
        }
    }
    ys
}

/// A copy of an optional list, with the same contents.
pub fn clone_opt_list<T: Clone + View>(o: &Option<Vec<T>>) -> (r: Option<Vec<T>>)
    requires
        clone_keeps_view::<T>(),
    ensures
        opt_models(r) == opt_models(*o),
{
    match o {
        Some(xs) => {
            let ys = xs.clone();
            assert(models(ys@) =~= models(xs@)) by {
                assert forall|i: int| 0 <= i < xs@.len() implies ys@[i]@ == xs@[i]@ by {
                    assert(cloned::<T>(xs@[i], ys@[i]));
                }
            }
            Some(ys)
        },
        None => None,
    }
}

impl Clone for Value {
    /// A copy of the value, with the same content.
    fn clone(&self) -> (r: Self)
        ensures
            r@ == self@,
    {
        self.deep_clone()
    }
}

impl Value {
    /// A copy of the value.
    #[verifier::loop_isolation(false)]
    pub fn deep_clone(&self) -> (r: Value)
        ensures
            r@ == self@,
        decreases self,
    {
        match self {
            Value::Integer(i) => Value::Integer(*i),
            Value::Bytes(b) => Value::Bytes(copy_bytes(b)),
            Value::Text(s) => Value::Text(s.clone()),
            Value::Bool(b) => Value::Bool(*b),
            Value::Null => Value::Null,
            Value::Tag(t, v) => Value::Tag(*t, Box::new((**v).deep_clone())),
            Value::Array(vs) => {
                let mut out: Vec<Value> = Vec::new();
                let mut i: usize = 0;
                while i < vs.len()
                    invariant
                        i <= vs@.len(),
                        out@.len() == i,
                        items_data(out@) == items_data(vs@).take(i as int),
                    decreases vs@.len() - i,
                {
                    proof {
                        assert(decreases_to!(*self => *vs));
                        assert(decreases_to!(*vs => vs@));
                        assert(decreases_to!(vs@ => vs@[i as int]));
                    }
                    let ghost before = out@;
                    let c = vs[i].deep_clone();
                    out.push(c);
                    proof {
                        lemma_items_push(before, c);
                    }
                    assert(items_data(out@) =~= items_data(vs@).take(i + 1));
                    i = i + 1;
                }
                assert(items_data(vs@).take(i as int) =~= items_data(vs@));
                proof {
                    lemma_array_view(out);
                    lemma_array_view(*vs);
                }
                Value::Array(out)
            },
            Value::Mapping(es) => {
                let mut out: Vec<(Value, Value)> = Vec::new();
                let mut i: usize = 0;
                while i < es.len()
                    invariant
                        i <= es@.len(),
                        out@.len() == i,
                        pairs_data(out@) == pairs_data(es@).take(i as int),
                    decreases es@.len() - i,
                {
                    proof {
                        assert(decreases_to!(*self => *es));
                        assert(decreases_to!(*es => es@));
                        assert(decreases_to!(es@ => es@[i as int]));
                        assert(decreases_to!(es@[i as int] => es@[i as int].0));
                        assert(decreases_to!(es@[i as int] => es@[i as int].1));
                    }
                    let ghost before = out@;
                    let k = es[i].0.deep_clone();
                    let v = es[i].1.deep_clone();
                    out.push((k, v));
                    proof {
                        lemma_pairs_push(before, (k, v));
                    }
                    assert(pairs_data(out@) =~= pairs_data(es@).take(i + 1));
                    i = i + 1;
                }
                assert(pairs_data(es@).take(i as int) =~= pairs_data(es@));
                proof {
                    lemma_mapping_view(out);
                    lemma_mapping_view(*es);
                }
                Value::Mapping(out)
            },
        }
    }
}

/// A copy of a byte vector.
pub fn copy_bytes(b: &Vec<u8>) -> (r: Vec<u8>)
    ensures
        r@ == b@,
{
    let mut out: Vec<u8> = Vec::new();
    let mut i: usize = 0;
    while i < b.len()
        invariant
            i <= b@.len(),
            out@ == b@.take(i as int),
        decreases b@.len() - i,
    {
        out.push(b[i]);
        assert(out@ =~= b@.take(i + 1));
        i = i + 1;
    }
    assert(b@.take(i as int) =~= b@);
    out
}

/// The value under the tags that a reader of `hr` form skips.
pub fn peel_value(v: &Value, hr: bool) -> (r: &Value)
    ensures
        r@ == peel(v@, hr),
    decreases v,
{
    if hr {
        v
    } else {
        match v {
            Value::Tag(_, inner) => peel_value(inner, hr),
            _ => v,
        }
    }
}

/// The key of the field at `index` named `name`.
pub fn key_value(index: u8, name: &str, hr: bool) -> (k: Value)
    ensures
        k@ == key_of(index as int, name@, hr),
{
    if hr {
        Value::Text(String::from_str(name))
    } else {
        Value::Integer(index as i128)
    }
}

/// Appends an entry to a map under construction.
pub fn push_entry(es: &mut Vec<(Value, Value)>, k: Value, v: Value)
    ensures
        pairs_data(final(es)@) == pairs_data(old(es)@).push((k@, v@)),
{
    let ghost before = es@;
    es.push((k, v));
    proof {
        lemma_pairs_push(before, (k, v));
    }
}

/// The entries followed by one more, where there is one.
pub open spec fn push_some(es: Seq<(Data, Data)>, k: Data, v: Option<Data>) -> Seq<(Data, Data)> {
    match v {
        Some(d) => es.push((k, d)),
        None => es,
    }
}

/// `d` is a map holding the entry `(k, v)`.
pub open spec fn has_entry(d: Data, k: Data, v: Data) -> bool {
    d matches Data::Mapping(es) && es.contains((k, v))
}

/// Pushing an optional entry keeps the entries already there, and adds the
/// entry where it is set.
pub proof fn lemma_push_some_contains(es: Seq<(Data, Data)>, k: Data, v: Option<Data>, x: (Data, Data))
    ensures
        es.contains(x) ==> push_some(es, k, v).contains(x),
        v == Some(x.1) && k == x.0 ==> push_some(es, k, v).contains(x),
{
    if es.contains(x) {
        let i = choose|i: int| 0 <= i < es.len() && es[i] == x;
        if let Some(d) = v {
            assert(es.push((k, d))[i] == x);
        }
    }
    if v == Some(x.1) && k == x.0 {
        assert(es.push(x)[es.len() as int] == x);
    }
}

pub open spec fn opt_view<T: View>(o: Option<T>) -> Option<T::V> {
    match o {
        Some(x) => Some(x@),
        None => None,
    }
}

pub open spec fn opt_models<T: View>(o: Option<Vec<T>>) -> Option<Seq<T::V>> {
    match o {
        Some(xs) => Some(models(xs@)),
        None => None,
    }
}

pub open spec fn opt_encoded<T: Codec>(o: Option<T::V>, hr: bool) -> Option<Data> {
    match o {
        Some(m) => Some(T::encoded(m, hr)),
        None => None,
    }
}

pub open spec fn opt_encoded_array<T: Codec>(o: Option<Seq<T::V>>, hr: bool) -> Option<Data> {
    match o {
        Some(ms) => Some(encoded_array::<T>(ms, hr)),
        None => None,
    }
}

pub open spec fn opt_text(o: Option<Seq<char>>) -> Option<Data> {
    match o {
        Some(s) => Some(Data::Text(s)),
        None => None,
    }
}

/// A list with one more element at its end; a new list of one where there was none.
pub open spec fn appended<A>(o: Option<Seq<A>>, x: A) -> Seq<A> {
    match o {
        Some(s) => s.push(x),
        None => seq![x],
    }
}

/// Appends the entry for an optional field, where it is set.
pub fn push_opt_entry<T: Codec>(
    es: &mut Vec<(Value, Value)>,
    index: u8,
    name: &str,
    x: &Option<T>,
    hr: bool,
)
    ensures
        pairs_data(final(es)@) == push_some(
            pairs_data(old(es)@),
            key_of(index as int, name@, hr),
            opt_encoded::<T>(opt_view(*x), hr),
        ),
{
    match x {
        Some(x) => push_entry(es, key_value(index, name, hr), x.to_value(hr)),
        None => {},
    }
}

/// Appends the entry for an optional array field, where it is set.
pub fn push_opt_array_entry<T: Codec>(
    es: &mut Vec<(Value, Value)>,
    index: u8,
    name: &str,
    xs: &Option<Vec<T>>,
    hr: bool,
)
    ensures
        pairs_data(final(es)@) == push_some(
            pairs_data(old(es)@),
            key_of(index as int, name@, hr),
            opt_encoded_array::<T>(opt_models(*xs), hr),
        ),
{
    match xs {
        Some(xs) => push_entry(es, key_value(index, name, hr), array_to_value(xs, hr)),
        None => {},
    }
}

/// Appends the entry for an optional text field, where it is set.
pub fn push_opt_text_entry(
    es: &mut Vec<(Value, Value)>,
    index: u8,
    name: &str,
    s: &Option<String>,
    hr: bool,
)
    ensures
        pairs_data(final(es)@) == push_some(
            pairs_data(old(es)@),
            key_of(index as int, name@, hr),
            opt_text(opt_view(*s)),
        ),
{
    match s {
        Some(s) => push_entry(es, key_value(index, name, hr), text_value(s)),
        None => {},
    }
}

/// One for a field that is set, none for one that is not.
pub open spec fn count_some<A>(o: Option<A>) -> int {
    if o is Some {
        1
    } else {
        0
    }
}

/// The number of extension entries, none where there are no extensions.
pub open spec fn count_extensions(o: Option<Seq<(Data, Data)>>) -> int {
    match o {
        Some(x) => x.len() as int,
        None => 0,
    }
}

/// A text value.
pub fn text_value(s: &String) -> (v: Value)
    ensures
        v@ == Data::Text(s@),
{
    Value::Text(s.clone())
}

/// Reads a text field.
pub fn text_from_value(v: &Value, hr: bool) -> (r: Result<String, Error>)
    ensures
        match r {
            Ok(s) => decoded_text(v@, hr) == Ok::<Seq<char>, ErrorModel>(s@),
            Err(e) => decoded_text(v@, hr) == Err::<Seq<char>, ErrorModel>(e@),
        },
{
    match peel_value(v, hr) {
        Value::Text(s) => Ok(s.clone()),
        _ => Err(Error::Decode(DecodeError::ExpectedText)),
    }
}

/// Reads a 64-bit signed integer field.
pub fn i64_from_value(v: &Value, hr: bool) -> (r: Result<i64, Error>)
    ensures
        match r {
            Ok(x) => decoded_i64(v@, hr) == Ok::<i64, ErrorModel>(x),
            Err(e) => decoded_i64(v@, hr) == Err::<i64, ErrorModel>(e@),
        },
{
    match peel_value(v, hr) {
        Value::Integer(i) => {
            if i64::MIN as i128 <= *i && *i <= i64::MAX as i128 {
                Ok(*i as i64)
            } else {
                Err(Error::Decode(DecodeError::IntegerOutOfRange))
            }
        },
        _ => Err(Error::Decode(DecodeError::ExpectedInteger)),
    }
}

/// Writes a byte string.
pub fn bytes_to_value(b: &Vec<u8>, hr: bool) -> (v: Value)
    ensures
        v@ == encoded_bytes(b@, hr),
{
    if hr {
        let mut out: Vec<Value> = Vec::new();
        let mut i: usize = 0;
        while i < b.len()
            invariant
                i <= b@.len(),
                items_data(out@) == b@.take(i as int).map_values(|x: u8| Data::Int(x as int)),
            decreases b@.len() - i,
        {
            let ghost before = out@;
            let x = Value::Integer(b[i] as i128);
            out.push(x);
            proof {
                lemma_items_push(before, x);
            }
            assert(items_data(out@) =~= b@.take(i + 1).map_values(|x: u8| Data::Int(x as int)));
            i = i + 1;
        }
        assert(b@.take(i as int) =~= b@);
        proof {
            lemma_array_view(out);
        }
        Value::Array(out)
    } else {
        Value::Bytes(copy_bytes(b))
    }
}

/// Reads a byte-string field.
#[verifier::loop_isolation(false)]
pub fn bytes_from_value(v: &Value, hr: bool) -> (r: Result<Vec<u8>, Error>)
    ensures
        match r {
            Ok(b) => decoded_bytes(v@, hr) == Ok::<Seq<u8>, ErrorModel>(b@),
            Err(e) => decoded_bytes(v@, hr) == Err::<Seq<u8>, ErrorModel>(e@),
        },
{
    if hr {
        match v {
            Value::Array(vs) => {
                proof {
                    lemma_array_view(*vs);
                }
                let mut out: Vec<u8> = Vec::new();
                let mut i: usize = 0;
                while i < vs.len()
                    invariant
                        i <= vs@.len(),
                        decoded_byte_items(items_data(vs@).take(i as int)) == Ok::<
                            Seq<u8>,
                            ErrorModel,
                        >(out@),
                    decreases vs@.len() - i,
                {
                    assert(items_data(vs@).take(i + 1).drop_last() =~= items_data(vs@).take(
                        i as int,
                    ));
                    assert(items_data(vs@).take(i + 1).last() == vs@[i as int]@);
                    match &vs[i] {
                        Value::Integer(x) => {
                            if 0 <= *x && *x <= 255 {
                                let ghost before = out@;
                                out.push(*x as u8);
                                assert(out@ =~= before.push(*x as u8));
                            } else {
                                proof {
                                    lemma_byte_items_prefix(items_data(vs@), i + 1);
                                }
                                return Err(Error::Decode(DecodeError::IntegerOutOfRange));
                            }
                        },
                        _ => {
                            proof {
                                lemma_byte_items_prefix(items_data(vs@), i + 1);
                            }
                            return Err(Error::Decode(DecodeError::ExpectedInteger));
                        },
                    }
                    i = i + 1;
                }
                assert(items_data(vs@).take(i as int) =~= items_data(vs@));
                Ok(out)
            },
            _ => Err(Error::Decode(DecodeError::ExpectedArray)),
        }
    } else {
        match peel_value(v, hr) {
            Value::Bytes(b) => Ok(copy_bytes(b)),
            _ => Err(Error::Decode(DecodeError::ExpectedBytes)),
        }
    }
}

/// Reading written bytes gives them back, in either layout.
pub proof fn lemma_bytes_round_trip(b: Seq<u8>, hr: bool)
    ensures
        decoded_bytes(encoded_bytes(b, hr), hr) == Ok::<Seq<u8>, ErrorModel>(b),
    decreases b.len(),
{
    if hr {
        let ds = b.map_values(|x: u8| Data::Int(x as int));
        lemma_byte_items_round_trip(b);
    }
}

proof fn lemma_byte_items_round_trip(b: Seq<u8>)
    ensures
        decoded_byte_items(b.map_values(|x: u8| Data::Int(x as int))) == Ok::<Seq<u8>, ErrorModel>(
            b,
        ),
    decreases b.len(),
{
    let ds = b.map_values(|x: u8| Data::Int(x as int));
    if b.len() > 0 {
        lemma_byte_items_round_trip(b.drop_last());
        assert(ds.drop_last() =~= b.drop_last().map_values(|x: u8| Data::Int(x as int)));
        assert(b.drop_last().push(b.last()) =~= b);
    } else {
        assert(b =~= Seq::<u8>::empty());
    }
}

/// Writes an array of values.
pub fn array_to_value<T: Codec>(xs: &Vec<T>, hr: bool) -> (v: Value)
    ensures
        v@ == encoded_array::<T>(models(xs@), hr),
{
    let mut out: Vec<Value> = Vec::new();
    let mut i: usize = 0;
    while i < xs.len()
        invariant
            i <= xs@.len(),
            items_data(out@) == encoded_items::<T>(models(xs@), hr).take(i as int),
        decreases xs@.len() - i,
    {
        let item = xs[i].to_value(hr);
        let ghost before = out@;
        out.push(item);
        proof {
            lemma_items_push(before, item);
        }
        assert(items_data(out@) =~= encoded_items::<T>(models(xs@), hr).take(i + 1));
        i = i + 1;
    }
    assert(encoded_items::<T>(models(xs@), hr).take(i as int) =~= encoded_items::<T>(
        models(xs@),
        hr,
    ));
    proof {
        lemma_array_view(out);
    }
    Value::Array(out)
}

/// Reads an array of values.
#[verifier::loop_isolation(false)]
pub fn array_from_value<T: Codec>(v: &Value, hr: bool) -> (r: Result<Vec<T>, Error>)
    ensures
        match r {
            Ok(xs) => decoded_array::<T>(v@, hr) == Ok::<Seq<T::V>, ErrorModel>(models(xs@)),
            Err(e) => decoded_array::<T>(v@, hr) == Err::<Seq<T::V>, ErrorModel>(e@),
        },
{
    match peel_value(v, hr) {
        Value::Array(vs) => {
            proof {
                lemma_array_view(*vs);
            }
            let mut out: Vec<T> = Vec::new();
            let mut i: usize = 0;
            assert(models(out@) =~= Seq::<T::V>::empty());
            while i < vs.len()
                invariant
                    i <= vs@.len(),
                    decoded_items::<T>(items_data(vs@).take(i as int), hr) == Ok::<
                        Seq<T::V>,
                        ErrorModel,
                    >(models(out@)),
                decreases vs@.len() - i,
            {
                assert(items_data(vs@).take(i + 1).drop_last() =~= items_data(vs@).take(i as int));
                assert(items_data(vs@).take(i + 1).last() == vs@[i as int]@);
                let x = match T::from_value(&vs[i], hr) {
                    Ok(x) => x,
                    Err(e) => {
                        proof {
                            lemma_items_prefix::<T>(items_data(vs@), i + 1, hr);
                        }
                        return Err(e);
                    },
                };
                let ghost before = out@;
                out.push(x);
                assert(models(out@) =~= models(before).push(x@));
                i = i + 1;
            }
            assert(items_data(vs@).take(i as int) =~= items_data(vs@));
            Ok(out)
        },
        _ => Err(Error::Decode(DecodeError::ExpectedArray)),
    }
}

/// Reading a written array gives it back where each of its items round-trips.
pub proof fn lemma_array_round_trip<T: Codec>(ms: Seq<T::V>, hr: bool)
    requires
        all_round_trip::<T>(ms, hr),
    ensures
        decoded_array::<T>(encoded_array::<T>(ms, hr), hr) == Ok::<Seq<T::V>, ErrorModel>(ms),
{
    lemma_items_round_trip::<T>(ms, hr);
}

proof fn lemma_items_round_trip<T: Codec>(ms: Seq<T::V>, hr: bool)
    requires
        all_round_trip::<T>(ms, hr),
    ensures
        decoded_items::<T>(encoded_items::<T>(ms, hr), hr) == Ok::<Seq<T::V>, ErrorModel>(ms),
    decreases ms.len(),
{
    if ms.len() > 0 {
        lemma_items_round_trip::<T>(ms.drop_last(), hr);
        assert(encoded_items::<T>(ms, hr).drop_last() =~= encoded_items::<T>(ms.drop_last(), hr));
        T::lemma_round_trip(ms.last(), hr);
        assert(ms.drop_last().push(ms.last()) =~= ms);
    } else {
        assert(ms =~= Seq::<T::V>::empty());
    }
}

/// Finds the field that a map key selects.
#[verifier::loop_isolation(false)]
pub fn field_index_of(k: &Value, hr: bool, names: &[&str]) -> (r: Result<usize, Error>)
    ensures
        r matches Ok(i) ==> i < names@.len(),
        match r {
            Ok(i) => field_index(k@, hr, names_data(names@)) == Ok::<int, ErrorModel>(i as int),
            Err(e) => field_index(k@, hr, names_data(names@)) == Err::<int, ErrorModel>(e@),
        },
{
    let ghost nd = names_data(names@);
    if hr {
        match k {
            Value::Text(s) => {
                let mut i: usize = 0;
                while i < names.len()
                    invariant
                        i <= names@.len(),
                        nd == names_data(names@),
                        position_of(nd.take(i as int), s@) == None::<int>,
                    decreases names@.len() - i,
                {
                    assert(nd.take(i + 1).drop_last() =~= nd.take(i as int));
                    let name = String::from_str(names[i]);
                    assert(nd[i as int] == names@[i as int]@);
                    if *s == name {
                        assert(position_of(nd.take(i + 1), s@) == Some(i as int));
                        proof {
                            lemma_position_prefix(nd, s@, i + 1);
                        }
                        return Ok(i);
                    }
                    i = i + 1;
                }
                assert(nd.take(i as int) =~= nd);
                Err(Error::Decode(DecodeError::UnexpectedField(s.clone())))
            },
            _ => Err(Error::Decode(DecodeError::ExpectedText)),
        }
    } else {
        match peel_value(k, hr) {
            Value::Integer(i) => {
                if !(i64::MIN as i128 <= *i && *i <= i64::MAX as i128) {
                    Err(Error::Decode(DecodeError::IntegerOutOfRange))
                } else if 0 <= *i && *i < names.len() as i128 {
                    Ok(*i as usize)
                } else {
                    Err(Error::Decode(DecodeError::UnexpectedKey(*i as i64)))
                }
            },
            _ => Err(Error::Decode(DecodeError::ExpectedInteger)),
        }
    }
}

/// A position found in a prefix of the names is their position.
proof fn lemma_position_prefix(names: Seq<Seq<char>>, s: Seq<char>, n: int)
    requires
        0 <= n <= names.len(),
        position_of(names.take(n), s) is Some,
    ensures
        position_of(names, s) == position_of(names.take(n), s),
    decreases names.len() - n,
{
    if n < names.len() {
        assert(names.take(n + 1).drop_last() =~= names.take(n));
        lemma_position_prefix(names, s, n + 1);
    } else {
        assert(names.take(n) =~= names);
    }
}

/// Among distinct names, each one's position is its index.
pub proof fn lemma_position_of_distinct(names: Seq<Seq<char>>, i: int)
    requires
        distinct(names),
        0 <= i < names.len(),
    ensures
        position_of(names, names[i]) == Some(i),
    decreases names.len(),
{
    if i < names.len() - 1 {
        let p = names.drop_last();
        lemma_position_of_distinct(p, i);
        assert(p[i] == names[i]);
    } else {
        lemma_position_absent(names.drop_last(), names[i]);
    }
}

proof fn lemma_position_absent(names: Seq<Seq<char>>, s: Seq<char>)
    requires
        forall|j: int| 0 <= j < names.len() ==> names[j] != s,
    ensures
        position_of(names, s) == None::<int>,
    decreases names.len(),
{
    if names.len() > 0 {
        lemma_position_absent(names.drop_last(), s);
    }
}

/// The key of a field selects that field.
pub proof fn lemma_field_index_key(names: Seq<Seq<char>>, i: int, hr: bool)
    requires
        distinct(names),
        0 <= i < names.len(),
        names.len() <= 256,
    ensures
        field_index(key_of(i, names[i], hr), hr, names) == Ok::<int, ErrorModel>(i),
{
    if hr {
        lemma_position_of_distinct(names, i);
    }
}

/// Feeding one more entry takes one more step.
pub proof fn lemma_walked_push<S: FieldSink>(
    st: S::V,
    es: Seq<(Data, Data)>,
    e: (Data, Data),
    hr: bool,
)
    ensures
        walked::<S>(st, es.push(e), hr) == match walked::<S>(st, es, hr) {
            Err(err) => Err(err),
            Ok(b) => match field_index(e.0, hr, S::field_names()) {
                Err(err) => Err(err),
                Ok(i) => S::accepted(b, i, e.1, hr),
            },
        },
{
    assert(es.push(e).drop_last() =~= es);
}

/// Feeding an optional entry: where there is one it takes the sink from `before`
/// to `after`; where there is none, `after` is `before`.
pub proof fn lemma_walked_step<S: FieldSink>(
    st: S::V,
    es: Seq<(Data, Data)>,
    before: S::V,
    after: S::V,
    k: Data,
    index: int,
    v: Option<Data>,
    hr: bool,
)
    requires
        walked::<S>(st, es, hr) == Ok::<S::V, ErrorModel>(before),
        v is Some ==> field_index(k, hr, S::field_names()) == Ok::<int, ErrorModel>(index),
        v is None ==> after == before,
        v matches Some(d) ==> S::accepted(before, index, d, hr) == Ok::<S::V, ErrorModel>(after),
    ensures
        walked::<S>(st, push_some(es, k, v), hr) == Ok::<S::V, ErrorModel>(after),
{
    match v {
        Some(d) => lemma_walked_push::<S>(st, es, (k, d), hr),
        None => {},
    }
}

/// A map with an entry whose key names no field of the sink is refused:
/// feeding it ends in an error, this entry's or an earlier one's.
pub proof fn lemma_walked_refuses_unknown_key<S: FieldSink>(
    st: S::V,
    es: Seq<(Data, Data)>,
    i: int,
    hr: bool,
)
    requires
        0 <= i < es.len(),
        field_index(es[i].0, hr, S::field_names()) is Err,
    ensures
        walked::<S>(st, es, hr) is Err,
{
    assert(es.take(i + 1).drop_last() =~= es.take(i));
    assert(es.take(i + 1).last() == es[i]);
    lemma_walked_prefix::<S>(st, es, i + 1, hr);
}

/// Feeds the entries of a map, in order, into a sink.
#[verifier::loop_isolation(false)]
pub fn walk_entries<S: FieldSink>(
    sink: &mut S,
    entries: &Vec<(Value, Value)>,
    names: &[&str],
    hr: bool,
) -> (r: Result<(), Error>)
    requires
        names_data(names@) == S::field_names(),
    ensures
        match r {
            Ok(_) => walked::<S>(old(sink)@, pairs_data(entries@), hr) == Ok::<S::V, ErrorModel>(
                final(sink)@,
            ),
            Err(e) => walked::<S>(old(sink)@, pairs_data(entries@), hr) == Err::<
                S::V,
                ErrorModel,
            >(e@),
        },
{
    let ghost start = sink@;
    let ghost es = pairs_data(entries@);
    let mut i: usize = 0;
    while i < entries.len()
        invariant
            i <= entries@.len(),
            es == pairs_data(entries@),
            names_data(names@) == S::field_names(),
            walked::<S>(start, es.take(i as int), hr) == Ok::<S::V, ErrorModel>(sink@),
        decreases entries@.len() - i,
    {
        assert(es.take(i + 1).drop_last() =~= es.take(i as int));
        assert(es.take(i + 1).last() == (entries@[i as int].0@, entries@[i as int].1@));
        let idx = match field_index_of(&entries[i].0, hr, names) {
            Ok(idx) => idx,
            Err(e) => {
                proof {
                    lemma_walked_prefix::<S>(start, es, i + 1, hr);
                }
                return Err(e);
            },
        };
        match sink.accept(idx, &entries[i].1, hr) {
            Ok(_) => {},
            Err(e) => {
                proof {
                    lemma_walked_prefix::<S>(start, es, i + 1, hr);
                }
                return Err(e);
            },
        }
        i = i + 1;
    }
    assert(es.take(i as int) =~= es);
    Ok(())
}

} // verus!
