pub mod coev;
pub mod ocp_safe;

use vstd::prelude::*;
use vstd::string::*;

use self::coev::{CoevError, CoevErrorModel};
use self::ocp_safe::{OcpSafeError, OcpSafeErrorModel};

verus! {

/// Why a data-model value could not be read as one of the library's types.
#[derive(Debug, Clone, PartialEq, Eq)]
pub enum DecodeError {
    /// A map was expected.
    ExpectedMap,
    /// An array was expected.
    ExpectedArray,
    /// A text string was expected.
    ExpectedText,
    /// An integer was expected.
    ExpectedInteger,
    /// A byte string was expected.
    ExpectedBytes,
    /// An integer does not fit the type it is read into.
    IntegerOutOfRange,
    /// A text map key names no field of the type being read.
    UnexpectedField(String),
    /// An integer map key names no field of the type being read.
    UnexpectedKey(i64),
    /// A text map key names no field of a Concise Evidence map.
    UnexpectedFieldName(String),
    /// An integer map key names no field of a Concise Evidence map.
    UnexpectedFieldKey(i64),
    /// A required map entry is absent.
    MissingField(&'static str),
    /// A required entry of a CoSWID evidence map is absent.
    MissingRequiredField(&'static str),
    /// A value holds the given number of items, fewer or more than the second
    /// part describes.
    InvalidLength(usize, &'static str),
    /// A value carries the wrong tag, or none where the given tag is required.
    ExpectedTag(u64),
}

/// The mathematical content of a [`DecodeError`].
pub enum DecodeErrorModel {
    ExpectedMap,
    ExpectedArray,
    ExpectedText,
    ExpectedInteger,
    ExpectedBytes,
    IntegerOutOfRange,
    UnexpectedField(Seq<char>),
    UnexpectedKey(i64),
    UnexpectedFieldName(Seq<char>),
    UnexpectedFieldKey(i64),
    MissingField(Seq<char>),
    MissingRequiredField(Seq<char>),
    InvalidLength(nat, Seq<char>),
    ExpectedTag(u64),
}

impl View for DecodeError {
    type V = DecodeErrorModel;

    open spec fn view(&self) -> DecodeErrorModel {
        match self {
            DecodeError::ExpectedMap => DecodeErrorModel::ExpectedMap,
            DecodeError::ExpectedArray => DecodeErrorModel::ExpectedArray,
            DecodeError::ExpectedText => DecodeErrorModel::ExpectedText,
            DecodeError::ExpectedInteger => DecodeErrorModel::ExpectedInteger,
            DecodeError::ExpectedBytes => DecodeErrorModel::ExpectedBytes,
            DecodeError::IntegerOutOfRange => DecodeErrorModel::IntegerOutOfRange,
            DecodeError::UnexpectedField(name) => DecodeErrorModel::UnexpectedField(name@),
            DecodeError::UnexpectedKey(key) => DecodeErrorModel::UnexpectedKey(*key),
            DecodeError::UnexpectedFieldName(name) => DecodeErrorModel::UnexpectedFieldName(name@),
            DecodeError::UnexpectedFieldKey(key) => DecodeErrorModel::UnexpectedFieldKey(*key),
            DecodeError::MissingField(name) => DecodeErrorModel::MissingField(name@),
            DecodeError::MissingRequiredField(name) => DecodeErrorModel::MissingRequiredField(name@),
            DecodeError::InvalidLength(n, expected) => DecodeErrorModel::InvalidLength(
                *n as nat,
                expected@,
            ),
            DecodeError::ExpectedTag(t) => DecodeErrorModel::ExpectedTag(*t),
        }
    }
}

/// The decimal text of one digit.
pub open spec fn digit_text(d: nat) -> Seq<char> {
    if d == 0 {
        "0"@
    } else if d == 1 {
        "1"@
    } else if d == 2 {
        "2"@
    } else if d == 3 {
        "3"@
    } else if d == 4 {
        "4"@
    } else if d == 5 {
        "5"@
    } else if d == 6 {
        "6"@
    } else if d == 7 {
        "7"@
    } else if d == 8 {
        "8"@
    } else {
        "9"@
    }
}

/// The decimal digits of `n`, most significant first, without leading zeros.
pub open spec fn decimal_digits(n: nat) -> Seq<char>
    decreases n,
{
    if n < 10 {
        digit_text(n)
    } else {
        decimal_digits(n / 10) + digit_text(n % 10)
    }
}

/// The decimal text of `n`, with a leading `-` where it is negative.
pub open spec fn decimal(n: int) -> Seq<char> {
    if n < 0 {
        "-"@ + decimal_digits((-n) as nat)
    } else {
        decimal_digits(n as nat)
    }
}

/// The number that a string of decimal digits spells.
pub open spec fn digits_value(s: Seq<char>) -> int
    decreases s.len(),
{
    if s.len() == 0 {
        0
    } else {
        digits_value(s.drop_last()) * 10 + (s.last() as int - '0' as int)
    }
}

proof fn lemma_digit_text(d: nat)
    requires
        d < 10,
    ensures
        digit_text(d).len() == 1,
        digit_text(d)[0] as int == '0' as int + d,
{
    reveal_strlit("0");
    reveal_strlit("1");
    reveal_strlit("2");
    reveal_strlit("3");
    reveal_strlit("4");
    reveal_strlit("5");
    reveal_strlit("6");
    reveal_strlit("7");
    reveal_strlit("8");
    reveal_strlit("9");
}

/// The decimal text of `n` is a non-empty string of the digits 0 to 9 that
/// spells `n`, and it starts with 0 only where `n` is 0.
pub proof fn lemma_decimal_digits(n: nat)
    ensures
        decimal_digits(n).len() >= 1,
        forall|i: int| 0 <= i < decimal_digits(n).len() ==> '0' <= #[trigger] decimal_digits(n)[i] <= '9',
        digits_value(decimal_digits(n)) == n,
        decimal_digits(n)[0] == '0' ==> n == 0,
    decreases n,
{
    if n < 10 {
        lemma_digit_text(n);
        let s = decimal_digits(n);
        assert(s.drop_last() =~= Seq::<char>::empty());
        assert(digits_value(s.drop_last()) == 0);
        assert(s.last() == s[0]);
    } else {
        lemma_decimal_digits(n / 10);
        lemma_digit_text(n % 10);
        let p = decimal_digits(n / 10);
        let s = decimal_digits(n);
        assert(s == p + digit_text(n % 10));
        assert(s.drop_last() =~= p);
        assert(s.last() == digit_text(n % 10)[0]);
        assert(s[0] == p[0]);
        assert(n == (n / 10) * 10 + n % 10);
    }
}

fn digit_str(d: u128) -> (s: &'static str)
    requires
        d < 10,
    ensures
        s@ == digit_text(d as nat),
{
    if d == 0 {
        "0"
    } else if d == 1 {
        "1"
    } else if d == 2 {
        "2"
    } else if d == 3 {
        "3"
    } else if d == 4 {
        "4"
    } else if d == 5 {
        "5"
    } else if d == 6 {
        "6"
    } else if d == 7 {
        "7"
    } else if d == 8 {
        "8"
    } else {
        "9"
    }
}

fn append_digits(s: &mut String, n: u128)
    ensures
        final(s)@ == old(s)@ + decimal_digits(n as nat),
    decreases n,
{
    if n < 10 {
        s.append(digit_str(n));
    } else {
        append_digits(s, n / 10);
        s.append(digit_str(n % 10));
        assert(final(s)@ =~= old(s)@ + decimal_digits(n as nat));
    }
}

/// Appends the decimal text of `n` to `s`.
fn append_decimal(s: &mut String, n: i128)
    ensures
        final(s)@ == old(s)@ + decimal(n as int),
{
    if n < 0 {
        s.append("-");
        let magnitude: u128 = ((-(n + 1)) as u128) + 1;
        append_digits(s, magnitude);
        assert(final(s)@ =~= old(s)@ + decimal(n as int));
    } else {
        append_digits(s, n as u128);
    }
}

impl DecodeErrorModel {
    /// The human-readable text of the error.
    pub open spec fn message(self) -> Seq<char> {
        match self {
            DecodeErrorModel::ExpectedMap => "invalid type: expected a map"@,
            DecodeErrorModel::ExpectedArray => "invalid type: expected a sequence"@,
            DecodeErrorModel::ExpectedText => "invalid type: expected a string"@,
            DecodeErrorModel::ExpectedInteger => "invalid type: expected an integer"@,
            DecodeErrorModel::ExpectedBytes => "invalid type: expected bytes"@,
            DecodeErrorModel::IntegerOutOfRange => "integer out of range"@,
            DecodeErrorModel::UnexpectedField(name) => "unexpected field \""@ + name + "\""@,
            DecodeErrorModel::UnexpectedKey(key) => "unexpected key \""@ + decimal(key as int)
                + "\""@,
            DecodeErrorModel::UnexpectedFieldName(name) => "unexpected field name \""@ + name
                + "\""@,
            DecodeErrorModel::UnexpectedFieldKey(key) => "unexpected field key \""@ + decimal(
                key as int,
            ) + "\""@,
            DecodeErrorModel::MissingField(name) => "missing field `"@ + name + "`"@,
            DecodeErrorModel::MissingRequiredField(name) => "missing required field '"@ + name
                + "'"@,
            DecodeErrorModel::InvalidLength(n, expected) => "invalid length "@ + decimal(n as int)
                + ", expected "@ + expected,
            DecodeErrorModel::ExpectedTag(t) => "expected tag "@ + decimal(t as int),
        }
    }
}

impl DecodeError {
    /// The human-readable text of the error.
    pub fn message(&self) -> (s: String)
        ensures
            s@ == self@.message(),
    {
        match self {
            DecodeError::ExpectedMap => String::from_str("invalid type: expected a map"),
            DecodeError::ExpectedArray => String::from_str("invalid type: expected a sequence"),
            DecodeError::ExpectedText => String::from_str("invalid type: expected a string"),
            DecodeError::ExpectedInteger => String::from_str("invalid type: expected an integer"),
            DecodeError::ExpectedBytes => String::from_str("invalid type: expected bytes"),
            DecodeError::IntegerOutOfRange => String::from_str("integer out of range"),
            DecodeError::UnexpectedField(name) => {
                let mut s = String::from_str("unexpected field \"");
                s.append(name.as_str());
                s.append("\"");
                s
            },
            DecodeError::UnexpectedKey(key) => {
                let mut s = String::from_str("unexpected key \"");
                append_decimal(&mut s, *key as i128);
                s.append("\"");
                s
            },
            DecodeError::UnexpectedFieldName(name) => {
                let mut s = String::from_str("unexpected field name \"");
                s.append(name.as_str());
                s.append("\"");
                s
            },
            DecodeError::UnexpectedFieldKey(key) => {
                let mut s = String::from_str("unexpected field key \"");
                append_decimal(&mut s, *key as i128);
                s.append("\"");
                s
            },
            DecodeError::MissingRequiredField(name) => {
                let mut s = String::from_str("missing required field '");
                s.append(name);
                s.append("'");
                s
            },
            DecodeError::MissingField(name) => {
                let mut s = String::from_str("missing field `");
                s.append(name);
                s.append("`");
                s
            },
            DecodeError::InvalidLength(n, expected) => {
                let mut s = String::from_str("invalid length ");
                append_decimal(&mut s, *n as i128);
                s.append(", expected ");
                s.append(expected);
                s
            },
            DecodeError::ExpectedTag(t) => {
                let mut s = String::from_str("expected tag ");
                append_decimal(&mut s, *t as i128);
                s
            },
        }
    }
}

/// The library's error: a failure of a builder, of the profile, or of reading a value.
#[derive(Debug, Clone, PartialEq, Eq)]
pub enum Error {
    Coev(CoevError),
    OcpSafe(OcpSafeError),
    Decode(DecodeError),
}

/// The mathematical content of an [`Error`].
pub enum ErrorModel {
    Coev(CoevErrorModel),
    OcpSafe(OcpSafeErrorModel),
    Decode(DecodeErrorModel),
}

impl View for Error {
    type V = ErrorModel;

    open spec fn view(&self) -> ErrorModel {
        match self {
            Error::Coev(e) => ErrorModel::Coev(e@),
            Error::OcpSafe(e) => ErrorModel::OcpSafe(e@),
            Error::Decode(e) => ErrorModel::Decode(e@),
        }
    }
}

impl ErrorModel {
    /// The human-readable text of the error.
    pub open spec fn message(self) -> Seq<char> {
        match self {
            ErrorModel::Coev(e) => e.message(),
            ErrorModel::OcpSafe(e) => e.message(),
            ErrorModel::Decode(e) => e.message(),
        }
    }
}

impl Error {
    /// The human-readable text of the error.
    pub fn message(&self) -> (s: String)
        ensures
            s@ == self@.message(),
    {
        match self {
            Error::Coev(e) => e.message(),
            Error::OcpSafe(e) => e.message(),
            Error::Decode(e) => e.message(),
        }
    }
}

/// The outcome of a fallible operation, taken by the views of its value or error.
pub open spec fn outcome<T: View>(r: Result<T, Error>) -> Result<T::V, ErrorModel> {
    match r {
        Ok(x) => Ok(x@),
        Err(e) => Err(e@),
    }
}

} // verus!
