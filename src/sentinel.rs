use vstd::prelude::*;

use crate::decimal::{decimal_round_trip, decimal_spec, decimal_text, parse_decimal_u64, NumberError};
use crate::outside::{license_accepts, parse_license};

verus! {

/// The empty-text convention: no text means no value.
pub open spec fn sentinel_text(raw: Seq<char>) -> Option<Seq<char>> {
    if raw.len() == 0 {
        None
    } else {
        Some(raw)
    }
}

/// Why a raw value was rejected by its field's parser.
#[derive(Clone, Debug, PartialEq, Eq)]
pub enum ValidationError {
    /// Not an unsigned 64-bit decimal number.
    InvalidNumber(NumberError),
    /// Neither `true` nor `false`; holds the offending text.
    InvalidBool(String),
    /// Not a license expression; holds the grammar's message.
    InvalidLicense(String),
    /// Not one of the visibility names; holds the offending text.
    InvalidVisibility(String),
    /// Not an absolute URL; holds the parser's message.
    InvalidUrl(String),
}

/// A text that may be unset.
#[derive(Clone, Debug)]
pub struct OptionString(pub Option<String>);

impl View for OptionString {
    type V = Option<Seq<char>>;

    open spec fn view(&self) -> Option<Seq<char>> {
        match self.0 {
            Some(s) => Some(s@),
            None => None,
        }
    }
}

/// A filesystem path that may be unset, held as the text of the path. No
/// check is made that the path exists.
#[derive(Clone, Debug)]
pub struct OptionPathBuf(pub Option<String>);

impl View for OptionPathBuf {
    type V = Option<Seq<char>>;

    open spec fn view(&self) -> Option<Seq<char>> {
        match self.0 {
            Some(s) => Some(s@),
            None => None,
        }
    }
}

/// An unsigned 64-bit number that may be unset.
#[derive(Clone, Copy, Debug, PartialEq, Eq)]
pub struct OptionU64(pub Option<u64>);

/// A parsed SPDX license expression that may be unset.
#[derive(Clone, Debug)]
pub struct OptionSpdxExpression(pub Option<spdx::Expression>);

/// Reads an optional text: empty means unset, anything else is kept verbatim.
pub fn parse_option_string(raw: &str) -> (r: OptionString)
    ensures
        r@ == sentinel_text(raw@),
{
    if raw.is_empty() {
        OptionString(None)
    } else {
        OptionString(Some(raw.to_owned()))
    }
}

/// Reads an optional path: empty means unset, anything else is the path's
/// text, verbatim.
pub fn parse_option_path(raw: &str) -> (r: OptionPathBuf)
    ensures
        r@ == sentinel_text(raw@),
{
    if raw.is_empty() {
        OptionPathBuf(None)
    } else {
        OptionPathBuf(Some(raw.to_owned()))
    }
}

/// The outcome of reading an optional number.
pub open spec fn option_u64_spec(raw: Seq<char>) -> Result<OptionU64, ValidationError> {
    if raw.len() == 0 {
        Ok(OptionU64(None))
    } else {
        match decimal_spec(raw) {
            Ok(v) => Ok(OptionU64(Some(v))),
            Err(e) => Err(ValidationError::InvalidNumber(e)),
        }
    }
}

/// Reads an optional unsigned 64-bit decimal number: empty means unset.
pub fn parse_option_u64(raw: &str) -> (r: Result<OptionU64, ValidationError>)
    ensures
        r == option_u64_spec(raw@),
{
    if raw.is_empty() {
        Ok(OptionU64(None))
    } else {
        match parse_decimal_u64(raw) {
            Ok(v) => Ok(OptionU64(Some(v))),
            Err(e) => Err(ValidationError::InvalidNumber(e)),
        }
    }
}

/// Whether two texts are equal.
pub fn text_is(raw: &str, lit: &str) -> (r: bool)
    ensures
        r == (raw@ == lit@),
{
    let a: String = raw.to_owned();
    let b: String = lit.to_owned();
    a == b
}

/// The value of a boolean whose empty text means `false`; `None` where the
/// text is rejected.
pub open spec fn empty_bool_spec(raw: Seq<char>) -> Option<bool> {
    if raw.len() == 0 {
        Some(false)
    } else if raw == "true"@ {
        Some(true)
    } else if raw == "false"@ {
        Some(false)
    } else {
        None
    }
}

/// Reads a boolean whose empty text means `false`: only `true` and `false`
/// are accepted besides, and any other text is named in the error.
pub fn parse_empty_bool(raw: &str) -> (r: Result<bool, ValidationError>)
    ensures
        match empty_bool_spec(raw@) {
            Some(b) => r == Ok::<bool, ValidationError>(b),
            None => r matches Err(ValidationError::InvalidBool(v)) && v@ == raw@,
        },
{
    if raw.is_empty() {
        Ok(false)
    } else if text_is(raw, "true") {
        Ok(true)
    } else if text_is(raw, "false") {
        Ok(false)
    } else {
        Err(ValidationError::InvalidBool(raw.to_owned()))
    }
}

/// Reads an optional license expression: empty means unset; otherwise the
/// text must be a well-formed SPDX expression.
pub fn parse_option_spdx(raw: &str) -> (r: Result<OptionSpdxExpression, ValidationError>)
    ensures
        raw@.len() == 0 ==> (r matches Ok(e) && e.0 is None),
        raw@.len() != 0 ==> (r is Ok <==> license_accepts(raw@)),
        raw@.len() != 0 ==> (r matches Ok(e) ==> e.0 is Some),
        r matches Err(e) ==> e is InvalidLicense,
{
    if raw.is_empty() {
        Ok(OptionSpdxExpression(None))
    } else {
        match parse_license(raw) {
            Ok(e) => Ok(OptionSpdxExpression(Some(e))),
            Err(msg) => Err(ValidationError::InvalidLicense(msg)),
        }
    }
}

/// The empty text is unset for every optional kind; a non-empty text is
/// kept as itself by the text and path readers; and every number, written in
/// canonical decimal, is read back as itself.
pub proof fn sentinel_round_trip(s: Seq<char>, v: u64)
    ensures
        sentinel_text(Seq::empty()) is None,
        option_u64_spec(Seq::empty()) == Ok::<OptionU64, ValidationError>(OptionU64(None)),
        s.len() > 0 ==> sentinel_text(s) == Some(s),
        option_u64_spec(decimal_text(v as nat)) == Ok::<OptionU64, ValidationError>(
            OptionU64(Some(v)),
        ),
{
    decimal_round_trip(v);
}

} // verus!
