//! Extraction of single fields from a JSON object, under the policies
//! "required" (a failure is an error naming the field) and "optional"
//! (a failure is no value).
use vstd::prelude::*;
use crate::json::{Json, found_of, lookup, get_field};
use crate::numeric::{all_digits, decimal, parse_usize};
use crate::error::{TezaursApiError, Location, DecodeReason};
use crate::labels::{
    Case, Gender, Number, PartOfSpeech, Domain, case_of, gender_of, number_of, pos_of,
};

verus! {

/// The error for field `key`.
pub open spec fn field_error(key: &'static str, reason: DecodeReason) -> TezaursApiError {
    TezaursApiError::DecodeError(Location::Field(key), reason)
}

/// A required text field.
pub open spec fn str_field(o: Seq<(String, Json)>, key: &'static str) -> Result<String, TezaursApiError> {
    match lookup(o, key@) {
        Some(Json::Str(s)) => Ok(s),
        Some(v) => Err(field_error(key, DecodeReason::WrongType(found_of(v)))),
        None => Err(field_error(key, DecodeReason::Missing)),
    }
}

/// An optional text field.
pub open spec fn opt_str_field(o: Seq<(String, Json)>, key: &'static str) -> Option<String> {
    match lookup(o, key@) {
        Some(Json::Str(s)) => Some(s),
        _ => None,
    }
}

/// A required number written as a JSON string of decimal digits.
pub open spec fn num_field(o: Seq<(String, Json)>, key: &'static str) -> Result<usize, TezaursApiError> {
    match lookup(o, key@) {
        Some(Json::Str(s)) => match decimal(s@) {
            Some(n) => Ok(n),
            None => Err(field_error(key, DecodeReason::NotANumber(s))),
        },
        Some(v) => Err(field_error(key, DecodeReason::WrongType(found_of(v)))),
        None => Err(field_error(key, DecodeReason::Missing)),
    }
}

/// An optional number written as a JSON string of decimal digits.
pub open spec fn opt_num_field(o: Seq<(String, Json)>, key: &'static str) -> Option<usize> {
    match lookup(o, key@) {
        Some(Json::Str(s)) => decimal(s@),
        _ => None,
    }
}

/// A required `u32` written as a JSON number.
pub open spec fn u32_field(o: Seq<(String, Json)>, key: &'static str) -> Result<u32, TezaursApiError> {
    match lookup(o, key@) {
        Some(Json::Number(t)) => match decimal(t@) {
            Some(n) => if n <= u32::MAX {
                Ok(n as u32)
            } else {
                Err(field_error(key, DecodeReason::NotANumber(t)))
            },
            None => Err(field_error(key, DecodeReason::NotANumber(t))),
        },
        Some(v) => Err(field_error(key, DecodeReason::WrongType(found_of(v)))),
        None => Err(field_error(key, DecodeReason::Missing)),
    }
}

/// A required grammatical-number label.
pub open spec fn number_field(o: Seq<(String, Json)>, key: &'static str) -> Result<Number, TezaursApiError> {
    match str_field(o, key) {
        Err(e) => Err(e),
        Ok(s) => match number_of(s@) {
            Some(v) => Ok(v),
            None => Err(field_error(key, DecodeReason::UnknownLabel(Domain::Number, s))),
        },
    }
}

/// A required gender label.
pub open spec fn gender_field(o: Seq<(String, Json)>, key: &'static str) -> Result<Gender, TezaursApiError> {
    match str_field(o, key) {
        Err(e) => Err(e),
        Ok(s) => match gender_of(s@) {
            Some(v) => Ok(v),
            None => Err(field_error(key, DecodeReason::UnknownLabel(Domain::Gender, s))),
        },
    }
}

/// A required part-of-speech label.
pub open spec fn pos_field(o: Seq<(String, Json)>, key: &'static str) -> Result<PartOfSpeech, TezaursApiError> {
    match str_field(o, key) {
        Err(e) => Err(e),
        Ok(s) => match pos_of(s@) {
            Some(v) => Ok(v),
            None => Err(field_error(key, DecodeReason::UnknownLabel(Domain::PartOfSpeech, s))),
        },
    }
}

/// A required case label.
pub open spec fn case_field(o: Seq<(String, Json)>, key: &'static str) -> Result<Case, TezaursApiError> {
    match str_field(o, key) {
        Err(e) => Err(e),
        Ok(s) => match case_of(s@) {
            Some(v) => Ok(v),
            None => Err(field_error(key, DecodeReason::UnknownLabel(Domain::Case, s))),
        },
    }
}

/// Reads a required text field.
pub fn get_str(o: &Vec<(String, Json)>, key: &'static str) -> (r: Result<String, TezaursApiError>)
    ensures
        r == str_field(o@, key),
{
    match get_field(o, key) {
        Some(Json::Str(s)) => Ok(s.clone()),
        Some(v) => Err(TezaursApiError::DecodeError(Location::Field(key), DecodeReason::WrongType(v.found()))),
        None => Err(TezaursApiError::DecodeError(Location::Field(key), DecodeReason::Missing)),
    }
}

/// Reads an optional text field.
pub fn get_opt_str(o: &Vec<(String, Json)>, key: &'static str) -> (r: Option<String>)
    ensures
        r == opt_str_field(o@, key),
{
    match get_field(o, key) {
        Some(Json::Str(s)) => Some(s.clone()),
        _ => None,
    }
}

/// Reads a string-encoded number; `required` chooses between an error naming
/// the field and no value when the field is absent or not a number.
pub fn get_num(o: &Vec<(String, Json)>, key: &'static str, required: bool) -> (r: Result<Option<usize>, TezaursApiError>)
    ensures
        required ==> match num_field(o@, key) {
            Ok(n) => r == Ok::<Option<usize>, TezaursApiError>(Some(n)),
            Err(e) => r == Err::<Option<usize>, TezaursApiError>(e),
        },
        !required ==> r == Ok::<Option<usize>, TezaursApiError>(opt_num_field(o@, key)),
{
    match get_field(o, key) {
        Some(Json::Str(s)) => match parse_usize(s.as_str()) {
            Some(n) => Ok(Some(n)),
            None => if required {
                Err(TezaursApiError::DecodeError(Location::Field(key), DecodeReason::NotANumber(s.clone())))
            } else {
                Ok(None)
            },
        },
        Some(v) => if required {
            Err(TezaursApiError::DecodeError(Location::Field(key), DecodeReason::WrongType(v.found())))
        } else {
            Ok(None)
        },
        None => if required {
            Err(TezaursApiError::DecodeError(Location::Field(key), DecodeReason::Missing))
        } else {
            Ok(None)
        },
    }
}

/// Reads a required string-encoded number.
pub fn get_required_num(o: &Vec<(String, Json)>, key: &'static str) -> (r: Result<usize, TezaursApiError>)
    ensures
        r == num_field(o@, key),
{
    match get_num(o, key, true) {
        Ok(Some(n)) => Ok(n),
        Ok(None) => Err(TezaursApiError::DecodeError(Location::Field(key), DecodeReason::Missing)),
        Err(e) => Err(e),
    }
}

/// Reads an optional string-encoded number.
pub fn get_opt_num(o: &Vec<(String, Json)>, key: &'static str) -> (r: Option<usize>)
    ensures
        r == opt_num_field(o@, key),
{
    match get_num(o, key, false) {
        Ok(v) => v,
        Err(_) => None,
    }
}

/// Reads a required `u32` written as a JSON number.
pub fn get_u32(o: &Vec<(String, Json)>, key: &'static str) -> (r: Result<u32, TezaursApiError>)
    ensures
        r == u32_field(o@, key),
{
    match get_field(o, key) {
        Some(Json::Number(t)) => match parse_usize(t.as_str()) {
            Some(n) => if n <= 0xffff_ffffusize {
                Ok(n as u32)
            } else {
                Err(TezaursApiError::DecodeError(Location::Field(key), DecodeReason::NotANumber(t.clone())))
            },
            None => Err(TezaursApiError::DecodeError(Location::Field(key), DecodeReason::NotANumber(t.clone()))),
        },
        Some(v) => Err(TezaursApiError::DecodeError(Location::Field(key), DecodeReason::WrongType(v.found()))),
        None => Err(TezaursApiError::DecodeError(Location::Field(key), DecodeReason::Missing)),
    }
}

/// Reads a required grammatical-number label.
pub fn get_number(o: &Vec<(String, Json)>, key: &'static str) -> (r: Result<Number, TezaursApiError>)
    ensures
        r == number_field(o@, key),
{
    let s = get_str(o, key)?;
    match Number::from_label(s.as_str()) {
        Some(v) => Ok(v),
        None => Err(TezaursApiError::DecodeError(Location::Field(key), DecodeReason::UnknownLabel(Domain::Number, s))),
    }
}

/// Reads a required gender label.
pub fn get_gender(o: &Vec<(String, Json)>, key: &'static str) -> (r: Result<Gender, TezaursApiError>)
    ensures
        r == gender_field(o@, key),
{
    let s = get_str(o, key)?;
    match Gender::from_label(s.as_str()) {
        Some(v) => Ok(v),
        None => Err(TezaursApiError::DecodeError(Location::Field(key), DecodeReason::UnknownLabel(Domain::Gender, s))),
    }
}

/// Reads a required part-of-speech label.
pub fn get_pos(o: &Vec<(String, Json)>, key: &'static str) -> (r: Result<PartOfSpeech, TezaursApiError>)
    ensures
        r == pos_field(o@, key),
{
    let s = get_str(o, key)?;
    match PartOfSpeech::from_label(s.as_str()) {
        Some(v) => Ok(v),
        None => Err(TezaursApiError::DecodeError(Location::Field(key), DecodeReason::UnknownLabel(Domain::PartOfSpeech, s))),
    }
}

/// Reads a required case label.
pub fn get_case(o: &Vec<(String, Json)>, key: &'static str) -> (r: Result<Case, TezaursApiError>)
    ensures
        r == case_field(o@, key),
{
    let s = get_str(o, key)?;
    match Case::from_label(s.as_str()) {
        Some(v) => Ok(v),
        None => Err(TezaursApiError::DecodeError(Location::Field(key), DecodeReason::UnknownLabel(Domain::Case, s))),
    }
}

/// Text that is not all digits makes a required numeric field fail with an
/// error naming the field and carrying the text, and makes an optional one
/// resolve to no value.
pub proof fn lemma_non_digit_number(o: Seq<(String, Json)>, key: &'static str, s: String)
    requires
        lookup(o, key@) == Some(Json::Str(s)),
        !all_digits(s@),
    ensures
        num_field(o, key) == Err::<usize, TezaursApiError>(field_error(key, DecodeReason::NotANumber(s))),
        opt_num_field(o, key) is None,
{
}

} // verus!
