//! The one error type of the library.
use vstd::prelude::*;
use crate::labels::Domain;
use crate::numeric::{decimal_string, decimal_text};

verus! {

/// The error body that the service sends with a failed request.
#[derive(Debug, Clone, PartialEq, Eq)]
pub struct TezaursError {
    pub error: Error,
}

/// The details of a failed request.
#[derive(Debug, Clone, PartialEq, Eq)]
pub struct Error {
    pub code: i32,
    pub message: String,
    pub request_params: Vec<RequestParam>,
}

/// One parameter of a failed request, echoed back.
#[derive(Debug, Clone, PartialEq, Eq)]
pub struct RequestParam {
    pub key: String,
    pub value: String,
}

/// Where in a payload a decode failure was found.
#[derive(Debug, Clone, PartialEq, Eq)]
pub enum Location {
    /// The payload as a whole, or a record decoded on its own.
    Root,
    /// The item at this position of a list.
    Item(usize),
    /// A field of a record, by its external name.
    Field(&'static str),
    /// A field of the record at this position of a list.
    ItemField(usize, &'static str),
    /// A key of a label-to-text mapping.
    Key(String),
}

/// An offending JSON value as an error reports it: a scalar in full, an
/// array or object by its number of items.
#[derive(Debug, Clone, PartialEq, Eq)]
pub enum Found {
    Null,
    Bool(bool),
    Number(String),
    Str(String),
    Array(usize),
    Object(usize),
}

/// Why a field or key failed to decode.
#[derive(Debug, Clone, PartialEq, Eq)]
pub enum DecodeReason {
    /// A required field is absent.
    Missing,
    /// The value has another JSON kind than the one expected; this is it.
    WrongType(Found),
    /// A required numeric field holds this text, which is not a decimal number
    /// in range.
    NotANumber(String),
    /// The label is outside the closed set of the domain.
    UnknownLabel(Domain, String),
    /// A second entry for a grammatical case.
    Duplicate,
}

/// Every failure that the library reports.
#[derive(Debug, Clone, PartialEq, Eq)]
pub enum TezaursApiError {
    /// The transport failed before any payload arrived; its own message.
    TransportError(String),
    /// The payload is not well-formed JSON; the parser's message.
    MalformedPayload(String),
    /// A field or key failed validation.
    DecodeError(Location, DecodeReason),
    /// A label outside the closed set of a domain, from `translate`.
    UnknownLabel(Domain, String),
}

/// The name of a label domain in messages.
pub open spec fn domain_text(d: Domain) -> Seq<char> {
    match d {
        Domain::Case => "case"@,
        Domain::Gender => "gender"@,
        Domain::Number => "number"@,
        Domain::PartOfSpeech => "part of speech"@,
    }
}

/// A location in messages.
pub open spec fn location_text(l: Location) -> Seq<char> {
    match l {
        Location::Root => "payload"@,
        Location::Item(i) => "item "@ + decimal_text(i as nat),
        Location::Field(k) => "field "@ + k@,
        Location::ItemField(i, k) => "field "@ + k@ + " of item "@ + decimal_text(i as nat),
        Location::Key(k) => "key "@ + k@,
    }
}

/// An offending value in messages.
pub open spec fn found_text(f: Found) -> Seq<char> {
    match f {
        Found::Null => "null"@,
        Found::Bool(b) => if b {
            "true"@
        } else {
            "false"@
        },
        Found::Number(t) => t@,
        Found::Str(s) => "\""@ + s@ + "\""@,
        Found::Array(n) => "an array of "@ + decimal_text(n as nat) + " items"@,
        Found::Object(n) => "an object of "@ + decimal_text(n as nat) + " entries"@,
    }
}

/// A decode failure's reason in messages.
pub open spec fn reason_text(r: DecodeReason) -> Seq<char> {
    match r {
        DecodeReason::Missing => "missing"@,
        DecodeReason::WrongType(f) => "wrong JSON kind: "@ + found_text(f),
        DecodeReason::NotANumber(t) => "not a decimal number: "@ + t@,
        DecodeReason::UnknownLabel(d, l) => "unknown "@ + domain_text(d) + " label: "@ + l@,
        DecodeReason::Duplicate => "duplicate case"@,
    }
}

/// The message of an error.
pub open spec fn message_text(e: TezaursApiError) -> Seq<char> {
    match e {
        TezaursApiError::TransportError(m) => "transport error: "@ + m@,
        TezaursApiError::MalformedPayload(m) => "malformed payload: "@ + m@,
        TezaursApiError::DecodeError(l, r) => "decode error at "@ + location_text(l) + ": "@ + reason_text(r),
        TezaursApiError::UnknownLabel(d, l) => "unknown "@ + domain_text(d) + " label: "@ + l@,
    }
}

impl Domain {
    /// The name of the domain in messages.
    pub fn name(&self) -> (r: &'static str)
        ensures
            r@ == domain_text(*self),
    {
        match self {
            Domain::Case => "case",
            Domain::Gender => "gender",
            Domain::Number => "number",
            Domain::PartOfSpeech => "part of speech",
        }
    }
}

fn unknown_label_text(d: Domain, l: &String) -> (r: String)
    ensures
        r@ == "unknown "@ + domain_text(d) + " label: "@ + l@,
{
    let mut s = String::from_str("unknown ");
    s.append(d.name());
    s.append(" label: ");
    s.append(l.as_str());
    s
}

impl Found {
    /// The value as text.
    pub fn describe(&self) -> (r: String)
        ensures
            r@ == found_text(*self),
    {
        match self {
            Found::Null => String::from_str("null"),
            Found::Bool(b) => if *b {
                String::from_str("true")
            } else {
                String::from_str("false")
            },
            Found::Number(t) => t.clone(),
            Found::Str(t) => {
                let mut s = String::from_str("\"");
                s.append(t.as_str());
                s.append("\"");
                s
            },
            Found::Array(n) => {
                let mut s = String::from_str("an array of ");
                s.append(decimal_string(*n).as_str());
                s.append(" items");
                s
            },
            Found::Object(n) => {
                let mut s = String::from_str("an object of ");
                s.append(decimal_string(*n).as_str());
                s.append(" entries");
                s
            },
        }
    }
}

impl Location {
    /// The location as text.
    pub fn describe(&self) -> (r: String)
        ensures
            r@ == location_text(*self),
    {
        match self {
            Location::Root => String::from_str("payload"),
            Location::Item(i) => String::from_str("item ").concat(decimal_string(*i).as_str()),
            Location::Field(k) => String::from_str("field ").concat(k),
            Location::ItemField(i, k) => {
                let mut s = String::from_str("field ");
                s.append(k);
                s.append(" of item ");
                s.append(decimal_string(*i).as_str());
                s
            },
            Location::Key(k) => String::from_str("key ").concat(k.as_str()),
        }
    }
}

impl DecodeReason {
    /// The reason as text.
    pub fn describe(&self) -> (r: String)
        ensures
            r@ == reason_text(*self),
    {
        match self {
            DecodeReason::Missing => String::from_str("missing"),
            DecodeReason::WrongType(f) => String::from_str("wrong JSON kind: ").concat(f.describe().as_str()),
            DecodeReason::NotANumber(t) => String::from_str("not a decimal number: ").concat(t.as_str()),
            DecodeReason::UnknownLabel(d, l) => unknown_label_text(*d, l),
            DecodeReason::Duplicate => String::from_str("duplicate case"),
        }
    }
}

impl TezaursApiError {
    /// A message that names the kind of failure and its context.
    pub fn message(&self) -> (r: String)
        ensures
            r@ == message_text(*self),
    {
        match self {
            TezaursApiError::TransportError(m) => String::from_str("transport error: ").concat(m.as_str()),
            TezaursApiError::MalformedPayload(m) => String::from_str("malformed payload: ").concat(m.as_str()),
            TezaursApiError::DecodeError(l, r) => {
                let mut s = String::from_str("decode error at ");
                s.append(l.describe().as_str());
                s.append(": ");
                s.append(r.describe().as_str());
                s
            },
            TezaursApiError::UnknownLabel(d, l) => unknown_label_text(*d, l),
        }
    }
}

} // verus!
