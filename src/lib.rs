//! Decoding of the responses of a morphological-analysis service into typed
//! values, with one error taxonomy for transport, payload and field failures.

pub mod json;
pub mod error;
pub mod labels;
pub mod model;
pub mod numeric;
pub mod fields;
pub mod records;
pub mod inflect;
pub mod encode;

pub use error::{DecodeReason, Location, TezaursApiError};
pub use labels::{translate, Case, Domain, Gender, Number, PartOfSpeech, Variant};
pub use model::{AnalyzedWord, Inflection, Paradigm, Token, TokenizeResponse};
pub use records::{decode_analyze, decode_paradigms, decode_tokenize};
pub use inflect::decode_inflections;
