//! The typed values that decoding produces.
use vstd::prelude::*;
use crate::labels::{Case, Gender, Number, PartOfSpeech};

verus! {

/// A suggested inflection paradigm.
#[derive(Debug, Clone, PartialEq, Eq)]
pub struct Paradigm {
    pub id: u32,
    pub description: String,
}

/// A list of tokens, as one record.
#[derive(Debug, Clone, PartialEq, Eq)]
pub struct TokenizeResponse {
    pub tokens: Vec<Token>,
}

/// One tokenized unit of a sentence.
#[derive(Debug, Clone, PartialEq, Eq)]
pub struct Token {
    pub word: String,
    pub tag: String,
    pub base_form: String,
}

/// One morphological analysis of a word occurrence.
#[derive(Debug, Clone, PartialEq, Eq)]
pub struct AnalyzedWord {
    pub number: Number,
    pub id: Option<usize>,
    pub word: String,
    pub word_id: Option<String>,
    pub lexem: usize,
    pub free_text: Option<String>,
    pub end: usize,
    pub source: Option<String>,
    pub part_of_speech: PartOfSpeech,
    pub swap: usize,
    pub mention: String,
    pub basic_form: String,
    pub case: Case,
    pub gender: Gender,
    pub group: usize,
    pub declination: usize,
}

/// One case-inflected rendering of a phrase.
#[derive(Debug, Clone, PartialEq, Eq)]
pub struct Inflection {
    pub case: Case,
    pub sentence: String,
}

} // verus!
