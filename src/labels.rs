//! The closed label sets of the grammatical categories, and their translation.
use vstd::prelude::*;
use crate::json::str_eq;
use crate::error::TezaursApiError;

verus! {

/// Grammatical number.
#[derive(Debug, Clone, Copy, PartialEq, Eq, Structural, Hash)]
pub enum Number {
    Singular,
    Plural,
}

/// Grammatical gender.
#[derive(Debug, Clone, Copy, PartialEq, Eq, Structural, Hash)]
pub enum Gender {
    Female,
    Male,
}

/// Part of speech.
#[derive(Debug, Clone, Copy, PartialEq, Eq, Structural, Hash)]
pub enum PartOfSpeech {
    Noun,
    Adjective,
    Numeral,
    Verb,
}

/// Grammatical case.
#[derive(Debug, Clone, Copy, PartialEq, Eq, Structural, Hash)]
pub enum Case {
    Nominative,
    Genitive,
    Dative,
    Accusative,
    Instrumental,
    Locative,
    Vocative,
}

/// The categories that have a closed label set.
#[derive(Debug, Clone, Copy, PartialEq, Eq, Structural, Hash)]
pub enum Domain {
    Case,
    Gender,
    Number,
    PartOfSpeech,
}

/// A translated label, tagged with its category.
#[derive(Debug, Clone, Copy, PartialEq, Eq, Structural, Hash)]
pub enum Variant {
    Case(Case),
    Gender(Gender),
    Number(Number),
    PartOfSpeech(PartOfSpeech),
}

/// The service's spelling of each grammatical number.
pub open spec fn number_label(n: Number) -> Seq<char> {
    match n {
        Number::Singular => "Vienskaitlis"@,
        Number::Plural => "Daudzskaitlis"@,
    }
}

/// The service's spelling of each gender.
pub open spec fn gender_label(g: Gender) -> Seq<char> {
    match g {
        Gender::Female => "Sieviešu"@,
        Gender::Male => "Vīriešu"@,
    }
}

/// The service's spelling of each part of speech.
pub open spec fn pos_label(p: PartOfSpeech) -> Seq<char> {
    match p {
        PartOfSpeech::Noun => "Lietvārds"@,
        PartOfSpeech::Adjective => "Īpašības vārds"@,
        PartOfSpeech::Numeral => "Skaitļa vārds"@,
        PartOfSpeech::Verb => "Darbības vārds"@,
    }
}

/// The service's spelling of each case.
pub open spec fn case_label(c: Case) -> Seq<char> {
    match c {
        Case::Nominative => "Nominatīvs"@,
        Case::Genitive => "Ģenitīvs"@,
        Case::Dative => "Datīvs"@,
        Case::Accusative => "Akuzatīvs"@,
        Case::Instrumental => "Instrumentālis"@,
        Case::Locative => "Lokatīvs"@,
        Case::Vocative => "Vokatīvs"@,
    }
}

/// The number spelled `s`, if any.
pub open spec fn number_of(s: Seq<char>) -> Option<Number> {
    if s == number_label(Number::Singular) {
        Some(Number::Singular)
    } else if s == number_label(Number::Plural) {
        Some(Number::Plural)
    } else {
        None
    }
}

/// The gender spelled `s`, if any.
pub open spec fn gender_of(s: Seq<char>) -> Option<Gender> {
    if s == gender_label(Gender::Female) {
        Some(Gender::Female)
    } else if s == gender_label(Gender::Male) {
        Some(Gender::Male)
    } else {
        None
    }
}

/// The part of speech spelled `s`, if any.
pub open spec fn pos_of(s: Seq<char>) -> Option<PartOfSpeech> {
    if s == pos_label(PartOfSpeech::Noun) {
        Some(PartOfSpeech::Noun)
    } else if s == pos_label(PartOfSpeech::Adjective) {
        Some(PartOfSpeech::Adjective)
    } else if s == pos_label(PartOfSpeech::Numeral) {
        Some(PartOfSpeech::Numeral)
    } else if s == pos_label(PartOfSpeech::Verb) {
        Some(PartOfSpeech::Verb)
    } else {
        None
    }
}

/// The case spelled `s`, if any.
pub open spec fn case_of(s: Seq<char>) -> Option<Case> {
    if s == case_label(Case::Nominative) {
        Some(Case::Nominative)
    } else if s == case_label(Case::Genitive) {
        Some(Case::Genitive)
    } else if s == case_label(Case::Dative) {
        Some(Case::Dative)
    } else if s == case_label(Case::Accusative) {
        Some(Case::Accusative)
    } else if s == case_label(Case::Instrumental) {
        Some(Case::Instrumental)
    } else if s == case_label(Case::Locative) {
        Some(Case::Locative)
    } else if s == case_label(Case::Vocative) {
        Some(Case::Vocative)
    } else {
        None
    }
}

/// The variant of `domain` spelled `s`, if any.
pub open spec fn translated(s: Seq<char>, domain: Domain) -> Option<Variant> {
    match domain {
        Domain::Case => match case_of(s) {
            Some(c) => Some(Variant::Case(c)),
            None => None,
        },
        Domain::Gender => match gender_of(s) {
            Some(g) => Some(Variant::Gender(g)),
            None => None,
        },
        Domain::Number => match number_of(s) {
            Some(n) => Some(Variant::Number(n)),
            None => None,
        },
        Domain::PartOfSpeech => match pos_of(s) {
            Some(p) => Some(Variant::PartOfSpeech(p)),
            None => None,
        },
    }
}

impl Number {
    /// The service's label for this number.
    pub fn label(&self) -> (r: &'static str)
        ensures
            r@ == number_label(*self),
    {
        match self {
            Number::Singular => "Vienskaitlis",
            Number::Plural => "Daudzskaitlis",
        }
    }

    /// The number whose label is `s`.
    pub fn from_label(s: &str) -> (r: Option<Number>)
        ensures
            r == number_of(s@),
    {
        if str_eq(s, Number::Singular.label()) {
            Some(Number::Singular)
        } else if str_eq(s, Number::Plural.label()) {
            Some(Number::Plural)
        } else {
            None
        }
    }
}

impl Gender {
    /// The service's label for this gender.
    pub fn label(&self) -> (r: &'static str)
        ensures
            r@ == gender_label(*self),
    {
        match self {
            Gender::Female => "Sieviešu",
            Gender::Male => "Vīriešu",
        }
    }

    /// The gender whose label is `s`.
    pub fn from_label(s: &str) -> (r: Option<Gender>)
        ensures
            r == gender_of(s@),
    {
        if str_eq(s, Gender::Female.label()) {
            Some(Gender::Female)
        } else if str_eq(s, Gender::Male.label()) {
            Some(Gender::Male)
        } else {
            None
        }
    }
}

impl PartOfSpeech {
    /// The service's label for this part of speech.
    pub fn label(&self) -> (r: &'static str)
        ensures
            r@ == pos_label(*self),
    {
        match self {
            PartOfSpeech::Noun => "Lietvārds",
            PartOfSpeech::Adjective => "Īpašības vārds",
            PartOfSpeech::Numeral => "Skaitļa vārds",
            PartOfSpeech::Verb => "Darbības vārds",
        }
    }

    /// The part of speech whose label is `s`.
    pub fn from_label(s: &str) -> (r: Option<PartOfSpeech>)
        ensures
            r == pos_of(s@),
    {
        if str_eq(s, PartOfSpeech::Noun.label()) {
            Some(PartOfSpeech::Noun)
        } else if str_eq(s, PartOfSpeech::Adjective.label()) {
            Some(PartOfSpeech::Adjective)
        } else if str_eq(s, PartOfSpeech::Numeral.label()) {
            Some(PartOfSpeech::Numeral)
        } else if str_eq(s, PartOfSpeech::Verb.label()) {
            Some(PartOfSpeech::Verb)
        } else {
            None
        }
    }
}

impl Case {
    /// The service's label for this case.
    pub fn label(&self) -> (r: &'static str)
        ensures
            r@ == case_label(*self),
    {
        match self {
            Case::Nominative => "Nominatīvs",
            Case::Genitive => "Ģenitīvs",
            Case::Dative => "Datīvs",
            Case::Accusative => "Akuzatīvs",
            Case::Instrumental => "Instrumentālis",
            Case::Locative => "Lokatīvs",
            Case::Vocative => "Vokatīvs",
        }
    }

    /// The case whose label is `s`.
    pub fn from_label(s: &str) -> (r: Option<Case>)
        ensures
            r == case_of(s@),
    {
        if str_eq(s, Case::Nominative.label()) {
            Some(Case::Nominative)
        } else if str_eq(s, Case::Genitive.label()) {
            Some(Case::Genitive)
        } else if str_eq(s, Case::Dative.label()) {
            Some(Case::Dative)
        } else if str_eq(s, Case::Accusative.label()) {
            Some(Case::Accusative)
        } else if str_eq(s, Case::Instrumental.label()) {
            Some(Case::Instrumental)
        } else if str_eq(s, Case::Locative.label()) {
            Some(Case::Locative)
        } else if str_eq(s, Case::Vocative.label()) {
            Some(Case::Vocative)
        } else {
            None
        }
    }
}

/// Translates `label` into a variant of `domain`; a label outside the
/// domain's set is an `UnknownLabel` error carrying the domain and the label.
pub fn translate(label: &str, domain: Domain) -> (r: Result<Variant, TezaursApiError>)
    ensures
        match translated(label@, domain) {
            Some(v) => r == Ok::<Variant, TezaursApiError>(v),
            None => r matches Err(TezaursApiError::UnknownLabel(d, l)) && d == domain && l@ == label@,
        },
{
    let found = match domain {
        Domain::Case => match Case::from_label(label) {
            Some(c) => Some(Variant::Case(c)),
            None => None,
        },
        Domain::Gender => match Gender::from_label(label) {
            Some(g) => Some(Variant::Gender(g)),
            None => None,
        },
        Domain::Number => match Number::from_label(label) {
            Some(n) => Some(Variant::Number(n)),
            None => None,
        },
        Domain::PartOfSpeech => match PartOfSpeech::from_label(label) {
            Some(p) => Some(Variant::PartOfSpeech(p)),
            None => None,
        },
    };
    match found {
        Some(v) => Ok(v),
        None => Err(TezaursApiError::UnknownLabel(domain, label.to_string())),
    }
}

/// Each label names one value: translating the label of a value gives that
/// value back, in each of the four domains.
pub proof fn lemma_labels_round_trip(n: Number, g: Gender, p: PartOfSpeech, c: Case)
    ensures
        number_of(number_label(n)) == Some(n),
        gender_of(gender_label(g)) == Some(g),
        pos_of(pos_label(p)) == Some(p),
        case_of(case_label(c)) == Some(c),
{
    broadcast use vstd::string::group_string_axioms;
    reveal_strlit("Vienskaitlis");
    reveal_strlit("Daudzskaitlis");
    reveal_strlit("Sieviešu");
    reveal_strlit("Vīriešu");
    reveal_strlit("Lietvārds");
    reveal_strlit("Īpašības vārds");
    reveal_strlit("Skaitļa vārds");
    reveal_strlit("Darbības vārds");
    reveal_strlit("Nominatīvs");
    reveal_strlit("Ģenitīvs");
    reveal_strlit("Datīvs");
    reveal_strlit("Akuzatīvs");
    reveal_strlit("Instrumentālis");
    reveal_strlit("Lokatīvs");
    reveal_strlit("Vokatīvs");
    assert("Vienskaitlis"@.len() == 12 && "Vienskaitlis"@[0] == 'V');
    assert("Daudzskaitlis"@.len() == 13 && "Daudzskaitlis"@[0] == 'D');
    assert("Sieviešu"@.len() == 8 && "Sieviešu"@[0] == 'S');
    assert("Vīriešu"@.len() == 7 && "Vīriešu"@[0] == 'V');
    assert("Lietvārds"@.len() == 9 && "Lietvārds"@[0] == 'L');
    assert("Īpašības vārds"@.len() == 14 && "Īpašības vārds"@[0] == 'Ī');
    assert("Skaitļa vārds"@.len() == 13 && "Skaitļa vārds"@[0] == 'S');
    assert("Darbības vārds"@.len() == 14 && "Darbības vārds"@[0] == 'D');
    assert("Nominatīvs"@.len() == 10 && "Nominatīvs"@[0] == 'N');
    assert("Ģenitīvs"@.len() == 8 && "Ģenitīvs"@[0] == 'Ģ');
    assert("Datīvs"@.len() == 6 && "Datīvs"@[0] == 'D');
    assert("Akuzatīvs"@.len() == 9 && "Akuzatīvs"@[0] == 'A');
    assert("Instrumentālis"@.len() == 14 && "Instrumentālis"@[0] == 'I');
    assert("Lokatīvs"@.len() == 8 && "Lokatīvs"@[0] == 'L');
    assert("Vokatīvs"@.len() == 8 && "Vokatīvs"@[0] == 'V');
}

/// A label is refused exactly when no value of the domain is spelled so.
pub proof fn lemma_unknown_label(s: Seq<char>, domain: Domain)
    ensures
        translated(s, domain) is None <==> match domain {
            Domain::Case => forall|c: Case| case_label(c) != s,
            Domain::Gender => forall|g: Gender| gender_label(g) != s,
            Domain::Number => forall|n: Number| number_label(n) != s,
            Domain::PartOfSpeech => forall|p: PartOfSpeech| pos_label(p) != s,
        },
{
    match domain {
        Domain::Case => {
            if exists|c: Case| case_label(c) == s {
                let c = choose|c: Case| case_label(c) == s;
                lemma_labels_round_trip(Number::Singular, Gender::Female, PartOfSpeech::Noun, c);
            }
        },
        Domain::Gender => {
            if exists|g: Gender| gender_label(g) == s {
                let g = choose|g: Gender| gender_label(g) == s;
                lemma_labels_round_trip(Number::Singular, g, PartOfSpeech::Noun, Case::Nominative);
            }
        },
        Domain::Number => {
            if exists|n: Number| number_label(n) == s {
                let n = choose|n: Number| number_label(n) == s;
                lemma_labels_round_trip(n, Gender::Female, PartOfSpeech::Noun, Case::Nominative);
            }
        },
        Domain::PartOfSpeech => {
            if exists|p: PartOfSpeech| pos_label(p) == s {
                let p = choose|p: PartOfSpeech| pos_label(p) == s;
                lemma_labels_round_trip(Number::Singular, Gender::Female, p, Case::Nominative);
            }
        },
    }
}

} // verus!
