//! Encoding of the typed values back into JSON, the inverse of decoding.
use vstd::prelude::*;
use crate::json::{Json, lookup};
use crate::error::TezaursApiError;
use crate::model::{AnalyzedWord, Inflection, Paradigm, Token};
use crate::labels::{lemma_labels_round_trip, Gender, Number, PartOfSpeech};
use crate::inflect::{has_case, inflections_of, inflections_of_entries};
use crate::numeric::{decimal, decimal_string};
use crate::records::{
    analyzed_word_of, paradigm_of, token_of, KEY_BASE_FORM, KEY_CASE, KEY_DECLENSION,
    KEY_DESCRIPTION, KEY_ENDING, KEY_ENTRY_ID, KEY_ENTRY_NAME, KEY_FREE_TEXT, KEY_GENDER,
    KEY_GROUP, KEY_ID, KEY_LEXEME, KEY_MENTION, KEY_NUMBER, KEY_PART_OF_SPEECH, KEY_SOURCE,
    KEY_SWAP, KEY_TAG, KEY_WORD,
};

verus! {

/// The field names differ pairwise in length, first or last character.
pub proof fn lemma_key_shapes()
    ensures
        KEY_WORD@.len() == 5 && KEY_WORD@[0] == 'V' && KEY_WORD@[4] == 's',
        KEY_TAG@.len() == 9 && KEY_TAG@[0] == 'M' && KEY_TAG@[8] == 's',
        KEY_BASE_FORM@.len() == 10 && KEY_BASE_FORM@[0] == 'P' && KEY_BASE_FORM@[9] == 'a',
        KEY_ID@.len() == 2 && KEY_ID@[0] == 'I' && KEY_ID@[1] == 'D',
        KEY_DESCRIPTION@.len() == 11 && KEY_DESCRIPTION@[0] == 'D' && KEY_DESCRIPTION@[10] == 'n',
        KEY_NUMBER@.len() == 8 && KEY_NUMBER@[0] == 'S' && KEY_NUMBER@[7] == 's',
        KEY_ENTRY_ID@.len() == 10 && KEY_ENTRY_ID@[0] == 'Š' && KEY_ENTRY_ID@[9] == 'D',
        KEY_ENTRY_NAME@.len() == 25 && KEY_ENTRY_NAME@[0] == 'Š' && KEY_ENTRY_NAME@[24] == 'D',
        KEY_LEXEME@.len() == 11 && KEY_LEXEME@[0] == 'L' && KEY_LEXEME@[10] == 'r',
        KEY_FREE_TEXT@.len() == 8 && KEY_FREE_TEXT@[0] == 'F' && KEY_FREE_TEXT@[7] == 't',
        KEY_ENDING@.len() == 11 && KEY_ENDING@[0] == 'G' && KEY_ENDING@[10] == 'r',
        KEY_SOURCE@.len() == 5 && KEY_SOURCE@[0] == 'A' && KEY_SOURCE@[4] == 's',
        KEY_PART_OF_SPEECH@.len() == 9 && KEY_PART_OF_SPEECH@[0] == 'V' && KEY_PART_OF_SPEECH@[8] == 'a',
        KEY_SWAP@.len() == 4 && KEY_SWAP@[0] == 'M' && KEY_SWAP@[3] == 'a',
        KEY_MENTION@.len() == 8 && KEY_MENTION@[0] == 'M' && KEY_MENTION@[7] == 'a',
        KEY_CASE@.len() == 8 && KEY_CASE@[0] == 'L' && KEY_CASE@[7] == 's',
        KEY_GENDER@.len() == 6 && KEY_GENDER@[0] == 'D' && KEY_GENDER@[5] == 'e',
        KEY_GROUP@.len() == 13 && KEY_GROUP@[0] == 'V' && KEY_GROUP@[12] == 'r',
        KEY_DECLENSION@.len() == 11 && KEY_DECLENSION@[0] == 'D' && KEY_DECLENSION@[10] == 'a',
{
    reveal_strlit("Vārds");
    reveal_strlit("Marķējums");
    reveal_strlit("Pamatforma");
    reveal_strlit("ID");
    reveal_strlit("Description");
    reveal_strlit("Skaitlis");
    reveal_strlit("Šķirkļa ID");
    reveal_strlit("Šķirkļa cilvēklasāmais ID");
    reveal_strlit("Leksēmas nr");
    reveal_strlit("FreeText");
    reveal_strlit("Galotnes nr");
    reveal_strlit("Avots");
    reveal_strlit("Vārdšķira");
    reveal_strlit("Mija");
    reveal_strlit("Minēšana");
    reveal_strlit("Locījums");
    reveal_strlit("Dzimte");
    reveal_strlit("Vārdgrupas nr");
    reveal_strlit("Deklinācija");
}

/// The entry at `i` is found when no earlier entry has its key.
pub proof fn lemma_lookup_at(es: Seq<(String, Json)>, key: Seq<char>, i: int)
    requires
        0 <= i < es.len(),
        es[i].0@ == key,
        forall|k: int| 0 <= k < i ==> (#[trigger] es[k]).0@ != key,
    ensures
        lookup(es, key) == Some(es[i].1),
    decreases i,
{
    if i > 0 {
        let rest = es.drop_first();
        assert forall|k: int| 0 <= k < i - 1 implies (#[trigger] rest[k]).0@ != key by {
            assert(rest[k] == es[k + 1]);
        }
        lemma_lookup_at(rest, key, i - 1);
    }
}

/// An entry whose key is a field name.
fn field(key: &'static str, value: Json) -> (r: (String, Json))
    ensures
        r.0@ == key@,
        r.1 == value,
{
    (String::from_str(key), value)
}

fn text(s: &String) -> (r: Json)
    ensures
        r == Json::Str(*s),
{
    Json::Str(s.clone())
}

fn opt_text(s: &Option<String>) -> (r: Option<Json>)
    ensures
        match s {
            Some(t) => r == Some(Json::Str(*t)),
            None => r is None,
        },
{
    match s {
        Some(t) => Some(Json::Str(t.clone())),
        None => None,
    }
}

fn num_text(n: usize) -> (r: Json)
    ensures
        r matches Json::Str(t) && decimal(t@) == Some(n),
{
    Json::Str(decimal_string(n))
}

fn opt_num_text(n: Option<usize>) -> (r: Option<Json>)
    ensures
        match n {
            Some(v) => r matches Some(Json::Str(t)) && decimal(t@) == Some(v),
            None => r is None,
        },
{
    match n {
        Some(v) => Some(num_text(v)),
        None => None,
    }
}

/// Appends the entry `key: v` where there is a value, and nothing where
/// there is none.
fn push_optional(o: &mut Vec<(String, Json)>, key: &'static str, v: Option<Json>)
    ensures
        match v {
            Some(x) => final(o)@.len() == old(o)@.len() + 1 && final(o)@.drop_last() == old(o)@
                && final(o)@.last().0@ == key@ && final(o)@.last().1 == x,
            None => final(o)@ == old(o)@,
        },
{
    match v {
        Some(x) => o.push(field(key, x)),
        None => {},
    }
}

/// Looking a key up after an append: an earlier entry wins, else the new one.
pub proof fn lemma_lookup_push(es: Seq<(String, Json)>, e: (String, Json))
    ensures
        forall|key: Seq<char>| #[trigger] lookup(es.push(e), key) == if lookup(es, key) is Some {
            lookup(es, key)
        } else if e.0@ == key {
            Some(e.1)
        } else {
            None
        },
    decreases es.len(),
{
    if es.len() > 0 {
        lemma_lookup_push(es.drop_first(), e);
        assert(es.push(e).drop_first() =~= es.drop_first().push(e));
        assert forall|key: Seq<char>| #[trigger] lookup(es.push(e), key) == if lookup(es, key) is Some {
            lookup(es, key)
        } else if e.0@ == key {
            Some(e.1)
        } else {
            None
        } by {
            assert(es.push(e)[0] == es[0]);
            if es[0].0@ != key {
                assert(lookup(es.push(e), key) == lookup(es.drop_first().push(e), key));
            }
        }
    } else {
        assert(es.push(e).drop_first() =~= Seq::<(String, Json)>::empty());
        assert forall|key: Seq<char>| #[trigger] lookup(es.push(e), key) == if lookup(es, key) is Some {
            lookup(es, key)
        } else if e.0@ == key {
            Some(e.1)
        } else {
            None
        } by {
            assert(es.push(e)[0] == e);
            assert(lookup(Seq::<(String, Json)>::empty(), key) is None);
        }
    }
}

/// A key that no entry has is not found.
pub proof fn lemma_lookup_absent(es: Seq<(String, Json)>, key: Seq<char>)
    requires
        forall|i: int| 0 <= i < es.len() ==> (#[trigger] es[i]).0@ != key,
    ensures
        lookup(es, key) is None,
    decreases es.len(),
{
    if es.len() > 0 {
        let rest = es.drop_first();
        assert forall|i: int| 0 <= i < rest.len() implies (#[trigger] rest[i]).0@ != key by {
            assert(rest[i] == es[i + 1]);
        }
        lemma_lookup_absent(rest, key);
    }
}

fn label_text(label: &'static str) -> (r: Json)
    ensures
        r matches Json::Str(t) && t@ == label@,
{
    Json::Str(String::from_str(label))
}

impl Token {
    /// The JSON record of this token; decoding it gives the token back.
    pub fn to_json(&self) -> (r: Json)
        ensures
            token_of(r) == Ok::<Token, TezaursApiError>(*self),
    {
        let mut o: Vec<(String, Json)> = Vec::new();
        o.push(field(KEY_WORD, text(&self.word)));
        o.push(field(KEY_TAG, text(&self.tag)));
        o.push(field(KEY_BASE_FORM, text(&self.base_form)));
        proof {
            lemma_key_shapes();
            lemma_lookup_at(o@, KEY_WORD@, 0);
            lemma_lookup_at(o@, KEY_TAG@, 1);
            lemma_lookup_at(o@, KEY_BASE_FORM@, 2);
        }
        Json::Object(o)
    }
}

impl Paradigm {
    /// The JSON record of this paradigm; decoding it gives the paradigm back.
    pub fn to_json(&self) -> (r: Json)
        ensures
            paradigm_of(r) == Ok::<Paradigm, TezaursApiError>(*self),
    {
        let mut o: Vec<(String, Json)> = Vec::new();
        o.push(field(KEY_ID, Json::Number(decimal_string(self.id as usize))));
        o.push(field(KEY_DESCRIPTION, text(&self.description)));
        proof {
            lemma_key_shapes();
            lemma_lookup_at(o@, KEY_ID@, 0);
            lemma_lookup_at(o@, KEY_DESCRIPTION@, 1);
        }
        Json::Object(o)
    }
}

impl AnalyzedWord {
    /// The JSON record of this analysis: the required fields, then each
    /// optional field that has a value (an absent one is left out); decoding
    /// it gives the analysis back.
    #[verifier::rlimit(80)]
    pub fn to_json(&self) -> (r: Json)
        ensures
            analyzed_word_of(r) == Ok::<AnalyzedWord, TezaursApiError>(*self),
    {
        let mut o: Vec<(String, Json)> = Vec::new();
        o.push(field(KEY_NUMBER, label_text(self.number.label())));
        o.push(field(KEY_WORD, text(&self.word)));
        o.push(field(KEY_LEXEME, num_text(self.lexem)));
        o.push(field(KEY_ENDING, num_text(self.end)));
        o.push(field(KEY_PART_OF_SPEECH, label_text(self.part_of_speech.label())));
        o.push(field(KEY_SWAP, num_text(self.swap)));
        o.push(field(KEY_MENTION, text(&self.mention)));
        o.push(field(KEY_BASE_FORM, text(&self.basic_form)));
        o.push(field(KEY_CASE, label_text(self.case.label())));
        o.push(field(KEY_GENDER, label_text(self.gender.label())));
        o.push(field(KEY_GROUP, num_text(self.group)));
        o.push(field(KEY_DECLENSION, num_text(self.declination)));
        let ghost base = o@;
        proof {
            lemma_key_shapes();
            lemma_lookup_absent(base, KEY_ENTRY_ID@);
            lemma_lookup_absent(base, KEY_ENTRY_NAME@);
            lemma_lookup_absent(base, KEY_FREE_TEXT@);
            lemma_lookup_absent(base, KEY_SOURCE@);
        }
        let ghost o0 = o@;
        push_optional(&mut o, KEY_ENTRY_ID, opt_num_text(self.id));
        proof {
            if o@.len() > o0.len() {
                assert(o@ == o0.push(o@.last()));
                lemma_lookup_push(o0, o@.last());
            }
        }
        let ghost o1 = o@;
        push_optional(&mut o, KEY_ENTRY_NAME, opt_text(&self.word_id));
        proof {
            if o@.len() > o1.len() {
                assert(o@ == o1.push(o@.last()));
                lemma_lookup_push(o1, o@.last());
            }
        }
        let ghost o2 = o@;
        push_optional(&mut o, KEY_FREE_TEXT, opt_text(&self.free_text));
        proof {
            if o@.len() > o2.len() {
                assert(o@ == o2.push(o@.last()));
                lemma_lookup_push(o2, o@.last());
            }
        }
        let ghost o3 = o@;
        push_optional(&mut o, KEY_SOURCE, opt_text(&self.source));
        proof {
            if o@.len() > o3.len() {
                assert(o@ == o3.push(o@.last()));
                lemma_lookup_push(o3, o@.last());
            }
            lemma_labels_round_trip(self.number, self.gender, self.part_of_speech, self.case);
            assert(o@.subrange(0, 12) == base);
            lemma_lookup_at(o@, KEY_NUMBER@, 0);
            lemma_lookup_at(o@, KEY_WORD@, 1);
            lemma_lookup_at(o@, KEY_LEXEME@, 2);
            lemma_lookup_at(o@, KEY_ENDING@, 3);
            lemma_lookup_at(o@, KEY_PART_OF_SPEECH@, 4);
            lemma_lookup_at(o@, KEY_SWAP@, 5);
            lemma_lookup_at(o@, KEY_MENTION@, 6);
            lemma_lookup_at(o@, KEY_BASE_FORM@, 7);
            lemma_lookup_at(o@, KEY_CASE@, 8);
            lemma_lookup_at(o@, KEY_GENDER@, 9);
            lemma_lookup_at(o@, KEY_GROUP@, 10);
            lemma_lookup_at(o@, KEY_DECLENSION@, 11);
        }
        Json::Object(o)
    }
}

/// The label-to-sentence mapping of a collection of inflections with
/// pairwise distinct cases; decoding it gives the collection back, in order.
pub fn inflections_to_json(v: &Vec<Inflection>) -> (r: Json)
    requires
        forall|i: int, k: int| 0 <= i < k < v@.len() ==> (#[trigger] v@[i]).case != (#[trigger] v@[k]).case,
    ensures
        inflections_of(r) == Ok::<Seq<Inflection>, TezaursApiError>(v@),
{
    let mut o: Vec<(String, Json)> = Vec::new();
    let mut i: usize = 0;
    assert(v@.subrange(0, 0) =~= Seq::<Inflection>::empty());
    while i < v.len()
        invariant
            i <= v@.len(),
            o@.len() == i,
            forall|a: int, b: int| 0 <= a < b < v@.len() ==> (#[trigger] v@[a]).case != (#[trigger] v@[b]).case,
            inflections_of_entries(o@) == Ok::<Seq<Inflection>, TezaursApiError>(v@.subrange(0, i as int)),
        decreases v.len() - i,
    {
        let c = v[i].case;
        let ghost before = o@;
        o.push((String::from_str(c.label()), Json::Str(v[i].sentence.clone())));
        proof {
            lemma_labels_round_trip(Number::Singular, Gender::Female, PartOfSpeech::Noun, c);
            assert(o@.drop_last() =~= before);
            let p = v@.subrange(0, i as int);
            if has_case(p, c) {
                let k = choose|k: int| 0 <= k < p.len() && (#[trigger] p[k]).case == c;
                assert(v@[k].case == v@[i as int].case);
            }
            assert(v@.subrange(0, i + 1) =~= p.push(v@[i as int]));
        }
        i = i + 1;
    }
    assert(v@.subrange(0, v@.len() as int) =~= v@);
    Json::Object(o)
}

} // verus!
