//! Decoding of the fixed-shape records and of lists of them.
use vstd::prelude::*;
use crate::json::{Json, found_of, lookup, parsed, parse_json};
use crate::error::{TezaursApiError, Location, DecodeReason};
use crate::labels::{Domain, translated};
use crate::numeric::all_digits;
use crate::model::{AnalyzedWord, Paradigm, Token};
use crate::fields::{
    case_field, field_error, gender_field, lemma_non_digit_number, num_field, number_field,
    opt_num_field, opt_str_field, pos_field, str_field, u32_field, get_case, get_gender, get_number,
    get_opt_num, get_opt_str, get_pos, get_required_num, get_str, get_u32,
};

verus! {

pub const KEY_WORD: &'static str = "Vārds";
pub const KEY_TAG: &'static str = "Marķējums";
pub const KEY_BASE_FORM: &'static str = "Pamatforma";
pub const KEY_ID: &'static str = "ID";
pub const KEY_DESCRIPTION: &'static str = "Description";
pub const KEY_NUMBER: &'static str = "Skaitlis";
pub const KEY_ENTRY_ID: &'static str = "Šķirkļa ID";
pub const KEY_ENTRY_NAME: &'static str = "Šķirkļa cilvēklasāmais ID";
pub const KEY_LEXEME: &'static str = "Leksēmas nr";
pub const KEY_FREE_TEXT: &'static str = "FreeText";
pub const KEY_ENDING: &'static str = "Galotnes nr";
pub const KEY_SOURCE: &'static str = "Avots";
pub const KEY_PART_OF_SPEECH: &'static str = "Vārdšķira";
pub const KEY_SWAP: &'static str = "Mija";
pub const KEY_MENTION: &'static str = "Minēšana";
pub const KEY_CASE: &'static str = "Locījums";
pub const KEY_GENDER: &'static str = "Dzimte";
pub const KEY_GROUP: &'static str = "Vārdgrupas nr";
pub const KEY_DECLENSION: &'static str = "Deklinācija";

/// The error for a value that is not of the expected JSON kind as a whole.
pub open spec fn shape_error(j: Json) -> TezaursApiError {
    TezaursApiError::DecodeError(Location::Root, DecodeReason::WrongType(found_of(j)))
}

/// The token that a JSON object describes.
pub open spec fn token_of(j: Json) -> Result<Token, TezaursApiError> {
    match j {
        Json::Object(o) => {
            let word = str_field(o@, KEY_WORD);
            let tag = str_field(o@, KEY_TAG);
            let base = str_field(o@, KEY_BASE_FORM);
            if word is Err {
                Err(word->Err_0)
            } else if tag is Err {
                Err(tag->Err_0)
            } else if base is Err {
                Err(base->Err_0)
            } else {
                Ok(Token { word: word->Ok_0, tag: tag->Ok_0, base_form: base->Ok_0 })
            }
        },
        _ => Err(shape_error(j)),
    }
}

/// The paradigm that a JSON object describes.
pub open spec fn paradigm_of(j: Json) -> Result<Paradigm, TezaursApiError> {
    match j {
        Json::Object(o) => {
            let id = u32_field(o@, KEY_ID);
            let description = str_field(o@, KEY_DESCRIPTION);
            if id is Err {
                Err(id->Err_0)
            } else if description is Err {
                Err(description->Err_0)
            } else {
                Ok(Paradigm { id: id->Ok_0, description: description->Ok_0 })
            }
        },
        _ => Err(shape_error(j)),
    }
}

/// The analysis that a JSON object describes. The required fields are checked
/// in declaration order and the first failure is reported; the optional ones
/// never fail.
pub open spec fn analyzed_word_of(j: Json) -> Result<AnalyzedWord, TezaursApiError> {
    match j {
        Json::Object(o) => {
            let number = number_field(o@, KEY_NUMBER);
            let word = str_field(o@, KEY_WORD);
            let lexem = num_field(o@, KEY_LEXEME);
            let end = num_field(o@, KEY_ENDING);
            let pos = pos_field(o@, KEY_PART_OF_SPEECH);
            let swap = num_field(o@, KEY_SWAP);
            let mention = str_field(o@, KEY_MENTION);
            let basic = str_field(o@, KEY_BASE_FORM);
            let case = case_field(o@, KEY_CASE);
            let gender = gender_field(o@, KEY_GENDER);
            let group = num_field(o@, KEY_GROUP);
            let decl = num_field(o@, KEY_DECLENSION);
            if number is Err {
                Err(number->Err_0)
            } else if word is Err {
                Err(word->Err_0)
            } else if lexem is Err {
                Err(lexem->Err_0)
            } else if end is Err {
                Err(end->Err_0)
            } else if pos is Err {
                Err(pos->Err_0)
            } else if swap is Err {
                Err(swap->Err_0)
            } else if mention is Err {
                Err(mention->Err_0)
            } else if basic is Err {
                Err(basic->Err_0)
            } else if case is Err {
                Err(case->Err_0)
            } else if gender is Err {
                Err(gender->Err_0)
            } else if group is Err {
                Err(group->Err_0)
            } else if decl is Err {
                Err(decl->Err_0)
            } else {
                Ok(AnalyzedWord {
                    number: number->Ok_0,
                    id: opt_num_field(o@, KEY_ENTRY_ID),
                    word: word->Ok_0,
                    word_id: opt_str_field(o@, KEY_ENTRY_NAME),
                    lexem: lexem->Ok_0,
                    free_text: opt_str_field(o@, KEY_FREE_TEXT),
                    end: end->Ok_0,
                    source: opt_str_field(o@, KEY_SOURCE),
                    part_of_speech: pos->Ok_0,
                    swap: swap->Ok_0,
                    mention: mention->Ok_0,
                    basic_form: basic->Ok_0,
                    case: case->Ok_0,
                    gender: gender->Ok_0,
                    group: group->Ok_0,
                    declination: decl->Ok_0,
                })
            }
        },
        _ => Err(shape_error(j)),
    }
}

/// A field outcome with its value dropped.
pub open spec fn unit<T>(r: Result<T, TezaursApiError>) -> Result<(), TezaursApiError> {
    match r {
        Ok(_) => Ok(()),
        Err(e) => Err(e),
    }
}

/// The required fields of an analysis record, in the order in which they
/// are checked.
pub open spec fn required_keys() -> Seq<&'static str> {
    seq![KEY_NUMBER, KEY_WORD, KEY_LEXEME, KEY_ENDING, KEY_PART_OF_SPEECH, KEY_SWAP, KEY_MENTION, KEY_BASE_FORM, KEY_CASE, KEY_GENDER, KEY_GROUP, KEY_DECLENSION]
}

/// The outcomes of the required fields of an analysis record, in the order
/// of `required_keys`.
pub open spec fn required_outcomes(o: Seq<(String, Json)>) -> Seq<Result<(), TezaursApiError>> {
    seq![
        unit(number_field(o, KEY_NUMBER)),
        unit(str_field(o, KEY_WORD)),
        unit(num_field(o, KEY_LEXEME)),
        unit(num_field(o, KEY_ENDING)),
        unit(pos_field(o, KEY_PART_OF_SPEECH)),
        unit(num_field(o, KEY_SWAP)),
        unit(str_field(o, KEY_MENTION)),
        unit(str_field(o, KEY_BASE_FORM)),
        unit(case_field(o, KEY_CASE)),
        unit(gender_field(o, KEY_GENDER)),
        unit(num_field(o, KEY_GROUP)),
        unit(num_field(o, KEY_DECLENSION)),
    ]
}

/// An analysis record decodes exactly when all its required fields do; where
/// exactly one of them fails, the record fails with that field's error.
pub proof fn lemma_analyzed_word_outcomes(j: Json)
    requires
        j is Object,
    ensures
        (forall|m: int| 0 <= m < 12 ==> (#[trigger] required_outcomes(j->Object_0@)[m]) is Ok)
            <==> analyzed_word_of(j) is Ok,
        forall|k: int| #![trigger required_outcomes(j->Object_0@)[k]]
            0 <= k < 12 && required_outcomes(j->Object_0@)[k] is Err
            && (forall|m: int| 0 <= m < 12 && m != k ==> (#[trigger] required_outcomes(j->Object_0@)[m]) is Ok)
            ==> analyzed_word_of(j) == Err::<AnalyzedWord, TezaursApiError>(required_outcomes(j->Object_0@)[k]->Err_0),
{
    let o = j->Object_0@;
    let outs = required_outcomes(o);
    assert(outs[0] == unit(number_field(o, KEY_NUMBER)));
    assert(outs[1] == unit(str_field(o, KEY_WORD)));
    assert(outs[2] == unit(num_field(o, KEY_LEXEME)));
    assert(outs[3] == unit(num_field(o, KEY_ENDING)));
    assert(outs[4] == unit(pos_field(o, KEY_PART_OF_SPEECH)));
    assert(outs[5] == unit(num_field(o, KEY_SWAP)));
    assert(outs[6] == unit(str_field(o, KEY_MENTION)));
    assert(outs[7] == unit(str_field(o, KEY_BASE_FORM)));
    assert(outs[8] == unit(case_field(o, KEY_CASE)));
    assert(outs[9] == unit(gender_field(o, KEY_GENDER)));
    assert(outs[10] == unit(num_field(o, KEY_GROUP)));
    assert(outs[11] == unit(num_field(o, KEY_DECLENSION)));
}

/// The label domain of the required field at position `k` of
/// `required_keys`, where that field is a label.
pub open spec fn label_domain(k: int) -> Option<Domain> {
    if k == 0 {
        Some(Domain::Number)
    } else if k == 4 {
        Some(Domain::PartOfSpeech)
    } else if k == 8 {
        Some(Domain::Case)
    } else if k == 9 {
        Some(Domain::Gender)
    } else {
        None
    }
}

/// A record whose one faulty required field is a number written as text
/// that is not all digits fails with an error that names the field and
/// carries the text.
pub proof fn lemma_record_non_digit_number(j: Json, k: int, s: String)
    requires
        j is Object,
        k == 2 || k == 3 || k == 5 || k == 10 || k == 11,
        lookup(j->Object_0@, required_keys()[k]@) == Some(Json::Str(s)),
        !all_digits(s@),
        forall|m: int| 0 <= m < 12 && m != k ==> (#[trigger] required_outcomes(j->Object_0@)[m]) is Ok,
    ensures
        analyzed_word_of(j) == Err::<AnalyzedWord, TezaursApiError>(
            field_error(required_keys()[k], DecodeReason::NotANumber(s)),
        ),
{
    let o = j->Object_0@;
    lemma_non_digit_number(o, required_keys()[k], s);
    assert(required_outcomes(o)[k] == unit(num_field(o, required_keys()[k])));
    lemma_analyzed_word_outcomes(j);
}

/// A record whose one faulty required field is a label outside its domain's
/// set fails with an error that names the field, the domain and the label.
pub proof fn lemma_record_unknown_label(j: Json, k: int, s: String)
    requires
        j is Object,
        label_domain(k) is Some,
        lookup(j->Object_0@, required_keys()[k]@) == Some(Json::Str(s)),
        translated(s@, label_domain(k)->Some_0) is None,
        forall|m: int| 0 <= m < 12 && m != k ==> (#[trigger] required_outcomes(j->Object_0@)[m]) is Ok,
    ensures
        analyzed_word_of(j) == Err::<AnalyzedWord, TezaursApiError>(
            field_error(required_keys()[k], DecodeReason::UnknownLabel(label_domain(k)->Some_0, s)),
        ),
{
    let o = j->Object_0@;
    assert(required_outcomes(o)[k] is Err);
    lemma_analyzed_word_outcomes(j);
}

/// A record whose required fields all decode, and whose optional entry id
/// is text that is not all digits, decodes with no entry id.
pub proof fn lemma_record_non_digit_optional(j: Json, s: String)
    requires
        j is Object,
        lookup(j->Object_0@, KEY_ENTRY_ID@) == Some(Json::Str(s)),
        !all_digits(s@),
        forall|m: int| 0 <= m < 12 ==> (#[trigger] required_outcomes(j->Object_0@)[m]) is Ok,
    ensures
        analyzed_word_of(j) matches Ok(w) && w.id is None,
{
    lemma_non_digit_number(j->Object_0@, KEY_ENTRY_ID, s);
    lemma_analyzed_word_outcomes(j);
}

/// Where the item at position `i` is the first that fails, the list fails
/// with that item's error, located at `i`.
pub proof fn lemma_all_of_first_failure<T>(items: Seq<Json>, f: spec_fn(Json) -> Result<T, TezaursApiError>, i: int)
    requires
        0 <= i < items.len(),
        f(items[i]) is Err,
        forall|m: int| 0 <= m < i ==> (#[trigger] f(items[m])) is Ok,
    ensures
        all_of(items, f) == Err::<Seq<T>, TezaursApiError>(at_item(i as usize, f(items[i])->Err_0)),
{
    let pre = items.subrange(0, i);
    assert forall|m: int| 0 <= m < pre.len() implies (#[trigger] f(pre[m])) is Ok by {
        assert(pre[m] == items[m]);
    }
    lemma_all_of_items(pre, f);
    let upto = items.subrange(0, i + 1);
    assert(upto.drop_last() =~= pre);
    assert(upto.last() == items[i]);
    lemma_all_of_failure_stays(items, i + 1, f);
}

/// A failure of the item at position `i` of a list, located there.
pub open spec fn at_item(i: usize, e: TezaursApiError) -> TezaursApiError {
    match e {
        TezaursApiError::DecodeError(Location::Root, r) => TezaursApiError::DecodeError(Location::Item(i), r),
        TezaursApiError::DecodeError(Location::Field(k), r) => TezaursApiError::DecodeError(Location::ItemField(i, k), r),
        _ => e,
    }
}

/// Locates the failure of the item at position `i` of a list.
pub fn item_error(i: usize, e: TezaursApiError) -> (r: TezaursApiError)
    ensures
        r == at_item(i, e),
{
    match e {
        TezaursApiError::DecodeError(Location::Root, r) => TezaursApiError::DecodeError(Location::Item(i), r),
        TezaursApiError::DecodeError(Location::Field(k), r) => TezaursApiError::DecodeError(Location::ItemField(i, k), r),
        _ => e,
    }
}

/// Each item decoded by `f`, in order; the first failing item fails the
/// whole, with its failure located at its position.
pub open spec fn all_of<T>(items: Seq<Json>, f: spec_fn(Json) -> Result<T, TezaursApiError>) -> Result<Seq<T>, TezaursApiError>
    decreases items.len(),
{
    if items.len() == 0 {
        Ok(Seq::empty())
    } else {
        match all_of(items.drop_last(), f) {
            Err(e) => Err(e),
            Ok(p) => match f(items.last()) {
                Err(e) => Err(at_item((items.len() - 1) as usize, e)),
                Ok(x) => Ok(p.push(x)),
            },
        }
    }
}

/// A failure among the first `n` items is the failure of the whole list.
pub proof fn lemma_all_of_failure_stays<T>(items: Seq<Json>, n: int, f: spec_fn(Json) -> Result<T, TezaursApiError>)
    requires
        0 <= n <= items.len(),
        all_of(items.subrange(0, n), f) is Err,
    ensures
        all_of(items, f) == all_of(items.subrange(0, n), f),
    decreases items.len() - n,
{
    if items.len() == n {
        assert(items.subrange(0, n) =~= items);
    } else {
        let shorter = items.drop_last();
        assert(shorter.subrange(0, n) =~= items.subrange(0, n));
        lemma_all_of_failure_stays(shorter, n, f);
    }
}

/// A list decodes exactly when each of its items does, to the items' values
/// in order.
pub proof fn lemma_all_of_items<T>(items: Seq<Json>, f: spec_fn(Json) -> Result<T, TezaursApiError>)
    ensures
        (forall|i: int| 0 <= i < items.len() ==> (#[trigger] f(items[i])) is Ok) <==> all_of(items, f) is Ok,
        all_of(items, f) matches Ok(p) ==> p.len() == items.len() && forall|i: int|
            0 <= i < items.len() ==> (#[trigger] f(items[i])) == Ok::<T, TezaursApiError>(p[i]),
    decreases items.len(),
{
    if items.len() > 0 {
        let shorter = items.drop_last();
        lemma_all_of_items(shorter, f);
        assert forall|i: int| 0 <= i < shorter.len() implies #[trigger] shorter[i] == items[i] by {}
        if all_of(items, f) is Ok {
            let p = all_of(items, f)->Ok_0;
            let q = all_of(shorter, f)->Ok_0;
            assert forall|i: int| 0 <= i < items.len() implies (#[trigger] f(items[i])) == Ok::<T, TezaursApiError>(p[i]) by {
                if i < items.len() - 1 {
                    assert(f(shorter[i]) == Ok::<T, TezaursApiError>(q[i]));
                }
            }
        } else if forall|i: int| 0 <= i < items.len() ==> (#[trigger] f(items[i])) is Ok {
            assert(f(items[items.len() - 1]) is Ok);
            assert forall|i: int| 0 <= i < shorter.len() implies (#[trigger] f(shorter[i])) is Ok by {
                assert(f(items[i]) is Ok);
            }
        }
    }
}

/// A JSON array decoded item by item.
pub open spec fn list_of<T>(j: Json, f: spec_fn(Json) -> Result<T, TezaursApiError>) -> Result<Seq<T>, TezaursApiError> {
    match j {
        Json::Array(a) => all_of(a@, f),
        _ => Err(shape_error(j)),
    }
}

pub open spec fn token_decoder() -> spec_fn(Json) -> Result<Token, TezaursApiError> {
    |j: Json| token_of(j)
}

pub open spec fn paradigm_decoder() -> spec_fn(Json) -> Result<Paradigm, TezaursApiError> {
    |j: Json| paradigm_of(j)
}

pub open spec fn analyzed_word_decoder() -> spec_fn(Json) -> Result<AnalyzedWord, TezaursApiError> {
    |j: Json| analyzed_word_of(j)
}

/// A result with its vector seen as a sequence.
pub open spec fn seq_result<T>(r: Result<Vec<T>, TezaursApiError>) -> Result<Seq<T>, TezaursApiError> {
    match r {
        Ok(v) => Ok(v@),
        Err(e) => Err(e),
    }
}

impl Token {
    /// Decodes one token record.
    pub fn from_json(j: &Json) -> (r: Result<Token, TezaursApiError>)
        ensures
            r == token_of(*j),
    {
        match j {
            Json::Object(o) => {
                let word = get_str(o, KEY_WORD)?;
                let tag = get_str(o, KEY_TAG)?;
                let base_form = get_str(o, KEY_BASE_FORM)?;
                Ok(Token { word, tag, base_form })
            },
            _ => Err(TezaursApiError::DecodeError(Location::Root, DecodeReason::WrongType(j.found()))),
        }
    }
}

impl Paradigm {
    /// Decodes one paradigm record.
    pub fn from_json(j: &Json) -> (r: Result<Paradigm, TezaursApiError>)
        ensures
            r == paradigm_of(*j),
    {
        match j {
            Json::Object(o) => {
                let id = get_u32(o, KEY_ID)?;
                let description = get_str(o, KEY_DESCRIPTION)?;
                Ok(Paradigm { id, description })
            },
            _ => Err(TezaursApiError::DecodeError(Location::Root, DecodeReason::WrongType(j.found()))),
        }
    }
}

impl AnalyzedWord {
    /// Decodes one analysis record.
    pub fn from_json(j: &Json) -> (r: Result<AnalyzedWord, TezaursApiError>)
        ensures
            r == analyzed_word_of(*j),
    {
        match j {
            Json::Object(o) => {
                let number = get_number(o, KEY_NUMBER)?;
                let word = get_str(o, KEY_WORD)?;
                let lexem = get_required_num(o, KEY_LEXEME)?;
                let end = get_required_num(o, KEY_ENDING)?;
                let part_of_speech = get_pos(o, KEY_PART_OF_SPEECH)?;
                let swap = get_required_num(o, KEY_SWAP)?;
                let mention = get_str(o, KEY_MENTION)?;
                let basic_form = get_str(o, KEY_BASE_FORM)?;
                let case = get_case(o, KEY_CASE)?;
                let gender = get_gender(o, KEY_GENDER)?;
                let group = get_required_num(o, KEY_GROUP)?;
                let declination = get_required_num(o, KEY_DECLENSION)?;
                Ok(AnalyzedWord {
                    number,
                    id: get_opt_num(o, KEY_ENTRY_ID),
                    word,
                    word_id: get_opt_str(o, KEY_ENTRY_NAME),
                    lexem,
                    free_text: get_opt_str(o, KEY_FREE_TEXT),
                    end,
                    source: get_opt_str(o, KEY_SOURCE),
                    part_of_speech,
                    swap,
                    mention,
                    basic_form,
                    case,
                    gender,
                    group,
                    declination,
                })
            },
            _ => Err(TezaursApiError::DecodeError(Location::Root, DecodeReason::WrongType(j.found()))),
        }
    }
}

/// Decodes a JSON array of token records; one bad record fails the whole.
pub fn tokens_from_json(j: &Json) -> (r: Result<Vec<Token>, TezaursApiError>)
    ensures
        seq_result(r) == list_of(*j, token_decoder()),
{
    match j {
        Json::Array(a) => {
            let mut out: Vec<Token> = Vec::new();
            let mut i: usize = 0;
            assert(a@.subrange(0, 0) =~= Seq::<Json>::empty());
            while i < a.len()
                invariant
                    i <= a@.len(),
                    list_of(*j, token_decoder()) == all_of(a@, token_decoder()),
                    all_of(a@.subrange(0, i as int), token_decoder()) == Ok::<Seq<Token>, TezaursApiError>(out@),
                decreases a.len() - i,
            {
                assert(a@.subrange(0, i + 1).drop_last() =~= a@.subrange(0, i as int));
                match Token::from_json(&a[i]) {
                    Ok(t) => out.push(t),
                    Err(e) => {
                        proof {
                            assert(a@.subrange(0, i + 1).last() == a@[i as int]);
                            assert(all_of(a@.subrange(0, i + 1), token_decoder()) == Err::<Seq<Token>, TezaursApiError>(at_item(i, e)));
                            lemma_all_of_failure_stays(a@, i + 1, token_decoder());
                        }
                        return Err(item_error(i, e));
                    },
                }
                i = i + 1;
            }
            assert(a@.subrange(0, a@.len() as int) =~= a@);
            Ok(out)
        },
        _ => Err(TezaursApiError::DecodeError(Location::Root, DecodeReason::WrongType(j.found()))),
    }
}

/// Decodes a JSON array of paradigm records; one bad record fails the whole.
pub fn paradigms_from_json(j: &Json) -> (r: Result<Vec<Paradigm>, TezaursApiError>)
    ensures
        seq_result(r) == list_of(*j, paradigm_decoder()),
{
    match j {
        Json::Array(a) => {
            let mut out: Vec<Paradigm> = Vec::new();
            let mut i: usize = 0;
            assert(a@.subrange(0, 0) =~= Seq::<Json>::empty());
            while i < a.len()
                invariant
                    i <= a@.len(),
                    list_of(*j, paradigm_decoder()) == all_of(a@, paradigm_decoder()),
                    all_of(a@.subrange(0, i as int), paradigm_decoder()) == Ok::<Seq<Paradigm>, TezaursApiError>(out@),
                decreases a.len() - i,
            {
                assert(a@.subrange(0, i + 1).drop_last() =~= a@.subrange(0, i as int));
                match Paradigm::from_json(&a[i]) {
                    Ok(p) => out.push(p),
                    Err(e) => {
                        proof {
                            assert(a@.subrange(0, i + 1).last() == a@[i as int]);
                            assert(all_of(a@.subrange(0, i + 1), paradigm_decoder()) == Err::<Seq<Paradigm>, TezaursApiError>(at_item(i, e)));
                            lemma_all_of_failure_stays(a@, i + 1, paradigm_decoder());
                        }
                        return Err(item_error(i, e));
                    },
                }
                i = i + 1;
            }
            assert(a@.subrange(0, a@.len() as int) =~= a@);
            Ok(out)
        },
        _ => Err(TezaursApiError::DecodeError(Location::Root, DecodeReason::WrongType(j.found()))),
    }
}

/// Decodes a JSON array of analysis records; one bad record fails the whole.
pub fn analyzed_words_from_json(j: &Json) -> (r: Result<Vec<AnalyzedWord>, TezaursApiError>)
    ensures
        seq_result(r) == list_of(*j, analyzed_word_decoder()),
{
    match j {
        Json::Array(a) => {
            let mut out: Vec<AnalyzedWord> = Vec::new();
            let mut i: usize = 0;
            assert(a@.subrange(0, 0) =~= Seq::<Json>::empty());
            while i < a.len()
                invariant
                    i <= a@.len(),
                    list_of(*j, analyzed_word_decoder()) == all_of(a@, analyzed_word_decoder()),
                    all_of(a@.subrange(0, i as int), analyzed_word_decoder()) == Ok::<Seq<AnalyzedWord>, TezaursApiError>(out@),
                decreases a.len() - i,
            {
                assert(a@.subrange(0, i + 1).drop_last() =~= a@.subrange(0, i as int));
                match AnalyzedWord::from_json(&a[i]) {
                    Ok(w) => out.push(w),
                    Err(e) => {
                        proof {
                            assert(a@.subrange(0, i + 1).last() == a@[i as int]);
                            assert(all_of(a@.subrange(0, i + 1), analyzed_word_decoder()) == Err::<Seq<AnalyzedWord>, TezaursApiError>(at_item(i, e)));
                            lemma_all_of_failure_stays(a@, i + 1, analyzed_word_decoder());
                        }
                        return Err(item_error(i, e));
                    },
                }
                i = i + 1;
            }
            assert(a@.subrange(0, a@.len() as int) =~= a@);
            Ok(out)
        },
        _ => Err(TezaursApiError::DecodeError(Location::Root, DecodeReason::WrongType(j.found()))),
    }
}

/// What decoding a response text gives: `MalformedPayload` where the text is
/// not JSON, else what `decode` gives on the document.
pub open spec fn decoded_text<T>(text: Seq<char>, r: Result<Vec<T>, TezaursApiError>, decode: spec_fn(Json) -> Result<Seq<T>, TezaursApiError>) -> bool {
    match parsed(text) {
        None => r matches Err(TezaursApiError::MalformedPayload(_)),
        Some(j) => seq_result(r) == decode(j),
    }
}

/// Decodes the response of the analyze operation.
pub fn decode_analyze(raw: &str) -> (r: Result<Vec<AnalyzedWord>, TezaursApiError>)
    ensures
        decoded_text(raw@, r, |j: Json| list_of(j, analyzed_word_decoder())),
{
    match parse_json(raw) {
        Ok(j) => analyzed_words_from_json(&j),
        Err(m) => Err(TezaursApiError::MalformedPayload(m)),
    }
}

/// Decodes the response of the tokenize operation.
pub fn decode_tokenize(raw: &str) -> (r: Result<Vec<Token>, TezaursApiError>)
    ensures
        decoded_text(raw@, r, |j: Json| list_of(j, token_decoder())),
{
    match parse_json(raw) {
        Ok(j) => tokens_from_json(&j),
        Err(m) => Err(TezaursApiError::MalformedPayload(m)),
    }
}

/// Decodes the response of the suitable-paradigm operation.
pub fn decode_paradigms(raw: &str) -> (r: Result<Vec<Paradigm>, TezaursApiError>)
    ensures
        decoded_text(raw@, r, |j: Json| list_of(j, paradigm_decoder())),
{
    match parse_json(raw) {
        Ok(j) => paradigms_from_json(&j),
        Err(m) => Err(TezaursApiError::MalformedPayload(m)),
    }
}

} // verus!
