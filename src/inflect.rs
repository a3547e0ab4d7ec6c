//! Decoding of the inflect response: a mapping from case labels to sentences.
use vstd::prelude::*;
use crate::json::{Json, found_of, parsed, parse_json};
use crate::error::{TezaursApiError, Location, DecodeReason};
use crate::labels::{Case, Domain, case_of, case_label};
use crate::model::Inflection;
use crate::records::{seq_result, shape_error};

verus! {

/// Whether some inflection in `p` is for case `c`.
pub open spec fn has_case(p: Seq<Inflection>, c: Case) -> bool {
    exists|i: int| 0 <= i < p.len() && (#[trigger] p[i]).case == c
}

/// Adds the entry `k: v` to the inflections decoded so far: the key must be a
/// case label not seen before, and the value a string.
pub open spec fn inflection_step(p: Seq<Inflection>, k: String, v: Json) -> Result<Seq<Inflection>, TezaursApiError> {
    match case_of(k@) {
        None => Err(TezaursApiError::DecodeError(Location::Key(k), DecodeReason::UnknownLabel(Domain::Case, k))),
        Some(c) => match v {
            Json::Str(s) => if has_case(p, c) {
                Err(TezaursApiError::DecodeError(Location::Key(k), DecodeReason::Duplicate))
            } else {
                Ok(p.push(Inflection { case: c, sentence: s }))
            },
            _ => Err(TezaursApiError::DecodeError(Location::Key(k), DecodeReason::WrongType(found_of(v)))),
        },
    }
}

/// The inflections of a sequence of entries, taken in order; the first
/// failing entry fails the whole.
pub open spec fn inflections_of_entries(es: Seq<(String, Json)>) -> Result<Seq<Inflection>, TezaursApiError>
    decreases es.len(),
{
    if es.len() == 0 {
        Ok(Seq::empty())
    } else {
        match inflections_of_entries(es.drop_last()) {
            Err(e) => Err(e),
            Ok(p) => inflection_step(p, es.last().0, es.last().1),
        }
    }
}

/// The inflections that a JSON object describes.
pub open spec fn inflections_of(j: Json) -> Result<Seq<Inflection>, TezaursApiError> {
    match j {
        Json::Object(o) => inflections_of_entries(o@),
        _ => Err(shape_error(j)),
    }
}

/// A failure among the first `n` entries is the failure of the whole mapping.
pub proof fn lemma_inflection_failure_stays(es: Seq<(String, Json)>, n: int)
    requires
        0 <= n <= es.len(),
        inflections_of_entries(es.subrange(0, n)) is Err,
    ensures
        inflections_of_entries(es) == inflections_of_entries(es.subrange(0, n)),
    decreases es.len() - n,
{
    if es.len() == n {
        assert(es.subrange(0, n) =~= es);
    } else {
        let shorter = es.drop_last();
        assert(shorter.subrange(0, n) =~= es.subrange(0, n));
        lemma_inflection_failure_stays(shorter, n);
    }
}

/// A label names the case it is decoded to.
pub proof fn lemma_case_of_label(s: Seq<char>)
    ensures
        case_of(s) matches Some(c) ==> s == case_label(c),
{
}

/// What a successful decode of a mapping gives: one inflection per entry, in
/// the entries' order, each pairing the case that the entry's key names with
/// the entry's sentence, and no case twice. A failure is always a
/// `DecodeError`.
pub proof fn lemma_inflections_pair_entries(es: Seq<(String, Json)>)
    ensures
        inflections_of_entries(es) is Err ==> inflections_of_entries(es) matches Err(
            TezaursApiError::DecodeError(_, _),
        ),
        inflections_of_entries(es) matches Ok(p) ==> {
            &&& p.len() == es.len()
            &&& forall|i: int|
                0 <= i < es.len() ==> case_of((#[trigger] es[i]).0@) == Some(p[i].case)
                    && es[i].1 == Json::Str(p[i].sentence)
            &&& forall|i: int, k: int| 0 <= i < k < p.len() ==> (#[trigger] p[i]).case != (#[trigger] p[k]).case
        },
    decreases es.len(),
{
    if es.len() > 0 {
        let shorter = es.drop_last();
        lemma_inflections_pair_entries(shorter);
        if let Ok(p) = inflections_of_entries(es) {
            let q = inflections_of_entries(shorter)->Ok_0;
            assert(p == q.push(p.last()));
            assert forall|i: int| 0 <= i < es.len() implies case_of((#[trigger] es[i]).0@) == Some(p[i].case)
                && es[i].1 == Json::Str(p[i].sentence) by {
                if i < es.len() - 1 {
                    assert(es[i] == shorter[i]);
                }
            }
            assert forall|i: int, k: int| 0 <= i < k < p.len() implies (#[trigger] p[i]).case != (#[trigger] p[k]).case by {
                if k == p.len() - 1 {
                    assert(!has_case(q, p[k].case));
                    assert(q[i] == p[i]);
                }
            }
        }
    }
}

/// A mapping in which two entries have the same key is refused with a
/// `DecodeError`.
pub proof fn lemma_duplicate_case_rejected(es: Seq<(String, Json)>, i: int, k: int)
    requires
        0 <= i < k < es.len(),
        es[i].0@ == es[k].0@,
    ensures
        inflections_of_entries(es) matches Err(TezaursApiError::DecodeError(_, _)),
{
    lemma_inflections_pair_entries(es);
    if let Ok(p) = inflections_of_entries(es) {
        assert(case_of(es[i].0@) == Some(p[i].case));
        assert(case_of(es[k].0@) == Some(p[k].case));
        assert(p[i].case != p[k].case);
    }
}

/// A mapping whose keys are distinct case labels and whose values are strings
/// is decoded without error.
pub proof fn lemma_inflections_accepted(es: Seq<(String, Json)>)
    requires
        forall|i: int| 0 <= i < es.len() ==> (#[trigger] case_of(es[i].0@)) is Some && es[i].1 is Str,
        forall|i: int, k: int| 0 <= i < k < es.len() ==> (#[trigger] es[i]).0@ != (#[trigger] es[k]).0@,
    ensures
        inflections_of_entries(es) is Ok,
    decreases es.len(),
{
    if es.len() > 0 {
        let shorter = es.drop_last();
        assert forall|i: int| 0 <= i < shorter.len() implies (#[trigger] case_of(shorter[i].0@)) is Some && shorter[i].1 is Str by {
            assert(shorter[i] == es[i]);
        }
        assert forall|i: int, k: int| 0 <= i < k < shorter.len() implies (#[trigger] shorter[i]).0@ != (#[trigger] shorter[k]).0@ by {
            assert(shorter[i] == es[i] && shorter[k] == es[k]);
        }
        lemma_inflections_accepted(shorter);
        lemma_inflections_pair_entries(shorter);
        let q = inflections_of_entries(shorter)->Ok_0;
        let last = es.len() - 1;
        assert(case_of(es[last].0@) is Some);
        let c = case_of(es[last].0@)->Some_0;
        if has_case(q, c) {
            let i = choose|i: int| 0 <= i < q.len() && (#[trigger] q[i]).case == c;
            assert(shorter[i] == es[i]);
            lemma_case_of_label(es[i].0@);
            lemma_case_of_label(es[last].0@);
            assert(es[i].0@ != es[last].0@);
        }
    }
}

/// A key outside the case labels, after entries that decode, fails the whole
/// mapping with an error naming that key: it is never dropped nor read as
/// some case.
pub proof fn lemma_unknown_case_key_reported(es: Seq<(String, Json)>, n: int)
    requires
        0 <= n < es.len(),
        case_of(es[n].0@) is None,
        forall|i: int| 0 <= i < n ==> (#[trigger] case_of(es[i].0@)) is Some && es[i].1 is Str,
        forall|i: int, k: int| 0 <= i < k < n ==> (#[trigger] es[i]).0@ != (#[trigger] es[k]).0@,
    ensures
        inflections_of_entries(es) == Err::<Seq<Inflection>, TezaursApiError>(
            TezaursApiError::DecodeError(Location::Key(es[n].0), DecodeReason::UnknownLabel(Domain::Case, es[n].0)),
        ),
{
    let pre = es.subrange(0, n);
    assert forall|i: int| 0 <= i < pre.len() implies (#[trigger] case_of(pre[i].0@)) is Some && pre[i].1 is Str by {
        assert(pre[i] == es[i]);
    }
    assert forall|i: int, k: int| 0 <= i < k < pre.len() implies (#[trigger] pre[i]).0@ != (#[trigger] pre[k]).0@ by {
        assert(pre[i] == es[i] && pre[k] == es[k]);
    }
    lemma_inflections_accepted(pre);
    let upto = es.subrange(0, n + 1);
    assert(upto.drop_last() =~= pre);
    assert(upto.last() == es[n]);
    lemma_inflection_failure_stays(es, n + 1);
}

/// Whether `p` holds an inflection for case `c`.
fn contains_case(p: &Vec<Inflection>, c: Case) -> (r: bool)
    ensures
        r == has_case(p@, c),
{
    let mut i: usize = 0;
    while i < p.len()
        invariant
            i <= p@.len(),
            forall|k: int| 0 <= k < i ==> (#[trigger] p@[k]).case != c,
        decreases p.len() - i,
    {
        if p[i].case == c {
            return true;
        }
        i = i + 1;
    }
    false
}

/// Decodes a JSON object that maps case labels to sentences. The entries are
/// taken in the order in which the object holds them; an unknown label, a
/// value that is not a string or a second entry for one case fails the whole.
/// A tree can hold two entries with one key; one parsed from text cannot (see
/// `decode_inflections`).
pub fn inflections_from_json(j: &Json) -> (r: Result<Vec<Inflection>, TezaursApiError>)
    ensures
        seq_result(r) == inflections_of(*j),
{
    match j {
        Json::Object(o) => {
            let mut out: Vec<Inflection> = Vec::new();
            let mut i: usize = 0;
            assert(o@.subrange(0, 0) =~= Seq::<(String, Json)>::empty());
            while i < o.len()
                invariant
                    i <= o@.len(),
                    inflections_of(*j) == inflections_of_entries(o@),
                    inflections_of_entries(o@.subrange(0, i as int)) == Ok::<Seq<Inflection>, TezaursApiError>(out@),
                decreases o.len() - i,
            {
                let ghost pre = o@.subrange(0, i + 1);
                assert(pre.drop_last() =~= o@.subrange(0, i as int));
                assert(pre.last() == o@[i as int]);
                let k = &o[i].0;
                let step: Result<Inflection, TezaursApiError> = match Case::from_label(k.as_str()) {
                    None => Err(TezaursApiError::DecodeError(Location::Key(k.clone()), DecodeReason::UnknownLabel(Domain::Case, k.clone()))),
                    Some(c) => match &o[i].1 {
                        Json::Str(s) => if contains_case(&out, c) {
                            Err(TezaursApiError::DecodeError(Location::Key(k.clone()), DecodeReason::Duplicate))
                        } else {
                            Ok(Inflection { case: c, sentence: s.clone() })
                        },
                        other => Err(TezaursApiError::DecodeError(Location::Key(k.clone()), DecodeReason::WrongType(other.found()))),
                    },
                };
                match step {
                    Ok(x) => out.push(x),
                    Err(e) => {
                        proof {
                            assert(inflections_of_entries(pre) == Err::<Seq<Inflection>, TezaursApiError>(e));
                            lemma_inflection_failure_stays(o@, i + 1);
                        }
                        return Err(e);
                    },
                }
                i = i + 1;
            }
            assert(o@.subrange(0, o@.len() as int) =~= o@);
            Ok(out)
        },
        _ => Err(TezaursApiError::DecodeError(Location::Root, DecodeReason::WrongType(j.found()))),
    }
}

/// Decodes the response of the inflect operation. The order of the result
/// is the order in which the parser hands the entries over, which the service
/// does not fix: callers should rely on its content, not on positions.
/// The JSON parser keeps only the last of two entries with the same key, so a
/// text that repeats a case label yields that case once, with its last
/// sentence, and never a `Duplicate` error.
pub fn decode_inflections(raw: &str) -> (r: Result<Vec<Inflection>, TezaursApiError>)
    ensures
        match parsed(raw@) {
            None => r matches Err(TezaursApiError::MalformedPayload(_)),
            Some(j) => seq_result(r) == inflections_of(j),
        },
{
    match parse_json(raw) {
        Ok(j) => inflections_from_json(&j),
        Err(m) => Err(TezaursApiError::MalformedPayload(m)),
    }
}

} // verus!
