use tezaurs::error::{DecodeReason, Found, Location, TezaursApiError};
use tezaurs::inflect::{decode_inflections, inflections_from_json};
use tezaurs::json::{str_eq, Json};
use tezaurs::labels::{translate, Case, Domain, Gender, Number, PartOfSpeech, Variant};
use tezaurs::model::{AnalyzedWord, Inflection, Paradigm, Token};
use tezaurs::encode::inflections_to_json;
use tezaurs::numeric::{decimal_string, parse_usize};
use tezaurs::records::{
    analyzed_words_from_json, decode_analyze, decode_paradigms, decode_tokenize, tokens_from_json,
};

fn s(x: &str) -> String {
    x.to_string()
}

fn entry(k: &str, v: &str) -> (String, Json) {
    (s(k), Json::Str(s(v)))
}

fn full_record(lexeme: &str, entry_id: &str) -> Json {
    Json::Object(vec![
        entry("Skaitlis", "Vienskaitlis"),
        entry("Šķirkļa ID", entry_id),
        entry("Vārds", "jūra"),
        entry("Leksēmas nr", lexeme),
        entry("Galotnes nr", "75"),
        entry("Vārdšķira", "Lietvārds"),
        entry("Mija", "0"),
        entry("Minēšana", "Nav"),
        entry("Pamatforma", "jūra"),
        entry("Locījums", "Nominatīvs"),
        entry("Dzimte", "Sieviešu"),
        entry("Vārdgrupas nr", "7"),
        entry("Deklinācija", "4"),
    ])
}

#[test]
fn tokenize_two_entries() {
    let raw = r#"[{"Vārds":"es","Marķējums":"pp10snn","Pamatforma":"es"},{"Vārds":"domāju","Marķējums":"vmnip_21san","Pamatforma":"domāt"}]"#;
    let tokens = decode_tokenize(raw).unwrap();
    assert_eq!(
        tokens,
        vec![
            Token { word: s("es"), tag: s("pp10snn"), base_form: s("es") },
            Token { word: s("domāju"), tag: s("vmnip_21san"), base_form: s("domāt") },
        ]
    );
}

#[test]
fn analyze_fixture_round() {
    let raw = r#"[
        {"Skaitlis":"Vienskaitlis","Vārds":"jūra","Leksēmas nr":"1033983","Galotnes nr":"28",
         "Avots":"VVC paplašinātais vārdadienu saraksts 2014-10-31","Vārdšķira":"Lietvārds","Mija":"1",
         "Minēšana":"Nav","Pamatforma":"Jūris","Locījums":"Ģenitīvs","Dzimte":"Vīriešu",
         "Vārdgrupas nr":"3","Deklinācija":"2"},
        {"Skaitlis":"Vienskaitlis","Šķirkļa ID":"134187","Vārds":"jūra","Šķirkļa cilvēklasāmais ID":"jūra:1",
         "Leksēmas nr":"138064","Galotnes nr":"75","Vārdšķira":"Lietvārds","Mija":"0","Minēšana":"Nav",
         "Pamatforma":"jūra","Locījums":"Nominatīvs","Dzimte":"Sieviešu","Vārdgrupas nr":"7","Deklinācija":"4"}
    ]"#;
    let words = decode_analyze(raw).unwrap();
    assert_eq!(
        words,
        vec![
            AnalyzedWord {
                number: Number::Singular,
                id: None,
                word: s("jūra"),
                word_id: None,
                lexem: 1033983,
                free_text: None,
                end: 28,
                source: Some(s("VVC paplašinātais vārdadienu saraksts 2014-10-31")),
                part_of_speech: PartOfSpeech::Noun,
                swap: 1,
                mention: s("Nav"),
                basic_form: s("Jūris"),
                case: Case::Genitive,
                gender: Gender::Male,
                group: 3,
                declination: 2,
            },
            AnalyzedWord {
                number: Number::Singular,
                id: Some(134187),
                word: s("jūra"),
                word_id: Some(s("jūra:1")),
                lexem: 138064,
                free_text: None,
                end: 75,
                source: None,
                part_of_speech: PartOfSpeech::Noun,
                swap: 0,
                mention: s("Nav"),
                basic_form: s("jūra"),
                case: Case::Nominative,
                gender: Gender::Female,
                group: 7,
                declination: 4,
            },
        ]
    );
}

#[test]
fn paradigm_fixture() {
    let raw = r#"[{"ID":1,"Description":"noun-1a"},{"ID":13,"Description":"adj-1"},{"ID":39,"Description":"foreign"}]"#;
    let ps = decode_paradigms(raw).unwrap();
    assert_eq!(
        ps,
        vec![
            Paradigm { id: 1, description: s("noun-1a") },
            Paradigm { id: 13, description: s("adj-1") },
            Paradigm { id: 39, description: s("foreign") },
        ]
    );
}

#[test]
fn paradigm_id_out_of_range_or_not_integer() {
    let too_big = decode_paradigms(r#"[{"ID":4294967296,"Description":"x"}]"#);
    assert_eq!(
        too_big,
        Err(TezaursApiError::DecodeError(Location::ItemField(0, "ID"), DecodeReason::NotANumber(s("4294967296"))))
    );
    let largest = decode_paradigms(r#"[{"ID":4294967295,"Description":"x"}]"#).unwrap();
    assert_eq!(largest[0].id, 4294967295);
    assert!(matches!(
        decode_paradigms(r#"[{"ID":-1,"Description":"x"}]"#),
        Err(TezaursApiError::DecodeError(Location::ItemField(0, "ID"), DecodeReason::NotANumber(_)))
    ));
    assert!(matches!(
        decode_paradigms(r#"[{"ID":1.5,"Description":"x"}]"#),
        Err(TezaursApiError::DecodeError(Location::ItemField(0, "ID"), DecodeReason::NotANumber(_)))
    ));
    assert_eq!(
        decode_paradigms(r#"[{"ID":"1","Description":"x"}]"#),
        Err(TezaursApiError::DecodeError(Location::ItemField(0, "ID"), DecodeReason::WrongType(Found::Str(s("1")))))
    );
}

#[test]
fn inflect_fixture_content() {
    let raw = r#"{"Akuzatīvs":"Institūtu","Datīvs":"Institūtam","Lokatīvs":"Institūtā","Nominatīvs":"Institūts","Ģenitīvs":"Institūta"}"#;
    let infl = decode_inflections(raw).unwrap();
    assert_eq!(infl.len(), 5);
    let expected = [
        (Case::Accusative, "Institūtu"),
        (Case::Dative, "Institūtam"),
        (Case::Locative, "Institūtā"),
        (Case::Nominative, "Institūts"),
        (Case::Genitive, "Institūta"),
    ];
    for (c, text) in expected {
        assert!(infl.contains(&Inflection { case: c, sentence: s(text) }));
    }
}

#[test]
fn inflect_three_of_seven() {
    let raw = r#"{"Vokatīvs":"v","Instrumentālis":"i","Datīvs":"d"}"#;
    let infl = decode_inflections(raw).unwrap();
    assert_eq!(infl.len(), 3);
    assert!(infl.contains(&Inflection { case: Case::Vocative, sentence: s("v") }));
    assert!(infl.contains(&Inflection { case: Case::Instrumental, sentence: s("i") }));
    assert!(infl.contains(&Inflection { case: Case::Dative, sentence: s("d") }));
}

#[test]
fn inflect_empty_mapping() {
    assert_eq!(decode_inflections("{}"), Ok(vec![]));
}

#[test]
fn inflect_duplicate_case_key() {
    let j = Json::Object(vec![entry("Datīvs", "a"), entry("Lokatīvs", "b"), entry("Datīvs", "c")]);
    assert_eq!(
        inflections_from_json(&j),
        Err(TezaursApiError::DecodeError(Location::Key(s("Datīvs")), DecodeReason::Duplicate))
    );
}

#[test]
fn inflect_keeps_entry_order_of_the_object() {
    let j = Json::Object(vec![entry("Lokatīvs", "b"), entry("Datīvs", "a")]);
    assert_eq!(
        inflections_from_json(&j),
        Ok(vec![
            Inflection { case: Case::Locative, sentence: s("b") },
            Inflection { case: Case::Dative, sentence: s("a") },
        ])
    );
}

#[test]
fn inflect_unknown_case_key() {
    assert_eq!(
        decode_inflections(r#"{"Datīvs":"a","Ablatīvs":"b"}"#),
        Err(TezaursApiError::DecodeError(
            Location::Key(s("Ablatīvs")),
            DecodeReason::UnknownLabel(Domain::Case, s("Ablatīvs"))
        ))
    );
}

#[test]
fn inflect_value_not_a_string() {
    assert_eq!(
        decode_inflections(r#"{"Datīvs":3}"#),
        Err(TezaursApiError::DecodeError(Location::Key(s("Datīvs")), DecodeReason::WrongType(Found::Number(s("3")))))
    );
    assert_eq!(
        decode_inflections(r#"["Datīvs"]"#),
        Err(TezaursApiError::DecodeError(Location::Root, DecodeReason::WrongType(Found::Array(1))))
    );
}

#[test]
fn translate_known_labels() {
    assert_eq!(translate("Daudzskaitlis", Domain::Number), Ok(Variant::Number(Number::Plural)));
    assert_eq!(translate("Vīriešu", Domain::Gender), Ok(Variant::Gender(Gender::Male)));
    assert_eq!(
        translate("Skaitļa vārds", Domain::PartOfSpeech),
        Ok(Variant::PartOfSpeech(PartOfSpeech::Numeral))
    );
    assert_eq!(translate("Akuzatīvs", Domain::Case), Ok(Variant::Case(Case::Accusative)));
    assert_eq!(translate("Instrumentālis", Domain::Case), Ok(Variant::Case(Case::Instrumental)));
}

#[test]
fn translate_unknown_labels() {
    for d in [Domain::Case, Domain::Gender, Domain::Number, Domain::PartOfSpeech] {
        for label in ["", "nominatīvs", "Nominative", "Vienskaitlis ", "x"] {
            assert_eq!(translate(label, d), Err(TezaursApiError::UnknownLabel(d, s(label))));
        }
    }
    assert_eq!(
        translate("Vienskaitlis", Domain::Case),
        Err(TezaursApiError::UnknownLabel(Domain::Case, s("Vienskaitlis")))
    );
}

#[test]
fn labels_round_trip() {
    for c in [
        Case::Nominative,
        Case::Genitive,
        Case::Dative,
        Case::Accusative,
        Case::Instrumental,
        Case::Locative,
        Case::Vocative,
    ] {
        assert_eq!(Case::from_label(c.label()), Some(c));
    }
    assert_eq!(Case::Dative.label(), "Datīvs");
    assert_eq!(Gender::from_label(Gender::Female.label()), Some(Gender::Female));
    assert_eq!(Number::from_label(Number::Plural.label()), Some(Number::Plural));
    assert_eq!(PartOfSpeech::from_label(PartOfSpeech::Verb.label()), Some(PartOfSpeech::Verb));
}

#[test]
fn required_number_not_digits() {
    let j = Json::Array(vec![full_record("abc", "1")]);
    assert_eq!(
        analyzed_words_from_json(&j),
        Err(TezaursApiError::DecodeError(
            Location::ItemField(0, "Leksēmas nr"),
            DecodeReason::NotANumber(s("abc"))
        ))
    );
}

#[test]
fn optional_number_not_digits() {
    let j = Json::Array(vec![full_record("138064", "abc")]);
    let words = analyzed_words_from_json(&j).unwrap();
    assert_eq!(words.len(), 1);
    assert_eq!(words[0].id, None);
    assert_eq!(words[0].lexem, 138064);
}

#[test]
fn required_field_missing_or_wrong_kind() {
    let raw = r#"[{"Vārds":"es","Pamatforma":"es"}]"#;
    assert_eq!(
        decode_tokenize(raw),
        Err(TezaursApiError::DecodeError(Location::ItemField(0, "Marķējums"), DecodeReason::Missing))
    );
    let raw = r#"[{"Vārds":"es","Marķējums":7,"Pamatforma":"es"}]"#;
    assert_eq!(
        decode_tokenize(raw),
        Err(TezaursApiError::DecodeError(Location::ItemField(0, "Marķējums"), DecodeReason::WrongType(Found::Number(s("7")))))
    );
}

#[test]
fn unknown_enum_label_in_record() {
    let mut fields = match full_record("1", "1") {
        Json::Object(f) => f,
        _ => unreachable!(),
    };
    fields[9] = entry("Locījums", "Ablatīvs");
    let j = Json::Array(vec![Json::Object(fields)]);
    assert_eq!(
        analyzed_words_from_json(&j),
        Err(TezaursApiError::DecodeError(
            Location::ItemField(0, "Locījums"),
            DecodeReason::UnknownLabel(Domain::Case, s("Ablatīvs"))
        ))
    );
}

#[test]
fn one_bad_element_fails_the_list() {
    let j = Json::Array(vec![
        Json::Object(vec![entry("Vārds", "a"), entry("Marķējums", "b"), entry("Pamatforma", "c")]),
        Json::Null,
    ]);
    assert_eq!(
        tokens_from_json(&j),
        Err(TezaursApiError::DecodeError(Location::Item(1), DecodeReason::WrongType(Found::Null)))
    );
    assert_eq!(tokens_from_json(&Json::Array(vec![])), Ok(vec![]));
    assert_eq!(
        tokens_from_json(&Json::Bool(true)),
        Err(TezaursApiError::DecodeError(Location::Root, DecodeReason::WrongType(Found::Bool(true))))
    );
}

#[test]
fn wrong_kind_reports_the_value() {
    let raw = r#"[{"Skaitlis":"Vienskaitlis","Vārds":"jūra","Leksēmas nr":"1","Galotnes nr":"2","Vārdšķira":"Lietvārds","Mija":1}]"#;
    let e = decode_analyze(raw).unwrap_err();
    assert_eq!(
        e,
        TezaursApiError::DecodeError(Location::ItemField(0, "Mija"), DecodeReason::WrongType(Found::Number(s("1"))))
    );
    assert_eq!(e.message(), "decode error at field Mija of item 0: wrong JSON kind: 1");
    let e = decode_inflections(r#"{"Datīvs":3}"#).unwrap_err();
    assert_eq!(e.message(), "decode error at key Datīvs: wrong JSON kind: 3");
    let e = decode_tokenize(r#"[{"Vārds":"a","Marķējums":"b","Pamatforma":"c"},"x"]"#).unwrap_err();
    assert_eq!(e, TezaursApiError::DecodeError(Location::Item(1), DecodeReason::WrongType(Found::Str(s("x")))));
    assert_eq!(e.message(), "decode error at item 1: wrong JSON kind: \"x\"");
    assert_eq!(
        Token::from_json(&Json::Null),
        Err(TezaursApiError::DecodeError(Location::Root, DecodeReason::WrongType(Found::Null)))
    );
}

#[test]
fn record_level_label_and_optional_number() {
    let mut fields = match full_record("1", "1") {
        Json::Object(f) => f,
        _ => unreachable!(),
    };
    fields[10] = entry("Dzimte", "Nav");
    let e = AnalyzedWord::from_json(&Json::Object(fields)).unwrap_err();
    assert_eq!(
        e,
        TezaursApiError::DecodeError(Location::Field("Dzimte"), DecodeReason::UnknownLabel(Domain::Gender, s("Nav")))
    );
    let w = AnalyzedWord::from_json(&full_record("5", "abc")).unwrap();
    assert_eq!(w.id, None);
    assert_eq!(w.lexem, 5);
    assert_eq!(w.gender, Gender::Female);
}

#[test]
fn malformed_payload() {
    for raw in [r#"[{"Vārds":"es""#, "", "not json", "[1,]", "{\"a\":1} x"] {
        assert!(matches!(decode_tokenize(raw), Err(TezaursApiError::MalformedPayload(_))));
        assert!(matches!(decode_analyze(raw), Err(TezaursApiError::MalformedPayload(_))));
        assert!(matches!(decode_paradigms(raw), Err(TezaursApiError::MalformedPayload(_))));
        assert!(matches!(decode_inflections(raw), Err(TezaursApiError::MalformedPayload(_))));
    }
}

#[test]
fn decimal_parsing() {
    assert_eq!(parse_usize("0"), Some(0));
    assert_eq!(parse_usize("007"), Some(7));
    assert_eq!(parse_usize("1033983"), Some(1033983));
    assert_eq!(parse_usize(""), None);
    assert_eq!(parse_usize("+5"), None);
    assert_eq!(parse_usize("-1"), None);
    assert_eq!(parse_usize("12a"), None);
    assert_eq!(parse_usize(" 1"), None);
    assert_eq!(parse_usize(&usize::MAX.to_string()), Some(usize::MAX));
    let over = format!("{}0", usize::MAX);
    assert_eq!(parse_usize(&over), None);
}

#[test]
fn string_equality() {
    assert!(str_eq("Datīvs", "Datīvs"));
    assert!(!str_eq("Datīvs", "Datīvz"));
    assert!(!str_eq("Datīvs", "Datīv"));
    assert!(str_eq("", ""));
}

#[test]
fn token_encode_round_trip() {
    let t = Token { word: s("domāju"), tag: s("vmnip_21san"), base_form: s("domāt") };
    let j = t.to_json();
    assert_eq!(Token::from_json(&j), Ok(t));
    match j {
        Json::Object(o) => assert_eq!(o[1], entry("Marķējums", "vmnip_21san")),
        _ => panic!("not an object"),
    }
}

#[test]
fn paradigm_encode_round_trip() {
    let p = Paradigm { id: 4294967295, description: s("noun-1a") };
    let j = p.to_json();
    match &j {
        Json::Object(o) => assert_eq!(o[0], (s("ID"), Json::Number(s("4294967295")))),
        _ => panic!("not an object"),
    }
    assert_eq!(Paradigm::from_json(&j), Ok(p));
}

#[test]
fn analyzed_word_encode_round_trip() {
    let j = Json::Array(vec![full_record("138064", "134187")]);
    let w = analyzed_words_from_json(&j).unwrap().remove(0);
    assert_eq!(w.id, Some(134187));
    let back = w.to_json();
    assert_eq!(AnalyzedWord::from_json(&back), Ok(w.clone()));
    let none = AnalyzedWord { id: None, word_id: None, source: Some(s("Avots")), ..w };
    let encoded = none.to_json();
    match &encoded {
        Json::Object(o) => {
            assert_eq!(o.len(), 13);
            assert!(o.iter().all(|(k, _)| k != "Šķirkļa ID" && k != "FreeText"));
            assert_eq!(o[12], entry("Avots", "Avots"));
        }
        _ => panic!("not an object"),
    }
    assert_eq!(AnalyzedWord::from_json(&encoded), Ok(none));
}

#[test]
fn inflections_encode_round_trip() {
    let v = vec![
        Inflection { case: Case::Vocative, sentence: s("v") },
        Inflection { case: Case::Genitive, sentence: s("g") },
    ];
    let j = inflections_to_json(&v);
    assert_eq!(inflections_from_json(&j), Ok(v));
    assert_eq!(inflections_from_json(&inflections_to_json(&vec![])), Ok(vec![]));
}

#[test]
fn decimal_formatting() {
    assert_eq!(decimal_string(0), "0");
    assert_eq!(decimal_string(7), "7");
    assert_eq!(decimal_string(1033983), "1033983");
    assert_eq!(decimal_string(usize::MAX), usize::MAX.to_string());
}

#[test]
fn error_messages() {
    let e = TezaursApiError::DecodeError(Location::Field("Mija"), DecodeReason::WrongType(Found::Number(s("1"))));
    assert_eq!(e.message(), "decode error at field Mija: wrong JSON kind: 1");
    let e = TezaursApiError::DecodeError(Location::ItemField(3, "Vārds"), DecodeReason::WrongType(Found::Str(s("x"))));
    assert_eq!(e.message(), "decode error at field Vārds of item 3: wrong JSON kind: \"x\"");
    let e = TezaursApiError::DecodeError(Location::Item(12), DecodeReason::WrongType(Found::Array(0)));
    assert_eq!(e.message(), "decode error at item 12: wrong JSON kind: an array of 0 items");
    let e = TezaursApiError::DecodeError(Location::Key(s("Datīvs")), DecodeReason::WrongType(Found::Bool(false)));
    assert_eq!(e.message(), "decode error at key Datīvs: wrong JSON kind: false");
    let e = TezaursApiError::DecodeError(Location::Root, DecodeReason::WrongType(Found::Null));
    assert_eq!(e.message(), "decode error at payload: wrong JSON kind: null");
    let e = TezaursApiError::DecodeError(Location::Field("Mija"), DecodeReason::NotANumber(s("abc")));
    assert_eq!(e.message(), "decode error at field Mija: not a decimal number: abc");
    let e = TezaursApiError::UnknownLabel(Domain::PartOfSpeech, s("x"));
    assert_eq!(e.message(), "unknown part of speech label: x");
    let e = TezaursApiError::DecodeError(Location::Key(s("Datīvs")), DecodeReason::Duplicate);
    assert_eq!(e.message(), "decode error at key Datīvs: duplicate case");
    assert_eq!(TezaursApiError::TransportError(s("refused")).message(), "transport error: refused");
    assert_eq!(TezaursApiError::MalformedPayload(s("eof")).message(), "malformed payload: eof");
    assert_eq!(
        TezaursApiError::DecodeError(Location::Root, DecodeReason::WrongType(Found::Object(2))).message(),
        "decode error at payload: wrong JSON kind: an object of 2 entries"
    );
}
