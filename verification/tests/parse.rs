use jbovlaste_xml::error::ParseError;
use jbovlaste_xml::model::{Dictionary, GlossWord, Keyword, NlWord, User, Word, WordType};
use jbovlaste_xml::parser::parse;

fn minimal_valsi(word: &str, id: &str) -> String {
    format!(
        "<valsi word=\"{word}\" type=\"gismu\">\
         <user><username>noda</username></user>\
         <definition>d</definition>\
         <definitionid>{id}</definitionid>\
         </valsi>"
    )
}

fn doc(l2e_children: &str, e2l_children: &str) -> String {
    format!(
        "<?xml version=\"1.0\" encoding=\"UTF-8\"?>\n\
         <!-- export -->\n\
         <dictionary>\n\
           <direction from=\"lojban\" to=\"English\">{l2e_children}</direction>\n\
           <direction from=\"English\" to=\"lojban\">{e2l_children}</direction>\n\
         </dictionary>"
    )
}

#[test]
fn full_document_round_trip() {
    let text = doc(
        "\n  <valsi word=\"tavla\" type=\"gismu\" unofficial=\"true\">\n\
           <rafsi>tav</rafsi>\n\
           <rafsi>ta'a</rafsi>\n\
           <selmaho>GISMU</selmaho>\n\
           <user><username>officialdata</username><realname>Official Data</realname></user>\n\
           <definition>x1 talks to x2 about x3 in language x4</definition>\n\
           <definitionid>123</definitionid>\n\
           <notes>see also cusku</notes>\n\
           <glossword word=\"talk\" sense=\"speech\"/>\n\
           <glossword word=\"speak\"/>\n\
           <keyword word=\"talker\" place=\"1\" sense=\"agent\"/>\n\
           <keyword word=\"topic\" place=\"3\"/>\n\
         </valsi>\n" ,
        "\n  <nlword word=\"talk\" sense=\"converse\" place=\"1\" valsi=\"tavla\"/>\n\
         <nlword word=\"speak\" valsi=\"tavla\"/>\n",
    );
    let got = parse(&text).unwrap();
    let want = Dictionary {
        lojban_to_english: vec![
            Word {
                word: "tavla".to_string(),
                ty: WordType::Gismu,
                unofficial: true,
                rafsi: vec!["tav".to_string(), "ta'a".to_string()],
                selmaho: Some("GISMU".to_string()),
                user: User {
                    username: "officialdata".to_string(),
                    realname: Some("Official Data".to_string()),
                },
                definition: "x1 talks to x2 about x3 in language x4".to_string(),
                definition_id: 123,
                notes: Some("see also cusku".to_string()),
                glosses: vec![
                    GlossWord { word: "talk".to_string(), sense: Some("speech".to_string()) },
                    GlossWord { word: "speak".to_string(), sense: None },
                ],
                keywords: vec![
                    Keyword {
                        word: "talker".to_string(),
                        place: 1,
                        sense: Some("agent".to_string()),
                    },
                    Keyword { word: "topic".to_string(), place: 3, sense: None },
                ],
            },
        ],
        english_to_lojban: vec![
            NlWord {
                word: "talk".to_string(),
                sense: Some("converse".to_string()),
                place: Some(1),
                valsi: "tavla".to_string(),
            },
            NlWord {
                word: "speak".to_string(),
                sense: None,
                place: None,
                valsi: "tavla".to_string(),
            },
        ],
    };
    assert_eq!(got, want);
}

#[test]
fn lengths_follow_source_order() {
    let l2e = format!(
        "{}{}{}",
        minimal_valsi("pa", "1"),
        minimal_valsi("re", "2"),
        minimal_valsi("ci", "3")
    );
    let e2l = "<nlword word=\"one\" valsi=\"pa\"/><nlword word=\"two\" valsi=\"re\"/>";
    let d = parse(&doc(&l2e, e2l)).unwrap();
    assert_eq!(d.lojban_to_english.len(), 3);
    assert_eq!(d.english_to_lojban.len(), 2);
    assert_eq!(d.lojban_to_english[0].word, "pa");
    assert_eq!(d.lojban_to_english[1].word, "re");
    assert_eq!(d.lojban_to_english[2].word, "ci");
    assert_eq!(d.english_to_lojban[0].word, "one");
    assert_eq!(d.english_to_lojban[1].word, "two");
}

#[test]
fn utf8_values_are_kept_verbatim() {
    let l2e = "<valsi word=\"cmevla\" type=\"cmevla\">\
               <user><username>núñez</username></user>\
               <definition>x1 是名字 — ñé</definition>\
               <definitionid>7</definitionid>\
               </valsi>";
    let d = parse(&doc(l2e, "<nlword word=\"näme\" valsi=\"cmevla\"/>")).unwrap();
    assert_eq!(d.lojban_to_english[0].definition, "x1 是名字 — ñé");
    assert_eq!(d.lojban_to_english[0].user.username, "núñez");
    assert_eq!(d.english_to_lojban[0].word, "näme");
}

#[test]
fn entity_references_are_resolved() {
    let l2e = "<valsi word=\"a&amp;b\" type=\"gismu\">\
               <user><username>noda</username></user>\
               <definition>less &lt; more &amp; d&#x30;ne</definition>\
               <definitionid>9</definitionid>\
               </valsi>";
    let d = parse(&doc(l2e, "<nlword word=\"x\" valsi=\"a&amp;b\"/>")).unwrap();
    assert_eq!(d.lojban_to_english[0].word, "a&b");
    assert_eq!(d.lojban_to_english[0].definition, "less < more & d0ne");
    assert_eq!(d.english_to_lojban[0].valsi, "a&b");
}

#[test]
fn cdata_is_taken_verbatim() {
    let l2e = "<valsi word=\"ta\" type=\"cmavo\">\
               <user><username>noda</username></user>\
               <definition>a<![CDATA[<raw&>]]>b</definition>\
               <definitionid>4</definitionid>\
               </valsi>";
    let d = parse(&doc(l2e, "<nlword word=\"x\" valsi=\"ta\"/>")).unwrap();
    assert_eq!(d.lojban_to_english[0].definition, "a<raw&>b");
}

#[test]
fn unknown_attribute_names_record_and_field() {
    let l2e = "<valsi foo=\"bar\" word=\"ta\" type=\"cmavo\">\
               <user><username>noda</username></user>\
               <definition>d</definition><definitionid>4</definitionid></valsi>";
    let err = parse(&doc(l2e, "")).unwrap_err();
    assert_eq!(
        err,
        ParseError::UnknownField { name: "valsi".to_string(), field: "foo".to_string() }
    );
}

#[test]
fn missing_definitionid_is_reported() {
    let l2e = "<valsi word=\"ta\" type=\"cmavo\">\
               <user><username>noda</username></user>\
               <definition>d</definition></valsi>";
    let err = parse(&doc(l2e, "")).unwrap_err();
    assert_eq!(
        err,
        ParseError::MissingField { name: "valsi".to_string(), field: "definitionid".to_string() }
    );
}

#[test]
fn invalid_word_type_carries_the_text() {
    let l2e = "<valsi word=\"ta\" type=\"not-a-type\">\
               <user><username>noda</username></user>\
               <definition>d</definition><definitionid>4</definitionid></valsi>";
    let err = parse(&doc(l2e, "")).unwrap_err();
    assert_eq!(
        err,
        ParseError::InvalidValue { field: "type".to_string(), value: "not-a-type".to_string() }
    );
}

#[test]
fn english_to_english_direction_is_rejected() {
    let text = "<dictionary><direction from=\"English\" to=\"English\">\
                </direction></dictionary>";
    let err = parse(text).unwrap_err();
    assert_eq!(
        err,
        ParseError::UnknownField {
            name: "Dictionary".to_string(),
            field: "unknown direction".to_string(),
        }
    );
}

#[test]
fn unofficial_defaults_to_false() {
    let d = parse(&doc(&minimal_valsi("ta", "4"), "")).map(|d| d.lojban_to_english[0].unofficial);
    // the document above has no english-to-lojban entries but both
    // directions, so the parse succeeds
    assert_eq!(d.unwrap(), false);
}

#[test]
fn unofficial_true_is_read() {
    let l2e = "<valsi word=\"ta\" type=\"cmavo\" unofficial=\"true\">\
               <user><username>noda</username></user>\
               <definition>d</definition><definitionid>4</definitionid></valsi>";
    let d = parse(&doc(l2e, "")).unwrap();
    assert!(d.lojban_to_english[0].unofficial);
}

#[test]
fn self_closing_dictionary_is_missing_content() {
    let err = parse("<dictionary/>").unwrap_err();
    assert_eq!(
        err,
        ParseError::MissingField {
            name: "Dictionary".to_string(),
            field: "early end".to_string(),
        }
    );
}

#[test]
fn one_direction_only_names_the_absent_one() {
    let text = "<dictionary><direction from=\"lojban\" to=\"English\"></direction></dictionary>";
    let err = parse(text).unwrap_err();
    assert_eq!(
        err,
        ParseError::MissingField {
            name: "Dictionary".to_string(),
            field: "english to lojban".to_string(),
        }
    );
    let text = "<dictionary><direction from=\"English\" to=\"lojban\"></direction></dictionary>";
    let err = parse(text).unwrap_err();
    assert_eq!(
        err,
        ParseError::MissingField {
            name: "Dictionary".to_string(),
            field: "lojban to english".to_string(),
        }
    );
}

#[test]
fn word_type_vocabulary() {
    assert_eq!(WordType::from_str("bu-letteral"), Some(WordType::BuLetteral));
    assert_eq!(WordType::from_str("cmavo"), Some(WordType::Cmavo));
    assert_eq!(WordType::from_str("cmavo-compound"), Some(WordType::CmavoCompound));
    assert_eq!(WordType::from_str("cmevla"), Some(WordType::Cmevla));
    assert_eq!(WordType::from_str("experimental cmavo"), Some(WordType::ExperimentalCmavo));
    assert_eq!(WordType::from_str("experimental gismu"), Some(WordType::ExperimentalGismu));
    assert_eq!(WordType::from_str("fu'ivla"), Some(WordType::Fuhivla));
    assert_eq!(WordType::from_str("gismu"), Some(WordType::Gismu));
    assert_eq!(WordType::from_str("lujvo"), Some(WordType::Lujvo));
    assert_eq!(WordType::from_str("obsolete cmavo"), Some(WordType::ObsoleteCmavo));
    assert_eq!(WordType::from_str("obsolete cmevla"), Some(WordType::ObsoleteCmevla));
    assert_eq!(WordType::from_str("obsolete fu'ivla"), Some(WordType::ObsoleteFuhivla));
    assert_eq!(WordType::from_str("obsolete zei-lujvo"), Some(WordType::ObsoleteZeiLujvo));
    assert_eq!(WordType::from_str("zei-lujvo"), Some(WordType::ZeiLujvo));
    assert_eq!(WordType::from_str("gismu "), None);
    assert_eq!(WordType::from_str(""), None);
}

#[test]
fn numbers_parse_as_u32_does() {
    // leading plus is accepted, as u32::from_str has it
    let l2e = minimal_valsi("ta", "+41");
    let d = parse(&doc(&l2e, "")).unwrap();
    assert_eq!(d.lojban_to_english[0].definition_id, 41);
    // overflow is a value error carrying the text
    let l2e = minimal_valsi("ta", "4294967296");
    let err = parse(&doc(&l2e, "")).unwrap_err();
    assert_eq!(
        err,
        ParseError::InvalidValue {
            field: "definitionid".to_string(),
            value: "4294967296".to_string(),
        }
    );
    let max = minimal_valsi("ta", "4294967295");
    let d = parse(&doc(&max, "")).unwrap();
    assert_eq!(d.lojban_to_english[0].definition_id, u32::MAX);
}

#[test]
fn duplicate_attribute_is_an_error() {
    let l2e = "<valsi word=\"ta\" word=\"tb\" type=\"cmavo\">\
               <user><username>noda</username></user>\
               <definition>d</definition><definitionid>4</definitionid></valsi>";
    let err = parse(&doc(l2e, "")).unwrap_err();
    assert_eq!(err, ParseError::DuplicateField { field: "word".to_string() });
}

#[test]
fn repeated_flattened_text_keeps_the_last_value() {
    let l2e = "<valsi word=\"ta\" type=\"cmavo\">\
               <selmaho>KOhA</selmaho>\
               <selmaho>GOhA</selmaho>\
               <user><username>noda</username></user>\
               <definition>d</definition><definitionid>4</definitionid></valsi>";
    let d = parse(&doc(l2e, "")).unwrap();
    assert_eq!(d.lojban_to_english[0].selmaho, Some("GOhA".to_string()));
}

#[test]
fn unknown_child_element_is_reported() {
    let l2e = "<valsi word=\"ta\" type=\"cmavo\">\
               <user><username>noda</username></user>\
               <definition>d</definition><definitionid>4</definitionid>\
               <mystery/></valsi>";
    let err = parse(&doc(l2e, "")).unwrap_err();
    assert_eq!(
        err,
        ParseError::UnknownField { name: "valsi".to_string(), field: "mystery".to_string() }
    );
}

#[test]
fn wrong_child_in_direction_names_the_expected_tag() {
    let err = parse(&doc("<nlword word=\"x\" valsi=\"y\"/>", "")).unwrap_err();
    assert_eq!(
        err,
        ParseError::MissingField {
            name: "lojban-to-english".to_string(),
            field: "valsi".to_string(),
        }
    );
    let err = parse(&doc("", &minimal_valsi("ta", "4"))).unwrap_err();
    assert_eq!(
        err,
        ParseError::MissingField {
            name: "english-to-lojban".to_string(),
            field: "nlword".to_string(),
        }
    );
}

#[test]
fn boolean_vocabulary_matches_the_reader() {
    for (text, want) in [("t", true), ("yes", true), ("on", true), ("1", true), ("f", false),
        ("no", false), ("off", false), ("0", false)] {
        let l2e = format!(
            "<valsi word=\"ta\" type=\"cmavo\" unofficial=\"{text}\">\
             <user><username>noda</username></user>\
             <definition>d</definition><definitionid>4</definitionid></valsi>"
        );
        let d = parse(&doc(&l2e, "")).unwrap();
        assert_eq!(d.lojban_to_english[0].unofficial, want, "{text}");
    }
    let l2e = "<valsi word=\"ta\" type=\"cmavo\" unofficial=\"maybe\">\
               <user><username>noda</username></user>\
               <definition>d</definition><definitionid>4</definitionid></valsi>";
    let err = parse(&doc(l2e, "")).unwrap_err();
    assert_eq!(
        err,
        ParseError::InvalidValue { field: "unofficial".to_string(), value: "maybe".to_string() }
    );
}

#[test]
fn attribute_on_dictionary_is_unknown() {
    let err = parse("<dictionary lang=\"en\"></dictionary>").unwrap_err();
    assert_eq!(
        err,
        ParseError::UnknownField { name: "Dictionary".to_string(), field: "lang".to_string() }
    );
}

#[test]
fn unknown_direction_attribute_is_reported() {
    let err = parse("<dictionary><direction via=\"x\"></direction></dictionary>").unwrap_err();
    assert_eq!(
        err,
        ParseError::UnknownField { name: "direction".to_string(), field: "via".to_string() }
    );
}

#[test]
fn self_closing_direction_is_missing_content() {
    let err = parse("<dictionary><direction from=\"lojban\" to=\"English\"/></dictionary>")
        .unwrap_err();
    assert_eq!(
        err,
        ParseError::MissingField { name: "direction".to_string(), field: "early end".to_string() }
    );
}

#[test]
fn truncated_document_ends_unexpectedly() {
    let err = parse("<dictionary").unwrap_err();
    assert_eq!(err, ParseError::UnexpectedEof);
    let err = parse("").unwrap_err();
    assert_eq!(err, ParseError::UnexpectedEof);
}

#[test]
fn malformed_markup_is_a_tokenization_error() {
    let err = parse("<dictionary><<direction></dictionary>").unwrap_err();
    assert!(matches!(err, ParseError::Tokenization { .. }), "{err:?}");
}

#[test]
fn bad_entity_reference_carries_the_raw_text() {
    let l2e = "<valsi word=\"a&nosuch;b\" type=\"gismu\">\
               <user><username>noda</username></user>\
               <definition>d</definition><definitionid>4</definitionid></valsi>";
    let err = parse(&doc(l2e, "")).unwrap_err();
    assert_eq!(err, ParseError::BadEntity { value: "a&nosuch;b".to_string() });
}

#[test]
fn repeated_direction_keeps_the_last_parse() {
    let text = format!(
        "<dictionary>\
         <direction from=\"lojban\" to=\"English\">{}</direction>\
         <direction from=\"English\" to=\"lojban\"></direction>\
         <direction from=\"lojban\" to=\"English\">{}</direction>\
         </dictionary>",
        minimal_valsi("pa", "1"),
        minimal_valsi("re", "2"),
    );
    let d = parse(&text).unwrap();
    assert_eq!(d.lojban_to_english.len(), 1);
    assert_eq!(d.lojban_to_english[0].word, "re");
}

#[test]
fn missing_username_is_reported() {
    let l2e = "<valsi word=\"ta\" type=\"cmavo\">\
               <user></user>\
               <definition>d</definition><definitionid>4</definitionid></valsi>";
    let err = parse(&doc(l2e, "")).unwrap_err();
    assert_eq!(
        err,
        ParseError::MissingField { name: "user".to_string(), field: "username".to_string() }
    );
}

#[test]
fn keyword_requires_place() {
    let l2e = "<valsi word=\"ta\" type=\"cmavo\">\
               <user><username>noda</username></user>\
               <definition>d</definition><definitionid>4</definitionid>\
               <keyword word=\"k\"/></valsi>";
    let err = parse(&doc(l2e, "")).unwrap_err();
    assert_eq!(
        err,
        ParseError::MissingField { name: "keyword".to_string(), field: "place".to_string() }
    );
}

#[test]
fn nlword_requires_valsi() {
    let err = parse(&doc("", "<nlword word=\"x\"/>")).unwrap_err();
    assert_eq!(
        err,
        ParseError::MissingField { name: "nlword".to_string(), field: "valsi".to_string() }
    );
}

#[test]
fn empty_flattened_elements_read_as_empty_strings() {
    let l2e = "<valsi word=\"ta\" type=\"cmavo\">\
               <rafsi/>\
               <user><username>noda</username></user>\
               <definition></definition><definitionid>4</definitionid>\
               <notes/></valsi>";
    let d = parse(&doc(l2e, "")).unwrap();
    assert_eq!(d.lojban_to_english[0].rafsi, vec!["".to_string()]);
    assert_eq!(d.lojban_to_english[0].definition, "");
    assert_eq!(d.lojban_to_english[0].notes, Some("".to_string()));
}
