//! The executable schema reader, proved to follow the specification
//! state machine step for step.
//!
//! [`parse`] is the one operation the library offers its caller: it
//! drives the trusted tokenizer once across the document and folds
//! [`step`] over the events; its result is exactly what `sp_parse_text`
//! says of the document text.

use vstd::prelude::*;
use vstd::string::StrSliceExecFns;
use vstd::string::StringExecFns;

use crate::error::{ErrV, ParseError};
use crate::event::{EvV, Event};
use crate::lex;
use crate::machine::{
    DictB, GlossB, KeyB, Mode, NlB, SpMode, SpStep, Step, UserB, UserField, WordB, WordBV,
    WordField,
    sp_commit_user_flat, sp_commit_word_flat, sp_eof, sp_fin_gloss, sp_fin_key, sp_fin_nl,
    sp_fin_user, sp_fin_word, sp_inc, sp_step, sp_step_dict_attrs, sp_step_dict_body,
    sp_step_dir_attrs, sp_step_dir_nls, sp_step_dir_words, sp_step_gloss_attrs,
    sp_step_gloss_body, sp_step_key_attrs, sp_step_key_body, sp_step_nl_attrs, sp_step_nl_body,
    sp_step_prologue, sp_step_skip_attrs, sp_step_skip_body, sp_step_user_attrs,
    sp_step_user_body, sp_step_user_flat, sp_step_word_attrs, sp_step_word_body,
    sp_step_word_flat, sp_user_field_tag, sp_word_field_tag,
};
use crate::model::{Dictionary, DictionaryV, GlossWord, Keyword, NlWord, User, Word, WordType};
use crate::textutil::{parse_bool, parse_u32, str_eq};

verus! {

/// Pushes onto a vector, keeping its deep view in step.
fn push_dv<T: DeepView>(v: &mut Vec<T>, x: T)
    ensures
        final(v).deep_view() == old(v).deep_view().push(x.deep_view()),
{
    let ghost before = v.deep_view();
    v.push(x);
    proof {
        assert(v.deep_view() =~= before.push(x.deep_view()));
    }
}

/// A fresh vector, with its deep view pinned to the empty sequence.
fn new_vec_dv<T: DeepView>() -> (r: Vec<T>)
    ensures
        r.deep_view() == Seq::<T::V>::empty(),
{
    let v: Vec<T> = Vec::new();
    proof {
        assert(v.deep_view() =~= Seq::<T::V>::empty());
    }
    v
}

/// Finishes a `valsi` record, reporting the first missing required
/// field in declaration order.
fn fin_word(wb: WordB) -> (r: Result<Word, ParseError>)
    ensures
        match r {
            Ok(w) => sp_fin_word(wb@) == Ok::<_, ErrV>(w@),
            Err(e) => sp_fin_word(wb@) == Err::<crate::model::WordV, _>(e@),
        },
{
    let WordB { word, ty, unofficial, rafsi, selmaho, user, definition, definition_id, notes, glosses, keywords } = wb;
    let word = match word {
        Some(w) => w,
        None => {
            return Err(
                ParseError::MissingField { name: "valsi".to_owned(), field: "word".to_owned() },
            );
        },
    };
    let ty = match ty {
        Some(t) => t,
        None => {
            return Err(
                ParseError::MissingField { name: "valsi".to_owned(), field: "type".to_owned() },
            );
        },
    };
    let user = match user {
        Some(u) => u,
        None => {
            return Err(
                ParseError::MissingField { name: "valsi".to_owned(), field: "user".to_owned() },
            );
        },
    };
    let definition = match definition {
        Some(d) => d,
        None => {
            return Err(
                ParseError::MissingField {
                    name: "valsi".to_owned(),
                    field: "definition".to_owned(),
                },
            );
        },
    };
    let definition_id = match definition_id {
        Some(d) => d,
        None => {
            return Err(
                ParseError::MissingField {
                    name: "valsi".to_owned(),
                    field: "definitionid".to_owned(),
                },
            );
        },
    };
    let unofficial = match unofficial {
        Some(b) => b,
        None => false,
    };
    Ok(
        Word {
            word,
            ty,
            unofficial,
            rafsi,
            selmaho,
            user,
            definition,
            definition_id,
            notes,
            glosses,
            keywords,
        },
    )
}

/// Finishes a `user` record.
fn fin_user(ub: UserB) -> (r: Result<User, ParseError>)
    ensures
        match r {
            Ok(u) => sp_fin_user(ub@) == Ok::<_, ErrV>(u@),
            Err(e) => sp_fin_user(ub@) == Err::<crate::model::UserV, _>(e@),
        },
{
    let UserB { username, realname } = ub;
    let username = match username {
        Some(u) => u,
        None => {
            return Err(
                ParseError::MissingField { name: "user".to_owned(), field: "username".to_owned() },
            );
        },
    };
    Ok(User { username, realname })
}

/// Finishes a `glossword` record.
fn fin_gloss(gb: GlossB) -> (r: Result<GlossWord, ParseError>)
    ensures
        match r {
            Ok(g) => sp_fin_gloss(gb@) == Ok::<_, ErrV>(g@),
            Err(e) => sp_fin_gloss(gb@) == Err::<crate::model::GlossWordV, _>(e@),
        },
{
    let GlossB { word, sense } = gb;
    let word = match word {
        Some(w) => w,
        None => {
            return Err(
                ParseError::MissingField { name: "glossword".to_owned(), field: "word".to_owned() },
            );
        },
    };
    Ok(GlossWord { word, sense })
}

/// Finishes a `keyword` record.
fn fin_key(kb: KeyB) -> (r: Result<Keyword, ParseError>)
    ensures
        match r {
            Ok(k) => sp_fin_key(kb@) == Ok::<_, ErrV>(k@),
            Err(e) => sp_fin_key(kb@) == Err::<crate::model::KeywordV, _>(e@),
        },
{
    let KeyB { word, place, sense } = kb;
    let word = match word {
        Some(w) => w,
        None => {
            return Err(
                ParseError::MissingField { name: "keyword".to_owned(), field: "word".to_owned() },
            );
        },
    };
    let place = match place {
        Some(p) => p,
        None => {
            return Err(
                ParseError::MissingField { name: "keyword".to_owned(), field: "place".to_owned() },
            );
        },
    };
    Ok(Keyword { word, place, sense })
}

/// Finishes an `nlword` record.
fn fin_nl(nb: NlB) -> (r: Result<NlWord, ParseError>)
    ensures
        match r {
            Ok(n) => sp_fin_nl(nb@) == Ok::<_, ErrV>(n@),
            Err(e) => sp_fin_nl(nb@) == Err::<crate::model::NlWordV, _>(e@),
        },
{
    let NlB { word, sense, place, valsi } = nb;
    let word = match word {
        Some(w) => w,
        None => {
            return Err(
                ParseError::MissingField { name: "nlword".to_owned(), field: "word".to_owned() },
            );
        },
    };
    let valsi = match valsi {
        Some(v) => v,
        None => {
            return Err(
                ParseError::MissingField { name: "nlword".to_owned(), field: "valsi".to_owned() },
            );
        },
    };
    Ok(NlWord { word, sense, place, valsi })
}

/// Commits a flattened-text field of a `valsi`.
fn commit_word_flat(wb: WordB, field: WordField, buf: String) -> (r: Result<WordB, ParseError>)
    ensures
        match r {
            Ok(wb2) => sp_commit_word_flat(wb@, field, buf@) == Ok::<_, ErrV>(wb2@),
            Err(e) => sp_commit_word_flat(wb@, field, buf@) == Err::<WordBV, _>(e@),
        },
{
    let mut wb = wb;
    match field {
        WordField::Rafsi => {
            push_dv(&mut wb.rafsi, buf);
            Ok(wb)
        },
        WordField::Selmaho => {
            wb.selmaho = Some(buf);
            Ok(wb)
        },
        WordField::Definition => {
            wb.definition = Some(buf);
            Ok(wb)
        },
        WordField::DefinitionId => match parse_u32(buf.as_str()) {
            Some(n) => {
                wb.definition_id = Some(n);
                Ok(wb)
            },
            None => Err(
                ParseError::InvalidValue { field: "definitionid".to_owned(), value: buf },
            ),
        },
        WordField::Notes => {
            wb.notes = Some(buf);
            Ok(wb)
        },
    }
}

/// Commits a flattened-text field of a `user`.
fn commit_user_flat(ub: UserB, field: UserField, buf: String) -> (r: UserB)
    ensures
        r@ == sp_commit_user_flat(ub@, field, buf@),
{
    let mut ub = ub;
    match field {
        UserField::Username => {
            ub.username = Some(buf);
        },
        UserField::Realname => {
            ub.realname = Some(buf);
        },
    }
    ub
}

fn step_prologue(e: &Event) -> (r: Step)
    ensures
        r@ == sp_step_prologue(e@),
{
    match e {
        Event::Open(t) => if str_eq(t.as_str(), "dictionary") {
            Step::Next(Mode::DictAttrs)
        } else {
            Step::Next(Mode::SkipAttrs { tag: t.clone(), depth: 0 })
        },
        Event::Misc => Step::Next(Mode::Prologue),
        Event::Fault(m) => Step::Fail(ParseError::Tokenization { message: m.clone() }),
        _ => Step::Fail(ParseError::UnexpectedToken),
    }
}

fn step_skip_attrs(tag: String, depth: u64, e: &Event) -> (r: Step)
    ensures
        r@ == sp_step_skip_attrs(tag@, depth, e@),
{
    match e {
        Event::Attr(_, _) => Step::Next(Mode::SkipAttrs { tag, depth }),
        Event::TagEmpty => if depth == 0 {
            Step::Next(Mode::Prologue)
        } else {
            Step::Next(Mode::SkipBody { tag, depth })
        },
        Event::TagDone => Step::Next(Mode::SkipBody { tag, depth: sp_inc_exec(depth) }),
        Event::Fault(m) => Step::Fail(ParseError::Tokenization { message: m.clone() }),
        _ => Step::Fail(ParseError::UnexpectedToken),
    }
}

/// One more level of same-tag nesting.
fn sp_inc_exec(d: u64) -> (r: u64)
    ensures
        r == sp_inc(d),
{
    if d == u64::MAX {
        0
    } else {
        d + 1
    }
}

fn step_skip_body(tag: String, depth: u64, e: &Event) -> (r: Step)
    ensures
        r@ == sp_step_skip_body(tag@, depth, e@),
{
    match e {
        Event::Open(t) => if str_eq(t.as_str(), tag.as_str()) {
            Step::Next(Mode::SkipAttrs { tag, depth })
        } else {
            Step::Next(Mode::SkipBody { tag, depth })
        },
        Event::Close(t) => if str_eq(t.as_str(), tag.as_str()) {
            if depth <= 1 {
                Step::Next(Mode::Prologue)
            } else {
                Step::Next(Mode::SkipBody { tag, depth: depth - 1 })
            }
        } else {
            Step::Next(Mode::SkipBody { tag, depth })
        },
        Event::Fault(m) => Step::Fail(ParseError::Tokenization { message: m.clone() }),
        _ => Step::Next(Mode::SkipBody { tag, depth }),
    }
}

fn step_dict_attrs(e: &Event) -> (r: Step)
    ensures
        r@ == sp_step_dict_attrs(e@),
{
    match e {
        Event::Attr(k, v) => match lex::unescape(v.as_str()) {
            Err(pe) => Step::Fail(pe),
            Ok(_) => Step::Fail(
                ParseError::UnknownField { name: "Dictionary".to_owned(), field: k.clone() },
            ),
        },
        Event::TagDone => Step::Next(Mode::DictBody { dict: DictB { l2e: None, e2l: None } }),
        Event::TagEmpty => Step::Fail(
            ParseError::MissingField {
                name: "Dictionary".to_owned(),
                field: "early end".to_owned(),
            },
        ),
        Event::Fault(m) => Step::Fail(ParseError::Tokenization { message: m.clone() }),
        _ => Step::Fail(ParseError::UnexpectedToken),
    }
}

fn step_dict_body(dict: DictB, e: &Event) -> (r: Step)
    ensures
        r@ == sp_step_dict_body(dict@, e@),
{
    match e {
        Event::Open(t) => if str_eq(t.as_str(), "direction") {
            Step::Next(Mode::DirAttrs { dict, from: None, to: None })
        } else {
            Step::Fail(
                ParseError::UnknownField { name: "Dictionary".to_owned(), field: t.clone() },
            )
        },
        Event::Close(t) => if str_eq(t.as_str(), "dictionary") {
            let DictB { l2e, e2l } = dict;
            match l2e {
                None => Step::Fail(
                    ParseError::MissingField {
                        name: "Dictionary".to_owned(),
                        field: "lojban to english".to_owned(),
                    },
                ),
                Some(l) => match e2l {
                    None => Step::Fail(
                        ParseError::MissingField {
                            name: "Dictionary".to_owned(),
                            field: "english to lojban".to_owned(),
                        },
                    ),
                    Some(n) => Step::Finish(
                        Dictionary { lojban_to_english: l, english_to_lojban: n },
                    ),
                },
            }
        } else {
            Step::Fail(
                ParseError::TagMismatch { expected: "dictionary".to_owned(), found: t.clone() },
            )
        },
        Event::Text(_) => Step::Next(Mode::DictBody { dict }),
        Event::Cdata(_) => Step::Next(Mode::DictBody { dict }),
        Event::Misc => Step::Next(Mode::DictBody { dict }),
        Event::Fault(m) => Step::Fail(ParseError::Tokenization { message: m.clone() }),
        _ => Step::Fail(ParseError::UnexpectedToken),
    }
}

fn step_dir_attrs(dict: DictB, from: Option<String>, to: Option<String>, e: &Event) -> (r: Step)
    ensures
        r@ == sp_step_dir_attrs(dict@, from.deep_view(), to.deep_view(), e@),
{
    match e {
        Event::Attr(k, v) => match lex::unescape(v.as_str()) {
            Err(pe) => Step::Fail(pe),
            Ok(u) => if str_eq(k.as_str(), "from") {
                Step::Next(Mode::DirAttrs { dict, from: Some(u), to })
            } else if str_eq(k.as_str(), "to") {
                Step::Next(Mode::DirAttrs { dict, from, to: Some(u) })
            } else {
                Step::Fail(
                    ParseError::UnknownField { name: "direction".to_owned(), field: k.clone() },
                )
            },
        },
        Event::TagEmpty => Step::Fail(
            ParseError::MissingField {
                name: "direction".to_owned(),
                field: "early end".to_owned(),
            },
        ),
        Event::TagDone => {
            let from_l = match &from {
                Some(f) => str_eq(f.as_str(), "lojban"),
                None => false,
            };
            let to_e = match &to {
                Some(t) => str_eq(t.as_str(), "English"),
                None => false,
            };
            let from_e = match &from {
                Some(f) => str_eq(f.as_str(), "English"),
                None => false,
            };
            let to_l = match &to {
                Some(t) => str_eq(t.as_str(), "lojban"),
                None => false,
            };
            if from_l && to_e {
                Step::Next(Mode::DirWords { dict, words: new_vec_dv() })
            } else if from_e && to_l {
                Step::Next(Mode::DirNls { dict, nls: new_vec_dv() })
            } else {
                Step::Fail(
                    ParseError::UnknownField {
                        name: "Dictionary".to_owned(),
                        field: "unknown direction".to_owned(),
                    },
                )
            }
        },
        Event::Fault(m) => Step::Fail(ParseError::Tokenization { message: m.clone() }),
        _ => Step::Fail(ParseError::UnexpectedToken),
    }
}

fn step_dir_words(dict: DictB, words: Vec<Word>, e: &Event) -> (r: Step)
    ensures
        r@ == sp_step_dir_words(dict@, words.deep_view(), e@),
{
    match e {
        Event::Open(t) => if str_eq(t.as_str(), "valsi") {
            Step::Next(
                Mode::WordAttrs {
                    dict,
                    words,
                    wb: WordB {
                        word: None,
                        ty: None,
                        unofficial: None,
                        rafsi: new_vec_dv(),
                        selmaho: None,
                        user: None,
                        definition: None,
                        definition_id: None,
                        notes: None,
                        glosses: new_vec_dv(),
                        keywords: new_vec_dv(),
                    },
                },
            )
        } else {
            Step::Fail(
                ParseError::MissingField {
                    name: "lojban-to-english".to_owned(),
                    field: "valsi".to_owned(),
                },
            )
        },
        Event::Close(t) => if str_eq(t.as_str(), "direction") {
            let mut dict = dict;
            dict.l2e = Some(words);
            Step::Next(Mode::DictBody { dict })
        } else {
            Step::Fail(
                ParseError::TagMismatch { expected: "direction".to_owned(), found: t.clone() },
            )
        },
        Event::Text(_) => Step::Next(Mode::DirWords { dict, words }),
        Event::Cdata(_) => Step::Next(Mode::DirWords { dict, words }),
        Event::Misc => Step::Next(Mode::DirWords { dict, words }),
        Event::Fault(m) => Step::Fail(ParseError::Tokenization { message: m.clone() }),
        _ => Step::Fail(ParseError::UnexpectedToken),
    }
}

fn step_dir_nls(dict: DictB, nls: Vec<NlWord>, e: &Event) -> (r: Step)
    ensures
        r@ == sp_step_dir_nls(dict@, nls.deep_view(), e@),
{
    match e {
        Event::Open(t) => if str_eq(t.as_str(), "nlword") {
            Step::Next(
                Mode::NlAttrs {
                    dict,
                    nls,
                    nb: NlB { word: None, sense: None, place: None, valsi: None },
                },
            )
        } else {
            Step::Fail(
                ParseError::MissingField {
                    name: "english-to-lojban".to_owned(),
                    field: "nlword".to_owned(),
                },
            )
        },
        Event::Close(t) => if str_eq(t.as_str(), "direction") {
            let mut dict = dict;
            dict.e2l = Some(nls);
            Step::Next(Mode::DictBody { dict })
        } else {
            Step::Fail(
                ParseError::TagMismatch { expected: "direction".to_owned(), found: t.clone() },
            )
        },
        Event::Text(_) => Step::Next(Mode::DirNls { dict, nls }),
        Event::Cdata(_) => Step::Next(Mode::DirNls { dict, nls }),
        Event::Misc => Step::Next(Mode::DirNls { dict, nls }),
        Event::Fault(m) => Step::Fail(ParseError::Tokenization { message: m.clone() }),
        _ => Step::Fail(ParseError::UnexpectedToken),
    }
}

fn step_word_attrs(dict: DictB, words: Vec<Word>, wb: WordB, e: &Event) -> (r: Step)
    ensures
        r@ == sp_step_word_attrs(dict@, words.deep_view(), wb@, e@),
{
    match e {
        Event::Attr(k, v) => match lex::unescape(v.as_str()) {
            Err(pe) => Step::Fail(pe),
            Ok(u) => if str_eq(k.as_str(), "word") {
                if wb.word.is_some() {
                    Step::Fail(ParseError::DuplicateField { field: "word".to_owned() })
                } else {
                    let mut wb = wb;
                    wb.word = Some(u);
                    Step::Next(Mode::WordAttrs { dict, words, wb })
                }
            } else if str_eq(k.as_str(), "type") {
                if wb.ty.is_some() {
                    Step::Fail(ParseError::DuplicateField { field: "type".to_owned() })
                } else {
                    match WordType::from_str(u.as_str()) {
                        None => Step::Fail(
                            ParseError::InvalidValue { field: "type".to_owned(), value: u },
                        ),
                        Some(wt) => {
                            let mut wb = wb;
                            wb.ty = Some(wt);
                            Step::Next(Mode::WordAttrs { dict, words, wb })
                        },
                    }
                }
            } else if str_eq(k.as_str(), "unofficial") {
                if wb.unofficial.is_some() {
                    Step::Fail(ParseError::DuplicateField { field: "unofficial".to_owned() })
                } else {
                    match parse_bool(u.as_str()) {
                        None => Step::Fail(
                            ParseError::InvalidValue { field: "unofficial".to_owned(), value: u },
                        ),
                        Some(b) => {
                            let mut wb = wb;
                            wb.unofficial = Some(b);
                            Step::Next(Mode::WordAttrs { dict, words, wb })
                        },
                    }
                }
            } else {
                Step::Fail(
                    ParseError::UnknownField { name: "valsi".to_owned(), field: k.clone() },
                )
            },
        },
        Event::TagDone => Step::Next(Mode::WordBody { dict, words, wb }),
        Event::TagEmpty => match fin_word(wb) {
            Err(err) => Step::Fail(err),
            Ok(w) => {
                let mut words = words;
                push_dv(&mut words, w);
                Step::Next(Mode::DirWords { dict, words })
            },
        },
        Event::Fault(m) => Step::Fail(ParseError::Tokenization { message: m.clone() }),
        _ => Step::Fail(ParseError::UnexpectedToken),
    }
}

fn step_word_body(dict: DictB, words: Vec<Word>, wb: WordB, e: &Event) -> (r: Step)
    ensures
        r@ == sp_step_word_body(dict@, words.deep_view(), wb@, e@),
{
    match e {
        Event::Open(t) => if str_eq(t.as_str(), "rafsi") {
            Step::Next(
                Mode::WordFlat { dict, words, wb, field: WordField::Rafsi, buf: String::new() },
            )
        } else if str_eq(t.as_str(), "selmaho") {
            Step::Next(
                Mode::WordFlat { dict, words, wb, field: WordField::Selmaho, buf: String::new() },
            )
        } else if str_eq(t.as_str(), "user") {
            Step::Next(
                Mode::UserAttrs { dict, words, wb, ub: UserB { username: None, realname: None } },
            )
        } else if str_eq(t.as_str(), "definition") {
            Step::Next(
                Mode::WordFlat {
                    dict,
                    words,
                    wb,
                    field: WordField::Definition,
                    buf: String::new(),
                },
            )
        } else if str_eq(t.as_str(), "definitionid") {
            Step::Next(
                Mode::WordFlat {
                    dict,
                    words,
                    wb,
                    field: WordField::DefinitionId,
                    buf: String::new(),
                },
            )
        } else if str_eq(t.as_str(), "notes") {
            Step::Next(
                Mode::WordFlat { dict, words, wb, field: WordField::Notes, buf: String::new() },
            )
        } else if str_eq(t.as_str(), "glossword") {
            Step::Next(
                Mode::GlossAttrs { dict, words, wb, gb: GlossB { word: None, sense: None } },
            )
        } else if str_eq(t.as_str(), "keyword") {
            Step::Next(
                Mode::KeyAttrs {
                    dict,
                    words,
                    wb,
                    kb: KeyB { word: None, place: None, sense: None },
                },
            )
        } else {
            Step::Fail(ParseError::UnknownField { name: "valsi".to_owned(), field: t.clone() })
        },
        Event::Close(t) => if str_eq(t.as_str(), "valsi") {
            match fin_word(wb) {
                Err(err) => Step::Fail(err),
                Ok(w) => {
                    let mut words = words;
                    push_dv(&mut words, w);
                    Step::Next(Mode::DirWords { dict, words })
                },
            }
        } else {
            Step::Fail(ParseError::TagMismatch { expected: "valsi".to_owned(), found: t.clone() })
        },
        Event::Text(_) => Step::Next(Mode::WordBody { dict, words, wb }),
        Event::Cdata(_) => Step::Next(Mode::WordBody { dict, words, wb }),
        Event::Misc => Step::Next(Mode::WordBody { dict, words, wb }),
        Event::Fault(m) => Step::Fail(ParseError::Tokenization { message: m.clone() }),
        _ => Step::Fail(ParseError::UnexpectedToken),
    }
}

/// The tag of a flattened `valsi` field.
fn word_field_tag(f: WordField) -> (r: &'static str)
    ensures
        r@ == sp_word_field_tag(f),
{
    match f {
        WordField::Rafsi => "rafsi",
        WordField::Selmaho => "selmaho",
        WordField::Definition => "definition",
        WordField::DefinitionId => "definitionid",
        WordField::Notes => "notes",
    }
}

fn step_word_flat(
    dict: DictB,
    words: Vec<Word>,
    wb: WordB,
    field: WordField,
    buf: String,
    e: &Event,
) -> (r: Step)
    ensures
        r@ == sp_step_word_flat(dict@, words.deep_view(), wb@, field, buf@, e@),
{
    match e {
        Event::Attr(_, _) => Step::Next(Mode::WordFlat { dict, words, wb, field, buf }),
        Event::TagDone => Step::Next(Mode::WordFlat { dict, words, wb, field, buf }),
        Event::Text(t) => match lex::unescape(t.as_str()) {
            Err(pe) => Step::Fail(pe),
            Ok(u) => {
                let mut buf = buf;
                buf.append(u.as_str());
                Step::Next(Mode::WordFlat { dict, words, wb, field, buf })
            },
        },
        Event::Cdata(t) => {
            let mut buf = buf;
            buf.append(t.as_str());
            Step::Next(Mode::WordFlat { dict, words, wb, field, buf })
        },
        Event::Close(t) => if str_eq(t.as_str(), word_field_tag(field)) {
            match commit_word_flat(wb, field, buf) {
                Err(err) => Step::Fail(err),
                Ok(wb2) => Step::Next(Mode::WordBody { dict, words, wb: wb2 }),
            }
        } else {
            Step::Fail(
                ParseError::TagMismatch {
                    expected: word_field_tag(field).to_owned(),
                    found: t.clone(),
                },
            )
        },
        Event::TagEmpty => match commit_word_flat(wb, field, buf) {
            Err(err) => Step::Fail(err),
            Ok(wb2) => Step::Next(Mode::WordBody { dict, words, wb: wb2 }),
        },
        Event::Fault(m) => Step::Fail(ParseError::Tokenization { message: m.clone() }),
        _ => Step::Fail(ParseError::UnexpectedToken),
    }
}

fn step_user_attrs(dict: DictB, words: Vec<Word>, wb: WordB, ub: UserB, e: &Event) -> (r: Step)
    ensures
        r@ == sp_step_user_attrs(dict@, words.deep_view(), wb@, ub@, e@),
{
    match e {
        Event::Attr(k, v) => match lex::unescape(v.as_str()) {
            Err(pe) => Step::Fail(pe),
            Ok(_) => Step::Fail(
                ParseError::UnknownField { name: "user".to_owned(), field: k.clone() },
            ),
        },
        Event::TagDone => Step::Next(Mode::UserBody { dict, words, wb, ub }),
        Event::TagEmpty => match fin_user(ub) {
            Err(err) => Step::Fail(err),
            Ok(u) => {
                let mut wb = wb;
                wb.user = Some(u);
                Step::Next(Mode::WordBody { dict, words, wb })
            },
        },
        Event::Fault(m) => Step::Fail(ParseError::Tokenization { message: m.clone() }),
        _ => Step::Fail(ParseError::UnexpectedToken),
    }
}

fn step_user_body(dict: DictB, words: Vec<Word>, wb: WordB, ub: UserB, e: &Event) -> (r: Step)
    ensures
        r@ == sp_step_user_body(dict@, words.deep_view(), wb@, ub@, e@),
{
    match e {
        Event::Open(t) => if str_eq(t.as_str(), "username") {
            Step::Next(
                Mode::UserFlat {
                    dict,
                    words,
                    wb,
                    ub,
                    field: UserField::Username,
                    buf: String::new(),
                },
            )
        } else if str_eq(t.as_str(), "realname") {
            Step::Next(
                Mode::UserFlat {
                    dict,
                    words,
                    wb,
                    ub,
                    field: UserField::Realname,
                    buf: String::new(),
                },
            )
        } else {
            Step::Fail(ParseError::UnknownField { name: "user".to_owned(), field: t.clone() })
        },
        Event::Close(t) => if str_eq(t.as_str(), "user") {
            match fin_user(ub) {
                Err(err) => Step::Fail(err),
                Ok(u) => {
                    let mut wb = wb;
                    wb.user = Some(u);
                    Step::Next(Mode::WordBody { dict, words, wb })
                },
            }
        } else {
            Step::Fail(ParseError::TagMismatch { expected: "user".to_owned(), found: t.clone() })
        },
        Event::Text(_) => Step::Next(Mode::UserBody { dict, words, wb, ub }),
        Event::Cdata(_) => Step::Next(Mode::UserBody { dict, words, wb, ub }),
        Event::Misc => Step::Next(Mode::UserBody { dict, words, wb, ub }),
        Event::Fault(m) => Step::Fail(ParseError::Tokenization { message: m.clone() }),
        _ => Step::Fail(ParseError::UnexpectedToken),
    }
}

/// The tag of a flattened `user` field.
fn user_field_tag(f: UserField) -> (r: &'static str)
    ensures
        r@ == sp_user_field_tag(f),
{
    match f {
        UserField::Username => "username",
        UserField::Realname => "realname",
    }
}

fn step_user_flat(
    dict: DictB,
    words: Vec<Word>,
    wb: WordB,
    ub: UserB,
    field: UserField,
    buf: String,
    e: &Event,
) -> (r: Step)
    ensures
        r@ == sp_step_user_flat(dict@, words.deep_view(), wb@, ub@, field, buf@, e@),
{
    match e {
        Event::Attr(_, _) => Step::Next(Mode::UserFlat { dict, words, wb, ub, field, buf }),
        Event::TagDone => Step::Next(Mode::UserFlat { dict, words, wb, ub, field, buf }),
        Event::Text(t) => match lex::unescape(t.as_str()) {
            Err(pe) => Step::Fail(pe),
            Ok(u) => {
                let mut buf = buf;
                buf.append(u.as_str());
                Step::Next(Mode::UserFlat { dict, words, wb, ub, field, buf })
            },
        },
        Event::Cdata(t) => {
            let mut buf = buf;
            buf.append(t.as_str());
            Step::Next(Mode::UserFlat { dict, words, wb, ub, field, buf })
        },
        Event::Close(t) => if str_eq(t.as_str(), user_field_tag(field)) {
            Step::Next(Mode::UserBody { dict, words, wb, ub: commit_user_flat(ub, field, buf) })
        } else {
            Step::Fail(
                ParseError::TagMismatch {
                    expected: user_field_tag(field).to_owned(),
                    found: t.clone(),
                },
            )
        },
        Event::TagEmpty => Step::Next(
            Mode::UserBody { dict, words, wb, ub: commit_user_flat(ub, field, buf) },
        ),
        Event::Fault(m) => Step::Fail(ParseError::Tokenization { message: m.clone() }),
        _ => Step::Fail(ParseError::UnexpectedToken),
    }
}

fn step_gloss_attrs(dict: DictB, words: Vec<Word>, wb: WordB, gb: GlossB, e: &Event) -> (r: Step)
    ensures
        r@ == sp_step_gloss_attrs(dict@, words.deep_view(), wb@, gb@, e@),
{
    match e {
        Event::Attr(k, v) => match lex::unescape(v.as_str()) {
            Err(pe) => Step::Fail(pe),
            Ok(u) => if str_eq(k.as_str(), "word") {
                if gb.word.is_some() {
                    Step::Fail(ParseError::DuplicateField { field: "word".to_owned() })
                } else {
                    let mut gb = gb;
                    gb.word = Some(u);
                    Step::Next(Mode::GlossAttrs { dict, words, wb, gb })
                }
            } else if str_eq(k.as_str(), "sense") {
                if gb.sense.is_some() {
                    Step::Fail(ParseError::DuplicateField { field: "sense".to_owned() })
                } else {
                    let mut gb = gb;
                    gb.sense = Some(u);
                    Step::Next(Mode::GlossAttrs { dict, words, wb, gb })
                }
            } else {
                Step::Fail(
                    ParseError::UnknownField { name: "glossword".to_owned(), field: k.clone() },
                )
            },
        },
        Event::TagDone => Step::Next(Mode::GlossBody { dict, words, wb, gb }),
        Event::TagEmpty => match fin_gloss(gb) {
            Err(err) => Step::Fail(err),
            Ok(g) => {
                let mut wb = wb;
                push_dv(&mut wb.glosses, g);
                Step::Next(Mode::WordBody { dict, words, wb })
            },
        },
        Event::Fault(m) => Step::Fail(ParseError::Tokenization { message: m.clone() }),
        _ => Step::Fail(ParseError::UnexpectedToken),
    }
}

fn step_gloss_body(dict: DictB, words: Vec<Word>, wb: WordB, gb: GlossB, e: &Event) -> (r: Step)
    ensures
        r@ == sp_step_gloss_body(dict@, words.deep_view(), wb@, gb@, e@),
{
    match e {
        Event::Open(t) => Step::Fail(
            ParseError::UnknownField { name: "glossword".to_owned(), field: t.clone() },
        ),
        Event::Close(t) => if str_eq(t.as_str(), "glossword") {
            match fin_gloss(gb) {
                Err(err) => Step::Fail(err),
                Ok(g) => {
                    let mut wb = wb;
                    push_dv(&mut wb.glosses, g);
                    Step::Next(Mode::WordBody { dict, words, wb })
                },
            }
        } else {
            Step::Fail(
                ParseError::TagMismatch { expected: "glossword".to_owned(), found: t.clone() },
            )
        },
        Event::Text(_) => Step::Next(Mode::GlossBody { dict, words, wb, gb }),
        Event::Cdata(_) => Step::Next(Mode::GlossBody { dict, words, wb, gb }),
        Event::Misc => Step::Next(Mode::GlossBody { dict, words, wb, gb }),
        Event::Fault(m) => Step::Fail(ParseError::Tokenization { message: m.clone() }),
        _ => Step::Fail(ParseError::UnexpectedToken),
    }
}

fn step_key_attrs(dict: DictB, words: Vec<Word>, wb: WordB, kb: KeyB, e: &Event) -> (r: Step)
    ensures
        r@ == sp_step_key_attrs(dict@, words.deep_view(), wb@, kb@, e@),
{
    match e {
        Event::Attr(k, v) => match lex::unescape(v.as_str()) {
            Err(pe) => Step::Fail(pe),
            Ok(u) => if str_eq(k.as_str(), "word") {
                if kb.word.is_some() {
                    Step::Fail(ParseError::DuplicateField { field: "word".to_owned() })
                } else {
                    let mut kb = kb;
                    kb.word = Some(u);
                    Step::Next(Mode::KeyAttrs { dict, words, wb, kb })
                }
            } else if str_eq(k.as_str(), "place") {
                if kb.place.is_some() {
                    Step::Fail(ParseError::DuplicateField { field: "place".to_owned() })
                } else {
                    match parse_u32(u.as_str()) {
                        None => Step::Fail(
                            ParseError::InvalidValue { field: "place".to_owned(), value: u },
                        ),
                        Some(n) => {
                            let mut kb = kb;
                            kb.place = Some(n);
                            Step::Next(Mode::KeyAttrs { dict, words, wb, kb })
                        },
                    }
                }
            } else if str_eq(k.as_str(), "sense") {
                if kb.sense.is_some() {
                    Step::Fail(ParseError::DuplicateField { field: "sense".to_owned() })
                } else {
                    let mut kb = kb;
                    kb.sense = Some(u);
                    Step::Next(Mode::KeyAttrs { dict, words, wb, kb })
                }
            } else {
                Step::Fail(
                    ParseError::UnknownField { name: "keyword".to_owned(), field: k.clone() },
                )
            },
        },
        Event::TagDone => Step::Next(Mode::KeyBody { dict, words, wb, kb }),
        Event::TagEmpty => match fin_key(kb) {
            Err(err) => Step::Fail(err),
            Ok(kw) => {
                let mut wb = wb;
                push_dv(&mut wb.keywords, kw);
                Step::Next(Mode::WordBody { dict, words, wb })
            },
        },
        Event::Fault(m) => Step::Fail(ParseError::Tokenization { message: m.clone() }),
        _ => Step::Fail(ParseError::UnexpectedToken),
    }
}

fn step_key_body(dict: DictB, words: Vec<Word>, wb: WordB, kb: KeyB, e: &Event) -> (r: Step)
    ensures
        r@ == sp_step_key_body(dict@, words.deep_view(), wb@, kb@, e@),
{
    match e {
        Event::Open(t) => Step::Fail(
            ParseError::UnknownField { name: "keyword".to_owned(), field: t.clone() },
        ),
        Event::Close(t) => if str_eq(t.as_str(), "keyword") {
            match fin_key(kb) {
                Err(err) => Step::Fail(err),
                Ok(kw) => {
                    let mut wb = wb;
                    push_dv(&mut wb.keywords, kw);
                    Step::Next(Mode::WordBody { dict, words, wb })
                },
            }
        } else {
            Step::Fail(
                ParseError::TagMismatch { expected: "keyword".to_owned(), found: t.clone() },
            )
        },
        Event::Text(_) => Step::Next(Mode::KeyBody { dict, words, wb, kb }),
        Event::Cdata(_) => Step::Next(Mode::KeyBody { dict, words, wb, kb }),
        Event::Misc => Step::Next(Mode::KeyBody { dict, words, wb, kb }),
        Event::Fault(m) => Step::Fail(ParseError::Tokenization { message: m.clone() }),
        _ => Step::Fail(ParseError::UnexpectedToken),
    }
}

fn step_nl_attrs(dict: DictB, nls: Vec<NlWord>, nb: NlB, e: &Event) -> (r: Step)
    ensures
        r@ == sp_step_nl_attrs(dict@, nls.deep_view(), nb@, e@),
{
    match e {
        Event::Attr(k, v) => match lex::unescape(v.as_str()) {
            Err(pe) => Step::Fail(pe),
            Ok(u) => if str_eq(k.as_str(), "word") {
                if nb.word.is_some() {
                    Step::Fail(ParseError::DuplicateField { field: "word".to_owned() })
                } else {
                    let mut nb = nb;
                    nb.word = Some(u);
                    Step::Next(Mode::NlAttrs { dict, nls, nb })
                }
            } else if str_eq(k.as_str(), "sense") {
                if nb.sense.is_some() {
                    Step::Fail(ParseError::DuplicateField { field: "sense".to_owned() })
                } else {
                    let mut nb = nb;
                    nb.sense = Some(u);
                    Step::Next(Mode::NlAttrs { dict, nls, nb })
                }
            } else if str_eq(k.as_str(), "place") {
                if nb.place.is_some() {
                    Step::Fail(ParseError::DuplicateField { field: "place".to_owned() })
                } else {
                    match parse_u32(u.as_str()) {
                        None => Step::Fail(
                            ParseError::InvalidValue { field: "place".to_owned(), value: u },
                        ),
                        Some(n) => {
                            let mut nb = nb;
                            nb.place = Some(n);
                            Step::Next(Mode::NlAttrs { dict, nls, nb })
                        },
                    }
                }
            } else if str_eq(k.as_str(), "valsi") {
                if nb.valsi.is_some() {
                    Step::Fail(ParseError::DuplicateField { field: "valsi".to_owned() })
                } else {
                    let mut nb = nb;
                    nb.valsi = Some(u);
                    Step::Next(Mode::NlAttrs { dict, nls, nb })
                }
            } else {
                Step::Fail(
                    ParseError::UnknownField { name: "nlword".to_owned(), field: k.clone() },
                )
            },
        },
        Event::TagDone => Step::Next(Mode::NlBody { dict, nls, nb }),
        Event::TagEmpty => match fin_nl(nb) {
            Err(err) => Step::Fail(err),
            Ok(n) => {
                let mut nls = nls;
                push_dv(&mut nls, n);
                Step::Next(Mode::DirNls { dict, nls })
            },
        },
        Event::Fault(m) => Step::Fail(ParseError::Tokenization { message: m.clone() }),
        _ => Step::Fail(ParseError::UnexpectedToken),
    }
}

fn step_nl_body(dict: DictB, nls: Vec<NlWord>, nb: NlB, e: &Event) -> (r: Step)
    ensures
        r@ == sp_step_nl_body(dict@, nls.deep_view(), nb@, e@),
{
    match e {
        Event::Open(t) => Step::Fail(
            ParseError::UnknownField { name: "nlword".to_owned(), field: t.clone() },
        ),
        Event::Close(t) => if str_eq(t.as_str(), "nlword") {
            match fin_nl(nb) {
                Err(err) => Step::Fail(err),
                Ok(n) => {
                    let mut nls = nls;
                    push_dv(&mut nls, n);
                    Step::Next(Mode::DirNls { dict, nls })
                },
            }
        } else {
            Step::Fail(
                ParseError::TagMismatch { expected: "nlword".to_owned(), found: t.clone() },
            )
        },
        Event::Text(_) => Step::Next(Mode::NlBody { dict, nls, nb }),
        Event::Cdata(_) => Step::Next(Mode::NlBody { dict, nls, nb }),
        Event::Misc => Step::Next(Mode::NlBody { dict, nls, nb }),
        Event::Fault(m) => Step::Fail(ParseError::Tokenization { message: m.clone() }),
        _ => Step::Fail(ParseError::UnexpectedToken),
    }
}

/// One step of the reader, agreeing with [`sp_step`].
pub fn step(m: Mode, e: &Event) -> (r: Step)
    ensures
        r@ == sp_step(m@, e@),
{
    match m {
        Mode::Prologue => step_prologue(e),
        Mode::SkipAttrs { tag, depth } => step_skip_attrs(tag, depth, e),
        Mode::SkipBody { tag, depth } => step_skip_body(tag, depth, e),
        Mode::DictAttrs => step_dict_attrs(e),
        Mode::DictBody { dict } => step_dict_body(dict, e),
        Mode::DirAttrs { dict, from, to } => step_dir_attrs(dict, from, to, e),
        Mode::DirWords { dict, words } => step_dir_words(dict, words, e),
        Mode::DirNls { dict, nls } => step_dir_nls(dict, nls, e),
        Mode::WordAttrs { dict, words, wb } => step_word_attrs(dict, words, wb, e),
        Mode::WordBody { dict, words, wb } => step_word_body(dict, words, wb, e),
        Mode::WordFlat { dict, words, wb, field, buf } => step_word_flat(
            dict,
            words,
            wb,
            field,
            buf,
            e,
        ),
        Mode::UserAttrs { dict, words, wb, ub } => step_user_attrs(dict, words, wb, ub, e),
        Mode::UserBody { dict, words, wb, ub } => step_user_body(dict, words, wb, ub, e),
        Mode::UserFlat { dict, words, wb, ub, field, buf } => step_user_flat(
            dict,
            words,
            wb,
            ub,
            field,
            buf,
            e,
        ),
        Mode::GlossAttrs { dict, words, wb, gb } => step_gloss_attrs(dict, words, wb, gb, e),
        Mode::GlossBody { dict, words, wb, gb } => step_gloss_body(dict, words, wb, gb, e),
        Mode::KeyAttrs { dict, words, wb, kb } => step_key_attrs(dict, words, wb, kb, e),
        Mode::KeyBody { dict, words, wb, kb } => step_key_body(dict, words, wb, kb, e),
        Mode::NlAttrs { dict, nls, nb } => step_nl_attrs(dict, nls, nb, e),
        Mode::NlBody { dict, nls, nb } => step_nl_body(dict, nls, nb, e),
    }
}

/// The error reported when the stream ends in mode `m`, agreeing with
/// [`sp_eof`].
fn eof_error(m: Mode) -> (r: ParseError)
    ensures
        r@ == sp_eof(m@),
{
    match m {
        Mode::WordFlat { field: WordField::DefinitionId, buf, .. } => match parse_u32(
            buf.as_str(),
        ) {
            None => ParseError::InvalidValue { field: "definitionid".to_owned(), value: buf },
            Some(_) => ParseError::UnexpectedEof,
        },
        _ => ParseError::UnexpectedEof,
    }
}

/// Folding the step relation over an event sequence from mode `m`: the
/// result of the whole parse.
pub open spec fn sp_run(evs: Seq<EvV>, m: SpMode) -> Result<DictionaryV, ErrV>
    decreases evs.len(),
{
    if evs.len() == 0 {
        Err(sp_eof(m))
    } else {
        match sp_step(m, evs.first()) {
            SpStep::Next(m2) => sp_run(evs.drop_first(), m2),
            SpStep::Fail(e) => Err(e),
            SpStep::Finish(d) => Ok(d),
        }
    }
}

/// What a parse of the document text returns: the step relation folded
/// over the token stream of the text.
pub open spec fn sp_parse_text(s: Seq<char>) -> Result<DictionaryV, ErrV> {
    sp_run(lex::doc_events(s), SpMode::Prologue)
}

/// Parses one `dictionary` document.  The result is exactly what
/// [`sp_parse_text`] says of the text: the typed dictionary for a
/// schema-conforming document, and the first error anywhere else.
pub fn parse(text: &str) -> (r: Result<Dictionary, ParseError>)
    ensures
        match r {
            Ok(d) => sp_parse_text(text@) == Ok::<_, ErrV>(d@),
            Err(e) => sp_parse_text(text@) == Err::<DictionaryV, _>(e@),
        },
{
    let mut rd = lex::reader_new(text);
    let mut m = Mode::Prologue;
    loop
        invariant
            sp_run(lex::reader_events(rd), m@) == sp_parse_text(text@),
        decreases lex::reader_events(rd).len(),
    {
        match lex::reader_next(&mut rd) {
            None => {
                return Err(eof_error(m));
            },
            Some(ev) => {
                match step(m, &ev) {
                    Step::Next(m2) => {
                        m = m2;
                    },
                    Step::Fail(e) => {
                        return Err(e);
                    },
                    Step::Finish(d) => {
                        return Ok(d);
                    },
                }
            },
        }
    }
}

} // verus!
