//! The schema reader as a state machine over lexical events.
//!
//! One mode per position in the dictionary grammar, one step per event.
//! The spec functions here are the meaning of the reader: `sp_step` says
//! for every mode and event what the reader does, and `sp_eof` what it
//! reports if the stream ends in a mode.  The executable `step` in
//! [`crate::parser`] is proved to agree with `sp_step` arm for arm.

use vstd::prelude::*;

use crate::error::{ErrV, ParseError};
use crate::event::EvV;
use crate::lex::sp_unescape;
use crate::model::{
    Dictionary, DictionaryV, GlossWord, GlossWordV, Keyword, KeywordV, NlWord, NlWordV, User,
    UserV, Word, WordType, WordV, sp_word_type,
};
use crate::textutil::{sp_bool, sp_u32};

verus! {

/// The flattened-text fields of a `valsi` element.
#[derive(Debug, Clone, Copy, PartialEq, Eq)]
pub enum WordField {
    Rafsi,
    Selmaho,
    Definition,
    DefinitionId,
    Notes,
}

/// The tag a [`WordField`] is read from.
pub open spec fn sp_word_field_tag(f: WordField) -> Seq<char> {
    match f {
        WordField::Rafsi => "rafsi"@,
        WordField::Selmaho => "selmaho"@,
        WordField::Definition => "definition"@,
        WordField::DefinitionId => "definitionid"@,
        WordField::Notes => "notes"@,
    }
}

/// The flattened-text fields of a `user` element.
#[derive(Debug, Clone, Copy, PartialEq, Eq)]
pub enum UserField {
    Username,
    Realname,
}

/// The tag a [`UserField`] is read from.
pub open spec fn sp_user_field_tag(f: UserField) -> Seq<char> {
    match f {
        UserField::Username => "username"@,
        UserField::Realname => "realname"@,
    }
}

/// Partial dictionary: each direction once it has been read.
#[derive(Debug, Clone, PartialEq, Eq)]
pub struct DictB {
    pub l2e: Option<Vec<Word>>,
    pub e2l: Option<Vec<NlWord>>,
}

/// View of [`DictB`].
pub struct DictBV {
    pub l2e: Option<Seq<WordV>>,
    pub e2l: Option<Seq<NlWordV>>,
}

impl View for DictB {
    type V = DictBV;

    open spec fn view(&self) -> DictBV {
        DictBV { l2e: self.l2e.deep_view(), e2l: self.e2l.deep_view() }
    }
}

/// Partial `valsi` record.
#[derive(Debug, Clone, PartialEq, Eq)]
pub struct WordB {
    pub word: Option<String>,
    pub ty: Option<WordType>,
    pub unofficial: Option<bool>,
    pub rafsi: Vec<String>,
    pub selmaho: Option<String>,
    pub user: Option<User>,
    pub definition: Option<String>,
    pub definition_id: Option<u32>,
    pub notes: Option<String>,
    pub glosses: Vec<GlossWord>,
    pub keywords: Vec<Keyword>,
}

/// View of [`WordB`].
pub struct WordBV {
    pub word: Option<Seq<char>>,
    pub ty: Option<WordType>,
    pub unofficial: Option<bool>,
    pub rafsi: Seq<Seq<char>>,
    pub selmaho: Option<Seq<char>>,
    pub user: Option<UserV>,
    pub definition: Option<Seq<char>>,
    pub definition_id: Option<u32>,
    pub notes: Option<Seq<char>>,
    pub glosses: Seq<GlossWordV>,
    pub keywords: Seq<KeywordV>,
}

impl View for WordB {
    type V = WordBV;

    open spec fn view(&self) -> WordBV {
        WordBV {
            word: self.word.deep_view(),
            ty: self.ty,
            unofficial: self.unofficial,
            rafsi: self.rafsi.deep_view(),
            selmaho: self.selmaho.deep_view(),
            user: self.user.deep_view(),
            definition: self.definition.deep_view(),
            definition_id: self.definition_id,
            notes: self.notes.deep_view(),
            glosses: self.glosses.deep_view(),
            keywords: self.keywords.deep_view(),
        }
    }
}

/// Partial `user` record.
#[derive(Debug, Clone, PartialEq, Eq)]
pub struct UserB {
    pub username: Option<String>,
    pub realname: Option<String>,
}

/// View of [`UserB`].
pub struct UserBV {
    pub username: Option<Seq<char>>,
    pub realname: Option<Seq<char>>,
}

impl View for UserB {
    type V = UserBV;

    open spec fn view(&self) -> UserBV {
        UserBV { username: self.username.deep_view(), realname: self.realname.deep_view() }
    }
}

/// Partial `glossword` record.
#[derive(Debug, Clone, PartialEq, Eq)]
pub struct GlossB {
    pub word: Option<String>,
    pub sense: Option<String>,
}

/// View of [`GlossB`].
pub struct GlossBV {
    pub word: Option<Seq<char>>,
    pub sense: Option<Seq<char>>,
}

impl View for GlossB {
    type V = GlossBV;

    open spec fn view(&self) -> GlossBV {
        GlossBV { word: self.word.deep_view(), sense: self.sense.deep_view() }
    }
}

/// Partial `keyword` record.
#[derive(Debug, Clone, PartialEq, Eq)]
pub struct KeyB {
    pub word: Option<String>,
    pub place: Option<u32>,
    pub sense: Option<String>,
}

/// View of [`KeyB`].
pub struct KeyBV {
    pub word: Option<Seq<char>>,
    pub place: Option<u32>,
    pub sense: Option<Seq<char>>,
}

impl View for KeyB {
    type V = KeyBV;

    open spec fn view(&self) -> KeyBV {
        KeyBV {
            word: self.word.deep_view(),
            place: self.place,
            sense: self.sense.deep_view(),
        }
    }
}

/// Partial `nlword` record.
#[derive(Debug, Clone, PartialEq, Eq)]
pub struct NlB {
    pub word: Option<String>,
    pub sense: Option<String>,
    pub place: Option<u32>,
    pub valsi: Option<String>,
}

/// View of [`NlB`].
pub struct NlBV {
    pub word: Option<Seq<char>>,
    pub sense: Option<Seq<char>>,
    pub place: Option<u32>,
    pub valsi: Option<Seq<char>>,
}

impl View for NlB {
    type V = NlBV;

    open spec fn view(&self) -> NlBV {
        NlBV {
            word: self.word.deep_view(),
            sense: self.sense.deep_view(),
            place: self.place,
            valsi: self.valsi.deep_view(),
        }
    }
}

/// Where the reader stands in the grammar, with everything read so far.
#[derive(Debug)]
pub enum Mode {
    /// Before the `dictionary` element.
    Prologue,
    /// Inside the start tag of a foreign element being skipped.
    SkipAttrs { tag: String, depth: u64 },
    /// Inside the body of a foreign element being skipped.
    SkipBody { tag: String, depth: u64 },
    /// Inside the start tag of `dictionary`.
    DictAttrs,
    /// Between children of `dictionary`.
    DictBody { dict: DictB },
    /// Inside the start tag of a `direction`.
    DirAttrs { dict: DictB, from: Option<String>, to: Option<String> },
    /// Between children of a lojban-to-English `direction`.
    DirWords { dict: DictB, words: Vec<Word> },
    /// Between children of an English-to-lojban `direction`.
    DirNls { dict: DictB, nls: Vec<NlWord> },
    /// Inside the start tag of a `valsi`.
    WordAttrs { dict: DictB, words: Vec<Word>, wb: WordB },
    /// Between children of a `valsi`.
    WordBody { dict: DictB, words: Vec<Word>, wb: WordB },
    /// Inside a flattened-text child of a `valsi`.
    WordFlat { dict: DictB, words: Vec<Word>, wb: WordB, field: WordField, buf: String },
    /// Inside the start tag of a `user`.
    UserAttrs { dict: DictB, words: Vec<Word>, wb: WordB, ub: UserB },
    /// Between children of a `user`.
    UserBody { dict: DictB, words: Vec<Word>, wb: WordB, ub: UserB },
    /// Inside a flattened-text child of a `user`.
    UserFlat { dict: DictB, words: Vec<Word>, wb: WordB, ub: UserB, field: UserField, buf: String },
    /// Inside the start tag of a `glossword`.
    GlossAttrs { dict: DictB, words: Vec<Word>, wb: WordB, gb: GlossB },
    /// Inside the body of a `glossword`.
    GlossBody { dict: DictB, words: Vec<Word>, wb: WordB, gb: GlossB },
    /// Inside the start tag of a `keyword`.
    KeyAttrs { dict: DictB, words: Vec<Word>, wb: WordB, kb: KeyB },
    /// Inside the body of a `keyword`.
    KeyBody { dict: DictB, words: Vec<Word>, wb: WordB, kb: KeyB },
    /// Inside the start tag of an `nlword`.
    NlAttrs { dict: DictB, nls: Vec<NlWord>, nb: NlB },
    /// Inside the body of an `nlword`.
    NlBody { dict: DictB, nls: Vec<NlWord>, nb: NlB },
}

/// View of [`Mode`].
pub enum SpMode {
    Prologue,
    SkipAttrs { tag: Seq<char>, depth: u64 },
    SkipBody { tag: Seq<char>, depth: u64 },
    DictAttrs,
    DictBody { dict: DictBV },
    DirAttrs { dict: DictBV, from: Option<Seq<char>>, to: Option<Seq<char>> },
    DirWords { dict: DictBV, words: Seq<WordV> },
    DirNls { dict: DictBV, nls: Seq<NlWordV> },
    WordAttrs { dict: DictBV, words: Seq<WordV>, wb: WordBV },
    WordBody { dict: DictBV, words: Seq<WordV>, wb: WordBV },
    WordFlat { dict: DictBV, words: Seq<WordV>, wb: WordBV, field: WordField, buf: Seq<char> },
    UserAttrs { dict: DictBV, words: Seq<WordV>, wb: WordBV, ub: UserBV },
    UserBody { dict: DictBV, words: Seq<WordV>, wb: WordBV, ub: UserBV },
    UserFlat {
        dict: DictBV,
        words: Seq<WordV>,
        wb: WordBV,
        ub: UserBV,
        field: UserField,
        buf: Seq<char>,
    },
    GlossAttrs { dict: DictBV, words: Seq<WordV>, wb: WordBV, gb: GlossBV },
    GlossBody { dict: DictBV, words: Seq<WordV>, wb: WordBV, gb: GlossBV },
    KeyAttrs { dict: DictBV, words: Seq<WordV>, wb: WordBV, kb: KeyBV },
    KeyBody { dict: DictBV, words: Seq<WordV>, wb: WordBV, kb: KeyBV },
    NlAttrs { dict: DictBV, nls: Seq<NlWordV>, nb: NlBV },
    NlBody { dict: DictBV, nls: Seq<NlWordV>, nb: NlBV },
}

impl View for Mode {
    type V = SpMode;

    open spec fn view(&self) -> SpMode {
        match self {
            Mode::Prologue => SpMode::Prologue,
            Mode::SkipAttrs { tag, depth } => SpMode::SkipAttrs { tag: tag@, depth: *depth },
            Mode::SkipBody { tag, depth } => SpMode::SkipBody { tag: tag@, depth: *depth },
            Mode::DictAttrs => SpMode::DictAttrs,
            Mode::DictBody { dict } => SpMode::DictBody { dict: dict@ },
            Mode::DirAttrs { dict, from, to } => SpMode::DirAttrs {
                dict: dict@,
                from: from.deep_view(),
                to: to.deep_view(),
            },
            Mode::DirWords { dict, words } => SpMode::DirWords {
                dict: dict@,
                words: words.deep_view(),
            },
            Mode::DirNls { dict, nls } => SpMode::DirNls { dict: dict@, nls: nls.deep_view() },
            Mode::WordAttrs { dict, words, wb } => SpMode::WordAttrs {
                dict: dict@,
                words: words.deep_view(),
                wb: wb@,
            },
            Mode::WordBody { dict, words, wb } => SpMode::WordBody {
                dict: dict@,
                words: words.deep_view(),
                wb: wb@,
            },
            Mode::WordFlat { dict, words, wb, field, buf } => SpMode::WordFlat {
                dict: dict@,
                words: words.deep_view(),
                wb: wb@,
                field: *field,
                buf: buf@,
            },
            Mode::UserAttrs { dict, words, wb, ub } => SpMode::UserAttrs {
                dict: dict@,
                words: words.deep_view(),
                wb: wb@,
                ub: ub@,
            },
            Mode::UserBody { dict, words, wb, ub } => SpMode::UserBody {
                dict: dict@,
                words: words.deep_view(),
                wb: wb@,
                ub: ub@,
            },
            Mode::UserFlat { dict, words, wb, ub, field, buf } => SpMode::UserFlat {
                dict: dict@,
                words: words.deep_view(),
                wb: wb@,
                ub: ub@,
                field: *field,
                buf: buf@,
            },
            Mode::GlossAttrs { dict, words, wb, gb } => SpMode::GlossAttrs {
                dict: dict@,
                words: words.deep_view(),
                wb: wb@,
                gb: gb@,
            },
            Mode::GlossBody { dict, words, wb, gb } => SpMode::GlossBody {
                dict: dict@,
                words: words.deep_view(),
                wb: wb@,
                gb: gb@,
            },
            Mode::KeyAttrs { dict, words, wb, kb } => SpMode::KeyAttrs {
                dict: dict@,
                words: words.deep_view(),
                wb: wb@,
                kb: kb@,
            },
            Mode::KeyBody { dict, words, wb, kb } => SpMode::KeyBody {
                dict: dict@,
                words: words.deep_view(),
                wb: wb@,
                kb: kb@,
            },
            Mode::NlAttrs { dict, nls, nb } => SpMode::NlAttrs {
                dict: dict@,
                nls: nls.deep_view(),
                nb: nb@,
            },
            Mode::NlBody { dict, nls, nb } => SpMode::NlBody {
                dict: dict@,
                nls: nls.deep_view(),
                nb: nb@,
            },
        }
    }
}

/// What one step of the reader does.
#[derive(Debug)]
pub enum Step {
    /// Consume the event and continue in the given mode.
    Next(Mode),
    /// Abort the parse with the given error.
    Fail(ParseError),
    /// The `dictionary` element closed with both directions present.
    Finish(Dictionary),
}

/// View of [`Step`].
pub enum SpStep {
    Next(SpMode),
    Fail(ErrV),
    Finish(DictionaryV),
}

impl View for Step {
    type V = SpStep;

    open spec fn view(&self) -> SpStep {
        match self {
            Step::Next(m) => SpStep::Next(m@),
            Step::Fail(e) => SpStep::Fail(e@),
            Step::Finish(d) => SpStep::Finish(d@),
        }
    }
}

/// A finished `valsi` record, or which required field is missing, in
/// declaration order.
pub open spec fn sp_fin_word(wb: WordBV) -> Result<WordV, ErrV> {
    if wb.word is None {
        Err(ErrV::MissingField { name: "valsi"@, field: "word"@ })
    } else if wb.ty is None {
        Err(ErrV::MissingField { name: "valsi"@, field: "type"@ })
    } else if wb.user is None {
        Err(ErrV::MissingField { name: "valsi"@, field: "user"@ })
    } else if wb.definition is None {
        Err(ErrV::MissingField { name: "valsi"@, field: "definition"@ })
    } else if wb.definition_id is None {
        Err(ErrV::MissingField { name: "valsi"@, field: "definitionid"@ })
    } else {
        Ok(WordV {
            word: wb.word->0,
            ty: wb.ty->0,
            unofficial: match wb.unofficial {
                Some(b) => b,
                None => false,
            },
            rafsi: wb.rafsi,
            selmaho: wb.selmaho,
            user: wb.user->0,
            definition: wb.definition->0,
            definition_id: wb.definition_id->0,
            notes: wb.notes,
            glosses: wb.glosses,
            keywords: wb.keywords,
        })
    }
}

/// A finished `user` record, or its missing required field.
pub open spec fn sp_fin_user(ub: UserBV) -> Result<UserV, ErrV> {
    if ub.username is None {
        Err(ErrV::MissingField { name: "user"@, field: "username"@ })
    } else {
        Ok(UserV { username: ub.username->0, realname: ub.realname })
    }
}

/// A finished `glossword` record, or its missing required field.
pub open spec fn sp_fin_gloss(gb: GlossBV) -> Result<GlossWordV, ErrV> {
    if gb.word is None {
        Err(ErrV::MissingField { name: "glossword"@, field: "word"@ })
    } else {
        Ok(GlossWordV { word: gb.word->0, sense: gb.sense })
    }
}

/// A finished `keyword` record, or its missing required field.
pub open spec fn sp_fin_key(kb: KeyBV) -> Result<KeywordV, ErrV> {
    if kb.word is None {
        Err(ErrV::MissingField { name: "keyword"@, field: "word"@ })
    } else if kb.place is None {
        Err(ErrV::MissingField { name: "keyword"@, field: "place"@ })
    } else {
        Ok(KeywordV { word: kb.word->0, place: kb.place->0, sense: kb.sense })
    }
}

/// A finished `nlword` record, or its missing required field.
pub open spec fn sp_fin_nl(nb: NlBV) -> Result<NlWordV, ErrV> {
    if nb.word is None {
        Err(ErrV::MissingField { name: "nlword"@, field: "word"@ })
    } else if nb.valsi is None {
        Err(ErrV::MissingField { name: "nlword"@, field: "valsi"@ })
    } else {
        Ok(NlWordV { word: nb.word->0, sense: nb.sense, place: nb.place, valsi: nb.valsi->0 })
    }
}

/// The committed flattened-text field of a `valsi`, or the value error
/// its type reports.
pub open spec fn sp_commit_word_flat(wb: WordBV, field: WordField, buf: Seq<char>) -> Result<
    WordBV,
    ErrV,
> {
    match field {
        WordField::Rafsi => Ok(WordBV { rafsi: wb.rafsi.push(buf), ..wb }),
        WordField::Selmaho => Ok(WordBV { selmaho: Some(buf), ..wb }),
        WordField::Definition => Ok(WordBV { definition: Some(buf), ..wb }),
        WordField::DefinitionId => match sp_u32(buf) {
            Some(n) => Ok(WordBV { definition_id: Some(n), ..wb }),
            None => Err(ErrV::InvalidValue { field: "definitionid"@, value: buf }),
        },
        WordField::Notes => Ok(WordBV { notes: Some(buf), ..wb }),
    }
}

/// The committed flattened-text field of a `user`.
pub open spec fn sp_commit_user_flat(ub: UserBV, field: UserField, buf: Seq<char>) -> UserBV {
    match field {
        UserField::Username => UserBV { username: Some(buf), ..ub },
        UserField::Realname => UserBV { realname: Some(buf), ..ub },
    }
}

/// The step relation of the reader: what happens in mode `m` on event
/// `e`.
pub open spec fn sp_step(m: SpMode, e: EvV) -> SpStep {
    match m {
        SpMode::Prologue => sp_step_prologue(e),
        SpMode::SkipAttrs { tag, depth } => sp_step_skip_attrs(tag, depth, e),
        SpMode::SkipBody { tag, depth } => sp_step_skip_body(tag, depth, e),
        SpMode::DictAttrs => sp_step_dict_attrs(e),
        SpMode::DictBody { dict } => sp_step_dict_body(dict, e),
        SpMode::DirAttrs { dict, from, to } => sp_step_dir_attrs(dict, from, to, e),
        SpMode::DirWords { dict, words } => sp_step_dir_words(dict, words, e),
        SpMode::DirNls { dict, nls } => sp_step_dir_nls(dict, nls, e),
        SpMode::WordAttrs { dict, words, wb } => sp_step_word_attrs(dict, words, wb, e),
        SpMode::WordBody { dict, words, wb } => sp_step_word_body(dict, words, wb, e),
        SpMode::WordFlat { dict, words, wb, field, buf } => sp_step_word_flat(
            dict,
            words,
            wb,
            field,
            buf,
            e,
        ),
        SpMode::UserAttrs { dict, words, wb, ub } => sp_step_user_attrs(dict, words, wb, ub, e),
        SpMode::UserBody { dict, words, wb, ub } => sp_step_user_body(dict, words, wb, ub, e),
        SpMode::UserFlat { dict, words, wb, ub, field, buf } => sp_step_user_flat(
            dict,
            words,
            wb,
            ub,
            field,
            buf,
            e,
        ),
        SpMode::GlossAttrs { dict, words, wb, gb } => sp_step_gloss_attrs(dict, words, wb, gb, e),
        SpMode::GlossBody { dict, words, wb, gb } => sp_step_gloss_body(dict, words, wb, gb, e),
        SpMode::KeyAttrs { dict, words, wb, kb } => sp_step_key_attrs(dict, words, wb, kb, e),
        SpMode::KeyBody { dict, words, wb, kb } => sp_step_key_body(dict, words, wb, kb, e),
        SpMode::NlAttrs { dict, nls, nb } => sp_step_nl_attrs(dict, nls, nb, e),
        SpMode::NlBody { dict, nls, nb } => sp_step_nl_body(dict, nls, nb, e),
    }
}

/// Before the root: skip prolog markup, open `dictionary`, or skip a
/// foreign element whole.
pub open spec fn sp_step_prologue(e: EvV) -> SpStep {
    match e {
        EvV::Open(t) => if t == "dictionary"@ {
            SpStep::Next(SpMode::DictAttrs)
        } else {
            SpStep::Next(SpMode::SkipAttrs { tag: t, depth: 0 })
        },
        EvV::Misc => SpStep::Next(SpMode::Prologue),
        EvV::Fault(msg) => SpStep::Fail(ErrV::Tokenization { message: msg }),
        _ => SpStep::Fail(ErrV::UnexpectedToken),
    }
}

/// One more level of same-tag nesting while skipping, wrapping as the
/// machine word does.
pub open spec fn sp_inc(d: u64) -> u64 {
    if d == u64::MAX {
        0
    } else {
        (d + 1) as u64
    }
}

/// Skipping a foreign element: inside its start tag.
pub open spec fn sp_step_skip_attrs(tag: Seq<char>, depth: u64, e: EvV) -> SpStep {
    match e {
        EvV::Attr(_, _) => SpStep::Next(SpMode::SkipAttrs { tag, depth }),
        EvV::TagEmpty => if depth == 0 {
            SpStep::Next(SpMode::Prologue)
        } else {
            SpStep::Next(SpMode::SkipBody { tag, depth })
        },
        EvV::TagDone => SpStep::Next(SpMode::SkipBody { tag, depth: sp_inc(depth) }),
        EvV::Fault(msg) => SpStep::Fail(ErrV::Tokenization { message: msg }),
        _ => SpStep::Fail(ErrV::UnexpectedToken),
    }
}

/// Skipping a foreign element: inside its body, counting same-tag
/// nesting.
pub open spec fn sp_step_skip_body(tag: Seq<char>, depth: u64, e: EvV) -> SpStep {
    match e {
        EvV::Open(t) => if t == tag {
            SpStep::Next(SpMode::SkipAttrs { tag, depth })
        } else {
            SpStep::Next(SpMode::SkipBody { tag, depth })
        },
        EvV::Close(t) => if t == tag {
            if depth <= 1 {
                SpStep::Next(SpMode::Prologue)
            } else {
                SpStep::Next(SpMode::SkipBody { tag, depth: (depth - 1) as u64 })
            }
        } else {
            SpStep::Next(SpMode::SkipBody { tag, depth })
        },
        EvV::Fault(msg) => SpStep::Fail(ErrV::Tokenization { message: msg }),
        _ => SpStep::Next(SpMode::SkipBody { tag, depth }),
    }
}

/// Inside the `dictionary` start tag: no attribute is permitted, and a
/// childless root is an error.
pub open spec fn sp_step_dict_attrs(e: EvV) -> SpStep {
    match e {
        EvV::Attr(k, v) => match sp_unescape(v) {
            None => SpStep::Fail(ErrV::BadEntity { value: v }),
            Some(_) => SpStep::Fail(ErrV::UnknownField { name: "Dictionary"@, field: k }),
        },
        EvV::TagDone => SpStep::Next(
            SpMode::DictBody { dict: DictBV { l2e: None, e2l: None } },
        ),
        EvV::TagEmpty => SpStep::Fail(
            ErrV::MissingField { name: "Dictionary"@, field: "early end"@ },
        ),
        EvV::Fault(msg) => SpStep::Fail(ErrV::Tokenization { message: msg }),
        _ => SpStep::Fail(ErrV::UnexpectedToken),
    }
}

/// Between children of `dictionary`: only `direction` elements, until
/// the root closes and both directions must be present.
pub open spec fn sp_step_dict_body(dict: DictBV, e: EvV) -> SpStep {
    match e {
        EvV::Open(t) => if t == "direction"@ {
            SpStep::Next(SpMode::DirAttrs { dict, from: None, to: None })
        } else {
            SpStep::Fail(ErrV::UnknownField { name: "Dictionary"@, field: t })
        },
        EvV::Close(t) => if t == "dictionary"@ {
            match dict.l2e {
                None => SpStep::Fail(
                    ErrV::MissingField { name: "Dictionary"@, field: "lojban to english"@ },
                ),
                Some(l) => match dict.e2l {
                    None => SpStep::Fail(
                        ErrV::MissingField { name: "Dictionary"@, field: "english to lojban"@ },
                    ),
                    Some(n) => SpStep::Finish(
                        DictionaryV { lojban_to_english: l, english_to_lojban: n },
                    ),
                },
            }
        } else {
            SpStep::Fail(ErrV::TagMismatch { expected: "dictionary"@, found: t })
        },
        EvV::Text(_) => SpStep::Next(SpMode::DictBody { dict }),
        EvV::Cdata(_) => SpStep::Next(SpMode::DictBody { dict }),
        EvV::Misc => SpStep::Next(SpMode::DictBody { dict }),
        EvV::Fault(msg) => SpStep::Fail(ErrV::Tokenization { message: msg }),
        _ => SpStep::Fail(ErrV::UnexpectedToken),
    }
}

/// Inside a `direction` start tag: only `from` and `to`, later values
/// overwriting earlier ones; the pair dispatches the direction.
pub open spec fn sp_step_dir_attrs(
    dict: DictBV,
    from: Option<Seq<char>>,
    to: Option<Seq<char>>,
    e: EvV,
) -> SpStep {
    match e {
        EvV::Attr(k, v) => match sp_unescape(v) {
            None => SpStep::Fail(ErrV::BadEntity { value: v }),
            Some(u) => if k == "from"@ {
                SpStep::Next(SpMode::DirAttrs { dict, from: Some(u), to })
            } else if k == "to"@ {
                SpStep::Next(SpMode::DirAttrs { dict, from, to: Some(u) })
            } else {
                SpStep::Fail(ErrV::UnknownField { name: "direction"@, field: k })
            },
        },
        EvV::TagEmpty => SpStep::Fail(
            ErrV::MissingField { name: "direction"@, field: "early end"@ },
        ),
        EvV::TagDone => if from == Some("lojban"@) && to == Some("English"@) {
            SpStep::Next(SpMode::DirWords { dict, words: Seq::empty() })
        } else if from == Some("English"@) && to == Some("lojban"@) {
            SpStep::Next(SpMode::DirNls { dict, nls: Seq::empty() })
        } else {
            SpStep::Fail(ErrV::UnknownField { name: "Dictionary"@, field: "unknown direction"@ })
        },
        EvV::Fault(msg) => SpStep::Fail(ErrV::Tokenization { message: msg }),
        _ => SpStep::Fail(ErrV::UnexpectedToken),
    }
}

/// Between children of a lojban-to-English `direction`: only `valsi`.
pub open spec fn sp_step_dir_words(dict: DictBV, words: Seq<WordV>, e: EvV) -> SpStep {
    match e {
        EvV::Open(t) => if t == "valsi"@ {
            SpStep::Next(
                SpMode::WordAttrs {
                    dict,
                    words,
                    wb: WordBV {
                        word: None,
                        ty: None,
                        unofficial: None,
                        rafsi: Seq::empty(),
                        selmaho: None,
                        user: None,
                        definition: None,
                        definition_id: None,
                        notes: None,
                        glosses: Seq::empty(),
                        keywords: Seq::empty(),
                    },
                },
            )
        } else {
            SpStep::Fail(ErrV::MissingField { name: "lojban-to-english"@, field: "valsi"@ })
        },
        EvV::Close(t) => if t == "direction"@ {
            SpStep::Next(SpMode::DictBody { dict: DictBV { l2e: Some(words), ..dict } })
        } else {
            SpStep::Fail(ErrV::TagMismatch { expected: "direction"@, found: t })
        },
        EvV::Text(_) => SpStep::Next(SpMode::DirWords { dict, words }),
        EvV::Cdata(_) => SpStep::Next(SpMode::DirWords { dict, words }),
        EvV::Misc => SpStep::Next(SpMode::DirWords { dict, words }),
        EvV::Fault(msg) => SpStep::Fail(ErrV::Tokenization { message: msg }),
        _ => SpStep::Fail(ErrV::UnexpectedToken),
    }
}

/// Between children of an English-to-lojban `direction`: only `nlword`.
pub open spec fn sp_step_dir_nls(dict: DictBV, nls: Seq<NlWordV>, e: EvV) -> SpStep {
    match e {
        EvV::Open(t) => if t == "nlword"@ {
            SpStep::Next(
                SpMode::NlAttrs {
                    dict,
                    nls,
                    nb: NlBV { word: None, sense: None, place: None, valsi: None },
                },
            )
        } else {
            SpStep::Fail(ErrV::MissingField { name: "english-to-lojban"@, field: "nlword"@ })
        },
        EvV::Close(t) => if t == "direction"@ {
            SpStep::Next(SpMode::DictBody { dict: DictBV { e2l: Some(nls), ..dict } })
        } else {
            SpStep::Fail(ErrV::TagMismatch { expected: "direction"@, found: t })
        },
        EvV::Text(_) => SpStep::Next(SpMode::DirNls { dict, nls }),
        EvV::Cdata(_) => SpStep::Next(SpMode::DirNls { dict, nls }),
        EvV::Misc => SpStep::Next(SpMode::DirNls { dict, nls }),
        EvV::Fault(msg) => SpStep::Fail(ErrV::Tokenization { message: msg }),
        _ => SpStep::Fail(ErrV::UnexpectedToken),
    }
}

/// Inside a `valsi` start tag: `word`, `type` and `unofficial`, each at
/// most once, with typed values.
pub open spec fn sp_step_word_attrs(
    dict: DictBV,
    words: Seq<WordV>,
    wb: WordBV,
    e: EvV,
) -> SpStep {
    match e {
        EvV::Attr(k, v) => match sp_unescape(v) {
            None => SpStep::Fail(ErrV::BadEntity { value: v }),
            Some(u) => if k == "word"@ {
                if wb.word is Some {
                    SpStep::Fail(ErrV::DuplicateField { field: "word"@ })
                } else {
                    SpStep::Next(
                        SpMode::WordAttrs { dict, words, wb: WordBV { word: Some(u), ..wb } },
                    )
                }
            } else if k == "type"@ {
                if wb.ty is Some {
                    SpStep::Fail(ErrV::DuplicateField { field: "type"@ })
                } else {
                    match sp_word_type(u) {
                        None => SpStep::Fail(ErrV::InvalidValue { field: "type"@, value: u }),
                        Some(wt) => SpStep::Next(
                            SpMode::WordAttrs { dict, words, wb: WordBV { ty: Some(wt), ..wb } },
                        ),
                    }
                }
            } else if k == "unofficial"@ {
                if wb.unofficial is Some {
                    SpStep::Fail(ErrV::DuplicateField { field: "unofficial"@ })
                } else {
                    match sp_bool(u) {
                        None => SpStep::Fail(
                            ErrV::InvalidValue { field: "unofficial"@, value: u },
                        ),
                        Some(b) => SpStep::Next(
                            SpMode::WordAttrs {
                                dict,
                                words,
                                wb: WordBV { unofficial: Some(b), ..wb },
                            },
                        ),
                    }
                }
            } else {
                SpStep::Fail(ErrV::UnknownField { name: "valsi"@, field: k })
            },
        },
        EvV::TagDone => SpStep::Next(SpMode::WordBody { dict, words, wb }),
        EvV::TagEmpty => match sp_fin_word(wb) {
            Err(err) => SpStep::Fail(err),
            Ok(w) => SpStep::Next(SpMode::DirWords { dict, words: words.push(w) }),
        },
        EvV::Fault(msg) => SpStep::Fail(ErrV::Tokenization { message: msg }),
        _ => SpStep::Fail(ErrV::UnexpectedToken),
    }
}

/// Between children of a `valsi`: its declared children and flattened
/// text fields, and nothing else.
pub open spec fn sp_step_word_body(dict: DictBV, words: Seq<WordV>, wb: WordBV, e: EvV) -> SpStep {
    match e {
        EvV::Open(t) => if t == "rafsi"@ {
            SpStep::Next(
                SpMode::WordFlat { dict, words, wb, field: WordField::Rafsi, buf: Seq::empty() },
            )
        } else if t == "selmaho"@ {
            SpStep::Next(
                SpMode::WordFlat { dict, words, wb, field: WordField::Selmaho, buf: Seq::empty() },
            )
        } else if t == "user"@ {
            SpStep::Next(
                SpMode::UserAttrs {
                    dict,
                    words,
                    wb,
                    ub: UserBV { username: None, realname: None },
                },
            )
        } else if t == "definition"@ {
            SpStep::Next(
                SpMode::WordFlat {
                    dict,
                    words,
                    wb,
                    field: WordField::Definition,
                    buf: Seq::empty(),
                },
            )
        } else if t == "definitionid"@ {
            SpStep::Next(
                SpMode::WordFlat {
                    dict,
                    words,
                    wb,
                    field: WordField::DefinitionId,
                    buf: Seq::empty(),
                },
            )
        } else if t == "notes"@ {
            SpStep::Next(
                SpMode::WordFlat { dict, words, wb, field: WordField::Notes, buf: Seq::empty() },
            )
        } else if t == "glossword"@ {
            SpStep::Next(
                SpMode::GlossAttrs { dict, words, wb, gb: GlossBV { word: None, sense: None } },
            )
        } else if t == "keyword"@ {
            SpStep::Next(
                SpMode::KeyAttrs {
                    dict,
                    words,
                    wb,
                    kb: KeyBV { word: None, place: None, sense: None },
                },
            )
        } else {
            SpStep::Fail(ErrV::UnknownField { name: "valsi"@, field: t })
        },
        EvV::Close(t) => if t == "valsi"@ {
            match sp_fin_word(wb) {
                Err(err) => SpStep::Fail(err),
                Ok(w) => SpStep::Next(SpMode::DirWords { dict, words: words.push(w) }),
            }
        } else {
            SpStep::Fail(ErrV::TagMismatch { expected: "valsi"@, found: t })
        },
        EvV::Text(_) => SpStep::Next(SpMode::WordBody { dict, words, wb }),
        EvV::Cdata(_) => SpStep::Next(SpMode::WordBody { dict, words, wb }),
        EvV::Misc => SpStep::Next(SpMode::WordBody { dict, words, wb }),
        EvV::Fault(msg) => SpStep::Fail(ErrV::Tokenization { message: msg }),
        _ => SpStep::Fail(ErrV::UnexpectedToken),
    }
}

/// Inside a flattened-text child of a `valsi`: text accumulates, the
/// matching close tag commits the field.
pub open spec fn sp_step_word_flat(
    dict: DictBV,
    words: Seq<WordV>,
    wb: WordBV,
    field: WordField,
    buf: Seq<char>,
    e: EvV,
) -> SpStep {
    match e {
        EvV::Attr(_, _) => SpStep::Next(SpMode::WordFlat { dict, words, wb, field, buf }),
        EvV::TagDone => SpStep::Next(SpMode::WordFlat { dict, words, wb, field, buf }),
        EvV::Text(t) => match sp_unescape(t) {
            None => SpStep::Fail(ErrV::BadEntity { value: t }),
            Some(u) => SpStep::Next(SpMode::WordFlat { dict, words, wb, field, buf: buf + u }),
        },
        EvV::Cdata(t) => SpStep::Next(SpMode::WordFlat { dict, words, wb, field, buf: buf + t }),
        EvV::Close(t) => if t == sp_word_field_tag(field) {
            match sp_commit_word_flat(wb, field, buf) {
                Err(err) => SpStep::Fail(err),
                Ok(wb2) => SpStep::Next(SpMode::WordBody { dict, words, wb: wb2 }),
            }
        } else {
            SpStep::Fail(ErrV::TagMismatch { expected: sp_word_field_tag(field), found: t })
        },
        EvV::TagEmpty => match sp_commit_word_flat(wb, field, buf) {
            Err(err) => SpStep::Fail(err),
            Ok(wb2) => SpStep::Next(SpMode::WordBody { dict, words, wb: wb2 }),
        },
        EvV::Fault(msg) => SpStep::Fail(ErrV::Tokenization { message: msg }),
        _ => SpStep::Fail(ErrV::UnexpectedToken),
    }
}

/// Inside a `user` start tag: no attribute is permitted.
pub open spec fn sp_step_user_attrs(
    dict: DictBV,
    words: Seq<WordV>,
    wb: WordBV,
    ub: UserBV,
    e: EvV,
) -> SpStep {
    match e {
        EvV::Attr(k, v) => match sp_unescape(v) {
            None => SpStep::Fail(ErrV::BadEntity { value: v }),
            Some(_) => SpStep::Fail(ErrV::UnknownField { name: "user"@, field: k }),
        },
        EvV::TagDone => SpStep::Next(SpMode::UserBody { dict, words, wb, ub }),
        EvV::TagEmpty => match sp_fin_user(ub) {
            Err(err) => SpStep::Fail(err),
            Ok(u) => SpStep::Next(
                SpMode::WordBody { dict, words, wb: WordBV { user: Some(u), ..wb } },
            ),
        },
        EvV::Fault(msg) => SpStep::Fail(ErrV::Tokenization { message: msg }),
        _ => SpStep::Fail(ErrV::UnexpectedToken),
    }
}

/// Between children of a `user`: `username` and `realname` only.
pub open spec fn sp_step_user_body(
    dict: DictBV,
    words: Seq<WordV>,
    wb: WordBV,
    ub: UserBV,
    e: EvV,
) -> SpStep {
    match e {
        EvV::Open(t) => if t == "username"@ {
            SpStep::Next(
                SpMode::UserFlat {
                    dict,
                    words,
                    wb,
                    ub,
                    field: UserField::Username,
                    buf: Seq::empty(),
                },
            )
        } else if t == "realname"@ {
            SpStep::Next(
                SpMode::UserFlat {
                    dict,
                    words,
                    wb,
                    ub,
                    field: UserField::Realname,
                    buf: Seq::empty(),
                },
            )
        } else {
            SpStep::Fail(ErrV::UnknownField { name: "user"@, field: t })
        },
        EvV::Close(t) => if t == "user"@ {
            match sp_fin_user(ub) {
                Err(err) => SpStep::Fail(err),
                Ok(u) => SpStep::Next(
                    SpMode::WordBody { dict, words, wb: WordBV { user: Some(u), ..wb } },
                ),
            }
        } else {
            SpStep::Fail(ErrV::TagMismatch { expected: "user"@, found: t })
        },
        EvV::Text(_) => SpStep::Next(SpMode::UserBody { dict, words, wb, ub }),
        EvV::Cdata(_) => SpStep::Next(SpMode::UserBody { dict, words, wb, ub }),
        EvV::Misc => SpStep::Next(SpMode::UserBody { dict, words, wb, ub }),
        EvV::Fault(msg) => SpStep::Fail(ErrV::Tokenization { message: msg }),
        _ => SpStep::Fail(ErrV::UnexpectedToken),
    }
}

/// Inside a flattened-text child of a `user`.
pub open spec fn sp_step_user_flat(
    dict: DictBV,
    words: Seq<WordV>,
    wb: WordBV,
    ub: UserBV,
    field: UserField,
    buf: Seq<char>,
    e: EvV,
) -> SpStep {
    match e {
        EvV::Attr(_, _) => SpStep::Next(SpMode::UserFlat { dict, words, wb, ub, field, buf }),
        EvV::TagDone => SpStep::Next(SpMode::UserFlat { dict, words, wb, ub, field, buf }),
        EvV::Text(t) => match sp_unescape(t) {
            None => SpStep::Fail(ErrV::BadEntity { value: t }),
            Some(u) => SpStep::Next(
                SpMode::UserFlat { dict, words, wb, ub, field, buf: buf + u },
            ),
        },
        EvV::Cdata(t) => SpStep::Next(
            SpMode::UserFlat { dict, words, wb, ub, field, buf: buf + t },
        ),
        EvV::Close(t) => if t == sp_user_field_tag(field) {
            SpStep::Next(
                SpMode::UserBody { dict, words, wb, ub: sp_commit_user_flat(ub, field, buf) },
            )
        } else {
            SpStep::Fail(ErrV::TagMismatch { expected: sp_user_field_tag(field), found: t })
        },
        EvV::TagEmpty => SpStep::Next(
            SpMode::UserBody { dict, words, wb, ub: sp_commit_user_flat(ub, field, buf) },
        ),
        EvV::Fault(msg) => SpStep::Fail(ErrV::Tokenization { message: msg }),
        _ => SpStep::Fail(ErrV::UnexpectedToken),
    }
}

/// Inside a `glossword` start tag: `word` and `sense`, each at most
/// once.
pub open spec fn sp_step_gloss_attrs(
    dict: DictBV,
    words: Seq<WordV>,
    wb: WordBV,
    gb: GlossBV,
    e: EvV,
) -> SpStep {
    match e {
        EvV::Attr(k, v) => match sp_unescape(v) {
            None => SpStep::Fail(ErrV::BadEntity { value: v }),
            Some(u) => if k == "word"@ {
                if gb.word is Some {
                    SpStep::Fail(ErrV::DuplicateField { field: "word"@ })
                } else {
                    SpStep::Next(
                        SpMode::GlossAttrs {
                            dict,
                            words,
                            wb,
                            gb: GlossBV { word: Some(u), ..gb },
                        },
                    )
                }
            } else if k == "sense"@ {
                if gb.sense is Some {
                    SpStep::Fail(ErrV::DuplicateField { field: "sense"@ })
                } else {
                    SpStep::Next(
                        SpMode::GlossAttrs {
                            dict,
                            words,
                            wb,
                            gb: GlossBV { sense: Some(u), ..gb },
                        },
                    )
                }
            } else {
                SpStep::Fail(ErrV::UnknownField { name: "glossword"@, field: k })
            },
        },
        EvV::TagDone => SpStep::Next(SpMode::GlossBody { dict, words, wb, gb }),
        EvV::TagEmpty => match sp_fin_gloss(gb) {
            Err(err) => SpStep::Fail(err),
            Ok(g) => SpStep::Next(
                SpMode::WordBody {
                    dict,
                    words,
                    wb: WordBV { glosses: wb.glosses.push(g), ..wb },
                },
            ),
        },
        EvV::Fault(msg) => SpStep::Fail(ErrV::Tokenization { message: msg }),
        _ => SpStep::Fail(ErrV::UnexpectedToken),
    }
}

/// Inside the body of a `glossword`: no children are permitted.
pub open spec fn sp_step_gloss_body(
    dict: DictBV,
    words: Seq<WordV>,
    wb: WordBV,
    gb: GlossBV,
    e: EvV,
) -> SpStep {
    match e {
        EvV::Open(t) => SpStep::Fail(ErrV::UnknownField { name: "glossword"@, field: t }),
        EvV::Close(t) => if t == "glossword"@ {
            match sp_fin_gloss(gb) {
                Err(err) => SpStep::Fail(err),
                Ok(g) => SpStep::Next(
                    SpMode::WordBody {
                        dict,
                        words,
                        wb: WordBV { glosses: wb.glosses.push(g), ..wb },
                    },
                ),
            }
        } else {
            SpStep::Fail(ErrV::TagMismatch { expected: "glossword"@, found: t })
        },
        EvV::Text(_) => SpStep::Next(SpMode::GlossBody { dict, words, wb, gb }),
        EvV::Cdata(_) => SpStep::Next(SpMode::GlossBody { dict, words, wb, gb }),
        EvV::Misc => SpStep::Next(SpMode::GlossBody { dict, words, wb, gb }),
        EvV::Fault(msg) => SpStep::Fail(ErrV::Tokenization { message: msg }),
        _ => SpStep::Fail(ErrV::UnexpectedToken),
    }
}

/// Inside a `keyword` start tag: `word`, `place` and `sense`, each at
/// most once, `place` a number.
pub open spec fn sp_step_key_attrs(
    dict: DictBV,
    words: Seq<WordV>,
    wb: WordBV,
    kb: KeyBV,
    e: EvV,
) -> SpStep {
    match e {
        EvV::Attr(k, v) => match sp_unescape(v) {
            None => SpStep::Fail(ErrV::BadEntity { value: v }),
            Some(u) => if k == "word"@ {
                if kb.word is Some {
                    SpStep::Fail(ErrV::DuplicateField { field: "word"@ })
                } else {
                    SpStep::Next(
                        SpMode::KeyAttrs { dict, words, wb, kb: KeyBV { word: Some(u), ..kb } },
                    )
                }
            } else if k == "place"@ {
                if kb.place is Some {
                    SpStep::Fail(ErrV::DuplicateField { field: "place"@ })
                } else {
                    match sp_u32(u) {
                        None => SpStep::Fail(ErrV::InvalidValue { field: "place"@, value: u }),
                        Some(n) => SpStep::Next(
                            SpMode::KeyAttrs {
                                dict,
                                words,
                                wb,
                                kb: KeyBV { place: Some(n), ..kb },
                            },
                        ),
                    }
                }
            } else if k == "sense"@ {
                if kb.sense is Some {
                    SpStep::Fail(ErrV::DuplicateField { field: "sense"@ })
                } else {
                    SpStep::Next(
                        SpMode::KeyAttrs { dict, words, wb, kb: KeyBV { sense: Some(u), ..kb } },
                    )
                }
            } else {
                SpStep::Fail(ErrV::UnknownField { name: "keyword"@, field: k })
            },
        },
        EvV::TagDone => SpStep::Next(SpMode::KeyBody { dict, words, wb, kb }),
        EvV::TagEmpty => match sp_fin_key(kb) {
            Err(err) => SpStep::Fail(err),
            Ok(kw) => SpStep::Next(
                SpMode::WordBody {
                    dict,
                    words,
                    wb: WordBV { keywords: wb.keywords.push(kw), ..wb },
                },
            ),
        },
        EvV::Fault(msg) => SpStep::Fail(ErrV::Tokenization { message: msg }),
        _ => SpStep::Fail(ErrV::UnexpectedToken),
    }
}

/// Inside the body of a `keyword`: no children are permitted.
pub open spec fn sp_step_key_body(
    dict: DictBV,
    words: Seq<WordV>,
    wb: WordBV,
    kb: KeyBV,
    e: EvV,
) -> SpStep {
    match e {
        EvV::Open(t) => SpStep::Fail(ErrV::UnknownField { name: "keyword"@, field: t }),
        EvV::Close(t) => if t == "keyword"@ {
            match sp_fin_key(kb) {
                Err(err) => SpStep::Fail(err),
                Ok(kw) => SpStep::Next(
                    SpMode::WordBody {
                        dict,
                        words,
                        wb: WordBV { keywords: wb.keywords.push(kw), ..wb },
                    },
                ),
            }
        } else {
            SpStep::Fail(ErrV::TagMismatch { expected: "keyword"@, found: t })
        },
        EvV::Text(_) => SpStep::Next(SpMode::KeyBody { dict, words, wb, kb }),
        EvV::Cdata(_) => SpStep::Next(SpMode::KeyBody { dict, words, wb, kb }),
        EvV::Misc => SpStep::Next(SpMode::KeyBody { dict, words, wb, kb }),
        EvV::Fault(msg) => SpStep::Fail(ErrV::Tokenization { message: msg }),
        _ => SpStep::Fail(ErrV::UnexpectedToken),
    }
}

/// Inside an `nlword` start tag: `word`, `sense`, `place` and `valsi`,
/// each at most once, `place` a number.
pub open spec fn sp_step_nl_attrs(dict: DictBV, nls: Seq<NlWordV>, nb: NlBV, e: EvV) -> SpStep {
    match e {
        EvV::Attr(k, v) => match sp_unescape(v) {
            None => SpStep::Fail(ErrV::BadEntity { value: v }),
            Some(u) => if k == "word"@ {
                if nb.word is Some {
                    SpStep::Fail(ErrV::DuplicateField { field: "word"@ })
                } else {
                    SpStep::Next(
                        SpMode::NlAttrs { dict, nls, nb: NlBV { word: Some(u), ..nb } },
                    )
                }
            } else if k == "sense"@ {
                if nb.sense is Some {
                    SpStep::Fail(ErrV::DuplicateField { field: "sense"@ })
                } else {
                    SpStep::Next(
                        SpMode::NlAttrs { dict, nls, nb: NlBV { sense: Some(u), ..nb } },
                    )
                }
            } else if k == "place"@ {
                if nb.place is Some {
                    SpStep::Fail(ErrV::DuplicateField { field: "place"@ })
                } else {
                    match sp_u32(u) {
                        None => SpStep::Fail(ErrV::InvalidValue { field: "place"@, value: u }),
                        Some(n) => SpStep::Next(
                            SpMode::NlAttrs { dict, nls, nb: NlBV { place: Some(n), ..nb } },
                        ),
                    }
                }
            } else if k == "valsi"@ {
                if nb.valsi is Some {
                    SpStep::Fail(ErrV::DuplicateField { field: "valsi"@ })
                } else {
                    SpStep::Next(
                        SpMode::NlAttrs { dict, nls, nb: NlBV { valsi: Some(u), ..nb } },
                    )
                }
            } else {
                SpStep::Fail(ErrV::UnknownField { name: "nlword"@, field: k })
            },
        },
        EvV::TagDone => SpStep::Next(SpMode::NlBody { dict, nls, nb }),
        EvV::TagEmpty => match sp_fin_nl(nb) {
            Err(err) => SpStep::Fail(err),
            Ok(n) => SpStep::Next(SpMode::DirNls { dict, nls: nls.push(n) }),
        },
        EvV::Fault(msg) => SpStep::Fail(ErrV::Tokenization { message: msg }),
        _ => SpStep::Fail(ErrV::UnexpectedToken),
    }
}

/// Inside the body of an `nlword`: no children are permitted.
pub open spec fn sp_step_nl_body(dict: DictBV, nls: Seq<NlWordV>, nb: NlBV, e: EvV) -> SpStep {
    match e {
        EvV::Open(t) => SpStep::Fail(ErrV::UnknownField { name: "nlword"@, field: t }),
        EvV::Close(t) => if t == "nlword"@ {
            match sp_fin_nl(nb) {
                Err(err) => SpStep::Fail(err),
                Ok(n) => SpStep::Next(SpMode::DirNls { dict, nls: nls.push(n) }),
            }
        } else {
            SpStep::Fail(ErrV::TagMismatch { expected: "nlword"@, found: t })
        },
        EvV::Text(_) => SpStep::Next(SpMode::NlBody { dict, nls, nb }),
        EvV::Cdata(_) => SpStep::Next(SpMode::NlBody { dict, nls, nb }),
        EvV::Misc => SpStep::Next(SpMode::NlBody { dict, nls, nb }),
        EvV::Fault(msg) => SpStep::Fail(ErrV::Tokenization { message: msg }),
        _ => SpStep::Fail(ErrV::UnexpectedToken),
    }
}

/// What the reader reports if the event stream ends in mode `m`: the
/// end of the stream, except that a flattened `definitionid` read at
/// the very end still has its value checked first.
pub open spec fn sp_eof(m: SpMode) -> ErrV {
    match m {
        SpMode::WordFlat { field, buf, .. } => if field is DefinitionId && sp_u32(buf) is None {
            ErrV::InvalidValue { field: "definitionid"@, value: buf }
        } else {
            ErrV::UnexpectedEof
        },
        _ => ErrV::UnexpectedEof,
    }
}

} // verus!
