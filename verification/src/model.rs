//! The typed records that a parse produces, and their mathematical views.
//!
//! The executable types own their strings; each has a view struct over
//! `Seq<char>` that the parser's contracts are stated over.

use vstd::prelude::*;

verus! {

/// The closed vocabulary of word types used by the `type` attribute of a
/// `valsi` element.
#[derive(Debug, Clone, Copy, PartialEq, Eq)]
pub enum WordType {
    BuLetteral,
    Cmavo,
    CmavoCompound,
    Cmevla,
    ExperimentalCmavo,
    ExperimentalGismu,
    Fuhivla,
    Gismu,
    Lujvo,
    ObsoleteCmavo,
    ObsoleteCmevla,
    ObsoleteFuhivla,
    ObsoleteZeiLujvo,
    ZeiLujvo,
}

/// Which `WordType` a raw attribute value denotes, if any.
pub open spec fn sp_word_type(s: Seq<char>) -> Option<WordType> {
    if s == "bu-letteral"@ {
        Some(WordType::BuLetteral)
    } else if s == "cmavo"@ {
        Some(WordType::Cmavo)
    } else if s == "cmavo-compound"@ {
        Some(WordType::CmavoCompound)
    } else if s == "cmevla"@ {
        Some(WordType::Cmevla)
    } else if s == "experimental cmavo"@ {
        Some(WordType::ExperimentalCmavo)
    } else if s == "experimental gismu"@ {
        Some(WordType::ExperimentalGismu)
    } else if s == "fu'ivla"@ {
        Some(WordType::Fuhivla)
    } else if s == "gismu"@ {
        Some(WordType::Gismu)
    } else if s == "lujvo"@ {
        Some(WordType::Lujvo)
    } else if s == "obsolete cmavo"@ {
        Some(WordType::ObsoleteCmavo)
    } else if s == "obsolete cmevla"@ {
        Some(WordType::ObsoleteCmevla)
    } else if s == "obsolete fu'ivla"@ {
        Some(WordType::ObsoleteFuhivla)
    } else if s == "obsolete zei-lujvo"@ {
        Some(WordType::ObsoleteZeiLujvo)
    } else if s == "zei-lujvo"@ {
        Some(WordType::ZeiLujvo)
    } else {
        None
    }
}

impl WordType {
    /// Parses the exact string vocabulary of the `type` attribute; any
    /// other string is no word type.
    pub fn from_str(s: &str) -> (r: Option<WordType>)
        ensures
            r == sp_word_type(s@),
    {
        if crate::textutil::str_eq(s, "bu-letteral") {
            Some(WordType::BuLetteral)
        } else if crate::textutil::str_eq(s, "cmavo") {
            Some(WordType::Cmavo)
        } else if crate::textutil::str_eq(s, "cmavo-compound") {
            Some(WordType::CmavoCompound)
        } else if crate::textutil::str_eq(s, "cmevla") {
            Some(WordType::Cmevla)
        } else if crate::textutil::str_eq(s, "experimental cmavo") {
            Some(WordType::ExperimentalCmavo)
        } else if crate::textutil::str_eq(s, "experimental gismu") {
            Some(WordType::ExperimentalGismu)
        } else if crate::textutil::str_eq(s, "fu'ivla") {
            Some(WordType::Fuhivla)
        } else if crate::textutil::str_eq(s, "gismu") {
            Some(WordType::Gismu)
        } else if crate::textutil::str_eq(s, "lujvo") {
            Some(WordType::Lujvo)
        } else if crate::textutil::str_eq(s, "obsolete cmavo") {
            Some(WordType::ObsoleteCmavo)
        } else if crate::textutil::str_eq(s, "obsolete cmevla") {
            Some(WordType::ObsoleteCmevla)
        } else if crate::textutil::str_eq(s, "obsolete fu'ivla") {
            Some(WordType::ObsoleteFuhivla)
        } else if crate::textutil::str_eq(s, "obsolete zei-lujvo") {
            Some(WordType::ObsoleteZeiLujvo)
        } else if crate::textutil::str_eq(s, "zei-lujvo") {
            Some(WordType::ZeiLujvo)
        } else {
            None
        }
    }
}

/// The contributor attached to a `valsi` entry.
#[derive(Debug, Clone, PartialEq, Eq)]
pub struct User {
    pub username: String,
    pub realname: Option<String>,
}

/// View of [`User`].
pub struct UserV {
    pub username: Seq<char>,
    pub realname: Option<Seq<char>>,
}

impl View for User {
    type V = UserV;

    open spec fn view(&self) -> UserV {
        UserV { username: self.username@, realname: self.realname.deep_view() }
    }
}

impl DeepView for User {
    type V = UserV;

    open spec fn deep_view(&self) -> UserV {
        self.view()
    }
}

/// An English gloss attached to a `valsi` entry.
#[derive(Debug, Clone, PartialEq, Eq)]
pub struct GlossWord {
    pub word: String,
    pub sense: Option<String>,
}

/// View of [`GlossWord`].
pub struct GlossWordV {
    pub word: Seq<char>,
    pub sense: Option<Seq<char>>,
}

impl View for GlossWord {
    type V = GlossWordV;

    open spec fn view(&self) -> GlossWordV {
        GlossWordV { word: self.word@, sense: self.sense.deep_view() }
    }
}

impl DeepView for GlossWord {
    type V = GlossWordV;

    open spec fn deep_view(&self) -> GlossWordV {
        self.view()
    }
}

/// A place keyword attached to a `valsi` entry.
#[derive(Debug, Clone, PartialEq, Eq)]
pub struct Keyword {
    pub word: String,
    pub place: u32,
    pub sense: Option<String>,
}

/// View of [`Keyword`].
pub struct KeywordV {
    pub word: Seq<char>,
    pub place: u32,
    pub sense: Option<Seq<char>>,
}

impl View for Keyword {
    type V = KeywordV;

    open spec fn view(&self) -> KeywordV {
        KeywordV { word: self.word@, place: self.place, sense: self.sense.deep_view() }
    }
}

impl DeepView for Keyword {
    type V = KeywordV;

    open spec fn deep_view(&self) -> KeywordV {
        self.view()
    }
}

/// A lexical entry of the lojban-to-English direction (tag `valsi`).
#[derive(Debug, Clone, PartialEq, Eq)]
pub struct Word {
    pub word: String,
    pub ty: WordType,
    pub unofficial: bool,
    pub rafsi: Vec<String>,
    pub selmaho: Option<String>,
    pub user: User,
    pub definition: String,
    pub definition_id: u32,
    pub notes: Option<String>,
    pub glosses: Vec<GlossWord>,
    pub keywords: Vec<Keyword>,
}

/// View of [`Word`].
pub struct WordV {
    pub word: Seq<char>,
    pub ty: WordType,
    pub unofficial: bool,
    pub rafsi: Seq<Seq<char>>,
    pub selmaho: Option<Seq<char>>,
    pub user: UserV,
    pub definition: Seq<char>,
    pub definition_id: u32,
    pub notes: Option<Seq<char>>,
    pub glosses: Seq<GlossWordV>,
    pub keywords: Seq<KeywordV>,
}

impl View for Word {
    type V = WordV;

    open spec fn view(&self) -> WordV {
        WordV {
            word: self.word@,
            ty: self.ty,
            unofficial: self.unofficial,
            rafsi: self.rafsi.deep_view(),
            selmaho: self.selmaho.deep_view(),
            user: self.user@,
            definition: self.definition@,
            definition_id: self.definition_id,
            notes: self.notes.deep_view(),
            glosses: self.glosses.deep_view(),
            keywords: self.keywords.deep_view(),
        }
    }
}

impl DeepView for Word {
    type V = WordV;

    open spec fn deep_view(&self) -> WordV {
        self.view()
    }
}

/// A lexical entry of the English-to-lojban direction (tag `nlword`).
#[derive(Debug, Clone, PartialEq, Eq)]
pub struct NlWord {
    pub word: String,
    pub sense: Option<String>,
    pub place: Option<u32>,
    pub valsi: String,
}

/// View of [`NlWord`].
pub struct NlWordV {
    pub word: Seq<char>,
    pub sense: Option<Seq<char>>,
    pub place: Option<u32>,
    pub valsi: Seq<char>,
}

impl View for NlWord {
    type V = NlWordV;

    open spec fn view(&self) -> NlWordV {
        NlWordV {
            word: self.word@,
            sense: self.sense.deep_view(),
            place: self.place,
            valsi: self.valsi@,
        }
    }
}

impl DeepView for NlWord {
    type V = NlWordV;

    open spec fn deep_view(&self) -> NlWordV {
        self.view()
    }
}

/// The root entity: both translation directions of the dictionary.
#[derive(Debug, Clone, PartialEq, Eq)]
pub struct Dictionary {
    pub lojban_to_english: Vec<Word>,
    pub english_to_lojban: Vec<NlWord>,
}

/// View of [`Dictionary`].
pub struct DictionaryV {
    pub lojban_to_english: Seq<WordV>,
    pub english_to_lojban: Seq<NlWordV>,
}

impl View for Dictionary {
    type V = DictionaryV;

    open spec fn view(&self) -> DictionaryV {
        DictionaryV {
            lojban_to_english: self.lojban_to_english.deep_view(),
            english_to_lojban: self.english_to_lojban.deep_view(),
        }
    }
}

impl DeepView for Dictionary {
    type V = DictionaryV;

    open spec fn deep_view(&self) -> DictionaryV {
        self.view()
    }
}

} // verus!
