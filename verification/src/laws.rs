//! Laws of the schema reader, proved against the specification machine.
//!
//! The central one: every well-formed dictionary value, rendered as a
//! canonical document of the schema, parses back to exactly itself —
//! so a parse of a conforming document succeeds, keeps every field
//! value verbatim, and returns the entries of both directions in
//! source order and number.

use vstd::prelude::*;

use crate::error::ErrV;
use crate::event::EvV;
use crate::machine::{
    DictBV, GlossBV, KeyBV, NlBV, SpMode, SpStep, UserBV, UserField, WordBV, WordField,
    sp_commit_word_flat, sp_fin_gloss, sp_fin_key, sp_fin_nl, sp_fin_user, sp_fin_word, sp_step,
    sp_user_field_tag, sp_word_field_tag,
};
use crate::model::{DictionaryV, GlossWordV, KeywordV, NlWordV, UserV, WordType, WordV,
    sp_word_type};
use crate::parser::sp_run;
use crate::textutil::{sp_bool, sp_digits_val, sp_is_digit, sp_u32};

verus! {

/// Folds the step relation over a segment of events, if the reader
/// consumes all of it without failing or finishing.
pub open spec fn sp_drive(m: SpMode, seg: Seq<EvV>) -> Option<SpMode>
    decreases seg.len(),
{
    if seg.len() == 0 {
        Some(m)
    } else {
        match sp_step(m, seg.first()) {
            SpStep::Next(m2) => sp_drive(m2, seg.drop_first()),
            _ => None,
        }
    }
}

/// A consumed segment drops off the front of a run.
proof fn lemma_drive_run(m: SpMode, seg: Seq<EvV>, rest: Seq<EvV>, m2: SpMode)
    requires
        sp_drive(m, seg) == Some(m2),
    ensures
        sp_run(seg + rest, m) == sp_run(rest, m2),
    decreases seg.len(),
{
    if seg.len() == 0 {
        assert(seg + rest =~= rest);
    } else {
        assert((seg + rest).first() == seg.first());
        match sp_step(m, seg.first()) {
            SpStep::Next(mm) => {
                assert((seg + rest).drop_first() =~= seg.drop_first() + rest);
                lemma_drive_run(mm, seg.drop_first(), rest, m2);
            },
            _ => {
                assert(false);
            },
        }
    }
}

/// Driving across a concatenation goes segment by segment.
proof fn lemma_drive_append(m: SpMode, a: Seq<EvV>, b: Seq<EvV>, m1: SpMode)
    requires
        sp_drive(m, a) == Some(m1),
    ensures
        sp_drive(m, a + b) == sp_drive(m1, b),
    decreases a.len(),
{
    if a.len() == 0 {
        assert(a + b =~= b);
    } else {
        assert((a + b).first() == a.first());
        match sp_step(m, a.first()) {
            SpStep::Next(mm) => {
                assert((a + b).drop_first() =~= a.drop_first() + b);
                lemma_drive_append(mm, a.drop_first(), b, m1);
            },
            _ => {
                assert(false);
            },
        }
    }
}

/// A value without an ampersand: one that entity resolution leaves
/// alone.
pub open spec fn clean(s: Seq<char>) -> bool {
    forall|i: int| 0 <= i < s.len() ==> s[i] != '&'
}

/// A clean optional value.
pub open spec fn clean_opt(o: Option<Seq<char>>) -> bool {
    match o {
        None => true,
        Some(s) => clean(s),
    }
}

proof fn lemma_clean_lojban()
    ensures
        clean("lojban"@),
{
    reveal_strlit("lojban");
    assert forall|i: int| 0 <= i < "lojban"@.len() implies "lojban"@[i] != '&' by {
        if i == 0 {
        } else if i == 1 {
        } else if i == 2 {
        } else if i == 3 {
        } else if i == 4 {
        } else {
            assert(i == 5);
        }
    }
}

proof fn lemma_clean_english()
    ensures
        clean("English"@),
{
    reveal_strlit("English");
    assert forall|i: int| 0 <= i < "English"@.len() implies "English"@[i] != '&' by {
        if i == 0 {
        } else if i == 1 {
        } else if i == 2 {
        } else if i == 3 {
        } else if i == 4 {
        } else if i == 5 {
        } else {
            assert(i == 6);
        }
    }
}

proof fn lemma_clean_true()
    ensures
        clean("true"@),
{
    reveal_strlit("true");
    assert forall|i: int| 0 <= i < "true"@.len() implies "true"@[i] != '&' by {
        if i == 0 {
        } else if i == 1 {
        } else if i == 2 {
        } else {
            assert(i == 3);
        }
    }
}

/// The decimal digit `d` as a character.
pub open spec fn digit_char(d: int) -> char {
    if d == 0 {
        '0'
    } else if d == 1 {
        '1'
    } else if d == 2 {
        '2'
    } else if d == 3 {
        '3'
    } else if d == 4 {
        '4'
    } else if d == 5 {
        '5'
    } else if d == 6 {
        '6'
    } else if d == 7 {
        '7'
    } else if d == 8 {
        '8'
    } else {
        '9'
    }
}

/// The decimal numeral of a positive number, most significant digit
/// first.
pub open spec fn pos_digits(n: int) -> Seq<char>
    decreases n,
{
    if n <= 0 {
        Seq::empty()
    } else {
        pos_digits(n / 10).push(digit_char(n % 10))
    }
}

/// The decimal numeral of `n`.
pub open spec fn u32_text(n: u32) -> Seq<char> {
    if n == 0 {
        seq!['0']
    } else {
        pos_digits(n as int)
    }
}

proof fn lemma_pos_digits(n: int)
    requires
        0 <= n,
    ensures
        forall|i: int| 0 <= i < pos_digits(n).len() ==> sp_is_digit(#[trigger] pos_digits(n)[i]),
        sp_digits_val(pos_digits(n)) == n,
        n > 0 ==> pos_digits(n).len() > 0,
    decreases n,
{
    if n > 0 {
        lemma_pos_digits(n / 10);
        let s = pos_digits(n);
        let p = pos_digits(n / 10);
        assert(s == p.push(digit_char(n % 10)));
        assert(s.drop_last() =~= p);
        assert(sp_is_digit(digit_char(n % 10)));
        assert(sp_digits_val(s) == sp_digits_val(p) * 10 + (digit_char(n % 10) as int
            - '0' as int));
        assert(digit_char(n % 10) as int - '0' as int == n % 10);
        assert((n / 10) * 10 + n % 10 == n) by {
            vstd::arithmetic::div_mod::lemma_fundamental_div_mod(n, 10);
        }
        assert forall|i: int| 0 <= i < s.len() implies sp_is_digit(#[trigger] s[i]) by {
            if i < p.len() {
                assert(s[i] == p[i]);
            } else {
                assert(s[i] == digit_char(n % 10));
            }
        }
    }
}

/// The canonical numeral of `n` reads back as `n`, and is clean.
proof fn lemma_u32_text(n: u32)
    ensures
        sp_u32(u32_text(n)) == Some(n),
        clean(u32_text(n)),
{
    let s = u32_text(n);
    if n == 0 {
        assert(s == seq!['0']);
        assert(s.len() == 1 && s.last() == '0');
        assert(s.drop_last() =~= Seq::<char>::empty());
        assert(sp_digits_val(Seq::<char>::empty()) == 0);
        assert(sp_digits_val(s) == sp_digits_val(s.drop_last()) * 10 + (s.last() as int
            - '0' as int));
        assert(sp_digits_val(s) == 0);
        assert(forall|i: int| 0 <= i < s.len() ==> sp_is_digit(#[trigger] s[i]));
    } else {
        lemma_pos_digits(n as int);
    }
    assert(sp_is_digit(s[0]));
    assert(s[0] != '+');
    assert(crate::textutil::sp_digit_part(s) == s);
    assert forall|i: int| 0 <= i < s.len() implies s[i] != '&' by {
        assert(sp_is_digit(s[i]));
    }
}

/// The vocabulary word of a [`WordType`].
pub open spec fn wt_text(t: WordType) -> Seq<char> {
    match t {
        WordType::BuLetteral => "bu-letteral"@,
        WordType::Cmavo => "cmavo"@,
        WordType::CmavoCompound => "cmavo-compound"@,
        WordType::Cmevla => "cmevla"@,
        WordType::ExperimentalCmavo => "experimental cmavo"@,
        WordType::ExperimentalGismu => "experimental gismu"@,
        WordType::Fuhivla => "fu'ivla"@,
        WordType::Gismu => "gismu"@,
        WordType::Lujvo => "lujvo"@,
        WordType::ObsoleteCmavo => "obsolete cmavo"@,
        WordType::ObsoleteCmevla => "obsolete cmevla"@,
        WordType::ObsoleteFuhivla => "obsolete fu'ivla"@,
        WordType::ObsoleteZeiLujvo => "obsolete zei-lujvo"@,
        WordType::ZeiLujvo => "zei-lujvo"@,
    }
}

proof fn lemma_wt_buletteral()
    ensures
        sp_word_type("bu-letteral"@) == Some(WordType::BuLetteral),
        clean("bu-letteral"@),
{
    reveal_strlit("bu-letteral");
    assert("bu-letteral"@.len() == 11);
}

proof fn lemma_wt_cmavo()
    ensures
        sp_word_type("cmavo"@) == Some(WordType::Cmavo),
        clean("cmavo"@),
{
    reveal_strlit("bu-letteral");
    reveal_strlit("cmavo");
    assert("bu-letteral"@.len() == 11);
    assert("cmavo"@.len() == 5);
}

proof fn lemma_wt_cmavocompound()
    ensures
        sp_word_type("cmavo-compound"@) == Some(WordType::CmavoCompound),
        clean("cmavo-compound"@),
{
    reveal_strlit("bu-letteral");
    reveal_strlit("cmavo");
    reveal_strlit("cmavo-compound");
    assert("bu-letteral"@.len() == 11);
    assert("cmavo"@.len() == 5);
    assert("cmavo-compound"@.len() == 14);
}

proof fn lemma_wt_cmevla()
    ensures
        sp_word_type("cmevla"@) == Some(WordType::Cmevla),
        clean("cmevla"@),
{
    reveal_strlit("bu-letteral");
    reveal_strlit("cmavo");
    reveal_strlit("cmavo-compound");
    reveal_strlit("cmevla");
    assert("bu-letteral"@.len() == 11);
    assert("cmavo"@.len() == 5);
    assert("cmavo-compound"@.len() == 14);
    assert("cmevla"@.len() == 6);
}

proof fn lemma_wt_experimentalcmavo()
    ensures
        sp_word_type("experimental cmavo"@) == Some(WordType::ExperimentalCmavo),
        clean("experimental cmavo"@),
{
    reveal_strlit("bu-letteral");
    reveal_strlit("cmavo");
    reveal_strlit("cmavo-compound");
    reveal_strlit("cmevla");
    reveal_strlit("experimental cmavo");
    assert("bu-letteral"@.len() == 11);
    assert("cmavo"@.len() == 5);
    assert("cmavo-compound"@.len() == 14);
    assert("cmevla"@.len() == 6);
    assert("experimental cmavo"@.len() == 18);
}

proof fn lemma_wt_experimentalgismu()
    ensures
        sp_word_type("experimental gismu"@) == Some(WordType::ExperimentalGismu),
        clean("experimental gismu"@),
{
    reveal_strlit("bu-letteral");
    reveal_strlit("cmavo");
    reveal_strlit("cmavo-compound");
    reveal_strlit("cmevla");
    reveal_strlit("experimental cmavo");
    reveal_strlit("experimental gismu");
    assert("bu-letteral"@.len() == 11);
    assert("cmavo"@.len() == 5);
    assert("cmavo-compound"@.len() == 14);
    assert("cmevla"@.len() == 6);
    assert("experimental cmavo"@.len() == 18);
    assert("experimental gismu"@.len() == 18);
    assert("experimental cmavo"@[13] == 'c');
    assert("experimental gismu"@[13] == 'g');
}

proof fn lemma_wt_fuhivla()
    ensures
        sp_word_type("fu'ivla"@) == Some(WordType::Fuhivla),
        clean("fu'ivla"@),
{
    reveal_strlit("bu-letteral");
    reveal_strlit("cmavo");
    reveal_strlit("cmavo-compound");
    reveal_strlit("cmevla");
    reveal_strlit("experimental cmavo");
    reveal_strlit("experimental gismu");
    reveal_strlit("fu'ivla");
    assert("bu-letteral"@.len() == 11);
    assert("cmavo"@.len() == 5);
    assert("cmavo-compound"@.len() == 14);
    assert("cmevla"@.len() == 6);
    assert("experimental cmavo"@.len() == 18);
    assert("experimental gismu"@.len() == 18);
    assert("fu'ivla"@.len() == 7);
}

proof fn lemma_wt_gismu()
    ensures
        sp_word_type("gismu"@) == Some(WordType::Gismu),
        clean("gismu"@),
{
    reveal_strlit("bu-letteral");
    reveal_strlit("cmavo");
    reveal_strlit("cmavo-compound");
    reveal_strlit("cmevla");
    reveal_strlit("experimental cmavo");
    reveal_strlit("experimental gismu");
    reveal_strlit("fu'ivla");
    reveal_strlit("gismu");
    assert("bu-letteral"@.len() == 11);
    assert("cmavo"@.len() == 5);
    assert("cmavo-compound"@.len() == 14);
    assert("cmevla"@.len() == 6);
    assert("experimental cmavo"@.len() == 18);
    assert("experimental gismu"@.len() == 18);
    assert("fu'ivla"@.len() == 7);
    assert("gismu"@.len() == 5);
    assert("cmavo"@[0] == 'c');
    assert("gismu"@[0] == 'g');
}

proof fn lemma_wt_lujvo()
    ensures
        sp_word_type("lujvo"@) == Some(WordType::Lujvo),
        clean("lujvo"@),
{
    reveal_strlit("bu-letteral");
    reveal_strlit("cmavo");
    reveal_strlit("cmavo-compound");
    reveal_strlit("cmevla");
    reveal_strlit("experimental cmavo");
    reveal_strlit("experimental gismu");
    reveal_strlit("fu'ivla");
    reveal_strlit("gismu");
    reveal_strlit("lujvo");
    assert("bu-letteral"@.len() == 11);
    assert("cmavo"@.len() == 5);
    assert("cmavo-compound"@.len() == 14);
    assert("cmevla"@.len() == 6);
    assert("experimental cmavo"@.len() == 18);
    assert("experimental gismu"@.len() == 18);
    assert("fu'ivla"@.len() == 7);
    assert("gismu"@.len() == 5);
    assert("lujvo"@.len() == 5);
    assert("cmavo"@[0] == 'c');
    assert("lujvo"@[0] == 'l');
    assert("gismu"@[0] == 'g');
    assert("lujvo"@[0] == 'l');
}

proof fn lemma_wt_obsoletecmavo()
    ensures
        sp_word_type("obsolete cmavo"@) == Some(WordType::ObsoleteCmavo),
        clean("obsolete cmavo"@),
{
    reveal_strlit("bu-letteral");
    reveal_strlit("cmavo");
    reveal_strlit("cmavo-compound");
    reveal_strlit("cmevla");
    reveal_strlit("experimental cmavo");
    reveal_strlit("experimental gismu");
    reveal_strlit("fu'ivla");
    reveal_strlit("gismu");
    reveal_strlit("lujvo");
    reveal_strlit("obsolete cmavo");
    assert("bu-letteral"@.len() == 11);
    assert("cmavo"@.len() == 5);
    assert("cmavo-compound"@.len() == 14);
    assert("cmevla"@.len() == 6);
    assert("experimental cmavo"@.len() == 18);
    assert("experimental gismu"@.len() == 18);
    assert("fu'ivla"@.len() == 7);
    assert("gismu"@.len() == 5);
    assert("lujvo"@.len() == 5);
    assert("obsolete cmavo"@.len() == 14);
    assert("cmavo-compound"@[0] == 'c');
    assert("obsolete cmavo"@[0] == 'o');
}

proof fn lemma_wt_obsoletecmevla()
    ensures
        sp_word_type("obsolete cmevla"@) == Some(WordType::ObsoleteCmevla),
        clean("obsolete cmevla"@),
{
    reveal_strlit("bu-letteral");
    reveal_strlit("cmavo");
    reveal_strlit("cmavo-compound");
    reveal_strlit("cmevla");
    reveal_strlit("experimental cmavo");
    reveal_strlit("experimental gismu");
    reveal_strlit("fu'ivla");
    reveal_strlit("gismu");
    reveal_strlit("lujvo");
    reveal_strlit("obsolete cmavo");
    reveal_strlit("obsolete cmevla");
    assert("bu-letteral"@.len() == 11);
    assert("cmavo"@.len() == 5);
    assert("cmavo-compound"@.len() == 14);
    assert("cmevla"@.len() == 6);
    assert("experimental cmavo"@.len() == 18);
    assert("experimental gismu"@.len() == 18);
    assert("fu'ivla"@.len() == 7);
    assert("gismu"@.len() == 5);
    assert("lujvo"@.len() == 5);
    assert("obsolete cmavo"@.len() == 14);
    assert("obsolete cmevla"@.len() == 15);
}

proof fn lemma_wt_obsoletefuhivla()
    ensures
        sp_word_type("obsolete fu'ivla"@) == Some(WordType::ObsoleteFuhivla),
        clean("obsolete fu'ivla"@),
{
    reveal_strlit("bu-letteral");
    reveal_strlit("cmavo");
    reveal_strlit("cmavo-compound");
    reveal_strlit("cmevla");
    reveal_strlit("experimental cmavo");
    reveal_strlit("experimental gismu");
    reveal_strlit("fu'ivla");
    reveal_strlit("gismu");
    reveal_strlit("lujvo");
    reveal_strlit("obsolete cmavo");
    reveal_strlit("obsolete cmevla");
    reveal_strlit("obsolete fu'ivla");
    assert("bu-letteral"@.len() == 11);
    assert("cmavo"@.len() == 5);
    assert("cmavo-compound"@.len() == 14);
    assert("cmevla"@.len() == 6);
    assert("experimental cmavo"@.len() == 18);
    assert("experimental gismu"@.len() == 18);
    assert("fu'ivla"@.len() == 7);
    assert("gismu"@.len() == 5);
    assert("lujvo"@.len() == 5);
    assert("obsolete cmavo"@.len() == 14);
    assert("obsolete cmevla"@.len() == 15);
    assert("obsolete fu'ivla"@.len() == 16);
}

proof fn lemma_wt_obsoletezeilujvo()
    ensures
        sp_word_type("obsolete zei-lujvo"@) == Some(WordType::ObsoleteZeiLujvo),
        clean("obsolete zei-lujvo"@),
{
    reveal_strlit("bu-letteral");
    reveal_strlit("cmavo");
    reveal_strlit("cmavo-compound");
    reveal_strlit("cmevla");
    reveal_strlit("experimental cmavo");
    reveal_strlit("experimental gismu");
    reveal_strlit("fu'ivla");
    reveal_strlit("gismu");
    reveal_strlit("lujvo");
    reveal_strlit("obsolete cmavo");
    reveal_strlit("obsolete cmevla");
    reveal_strlit("obsolete fu'ivla");
    reveal_strlit("obsolete zei-lujvo");
    assert("bu-letteral"@.len() == 11);
    assert("cmavo"@.len() == 5);
    assert("cmavo-compound"@.len() == 14);
    assert("cmevla"@.len() == 6);
    assert("experimental cmavo"@.len() == 18);
    assert("experimental gismu"@.len() == 18);
    assert("fu'ivla"@.len() == 7);
    assert("gismu"@.len() == 5);
    assert("lujvo"@.len() == 5);
    assert("obsolete cmavo"@.len() == 14);
    assert("obsolete cmevla"@.len() == 15);
    assert("obsolete fu'ivla"@.len() == 16);
    assert("obsolete zei-lujvo"@.len() == 18);
    assert("experimental cmavo"@[0] == 'e');
    assert("obsolete zei-lujvo"@[0] == 'o');
    assert("experimental gismu"@[0] == 'e');
    assert("obsolete zei-lujvo"@[0] == 'o');
}

proof fn lemma_wt_zeilujvo()
    ensures
        sp_word_type("zei-lujvo"@) == Some(WordType::ZeiLujvo),
        clean("zei-lujvo"@),
{
    reveal_strlit("bu-letteral");
    reveal_strlit("cmavo");
    reveal_strlit("cmavo-compound");
    reveal_strlit("cmevla");
    reveal_strlit("experimental cmavo");
    reveal_strlit("experimental gismu");
    reveal_strlit("fu'ivla");
    reveal_strlit("gismu");
    reveal_strlit("lujvo");
    reveal_strlit("obsolete cmavo");
    reveal_strlit("obsolete cmevla");
    reveal_strlit("obsolete fu'ivla");
    reveal_strlit("obsolete zei-lujvo");
    reveal_strlit("zei-lujvo");
    assert("bu-letteral"@.len() == 11);
    assert("cmavo"@.len() == 5);
    assert("cmavo-compound"@.len() == 14);
    assert("cmevla"@.len() == 6);
    assert("experimental cmavo"@.len() == 18);
    assert("experimental gismu"@.len() == 18);
    assert("fu'ivla"@.len() == 7);
    assert("gismu"@.len() == 5);
    assert("lujvo"@.len() == 5);
    assert("obsolete cmavo"@.len() == 14);
    assert("obsolete cmevla"@.len() == 15);
    assert("obsolete fu'ivla"@.len() == 16);
    assert("obsolete zei-lujvo"@.len() == 18);
    assert("zei-lujvo"@.len() == 9);
}

/// The tags and attribute keys of the schema are pairwise distinct
/// where the reader tells them apart.
proof fn lemma_tag_facts()
    ensures
        "definition"@ != "rafsi"@,
        "definition"@ != "selmaho"@,
        "definition"@ != "user"@,
        "definitionid"@ != "definition"@,
        "definitionid"@ != "rafsi"@,
        "definitionid"@ != "selmaho"@,
        "definitionid"@ != "user"@,
        "glossword"@ != "definition"@,
        "glossword"@ != "definitionid"@,
        "glossword"@ != "notes"@,
        "glossword"@ != "rafsi"@,
        "glossword"@ != "selmaho"@,
        "glossword"@ != "user"@,
        "keyword"@ != "definition"@,
        "keyword"@ != "definitionid"@,
        "keyword"@ != "glossword"@,
        "keyword"@ != "notes"@,
        "keyword"@ != "rafsi"@,
        "keyword"@ != "selmaho"@,
        "keyword"@ != "user"@,
        "notes"@ != "definition"@,
        "notes"@ != "definitionid"@,
        "notes"@ != "rafsi"@,
        "notes"@ != "selmaho"@,
        "notes"@ != "user"@,
        "place"@ != "sense"@,
        "place"@ != "word"@,
        "realname"@ != "username"@,
        "selmaho"@ != "rafsi"@,
        "sense"@ != "place"@,
        "sense"@ != "word"@,
        "to"@ != "from"@,
        "type"@ != "word"@,
        "unofficial"@ != "type"@,
        "unofficial"@ != "word"@,
        "user"@ != "rafsi"@,
        "user"@ != "selmaho"@,
        "valsi"@ != "place"@,
        "valsi"@ != "sense"@,
        "valsi"@ != "word"@,
{
    reveal_strlit("rafsi");
    reveal_strlit("selmaho");
    reveal_strlit("user");
    reveal_strlit("definition");
    reveal_strlit("definitionid");
    reveal_strlit("notes");
    reveal_strlit("glossword");
    reveal_strlit("keyword");
    reveal_strlit("word");
    reveal_strlit("type");
    reveal_strlit("unofficial");
    reveal_strlit("sense");
    reveal_strlit("place");
    reveal_strlit("valsi");
    reveal_strlit("username");
    reveal_strlit("realname");
    reveal_strlit("from");
    reveal_strlit("to");
    assert("rafsi"@.len() == 5);
    assert("selmaho"@.len() == 7);
    assert("user"@.len() == 4);
    assert("definition"@.len() == 10);
    assert("definitionid"@.len() == 12);
    assert("notes"@.len() == 5);
    assert("glossword"@.len() == 9);
    assert("keyword"@.len() == 7);
    assert("word"@.len() == 4);
    assert("type"@.len() == 4);
    assert("unofficial"@.len() == 10);
    assert("sense"@.len() == 5);
    assert("place"@.len() == 5);
    assert("valsi"@.len() == 5);
    assert("username"@.len() == 8);
    assert("realname"@.len() == 8);
    assert("from"@.len() == 4);
    assert("to"@.len() == 2);
    assert("keyword"@[0] == 'k');
    assert("notes"@[0] == 'n');
    assert("place"@[0] == 'p');
    assert("rafsi"@[0] == 'r');
    assert("realname"@[0] == 'r');
    assert("selmaho"@[0] == 's');
    assert("sense"@[0] == 's');
    assert("type"@[0] == 't');
    assert("username"@[0] == 'u');
    assert("valsi"@[0] == 'v');
    assert("word"@[0] == 'w');
}

/// The vocabulary word of a type reads back as that type, and is
/// clean.
pub proof fn lemma_wt_text(t: WordType)
    ensures
        sp_word_type(wt_text(t)) == Some(t),
        clean(wt_text(t)),
{
    match t {
        WordType::BuLetteral => lemma_wt_buletteral(),
        WordType::Cmavo => lemma_wt_cmavo(),
        WordType::CmavoCompound => lemma_wt_cmavocompound(),
        WordType::Cmevla => lemma_wt_cmevla(),
        WordType::ExperimentalCmavo => lemma_wt_experimentalcmavo(),
        WordType::ExperimentalGismu => lemma_wt_experimentalgismu(),
        WordType::Fuhivla => lemma_wt_fuhivla(),
        WordType::Gismu => lemma_wt_gismu(),
        WordType::Lujvo => lemma_wt_lujvo(),
        WordType::ObsoleteCmavo => lemma_wt_obsoletecmavo(),
        WordType::ObsoleteCmevla => lemma_wt_obsoletecmevla(),
        WordType::ObsoleteFuhivla => lemma_wt_obsoletefuhivla(),
        WordType::ObsoleteZeiLujvo => lemma_wt_obsoletezeilujvo(),
        WordType::ZeiLujvo => lemma_wt_zeilujvo(),
    }
}


/// The events of one flattened-text field: the start tag, its end, the
/// text, and the matching close tag.
pub open spec fn flat_events(tag: Seq<char>, text: Seq<char>) -> Seq<EvV> {
    seq![EvV::Open(tag), EvV::TagDone, EvV::Text(text), EvV::Close(tag)]
}

/// The events of an optional flattened-text field: absent, or present
/// once.
pub open spec fn opt_flat_events(tag: Seq<char>, o: Option<Seq<char>>) -> Seq<EvV> {
    match o {
        None => Seq::empty(),
        Some(t) => flat_events(tag, t),
    }
}

/// The events of an optional attribute: absent, or present once.
pub open spec fn opt_attr_events(key: Seq<char>, o: Option<Seq<char>>) -> Seq<EvV> {
    match o {
        None => Seq::empty(),
        Some(v) => seq![EvV::Attr(key, v)],
    }
}

/// The events of a list of `rafsi` fields, in order.
pub open spec fn rafsi_events(rs: Seq<Seq<char>>) -> Seq<EvV>
    decreases rs.len(),
{
    if rs.len() == 0 {
        Seq::empty()
    } else {
        flat_events("rafsi"@, rs.first()) + rafsi_events(rs.drop_first())
    }
}

/// The events of one `user` element.
pub open spec fn user_events(u: UserV) -> Seq<EvV> {
    seq![EvV::Open("user"@), EvV::TagDone] + flat_events("username"@, u.username)
        + opt_flat_events("realname"@, u.realname) + seq![EvV::Close("user"@)]
}

/// The events of one `glossword` element.
pub open spec fn gloss_events(g: GlossWordV) -> Seq<EvV> {
    seq![EvV::Open("glossword"@), EvV::Attr("word"@, g.word)] + opt_attr_events("sense"@, g.sense)
        + seq![EvV::TagEmpty]
}

/// The events of a list of `glossword` elements, in order.
pub open spec fn glosses_events(gs: Seq<GlossWordV>) -> Seq<EvV>
    decreases gs.len(),
{
    if gs.len() == 0 {
        Seq::empty()
    } else {
        gloss_events(gs.first()) + glosses_events(gs.drop_first())
    }
}

/// The events of one `keyword` element.
pub open spec fn key_events(k: KeywordV) -> Seq<EvV> {
    seq![
        EvV::Open("keyword"@),
        EvV::Attr("word"@, k.word),
        EvV::Attr("place"@, u32_text(k.place)),
    ] + opt_attr_events("sense"@, k.sense) + seq![EvV::TagEmpty]
}

/// The events of a list of `keyword` elements, in order.
pub open spec fn keys_events(ks: Seq<KeywordV>) -> Seq<EvV>
    decreases ks.len(),
{
    if ks.len() == 0 {
        Seq::empty()
    } else {
        key_events(ks.first()) + keys_events(ks.drop_first())
    }
}

/// The events of one `nlword` element.
pub open spec fn nl_events(n: NlWordV) -> Seq<EvV> {
    seq![EvV::Open("nlword"@), EvV::Attr("word"@, n.word)] + opt_attr_events("sense"@, n.sense)
        + (match n.place {
        None => Seq::empty(),
        Some(p) => seq![EvV::Attr("place"@, u32_text(p))],
    }) + seq![EvV::Attr("valsi"@, n.valsi), EvV::TagEmpty]
}

/// The events of a list of `nlword` elements, in order.
pub open spec fn nls_events(ns: Seq<NlWordV>) -> Seq<EvV>
    decreases ns.len(),
{
    if ns.len() == 0 {
        Seq::empty()
    } else {
        nl_events(ns.first()) + nls_events(ns.drop_first())
    }
}

/// The events of one `valsi` element, children in the order of the
/// schema, optional pieces present exactly where the value has them.
pub open spec fn word_events(w: WordV) -> Seq<EvV> {
    seq![EvV::Open("valsi"@), EvV::Attr("word"@, w.word), EvV::Attr("type"@, wt_text(w.ty))] + (
    if w.unofficial {
        seq![EvV::Attr("unofficial"@, "true"@)]
    } else {
        Seq::empty()
    }) + seq![EvV::TagDone] + rafsi_events(w.rafsi) + opt_flat_events("selmaho"@, w.selmaho)
        + user_events(w.user) + flat_events("definition"@, w.definition) + flat_events(
        "definitionid"@,
        u32_text(w.definition_id),
    ) + opt_flat_events("notes"@, w.notes) + glosses_events(w.glosses) + keys_events(w.keywords)
        + seq![EvV::Close("valsi"@)]
}

/// The events of a list of `valsi` elements, in order.
pub open spec fn words_events(ws: Seq<WordV>) -> Seq<EvV>
    decreases ws.len(),
{
    if ws.len() == 0 {
        Seq::empty()
    } else {
        word_events(ws.first()) + words_events(ws.drop_first())
    }
}

/// The canonical document of a dictionary value: both directions in
/// the order of the schema.
pub open spec fn dict_events(d: DictionaryV) -> Seq<EvV> {
    seq![
        EvV::Open("dictionary"@),
        EvV::TagDone,
        EvV::Open("direction"@),
        EvV::Attr("from"@, "lojban"@),
        EvV::Attr("to"@, "English"@),
        EvV::TagDone,
    ] + words_events(d.lojban_to_english) + seq![
        EvV::Close("direction"@),
        EvV::Open("direction"@),
        EvV::Attr("from"@, "English"@),
        EvV::Attr("to"@, "lojban"@),
        EvV::TagDone,
    ] + nls_events(d.english_to_lojban) + seq![
        EvV::Close("direction"@),
        EvV::Close("dictionary"@),
    ]
}

/// A well-formed `user`: no value holds an ampersand.
pub open spec fn wf_user(u: UserV) -> bool {
    clean(u.username) && clean_opt(u.realname)
}

/// A well-formed `glossword`.
pub open spec fn wf_gloss(g: GlossWordV) -> bool {
    clean(g.word) && clean_opt(g.sense)
}

/// A well-formed `keyword`.
pub open spec fn wf_key(k: KeywordV) -> bool {
    clean(k.word) && clean_opt(k.sense)
}

/// A well-formed `nlword`.
pub open spec fn wf_nl(n: NlWordV) -> bool {
    clean(n.word) && clean_opt(n.sense) && clean(n.valsi)
}

/// A well-formed `valsi`: no string field holds an ampersand.
pub open spec fn wf_word(w: WordV) -> bool {
    &&& clean(w.word)
    &&& forall|i: int| 0 <= i < w.rafsi.len() ==> clean(#[trigger] w.rafsi[i])
    &&& clean_opt(w.selmaho)
    &&& wf_user(w.user)
    &&& clean(w.definition)
    &&& clean_opt(w.notes)
    &&& forall|i: int| 0 <= i < w.glosses.len() ==> wf_gloss(#[trigger] w.glosses[i])
    &&& forall|i: int| 0 <= i < w.keywords.len() ==> wf_key(#[trigger] w.keywords[i])
}

/// A well-formed dictionary value: every entry well-formed.
pub open spec fn wf_dict(d: DictionaryV) -> bool {
    &&& forall|i: int|
        0 <= i < d.lojban_to_english.len() ==> wf_word(#[trigger] d.lojban_to_english[i])
    &&& forall|i: int|
        0 <= i < d.english_to_lojban.len() ==> wf_nl(#[trigger] d.english_to_lojban[i])
}

proof fn lemma_drive1(m0: SpMode, e1: EvV, m1: SpMode)
    requires
        sp_step(m0, e1) == SpStep::Next(m1),
    ensures
        sp_drive(m0, seq![e1]) == Some(m1),
{
    reveal_with_fuel(sp_drive, 2);
    assert(seq![e1].first() == e1);
    assert(seq![e1].drop_first() =~= Seq::<EvV>::empty());
}

proof fn lemma_drive2(m0: SpMode, e1: EvV, e2: EvV, m1: SpMode, m2: SpMode)
    requires
        sp_step(m0, e1) == SpStep::Next(m1),
        sp_step(m1, e2) == SpStep::Next(m2),
    ensures
        sp_drive(m0, seq![e1, e2]) == Some(m2),
{
    assert(seq![e1, e2].first() == e1);
    assert(seq![e1, e2].drop_first() =~= seq![e2]);
    lemma_drive1(m1, e2, m2);
}

proof fn lemma_drive3(m0: SpMode, e1: EvV, e2: EvV, e3: EvV, m1: SpMode, m2: SpMode, m3: SpMode)
    requires
        sp_step(m0, e1) == SpStep::Next(m1),
        sp_step(m1, e2) == SpStep::Next(m2),
        sp_step(m2, e3) == SpStep::Next(m3),
    ensures
        sp_drive(m0, seq![e1, e2, e3]) == Some(m3),
{
    assert(seq![e1, e2, e3].first() == e1);
    assert(seq![e1, e2, e3].drop_first() =~= seq![e2, e3]);
    lemma_drive2(m1, e2, e3, m2, m3);
}

proof fn lemma_drive4(
    m0: SpMode,
    e1: EvV,
    e2: EvV,
    e3: EvV,
    e4: EvV,
    m1: SpMode,
    m2: SpMode,
    m3: SpMode,
    m4: SpMode,
)
    requires
        sp_step(m0, e1) == SpStep::Next(m1),
        sp_step(m1, e2) == SpStep::Next(m2),
        sp_step(m2, e3) == SpStep::Next(m3),
        sp_step(m3, e4) == SpStep::Next(m4),
    ensures
        sp_drive(m0, seq![e1, e2, e3, e4]) == Some(m4),
{
    assert(seq![e1, e2, e3, e4].first() == e1);
    assert(seq![e1, e2, e3, e4].drop_first() =~= seq![e2, e3, e4]);
    lemma_drive3(m1, e2, e3, e4, m2, m3, m4);
}

proof fn lemma_drive5(
    m0: SpMode,
    e1: EvV,
    e2: EvV,
    e3: EvV,
    e4: EvV,
    e5: EvV,
    m1: SpMode,
    m2: SpMode,
    m3: SpMode,
    m4: SpMode,
    m5: SpMode,
)
    requires
        sp_step(m0, e1) == SpStep::Next(m1),
        sp_step(m1, e2) == SpStep::Next(m2),
        sp_step(m2, e3) == SpStep::Next(m3),
        sp_step(m3, e4) == SpStep::Next(m4),
        sp_step(m4, e5) == SpStep::Next(m5),
    ensures
        sp_drive(m0, seq![e1, e2, e3, e4, e5]) == Some(m5),
{
    assert(seq![e1, e2, e3, e4, e5].first() == e1);
    assert(seq![e1, e2, e3, e4, e5].drop_first() =~= seq![e2, e3, e4, e5]);
    lemma_drive4(m1, e2, e3, e4, e5, m2, m3, m4, m5);
}

/// Reading one flattened-text child of a `valsi` commits its field.
proof fn lemma_drive_word_flat(
    dict: DictBV,
    words: Seq<WordV>,
    wb: WordBV,
    f: WordField,
    text: Seq<char>,
)
    requires
        clean(text),
        sp_commit_word_flat(wb, f, text) is Ok,
    ensures
        sp_drive(SpMode::WordBody { dict, words, wb }, flat_events(sp_word_field_tag(f), text))
            == Some(SpMode::WordBody { dict, words, wb: sp_commit_word_flat(wb, f, text)->Ok_0 }),
{
    lemma_tag_facts();
    let tag = sp_word_field_tag(f);
    let m0 = SpMode::WordBody { dict, words, wb };
    let m1 = SpMode::WordFlat { dict, words, wb, field: f, buf: Seq::empty() };
    let m3 = SpMode::WordFlat { dict, words, wb, field: f, buf: Seq::empty() + text };
    let m4 = SpMode::WordBody { dict, words, wb: sp_commit_word_flat(wb, f, text)->Ok_0 };
    assert(sp_step(m0, EvV::Open(tag)) == SpStep::Next(m1)) by {
        match f {
            WordField::Rafsi => {},
            WordField::Selmaho => {},
            WordField::Definition => {},
            WordField::DefinitionId => {},
            WordField::Notes => {},
        }
    }
    assert(sp_step(m1, EvV::TagDone) == SpStep::Next(m1));
    assert(sp_step(m1, EvV::Text(text)) == SpStep::Next(m3));
    assert(Seq::empty() + text =~= text);
    assert(sp_step(m3, EvV::Close(tag)) == SpStep::Next(m4));
    lemma_drive4(m0, EvV::Open(tag), EvV::TagDone, EvV::Text(text), EvV::Close(tag), m1, m1, m3, m4);
}

/// Reading a list of `rafsi` children appends them in order.
proof fn lemma_drive_rafsi(dict: DictBV, words: Seq<WordV>, wb: WordBV, rs: Seq<Seq<char>>)
    requires
        forall|i: int| 0 <= i < rs.len() ==> clean(#[trigger] rs[i]),
    ensures
        sp_drive(SpMode::WordBody { dict, words, wb }, rafsi_events(rs)) == Some(
            SpMode::WordBody { dict, words, wb: WordBV { rafsi: wb.rafsi + rs, ..wb } },
        ),
    decreases rs.len(),
{
    let m0 = SpMode::WordBody { dict, words, wb };
    if rs.len() == 0 {
        assert(wb.rafsi + rs =~= wb.rafsi);
        assert(WordBV { rafsi: wb.rafsi + rs, ..wb } == wb);
    } else {
        assert(clean(rs.first()));
        lemma_drive_word_flat(dict, words, wb, WordField::Rafsi, rs.first());
        let wb1 = WordBV { rafsi: wb.rafsi.push(rs.first()), ..wb };
        let m1 = SpMode::WordBody { dict, words, wb: wb1 };
        lemma_drive_append(m0, flat_events("rafsi"@, rs.first()), rafsi_events(rs.drop_first()), m1);
        lemma_drive_rafsi(dict, words, wb1, rs.drop_first());
        assert(wb1.rafsi + rs.drop_first() =~= wb.rafsi + rs);
    }
}

/// Reading one flattened-text child of a `user` commits its field.
proof fn lemma_drive_user_flat(
    dict: DictBV,
    words: Seq<WordV>,
    wb: WordBV,
    ub: UserBV,
    f: UserField,
    text: Seq<char>,
)
    requires
        clean(text),
    ensures
        sp_drive(
            SpMode::UserBody { dict, words, wb, ub },
            flat_events(sp_user_field_tag(f), text),
        ) == Some(
            SpMode::UserBody {
                dict,
                words,
                wb,
                ub: crate::machine::sp_commit_user_flat(ub, f, text),
            },
        ),
{
    lemma_tag_facts();
    let tag = sp_user_field_tag(f);
    let m0 = SpMode::UserBody { dict, words, wb, ub };
    let m1 = SpMode::UserFlat { dict, words, wb, ub, field: f, buf: Seq::empty() };
    let m3 = SpMode::UserFlat { dict, words, wb, ub, field: f, buf: Seq::empty() + text };
    let m4 = SpMode::UserBody {
        dict,
        words,
        wb,
        ub: crate::machine::sp_commit_user_flat(ub, f, text),
    };
    assert(sp_step(m0, EvV::Open(tag)) == SpStep::Next(m1)) by {
        match f {
            UserField::Username => {},
            UserField::Realname => {},
        }
    }
    assert(sp_step(m1, EvV::TagDone) == SpStep::Next(m1));
    assert(sp_step(m1, EvV::Text(text)) == SpStep::Next(m3));
    assert(Seq::empty() + text =~= text);
    assert(sp_step(m3, EvV::Close(tag)) == SpStep::Next(m4));
    lemma_drive4(m0, EvV::Open(tag), EvV::TagDone, EvV::Text(text), EvV::Close(tag), m1, m1, m3, m4);
}

/// Reading one `user` element sets the word's `user` field.
#[verifier::rlimit(100)]
proof fn lemma_drive_user(dict: DictBV, words: Seq<WordV>, wb: WordBV, u: UserV)
    requires
        wf_user(u),
    ensures
        sp_drive(SpMode::WordBody { dict, words, wb }, user_events(u)) == Some(
            SpMode::WordBody { dict, words, wb: WordBV { user: Some(u), ..wb } },
        ),
{
    lemma_tag_facts();
    let m0 = SpMode::WordBody { dict, words, wb };
    let ub0 = UserBV { username: None, realname: None };
    let m1 = SpMode::UserAttrs { dict, words, wb, ub: ub0 };
    let m2 = SpMode::UserBody { dict, words, wb, ub: ub0 };
    assert(sp_step(m0, EvV::Open("user"@)) == SpStep::Next(m1));
    assert(sp_step(m1, EvV::TagDone) == SpStep::Next(m2));
    lemma_drive2(m0, EvV::Open("user"@), EvV::TagDone, m1, m2);
    let ub1 = UserBV { username: Some(u.username), realname: None };
    lemma_drive_user_flat(dict, words, wb, ub0, UserField::Username, u.username);
    let m3 = SpMode::UserBody { dict, words, wb, ub: ub1 };
    let head = seq![EvV::Open("user"@), EvV::TagDone];
    lemma_drive_append(m0, head, flat_events("username"@, u.username), m2);
    let s2 = head + flat_events("username"@, u.username);
    lemma_drive_append(m0, s2, opt_flat_events("realname"@, u.realname), m3);
    let ub2 = UserBV { username: Some(u.username), realname: u.realname };
    let m4 = SpMode::UserBody { dict, words, wb, ub: ub2 };
    match u.realname {
        None => {
            assert(ub1 == ub2);
        },
        Some(rn) => {
            assert(clean(rn));
            lemma_drive_user_flat(dict, words, wb, ub1, UserField::Realname, rn);
        },
    }
    let s3 = s2 + opt_flat_events("realname"@, u.realname);
    assert(sp_drive(m0, s3) == Some(m4));
    let m5 = SpMode::WordBody { dict, words, wb: WordBV { user: Some(u), ..wb } };
    assert(sp_fin_user(ub2) == Ok::<UserV, ErrV>(UserV { username: u.username, realname: u.realname }));
    assert(UserV { username: u.username, realname: u.realname } == u);
    assert(sp_step(m4, EvV::Close("user"@)) == SpStep::Next(m5));
    lemma_drive1(m4, EvV::Close("user"@), m5);
    lemma_drive_append(m0, s3, seq![EvV::Close("user"@)], m4);
    assert(user_events(u) =~= s3 + seq![EvV::Close("user"@)]);
}

/// Reading one `glossword` element appends it to the word's glosses.
#[verifier::rlimit(100)]
proof fn lemma_drive_gloss(dict: DictBV, words: Seq<WordV>, wb: WordBV, g: GlossWordV)
    requires
        wf_gloss(g),
    ensures
        sp_drive(SpMode::WordBody { dict, words, wb }, gloss_events(g)) == Some(
            SpMode::WordBody { dict, words, wb: WordBV { glosses: wb.glosses.push(g), ..wb } },
        ),
{
    lemma_tag_facts();
    let m0 = SpMode::WordBody { dict, words, wb };
    let gb0 = GlossBV { word: None, sense: None };
    let m1 = SpMode::GlossAttrs { dict, words, wb, gb: gb0 };
    let gb1 = GlossBV { word: Some(g.word), sense: None };
    let m2 = SpMode::GlossAttrs { dict, words, wb, gb: gb1 };
    let gb2 = GlossBV { word: Some(g.word), sense: g.sense };
    let m3 = SpMode::GlossAttrs { dict, words, wb, gb: gb2 };
    let m4 = SpMode::WordBody { dict, words, wb: WordBV { glosses: wb.glosses.push(g), ..wb } };
    assert(sp_step(m0, EvV::Open("glossword"@)) == SpStep::Next(m1));
    assert(sp_step(m1, EvV::Attr("word"@, g.word)) == SpStep::Next(m2));
    assert(sp_fin_gloss(gb2) == Ok::<GlossWordV, ErrV>(
        GlossWordV { word: g.word, sense: g.sense },
    ));
    assert(GlossWordV { word: g.word, sense: g.sense } == g);
    match g.sense {
        None => {
            assert(gb1 == gb2);
            assert(sp_step(m2, EvV::TagEmpty) == SpStep::Next(m4));
            lemma_drive3(m0, EvV::Open("glossword"@), EvV::Attr("word"@, g.word), EvV::TagEmpty,
                m1, m2, m4);
            assert(gloss_events(g) =~= seq![
                EvV::Open("glossword"@),
                EvV::Attr("word"@, g.word),
                EvV::TagEmpty,
            ]);
        },
        Some(sv) => {
            assert(clean(sv));
            assert(sp_step(m2, EvV::Attr("sense"@, sv)) == SpStep::Next(m3));
            assert(sp_step(m3, EvV::TagEmpty) == SpStep::Next(m4));
            lemma_drive4(m0, EvV::Open("glossword"@), EvV::Attr("word"@, g.word),
                EvV::Attr("sense"@, sv), EvV::TagEmpty, m1, m2, m3, m4);
            assert(gloss_events(g) =~= seq![
                EvV::Open("glossword"@),
                EvV::Attr("word"@, g.word),
                EvV::Attr("sense"@, sv),
                EvV::TagEmpty,
            ]);
        },
    }
}

/// Reading a list of `glossword` elements appends them in order.
proof fn lemma_drive_glosses(dict: DictBV, words: Seq<WordV>, wb: WordBV, gs: Seq<GlossWordV>)
    requires
        forall|i: int| 0 <= i < gs.len() ==> wf_gloss(#[trigger] gs[i]),
    ensures
        sp_drive(SpMode::WordBody { dict, words, wb }, glosses_events(gs)) == Some(
            SpMode::WordBody { dict, words, wb: WordBV { glosses: wb.glosses + gs, ..wb } },
        ),
    decreases gs.len(),
{
    let m0 = SpMode::WordBody { dict, words, wb };
    if gs.len() == 0 {
        assert(wb.glosses + gs =~= wb.glosses);
        assert(WordBV { glosses: wb.glosses + gs, ..wb } == wb);
    } else {
        lemma_drive_gloss(dict, words, wb, gs.first());
        let wb1 = WordBV { glosses: wb.glosses.push(gs.first()), ..wb };
        let m1 = SpMode::WordBody { dict, words, wb: wb1 };
        lemma_drive_append(m0, gloss_events(gs.first()), glosses_events(gs.drop_first()), m1);
        lemma_drive_glosses(dict, words, wb1, gs.drop_first());
        assert(wb1.glosses + gs.drop_first() =~= wb.glosses + gs);
    }
}

/// Reading one `keyword` element appends it to the word's keywords.
#[verifier::rlimit(100)]
proof fn lemma_drive_key(dict: DictBV, words: Seq<WordV>, wb: WordBV, k: KeywordV)
    requires
        wf_key(k),
    ensures
        sp_drive(SpMode::WordBody { dict, words, wb }, key_events(k)) == Some(
            SpMode::WordBody { dict, words, wb: WordBV { keywords: wb.keywords.push(k), ..wb } },
        ),
{
    lemma_tag_facts();
    lemma_u32_text(k.place);
    let m0 = SpMode::WordBody { dict, words, wb };
    let kb0 = KeyBV { word: None, place: None, sense: None };
    let m1 = SpMode::KeyAttrs { dict, words, wb, kb: kb0 };
    let kb1 = KeyBV { word: Some(k.word), place: None, sense: None };
    let m2 = SpMode::KeyAttrs { dict, words, wb, kb: kb1 };
    let kb2 = KeyBV { word: Some(k.word), place: Some(k.place), sense: None };
    let m3 = SpMode::KeyAttrs { dict, words, wb, kb: kb2 };
    let kb3 = KeyBV { word: Some(k.word), place: Some(k.place), sense: k.sense };
    let m4 = SpMode::KeyAttrs { dict, words, wb, kb: kb3 };
    let m5 = SpMode::WordBody { dict, words, wb: WordBV { keywords: wb.keywords.push(k), ..wb } };
    assert(sp_step(m0, EvV::Open("keyword"@)) == SpStep::Next(m1));
    assert(sp_step(m1, EvV::Attr("word"@, k.word)) == SpStep::Next(m2));
    assert(sp_step(m2, EvV::Attr("place"@, u32_text(k.place))) == SpStep::Next(m3));
    assert(sp_fin_key(kb3) == Ok::<KeywordV, ErrV>(
        KeywordV { word: k.word, place: k.place, sense: k.sense },
    ));
    assert(KeywordV { word: k.word, place: k.place, sense: k.sense } == k);
    match k.sense {
        None => {
            assert(kb2 == kb3);
            assert(sp_step(m3, EvV::TagEmpty) == SpStep::Next(m5));
            lemma_drive4(m0, EvV::Open("keyword"@), EvV::Attr("word"@, k.word),
                EvV::Attr("place"@, u32_text(k.place)), EvV::TagEmpty, m1, m2, m3, m5);
            assert(key_events(k) =~= seq![
                EvV::Open("keyword"@),
                EvV::Attr("word"@, k.word),
                EvV::Attr("place"@, u32_text(k.place)),
                EvV::TagEmpty,
            ]);
        },
        Some(sv) => {
            assert(clean(sv));
            assert(sp_step(m3, EvV::Attr("sense"@, sv)) == SpStep::Next(m4));
            assert(sp_step(m4, EvV::TagEmpty) == SpStep::Next(m5));
            lemma_drive5(m0, EvV::Open("keyword"@), EvV::Attr("word"@, k.word),
                EvV::Attr("place"@, u32_text(k.place)), EvV::Attr("sense"@, sv), EvV::TagEmpty,
                m1, m2, m3, m4, m5);
            assert(key_events(k) =~= seq![
                EvV::Open("keyword"@),
                EvV::Attr("word"@, k.word),
                EvV::Attr("place"@, u32_text(k.place)),
                EvV::Attr("sense"@, sv),
                EvV::TagEmpty,
            ]);
        },
    }
}

/// Reading a list of `keyword` elements appends them in order.
proof fn lemma_drive_keys(dict: DictBV, words: Seq<WordV>, wb: WordBV, ks: Seq<KeywordV>)
    requires
        forall|i: int| 0 <= i < ks.len() ==> wf_key(#[trigger] ks[i]),
    ensures
        sp_drive(SpMode::WordBody { dict, words, wb }, keys_events(ks)) == Some(
            SpMode::WordBody { dict, words, wb: WordBV { keywords: wb.keywords + ks, ..wb } },
        ),
    decreases ks.len(),
{
    let m0 = SpMode::WordBody { dict, words, wb };
    if ks.len() == 0 {
        assert(wb.keywords + ks =~= wb.keywords);
        assert(WordBV { keywords: wb.keywords + ks, ..wb } == wb);
    } else {
        lemma_drive_key(dict, words, wb, ks.first());
        let wb1 = WordBV { keywords: wb.keywords.push(ks.first()), ..wb };
        let m1 = SpMode::WordBody { dict, words, wb: wb1 };
        lemma_drive_append(m0, key_events(ks.first()), keys_events(ks.drop_first()), m1);
        lemma_drive_keys(dict, words, wb1, ks.drop_first());
        assert(wb1.keywords + ks.drop_first() =~= wb.keywords + ks);
    }
}

proof fn lemma_drive6(
    m0: SpMode,
    e1: EvV,
    e2: EvV,
    e3: EvV,
    e4: EvV,
    e5: EvV,
    e6: EvV,
    m1: SpMode,
    m2: SpMode,
    m3: SpMode,
    m4: SpMode,
    m5: SpMode,
    m6: SpMode,
)
    requires
        sp_step(m0, e1) == SpStep::Next(m1),
        sp_step(m1, e2) == SpStep::Next(m2),
        sp_step(m2, e3) == SpStep::Next(m3),
        sp_step(m3, e4) == SpStep::Next(m4),
        sp_step(m4, e5) == SpStep::Next(m5),
        sp_step(m5, e6) == SpStep::Next(m6),
    ensures
        sp_drive(m0, seq![e1, e2, e3, e4, e5, e6]) == Some(m6),
{
    assert(seq![e1, e2, e3, e4, e5, e6].first() == e1);
    assert(seq![e1, e2, e3, e4, e5, e6].drop_first() =~= seq![e2, e3, e4, e5, e6]);
    lemma_drive5(m1, e2, e3, e4, e5, e6, m2, m3, m4, m5, m6);
}

/// Reading one `nlword` element appends it to the direction's entries.
#[verifier::rlimit(100)]
proof fn lemma_drive_nl(dict: DictBV, nls: Seq<NlWordV>, n: NlWordV)
    requires
        wf_nl(n),
    ensures
        sp_drive(SpMode::DirNls { dict, nls }, nl_events(n)) == Some(
            SpMode::DirNls { dict, nls: nls.push(n) },
        ),
{
    lemma_tag_facts();
    let m0 = SpMode::DirNls { dict, nls };
    let nb0 = NlBV { word: None, sense: None, place: None, valsi: None };
    let m1 = SpMode::NlAttrs { dict, nls, nb: nb0 };
    let nb1 = NlBV { word: Some(n.word), ..nb0 };
    let m2 = SpMode::NlAttrs { dict, nls, nb: nb1 };
    let nb2 = NlBV { sense: n.sense, ..nb1 };
    let m3 = SpMode::NlAttrs { dict, nls, nb: nb2 };
    let nb3 = NlBV { place: n.place, ..nb2 };
    let m4 = SpMode::NlAttrs { dict, nls, nb: nb3 };
    let nb4 = NlBV { valsi: Some(n.valsi), ..nb3 };
    let m5 = SpMode::NlAttrs { dict, nls, nb: nb4 };
    let m6 = SpMode::DirNls { dict, nls: nls.push(n) };
    let s1 = seq![EvV::Open("nlword"@), EvV::Attr("word"@, n.word)];
    assert(sp_step(m0, EvV::Open("nlword"@)) == SpStep::Next(m1));
    assert(sp_step(m1, EvV::Attr("word"@, n.word)) == SpStep::Next(m2));
    lemma_drive2(m0, EvV::Open("nlword"@), EvV::Attr("word"@, n.word), m1, m2);
    let s2 = opt_attr_events("sense"@, n.sense);
    match n.sense {
        None => {
            assert(nb1 == nb2);
            assert(sp_drive(m2, s2) == Some(m3));
        },
        Some(sv) => {
            assert(clean(sv));
            assert(sp_step(m2, EvV::Attr("sense"@, sv)) == SpStep::Next(m3));
            lemma_drive1(m2, EvV::Attr("sense"@, sv), m3);
        },
    }
    lemma_drive_append(m0, s1, s2, m2);
    let s3 = match n.place {
        None => Seq::<EvV>::empty(),
        Some(p) => seq![EvV::Attr("place"@, u32_text(p))],
    };
    match n.place {
        None => {
            assert(nb2 == nb3);
            assert(sp_drive(m3, s3) == Some(m4));
        },
        Some(p) => {
            lemma_u32_text(p);
            assert(sp_step(m3, EvV::Attr("place"@, u32_text(p))) == SpStep::Next(m4));
            lemma_drive1(m3, EvV::Attr("place"@, u32_text(p)), m4);
        },
    }
    lemma_drive_append(m0, s1 + s2, s3, m3);
    let s4 = seq![EvV::Attr("valsi"@, n.valsi), EvV::TagEmpty];
    assert(sp_step(m4, EvV::Attr("valsi"@, n.valsi)) == SpStep::Next(m5));
    assert(sp_fin_nl(nb4) == Ok::<NlWordV, ErrV>(
        NlWordV { word: n.word, sense: n.sense, place: n.place, valsi: n.valsi },
    ));
    assert(NlWordV { word: n.word, sense: n.sense, place: n.place, valsi: n.valsi } == n);
    assert(sp_step(m5, EvV::TagEmpty) == SpStep::Next(m6));
    lemma_drive2(m4, EvV::Attr("valsi"@, n.valsi), EvV::TagEmpty, m5, m6);
    lemma_drive_append(m0, s1 + s2 + s3, s4, m4);
    assert(nl_events(n) == s1 + s2 + s3 + s4);
}

/// Reading a list of `nlword` elements appends them in order.
proof fn lemma_drive_nls(dict: DictBV, nls: Seq<NlWordV>, ns: Seq<NlWordV>)
    requires
        forall|i: int| 0 <= i < ns.len() ==> wf_nl(#[trigger] ns[i]),
    ensures
        sp_drive(SpMode::DirNls { dict, nls }, nls_events(ns)) == Some(
            SpMode::DirNls { dict, nls: nls + ns },
        ),
    decreases ns.len(),
{
    let m0 = SpMode::DirNls { dict, nls };
    if ns.len() == 0 {
        assert(nls + ns =~= nls);
    } else {
        lemma_drive_nl(dict, nls, ns.first());
        let m1 = SpMode::DirNls { dict, nls: nls.push(ns.first()) };
        lemma_drive_append(m0, nl_events(ns.first()), nls_events(ns.drop_first()), m1);
        assert forall|i: int| 0 <= i < ns.drop_first().len() implies wf_nl(
            #[trigger] ns.drop_first()[i],
        ) by {
            assert(ns.drop_first()[i] == ns[i + 1]);
        }
        lemma_drive_nls(dict, nls.push(ns.first()), ns.drop_first());
        assert(nls.push(ns.first()) + ns.drop_first() =~= nls + ns);
    }
}

/// Reading one `valsi` element appends it to the direction's words.
#[verifier::rlimit(100)]
proof fn lemma_drive_word(dict: DictBV, words: Seq<WordV>, w: WordV)
    requires
        wf_word(w),
    ensures
        sp_drive(SpMode::DirWords { dict, words }, word_events(w)) == Some(
            SpMode::DirWords { dict, words: words.push(w) },
        ),
{
    lemma_tag_facts();
    lemma_wt_text(w.ty);
    lemma_clean_true();
    lemma_u32_text(w.definition_id);
    let m0 = SpMode::DirWords { dict, words };
    let wb0 = WordBV {
        word: None,
        ty: None,
        unofficial: None,
        rafsi: Seq::empty(),
        selmaho: None,
        user: None,
        definition: None,
        definition_id: None,
        notes: None,
        glosses: Seq::empty(),
        keywords: Seq::empty(),
    };
    let m1 = SpMode::WordAttrs { dict, words, wb: wb0 };
    let wb1 = WordBV { word: Some(w.word), ..wb0 };
    let m2 = SpMode::WordAttrs { dict, words, wb: wb1 };
    let wb2 = WordBV { ty: Some(w.ty), ..wb1 };
    let m3 = SpMode::WordAttrs { dict, words, wb: wb2 };
    let wb3 = if w.unofficial {
        WordBV { unofficial: Some(true), ..wb2 }
    } else {
        wb2
    };
    let m4 = SpMode::WordAttrs { dict, words, wb: wb3 };
    let m5 = SpMode::WordBody { dict, words, wb: wb3 };
    assert(sp_step(m0, EvV::Open("valsi"@)) == SpStep::Next(m1));
    assert(sp_step(m1, EvV::Attr("word"@, w.word)) == SpStep::Next(m2));
    assert(sp_step(m2, EvV::Attr("type"@, wt_text(w.ty))) == SpStep::Next(m3));
    let s1 = seq![
        EvV::Open("valsi"@),
        EvV::Attr("word"@, w.word),
        EvV::Attr("type"@, wt_text(w.ty)),
    ] + (if w.unofficial {
        seq![EvV::Attr("unofficial"@, "true"@)]
    } else {
        Seq::empty()
    }) + seq![EvV::TagDone];
    if w.unofficial {
        assert(sp_bool("true"@) == Some(true));
        assert(sp_step(m3, EvV::Attr("unofficial"@, "true"@)) == SpStep::Next(m4));
        assert(sp_step(m4, EvV::TagDone) == SpStep::Next(m5));
        lemma_drive5(m0, EvV::Open("valsi"@), EvV::Attr("word"@, w.word),
            EvV::Attr("type"@, wt_text(w.ty)), EvV::Attr("unofficial"@, "true"@), EvV::TagDone,
            m1, m2, m3, m4, m5);
        assert(s1 =~= seq![
            EvV::Open("valsi"@),
            EvV::Attr("word"@, w.word),
            EvV::Attr("type"@, wt_text(w.ty)),
            EvV::Attr("unofficial"@, "true"@),
            EvV::TagDone,
        ]);
    } else {
        assert(sp_step(m3, EvV::TagDone) == SpStep::Next(m5));
        lemma_drive4(m0, EvV::Open("valsi"@), EvV::Attr("word"@, w.word),
            EvV::Attr("type"@, wt_text(w.ty)), EvV::TagDone, m1, m2, m3, m5);
        assert(s1 =~= seq![
            EvV::Open("valsi"@),
            EvV::Attr("word"@, w.word),
            EvV::Attr("type"@, wt_text(w.ty)),
            EvV::TagDone,
        ]);
    }
    assert(sp_drive(m0, s1) == Some(m5));
    // rafsi
    let s2 = rafsi_events(w.rafsi);
    lemma_drive_rafsi(dict, words, wb3, w.rafsi);
    let wb4 = WordBV { rafsi: wb3.rafsi + w.rafsi, ..wb3 };
    let m6 = SpMode::WordBody { dict, words, wb: wb4 };
    lemma_drive_append(m0, s1, s2, m5);
    assert(sp_drive(m0, s1 + s2) == Some(m6));
    // selmaho
    let s3 = opt_flat_events("selmaho"@, w.selmaho);
    let wb5 = WordBV { selmaho: w.selmaho, ..wb4 };
    let m7 = SpMode::WordBody { dict, words, wb: wb5 };
    match w.selmaho {
        None => {
            assert(wb5 == wb4);
            assert(sp_drive(m6, s3) == Some(m7));
        },
        Some(sv) => {
            assert(clean(sv));
            lemma_drive_word_flat(dict, words, wb4, WordField::Selmaho, sv);
        },
    }
    lemma_drive_append(m0, s1 + s2, s3, m6);
    assert(sp_drive(m0, s1 + s2 + s3) == Some(m7));
    // user
    let s4 = user_events(w.user);
    lemma_drive_user(dict, words, wb5, w.user);
    let wb6 = WordBV { user: Some(w.user), ..wb5 };
    let m8 = SpMode::WordBody { dict, words, wb: wb6 };
    lemma_drive_append(m0, s1 + s2 + s3, s4, m7);
    assert(sp_drive(m0, s1 + s2 + s3 + s4) == Some(m8));
    // definition
    let s5 = flat_events("definition"@, w.definition);
    lemma_drive_word_flat(dict, words, wb6, WordField::Definition, w.definition);
    let wb7 = WordBV { definition: Some(w.definition), ..wb6 };
    let m9 = SpMode::WordBody { dict, words, wb: wb7 };
    lemma_drive_append(m0, s1 + s2 + s3 + s4, s5, m8);
    assert(sp_drive(m0, s1 + s2 + s3 + s4 + s5) == Some(m9));
    // definitionid
    let s6 = flat_events("definitionid"@, u32_text(w.definition_id));
    lemma_drive_word_flat(dict, words, wb7, WordField::DefinitionId, u32_text(w.definition_id));
    let wb8 = WordBV { definition_id: Some(w.definition_id), ..wb7 };
    let m10 = SpMode::WordBody { dict, words, wb: wb8 };
    lemma_drive_append(m0, s1 + s2 + s3 + s4 + s5, s6, m9);
    assert(sp_drive(m0, s1 + s2 + s3 + s4 + s5 + s6) == Some(m10));
    // notes
    let s7 = opt_flat_events("notes"@, w.notes);
    let wb9 = WordBV { notes: w.notes, ..wb8 };
    let m11 = SpMode::WordBody { dict, words, wb: wb9 };
    match w.notes {
        None => {
            assert(wb9 == wb8);
            assert(sp_drive(m10, s7) == Some(m11));
        },
        Some(nv) => {
            assert(clean(nv));
            lemma_drive_word_flat(dict, words, wb8, WordField::Notes, nv);
        },
    }
    lemma_drive_append(m0, s1 + s2 + s3 + s4 + s5 + s6, s7, m10);
    assert(sp_drive(m0, s1 + s2 + s3 + s4 + s5 + s6 + s7) == Some(m11));
    // glosswords
    let s8 = glosses_events(w.glosses);
    lemma_drive_glosses(dict, words, wb9, w.glosses);
    let wb10 = WordBV { glosses: wb9.glosses + w.glosses, ..wb9 };
    let m12 = SpMode::WordBody { dict, words, wb: wb10 };
    lemma_drive_append(m0, s1 + s2 + s3 + s4 + s5 + s6 + s7, s8, m11);
    assert(sp_drive(m0, s1 + s2 + s3 + s4 + s5 + s6 + s7 + s8) == Some(m12));
    // keywords
    let s9 = keys_events(w.keywords);
    lemma_drive_keys(dict, words, wb10, w.keywords);
    let wb11 = WordBV { keywords: wb10.keywords + w.keywords, ..wb10 };
    let m13 = SpMode::WordBody { dict, words, wb: wb11 };
    lemma_drive_append(m0, s1 + s2 + s3 + s4 + s5 + s6 + s7 + s8, s9, m12);
    assert(sp_drive(m0, s1 + s2 + s3 + s4 + s5 + s6 + s7 + s8 + s9) == Some(m13));
    // the close tag commits the whole record
    assert(wb11.rafsi =~= w.rafsi);
    assert(wb11.glosses =~= w.glosses);
    assert(wb11.keywords =~= w.keywords);
    assert(sp_fin_word(wb11) == Ok::<WordV, ErrV>(
        WordV {
            word: w.word,
            ty: w.ty,
            unofficial: w.unofficial,
            rafsi: wb11.rafsi,
            selmaho: w.selmaho,
            user: w.user,
            definition: w.definition,
            definition_id: w.definition_id,
            notes: w.notes,
            glosses: wb11.glosses,
            keywords: wb11.keywords,
        },
    ));
    assert(WordV {
        word: w.word,
        ty: w.ty,
        unofficial: w.unofficial,
        rafsi: wb11.rafsi,
        selmaho: w.selmaho,
        user: w.user,
        definition: w.definition,
        definition_id: w.definition_id,
        notes: w.notes,
        glosses: wb11.glosses,
        keywords: wb11.keywords,
    } == w);
    let m14 = SpMode::DirWords { dict, words: words.push(w) };
    assert(sp_step(m13, EvV::Close("valsi"@)) == SpStep::Next(m14));
    lemma_drive1(m13, EvV::Close("valsi"@), m14);
    lemma_drive_append(m0, s1 + s2 + s3 + s4 + s5 + s6 + s7 + s8 + s9, seq![EvV::Close("valsi"@)],
        m13);
    assert(word_events(w) == s1 + s2 + s3 + s4 + s5 + s6 + s7 + s8 + s9 + seq![
        EvV::Close("valsi"@),
    ]);
}

/// Reading a list of `valsi` elements appends them in order.
proof fn lemma_drive_words(dict: DictBV, words: Seq<WordV>, ws: Seq<WordV>)
    requires
        forall|i: int| 0 <= i < ws.len() ==> wf_word(#[trigger] ws[i]),
    ensures
        sp_drive(SpMode::DirWords { dict, words }, words_events(ws)) == Some(
            SpMode::DirWords { dict, words: words + ws },
        ),
    decreases ws.len(),
{
    let m0 = SpMode::DirWords { dict, words };
    if ws.len() == 0 {
        assert(words + ws =~= words);
    } else {
        lemma_drive_word(dict, words, ws.first());
        let m1 = SpMode::DirWords { dict, words: words.push(ws.first()) };
        lemma_drive_append(m0, word_events(ws.first()), words_events(ws.drop_first()), m1);
        assert forall|i: int| 0 <= i < ws.drop_first().len() implies wf_word(
            #[trigger] ws.drop_first()[i],
        ) by {
            assert(ws.drop_first()[i] == ws[i + 1]);
        }
        lemma_drive_words(dict, words.push(ws.first()), ws.drop_first());
        assert(words.push(ws.first()) + ws.drop_first() =~= words + ws);
    }
}

/// The round trip of the reader: the canonical document of any
/// well-formed dictionary value parses back to exactly that value.  In
/// particular, a parse of a conforming document succeeds, keeps every
/// attribute and text value verbatim, and returns the `valsi` and
/// `nlword` entries in source order and number.
#[verifier::rlimit(100)]
pub proof fn lemma_canonical_round_trip(d: DictionaryV)
    requires
        wf_dict(d),
    ensures
        sp_run(dict_events(d), SpMode::Prologue) == Ok::<DictionaryV, ErrV>(d),
{
    lemma_tag_facts();
    lemma_clean_lojban();
    lemma_clean_english();
    reveal_strlit("lojban");
    reveal_strlit("English");
    assert("lojban"@.len() == 6);
    assert("English"@.len() == 7);
    let dict0 = DictBV { l2e: None, e2l: None };
    let m0 = SpMode::Prologue;
    let m1 = SpMode::DictAttrs;
    let m2 = SpMode::DictBody { dict: dict0 };
    let m3 = SpMode::DirAttrs { dict: dict0, from: None, to: None };
    let m4 = SpMode::DirAttrs { dict: dict0, from: Some("lojban"@), to: None };
    let m5 = SpMode::DirAttrs { dict: dict0, from: Some("lojban"@), to: Some("English"@) };
    let m6 = SpMode::DirWords { dict: dict0, words: Seq::empty() };
    let p1 = seq![
        EvV::Open("dictionary"@),
        EvV::TagDone,
        EvV::Open("direction"@),
        EvV::Attr("from"@, "lojban"@),
        EvV::Attr("to"@, "English"@),
        EvV::TagDone,
    ];
    assert(sp_step(m0, EvV::Open("dictionary"@)) == SpStep::Next(m1));
    assert(sp_step(m1, EvV::TagDone) == SpStep::Next(m2));
    assert(sp_step(m2, EvV::Open("direction"@)) == SpStep::Next(m3));
    assert(sp_step(m3, EvV::Attr("from"@, "lojban"@)) == SpStep::Next(m4));
    assert(sp_step(m4, EvV::Attr("to"@, "English"@)) == SpStep::Next(m5));
    assert(sp_step(m5, EvV::TagDone) == SpStep::Next(m6));
    lemma_drive6(m0, EvV::Open("dictionary"@), EvV::TagDone, EvV::Open("direction"@),
        EvV::Attr("from"@, "lojban"@), EvV::Attr("to"@, "English"@), EvV::TagDone, m1, m2, m3, m4,
        m5, m6);
    let ws = words_events(d.lojban_to_english);
    lemma_drive_words(dict0, Seq::empty(), d.lojban_to_english);
    assert(Seq::empty() + d.lojban_to_english =~= d.lojban_to_english);
    let m7 = SpMode::DirWords { dict: dict0, words: d.lojban_to_english };
    lemma_drive_append(m0, p1, ws, m6);
    assert(sp_drive(m0, p1 + ws) == Some(m7));
    let dict1 = DictBV { l2e: Some(d.lojban_to_english), e2l: None };
    let m8 = SpMode::DictBody { dict: dict1 };
    let m9 = SpMode::DirAttrs { dict: dict1, from: None, to: None };
    let m10 = SpMode::DirAttrs { dict: dict1, from: Some("English"@), to: None };
    let m11 = SpMode::DirAttrs { dict: dict1, from: Some("English"@), to: Some("lojban"@) };
    let m12 = SpMode::DirNls { dict: dict1, nls: Seq::empty() };
    let p2 = seq![
        EvV::Close("direction"@),
        EvV::Open("direction"@),
        EvV::Attr("from"@, "English"@),
        EvV::Attr("to"@, "lojban"@),
        EvV::TagDone,
    ];
    assert(sp_step(m7, EvV::Close("direction"@)) == SpStep::Next(m8));
    assert(sp_step(m8, EvV::Open("direction"@)) == SpStep::Next(m9));
    assert(sp_step(m9, EvV::Attr("from"@, "English"@)) == SpStep::Next(m10));
    assert(sp_step(m10, EvV::Attr("to"@, "lojban"@)) == SpStep::Next(m11));
    assert("English"@ != "lojban"@);
    assert(sp_step(m11, EvV::TagDone) == SpStep::Next(m12));
    lemma_drive5(m7, EvV::Close("direction"@), EvV::Open("direction"@),
        EvV::Attr("from"@, "English"@), EvV::Attr("to"@, "lojban"@), EvV::TagDone, m8, m9, m10,
        m11, m12);
    lemma_drive_append(m0, p1 + ws, p2, m7);
    assert(sp_drive(m0, p1 + ws + p2) == Some(m12));
    let ns = nls_events(d.english_to_lojban);
    lemma_drive_nls(dict1, Seq::empty(), d.english_to_lojban);
    assert(Seq::empty() + d.english_to_lojban =~= d.english_to_lojban);
    let m13 = SpMode::DirNls { dict: dict1, nls: d.english_to_lojban };
    lemma_drive_append(m0, p1 + ws + p2, ns, m12);
    assert(sp_drive(m0, p1 + ws + p2 + ns) == Some(m13));
    let front = p1 + ws + p2 + ns;
    let rest = seq![EvV::Close("direction"@), EvV::Close("dictionary"@)];
    assert(dict_events(d) == front + rest);
    lemma_drive_run(m0, front, rest, m13);
    let dict2 = DictBV { l2e: Some(d.lojban_to_english), e2l: Some(d.english_to_lojban) };
    let m14 = SpMode::DictBody { dict: dict2 };
    assert(sp_step(m13, EvV::Close("direction"@)) == SpStep::Next(m14));
    assert(sp_step(m14, EvV::Close("dictionary"@)) == SpStep::Finish(
        DictionaryV {
            lojban_to_english: d.lojban_to_english,
            english_to_lojban: d.english_to_lojban,
        },
    ));
    assert(DictionaryV {
        lojban_to_english: d.lojban_to_english,
        english_to_lojban: d.english_to_lojban,
    } == d);
    reveal_with_fuel(sp_run, 3);
    assert(rest.first() == EvV::Close("direction"@));
    assert(rest.drop_first() =~= seq![EvV::Close("dictionary"@)]);
    assert(seq![EvV::Close("dictionary"@)].first() == EvV::Close("dictionary"@));
    assert(sp_run(rest, m13) == Ok::<DictionaryV, ErrV>(d));
}

} // verus!
