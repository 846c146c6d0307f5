//! The trusted boundary to the outside XML tokenizer.
//!
//! `hard_xml::XmlReader` drives the `xmlparser` tokenizer over the
//! document text.  Its stream of tokens is modelled by two names:
//! `reader_events`, the events a reader will still yield, and
//! `doc_events`, the events the tokenizer yields for a given text.  Both
//! are deterministic: the tokenizer reads nothing but the text.  The
//! wrappers below are the only places the library touches the outside
//! crate.

use vstd::prelude::*;

use crate::error::{ErrV, ParseError};
use crate::event::Event::{Attr, Cdata, Close, Fault, Misc, Open, TagDone, TagEmpty, Text};
use crate::event::{EvV, Event};
use hard_xml::xmlparser::ElementEnd as End;
use hard_xml::xmlparser::Token as Tok;

verus! {

#[verifier::external_type_specification]
#[verifier::external_body]
pub struct ExXmlReader<'a>(hard_xml::XmlReader<'a>);

/// The events a reader will still yield, in order.
pub uninterp spec fn reader_events(r: hard_xml::XmlReader<'_>) -> Seq<EvV>;

/// The events the tokenizer yields for a document text, in order.
pub uninterp spec fn doc_events(s: Seq<char>) -> Seq<EvV>;

/// What resolving entity references leaves of a raw value, or `None`
/// where a reference is unterminated or unrecognized.
pub uninterp spec fn sp_unescape_hard(s: Seq<char>) -> Option<Seq<char>>;

/// What resolving entity references leaves of a raw value.  A value
/// without an ampersand has no reference in it and stays as it is.
pub open spec fn sp_unescape(s: Seq<char>) -> Option<Seq<char>> {
    if forall|i: int| 0 <= i < s.len() ==> s[i] != '&' {
        Some(s)
    } else {
        sp_unescape_hard(s)
    }
}

/// Relies on `hard_xml::XmlReader::new`: a fresh reader yields the
/// token stream of the text.
#[verifier::external_body]
pub fn reader_new<'a>(text: &'a str) -> (r: hard_xml::XmlReader<'a>)
    ensures
        reader_events(r) == doc_events(text@),
{
    hard_xml::XmlReader::new(text)
}

/// Relies on `hard_xml::XmlReader::next` (the `xmlparser` tokenizer
/// behind it): yields the next token of the stream, converted to an
/// [`Event`] by local name, or `None` once the stream is exhausted;
/// after a tokenizer error the stream ends.
#[verifier::external_body]
pub fn reader_next(r: &mut hard_xml::XmlReader<'_>) -> (ev: Option<Event>)
    ensures
        match ev {
            Some(e) => reader_events(*old(r)).len() > 0 && e@ == reader_events(*old(r)).first()
                && reader_events(*final(r)) == reader_events(*old(r)).drop_first(),
            None => reader_events(*old(r)).len() == 0 && reader_events(*final(r)).len() == 0,
        },
{
    match r.next() {
        None => None,
        Some(Err(e)) => Some(Fault(e.to_string())),
        Some(Ok(t)) => Some(match t {
            Tok::ElementStart { local, .. } => Open(local.to_string()),
            Tok::Attribute { local, value, .. } => Attr(local.to_string(), value.to_string()),
            Tok::ElementEnd { end: End::Open, .. } => TagDone,
            Tok::ElementEnd { end: End::Empty, .. } => TagEmpty,
            Tok::ElementEnd { end: End::Close(_, local), .. } => Close(local.to_string()),
            Tok::Text { text } => Text(text.to_string()),
            Tok::Cdata { text, .. } => Cdata(text.to_string()),
            _ => Misc,
        }),
    }
}

/// Relies on `hard_xml::utils::xml_unescape`: resolves the five named
/// entities and numeric character references; the result depends on the
/// characters alone, and a value without an ampersand comes back
/// unchanged.
#[verifier::external_body]
pub fn unescape(raw: &str) -> (r: Result<String, ParseError>)
    ensures
        match r {
            Ok(t) => sp_unescape(raw@) == Some(t@),
            Err(e) => sp_unescape(raw@) is None && e@ == (ErrV::BadEntity { value: raw@ }),
        },
        r is Err ==> sp_unescape_hard(raw@) is None,
{
    match hard_xml::utils::xml_unescape(raw) {
        Ok(t) => Ok(t.into_owned()),
        Err(_) => Err(ParseError::BadEntity { value: raw.to_string() }),
    }
}

} // verus!
