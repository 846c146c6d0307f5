//! The lexical events the schema reader consumes.
//!
//! One event corresponds to one token of the outside XML tokenizer,
//! reduced to the shape the reader relies on: element starts, attributes,
//! the three ways a start tag can end, close tags, character data, and a
//! catch-all for markup the reader skips.  Attribute values and text are
//! carried raw; entity references are resolved where the reader consumes
//! them.

use vstd::prelude::*;

verus! {

/// One lexical event, with owned strings.
#[derive(Debug, Clone, PartialEq, Eq)]
pub enum Event {
    /// `<name`, by local name.
    Open(String),
    /// An attribute `key="raw value"` inside a start tag.
    Attr(String, String),
    /// The `>` that closes a start tag with children to follow.
    TagDone,
    /// The `/>` that closes a start tag with no children.
    TagEmpty,
    /// `</name>`, by local name.
    Close(String),
    /// Character data, raw (entity references unresolved).
    Text(String),
    /// CDATA content, which the reader takes verbatim.
    Cdata(String),
    /// A declaration, comment, processing instruction or DTD item.
    Misc,
    /// A tokenizer error, with its message; no further events follow.
    Fault(String),
}

/// View of [`Event`].
pub enum EvV {
    Open(Seq<char>),
    Attr(Seq<char>, Seq<char>),
    TagDone,
    TagEmpty,
    Close(Seq<char>),
    Text(Seq<char>),
    Cdata(Seq<char>),
    Misc,
    Fault(Seq<char>),
}

impl View for Event {
    type V = EvV;

    open spec fn view(&self) -> EvV {
        match self {
            Event::Open(s) => EvV::Open(s@),
            Event::Attr(k, v) => EvV::Attr(k@, v@),
            Event::TagDone => EvV::TagDone,
            Event::TagEmpty => EvV::TagEmpty,
            Event::Close(s) => EvV::Close(s@),
            Event::Text(s) => EvV::Text(s@),
            Event::Cdata(s) => EvV::Cdata(s@),
            Event::Misc => EvV::Misc,
            Event::Fault(s) => EvV::Fault(s@),
        }
    }
}

impl DeepView for Event {
    type V = EvV;

    open spec fn deep_view(&self) -> EvV {
        self.view()
    }
}

} // verus!
