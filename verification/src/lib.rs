//! A schema-validating reader for the jbovlaste bilingual dictionary XML
//! export.
//!
//! The library turns the XML text into a typed [`model::Dictionary`] or a
//! typed [`error::ParseError`].  Tokenization is delegated to an outside
//! XML tokenizer behind the trusted declarations in [`lex`]; everything
//! that interprets the token stream against the dictionary schema is
//! verified, with the intended meaning written down as a specification
//! state machine in [`machine`] and [`parser`].

pub mod error;
pub mod event;
pub mod lex;
pub mod machine;
pub mod laws;
pub mod model;
pub mod parser;
pub mod textutil;
