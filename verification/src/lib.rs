//! Parser for raw text lines received from amateur-radio DX cluster servers.
//!
//! A cluster feed interleaves several loosely delimited announcement formats
//! (DX spots, WWV/WCY propagation reports, weather and operator messages).
//! [`parse`] classifies a trimmed line by its literal prefix and extracts the
//! typed record for that format; [`parse_rbn`] decodes the Reverse Beacon
//! Network convention inside a DX spot's comment. Every record can be
//! projected to a JSON exchange string with [`Spot::to_json`].
//!
//! The crate is purely functional: each call takes a line and returns a
//! record or a [`ParseError`], with no shared state. Each grammar is
//! ordinary code over the line's characters, so there is no pattern object
//! to compile or cache, and calls are independently safe from any number
//! of threads. The line grammars are specified by the spec-level parser in
//! [`grammar`], and the executable parser is verified to agree with it
//! exactly.

pub mod grammar;
pub mod json;
pub mod laws;
pub mod parser;
pub mod text;
pub mod types;

pub use parser::{parse, parse_rbn};
pub use types::{
    DX, DXView, MsgView, ParseError, RBN, RBNView, Spot, SpotView, ToAll, ToLocal, WCY, WCYView,
    WWV, WWVView, WX,
};
