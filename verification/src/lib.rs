//! Decoder for the nested binary container format used by Bethesda-style
//! game-plugin files ("ESP/ESM"): a file-wide header record followed by
//! homogeneous groups of typed records, each holding typed, variable-length
//! subrecords.
//!
//! The crate offers two layers:
//!
//! * a typed, streaming decoder built on a byte cursor with three nested
//!   byte-budget counters (`cursor`, `records`, `subrecords`, `groups`,
//!   `plugin`), whose entry point is `plugin::decode_plugin`; and
//! * a raw structural parser that slices each container to its declared
//!   length and keeps subrecord payloads as plain bytes (`parser`,
//!   `session`).
//!
//! Every decode function is specified against a spec-level mirror of the
//! byte stream, so the decoded value is a mathematical function of the
//! input bytes.

pub mod cursor;
pub mod error;
pub mod groups;
pub mod logger;
pub mod parser;
pub mod plugin;
pub mod read;
pub mod records;
pub mod session;
pub mod settings;
pub mod subrecords;
mod text;
pub mod types;
pub mod ui;
