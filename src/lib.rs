//! Unicode code point information: decoders for the Unicode Character Database
//! text files, a code-unit encoder, property annotators, the report model and
//! the report renderer, plus the small helpers of the checksum scanner and the
//! language-subtag registry tool.
pub mod annotate;
pub mod blocks;
pub mod checksum;
pub mod config;
pub mod flag_laws;
pub mod names_list;
pub mod registry;
pub mod report;
pub mod text;
pub mod unicode_data;
pub mod utf;
