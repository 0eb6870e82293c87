//! Filename templates for converted camera RAW images, and the per-file
//! decisions of the batch conversion that uses them.
//!
//! - [`metadata`]: the closed set of metadata references, the keyword table
//!   that names them, and their expansion against decoded metadata.
//! - [`text`]: the character-level string work that expansion needs.
//! - [`parse`]: the template compiler.
//! - [`date`]: the date formatting that date tokens rely on.
//! - [`render`]: rendering a compiled template into an output filename.
//! - [`job`]: the per-file job state machine and the batch tally.
//! - [`ingest`]: which inputs and which destination a batch accepts.
pub mod metadata;
pub mod text;
pub mod parse;
pub mod date;
pub mod render;
pub mod job;
pub mod ingest;
