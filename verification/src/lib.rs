//! A verified core for a file-based todo manager.
//!
//! A todo list is an ordered sequence of text lines; each line is a record
//! `<title> - <description>`, optionally prefixed by a completion marker.
//! This crate verifies the record manipulation itself: formatting an entry,
//! checking a line off, removing a line, and the store that maps list names
//! to line sequences. All file reading and writing stays outside the crate,
//! which works on plain in-memory values.

pub mod cli;
pub mod entry;
pub mod laws;
pub mod lines;
pub mod paths;
pub mod store;
pub mod text;
