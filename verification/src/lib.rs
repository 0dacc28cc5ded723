//! Extraction of a structured issue identifier from an inbound email event.
//!
//! An email delivery notification carries zero or more records; the first
//! record's message id, by convention of the producing mail system, encodes a
//! slash-separated identifier `<owner/repo/reserved/issueNumber/...>`. This
//! library extracts that identifier, classifying every way the input can fall
//! short.

pub mod decimal;
pub mod event;
pub mod extract;
pub mod laws;
pub mod text;
