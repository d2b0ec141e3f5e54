//! Extraction of a fixed set of metadata fields from the HTML text of a
//! staff-profile page.
//!
//! The library models the parsed document as plain values (the `meta`
//! elements in document order and the first heading's text), performs the
//! field lookups over that model with verified contracts, and delegates the
//! HTML parsing itself to an external parser behind trusted wrappers.

pub mod extract;
pub mod laws;
pub mod model;
pub mod scrape;
pub mod url;
