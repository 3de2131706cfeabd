//! A client for a remote weather service: it builds the request for a
//! location, keeps the one report that a run obtains, and turns that report
//! into named fields and into the lines of a short summary.
//!
//! The library does no input or output. Its caller reads the command line
//! and the key, fetches the URL that the client asks for, and prints.
//!
//! Two functions of the standard library are taken on trust, each with a
//! stated contract: `String::push` in [`encode`] and `str::to_lowercase` in
//! [`summary`]. Everything else is proved.

pub mod weather_report;
pub mod encode;
pub mod link;
pub mod fields;
pub mod weather_fetcher;
pub mod summary;
pub mod usage;
