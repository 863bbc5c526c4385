//! A translation dispatcher: one request, one of ten providers, one uniform
//! result.
//!
//! The crate holds everything that can be decided without touching the
//! network: which request a provider expects, how a raw response is
//! classified, how the translated text is extracted from JSON or HTML, and
//! the order in which a premium and a general-purpose provider are tried.
//! Sending the request is left to a caller-supplied function.

pub mod text;

pub mod engine;
pub mod languages;
pub mod tables;
pub mod error;
pub mod json;
pub mod html;
pub mod lang;
pub mod transport;
pub mod reading;
pub mod translator;
pub mod policy;
pub mod formatting;
pub mod updates;
