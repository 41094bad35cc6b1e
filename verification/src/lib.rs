//! A typed client library for the last.fm web API.
//!
//! The verified core covers the envelope decoder (a response is either a
//! success payload or an error payload, told apart structurally), the
//! keyed-content extractor (success payloads are nested under a root key and
//! a content key chosen per endpoint), the page attributes carried as decimal
//! strings on the wire, the error taxonomy, and the pagination engine that
//! turns page-by-page fetches into a single forward-only item sequence.
//!
//! Network transport is an external collaborator: the pagination engine is a
//! state machine that asks its driver to fetch a page and is handed the raw
//! bytes (or the transport failure) in return.

pub mod authentication;
pub mod error;
pub mod json;
pub mod page;
pub mod request;
pub mod types;
