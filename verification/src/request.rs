//! The decodable parts of the per-endpoint requests.
//!
//! Building and sending the HTTP requests themselves is the transport
//! side's business; what belongs to the library is how each endpoint's
//! responses decode and which streaming decisions they take.

pub mod user;
