//! Capability markers for API authentication.
//!
//! An endpoint demands a capability (reading public data, writing a user's
//! data), and a client configuration enables capabilities through the
//! authentication it carries. The markers let call sites state that demand
//! as a bound.

use vstd::prelude::*;

pub mod public;

verus! {

/// A capability an endpoint may demand.
pub trait Capability {

}

/// The capability to read publicly visible data.
pub struct ReadPublic {

}

/// The capability to write a user's data.
pub struct WriteUser {

}

impl Capability for ReadPublic {

}

impl Capability for WriteUser {

}

/// Marks an authentication as enabling the capability `C`.
pub trait Enables<C: Capability> {

}

} // verus!
