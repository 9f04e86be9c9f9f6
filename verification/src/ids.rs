//! Identifiers. Every run, call, approval, stage and target is identified by
//! the 128-bit value of a UUID.
use vstd::prelude::*;

verus! {

/// A fresh random identifier.
///
/// Calls `uuid::Uuid::new_v4` and returns its 128-bit value. Nothing is
/// claimed of the value: it comes from the operating system's random source.
#[verifier::external_body]
pub(crate) fn new_id() -> u128 {
    uuid::Uuid::new_v4().as_u128()
}

} // verus!
